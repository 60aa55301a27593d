use auth_service::domain::data_stores::{TOKEN_TTL_SECONDS, TWO_FA_CODE_TTL_SECONDS};
use auth_service::domain::{
    BannedTokenStore, BannedTokenStoreError, Email, LoginAttemptId, Password, TwoFACode,
    TwoFACodeStore, TwoFACodeStoreError, User, UserStore, UserStoreError,
};
use auth_service::services::data_stores::postgres_user_store::{
    row_for_user, row_for_user_with_salt, user_from_row, validate_row, UserRow,
};
use auth_service::services::data_stores::redis_banned_token_store::{
    ban_token_command, get_key as banned_token_key, read_ban_reply, CacheReply,
};
use auth_service::services::data_stores::redis_two_fa_code_store::{
    add_code_command, get_key as two_fa_code_key, read_code_reply,
};
use auth_service::services::password_hasher::{
    accept_hash, compute_password_hash, has_lanes_in_bounds, hash_with_salt,
    reads_with_salt_and_digest, verify_password_hash, PasswordHashError,
};
use auth_service::services::{HashmapTwoFACodeStore, HashmapUserStore, HashsetBannedTokenStore};

const NOW: u64 = 1_700_000_000;

fn email(text: &str) -> Email {
    Email::parse(text.to_string()).unwrap()
}

fn password(text: &str) -> Password {
    match Password::parse(text.to_string()) {
        Ok(password) => password,
        Err(e) => panic!("{}", e),
    }
}

#[test]
fn test_add_user() {
    let mut user_store = HashmapUserStore::default();
    let user = User::new(email("garik@garik.com"), password("kirag1234"), false);

    let result = user_store.add_user(user.clone());
    assert!(result.is_ok());

    let result = user_store.add_user(user.clone());
    assert_eq!(result, Err(UserStoreError::UserAlreadyExists));
}

#[test]
fn test_get_user() {
    let mut user_store = HashmapUserStore::default();
    let user = User::new(email("test@test.com"), password("test1234"), false);

    assert_eq!(user_store.add_user(user.clone()), Ok(()));
    let found = match user_store.get_user(&user.email) {
        Ok(found) => found,
        Err(e) => panic!("{:?}", e),
    };
    assert_eq!(found.email, user.email);
    assert_eq!(found.requires_2fa, user.requires_2fa);
    assert_eq!(verify_password_hash(found.password.as_ref(), "test1234"), Ok(()));

    let bad_user = email("noway@jose.com");
    let result = user_store.get_user(&bad_user);
    assert!(result == Err(UserStoreError::UserNotFound));
}

#[test]
fn test_validate_user() {
    let mut user_store = HashmapUserStore::default();
    let email_ = email("test@test.com");
    let password_ = password("password");
    let user = User::new(email_.clone(), password_.clone(), false);

    // Test validating a user that exists with correct password
    assert_eq!(user_store.add_user(user.clone()), Ok(()));
    let result = user_store.validate_user(&email_, &password_);
    assert_eq!(result, Ok(()));

    // Test validating a user that exists with incorrect password
    let wrong_password = password("incorrect");
    let result = user_store.validate_user(&email_, &wrong_password);
    assert_eq!(result, Err(UserStoreError::InvalidCredentials));

    // Test validating a user that doesn't exist
    let bad_user = email("nope@no.com");
    let result = user_store.validate_user(&bad_user, &password_);

    assert_eq!(result, Err(UserStoreError::UserNotFound));
}

#[test]
fn added_user_is_kept_with_a_hash_of_its_password() {
    let mut user_store = HashmapUserStore::default();
    let user = User::new(email("a@b.com"), password("password123"), true);
    assert_eq!(user_store.add_user(user.clone()), Ok(()));
    let found = match user_store.get_user(&email("a@b.com")) {
        Ok(found) => found,
        Err(e) => panic!("{:?}", e),
    };
    assert_eq!(found.email.as_ref(), "a@b.com");
    assert!(found.requires_2fa);
    assert_ne!(found.password.as_ref(), "password123");
    assert!(found.password.as_ref().starts_with("$argon2id$v=19$m=15000,t=2,p=1$"));
    assert_eq!(verify_password_hash(found.password.as_ref(), "password123"), Ok(()));
    assert_eq!(
        verify_password_hash(found.password.as_ref(), "password124"),
        Err(PasswordHashError::Mismatch)
    );
}

#[test]
fn duplicate_adds_give_one_identity() {
    let mut user_store = HashmapUserStore::default();
    let mut added = 0;
    let mut refused = 0;
    for attempt in 0..6 {
        let user = User::new(email("dup@b.com"), password("password123"), attempt % 2 == 0);
        match user_store.add_user(user) {
            Ok(()) => added += 1,
            Err(UserStoreError::UserAlreadyExists) => refused += 1,
            Err(e) => panic!("{:?}", e),
        }
    }
    assert_eq!(added, 1);
    assert_eq!(refused, 5);
    let found = match user_store.get_user(&email("dup@b.com")) {
        Ok(found) => found,
        Err(e) => panic!("{:?}", e),
    };
    // The first attempt won.
    assert!(found.requires_2fa);
}

#[test]
fn emails_are_told_apart_by_case() {
    let mut user_store = HashmapUserStore::default();
    let user = User::new(email("Case@b.com"), password("password123"), false);
    assert_eq!(user_store.add_user(user), Ok(()));
    assert!(user_store.get_user(&email("case@b.com")) == Err(UserStoreError::UserNotFound));
    let other = User::new(email("case@b.com"), password("password123"), false);
    assert_eq!(user_store.add_user(other), Ok(()));
}

#[test]
fn user_store_errors_in_words() {
    assert_eq!(UserStoreError::UserAlreadyExists.message(), "User already exists");
    assert_eq!(UserStoreError::UserNotFound.message(), "User not found");
    assert_eq!(UserStoreError::InvalidCredentials.message(), "Invalid credentials");
    assert_eq!(UserStoreError::UnexpectedError.message(), "Unexpected error");
    assert_eq!(BannedTokenStoreError::UnexpectedError.message(), "Unexpected error");
    assert_eq!(
        TwoFACodeStoreError::LoginAttemptIdNotFound.message(),
        "Login Attempt ID not found"
    );
    assert_eq!(TwoFACodeStoreError::UnexpectedError.message(), "Unexpected error");
}

#[test]
fn hashset_banned_token_store_test_ban_token() {
    let mut store = HashsetBannedTokenStore::default();
    let token = "test_token".to_owned();

    let result = store.ban_token(token.clone(), NOW);

    assert!(result.is_ok());
    assert_eq!(store.check_if_token_is_banned(&token, NOW), Ok(true));
}

#[test]
fn hashset_banned_token_store_test_check_if_token_is_banned() {
    let mut store = HashsetBannedTokenStore::default();
    let banned_token = "test_token".to_owned();
    let token = "this should fail".to_owned();

    assert_eq!(store.ban_token(banned_token.clone(), NOW), Ok(()));

    let banned_result = store.check_if_token_is_banned(&banned_token, NOW).unwrap();
    let allowed_result = store.check_if_token_is_banned(&token, NOW).unwrap();

    assert!(banned_result);
    assert!(!allowed_result);
}

#[test]
fn ban_runs_out_with_the_token() {
    assert_eq!(TOKEN_TTL_SECONDS, 600);
    let mut store = HashsetBannedTokenStore::default();
    assert_eq!(store.check_if_token_is_banned("t", NOW), Ok(false));
    assert_eq!(store.ban_token("t".to_string(), NOW), Ok(()));
    assert_eq!(store.check_if_token_is_banned("t", NOW), Ok(true));
    assert_eq!(store.check_if_token_is_banned("t", NOW + 599), Ok(true));
    assert_eq!(store.check_if_token_is_banned("t", NOW + 600), Ok(false));
    assert_eq!(store.check_if_token_is_banned("t", NOW + 601), Ok(false));
    assert_eq!(store.check_if_token_is_banned("u", NOW), Ok(false));
}

#[test]
fn banning_twice_is_no_error_and_renews_the_ban() {
    let mut store = HashsetBannedTokenStore::default();
    assert_eq!(store.ban_token("t".to_string(), NOW), Ok(()));
    assert_eq!(store.ban_token("t".to_string(), NOW + 100), Ok(()));
    assert_eq!(store.check_if_token_is_banned("t", NOW + 600), Ok(true));
    assert_eq!(store.check_if_token_is_banned("t", NOW + 699), Ok(true));
    assert_eq!(store.check_if_token_is_banned("t", NOW + 700), Ok(false));
}

#[test]
fn ban_at_the_end_of_time() {
    let mut store = HashsetBannedTokenStore::default();
    assert_eq!(store.ban_token("t".to_string(), u64::MAX - 10), Ok(()));
    assert_eq!(store.check_if_token_is_banned("t", u64::MAX - 1), Ok(true));
    assert_eq!(store.check_if_token_is_banned("t", u64::MAX), Ok(false));
}

#[test]
fn test_add_code() {
    let mut code_store = HashmapTwoFACodeStore::default();
    let email = email("rando@gmail.com");
    let login_attempt_id = LoginAttemptId::default();
    let code = TwoFACode::default();

    let result = code_store.add_code(email.clone(), login_attempt_id, code, NOW);
    assert!(result.is_ok());
    assert!(code_store.get_code(&email, NOW).is_ok());
}

#[test]
fn test_remove_code() {
    let mut code_store = HashmapTwoFACodeStore::default();
    let email = email("random@gmail.com");
    let login_attempt_id = LoginAttemptId::default();
    let code = TwoFACode::default();

    let result = code_store.add_code(email.clone(), login_attempt_id, code, NOW);
    assert!(result.is_ok());
    assert!(code_store.get_code(&email, NOW).is_ok());

    let result = code_store.remove_code(&email);
    assert!(result.is_ok());
    assert!(code_store.get_code(&email, NOW).is_err());
}

#[test]
fn test_get_code() {
    let mut code_store = HashmapTwoFACodeStore::default();
    let email = email("random1@gmail.com");
    let login_attempt_id = LoginAttemptId::default();
    let code = TwoFACode::default();

    let result = code_store.add_code(email.clone(), login_attempt_id.clone(), code.clone(), NOW);
    assert!(result.is_ok());

    let result = code_store.get_code(&email, NOW);
    assert!(result.is_ok());
    assert!(code_store.get_code(&email, NOW).is_ok());
    assert!(result.unwrap() == (login_attempt_id, code));
}

#[test]
fn second_challenge_takes_the_place_of_the_first() {
    let mut code_store = HashmapTwoFACodeStore::default();
    let email = email("a@b.com");
    let first_id = LoginAttemptId::default();
    let first_code = TwoFACode::parse("111111".to_string()).unwrap();
    let second_id = LoginAttemptId::default();
    let second_code = TwoFACode::parse("222222".to_string()).unwrap();
    assert_eq!(code_store.add_code(email.clone(), first_id.clone(), first_code, NOW), Ok(()));
    assert_eq!(
        code_store.add_code(email.clone(), second_id.clone(), second_code.clone(), NOW),
        Ok(())
    );
    let held = code_store.get_code(&email, NOW).unwrap();
    assert!(held == (second_id, second_code));
    assert!(held.0 != first_id);
}

#[test]
fn challenge_runs_out_after_ten_minutes() {
    assert_eq!(TWO_FA_CODE_TTL_SECONDS, 600);
    let mut code_store = HashmapTwoFACodeStore::default();
    let email = email("a@b.com");
    let id = LoginAttemptId::default();
    let code = TwoFACode::default();
    assert_eq!(code_store.add_code(email.clone(), id, code, NOW), Ok(()));
    assert!(code_store.get_code(&email, NOW).is_ok());
    assert!(code_store.get_code(&email, NOW + 599).is_ok());
    assert!(
        code_store.get_code(&email, NOW + 600) == Err(TwoFACodeStoreError::LoginAttemptIdNotFound)
    );
    assert!(
        code_store.get_code(&email, NOW + 6000) == Err(TwoFACodeStoreError::LoginAttemptIdNotFound)
    );
}

#[test]
fn challenge_that_never_was_is_not_found_and_can_be_removed() {
    let mut code_store = HashmapTwoFACodeStore::default();
    let email = email("a@b.com");
    assert!(code_store.get_code(&email, NOW) == Err(TwoFACodeStoreError::LoginAttemptIdNotFound));
    assert_eq!(code_store.remove_code(&email), Ok(()));
    assert_eq!(code_store.remove_code(&email), Ok(()));
    assert!(code_store.get_code(&email, NOW) == Err(TwoFACodeStoreError::LoginAttemptIdNotFound));
}

#[test]
fn challenges_of_different_emails_are_apart() {
    let mut code_store = HashmapTwoFACodeStore::default();
    let one = email("one@b.com");
    let other = email("other@b.com");
    let id = LoginAttemptId::default();
    let code = TwoFACode::default();
    assert_eq!(code_store.add_code(one.clone(), id.clone(), code.clone(), NOW), Ok(()));
    assert!(code_store.get_code(&other, NOW).is_err());
    assert_eq!(code_store.remove_code(&other), Ok(()));
    assert!(code_store.get_code(&one, NOW).unwrap() == (id, code));
}

#[test]
fn password_hash_is_argon2id_with_the_set_costs() {
    let hash = match hash_with_salt("password123", "c29tZXNhbHRzb21lc2FsdA") {
        Ok(hash) => hash,
        Err(e) => panic!("{:?}", e),
    };
    assert!(hash.starts_with("$argon2id$v=19$m=15000,t=2,p=1$c29tZXNhbHRzb21lc2FsdA$"));
    // The same salt gives the same hash, another salt another.
    assert_eq!(hash_with_salt("password123", "c29tZXNhbHRzb21lc2FsdA"), Ok(hash.clone()));
    let salted_otherwise = hash_with_salt("password123", "b3RoZXJzYWx0b3RoZXJzYQ");
    assert!(salted_otherwise.is_ok());
    assert_ne!(salted_otherwise, Ok(hash.clone()));
    assert_eq!(verify_password_hash(&hash, "password123"), Ok(()));
    assert_eq!(verify_password_hash(&hash, "password12"), Err(PasswordHashError::Mismatch));
}

#[test]
fn password_hash_refuses_a_bad_salt() {
    assert_eq!(hash_with_salt("password123", ""), Err(PasswordHashError::Unexpected));
    assert_eq!(hash_with_salt("password123", "not base64!"), Err(PasswordHashError::Unexpected));
}

#[test]
fn password_hash_with_fresh_salt_verifies() {
    let first = match compute_password_hash("password123") {
        Ok(hash) => hash,
        Err(e) => panic!("{:?}", e),
    };
    let second = match compute_password_hash("password123") {
        Ok(hash) => hash,
        Err(e) => panic!("{:?}", e),
    };
    assert_ne!(first, second);
    assert_ne!(first, "password123");
    assert_eq!(verify_password_hash(&first, "password123"), Ok(()));
    assert_eq!(verify_password_hash(&second, "password123"), Ok(()));
    assert_eq!(verify_password_hash(&first, "Password123"), Err(PasswordHashError::Mismatch));
}

#[test]
fn malformed_hash_is_no_mismatch() {
    assert_eq!(verify_password_hash("", "password123"), Err(PasswordHashError::Unexpected));
    assert_eq!(
        verify_password_hash("password123", "password123"),
        Err(PasswordHashError::Unexpected)
    );
    assert_eq!(
        verify_password_hash("$argon2id$v=19$m=15000,t=2,p=1$", "password123"),
        Err(PasswordHashError::Unexpected)
    );
}

#[test]
fn keys_carry_their_prefix() {
    assert_eq!(banned_token_key("abc.def"), "banned_token:abc.def");
    assert_eq!(banned_token_key(""), "banned_token:");
    assert_eq!(two_fa_code_key(&email("a@b.com")), "two_fa_code:a@b.com");
}

#[test]
fn ban_command_sets_the_key_for_the_life_of_a_token() {
    let command = ban_token_command("abc");
    assert_eq!(command.key, "banned_token:abc");
    assert!(command.value);
    assert_eq!(command.seconds, 600);
    assert_eq!(read_ban_reply(Some(true)), Ok(true));
    assert_eq!(read_ban_reply(Some(false)), Ok(false));
    assert_eq!(read_ban_reply(None), Err(BannedTokenStoreError::UnexpectedError));
}

#[test]
fn challenge_command_holds_a_json_pair_for_ten_minutes() {
    let id = LoginAttemptId::parse("a1a2a3a4b1b2c1c2d1d2d3d4d5d6d7d8".to_string()).unwrap();
    let code = TwoFACode::parse("123456".to_string()).unwrap();
    let command = match add_code_command(&email("a@b.com"), &id, &code) {
        Ok(command) => command,
        Err(e) => panic!("{:?}", e),
    };
    assert_eq!(command.key, "two_fa_code:a@b.com");
    assert_eq!(command.value, r#"["a1a2a3a4-b1b2-c1c2-d1d2-d3d4d5d6d7d8","123456"]"#);
    assert_eq!(command.seconds, 600);
    let held = read_code_reply(CacheReply::Found(command.value)).unwrap();
    assert!(held == (id, code));
}

#[test]
fn challenge_reply_is_read_with_care() {
    assert!(read_code_reply(CacheReply::Absent) == Err(TwoFACodeStoreError::LoginAttemptIdNotFound));
    let unexpected = Err(TwoFACodeStoreError::UnexpectedError);
    assert!(read_code_reply(CacheReply::Failed) == unexpected);
    let found = |text: &str| read_code_reply(CacheReply::Found(text.to_string()));
    assert!(found("") == unexpected);
    assert!(found("nonsense") == unexpected);
    assert!(found(r#"["a1a2a3a4-b1b2-c1c2-d1d2-d3d4d5d6d7d8"]"#) == unexpected);
    assert!(found(r#"["yea","123456"]"#) == unexpected);
    assert!(found(r#"["a1a2a3a4-b1b2-c1c2-d1d2-d3d4d5d6d7d8","99999"]"#) == unexpected);
    assert!(found(r#"["a1a2a3a4-b1b2-c1c2-d1d2-d3d4d5d6d7d8","123456","x"]"#) == unexpected);
    // Blanks between the parts and another spelling of the identifier are in order.
    let held = found(r#" [ "A1A2A3A4B1B2C1C2D1D2D3D4D5D6D7D8" , "123456" ] "#).unwrap();
    assert_eq!(held.0.as_ref(), "a1a2a3a4-b1b2-c1c2-d1d2-d3d4d5d6d7d8");
    assert_eq!(held.1.as_ref(), "123456");
}

#[test]
fn row_for_a_user_holds_a_hash() {
    let user = User::new(email("a@b.com"), password("password123"), true);
    let row = match row_for_user(&user) {
        Ok(row) => row,
        Err(e) => panic!("{:?}", e),
    };
    assert_eq!(row.email, "a@b.com");
    assert!(row.requires_2fa);
    assert_ne!(row.password_hash, "password123");
    assert_eq!(verify_password_hash(&row.password_hash, "password123"), Ok(()));
    assert_eq!(validate_row(Some(row), &password("password123")), Ok(()));
}

#[test]
fn rows_are_read_with_care() {
    assert!(user_from_row(None) == Err(UserStoreError::UserNotFound));
    let sound = UserRow {
        email: "a@b.com".to_string(),
        password_hash: "$argon2id$v=19$m=15000,t=2,p=1$c29tZXNhbHRzb21lc2FsdA$AAAA".to_string(),
        requires_2fa: false,
    };
    let user = match user_from_row(Some(sound)) {
        Ok(user) => user,
        Err(e) => panic!("{:?}", e),
    };
    assert_eq!(user.email.as_ref(), "a@b.com");
    assert!(!user.requires_2fa);
    let without_at = UserRow {
        email: "a.b.com".to_string(),
        password_hash: "$argon2id$v=19$m=15000,t=2,p=1$c29tZXNhbHRzb21lc2FsdA$AAAA".to_string(),
        requires_2fa: false,
    };
    assert!(user_from_row(Some(without_at)) == Err(UserStoreError::UnexpectedError));
    let short_hash = UserRow {
        email: "a@b.com".to_string(),
        password_hash: "short".to_string(),
        requires_2fa: false,
    };
    assert!(user_from_row(Some(short_hash)) == Err(UserStoreError::UnexpectedError));
}

#[test]
fn rows_validate_as_a_store_does() {
    let user = User::new(email("a@b.com"), password("password123"), false);
    let row = match row_for_user(&user) {
        Ok(row) => row,
        Err(e) => panic!("{:?}", e),
    };
    let again = UserRow {
        email: row.email.clone(),
        password_hash: row.password_hash.clone(),
        requires_2fa: row.requires_2fa,
    };
    assert_eq!(
        validate_row(Some(row), &password("password124")),
        Err(UserStoreError::InvalidCredentials)
    );
    assert_eq!(validate_row(Some(again), &password("password123")), Ok(()));
    assert_eq!(validate_row(None, &password("password123")), Err(UserStoreError::UserNotFound));
    let broken = UserRow {
        email: "a@b.com".to_string(),
        password_hash: "no hash at all".to_string(),
        requires_2fa: false,
    };
    assert_eq!(
        validate_row(Some(broken), &password("password123")),
        Err(UserStoreError::UnexpectedError)
    );
}

#[test]
fn user_added_with_a_salt_is_kept_with_the_hash_of_that_salt() {
    let salt = "c29tZXNhbHRzb21lc2FsdA";
    let expected = match hash_with_salt("password123", salt) {
        Ok(hash) => hash,
        Err(e) => panic!("{:?}", e),
    };
    let mut user_store = HashmapUserStore::default();
    let user = User::new(email("a@b.com"), password("password123"), true);
    assert_eq!(user_store.add_user_with_salt(user.clone(), salt), Ok(()));
    let found = match user_store.get_user(&email("a@b.com")) {
        Ok(found) => found,
        Err(e) => panic!("{:?}", e),
    };
    assert_eq!(found.password.as_ref(), expected);
    assert!(found.requires_2fa);
    assert_eq!(
        user_store.add_user_with_salt(user, "b3RoZXJzYWx0b3RoZXJzYQ"),
        Err(UserStoreError::UserAlreadyExists)
    );
    // A salt that is refused leaves the store as it was.
    let other = User::new(email("c@b.com"), password("password123"), false);
    assert_eq!(user_store.add_user_with_salt(other, "!"), Err(UserStoreError::UnexpectedError));
    assert!(user_store.get_user(&email("c@b.com")) == Err(UserStoreError::UserNotFound));
}

#[test]
fn row_with_a_salt_holds_the_hash_of_that_salt() {
    let salt = "c29tZXNhbHRzb21lc2FsdA";
    let user = User::new(email("a@b.com"), password("password123"), false);
    let row = match row_for_user_with_salt(&user, salt) {
        Ok(row) => row,
        Err(e) => panic!("{:?}", e),
    };
    assert_eq!(row.email, "a@b.com");
    assert!(!row.requires_2fa);
    assert_eq!(Ok(row.password_hash), hash_with_salt("password123", salt));
    assert!(row_for_user_with_salt(&user, "").is_err());
}

#[test]
fn broken_row_is_an_unexpected_error_not_a_missing_user() {
    let short_hash = UserRow {
        email: "a@b.com".to_string(),
        password_hash: "short".to_string(),
        requires_2fa: false,
    };
    assert_eq!(
        validate_row(Some(short_hash), &password("password123")),
        Err(UserStoreError::UnexpectedError)
    );
    let without_at = UserRow {
        email: "a.b.com".to_string(),
        password_hash: "$argon2id$v=19$m=15000,t=2,p=1$c29tZXNhbHRzb21lc2FsdA$AAAA".to_string(),
        requires_2fa: false,
    };
    assert_eq!(
        validate_row(Some(without_at), &password("password123")),
        Err(UserStoreError::UnexpectedError)
    );
    assert_eq!(validate_row(None, &password("password123")), Err(UserStoreError::UserNotFound));
}

#[test]
fn lane_counts_are_read_before_a_hash_is_used() {
    assert!(has_lanes_in_bounds(""));
    assert!(has_lanes_in_bounds("password123"));
    assert!(has_lanes_in_bounds("p"));
    assert!(has_lanes_in_bounds("p="));
    assert!(has_lanes_in_bounds("p=,"));
    assert!(has_lanes_in_bounds("$argon2id$v=19$m=15000,t=2,p=1$c29tZXNhbHRzb21lc2FsdA$AAAA"));
    assert!(has_lanes_in_bounds("p=536870911"));
    assert!(!has_lanes_in_bounds("p=536870912"));
    assert!(has_lanes_in_bounds("p=0000000000536870911,"));
    assert!(!has_lanes_in_bounds("$argon2id$v=19$m=15000,t=2,p=536870912$c29tZXNhbHQ$AAAA"));
    assert!(!has_lanes_in_bounds("p=1,p=99999999999999999999999999999"));
    assert!(!has_lanes_in_bounds("xp=4294967295"));
    assert!(has_lanes_in_bounds("q=4294967295,p =4294967295,p=+4294967295"));
}

#[test]
fn hash_that_names_too_many_lanes_is_unexpected() {
    for hash in [
        "$argon2id$v=19$m=15000,t=2,p=536870912$c29tZXNhbHRzb21lc2FsdA$AAAAAAAAAAAAAAAAAAAAAA",
        "$argon2id$v=19$m=4294967295,t=2,p=4294967295$c29tZXNhbHRzb21lc2FsdA$AAAAAAAAAAAAAAAAAAAAAA",
    ] {
        assert_eq!(verify_password_hash(hash, "password123"), Err(PasswordHashError::Unexpected));
    }
    // More lanes than the memory allows: the crate itself refuses.
    assert_eq!(
        verify_password_hash(
            "$argon2id$v=19$m=15000,t=2,p=16777215$c29tZXNhbHRzb21lc2FsdA$AAAAAAAAAAAAAAAAAAAAAA",
            "password123"
        ),
        Err(PasswordHashError::Unexpected)
    );
}

#[test]
fn add_on_a_taken_email_changes_nothing() {
    let mut user_store = HashmapUserStore::default();
    let first = User::new(email("a@b.com"), password("password123"), false);
    assert_eq!(user_store.add_user(first), Ok(()));
    let kept = match user_store.get_user(&email("a@b.com")) {
        Ok(kept) => kept,
        Err(e) => panic!("{:?}", e),
    };
    let second = User::new(email("a@b.com"), password("otherpassword"), true);
    assert_eq!(user_store.add_user(second), Err(UserStoreError::UserAlreadyExists));
    let still = match user_store.get_user(&email("a@b.com")) {
        Ok(still) => still,
        Err(e) => panic!("{:?}", e),
    };
    assert!(still == kept);
    assert!(!still.requires_2fa);
}

#[test]
fn hash_without_salt_or_digest_is_unexpected_not_a_mismatch() {
    for hash in [
        "$argon2id",
        "$argon2id$v=19",
        "$argon2id$v=19$m=15000,t=2,p=1",
        "$argon2id$v=19$m=15000,t=2,p=1$c29tZXNhbHRzb21lc2FsdA",
        "$argon2id$c29tZXNhbHRzb21lc2FsdA",
    ] {
        assert!(!reads_with_salt_and_digest(hash), "for {:?}", hash);
        assert_eq!(
            verify_password_hash(hash, "password123"),
            Err(PasswordHashError::Unexpected),
            "for {:?}",
            hash
        );
    }
    assert!(!reads_with_salt_and_digest(""));
    assert!(!reads_with_salt_and_digest("password123"));
    let hash = match hash_with_salt("password123", "c29tZXNhbHRzb21lc2FsdA") {
        Ok(hash) => hash,
        Err(e) => panic!("{:?}", e),
    };
    assert!(reads_with_salt_and_digest(&hash));
}

#[test]
fn hash_names_its_costs_and_carries_its_salt() {
    let one = match hash_with_salt("password123", "c29tZXNhbHRzb21lc2FsdA") {
        Ok(hash) => hash,
        Err(e) => panic!("{:?}", e),
    };
    let other = match hash_with_salt("password123", "b3RoZXJzYWx0b3RoZXJzYQ") {
        Ok(hash) => hash,
        Err(e) => panic!("{:?}", e),
    };
    assert!(one.starts_with("$argon2id$v=19$m=15000,t=2,p=1$c29tZXNhbHRzb21lc2FsdA$"));
    assert!(other.starts_with("$argon2id$v=19$m=15000,t=2,p=1$b3RoZXJzYWx0b3RoZXJzYQ$"));
    assert_ne!(one, other);
    let fresh = match compute_password_hash("password123") {
        Ok(hash) => hash,
        Err(e) => panic!("{:?}", e),
    };
    assert!(fresh.starts_with("$argon2id$v=19$m=15000,t=2,p=1$"));
    assert_eq!(fresh.matches('$').count(), 5);
    // A salt with a dollar sign is refused.
    assert_eq!(hash_with_salt("password123", "c29tZXNh$HRz"), Err(PasswordHashError::Unexpected));
}

#[test]
fn hash_is_taken_only_where_it_can_be_kept() {
    let good = "$argon2id$v=19$m=15000,t=2,p=1$c29tZXNhbHRzb21lc2FsdA$AAAAAAAAAAAAAAAAAAAAAA";
    assert_eq!(accept_hash(good.to_string(), "password123"), Ok(good.to_string()));
    // The password itself.
    assert_eq!(accept_hash(good.to_string(), good), Err(PasswordHashError::Unexpected));
    // Too short to be held.
    assert_eq!(accept_hash("$a$b$c".to_string(), "password123"), Err(PasswordHashError::Unexpected));
    // More lanes than can be handed on.
    let lanes = "$argon2id$v=19$m=15000,t=2,p=536870912$c29tZXNhbHRzb21lc2FsdA$AAAAAAAAAAAAAAAAAAAAAA";
    assert_eq!(accept_hash(lanes.to_string(), "password123"), Err(PasswordHashError::Unexpected));
    // No digest.
    let bare = "$argon2id$v=19$m=15000,t=2,p=1$c29tZXNhbHRzb21lc2FsdA";
    assert_eq!(accept_hash(bare.to_string(), "password123"), Err(PasswordHashError::Unexpected));
    // No hash at all.
    assert_eq!(
        accept_hash("nothing of the kind".to_string(), "password123"),
        Err(PasswordHashError::Unexpected)
    );
}
