use auth_service::domain::{BannedTokenStore, Email};
use auth_service::services::HashsetBannedTokenStore;
use auth_service::utils::auth::{
    read_claims, validate_token, TokenCodec, TokenError, LAST_TOKEN_EXPIRY,
};
use hmac::{Hmac, Mac};
use sha2::Sha256;

const NOW: u64 = 1_700_000_000;

fn email(text: &str) -> Email {
    Email::parse(text.to_string()).unwrap()
}

fn tag_in_hex(key: &[u8], message: &[u8]) -> String {
    let mut mac = match Hmac::<Sha256>::new_from_slice(key) {
        Ok(mac) => mac,
        Err(_) => panic!("the key was refused"),
    };
    mac.update(message);
    let mut text = String::new();
    for byte in mac.finalize().into_bytes() {
        text.push_str(&format!("{:02x}", byte));
    }
    text
}

#[test]
fn token_is_tag_and_payload() {
    let codec = TokenCodec::new("secret");
    let token = codec.issue(&email("a@b.com"), NOW);
    let payload = "1700000600.a@b.com";
    assert_eq!(token, format!("{}.{}", tag_in_hex(b"secret", payload.as_bytes()), payload));
    assert_eq!(token.len(), 64 + 1 + payload.len());
}

#[test]
fn tag_is_hmac_sha256() {
    // The tag of a well-known message under a well-known key.
    assert_eq!(
        tag_in_hex(b"key", b"The quick brown fox jumps over the lazy dog"),
        "f7bc83f430538424b13298e6aa6fb143ef4d59a14946175997479dbc2d1a3cd8"
    );
    let codec = TokenCodec::new("key");
    let forged = "f7bc83f430538424b13298e6aa6fb143ef4d59a14946175997479dbc2d1a3cd8.The quick brown fox jumps over the lazy dog";
    // The tag is right, but what is signed names no expiry and no email.
    assert_eq!(codec.verify(forged, NOW), Err(TokenError::Invalid));
    let payload = "1700000600.fox@dog";
    let token = format!("{}.{}", tag_in_hex(b"key", payload.as_bytes()), payload);
    assert_eq!(codec.verify(&token, NOW), Ok(email("fox@dog")));
}

#[test]
fn token_is_good_until_it_runs_out() {
    let codec = TokenCodec::new("secret");
    let token = codec.issue(&email("a@b.com"), NOW);
    assert_eq!(codec.verify(&token, NOW), Ok(email("a@b.com")));
    assert_eq!(codec.verify(&token, 0), Ok(email("a@b.com")));
    assert_eq!(codec.verify(&token, NOW + 599), Ok(email("a@b.com")));
    assert_eq!(codec.verify(&token, NOW + 600), Err(TokenError::Invalid));
    assert_eq!(codec.verify(&token, NOW + 601), Err(TokenError::Invalid));
    assert_eq!(codec.verify(&token, u64::MAX), Err(TokenError::Invalid));
}

#[test]
fn token_of_another_key_is_refused() {
    let codec = TokenCodec::new("secret");
    let other = TokenCodec::new("Secret");
    let token = codec.issue(&email("a@b.com"), NOW);
    assert_eq!(other.verify(&token, NOW), Err(TokenError::Invalid));
    assert_ne!(other.issue(&email("a@b.com"), NOW), token);
}

#[test]
fn changed_token_is_refused() {
    let codec = TokenCodec::new("secret");
    let token = codec.issue(&email("a@b.com"), NOW);
    // A later expiry under the old tag.
    let later = token.replace("1700000600", "1800000600");
    assert_eq!(codec.verify(&later, NOW), Err(TokenError::Invalid));
    // Another owner under the old tag.
    let stolen = token.replace("a@b.com", "c@b.com");
    assert_eq!(codec.verify(&stolen, NOW), Err(TokenError::Invalid));
    // The tag in upper case.
    let (tag, payload) = token.split_at(64);
    let shouted = format!("{}{}", tag.to_uppercase(), payload);
    assert_eq!(codec.verify(&shouted, NOW), Err(TokenError::Invalid));
    // A shortened tag.
    assert_eq!(codec.verify(&token[2..], NOW), Err(TokenError::Invalid));
    // Something behind the token.
    let longer = format!("{}x", token);
    assert_eq!(codec.verify(&longer, NOW), Err(TokenError::Invalid));
}

#[test]
fn what_is_no_token_is_refused() {
    let codec = TokenCodec::new("secret");
    for text in ["", ".", "..", "invalid", "abc.def", "00.1700000600.a@b.com", "é.é.é@"] {
        assert_eq!(codec.verify(text, NOW), Err(TokenError::Invalid), "for {:?}", text);
    }
}

#[test]
fn signed_nonsense_is_refused() {
    let codec = TokenCodec::new("secret");
    for payload in [
        "",
        "a@b.com",
        "1700000600",
        "1700000600.",
        "1700000600.nobody",
        ".a@b.com",
        "+1700000600.a@b.com",
        "17000006oo.a@b.com",
        "1000000000000000000.a@b.com",
        "99999999999999999999999999.a@b.com",
    ] {
        let token = format!("{}.{}", tag_in_hex(b"secret", payload.as_bytes()), payload);
        assert_eq!(codec.verify(&token, NOW), Err(TokenError::Invalid), "for {:?}", payload);
    }
    // What is signed and sound is taken, dots in the email and other letters included.
    for (payload, owner) in [
        ("1700000600.a@b.com", "a@b.com"),
        ("1700000600.first.last@b.co.uk", "first.last@b.co.uk"),
        ("1700000600.@", "@"),
        ("01700000600.ü@ö", "ü@ö"),
        ("999999999999999999.a@b.com", "a@b.com"),
    ] {
        let token = format!("{}.{}", tag_in_hex(b"secret", payload.as_bytes()), payload);
        assert_eq!(codec.verify(&token, NOW), Ok(email(owner)), "for {:?}", payload);
    }
}

#[test]
fn token_at_the_end_of_time() {
    assert_eq!(LAST_TOKEN_EXPIRY, 999_999_999_999_999_999);
    let codec = TokenCodec::new("secret");
    let token = codec.issue(&email("a@b.com"), LAST_TOKEN_EXPIRY - 10);
    assert!(token.ends_with(".999999999999999999.a@b.com"));
    assert_eq!(codec.verify(&token, LAST_TOKEN_EXPIRY - 1), Ok(email("a@b.com")));
    assert_eq!(codec.verify(&token, LAST_TOKEN_EXPIRY), Err(TokenError::Invalid));
    let late = codec.issue(&email("a@b.com"), u64::MAX);
    assert_eq!(late, token);
    assert_eq!(codec.verify(&late, u64::MAX), Err(TokenError::Invalid));
}

#[test]
fn banned_token_cannot_be_used() {
    let codec = TokenCodec::new("secret");
    let mut store = HashsetBannedTokenStore::default();
    let token = codec.issue(&email("a@b.com"), NOW);
    let other = codec.issue(&email("c@b.com"), NOW);
    assert_eq!(validate_token(&token, &codec, &store, NOW), Ok(email("a@b.com")));
    assert_eq!(store.ban_token(token.clone(), NOW + 10), Ok(()));
    assert_eq!(validate_token(&token, &codec, &store, NOW + 10), Err(TokenError::Invalid));
    assert_eq!(validate_token(&token, &codec, &store, NOW + 599), Err(TokenError::Invalid));
    assert_eq!(validate_token(&token, &codec, &store, NOW + 700), Err(TokenError::Invalid));
    assert_eq!(validate_token(&other, &codec, &store, NOW + 10), Ok(email("c@b.com")));
    assert_eq!(validate_token("invalid", &codec, &store, NOW), Err(TokenError::Invalid));
}

#[test]
fn claims_are_read_from_a_payload() {
    assert_eq!(read_claims("1700000600.a@b.com", NOW), Ok(email("a@b.com")));
    assert_eq!(read_claims("1700000600.a@b.com", NOW + 599), Ok(email("a@b.com")));
    assert_eq!(read_claims("1700000600.a@b.com", NOW + 600), Err(TokenError::Invalid));
    assert_eq!(read_claims("1700000600.first.last@b.co.uk", NOW), Ok(email("first.last@b.co.uk")));
    for payload in ["", ".", "1700000600", "1700000600.", "1700000600.nobody", ".a@b.com", "x.a@b.com"] {
        assert_eq!(read_claims(payload, NOW), Err(TokenError::Invalid), "for {:?}", payload);
    }
}
