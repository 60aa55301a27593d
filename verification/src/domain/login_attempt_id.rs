use vstd::prelude::*;
use vstd::string::StringExecFns;

verus! {

/// The 128-bit value that `uuid::Uuid::parse_str` reads from `text`, or
/// `None` where it refuses the text.
pub uninterp spec fn uuid_value(text: Seq<char>) -> Option<u128>;

/// The text that `uuid::Uuid` prints for the identifier with this value.
pub uninterp spec fn uuid_text(value: u128) -> Seq<char>;

/// `uuid::Error`, which `parse_str` gives for a text that it refuses. It
/// is handed on unread.
#[verifier::external_type_specification]
#[verifier::external_body]
pub struct ExUuidError(uuid::Error);

/// `uuid::Uuid::parse_str`, with the identifier handed back as its 128-bit
/// value. Nothing is claimed of which texts are accepted beyond the name
/// `uuid_value`.
#[verifier::external_body]
fn uuid_parse(text: &str) -> (r: Result<u128, uuid::Error>)
    ensures
        match r {
            Ok(value) => uuid_value(text@) == Some(value),
            Err(_) => uuid_value(text@) is None,
        },
{
    match uuid::Uuid::parse_str(text) {
        Ok(id) => Ok(id.as_u128()),
        Err(e) => Err(e),
    }
}

/// `to_string` of `uuid::Uuid`: the hyphenated lower-case form, which
/// `parse_str` reads back as the same identifier.
#[verifier::external_body]
fn uuid_string(value: u128) -> (s: String)
    ensures
        s@ == uuid_text(value),
        uuid_value(s@) == Some(value),
{
    uuid::Uuid::from_u128(value).to_string()
}

/// `uuid::Uuid::new_v4`: a random identifier. Nothing is claimed of it.
#[verifier::external_body]
fn uuid_random() -> (value: u128) {
    uuid::Uuid::new_v4().as_u128()
}

/// Whether `text` is an identifier in the one form in which this library
/// holds it: the text printed for the value that it is read as.
pub open spec fn is_login_attempt_id_text(text: Seq<char>) -> bool {
    uuid_value(text) matches Some(value) && text == uuid_text(value)
}

/// Names one login attempt that waits for its second factor. It cannot
/// be printed: the text is had through `as_ref` alone.
pub struct LoginAttemptId(String);

impl View for LoginAttemptId {
    type V = Seq<char>;

    closed spec fn view(&self) -> Seq<char> {
        self.0@
    }
}

impl LoginAttemptId {
    #[verifier::type_invariant]
    closed spec fn canonical(self) -> bool {
        is_login_attempt_id_text(self.0@)
    }

    /// Accepts `id` exactly when it reads as a 128-bit identifier, and
    /// holds it in printed form, so that two spellings of one identifier
    /// are equal.
    pub fn parse(id: String) -> (r: Result<LoginAttemptId, String>)
        ensures
            match r {
                Ok(parsed) => uuid_value(id@) matches Some(value) && parsed@ == uuid_text(value)
                    && uuid_value(parsed@) == Some(value),
                Err(msg) => uuid_value(id@) is None && msg@ == "Invalid login attempt id"@,
            },
    {
        match uuid_parse(id.as_str()) {
            Ok(value) => Ok(LoginAttemptId(uuid_string(value))),
            Err(_) => Err(String::from_str("Invalid login attempt id")),
        }
    }

    /// The 128-bit value that the identifier stands for. Two identifiers
    /// are equal exactly when their values are.
    pub open spec fn value(&self) -> u128 {
        uuid_value(self@).unwrap()
    }

    /// Two identifiers in the form in which this library holds them read
    /// alike exactly when they stand for the same value.
    pub proof fn lemma_equal_by_value(one: Seq<char>, other: Seq<char>)
        requires
            is_login_attempt_id_text(one),
            is_login_attempt_id_text(other),
        ensures
            one == other <==> uuid_value(one) == uuid_value(other),
    {
    }

    /// The identifier as text.
    pub fn as_ref(&self) -> (s: &str)
        ensures
            s@ == self@,
            is_login_attempt_id_text(self@),
    {
        proof {
            use_type_invariant(self);
        }
        self.0.as_str()
    }
}

impl Default for LoginAttemptId {
    /// A fresh random identifier.
    fn default() -> (r: Self)
        ensures
            is_login_attempt_id_text(r@),
    {
        LoginAttemptId(uuid_string(uuid_random()))
    }
}

impl Clone for LoginAttemptId {
    fn clone(&self) -> (r: Self)
        ensures
            r@ == self@,
    {
        proof {
            use_type_invariant(self);
        }
        LoginAttemptId(self.0.clone())
    }
}

impl PartialEq for LoginAttemptId {
    fn eq(&self, other: &Self) -> (r: bool) {
        self.0 == other.0
    }
}

impl vstd::std_specs::cmp::PartialEqSpecImpl for LoginAttemptId {
    open spec fn obeys_eq_spec() -> bool {
        true
    }

    open spec fn eq_spec(&self, other: &Self) -> bool {
        self@ == other@
    }
}

} // verus!
