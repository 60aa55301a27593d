use vstd::prelude::*;
use vstd::string::StringExecFns;
use vstd::utf8::encode_utf8;

verus! {

/// Fewest bytes a password may have.
pub const MIN_PASSWORD_BYTES: usize = 8;

/// Number of bytes that `text` takes in UTF-8.
pub open spec fn utf8_len(text: Seq<char>) -> nat {
    encode_utf8(text).len()
}

/// What the complaint about a short password ends with.
pub open spec fn too_short_suffix() -> Seq<char> {
    " is too short of a password. Passwords must contain at least 8 characters :)"@
}

/// A password that is long enough to be accepted. It cannot be printed:
/// the text is had through `as_ref` alone.
pub struct Password(String);

impl View for Password {
    type V = Seq<char>;

    closed spec fn view(&self) -> Seq<char> {
        self.0@
    }
}

impl Password {
    /// Every `Password` holds at least `MIN_PASSWORD_BYTES` bytes.
    #[verifier::type_invariant]
    closed spec fn long_enough(self) -> bool {
        utf8_len(self.0@) >= MIN_PASSWORD_BYTES
    }

    /// Accepts `input` exactly when it holds at least eight bytes; the
    /// complaint otherwise names the rejected input.
    pub fn parse(input: String) -> (r: Result<Password, String>)
        ensures
            match r {
                Ok(p) => p@ == input@ && utf8_len(input@) >= MIN_PASSWORD_BYTES,
                Err(msg) => utf8_len(input@) < MIN_PASSWORD_BYTES && msg@ == input@
                    + too_short_suffix(),
            },
    {
        if input.as_str().as_bytes().len() >= MIN_PASSWORD_BYTES {
            Ok(Password(input))
        } else {
            Err(
                input.concat(
                    " is too short of a password. Passwords must contain at least 8 characters :)",
                ),
            )
        }
    }

    /// The password's text, which is never shorter than the minimum.
    pub fn as_ref(&self) -> (s: &str)
        ensures
            s@ == self@,
            utf8_len(self@) >= MIN_PASSWORD_BYTES,
    {
        proof {
            use_type_invariant(self);
        }
        self.0.as_str()
    }

}

impl Clone for Password {
    fn clone(&self) -> (r: Self)
        ensures
            r@ == self@,
    {
        proof {
            use_type_invariant(self);
        }
        Password(self.0.clone())
    }
}

impl PartialEq for Password {
    fn eq(&self, other: &Self) -> (r: bool) {
        self.0 == other.0
    }
}

impl vstd::std_specs::cmp::PartialEqSpecImpl for Password {
    open spec fn obeys_eq_spec() -> bool {
        true
    }

    open spec fn eq_spec(&self, other: &Self) -> bool {
        self@ == other@
    }
}

} // verus!
