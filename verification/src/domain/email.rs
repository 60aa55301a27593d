use crate::utils::text::contains_char;
use vstd::prelude::*;
use vstd::string::StringExecFns;

verus! {

/// Whether `text` can be an email address: it holds an `@`.
pub open spec fn is_email_text(text: Seq<char>) -> bool {
    text.contains('@')
}

/// An email address. Addresses are told apart letter by letter, case
/// included.
#[derive(Debug, Eq, Hash)]
pub struct Email(String);

impl View for Email {
    type V = Seq<char>;

    closed spec fn view(&self) -> Seq<char> {
        self.0@
    }
}

impl Email {
    #[verifier::type_invariant]
    closed spec fn holds_at_sign(self) -> bool {
        is_email_text(self.0@)
    }

    /// Accepts `input` exactly when it holds an `@`; the complaint otherwise
    /// names the rejected input.
    pub fn parse(input: String) -> (r: Result<Email, String>)
        ensures
            match r {
                Ok(email) => email@ == input@ && is_email_text(input@),
                Err(msg) => !is_email_text(input@) && msg@ == input@
                    + " is an invalid email address :("@,
            },
    {
        if contains_char(input.as_str(), '@') {
            Ok(Email(input))
        } else {
            Err(input.concat(" is an invalid email address :("))
        }
    }

    /// The address as text, which always holds an `@`.
    pub fn as_ref(&self) -> (s: &str)
        ensures
            s@ == self@,
            is_email_text(self@),
    {
        proof {
            use_type_invariant(self);
        }
        self.0.as_str()
    }
}

impl Clone for Email {
    fn clone(&self) -> (r: Self)
        ensures
            r@ == self@,
    {
        proof {
            use_type_invariant(self);
        }
        Email(self.0.clone())
    }
}

impl PartialEq for Email {
    fn eq(&self, other: &Self) -> (r: bool) {
        self.0 == other.0
    }
}

impl vstd::std_specs::cmp::PartialEqSpecImpl for Email {
    open spec fn obeys_eq_spec() -> bool {
        true
    }

    open spec fn eq_spec(&self, other: &Self) -> bool {
        self@ == other@
    }
}

} // verus!
