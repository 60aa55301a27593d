use crate::utils::text::{
    chars_of, decimal_string, decimal_text, decimal_value, lemma_decimal_round_trip,
    parse_digits_capped,
};
use rand::Rng;
use vstd::prelude::*;
use vstd::string::StringExecFns;

verus! {

/// The least second-factor code.
pub const MIN_TWO_FA_CODE: u32 = 100_000;

/// The greatest second-factor code.
pub const MAX_TWO_FA_CODE: u32 = 999_999;

/// Whether `n` can be a second-factor code.
pub open spec fn is_code_number(n: nat) -> bool {
    MIN_TWO_FA_CODE <= n <= MAX_TWO_FA_CODE
}

/// Whether `text` is a second-factor code as this library holds one: the
/// six digits of a number of the accepted range.
pub open spec fn is_code_text(text: Seq<char>) -> bool {
    decimal_value(text) matches Some(n) && is_code_number(n) && text == decimal_text(n)
}

/// Every number from 100000 to 999999 is written with six digits, and
/// its text is a code. No text of another length is one: not seven
/// digits that start with a zero, and not six digits behind a plus sign.
pub proof fn lemma_codes_are_six_digits(n: nat)
    requires
        is_code_number(n),
    ensures
        decimal_text(n).len() == 6,
        is_code_text(decimal_text(n)),
        !is_code_text(seq!['0'] + decimal_text(n)),
        !is_code_text(seq!['+'] + decimal_text(n)),
{
    lemma_decimal_round_trip(n);
    let text = decimal_text(n);
    assert(text.len() == 6) by {
        reveal_with_fuel(decimal_text, 6);
    }
    lemma_code_text_has_six_digits(seq!['0'] + text);
    lemma_code_text_has_six_digits(seq!['+'] + text);
}

/// A code is six characters long, and starts with no zero.
pub proof fn lemma_code_text_has_six_digits(text: Seq<char>)
    ensures
        is_code_text(text) ==> text.len() == 6 && text[0] != '0',
{
    if is_code_text(text) {
        let n = decimal_value(text).unwrap();
        lemma_decimal_round_trip(n);
        assert(decimal_text(n).len() == 6) by {
            reveal_with_fuel(decimal_text, 6);
        }
    }
}

/// A six-digit second-factor code. It cannot be printed: the text is had
/// through `as_ref` alone.
pub struct TwoFACode(String);

impl View for TwoFACode {
    type V = Seq<char>;

    closed spec fn view(&self) -> Seq<char> {
        self.0@
    }
}

impl TwoFACode {
    #[verifier::type_invariant]
    closed spec fn six_digits(self) -> bool {
        is_code_text(self.0@)
    }

    /// Accepts `code` exactly when it is the six digits of a number from
    /// 100000 to 999999, and holds it as it is. Anything else is turned
    /// away: another number, a number written otherwise (with zeros or a
    /// sign in front), and what is no number.
    pub fn parse(code: String) -> (r: Result<TwoFACode, String>)
        ensures
            match r {
                Ok(parsed) => is_code_text(code@) && parsed@ == code@,
                Err(msg) => !is_code_text(code@) && msg@ == "Invalid 2FA code"@,
            },
    {
        let chars = chars_of(code.as_str());
        assert(chars@.subrange(0, chars.len() as int) =~= code@);
        match parse_digits_capped(&chars, 0, chars.len(), 1_000_000) {
            Some(n) => {
                if MIN_TWO_FA_CODE as u64 <= n && n <= MAX_TWO_FA_CODE as u64 && code
                    == decimal_string(n) {
                    Ok(TwoFACode(code))
                } else {
                    Err(String::from_str("Invalid 2FA code"))
                }
            },
            None => Err(String::from_str("Invalid 2FA code")),
        }
    }

    /// The code as text.
    pub fn as_ref(&self) -> (s: &str)
        ensures
            s@ == self@,
            is_code_text(self@),
    {
        proof {
            use_type_invariant(self);
        }
        self.0.as_str()
    }
}

/// `gen_range` of `rand::thread_rng()` on the half-open range from `low`
/// to `high`: some number of that range.
#[verifier::external_body]
fn random_below(low: u32, high: u32) -> (n: u32)
    requires
        low < high,
    ensures
        low <= n < high,
{
    rand::thread_rng().gen_range(low..high)
}

impl Default for TwoFACode {
    /// A fresh random code.
    fn default() -> (r: Self)
        ensures
            is_code_text(r@),
    {
        let n = random_below(MIN_TWO_FA_CODE, MAX_TWO_FA_CODE + 1);
        proof {
            lemma_decimal_round_trip(n as nat);
        }
        TwoFACode(decimal_string(n as u64))
    }
}

impl Clone for TwoFACode {
    fn clone(&self) -> (r: Self)
        ensures
            r@ == self@,
    {
        proof {
            use_type_invariant(self);
        }
        TwoFACode(self.0.clone())
    }
}

impl PartialEq for TwoFACode {
    fn eq(&self, other: &Self) -> (r: bool) {
        self.0 == other.0
    }
}

impl vstd::std_specs::cmp::PartialEqSpecImpl for TwoFACode {
    open spec fn obeys_eq_spec() -> bool {
        true
    }

    open spec fn eq_spec(&self, other: &Self) -> bool {
        self@ == other@
    }
}

} // verus!
