use vstd::prelude::*;
use vstd::std_specs::iter::IteratorSpec;
use vstd::string::StringExecFns;

verus! {

/// The characters of `s`, one by one.
pub fn chars_of(s: &str) -> (v: Vec<char>)
    ensures
        v@ == s@,
{
    let mut v: Vec<char> = Vec::new();
    for c in it: s.chars()
        invariant
            it.seq() == s@,
            v@ == s@.take(it.index() as int),
    {
        v.push(c);
    }
    v
}

/// Whether `needle` occurs in `s`.
pub fn contains_char(s: &str, needle: char) -> (found: bool)
    ensures
        found == s@.contains(needle),
{
    for c in it: s.chars()
        invariant
            it.seq() == s@,
            !s@.take(it.index() as int).contains(needle),
    {
        if c == needle {
            assert(s@[it.index() as int] == needle);
            return true;
        }
        assert(s@.take(it.index() + 1) =~= s@.take(it.index() as int).push(c));
    }
    assert(s@.take(s@.len() as int) =~= s@);
    false
}

/// Whether `c` is one of the ten ASCII digits.
pub open spec fn is_digit(c: char) -> bool {
    '0' <= c && c <= '9'
}

/// The number that the digit `c` stands for.
pub open spec fn digit_value(c: char) -> nat {
    (c as nat - '0' as nat) as nat
}

/// The digit that stands for `d`, for `d` below ten.
pub open spec fn digit_char(d: nat) -> char {
    (d + '0' as nat) as char
}

/// Whether `s` holds digits and nothing else.
pub open spec fn all_digits(s: Seq<char>) -> bool {
    forall|i: int| 0 <= i < s.len() ==> is_digit(#[trigger] s[i])
}

/// The number that the digits of `s` spell in base ten, the first digit
/// weighing most. The empty sequence spells zero.
pub open spec fn digits_value(s: Seq<char>) -> nat
    decreases s.len(),
{
    if s.len() == 0 {
        0
    } else {
        digits_value(s.drop_last()) * 10 + digit_value(s.last())
    }
}

/// The number written by `s`, if `s` is a non-empty run of digits.
pub open spec fn decimal_value(s: Seq<char>) -> Option<nat> {
    if s.len() > 0 && all_digits(s) {
        Some(digits_value(s))
    } else {
        None
    }
}

/// `n` written in base ten without leading zeros; zero is written "0".
pub open spec fn decimal_text(n: nat) -> Seq<char>
    decreases n,
{
    if n < 10 {
        seq![digit_char(n)]
    } else {
        decimal_text(n / 10).push(digit_char(n % 10))
    }
}

/// Reading back what `decimal_text` wrote gives the number again.
pub proof fn lemma_decimal_round_trip(n: nat)
    ensures
        decimal_value(decimal_text(n)) == Some(n),
        decimal_text(n).len() > 0,
        n >= 10 ==> decimal_text(n)[0] != '0',
    decreases n,
{
    if n < 10 {
        let s = seq![digit_char(n)];
        assert(s.drop_last() =~= Seq::<char>::empty());
        assert(digits_value(s.drop_last()) == 0);
        assert(s.last() == digit_char(n));
    } else {
        lemma_decimal_round_trip(n / 10);
        let p = decimal_text(n / 10);
        let s = p.push(digit_char(n % 10));
        assert(s.drop_last() =~= p);
        assert(s.last() == digit_char(n % 10));
        assert(all_digits(s)) by {
            assert forall|i: int| 0 <= i < s.len() implies is_digit(#[trigger] s[i]) by {
                if i < p.len() {
                    assert(s[i] == p[i]);
                }
            }
        }
        assert(s[0] == p[0]);
        if n / 10 < 10 {
            assert(p[0] == digit_char(n / 10));
        }
    }
}

/// Appending a digit multiplies by ten and adds the digit.
pub proof fn lemma_digits_value_push(s: Seq<char>, c: char)
    ensures
        digits_value(s.push(c)) == digits_value(s) * 10 + digit_value(c),
{
    assert(s.push(c).drop_last() =~= s);
}

/// The one-character string that holds the digit for `d`.
fn digit_str(d: u8) -> (s: &'static str)
    requires
        d < 10,
    ensures
        s@ == seq![digit_char(d as nat)],
{
    proof {
        reveal_strlit("0");
        reveal_strlit("1");
        reveal_strlit("2");
        reveal_strlit("3");
        reveal_strlit("4");
        reveal_strlit("5");
        reveal_strlit("6");
        reveal_strlit("7");
        reveal_strlit("8");
        reveal_strlit("9");
    }
    let s = match d {
        0 => "0",
        1 => "1",
        2 => "2",
        3 => "3",
        4 => "4",
        5 => "5",
        6 => "6",
        7 => "7",
        8 => "8",
        _ => "9",
    };
    assert(s@ =~= seq![digit_char(d as nat)]);
    s
}

/// Writes `n` in base ten.
pub fn decimal_string(n: u64) -> (s: String)
    ensures
        s@ == decimal_text(n as nat),
    decreases n,
{
    if n < 10 {
        String::from_str(digit_str(n as u8))
    } else {
        let mut s = decimal_string(n / 10);
        s.append(digit_str((n % 10) as u8));
        s
    }
}

/// Reads the digits `chars[from..to]` as a number, counting no further
/// than `cap`: the result is the number itself where it is below `cap`,
/// and `cap` where it is not. `None` where the range is empty or holds
/// anything but digits.
pub(crate) fn parse_digits_capped(chars: &Vec<char>, from: usize, to: usize, cap: u64) -> (r: Option<u64>)
    requires
        from <= to <= chars.len(),
        cap <= u64::MAX / 10 - 1,
    ensures
        match r {
            Some(v) => decimal_value(chars@.subrange(from as int, to as int)) matches Some(n) && v
                == (if n < cap {
                n
            } else {
                cap as nat
            }),
            None => decimal_value(chars@.subrange(from as int, to as int)) is None,
        },
{
    if from == to {
        return None;
    }
    let ghost s = chars@.subrange(from as int, to as int);
    let mut acc: u64 = 0;
    let mut i: usize = from;
    while i < to
        invariant
            from <= i <= to <= chars.len(),
            cap <= u64::MAX / 10 - 1,
            s == chars@.subrange(from as int, to as int),
            all_digits(s.take(i - from)),
            acc <= cap,
            acc == (if digits_value(s.take(i - from)) < cap {
                digits_value(s.take(i - from))
            } else {
                cap as nat
            }),
        decreases to - i,
    {
        let c = chars[i];
        assert(c == s[i - from]);
        if !(c >= '0' && c <= '9') {
            assert(!all_digits(s));
            return None;
        }
        let d: u64 = (c as u64) - ('0' as u64);
        proof {
            let prefix = s.take(i - from);
            assert(s.take(i + 1 - from) =~= prefix.push(c));
            lemma_digits_value_push(prefix, c);
            assert(all_digits(prefix.push(c))) by {
                assert forall|k: int| 0 <= k < prefix.push(c).len() implies is_digit(
                    #[trigger] prefix.push(c)[k],
                ) by {
                    if k < prefix.len() {
                        assert(prefix.push(c)[k] == prefix[k]);
                    }
                }
            }
        }
        let next = acc * 10 + d;
        acc = if next < cap {
            next
        } else {
            cap
        };
        i = i + 1;
    }
    assert(s.take(to - from) =~= s);
    Some(acc)
}

/// Where `needle` first stands in `s`, or the length of `s` where it
/// stands nowhere.
pub open spec fn index_of_char(s: Seq<char>, needle: char) -> int
    decreases s.len(),
{
    if s.len() == 0 {
        0
    } else if s[0] == needle {
        0
    } else {
        1 + index_of_char(s.skip(1), needle)
    }
}

/// `index_of_char` gives a place of `s` or its length; nothing before
/// that place is the needle, and what stands at it is.
pub proof fn lemma_index_of_char(s: Seq<char>, needle: char)
    ensures
        0 <= index_of_char(s, needle) <= s.len(),
        forall|i: int| 0 <= i < index_of_char(s, needle) ==> s[i] != needle,
        index_of_char(s, needle) < s.len() ==> s[index_of_char(s, needle)] == needle,
        index_of_char(s, needle) < s.len() <==> s.contains(needle),
    decreases s.len(),
{
    if s.len() == 0 {
    } else if s[0] == needle {
    } else {
        let rest = s.skip(1);
        lemma_index_of_char(rest, needle);
        let k = index_of_char(rest, needle);
        assert forall|i: int| 0 <= i < 1 + k implies s[i] != needle by {
            if i > 0 {
                assert(s[i] == rest[i - 1]);
            }
        }
        if k < rest.len() {
            assert(s[1 + k] == rest[k]);
        }
        if s.contains(needle) {
            let j = choose|j: int| 0 <= j < s.len() && s[j] == needle;
            assert(rest[j - 1] == needle);
            assert(rest.contains(needle));
        }
    }
}

/// In a text made of a head without the needle, the needle, and a tail,
/// the needle first stands right behind the head.
pub proof fn lemma_index_of_char_in_joined(head: Seq<char>, needle: char, tail: Seq<char>)
    requires
        !head.contains(needle),
    ensures
        index_of_char(head + seq![needle] + tail, needle) == head.len(),
        (head + seq![needle] + tail).take(head.len() as int) == head,
        (head + seq![needle] + tail).skip(head.len() as int + 1) == tail,
{
    let s = head + seq![needle] + tail;
    lemma_index_of_char(s, needle);
    let k = index_of_char(s, needle);
    assert(s[head.len() as int] == needle);
    if k < head.len() {
        assert(head[k] == s[k]);
        assert(head.contains(needle));
    }
    assert(s.take(head.len() as int) =~= head);
    assert(s.skip(head.len() as int + 1) =~= tail);
}

/// Finds where `needle` first stands in `chars` at or behind `from`;
/// the length of `chars` where it stands nowhere there.
pub(crate) fn find_char(chars: &Vec<char>, from: usize, needle: char) -> (at: usize)
    requires
        from <= chars.len(),
    ensures
        at == from + index_of_char(chars@.skip(from as int), needle),
        from <= at <= chars.len(),
{
    let ghost rest = chars@.skip(from as int);
    let mut i: usize = from;
    proof {
        lemma_index_of_char(rest, needle);
    }
    while i < chars.len()
        invariant
            from <= i <= chars.len(),
            rest == chars@.skip(from as int),
            forall|k: int| 0 <= k < i - from ==> rest[k] != needle,
            0 <= index_of_char(rest, needle) <= rest.len(),
            forall|k: int| 0 <= k < index_of_char(rest, needle) ==> rest[k] != needle,
            index_of_char(rest, needle) < rest.len() ==> rest[index_of_char(rest, needle)]
                == needle,
        decreases chars.len() - i,
    {
        if chars[i] == needle {
            assert(rest[i - from] == needle);
            return i;
        }
        assert(rest[i - from] == chars[i as int]);
        i = i + 1;
    }
    i
}

/// The lower-case hexadecimal digit for `d`, for `d` below sixteen.
pub open spec fn hex_digit_char(d: nat) -> char {
    if d < 10 {
        (d + '0' as nat) as char
    } else {
        (d - 10 + 'a' as nat) as char
    }
}

/// The number that the lower-case hexadecimal digit `c` stands for.
pub open spec fn hex_digit_value(c: char) -> Option<nat> {
    if '0' <= c && c <= '9' {
        Some((c as nat - '0' as nat) as nat)
    } else if 'a' <= c && c <= 'f' {
        Some((c as nat - 'a' as nat + 10) as nat)
    } else {
        None
    }
}

/// `bytes` in lower-case hexadecimal, two digits to the byte.
pub open spec fn hex_text(bytes: Seq<u8>) -> Seq<char>
    decreases bytes.len(),
{
    if bytes.len() == 0 {
        Seq::empty()
    } else {
        hex_text(bytes.drop_last()).push(hex_digit_char(bytes.last() as nat / 16)).push(
            hex_digit_char(bytes.last() as nat % 16),
        )
    }
}

/// The bytes that `text` writes in lower-case hexadecimal, two digits to
/// the byte. `None` for an odd length or any other character.
pub open spec fn hex_value(text: Seq<char>) -> Option<Seq<u8>>
    decreases text.len(),
{
    if text.len() == 0 {
        Some(Seq::empty())
    } else if text.len() % 2 == 1 {
        None
    } else {
        match (
            hex_value(text.take(text.len() - 2)),
            hex_digit_value(text[text.len() - 2]),
            hex_digit_value(text[text.len() - 1]),
        ) {
            (Some(bytes), Some(high), Some(low)) => Some(bytes.push((high * 16 + low) as u8)),
            _ => None,
        }
    }
}

/// Reading back what `hex_text` wrote gives the bytes again; the text
/// has two characters to the byte, none of them a full stop.
pub proof fn lemma_hex_round_trip(bytes: Seq<u8>)
    ensures
        hex_value(hex_text(bytes)) == Some(bytes),
        hex_text(bytes).len() == 2 * bytes.len(),
        !hex_text(bytes).contains('.'),
    decreases bytes.len(),
{
    if bytes.len() > 0 {
        let init = bytes.drop_last();
        lemma_hex_round_trip(init);
        let high = bytes.last() as nat / 16;
        let low = bytes.last() as nat % 16;
        let text = hex_text(bytes);
        assert(text.take(text.len() - 2) =~= hex_text(init));
        assert(text[text.len() - 2] == hex_digit_char(high));
        assert(text[text.len() - 1] == hex_digit_char(low));
        assert(hex_digit_value(hex_digit_char(high)) == Some(high));
        assert(hex_digit_value(hex_digit_char(low)) == Some(low));
        assert((high * 16 + low) as u8 == bytes.last());
        assert(init.push(bytes.last()) =~= bytes);
        if text.contains('.') {
            let j = choose|j: int| 0 <= j < text.len() && text[j] == '.';
            if j < text.len() - 2 {
                assert(hex_text(init)[j] == '.');
                assert(hex_text(init).contains('.'));
            }
        }
    }
}

/// The one-character string that holds the hexadecimal digit for `d`.
fn hex_digit_str(d: u8) -> (s: &'static str)
    requires
        d < 16,
    ensures
        s@ == seq![hex_digit_char(d as nat)],
{
    proof {
        reveal_strlit("0");
        reveal_strlit("1");
        reveal_strlit("2");
        reveal_strlit("3");
        reveal_strlit("4");
        reveal_strlit("5");
        reveal_strlit("6");
        reveal_strlit("7");
        reveal_strlit("8");
        reveal_strlit("9");
        reveal_strlit("a");
        reveal_strlit("b");
        reveal_strlit("c");
        reveal_strlit("d");
        reveal_strlit("e");
        reveal_strlit("f");
    }
    let s = match d {
        0 => "0",
        1 => "1",
        2 => "2",
        3 => "3",
        4 => "4",
        5 => "5",
        6 => "6",
        7 => "7",
        8 => "8",
        9 => "9",
        10 => "a",
        11 => "b",
        12 => "c",
        13 => "d",
        14 => "e",
        _ => "f",
    };
    assert(s@ =~= seq![hex_digit_char(d as nat)]);
    s
}

/// Writes `bytes` in lower-case hexadecimal.
pub fn hex_string(bytes: &Vec<u8>) -> (s: String)
    ensures
        s@ == hex_text(bytes@),
{
    let mut s = String::new();
    let mut i: usize = 0;
    while i < bytes.len()
        invariant
            i <= bytes.len(),
            s@ == hex_text(bytes@.take(i as int)),
        decreases bytes.len() - i,
    {
        let b = bytes[i];
        proof {
            let next = bytes@.take(i + 1);
            assert(next.drop_last() =~= bytes@.take(i as int));
            assert(next.last() == b);
        }
        s.append(hex_digit_str(b / 16));
        s.append(hex_digit_str(b % 16));
        i = i + 1;
    }
    assert(bytes@.take(bytes.len() as int) =~= bytes@);
    s
}

/// The value of one lower-case hexadecimal digit.
fn hex_digit(c: char) -> (r: Option<u8>)
    ensures
        match r {
            Some(d) => hex_digit_value(c) == Some(d as nat) && d < 16,
            None => hex_digit_value(c) is None,
        },
{
    if c >= '0' && c <= '9' {
        Some(((c as u32) - ('0' as u32)) as u8)
    } else if c >= 'a' && c <= 'f' {
        Some(((c as u32) - ('a' as u32) + 10) as u8)
    } else {
        None
    }
}

/// Reads `chars[from..to]` as bytes in lower-case hexadecimal.
pub(crate) fn parse_hex(chars: &Vec<char>, from: usize, to: usize) -> (r: Option<Vec<u8>>)
    requires
        from <= to <= chars.len(),
    ensures
        match r {
            Some(bytes) => hex_value(chars@.subrange(from as int, to as int)) == Some(bytes@),
            None => hex_value(chars@.subrange(from as int, to as int)) is None,
        },
{
    let ghost text = chars@.subrange(from as int, to as int);
    if (to - from) % 2 == 1 {
        return None;
    }
    let mut bytes: Vec<u8> = Vec::new();
    let mut i: usize = from;
    assert(text.take(0) =~= Seq::<char>::empty());
    while i < to
        invariant
            from <= i <= to <= chars.len(),
            (to - from) % 2 == 0,
            (i - from) % 2 == 0,
            text == chars@.subrange(from as int, to as int),
            hex_value(text.take(i - from)) == Some(bytes@),
        decreases to - i,
    {
        let ghost prefix = text.take(i + 2 - from);
        proof {
            assert(prefix.take(prefix.len() - 2) =~= text.take(i - from));
            assert(prefix[prefix.len() - 2] == chars[i as int]);
            assert(prefix[prefix.len() - 1] == chars[i + 1]);
        }
        let high = hex_digit(chars[i]);
        let low = hex_digit(chars[i + 1]);
        match (high, low) {
            (Some(high), Some(low)) => {
                bytes.push(high * 16 + low);
            },
            _ => {
                proof {
                    assert(hex_value(prefix) is None);
                    if hex_value(text) is Some {
                        lemma_hex_value_prefix(text, i + 2 - from);
                    }
                }
                return None;
            },
        }
        i = i + 2;
    }
    assert(text.take(to - from) =~= text);
    Some(bytes)
}

/// A text that reads as bytes does so up to every even place.
pub proof fn lemma_hex_value_prefix(text: Seq<char>, upto: int)
    requires
        0 <= upto <= text.len(),
        upto % 2 == 0,
        hex_value(text) is Some,
    ensures
        hex_value(text.take(upto)) is Some,
    decreases text.len(),
{
    if upto < text.len() {
        assert(text.len() >= 2);
        let init = text.take(text.len() - 2);
        lemma_hex_value_prefix(init, upto);
        assert(init.take(upto) =~= text.take(upto));
    } else {
        assert(text.take(upto) =~= text);
    }
}

/// Where the run of digits that starts at `from` ends: the first place
/// at or behind `from` that holds no digit, or the length of `text`.
pub open spec fn digit_run_end(text: Seq<char>, from: int) -> int
    decreases text.len() - from,
{
    if 0 <= from < text.len() && is_digit(text[from]) {
        digit_run_end(text, from + 1)
    } else {
        from
    }
}

/// Computes `digit_run_end`; what stands between `from` and the end of
/// the run is digits.
pub(crate) fn find_digit_run_end(chars: &Vec<char>, from: usize) -> (end: usize)
    requires
        from <= chars.len(),
    ensures
        end == digit_run_end(chars@, from as int),
        from <= end <= chars.len(),
        all_digits(chars@.subrange(from as int, end as int)),
{
    let mut end: usize = from;
    while end < chars.len() && chars[end] >= '0' && chars[end] <= '9'
        invariant
            from <= end <= chars.len(),
            digit_run_end(chars@, from as int) == digit_run_end(chars@, end as int),
            all_digits(chars@.subrange(from as int, end as int)),
        decreases chars.len() - end,
    {
        proof {
            let before = chars@.subrange(from as int, end as int);
            let after = chars@.subrange(from as int, end + 1);
            assert forall|k: int| 0 <= k < after.len() implies is_digit(#[trigger] after[k]) by {
                if k < before.len() {
                    assert(after[k] == before[k]);
                }
            }
        }
        end = end + 1;
    }
    end
}

} // verus!
