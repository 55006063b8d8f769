//! Small operations on text: equality, prefixes and decimal numbers.

use vstd::prelude::*;

verus! {

/// Whether two texts are the same.
pub fn text_eq(a: &str, b: &str) -> (res: bool)
    ensures
        res == (a@ == b@),
{
    String::from_str(a) == String::from_str(b)
}

/// The text after `prefix`, where `text` begins with it.
pub fn strip_prefix<'a>(text: &'a str, prefix: &str) -> (res: Option<&'a str>)
    ensures
        res is Some <==> prefix@.is_prefix_of(text@),
        res matches Some(rest) ==> text@ == prefix@ + rest@,
{
    let n = text.unicode_len();
    let m = prefix.unicode_len();
    if m > n {
        return None;
    }
    let head = text.substring_char(0, m);
    if !text_eq(head, prefix) {
        assert(!prefix@.is_prefix_of(text@)) by {
            if prefix@.is_prefix_of(text@) {
                assert(text@.subrange(0, m as int) =~= prefix@);
            }
        }
        return None;
    }
    let rest = text.substring_char(m, n);
    assert(text@ =~= prefix@ + rest@);
    assert(prefix@.is_prefix_of(text@)) by {
        assert(text@.subrange(0, prefix@.len() as int) =~= prefix@);
    }
    Some(rest)
}

/// The ten decimal digits, in order of value.
pub open spec fn decimal_digits() -> Seq<char> {
    seq!['0', '1', '2', '3', '4', '5', '6', '7', '8', '9']
}

/// The decimal text of a natural number, without leading zeros.
pub open spec fn decimal_of_nat(n: nat) -> Seq<char>
    decreases n,
{
    if n < 10 {
        seq![decimal_digits()[n as int]]
    } else {
        decimal_of_nat(n / 10).push(decimal_digits()[(n % 10) as int])
    }
}

/// The decimal text of an integer: a minus sign before the digits of a
/// negative one.
pub open spec fn decimal_of(v: int) -> Seq<char> {
    if v < 0 {
        seq!['-'] + decimal_of_nat((-v) as nat)
    } else {
        decimal_of_nat(v as nat)
    }
}

/// The one-character text of a decimal digit.
fn decimal_digit(d: u64) -> (res: &'static str)
    requires
        d < 10,
    ensures
        res@ == seq![decimal_digits()[d as int]],
{
    proof {
        reveal_strlit("0");
        reveal_strlit("1");
        reveal_strlit("2");
        reveal_strlit("3");
        reveal_strlit("4");
        reveal_strlit("5");
        reveal_strlit("6");
        reveal_strlit("7");
        reveal_strlit("8");
        reveal_strlit("9");
    }
    let res = if d == 0 {
        "0"
    } else if d == 1 {
        "1"
    } else if d == 2 {
        "2"
    } else if d == 3 {
        "3"
    } else if d == 4 {
        "4"
    } else if d == 5 {
        "5"
    } else if d == 6 {
        "6"
    } else if d == 7 {
        "7"
    } else if d == 8 {
        "8"
    } else {
        "9"
    };
    assert(res@ =~= seq![decimal_digits()[d as int]]);
    res
}

/// The decimal text of `n`.
pub fn u64_to_text(n: u64) -> (res: String)
    ensures
        res@ == decimal_of_nat(n as nat),
    decreases n,
{
    if n < 10 {
        String::from_str(decimal_digit(n))
    } else {
        let mut res = u64_to_text(n / 10);
        res.append(decimal_digit(n % 10));
        assert(res@ =~= decimal_of_nat((n / 10) as nat).push(decimal_digits()[(n % 10) as int]));
        res
    }
}

/// The decimal text of `v`.
pub fn i64_to_text(v: i64) -> (res: String)
    ensures
        res@ == decimal_of(v as int),
{
    if v < 0 {
        let magnitude: u64 = (-(v as i128)) as u64;
        proof {
            reveal_strlit("-");
        }
        let res = String::from_str("-").concat(u64_to_text(magnitude).as_str());
        assert(res@ =~= seq!['-'] + decimal_of_nat((-v) as nat));
        res
    } else {
        u64_to_text(v as u64)
    }
}

/// `head` followed by `tail`.
pub fn join(head: &str, tail: &str) -> (res: String)
    ensures
        res@ == head@ + tail@,
{
    String::from_str(head).concat(tail)
}

} // verus!
