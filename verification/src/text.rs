//! Decimal rendering of integers and small helpers for rendering and
//! comparing optional values, shared by address labels and mismatch reports.

use vstd::prelude::*;

verus! {

/// The character for one decimal digit.
pub open spec fn digit_char(d: int) -> char
    recommends
        0 <= d < 10,
{
    if d == 0 {
        '0'
    } else if d == 1 {
        '1'
    } else if d == 2 {
        '2'
    } else if d == 3 {
        '3'
    } else if d == 4 {
        '4'
    } else if d == 5 {
        '5'
    } else if d == 6 {
        '6'
    } else if d == 7 {
        '7'
    } else if d == 8 {
        '8'
    } else {
        '9'
    }
}

/// Decimal digits of a nonnegative integer, most significant first,
/// without leading zeros (except for zero itself).
pub open spec fn dec_text(n: nat) -> Seq<char>
    decreases n,
{
    if n < 10 {
        seq![digit_char(n as int)]
    } else {
        dec_text(n / 10).push(digit_char((n % 10) as int))
    }
}

/// Decimal text of an integer, with a leading minus sign when negative.
pub open spec fn int_text(n: int) -> Seq<char> {
    if n < 0 {
        seq!['-'] + dec_text((-n) as nat)
    } else {
        dec_text(n as nat)
    }
}

/// One decimal digit as a string slice.
fn digit_str(d: u64) -> (r: &'static str)
    requires
        d < 10,
    ensures
        r@ == seq![digit_char(d as int)],
{
    proof {
        reveal_strlit("0");
        reveal_strlit("1");
        reveal_strlit("2");
        reveal_strlit("3");
        reveal_strlit("4");
        reveal_strlit("5");
        reveal_strlit("6");
        reveal_strlit("7");
        reveal_strlit("8");
        reveal_strlit("9");
    }
    let r: &'static str = match d {
        0 => "0",
        1 => "1",
        2 => "2",
        3 => "3",
        4 => "4",
        5 => "5",
        6 => "6",
        7 => "7",
        8 => "8",
        _ => "9",
    };
    proof {
        assert(r@ =~= seq![digit_char(d as int)]);
    }
    r
}

/// Decimal rendering of an unsigned integer.
pub fn render_u64(n: u64) -> (r: String)
    ensures
        r@ == dec_text(n as nat),
    decreases n,
{
    if n < 10 {
        String::from_str(digit_str(n))
    } else {
        let mut s = render_u64(n / 10);
        s.append(digit_str(n % 10));
        proof {
            assert(s@ =~= dec_text((n / 10) as nat).push(digit_char((n % 10) as int)));
        }
        s
    }
}

/// Decimal rendering of a signed integer.
pub fn render_i64(n: i64) -> (r: String)
    ensures
        r@ == int_text(n as int),
{
    if n >= 0 {
        render_u64(n as u64)
    } else {
        let wide: i128 = -(n as i128);
        let mag: u64 = wide as u64;
        let mut s = String::from_str("-");
        s.append(render_u64(mag).as_str());
        proof {
            reveal_strlit("-");
            assert(s@ =~= int_text(n as int));
        }
        s
    }
}

/// Descriptive text of an optional integer, in constructor notation.
pub open spec fn opt_int_text(n: Option<int>) -> Seq<char> {
    match n {
        Some(v) => "Some("@ + int_text(v) + ")"@,
        None => "None"@,
    }
}

/// Descriptive text of an optional string, in constructor notation with
/// the content quoted.
pub open spec fn opt_str_text(s: Option<Seq<char>>) -> Seq<char> {
    match s {
        Some(t) => "Some(\""@ + t + "\")"@,
        None => "None"@,
    }
}

/// The message recording two values that were expected to agree.
pub open spec fn neq_text(l: Seq<char>, r: Seq<char>) -> Seq<char> {
    l + " not equal to "@ + r
}

/// Renders an optional integer descriptively.
pub fn render_opt_i64(n: &Option<i64>) -> (r: String)
    ensures
        r@ == opt_int_text(opt_int(*n)),
{
    match n {
        Some(v) => {
            let mut s = String::from_str("Some(");
            s.append(render_i64(*v).as_str());
            s.append(")");
            s
        },
        None => String::from_str("None"),
    }
}

/// Renders an optional string descriptively.
pub fn render_opt_string(s: &Option<String>) -> (r: String)
    ensures
        r@ == opt_str_text(opt_text(*s)),
{
    match s {
        Some(t) => {
            let mut out = String::from_str("Some(\"");
            out.append(t.as_str());
            out.append("\")");
            out
        },
        None => String::from_str("None"),
    }
}

/// Joins two rendered values into a disagreement message.
pub fn neq_message(from: String, to: String) -> (r: String)
    ensures
        r@ == neq_text(from@, to@),
{
    let mut s = from;
    s.append(" not equal to ");
    s.append(to.as_str());
    s
}

/// The views of an optional owned string.
pub open spec fn opt_text(s: Option<String>) -> Option<Seq<char>> {
    match s {
        Some(t) => Some(t@),
        None => None,
    }
}

/// The mathematical value of an optional machine integer.
pub open spec fn opt_int(n: Option<i64>) -> Option<int> {
    match n {
        Some(v) => Some(v as int),
        None => None,
    }
}

/// Copies an optional string.
pub fn clone_opt_string(s: &Option<String>) -> (r: Option<String>)
    ensures
        opt_text(r) == opt_text(*s),
{
    match s {
        Some(t) => Some(t.clone()),
        None => None,
    }
}

/// Equality of two optional strings, decided by content.
pub fn opt_string_eq(a: &Option<String>, b: &Option<String>) -> (r: bool)
    ensures
        r == (opt_text(*a) == opt_text(*b)),
{
    match (a, b) {
        (Some(x), Some(y)) => *x == *y,
        (None, None) => true,
        _ => false,
    }
}

/// Equality of two optional machine integers.
pub fn opt_i64_eq(a: &Option<i64>, b: &Option<i64>) -> (r: bool)
    ensures
        r == (opt_int(*a) == opt_int(*b)),
{
    match (a, b) {
        (Some(x), Some(y)) => x == y,
        (None, None) => true,
        _ => false,
    }
}

} // verus!
