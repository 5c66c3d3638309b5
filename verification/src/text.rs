//! Text helpers: decimal rendering, and UTF-8 decoding and path comparison
//! delegated to the standard library behind a contract.
use vstd::prelude::*;
use vstd::utf8::*;

verus! {

/// The decimal digit character for `d` (`d < 10`).
pub open spec fn digit_char(d: nat) -> char {
    (48 + d) as char
}

/// The decimal rendering of `n`, most significant digit first, no leading zeros.
pub open spec fn decimal_digits(n: nat) -> Seq<char>
    decreases n,
{
    if n < 10 {
        seq![digit_char(n)]
    } else {
        decimal_digits(n / 10) + seq![digit_char(n % 10)]
    }
}

/// `String::from_utf8`: succeeds exactly on valid UTF-8, and then holds the
/// characters that the bytes encode. The error value is dropped.
#[verifier::external_body]
pub(crate) fn string_from_utf8(bytes: Vec<u8>) -> (r: Option<String>)
    ensures
        r is Some <==> valid_utf8(bytes@),
        r matches Some(s) ==> s@ == decode_utf8(bytes@),
{
    String::from_utf8(bytes).ok()
}

/// The one-character text of a decimal digit.
fn digit_text(d: u64) -> (t: &'static str)
    requires
        d < 10,
    ensures
        t@ == seq![digit_char(d as nat)],
{
    proof {
        reveal_strlit("0");
        reveal_strlit("1");
        reveal_strlit("2");
        reveal_strlit("3");
        reveal_strlit("4");
        reveal_strlit("5");
        reveal_strlit("6");
        reveal_strlit("7");
        reveal_strlit("8");
        reveal_strlit("9");
    }
    let t = match d {
        0 => "0",
        1 => "1",
        2 => "2",
        3 => "3",
        4 => "4",
        5 => "5",
        6 => "6",
        7 => "7",
        8 => "8",
        _ => "9",
    };
    assert(t@ =~= seq![digit_char(d as nat)]);
    t
}

/// Append the decimal rendering of `n` to `s`.
fn append_decimal(s: &mut String, n: u64)
    ensures
        final(s)@ == old(s)@ + decimal_digits(n as nat),
    decreases n,
{
    if n >= 10 {
        append_decimal(s, n / 10);
    }
    s.append(digit_text(n % 10));
    assert(s@ =~= old(s)@ + decimal_digits(n as nat));
}

/// The decimal rendering of `n`.
pub(crate) fn decimal_string(n: u64) -> (r: String)
    ensures
        r@ == decimal_digits(n as nat),
{
    let mut s = String::new();
    append_decimal(&mut s, n);
    assert(s@ =~= decimal_digits(n as nat));
    s
}

/// What `std::path::Path` equality gives on two distinct path texts: `Path`
/// compares the texts' components under the path syntax of the target the crate is
/// built for, which is fixed for a build. Named over the unordered pair, since the
/// comparison does not depend on the order of its operands.
pub uninterp spec fn paths_equal(pair: Set<Seq<char>>) -> bool;

/// Whether two path texts name the same path: identical texts always do, distinct
/// texts when `Path` equality says so.
pub open spec fn same_path(a: Seq<char>, b: Seq<char>) -> bool {
    a == b || paths_equal(set![a, b])
}

/// `<std::path::Path as PartialEq>::eq` on the two paths. Claimed: a path equals
/// itself (`Path` implements `Eq`), and on distinct texts the result is the named
/// comparison of the unordered pair (the comparison is symmetric).
#[verifier::external_body]
pub(crate) fn path_eq(a: &str, b: &str) -> (r: bool)
    ensures
        r == (a@ == b@ || paths_equal(set![a@, b@])),
{
    std::path::Path::new(a) == std::path::Path::new(b)
}

} // verus!
