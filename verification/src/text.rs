//! Building message text from pieces, with std's formatting.

use vstd::prelude::*;
use vstd::string::StringExecFns;
use vstd::string::StrSliceExecFns;

verus! {

/// The decimal digits of `n`, most significant first, as `u64`'s `Display`
/// writes them.
pub open spec fn decimal_text(n: nat) -> Seq<char>
    decreases n,
{
    if n < 10 {
        seq![(n + 48) as char]
    } else {
        decimal_text(n / 10).push(((n % 10) + 48) as char)
    }
}

/// The text of `a` followed by the text of `b`.
pub(crate) fn concat(a: &str, b: &str) -> (r: String)
    ensures
        r@ == a@ + b@,
{
    let mut r = <String as StringExecFns>::from_str(a);
    r.append(b);
    r
}

/// The one-character text of the decimal digit `d`.
fn digit_text(d: u64) -> (r: &'static str)
    requires
        d < 10,
    ensures
        r@ == seq![(d + 48) as char],
{
    match d {
        0 => { proof { reveal_strlit("0"); } "0" },
        1 => { proof { reveal_strlit("1"); } "1" },
        2 => { proof { reveal_strlit("2"); } "2" },
        3 => { proof { reveal_strlit("3"); } "3" },
        4 => { proof { reveal_strlit("4"); } "4" },
        5 => { proof { reveal_strlit("5"); } "5" },
        6 => { proof { reveal_strlit("6"); } "6" },
        7 => { proof { reveal_strlit("7"); } "7" },
        8 => { proof { reveal_strlit("8"); } "8" },
        _ => { proof { reveal_strlit("9"); } "9" },
    }
}

/// The decimal text of `n`: its digits, most significant first, with no
/// sign or padding, as `u64`'s `Display` writes them.
pub(crate) fn decimal(n: u64) -> (r: String)
    ensures
        r@ == decimal_text(n as nat),
    decreases n,
{
    if n < 10 {
        <String as StringExecFns>::from_str(digit_text(n))
    } else {
        let mut r = decimal(n / 10);
        r.append(digit_text(n % 10));
        r
    }
}

/// An empty string with room for at least `capacity` bytes.
///
/// Calls `String::with_capacity`, which documents an empty result and
/// panics when the capacity exceeds `isize::MAX` bytes.
#[verifier::external_body]
pub(crate) fn string_with_capacity(capacity: usize) -> (r: String)
    requires
        capacity <= isize::MAX,
    ensures
        r@.len() == 0,
{
    String::with_capacity(capacity)
}

/// Appends `t` to `s`.
pub(crate) fn string_push_str(s: &mut String, t: &str)
    ensures
        final(s)@ == old(s)@ + t@,
{
    s.append(t);
}

/// Empties `s`.
///
/// Calls `String::clear`, documented as truncating the string to length
/// zero.
#[verifier::external_body]
pub(crate) fn string_clear(s: &mut String)
    ensures
        final(s)@.len() == 0,
{
    s.clear()
}

/// Whether `s` begins with `prefix`, character for character.
pub(crate) fn str_starts_with(s: &str, prefix: &str) -> (r: bool)
    ensures
        r == prefix@.is_prefix_of(s@),
{
    let whole = s.unicode_len();
    let wanted = prefix.unicode_len();
    if wanted > whole {
        return false;
    }
    let head = <String as StringExecFns>::from_str(s.substring_char(0, wanted));
    let expected = <String as StringExecFns>::from_str(prefix);
    head == expected
}

/// `a`, then the decimal text of `n`, then `b`.
pub fn around_number(a: &str, n: u64, b: &str) -> (r: String)
    ensures
        r@ == a@ + decimal_text(n as nat) + b@,
{
    let d = decimal(n);
    let s = concat(a, d.as_str());
    concat(s.as_str(), b)
}

} // verus!
