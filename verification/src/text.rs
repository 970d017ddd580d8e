//! Character-level helpers shared by the statement builder and the
//! table-name transform: appending single characters to a `String`,
//! ASCII lowercasing, and decimal rendering of placeholder indices.

use vstd::prelude::*;

verus! {

/// Relies on `String::push`: appends exactly the one character `c` to the
/// end of `s` and changes nothing else.
#[verifier::external_body]
pub(crate) fn push_char(s: &mut String, c: char)
    ensures
        final(s)@ == old(s)@ + seq![c],
{
    s.push(c);
}

/// Whether `c` is an ASCII uppercase letter.
pub open spec fn is_ascii_uppercase_char(c: char) -> bool {
    65 <= c as u32 && c as u32 <= 90
}

/// ASCII lowercasing: uppercase ASCII letters move down by 32 code points,
/// every other character passes through unchanged.
pub open spec fn lower_char(c: char) -> char {
    if is_ascii_uppercase_char(c) {
        (((c as u32) + 32) as u8) as char
    } else {
        c
    }
}

/// Executable ASCII lowercasing, exact against [`lower_char`].
pub fn to_ascii_lowercase_char(c: char) -> (r: char)
    ensures
        r == lower_char(c),
{
    let u = c as u32;
    if 65 <= u && u <= 90 {
        ((u + 32) as u8) as char
    } else {
        c
    }
}

/// Executable [`is_ascii_uppercase_char`].
pub fn is_upper(c: char) -> (r: bool)
    ensures
        r == is_ascii_uppercase_char(c),
{
    let u = c as u32;
    65 <= u && u <= 90
}

/// The character for one decimal digit.
pub open spec fn digit_char(d: nat) -> char
    recommends
        d < 10,
{
    ((48 + d) as u8) as char
}

/// The decimal rendering of `n`, most significant digit first, with no
/// leading zeros (`0` renders as `"0"`).
pub open spec fn dec_str(n: nat) -> Seq<char>
    decreases n,
{
    if n < 10 {
        seq![digit_char(n)]
    } else {
        dec_str(n / 10) + seq![digit_char(n % 10)]
    }
}

/// Appends the decimal rendering of `n` to `s`.
pub fn push_dec(s: &mut String, n: usize)
    ensures
        final(s)@ == old(s)@ + dec_str(n as nat),
    decreases n,
{
    if n >= 10 {
        push_dec(s, n / 10);
    }
    let d: u8 = (n % 10) as u8;
    push_char(s, (48 + d) as char);
    proof {
        if n >= 10 {
            assert((old(s)@ + dec_str((n / 10) as nat)) + seq![digit_char((n % 10) as nat)]
                =~= old(s)@ + dec_str(n as nat));
        }
    }
}

} // verus!
