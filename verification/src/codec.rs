use vstd::prelude::*;

verus! {

use vstd::string::StringExecFns;

use crate::host::HostNumber;
use crate::host::NumberClass;
use crate::host::MAX_SAFE_INTEGER;

/// The scalar codec: primitive values between host and native representation.
///
/// A host number converts to a fixed-width unsigned integer only if it is
/// finite, integral and within `[0, max]`, where `max` is the target type's
/// maximum — except for `u64`, whose bound is the host's greatest exactly
/// representable integer, [`MAX_SAFE_INTEGER`]. The reverse direction for
/// 64-bit values fails rather than silently losing precision.

/// True when the host number's classification is an integer within
/// `[0, max]`.
pub open spec fn int_in_range(class: NumberClass, max: u64) -> bool {
    class matches NumberClass::Integral { value } && value <= max
}

/// Returns `true` if the host number represents an integer within
/// `[0, max]`.
pub fn can_convert_js_number_to_int(n: &HostNumber, max: u64) -> (ok: bool)
    ensures
        ok == int_in_range(n.class, max),
{
    match n.class {
        NumberClass::Integral { value } => value <= max,
        _ => false,
    }
}

/// The decimal digit character for `d`.
pub open spec fn digit_char(d: u64) -> char
    recommends
        d < 10,
{
    if d == 0 {
        '0'
    } else if d == 1 {
        '1'
    } else if d == 2 {
        '2'
    } else if d == 3 {
        '3'
    } else if d == 4 {
        '4'
    } else if d == 5 {
        '5'
    } else if d == 6 {
        '6'
    } else if d == 7 {
        '7'
    } else if d == 8 {
        '8'
    } else {
        '9'
    }
}

/// The decimal rendering of `n`, most significant digit first.
pub open spec fn dec_rep(n: u64) -> Seq<char>
    decreases n,
{
    if n < 10 {
        seq![digit_char(n)]
    } else {
        dec_rep((n / 10) as u64).push(digit_char(n % 10))
    }
}

/// The one-character string for decimal digit `d`.
fn digit_string(d: u64) -> (s: String)
    requires
        d < 10,
    ensures
        s@ =~= seq![digit_char(d)],
{
    proof {
        reveal_strlit("0");
        reveal_strlit("1");
        reveal_strlit("2");
        reveal_strlit("3");
        reveal_strlit("4");
        reveal_strlit("5");
        reveal_strlit("6");
        reveal_strlit("7");
        reveal_strlit("8");
        reveal_strlit("9");
    }
    if d == 0 {
        String::from_str("0")
    } else if d == 1 {
        String::from_str("1")
    } else if d == 2 {
        String::from_str("2")
    } else if d == 3 {
        String::from_str("3")
    } else if d == 4 {
        String::from_str("4")
    } else if d == 5 {
        String::from_str("5")
    } else if d == 6 {
        String::from_str("6")
    } else if d == 7 {
        String::from_str("7")
    } else if d == 8 {
        String::from_str("8")
    } else {
        String::from_str("9")
    }
}

/// Renders `v` in decimal.
pub fn u64_to_decimal(v: u64) -> (s: String)
    ensures
        s@ =~= dec_rep(v),
    decreases v,
{
    if v < 10 {
        digit_string(v)
    } else {
        let rest = u64_to_decimal(v / 10);
        let s = rest.concat(digit_string(v % 10).as_str());
        proof {
            assert(s@ =~= dec_rep(v / 10).push(digit_char(v % 10)));
        }
        s
    }
}

/// The decimal rendering of the negative integer `-magnitude`.
pub open spec fn neg_dec_rep(magnitude: u64) -> Seq<char> {
    seq!['-'] + dec_rep(magnitude)
}

/// The host number a native `u64` becomes: an exact integral value with its
/// decimal rendering as the printable form.
pub fn number_from_u64(v: u64) -> (n: HostNumber)
    ensures
        n.class == (NumberClass::Integral { value: v }),
        n.text@ =~= dec_rep(v),
{
    HostNumber { class: NumberClass::Integral { value: v }, text: u64_to_decimal(v) }
}

/// The host number a native `i32` becomes. Negative values carry a
/// sign-prefixed rendering; they are still integral and exact.
pub fn number_from_i32(v: i32) -> (n: HostNumber)
    ensures
        v >= 0 ==> n.class == (NumberClass::Integral { value: v as u64 }) && n.text@ =~= dec_rep(
            v as u64,
        ),
        v < 0 ==> n.class == (NumberClass::Negative { magnitude: (-(v as i64)) as u64 })
            && n.text@ =~= neg_dec_rep((-(v as i64)) as u64),
{
    if v >= 0 {
        number_from_u64(v as u64)
    } else {
        proof {
            reveal_strlit("-");
        }
        let magnitude: u64 = (-(v as i64)) as u64;
        let text = String::from_str("-").concat(u64_to_decimal(magnitude).as_str());
        HostNumber { class: NumberClass::Negative { magnitude }, text }
    }
}

/// The native `u64` a host number converts to, when it does: defined exactly
/// for integral values within `[0, MAX_SAFE_INTEGER]`.
pub open spec fn u64_of_number(class: NumberClass) -> u64
    recommends
        int_in_range(class, MAX_SAFE_INTEGER),
{
    match class {
        NumberClass::Integral { value } => value,
        _ => 0,
    }
}

} // verus!
