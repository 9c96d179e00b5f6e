//! Byte counts as text.

use crate::text::append_decimal;
use vstd::prelude::*;

verus! {

use crate::text::decimal;

/// A byte count as text: the largest binary unit it reaches, to one
/// decimal.
pub open spec fn binary_bytes_text(bytes: nat) -> Seq<char> {
    if bytes < 1_024 {
        decimal(bytes) + " B"@
    } else if bytes < 1_048_576 {
        tenths_text(bytes, 1_024) + " KiB"@
    } else if bytes < 1_073_741_824 {
        tenths_text(bytes, 1_048_576) + " MiB"@
    } else if bytes < 1_099_511_627_776 {
        tenths_text(bytes, 1_073_741_824) + " GiB"@
    } else {
        tenths_text(bytes, 1_099_511_627_776) + " TiB"@
    }
}

/// `bytes` in units of `unit`, to one decimal.
pub open spec fn tenths_text(bytes: nat, unit: nat) -> Seq<char> {
    let tenths = rounded_tenths(bytes, unit);
    decimal(tenths / 10) + "."@ + decimal(tenths % 10)
}

/// `bytes` in tenths of `unit`, to the nearest; halfway goes to the even one.
pub open spec fn rounded_tenths(bytes: nat, unit: nat) -> nat {
    let whole = bytes * 10 / unit;
    let rest = bytes * 10 % unit;
    if 2 * rest > unit || (2 * rest == unit && whole % 2 == 1) {
        whole + 1
    } else {
        whole
    }
}

/// Appends `bytes` in units of `unit`.
pub fn append_tenths(text: &mut String, bytes: u64, unit: u64)
    requires
        unit >= 1_024,
    ensures
        final(text)@ == old(text)@ + tenths_text(bytes as nat, unit as nat),
{
    let scaled: u128 = (bytes as u128) * 10;
    let whole: u128 = scaled / (unit as u128);
    let rest: u128 = scaled % (unit as u128);
    assert(whole < u64::MAX) by (nonlinear_arith)
        requires
            whole == scaled / (unit as u128),
            scaled <= 10 * u64::MAX,
            unit >= 1_024,
    ;
    let tenths: u64 = if 2 * rest > unit as u128 || (2 * rest == unit as u128 && whole % 2 == 1) {
        whole as u64 + 1
    } else {
        whole as u64
    };
    assert(tenths == rounded_tenths(bytes as nat, unit as nat));
    append_decimal(text, tenths / 10);
    text.append(".");
    append_decimal(text, tenths % 10);
    assert(text@ =~= old(text)@ + tenths_text(bytes as nat, unit as nat));
}

/// A byte count as text.
pub fn format_binary_bytes(bytes: u64) -> (text: String)
    ensures
        text@ == binary_bytes_text(bytes as nat),
{
    let mut text = String::new();
    if bytes < 1_024 {
        append_decimal(&mut text, bytes);
        text.append(" B");
    } else if bytes < 1_048_576 {
        append_tenths(&mut text, bytes, 1_024);
        text.append(" KiB");
    } else if bytes < 1_073_741_824 {
        append_tenths(&mut text, bytes, 1_048_576);
        text.append(" MiB");
    } else if bytes < 1_099_511_627_776 {
        append_tenths(&mut text, bytes, 1_073_741_824);
        text.append(" GiB");
    } else {
        append_tenths(&mut text, bytes, 1_099_511_627_776);
        text.append(" TiB");
    }
    assert(text@ =~= binary_bytes_text(bytes as nat));
    text
}

// ---------------------------------------------------------------------------
// Laws
// ---------------------------------------------------------------------------

/// A count in tenths of a unit is off by half a tenth at most, and where it lies
/// in the middle between two it is the even one.
pub proof fn law_tenths_are_the_nearest(bytes: nat, unit: nat)
    requires
        unit > 0,
    ensures
        ({
            let tenths = rounded_tenths(bytes, unit);
            &&& -(unit as int) <= 2 * (tenths * unit - bytes * 10) <= unit
            &&& 2 * (tenths * unit - bytes * 10) == unit || 2 * (tenths * unit - bytes * 10)
                == -(unit as int) ==> tenths % 2 == 0
        }),
{
    let scaled = bytes * 10;
    let whole = scaled / unit;
    let rest = scaled % unit;
    assert(scaled == whole * unit + rest && rest < unit) by (nonlinear_arith)
        requires
            unit > 0,
            whole == scaled / unit,
            rest == scaled % unit,
    ;
    assert((whole + 1) * unit == whole * unit + unit) by (nonlinear_arith);
}

/// A byte count is told in the largest unit that it reaches: bytes as they are
/// under a kibibyte, and else to a tenth of the unit.
pub proof fn law_bytes_are_told_in_the_largest_unit(bytes: nat)
    ensures
        bytes < 1_024 ==> binary_bytes_text(bytes) == decimal(bytes) + " B"@,
        1_024 <= bytes < 1_024 * 1_024 ==> binary_bytes_text(bytes) == decimal(
            rounded_tenths(bytes, 1_024) / 10,
        ) + "."@ + decimal(rounded_tenths(bytes, 1_024) % 10) + " KiB"@,
        1_024 * 1_024 <= bytes < 1_024 * 1_024 * 1_024 ==> binary_bytes_text(bytes) == decimal(
            rounded_tenths(bytes, 1_024 * 1_024) / 10,
        ) + "."@ + decimal(rounded_tenths(bytes, 1_024 * 1_024) % 10) + " MiB"@,
        1_024 * 1_024 * 1_024 <= bytes < 1_024 * 1_024 * 1_024 * 1_024 ==> binary_bytes_text(bytes)
            == decimal(rounded_tenths(bytes, 1_024 * 1_024 * 1_024) / 10) + "."@ + decimal(
            rounded_tenths(bytes, 1_024 * 1_024 * 1_024) % 10,
        ) + " GiB"@,
        1_024 * 1_024 * 1_024 * 1_024 <= bytes ==> binary_bytes_text(bytes) == decimal(
            rounded_tenths(bytes, 1_024 * 1_024 * 1_024 * 1_024) / 10,
        ) + "."@ + decimal(rounded_tenths(bytes, 1_024 * 1_024 * 1_024 * 1_024) % 10) + " TiB"@,
{
}

} // verus!
