//! Human-readable byte counts.

use vstd::prelude::*;
use vstd::string::StringExecFns;
use crate::text::{decimal_of, push_decimal};

verus! {

/// Divides by 1024 while the value exceeds 1024, counting the divisions.
pub open spec fn scale_down(b: nat, unit: nat) -> (nat, nat)
    decreases b,
{
    if b > 1024 {
        scale_down(b / 1024, unit + 1)
    } else {
        (b, unit)
    }
}

/// The unit suffix after `unit` divisions by 1024.
pub open spec fn unit_name(unit: nat) -> Seq<char> {
    if unit == 0 {
        "B"@
    } else if unit == 1 {
        "KB"@
    } else if unit == 2 {
        "MB"@
    } else if unit == 3 {
        "GB"@
    } else if unit == 4 {
        "TB"@
    } else {
        "PB"@
    }
}

/// A byte count as `"<value> <unit>"`, the value truncated by whole divisions.
pub open spec fn byte_size_text(bytes: nat) -> Seq<char> {
    decimal_of(scale_down(bytes, 0).0) + " "@ + unit_name(scale_down(bytes, 0).1)
}

/// Renders a byte count in the largest unit that keeps the value at most 1024.
pub fn convert_bytes(bytes: u64) -> (r: String)
    ensures
        r@ == byte_size_text(bytes as nat),
{
    let mut value: u64 = bytes;
    let mut unit: u64 = 0;
    while value > 1024
        invariant
            unit as nat + value as nat <= bytes as nat,
            scale_down(value as nat, unit as nat) == scale_down(bytes as nat, 0),
        decreases value,
    {
        value = value / 1024;
        unit = unit + 1;
    }
    let suffix: &str = if unit == 0 {
        "B"
    } else if unit == 1 {
        "KB"
    } else if unit == 2 {
        "MB"
    } else if unit == 3 {
        "GB"
    } else if unit == 4 {
        "TB"
    } else {
        "PB"
    };
    let mut digits = String::new();
    push_decimal(&mut digits, value);
    let spaced = digits.concat(" ");
    spaced.concat(suffix)
}

} // verus!
