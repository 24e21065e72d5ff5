//! Booleans on the wire are the numbers 1 and 0.

use vstd::prelude::*;

verus! {

/// The number a boolean is written as.
pub open spec fn spec_bool_to_int(value: bool) -> u8 {
    if value { 1 } else { 0 }
}

/// The boolean a number is read as: 1 is true, 0 is false, anything else is refused.
pub open spec fn spec_int_to_bool(value: u8) -> Option<bool> {
    if value == 1 { Some(true) } else if value == 0 { Some(false) } else { None }
}

pub fn serialize(value: bool) -> (r: u8)
    ensures
        r == spec_bool_to_int(value),
{
    if value { 1 } else { 0 }
}

/// Reads a boolean written as 1 or 0; any other number is refused with a message.
pub fn deserialize(value: u8) -> (r: Result<bool, String>)
    ensures
        match spec_int_to_bool(value) {
            Some(b) => r == Ok::<bool, String>(b),
            None => r is Err,
        },
        r matches Err(m) ==> m@ == "Expected 1 or 0 for a boolean value"@,
{
    match value {
        1 => Ok(true),
        0 => Ok(false),
        _ => Err(String::from_str("Expected 1 or 0 for a boolean value")),
    }
}

/// Reading back a written boolean gives the boolean.
pub proof fn law_bool_roundtrip(value: bool)
    ensures
        spec_int_to_bool(spec_bool_to_int(value)) == Some(value),
{
}

/// Every number that reads as a boolean is written back as itself.
pub proof fn law_int_roundtrip(value: u8)
    requires
        spec_int_to_bool(value) is Some,
    ensures
        spec_bool_to_int(spec_int_to_bool(value)->0) == value,
{
}

} // verus!
