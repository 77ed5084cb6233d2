//! The names of the files that captures are saved under.

use vstd::prelude::*;
use vstd::string::*;
use crate::text::{push_decimal, zero_padded};

verus! {

/// A date and a time of day.
#[derive(Clone, Copy, Debug, PartialEq, Eq, Structural)]
pub struct Timestamp {
    pub year: u32,
    pub month: u32,
    pub day: u32,
    pub hour: u32,
    pub minute: u32,
    pub second: u32,
}

/// The name of the file for a capture taken at `at`: `Screenshot_`, the
/// date as year, month and day with hyphens between, an underscore, the
/// time as hour, minute and second with hyphens between, and `.png`. The
/// year has four digits at least, every other number two.
pub open spec fn screenshot_file_name(at: Timestamp) -> Seq<char> {
    "Screenshot_"@ + zero_padded(at.year as nat, 4) + "-"@ + zero_padded(at.month as nat, 2)
        + "-"@ + zero_padded(at.day as nat, 2) + "_"@ + zero_padded(at.hour as nat, 2) + "-"@
        + zero_padded(at.minute as nat, 2) + "-"@ + zero_padded(at.second as nat, 2) + ".png"@
}

/// The name of the file for a capture of a region taken at `at` from the
/// command line: `screenshot_`, the date and the time as digits only with
/// an underscore between, and `.png`.
pub open spec fn region_file_name(at: Timestamp) -> Seq<char> {
    "screenshot_"@ + zero_padded(at.year as nat, 4) + zero_padded(at.month as nat, 2)
        + zero_padded(at.day as nat, 2) + "_"@ + zero_padded(at.hour as nat, 2) + zero_padded(
        at.minute as nat,
        2,
    ) + zero_padded(at.second as nat, 2) + ".png"@
}

/// Makes the name of the file for a capture taken at `at`.
pub fn screenshot_filename(at: &Timestamp) -> (name: String)
    ensures
        name@ == screenshot_file_name(*at),
{
    let mut name = String::from_str("Screenshot_");
    push_decimal(&mut name, at.year, 4);
    name.append("-");
    push_decimal(&mut name, at.month, 2);
    name.append("-");
    push_decimal(&mut name, at.day, 2);
    name.append("_");
    push_decimal(&mut name, at.hour, 2);
    name.append("-");
    push_decimal(&mut name, at.minute, 2);
    name.append("-");
    push_decimal(&mut name, at.second, 2);
    name.append(".png");
    name
}

/// Makes the name of the file for a capture of a region taken at `at`
/// from the command line.
pub fn region_filename(at: &Timestamp) -> (name: String)
    ensures
        name@ == region_file_name(*at),
{
    let mut name = String::from_str("screenshot_");
    push_decimal(&mut name, at.year, 4);
    push_decimal(&mut name, at.month, 2);
    push_decimal(&mut name, at.day, 2);
    name.append("_");
    push_decimal(&mut name, at.hour, 2);
    push_decimal(&mut name, at.minute, 2);
    push_decimal(&mut name, at.second, 2);
    name.append(".png");
    name
}

} // verus!
