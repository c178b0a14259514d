//! Decisions on the settings read from the process environment.

use vstd::prelude::*;
use crate::number::{digits_value, parse_unsigned, parses_unsigned, unsigned_digits};
use crate::text::chars_of;

verus! {

/// Seconds between polls where no valid interval is configured.
pub const DEFAULT_INTERVAL_SECS: u64 = 60;

/// Rich collection is on exactly where the setting is the text `1`.
pub fn complex_mode_from(setting: Option<&str>) -> (r: bool)
    ensures
        r == (setting is Some && setting->0@ == seq!['1']),
{
    match setting {
        Some(s) => {
            let c = chars_of(s);
            let r = c.len() == 1 && c[0] == '1';
            assert(r ==> c@ =~= seq!['1']);
            r
        },
        None => false,
    }
}

/// The poll interval in seconds: the setting where it is an unsigned 64-bit
/// number, else the default.
pub fn interval_from(setting: Option<&str>) -> (r: u64)
    ensures
        r == (match setting {
            Some(s) => if parses_unsigned(s@, u64::MAX as nat) {
                digits_value(unsigned_digits(s@)) as u64
            } else {
                DEFAULT_INTERVAL_SECS
            },
            None => DEFAULT_INTERVAL_SECS,
        }),
{
    match setting {
        Some(s) => {
            let c = chars_of(s);
            match parse_unsigned(c.as_slice(), u64::MAX) {
                Some(v) => v,
                None => DEFAULT_INTERVAL_SECS,
            }
        },
        None => DEFAULT_INTERVAL_SECS,
    }
}

} // verus!
