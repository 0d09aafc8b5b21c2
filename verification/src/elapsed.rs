//! The time that a challenge took, for showing.
use vstd::prelude::*;
use vstd::string::*;
use crate::text::{decimal, decimal_string, push_signed, signed_decimal};

verus! {

/// A time of `seconds` seconds as hours, minutes and seconds, where the
/// larger units are left out while they are zero. A time below zero is
/// written as its seconds alone, without the full minutes.
pub open spec fn elapsed_text(seconds: int) -> Seq<char> {
    if seconds < 0 {
        signed_decimal(-((-seconds) % 60)) + "s"@
    } else if seconds / 3600 > 0 {
        decimal((seconds / 3600) as nat) + "h "@ + decimal(((seconds % 3600) / 60) as nat) + "m "@
            + decimal((seconds % 60) as nat) + "s"@
    } else if (seconds % 3600) / 60 > 0 {
        decimal(((seconds % 3600) / 60) as nat) + "m "@ + decimal((seconds % 60) as nat) + "s"@
    } else {
        decimal((seconds % 60) as nat) + "s"@
    }
}

/// How the time that a challenge took is shown: the time where it is known,
/// and `unknown` where it is not.
pub open spec fn elapsed_display_text(seconds: Option<i64>) -> Seq<char> {
    match seconds {
        Some(s) => elapsed_text(s as int),
        None => "unknown"@,
    }
}

/// Writes a time of `seconds` seconds as hours, minutes and seconds.
pub fn format_elapsed(seconds: i64) -> (r: String)
    ensures
        r@ == elapsed_text(seconds as int),
{
    if seconds < 0 {
        let magnitude: i128 = -(seconds as i128);
        let rest: i64 = (magnitude % 60) as i64;
        let mut out = String::new();
        push_signed(&mut out, -rest);
        assert(out@ =~= signed_decimal(-((-seconds) % 60)));
        out.append("s");
        out
    } else {
        let hours: i64 = seconds / 3600;
        let minutes: i64 = (seconds % 3600) / 60;
        let rest: i64 = seconds % 60;
        if hours > 0 {
            let mut out = decimal_string(hours as u64);
            out.append("h ");
            out.append(decimal_string(minutes as u64).as_str());
            out.append("m ");
            out.append(decimal_string(rest as u64).as_str());
            out.append("s");
            out
        } else if minutes > 0 {
            let mut out = decimal_string(minutes as u64);
            out.append("m ");
            out.append(decimal_string(rest as u64).as_str());
            out.append("s");
            out
        } else {
            let mut out = decimal_string(rest as u64);
            out.append("s");
            out
        }
    }
}

/// Writes how the time that a challenge took is shown.
pub fn elapsed_display(seconds: Option<i64>) -> (r: String)
    ensures
        r@ == elapsed_display_text(seconds),
{
    match seconds {
        Some(s) => format_elapsed(s),
        None => String::from_str("unknown"),
    }
}

} // verus!
