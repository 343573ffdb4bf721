//! Decisions of the dispatch-and-health-monitor stage.
//!
//! The loop that owns the socket, the prompts, and the shared liveness flag
//! runs outside the library; it feeds every decision through the functions
//! here: when to break the dispatch cadence for a health check, whether a
//! prompt answer means retry, and what the maximum-brightness prompt's
//! answer is worth.

use vstd::prelude::*;
use vstd::string::StrSliceExecFns;
use crate::text::{digits_val, is_digits, parse_u8_dec};

verus! {

/// Number of command dispatches between health checks.
pub const HEALTH_CHECK_CYCLES: u8 = 255;

/// Decides one dispatch cycle: forward the command and advance the counter
/// while it is below the cadence, otherwise hold it for a health check.
/// After a successful health check the counter restarts at zero.
pub fn dispatch_decision(counter: u8) -> (r: (bool, u8))
    ensures
        r.0 <==> counter < HEALTH_CHECK_CYCLES,
        counter < HEALTH_CHECK_CYCLES ==> r.1 == counter + 1,
        counter >= HEALTH_CHECK_CYCLES ==> r.1 == counter,
{
    if counter < HEALTH_CHECK_CYCLES {
        (true, counter + 1)
    } else {
        (false, counter)
    }
}

/// Interprets a retry prompt's answer: everything retries except an
/// explicit "n" or "N".
pub fn should_retry(answer: &str) -> (r: bool)
    ensures
        r <==> !(answer@ == "n"@ || answer@ == "N"@),
{
    proof {
        reveal_strlit("n");
        reveal_strlit("N");
    }
    let len = answer.unicode_len();
    if len != 1 {
        return true;
    }
    let c = answer.get_char(0);
    if c == 'n' {
        proof {
            assert(answer@ =~= "n"@);
        }
        false
    } else if c == 'N' {
        proof {
            assert(answer@ =~= "N"@);
        }
        false
    } else {
        true
    }
}

/// Interprets the maximum-brightness prompt's answer: an empty answer
/// accepts the default of 100; otherwise the answer must be a decimal
/// integer in [1, 100].
pub fn parse_max_brightness(line: &str) -> (r: Option<u8>)
    ensures
        line@.len() == 0 ==> r == Some(100u8),
        line@.len() > 0 ==> ((r is Some <==> is_digits(line@) && 1 <= digits_val(line@) <= 100) && (
        r matches Some(v) ==> v == digits_val(line@))),
{
    if line.unicode_len() == 0 {
        return Some(100);
    }
    match parse_u8_dec(line) {
        Some(v) => if v >= 1 && v <= 100 {
            Some(v)
        } else {
            None
        },
        None => None,
    }
}

} // verus!
