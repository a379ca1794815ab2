//! Request ids, by which the steps of one command are told from those of
//! another.

use crate::text::{concat3, decimal, trim, trim_spec, u128_to_string};
use vstd::prelude::*;
use vstd::string::*;

verus! {

/// The id that is made up where none was given.
pub open spec fn generated_request_id(prefix: Seq<char>, millis: u128, pid: u32) -> Seq<char> {
    "doubleagent-"@ + prefix + "-"@ + decimal(millis as nat) + "-"@ + decimal(pid as nat)
}

/// Settles the request id of a command: the one that was given, without the
/// white space around it, unless nothing is left of it; else one made of the
/// prefix, the time in milliseconds and the id of the process.
pub fn resolve_request_id(prefix: &str, explicit: Option<&str>, millis: u128, pid: u32) -> (r:
    String)
    ensures
        r@ == match explicit {
            Some(v) => if trim_spec(v@).len() > 0 {
                trim_spec(v@)
            } else {
                generated_request_id(prefix@, millis, pid)
            },
            None => generated_request_id(prefix@, millis, pid),
        },
{
    match explicit {
        Some(value) => {
            let trimmed = trim(value);
            if trimmed.as_str().unicode_len() > 0 {
                return trimmed;
            }
        },
        None => {},
    }
    let stamp = u128_to_string(millis);
    let process = u128_to_string(pid as u128);
    let mut id = concat3("doubleagent-", prefix, "-");
    id.append(stamp.as_str());
    id.append("-");
    id.append(process.as_str());
    id
}

} // verus!
