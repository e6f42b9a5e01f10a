//! The socket-activation environment: the three variables that tell the
//! successor program which descriptor it inherited.

use vstd::prelude::*;
use crate::text::{dec_seq, dec_u64};

verus! {

/// The environment variables of the socket-activation handoff, in the
/// order they are set: the identifier of the process that will exec the
/// target (unchanged by process-image replacement, which does not fork),
/// a descriptor count fixed at one, and the fixed descriptor name.
pub fn activation_env(pid: u64) -> (r: Vec<(String, String)>)
    ensures
        r@.len() == 3,
        r@[0].0@ == "LISTEN_PID"@ && r@[0].1@ == dec_seq(pid as nat),
        r@[1].0@ == "LISTEN_FDS"@ && r@[1].1@ == "1"@,
        r@[2].0@ == "LISTEN_FDNAMES"@ && r@[2].1@ == "netnswrap"@,
{
    let mut v: Vec<(String, String)> = Vec::new();
    v.push((String::from_str("LISTEN_PID"), dec_u64(pid)));
    v.push((String::from_str("LISTEN_FDS"), String::from_str("1")));
    v.push((String::from_str("LISTEN_FDNAMES"), String::from_str("netnswrap")));
    v
}

} // verus!
