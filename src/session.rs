//! Mapping of a monotonic counter onto session ids.

use vstd::prelude::*;

verus! {

/// The session that `counter` falls in, for sessions of `session_length` ticks.
pub open spec fn session_of(counter: u64, session_length: u64) -> u64
    recommends
        session_length > 0,
{
    (counter / session_length) as u64
}

/// The id of the session that `counter` falls in: `counter / session_length`,
/// truncating.
pub fn current_session(counter: u64, session_length: u64) -> (s: u64)
    requires
        session_length > 0,
    ensures
        s == session_of(counter, session_length),
        s as int == counter as int / session_length as int,
{
    counter / session_length
}

} // verus!
