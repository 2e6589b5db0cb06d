//! The quota decision: whether an account's next call in a session is allowed,
//! and the record that allowing it leaves behind.

use crate::ledger::{record_in, QuotaRecord};
use vstd::prelude::*;

verus! {

/// The outcome of a quota check.
#[derive(Clone, Copy, Debug, PartialEq, Eq, Structural)]
pub enum Decision {
    /// The call may go ahead; the account's record becomes the one carried.
    Allow(QuotaRecord),
    /// The quota of the session is spent.
    Deny,
}

/// The usage that `record` stands for in `session`: its count if it was made
/// in that session, else none (a stale record is reset lazily).
pub open spec fn effective_used(record: QuotaRecord, session: u64) -> u32 {
    if record.last_session == session {
        record.used
    } else {
        0
    }
}

/// The decision for one more call in `session` by an account whose record is
/// `record`, under a quota of `max_calls` calls per session.
pub open spec fn decide(record: QuotaRecord, session: u64, max_calls: u32) -> Decision {
    let u = effective_used(record, session);
    if u < max_calls {
        Decision::Allow(QuotaRecord { last_session: session, used: (u + 1) as u32 })
    } else {
        Decision::Deny
    }
}

/// The records after one call by `account` in `session` is decided and, if
/// allowed, committed.
pub open spec fn after_call(
    records: Map<u64, QuotaRecord>,
    account: u64,
    session: u64,
    max_calls: u32,
) -> Map<u64, QuotaRecord> {
    match decide(record_in(records, account), session, max_calls) {
        Decision::Allow(r) => records.insert(account, r),
        Decision::Deny => records,
    }
}

/// No stored record counts more calls than the quota allows.
pub open spec fn within_quota(records: Map<u64, QuotaRecord>, max_calls: u32) -> bool {
    forall|a: u64| #[trigger] records.contains_key(a) ==> records[a].used <= max_calls
}

/// Decides one more call in `current_session` for an account whose record is
/// `record`: allowed, with usage one higher (reset first if the record is of
/// another session), while the usage is under `max_calls`; denied otherwise.
pub fn evaluate(record: QuotaRecord, current_session: u64, max_calls: u32) -> (d: Decision)
    ensures
        d == decide(record, current_session, max_calls),
{
    let used: u32 = if record.last_session == current_session {
        record.used
    } else {
        0
    };
    if used < max_calls {
        Decision::Allow(
            QuotaRecord { last_session: current_session, used: used.saturating_add(1) },
        )
    } else {
        Decision::Deny
    }
}

/// While the usage of an account in a session is under the quota, its next
/// call is allowed and leaves the record `{session, usage + 1}`.
pub proof fn lemma_allowed_under_quota(
    records: Map<u64, QuotaRecord>,
    account: u64,
    session: u64,
    max_calls: u32,
)
    requires
        effective_used(record_in(records, account), session) < max_calls,
    ensures
        ({
            let r = QuotaRecord {
                last_session: session,
                used: (effective_used(record_in(records, account), session) + 1) as u32,
            };
            &&& decide(record_in(records, account), session, max_calls) == Decision::Allow(r)
            &&& record_in(after_call(records, account, session, max_calls), account) == r
        }),
{
}

/// An account whose record is of an earlier session is allowed its next call,
/// with usage reset to one, however many sessions have passed, as long as the
/// quota is at least one.
pub proof fn lemma_stale_session_resets(
    records: Map<u64, QuotaRecord>,
    account: u64,
    session: u64,
    max_calls: u32,
)
    requires
        record_in(records, account).last_session < session,
        max_calls >= 1,
    ensures
        decide(record_in(records, account), session, max_calls) == Decision::Allow(
            QuotaRecord { last_session: session, used: 1 },
        ),
        record_in(after_call(records, account, session, max_calls), account) == (QuotaRecord {
            last_session: session,
            used: 1,
        }),
{
}

/// An account that has used its whole quota in the current session is denied,
/// and the denial leaves the records as they were, however often it repeats.
pub proof fn lemma_exhausted_denies(
    records: Map<u64, QuotaRecord>,
    account: u64,
    session: u64,
    max_calls: u32,
)
    requires
        record_in(records, account).last_session == session,
        record_in(records, account).used == max_calls,
    ensures
        decide(record_in(records, account), session, max_calls) == Decision::Deny,
        after_call(records, account, session, max_calls) == records,
        after_call(after_call(records, account, session, max_calls), account, session, max_calls)
            == records,
{
}

/// Within a fixed session a call never lowers any account's usage, and the
/// usage of every account stays within the quota.
pub proof fn lemma_usage_monotone_and_bounded(
    records: Map<u64, QuotaRecord>,
    account: u64,
    session: u64,
    max_calls: u32,
)
    requires
        within_quota(records, max_calls),
    ensures
        within_quota(after_call(records, account, session, max_calls), max_calls),
        forall|a: u64|
            effective_used(record_in(records, a), session) <= #[trigger] effective_used(
                record_in(after_call(records, account, session, max_calls), a),
                session,
            ),
        forall|a: u64|
            #[trigger] effective_used(
                record_in(after_call(records, account, session, max_calls), a),
                session,
            ) <= max_calls,
{
    let next = after_call(records, account, session, max_calls);
    assert forall|a: u64| #[trigger] next.contains_key(a) implies next[a].used <= max_calls by {
        if a != account {
            assert(records.contains_key(a));
        }
    }
}

/// Under a quota of zero every call is denied, for every record and session.
pub proof fn lemma_zero_quota_denies(record: QuotaRecord, session: u64)
    ensures
        decide(record, session, 0) == Decision::Deny,
{
}

} // verus!
