//! The relay: checks a caller's quota, commits the new usage before the call
//! is forwarded, and reports what happened and what fee applies.
//!
//! Forwarding itself is the host's work. `Pallet::relay` decides and commits,
//! and answers either `Action::Forward`, after which the host runs the call and
//! hands its result to `forwarded`, or `Action::Reject` with the final outcome.

use crate::ledger::{record_in, QuotaLedger, QuotaRecord};
use crate::policy::{after_call, decide, evaluate, within_quota, Decision};
use crate::session::{current_session, session_of};
use vstd::prelude::*;

verus! {

/// Deployment-time settings of the relay.
#[derive(Clone, Copy, Debug, PartialEq, Eq, Structural)]
pub struct Config {
    /// Calls each account may have relayed per session.
    pub max_calls: u32,
    /// Length of a session in counter ticks; must be positive.
    pub session_length: u64,
    /// Whether a denied call is reported by an event.
    pub deny_events: bool,
}

/// Errors that stop the relay from being set up.
#[derive(Clone, Copy, Debug, PartialEq, Eq, Structural)]
pub enum Error {
    /// The session length is zero.
    ConfigurationError,
}

/// How the fee of a relayed call is settled.
#[derive(Clone, Copy, Debug, PartialEq, Eq, Structural)]
pub enum FeeDisposition {
    /// No fee is charged: the call was within quota.
    Waived,
    /// A fixed fee for the quota lookup alone: the call was denied.
    ReducedFixed,
}

/// Whether a forwarded call succeeded.
#[derive(Clone, Copy, Debug, PartialEq, Eq, Structural)]
pub enum InnerResult {
    Success,
    Failure,
}

/// What the caller of the relay learns.
#[derive(Clone, Copy, Debug, PartialEq, Eq, Structural)]
pub struct RelayOutcome {
    /// Whether the call was handed on.
    pub forwarded: bool,
    /// The forwarded call's result; `None` when it was not forwarded.
    pub inner_result: Option<InnerResult>,
    /// How the fee is settled.
    pub fee: FeeDisposition,
}

/// Records of what the relay did.
#[derive(Clone, Copy, Debug, PartialEq, Eq, Structural)]
pub enum Event {
    /// A call of `account` was forwarded; `success` tells how it ended.
    Relayed { account: u64, success: bool },
    /// A call of `account` was denied (only when the configuration asks).
    Denied { account: u64 },
}

/// What the host is to do after the quota check.
#[derive(Clone, Copy, Debug, PartialEq, Eq, Structural)]
pub enum Action {
    /// Run the call, then hand its result to `forwarded`.
    Forward,
    /// Do not run the call; this is the outcome, with the event to emit if any.
    Reject(RelayOutcome, Option<Event>),
}

/// The fee disposition that a decision calls for.
pub open spec fn fee_of(d: Decision) -> FeeDisposition {
    match d {
        Decision::Allow(_) => FeeDisposition::Waived,
        Decision::Deny => FeeDisposition::ReducedFixed,
    }
}

/// The outcome of a denied call.
pub open spec fn denied_outcome() -> RelayOutcome {
    RelayOutcome { forwarded: false, inner_result: None, fee: FeeDisposition::ReducedFixed }
}

/// The outcome of a forwarded call whose result was `inner`.
pub open spec fn forwarded_outcome(inner: InnerResult) -> RelayOutcome {
    RelayOutcome { forwarded: true, inner_result: Some(inner), fee: FeeDisposition::Waived }
}

/// What the host is told to do after decision `d` on a call of `account`.
pub open spec fn action_of(d: Decision, account: u64, deny_events: bool) -> Action {
    match d {
        Decision::Allow(_) => Action::Forward,
        Decision::Deny => Action::Reject(
            denied_outcome(),
            if deny_events {
                Some(Event::Denied { account })
            } else {
                None
            },
        ),
    }
}

/// The fee disposition for decision `d`: waived when allowed, the reduced
/// fixed fee when denied.
pub fn fee_for(d: &Decision) -> (f: FeeDisposition)
    ensures
        f == fee_of(*d),
{
    match d {
        Decision::Allow(_) => FeeDisposition::Waived,
        Decision::Deny => FeeDisposition::ReducedFixed,
    }
}

/// The outcome and event of a call of `account` that was forwarded and ended
/// with `inner`. The fee is waived whether or not the call succeeded.
pub fn forwarded(account: u64, inner: InnerResult) -> (r: (RelayOutcome, Event))
    ensures
        r.0 == forwarded_outcome(inner),
        r.1 == (Event::Relayed { account, success: inner == InnerResult::Success }),
{
    let success = match inner {
        InnerResult::Success => true,
        InnerResult::Failure => false,
    };
    (
        RelayOutcome { forwarded: true, inner_result: Some(inner), fee: FeeDisposition::Waived },
        Event::Relayed { account, success },
    )
}

/// The quota relay: its configuration and the usage ledger it owns.
pub struct Pallet {
    config: Config,
    ledger: QuotaLedger,
}

impl Pallet {
    /// The configuration the relay was set up with.
    pub closed spec fn spec_config(&self) -> Config {
        self.config
    }

    /// The stored usage records, by account.
    pub closed spec fn records(&self) -> Map<u64, QuotaRecord> {
        self.ledger@
    }

    /// The session length is positive and no stored usage exceeds the quota.
    pub closed spec fn wf(&self) -> bool {
        &&& self.config.session_length > 0
        &&& within_quota(self.ledger@, self.config.max_calls)
    }

    /// Sets up a relay with an empty ledger; refuses a zero session length.
    pub fn new(config: Config) -> (r: Result<Pallet, Error>)
        ensures
            r is Err <==> config.session_length == 0,
            r is Err ==> r == Err::<Pallet, Error>(Error::ConfigurationError),
            r matches Ok(p) ==> p.wf() && p.spec_config() == config && p.records()
                == Map::<u64, QuotaRecord>::empty(),
    {
        if config.session_length == 0 {
            Err(Error::ConfigurationError)
        } else {
            Ok(Pallet { config, ledger: QuotaLedger::new() })
        }
    }

    /// The configuration the relay was set up with.
    pub fn config(&self) -> (c: Config)
        ensures
            c == self.spec_config(),
    {
        self.config
    }

    /// The usage record of `account`, `{0, 0}` if it has none.
    pub fn record(&self, account: u64) -> (r: QuotaRecord)
        ensures
            r == record_in(self.records(), account),
    {
        self.ledger.get(account)
    }

    /// The number of accounts the relay has a record of.
    pub fn accounts_seen(&self) -> (n: usize)
        ensures
            n == self.records().len(),
    {
        self.ledger.len()
    }

    /// The session that `counter` falls in.
    pub fn session_at(&self, counter: u64) -> (s: u64)
        requires
            self.wf(),
        ensures
            s == session_of(counter, self.spec_config().session_length),
    {
        current_session(counter, self.config.session_length)
    }

    /// The decision on one more call of `account` in `session`, without
    /// committing it.
    pub fn evaluate(&self, account: u64, session: u64) -> (d: Decision)
        ensures
            d == decide(record_in(self.records(), account), session, self.spec_config().max_calls),
    {
        evaluate(self.ledger.get(account), session, self.config.max_calls)
    }

    /// Checks a call of `account` at counter value `counter` against the
    /// quota. When allowed, the new usage is stored before anything else, so the
    /// call counts even if it then fails; the host is told to forward it. When
    /// denied, the ledger is left alone and the outcome is final.
    pub fn relay(&mut self, account: u64, counter: u64) -> (a: Action)
        requires
            old(self).wf(),
        ensures
            final(self).wf(),
            final(self).spec_config() == old(self).spec_config(),
            ({
                let cfg = old(self).spec_config();
                let s = session_of(counter, cfg.session_length);
                let d = decide(record_in(old(self).records(), account), s, cfg.max_calls);
                &&& final(self).records() == after_call(
                    old(self).records(),
                    account,
                    s,
                    cfg.max_calls,
                )
                &&& a == action_of(d, account, cfg.deny_events)
            }),
    {
        let s = current_session(counter, self.config.session_length);
        let d = self.evaluate(account, s);
        match d {
            Decision::Allow(r) => {
                self.ledger.set(account, r);
                proof {
                    let m = old(self).ledger@;
                    let n = self.ledger@;
                    assert forall|k: u64| #[trigger] n.contains_key(k) implies n[k].used
                        <= self.config.max_calls by {
                        if k != account {
                            assert(m.contains_key(k));
                        }
                    }
                }
                Action::Forward
            },
            Decision::Deny => {
                let fee = fee_for(&d);
                let outcome = RelayOutcome { forwarded: false, inner_result: None, fee };
                let event = if self.config.deny_events {
                    Some(Event::Denied { account })
                } else {
                    None
                };
                Action::Reject(outcome, event)
            },
        }
    }
}

} // verus!
