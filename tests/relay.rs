use session_quota::ledger::{QuotaLedger, QuotaRecord};
use session_quota::policy::{evaluate, Decision};
use session_quota::relay::{
    fee_for, forwarded, Action, Config, Error, Event, FeeDisposition, InnerResult, Pallet,
    RelayOutcome,
};
use session_quota::session::current_session;

fn pallet(max_calls: u32, session_length: u64, deny_events: bool) -> Pallet {
    match Pallet::new(Config { max_calls, session_length, deny_events }) {
        Ok(p) => p,
        Err(_) => panic!("valid configuration refused"),
    }
}

fn denied() -> RelayOutcome {
    RelayOutcome { forwarded: false, inner_result: None, fee: FeeDisposition::ReducedFixed }
}

#[test]
fn session_is_counter_divided_by_length() {
    assert_eq!(current_session(0, 1000), 0);
    assert_eq!(current_session(500, 1000), 0);
    assert_eq!(current_session(999, 1000), 0);
    assert_eq!(current_session(1000, 1000), 1);
    assert_eq!(current_session(2999, 1000), 2);
    assert_eq!(current_session(u64::MAX, 1), u64::MAX);
    let p = pallet(3, 1000, false);
    assert_eq!(p.session_at(12345), 12);
}

#[test]
fn zero_session_length_is_refused() {
    let r = Pallet::new(Config { max_calls: 3, session_length: 0, deny_events: false });
    assert!(matches!(r, Err(Error::ConfigurationError)));
}

#[test]
fn ledger_defaults_and_overwrites() {
    let mut l = QuotaLedger::new();
    assert_eq!(l.get(9), QuotaRecord { last_session: 0, used: 0 });
    assert_eq!(l.len(), 0);
    l.set(9, QuotaRecord { last_session: 4, used: 2 });
    assert_eq!(l.get(9), QuotaRecord { last_session: 4, used: 2 });
    assert_eq!(l.get(8), QuotaRecord::fresh());
    l.set(9, QuotaRecord { last_session: 5, used: 1 });
    assert_eq!(l.get(9), QuotaRecord { last_session: 5, used: 1 });
    assert_eq!(l.len(), 1);
}

#[test]
fn under_quota_is_allowed_with_one_more_call() {
    let r = QuotaRecord { last_session: 7, used: 4 };
    assert_eq!(evaluate(r, 7, 5), Decision::Allow(QuotaRecord { last_session: 7, used: 5 }));
    assert_eq!(evaluate(r, 7, 4), Decision::Deny);
}

#[test]
fn stale_record_resets_usage() {
    let r = QuotaRecord { last_session: 2, used: 9 };
    assert_eq!(evaluate(r, 3, 1), Decision::Allow(QuotaRecord { last_session: 3, used: 1 }));
    assert_eq!(evaluate(r, 500, 9), Decision::Allow(QuotaRecord { last_session: 500, used: 1 }));
}

#[test]
fn exhausted_quota_denies_and_leaves_ledger() {
    let mut p = pallet(2, 10, false);
    assert_eq!(p.relay(1, 3), Action::Forward);
    assert_eq!(p.relay(1, 4), Action::Forward);
    for _ in 0..3 {
        assert_eq!(p.relay(1, 5), Action::Reject(denied(), None));
        assert_eq!(p.record(1), QuotaRecord { last_session: 0, used: 2 });
    }
    assert_eq!(p.accounts_seen(), 1);
}

#[test]
fn usage_grows_by_one_up_to_quota_within_a_session() {
    let mut p = pallet(4, 100, false);
    let mut last: u32 = 0;
    for i in 0..10u64 {
        p.relay(5, 200 + i);
        let used = p.record(5).used;
        assert!(used >= last);
        assert!(used <= 4);
        last = used;
    }
    assert_eq!(last, 4);
}

#[test]
fn accounts_have_separate_quotas() {
    let mut p = pallet(1, 100, false);
    assert_eq!(p.relay(1, 0), Action::Forward);
    assert_eq!(p.relay(2, 0), Action::Forward);
    assert_eq!(p.relay(1, 0), Action::Reject(denied(), None));
    assert_eq!(p.record(2), QuotaRecord { last_session: 0, used: 1 });
    assert_eq!(p.accounts_seen(), 2);
}

#[test]
fn scenario_fresh_account_three_calls_then_denied() {
    let mut p = pallet(3, 1000, false);
    for used in 1..=3u32 {
        assert_eq!(p.evaluate(42, 0), Decision::Allow(QuotaRecord { last_session: 0, used }));
        assert_eq!(p.relay(42, 500), Action::Forward);
        assert_eq!(p.record(42), QuotaRecord { last_session: 0, used });
    }
    assert_eq!(p.evaluate(42, 0), Decision::Deny);
    assert_eq!(p.relay(42, 500), Action::Reject(denied(), None));
    assert_eq!(p.record(42), QuotaRecord { last_session: 0, used: 3 });
}

#[test]
fn scenario_next_session_resets_quota() {
    let mut p = pallet(3, 1000, false);
    for _ in 0..4 {
        p.relay(42, 500);
    }
    assert_eq!(p.record(42), QuotaRecord { last_session: 0, used: 3 });
    assert_eq!(p.relay(42, 1000), Action::Forward);
    assert_eq!(p.record(42), QuotaRecord { last_session: 1, used: 1 });
}

#[test]
fn scenario_zero_quota_denies_everything() {
    let mut p = pallet(0, 10, false);
    for account in 0..5u64 {
        for counter in [0u64, 9, 10, 1000, u64::MAX] {
            assert_eq!(p.relay(account, counter), Action::Reject(denied(), None));
        }
    }
    assert_eq!(p.accounts_seen(), 0);
    assert_eq!(evaluate(QuotaRecord { last_session: 3, used: 0 }, 3, 0), Decision::Deny);
}

#[test]
fn scenario_failed_forward_still_consumes_quota() {
    let mut p = pallet(3, 1000, false);
    assert_eq!(p.relay(42, 500), Action::Forward);
    assert_eq!(p.record(42), QuotaRecord { last_session: 0, used: 1 });
    let (outcome, event) = forwarded(42, InnerResult::Failure);
    assert_eq!(
        outcome,
        RelayOutcome {
            forwarded: true,
            inner_result: Some(InnerResult::Failure),
            fee: FeeDisposition::Waived,
        }
    );
    assert_eq!(event, Event::Relayed { account: 42, success: false });
    assert_eq!(p.record(42), QuotaRecord { last_session: 0, used: 1 });
}

#[test]
fn successful_forward_reports_success() {
    let (outcome, event) = forwarded(7, InnerResult::Success);
    assert_eq!(outcome.inner_result, Some(InnerResult::Success));
    assert!(outcome.forwarded);
    assert_eq!(outcome.fee, FeeDisposition::Waived);
    assert_eq!(event, Event::Relayed { account: 7, success: true });
}

#[test]
fn fee_follows_decision() {
    let allow = Decision::Allow(QuotaRecord { last_session: 1, used: 1 });
    assert_eq!(fee_for(&allow), FeeDisposition::Waived);
    assert_eq!(fee_for(&Decision::Deny), FeeDisposition::ReducedFixed);
}

#[test]
fn deny_event_only_when_configured() {
    let mut p = pallet(0, 10, true);
    assert_eq!(p.relay(3, 0), Action::Reject(denied(), Some(Event::Denied { account: 3 })));
    assert_eq!(p.config(), Config { max_calls: 0, session_length: 10, deny_events: true });
}

#[test]
fn largest_quota_and_counter() {
    let mut p = pallet(u32::MAX, u64::MAX, false);
    assert_eq!(p.relay(1, u64::MAX), Action::Forward);
    assert_eq!(p.record(1), QuotaRecord { last_session: 1, used: 1 });
    let r = QuotaRecord { last_session: 0, used: u32::MAX - 1 };
    assert_eq!(evaluate(r, 0, u32::MAX), Decision::Allow(QuotaRecord { last_session: 0, used: u32::MAX }));
    assert_eq!(evaluate(QuotaRecord { last_session: 0, used: u32::MAX }, 0, u32::MAX), Decision::Deny);
}
