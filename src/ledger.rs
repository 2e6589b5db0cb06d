//! Per-account usage records, kept in a map keyed by account id.

use std::collections::HashMap;
use vstd::prelude::*;

verus! {

broadcast use vstd::std_specs::hash::group_hash_axioms;

/// What an account has used of its quota: `used` calls in session
/// `last_session`. A record of an earlier session counts as no usage.
#[derive(Clone, Copy, Debug, PartialEq, Eq, Structural)]
pub struct QuotaRecord {
    pub last_session: u64,
    pub used: u32,
}

/// The record of an account that has never been seen.
pub open spec fn default_record() -> QuotaRecord {
    QuotaRecord { last_session: 0, used: 0 }
}

/// The record that `records` holds for `account`, or the default one.
pub open spec fn record_in(records: Map<u64, QuotaRecord>, account: u64) -> QuotaRecord {
    if records.contains_key(account) {
        records[account]
    } else {
        default_record()
    }
}

impl QuotaRecord {
    /// The record of an account that has never been seen: `{0, 0}`.
    pub fn fresh() -> (r: QuotaRecord)
        ensures
            r == default_record(),
    {
        QuotaRecord { last_session: 0, used: 0 }
    }
}

/// The store of usage records. Records are created on first write and never
/// removed.
pub struct QuotaLedger {
    records: HashMap<u64, QuotaRecord>,
}

impl View for QuotaLedger {
    type V = Map<u64, QuotaRecord>;

    closed spec fn view(&self) -> Map<u64, QuotaRecord> {
        self.records@
    }
}

impl QuotaLedger {
    /// An empty ledger.
    pub fn new() -> (l: QuotaLedger)
        ensures
            l@ == Map::<u64, QuotaRecord>::empty(),
    {
        QuotaLedger { records: HashMap::new() }
    }

    /// The stored record of `account`, or `{0, 0}` if there is none.
    pub fn get(&self, account: u64) -> (r: QuotaRecord)
        ensures
            r == record_in(self@, account),
    {
        match self.records.get(&account) {
            Some(r) => *r,
            None => QuotaRecord::fresh(),
        }
    }

    /// Overwrites the record of `account` with `record`.
    pub fn set(&mut self, account: u64, record: QuotaRecord)
        ensures
            final(self)@ == old(self)@.insert(account, record),
    {
        self.records.insert(account, record);
    }

    /// The number of accounts with a stored record.
    pub fn len(&self) -> (n: usize)
        ensures
            n == self@.len(),
    {
        self.records.len()
    }
}

} // verus!
