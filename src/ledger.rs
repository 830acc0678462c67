use vstd::prelude::*;

use crate::host::{find_program_address, program_address_of};
use crate::layout::{encode_store, store_bytes};
use crate::state::{seed_bytes, store_seed, Address, ExampleStore, StoreReset};

verus! {

/// A store record held at an address.
#[derive(Clone, Copy, Debug)]
pub struct StoreAccount {
    pub address: Address,
    pub store: ExampleStore,
}

/// The part of the ledger that the store program owns: its identity, the
/// store records by address, and the log of emitted reset notifications.
pub struct Ledger {
    pub program_id: Address,
    pub accounts: Vec<StoreAccount>,
    pub events: Vec<StoreReset>,
}

/// The abstract ledger: records form a map from address to timestamp, and the
/// event log is the sequence of timestamps carried by reset notifications.
pub ghost struct LedgerModel {
    pub program_id: Seq<u8>,
    pub records: Map<Seq<u8>, i64>,
    pub events: Seq<i64>,
}

/// The map from address to timestamp that a list of accounts holds.
pub open spec fn records_of(s: Seq<StoreAccount>) -> Map<Seq<u8>, i64>
    decreases s.len(),
{
    if s.len() == 0 {
        Map::empty()
    } else {
        records_of(s.drop_last()).insert(s.last().address@, s.last().store.timestamp)
    }
}

/// The timestamps carried by a log of reset notifications.
pub open spec fn events_of(s: Seq<StoreReset>) -> Seq<i64> {
    s.map_values(|e: StoreReset| e.timestamp)
}

/// No two accounts share an address.
pub open spec fn distinct_addresses(s: Seq<StoreAccount>) -> bool {
    forall|i: int, j: int|
        0 <= i < s.len() && 0 <= j < s.len() && i != j ==> s[i].address@ != s[j].address@
}

/// The address where the store of the program `program_id` lives, if one can be
/// derived.
pub open spec fn store_address_of(program_id: Seq<u8>) -> Option<Seq<u8>> {
    match program_address_of(store_seed(), program_id) {
        Some((a, _)) => Some(a),
        None => None,
    }
}

impl View for Ledger {
    type V = LedgerModel;

    open spec fn view(&self) -> LedgerModel {
        LedgerModel {
            program_id: self.program_id@,
            records: records_of(self.accounts@),
            events: events_of(self.events@),
        }
    }
}

proof fn lemma_records_contains(s: Seq<StoreAccount>, a: Seq<u8>)
    ensures
        records_of(s).contains_key(a) <==> exists|i: int| 0 <= i < s.len() && s[i].address@ == a,
    decreases s.len(),
{
    if s.len() > 0 {
        lemma_records_contains(s.drop_last(), a);
        if records_of(s).contains_key(a) && s.last().address@ != a {
            let i = choose|i: int| 0 <= i < s.len() - 1 && s.drop_last()[i].address@ == a;
            assert(s[i].address@ == a);
        }
        if exists|i: int| 0 <= i < s.len() && s[i].address@ == a {
            let i = choose|i: int| 0 <= i < s.len() && s[i].address@ == a;
            if i < s.len() - 1 {
                assert(s.drop_last()[i].address@ == a);
            }
        }
    }
}

proof fn lemma_records_value(s: Seq<StoreAccount>, i: int)
    requires
        distinct_addresses(s),
        0 <= i < s.len(),
    ensures
        records_of(s).contains_key(s[i].address@),
        records_of(s)[s[i].address@] == s[i].store.timestamp,
    decreases s.len(),
{
    if i < s.len() - 1 {
        lemma_records_value(s.drop_last(), i);
        assert(s.drop_last()[i] == s[i]);
        assert(s[i].address@ != s[s.len() - 1].address@);
    }
}

proof fn lemma_records_update(s: Seq<StoreAccount>, i: int, acct: StoreAccount)
    requires
        distinct_addresses(s),
        0 <= i < s.len(),
        acct.address@ == s[i].address@,
    ensures
        records_of(s.update(i, acct)) == records_of(s).insert(acct.address@, acct.store.timestamp),
    decreases s.len(),
{
    let t = s.update(i, acct);
    if i == s.len() - 1 {
        assert(t.drop_last() =~= s.drop_last());
        assert(records_of(t) =~= records_of(s).insert(acct.address@, acct.store.timestamp));
    } else {
        assert(t.drop_last() =~= s.drop_last().update(i, acct));
        lemma_records_update(s.drop_last(), i, acct);
        assert(s.last().address@ != acct.address@);
        assert(records_of(t) =~= records_of(s).insert(acct.address@, acct.store.timestamp));
    }
}

impl Ledger {
    /// Addresses of the held records are pairwise distinct.
    pub open spec fn wf(&self) -> bool {
        distinct_addresses(self.accounts@)
    }

    /// A ledger for the program `program_id` with no records and no events.
    pub fn new(program_id: Address) -> (r: Ledger)
        ensures
            r.wf(),
            r@.program_id == program_id@,
            r@.records == Map::<Seq<u8>, i64>::empty(),
            r@.events == Seq::<i64>::empty(),
    {
        let r = Ledger { program_id, accounts: Vec::new(), events: Vec::new() };
        assert(r@.events =~= Seq::<i64>::empty());
        r
    }

    /// The address where this program's store lives, derived from the seed
    /// `store` and the program identity.
    pub fn store_address(&self) -> (r: Option<Address>)
        ensures
            match r {
                Some(a) => store_address_of(self@.program_id) == Some(a@),
                None => store_address_of(self@.program_id) is None,
            },
    {
        let seed = seed_bytes();
        match find_program_address(seed.as_slice(), &self.program_id) {
            Some((a, _)) => Some(a),
            None => None,
        }
    }

    /// The index of the account at `address`, if any.
    pub(crate) fn find(&self, address: &Address) -> (r: Option<usize>)
        requires
            self.wf(),
        ensures
            match r {
                Some(i) => {
                    &&& i < self.accounts@.len()
                    &&& self.accounts@[i as int].address@ == address@
                    &&& self@.records.contains_key(address@)
                },
                None => !self@.records.contains_key(address@),
            },
    {
        let mut i: usize = 0;
        while i < self.accounts.len()
            invariant
                i <= self.accounts@.len(),
                forall|j: int| 0 <= j < i ==> self.accounts@[j].address@ != address@,
            decreases self.accounts@.len() - i,
        {
            if self.accounts[i].address.same_as(address) {
                proof {
                    lemma_records_contains(self.accounts@, address@);
                }
                return Some(i);
            }
            i = i + 1;
        }
        proof {
            lemma_records_contains(self.accounts@, address@);
        }
        None
    }

    /// Reads the record at `address`.
    pub fn record_at(&self, address: &Address) -> (r: Option<ExampleStore>)
        requires
            self.wf(),
        ensures
            r == (if self@.records.contains_key(address@) {
                Some(ExampleStore { timestamp: self@.records[address@] })
            } else {
                None
            }),
    {
        match self.find(address) {
            Some(i) => {
                proof {
                    lemma_records_value(self.accounts@, i as int);
                }
                Some(self.accounts[i].store)
            },
            None => None,
        }
    }

    /// Checks that no two held records share an address.
    pub fn has_distinct_addresses(&self) -> (r: bool)
        ensures
            r == self.wf(),
    {
        let n = self.accounts.len();
        let mut i: usize = 0;
        while i < n
            invariant
                n == self.accounts@.len(),
                i <= n,
                forall|a: int, b: int|
                    0 <= a < i && 0 <= b < n && a != b ==> self.accounts@[a].address@
                        != self.accounts@[b].address@,
            decreases n - i,
        {
            let mut j: usize = 0;
            while j < n
                invariant
                    n == self.accounts@.len(),
                    i < n,
                    j <= n,
                    forall|a: int, b: int|
                        0 <= a < i && 0 <= b < n && a != b ==> self.accounts@[a].address@
                            != self.accounts@[b].address@,
                    forall|b: int|
                        0 <= b < j && b != i ==> self.accounts@[i as int].address@
                            != self.accounts@[b].address@,
                decreases n - j,
            {
                if j != i && self.accounts[i].address.same_as(&self.accounts[j].address) {
                    return false;
                }
                j = j + 1;
            }
            i = i + 1;
        }
        true
    }

    /// The persisted bytes of the record at `address`.
    pub fn account_data(&self, address: &Address) -> (r: Option<Vec<u8>>)
        requires
            self.wf(),
        ensures
            match r {
                Some(data) => self@.records.contains_key(address@)
                    && data@ == store_bytes(ExampleStore { timestamp: self@.records[address@] }),
                None => !self@.records.contains_key(address@),
            },
    {
        match self.record_at(address) {
            Some(s) => Some(encode_store(&s)),
            None => None,
        }
    }

    /// Overwrites the timestamp of the `i`-th record.
    pub(crate) fn overwrite(&mut self, i: usize, timestamp: i64)
        requires
            old(self).wf(),
            i < old(self).accounts@.len(),
        ensures
            final(self).wf(),
            final(self)@ == (LedgerModel {
                records: old(self)@.records.insert(old(self).accounts@[i as int].address@, timestamp),
                ..old(self)@
            }),
    {
        let acct = StoreAccount { address: self.accounts[i].address, store: ExampleStore { timestamp } };
        proof {
            lemma_records_update(self.accounts@, i as int, acct);
        }
        self.accounts.set(i, acct);
    }

    /// Creates a record at an address that holds none, and logs its reset
    /// notification.
    pub(crate) fn create(&mut self, address: Address, timestamp: i64)
        requires
            old(self).wf(),
            !old(self)@.records.contains_key(address@),
        ensures
            final(self).wf(),
            final(self)@ == (LedgerModel {
                records: old(self)@.records.insert(address@, timestamp),
                events: old(self)@.events.push(timestamp),
                ..old(self)@
            }),
    {
        let acct = StoreAccount { address, store: ExampleStore { timestamp } };
        proof {
            lemma_records_contains(self.accounts@, address@);
        }
        self.accounts.push(acct);
        self.events.push(StoreReset { timestamp });
        proof {
            assert(self.accounts@.drop_last() =~= old(self).accounts@);
            assert(self@.events =~= old(self)@.events.push(timestamp));
        }
    }
}

} // verus!
