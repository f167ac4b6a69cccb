//! The store of trade records, keyed by the identifier of the trade.

use vstd::prelude::*;
use crate::error::{is_trade_io_error, ErrorKind};
use crate::swap::Swap;
use crate::text::{join3, u64_to_string};
use crate::types::{Context, Role};

verus! {

/// What is kept of one trade: the private material and the trade itself.
#[derive(Debug, PartialEq, Eq)]
pub struct TradeRecord {
    pub context: Context,
    pub swap: Swap,
}

/// Whether no two records are of the same trade.
pub open spec fn ids_distinct(records: Seq<TradeRecord>) -> bool {
    forall|i: int, j: int|
        0 <= i < j < records.len() ==> records[i].swap.id@ != records[j].swap.id@
}

/// Whether the record at `i` is that of the trade `id`.
pub open spec fn record_at(records: Seq<TradeRecord>, i: int, id: Seq<char>) -> bool {
    0 <= i < records.len() && records[i].swap.id@ == id
}

/// Whether the records hold the trade `id`.
pub open spec fn holds(records: Seq<TradeRecord>, id: Seq<char>) -> bool {
    exists|i: int| record_at(records, i, id)
}

/// The records with `record` put under its identifier: in the place of the
/// record of the same trade, or at the end where there is none.
pub open spec fn with_record(records: Seq<TradeRecord>, record: TradeRecord) -> Seq<TradeRecord> {
    if holds(records, record.swap.id@) {
        let i = choose|i: int| record_at(records, i, record.swap.id@);
        records.update(i, record)
    } else {
        records.push(record)
    }
}

/// The records without the one of the trade `id`.
pub open spec fn without_record(records: Seq<TradeRecord>, id: Seq<char>) -> Seq<TradeRecord> {
    if holds(records, id) {
        let i = choose|i: int| record_at(records, i, id);
        records.remove(i)
    } else {
        records
    }
}

/// Whether `r` is what a look-up of the trade `id` gives: a copy of its
/// record, or `TradeIoError` where the records do not hold the trade.
pub open spec fn found_is(
    r: Result<(Context, Swap), ErrorKind>,
    records: Seq<TradeRecord>,
    id: Seq<char>,
) -> bool {
    &&& holds(records, id) ==> r is Ok && exists|i: int|
        record_at(records, i, id) && r->Ok_0.0.same(&records[i].context) && r->Ok_0.1.same(
            &records[i].swap,
        )
    &&& !holds(records, id) ==> is_trade_io_error(r, id)
}

/// A trade that is stored is found again: after `record` has been put
/// among records of distinct trades, the trades are still distinct, the
/// record is the only one of its trade, and every look-up of its
/// identifier gives a copy of it.
pub proof fn law_store_then_get(
    records: Seq<TradeRecord>,
    record: TradeRecord,
    r: Result<(Context, Swap), ErrorKind>,
)
    requires
        ids_distinct(records),
        found_is(r, with_record(records, record), record.swap.id@),
    ensures
        ids_distinct(with_record(records, record)),
        holds(with_record(records, record), record.swap.id@),
        forall|i: int|
            record_at(with_record(records, record), i, record.swap.id@) ==> with_record(
                records,
                record,
            )[i] == record,
        r is Ok,
        r->Ok_0.0.same(&record.context),
        r->Ok_0.1.same(&record.swap),
{
    let after = with_record(records, record);
    let id = record.swap.id@;
    if holds(records, id) {
        let k = choose|k: int| record_at(records, k, id);
        assert(record_at(after, k, id));
        assert forall|i: int, j: int| 0 <= i < j < after.len() implies after[i].swap.id@
            != after[j].swap.id@ by {
            assert(records[i].swap.id@ != records[j].swap.id@);
        }
        assert forall|i: int| record_at(after, i, id) implies after[i] == record by {
            if i != k {
                assert(after[i] == records[i]);
                assert(record_at(records, i, id));
            }
        }
    } else {
        assert(record_at(after, records.len() as int, id));
        assert forall|i: int, j: int| 0 <= i < j < after.len() implies after[i].swap.id@
            != after[j].swap.id@ by {
            if j == records.len() {
                assert(after[i] == records[i]);
                assert(!record_at(records, i, id));
            }
        }
        assert forall|i: int| record_at(after, i, id) implies after[i] == record by {
            if i < records.len() {
                assert(after[i] == records[i]);
                assert(record_at(records, i, id));
            }
        }
    }
}

/// The text that describes a record to the operator.
pub open spec fn dump_text(record: &TradeRecord) -> Seq<char> {
    "Swap "@ + record.swap.id@ + "\nrole: "@ + (if record.swap.role == Role::Seller {
        "Seller"@
    } else {
        "Buyer"@
    }) + "\nstate: "@ + record.swap.state.spec_name() + "\nprimary amount: "@
        + crate::text::decimal_text(record.swap.primary_amount as nat) + "\nsecondary amount: "@
        + crate::text::decimal_text(record.swap.secondary_amount as nat) + " "@
        + record.swap.secondary_currency.spec_ticker() + "\n"@
}

/// The store of trades: at most one record for each identifier.
pub struct TradeStore {
    records: Vec<TradeRecord>,
}

impl View for TradeStore {
    type V = Seq<TradeRecord>;

    closed spec fn view(&self) -> Seq<TradeRecord> {
        self.records@
    }
}

impl TradeStore {
    #[verifier::type_invariant]
    spec fn distinct(&self) -> bool {
        ids_distinct(self.records@)
    }

    /// Takes the records out of the store, which is left empty.
    fn take_records(&mut self) -> (records: Vec<TradeRecord>)
        ensures
            records@ == old(self)@,
            ids_distinct(records@),
            final(self)@ == Seq::<TradeRecord>::empty(),
    {
        proof {
            use_type_invariant(&*self);
        }
        let mut taken = TradeStore { records: Vec::new() };
        core::mem::swap(self, &mut taken);
        let TradeStore { records } = taken;
        records
    }

    /// An empty store.
    pub fn new() -> (store: TradeStore)
        ensures
            store@ == Seq::<TradeRecord>::empty(),
    {
        TradeStore { records: Vec::new() }
    }

    /// The number of trades in the store.
    pub fn len(&self) -> (n: usize)
        ensures
            n == self@.len(),
            ids_distinct(self@),
    {
        proof {
            use_type_invariant(self);
        }
        self.records.len()
    }

    /// The place of the trade `id`, if the store holds it.
    pub fn find(&self, id: &str) -> (r: Option<usize>)
        ensures
            ids_distinct(self@),
            match r {
                Some(i) => record_at(self@, i as int, id@),
                None => !holds(self@, id@),
            },
    {
        proof {
            use_type_invariant(self);
        }
        let mut i: usize = 0;
        while i < self.records.len()
            invariant
                i <= self.records.len(),
                ids_distinct(self.records@),
                forall|j: int| 0 <= j < i ==> self.records@[j].swap.id@ != id@,
            decreases self.records.len() - i,
        {
            if crate::text::str_eq(self.records[i].swap.id.as_str(), id) {
                return Some(i);
            }
            i = i + 1;
        }
        None
    }

    /// The identifiers of the trades, in the order in which they were stored.
    pub fn list_swap_trades(&self) -> (ids: Vec<String>)
        ensures
            ids@.len() == self@.len(),
            forall|i: int| 0 <= i < ids@.len() ==> ids@[i]@ == self@[i].swap.id@,
    {
        let mut ids: Vec<String> = Vec::new();
        let mut i: usize = 0;
        while i < self.records.len()
            invariant
                i <= self.records.len(),
                ids@.len() == i,
                forall|j: int| 0 <= j < i ==> ids@[j]@ == self.records@[j].swap.id@,
            decreases self.records.len() - i,
        {
            ids.push(self.records[i].swap.id.clone());
            i = i + 1;
        }
        ids
    }

    /// A copy of the record of the trade `id`; `TradeIoError` where the
    /// store does not hold the trade.
    pub fn get_swap_trade(&self, id: &str) -> (r: Result<(Context, Swap), ErrorKind>)
        ensures
            found_is(r, self@, id@),
    {
        match self.find(id) {
            Some(i) => {
                let record = &self.records[i];
                let found: Result<(Context, Swap), ErrorKind> = Ok(
                    (record.context.duplicate(), record.swap.duplicate()),
                );
                assert(record_at(self@, i as int, id@) && found->Ok_0.0.same(&self@[i as int].context)
                    && found->Ok_0.1.same(&self@[i as int].swap));
                found
            },
            None => Err(
                ErrorKind::TradeIoError(id.to_owned(), "The trade record is not found".to_owned()),
            ),
        }
    }

    /// Puts the record of a trade under its identifier, in the place of the
    /// record that the store holds of the trade, if any.
    pub fn store_swap_trade(&mut self, context: Context, swap: Swap)
        ensures
            final(self)@ == with_record(old(self)@, TradeRecord { context, swap }),
            holds(final(self)@, swap.id@),
            ids_distinct(final(self)@),
    {
        proof {
            use_type_invariant(&*self);
        }
        let ghost before = self.records@;
        let found = self.find(swap.id.as_str());
        let mut records = self.take_records();
        match found {
            Some(i) => {
                records.set(i, TradeRecord { context, swap });
                assert(record_at(records@, i as int, swap.id@));
                proof {
                    let k = choose|k: int| record_at(before, k, swap.id@);
                    assert(record_at(before, i as int, swap.id@));
                    assert(k == i);
                }
            },
            None => {
                records.push(TradeRecord { context, swap });
                assert(record_at(records@, before.len() as int, swap.id@));
                assert forall|a: int, b: int| 0 <= a < b < records@.len() implies records@[a].swap.id@
                    != records@[b].swap.id@ by {
                    if b == before.len() {
                        assert(record_at(before, a, before[a].swap.id@));
                    }
                }
            },
        }
        *self = TradeStore { records };
    }

    /// Removes the record of the trade `id`; `TradeIoError` where the store
    /// does not hold the trade.
    pub fn delete_swap_trade(&mut self, id: &str) -> (r: Result<(), ErrorKind>)
        ensures
            final(self)@ == without_record(old(self)@, id@),
            holds(old(self)@, id@) ==> r is Ok && !holds(final(self)@, id@),
            !holds(old(self)@, id@) ==> is_trade_io_error(r, id@),
    {
        proof {
            use_type_invariant(&*self);
        }
        let ghost before = self.records@;
        match self.find(id) {
            Some(i) => {
                let _ = self.checkout(i);
                proof {
                    let k = choose|k: int| record_at(before, k, id@);
                    assert(record_at(before, i as int, id@));
                    assert(k == i);
                    assert forall|j: int| !record_at(self.records@, j, id@) by {
                        if 0 <= j < self.records@.len() {
                            if j < i {
                                assert(self.records@[j] == before[j]);
                            } else {
                                assert(self.records@[j] == before[j + 1]);
                            }
                        }
                    }
                }
                Ok(())
            },
            None => Err(
                ErrorKind::TradeIoError(id.to_owned(), "The trade record is not found".to_owned()),
            ),
        }
    }

    /// A description of the trade `id` for the operator; `TradeIoError`
    /// where the store does not hold the trade.
    pub fn dump_swap_trade(&self, id: &str) -> (r: Result<String, ErrorKind>)
        ensures
            holds(self@, id@) ==> r is Ok && exists|i: int|
                record_at(self@, i, id@) && r->Ok_0@ == dump_text(&self@[i]),
            !holds(self@, id@) ==> is_trade_io_error(r, id@),
    {
        match self.find(id) {
            Some(i) => {
                let record = &self.records[i];
                let role = match record.swap.role {
                    Role::Seller => "Seller",
                    Role::Buyer => "Buyer",
                };
                let head = join3("Swap ", record.swap.id.as_str(), "\nrole: ");
                let state = record.swap.state.to_string();
                let head = join3(head.as_str(), role, "\nstate: ");
                let primary = u64_to_string(record.swap.primary_amount);
                let head = join3(head.as_str(), state.as_str(), "\nprimary amount: ");
                let secondary = u64_to_string(record.swap.secondary_amount);
                let head = join3(head.as_str(), primary.as_str(), "\nsecondary amount: ");
                let ticker = record.swap.secondary_currency.ticker();
                let head = join3(head.as_str(), secondary.as_str(), " ");
                let text = join3(head.as_str(), ticker.as_str(), "\n");
                assert(text@ =~= dump_text(&self@[i as int]));
                Ok(text)
            },
            None => Err(
                ErrorKind::TradeIoError(id.to_owned(), "The trade record is not found".to_owned()),
            ),
        }
    }

    /// The record at `index`.
    pub(crate) fn record(&self, index: usize) -> (record: &TradeRecord)
        requires
            index < self@.len(),
        ensures
            *record == self@[index as int],
    {
        &self.records[index]
    }

    /// Takes the record at `index` out of the store.
    pub(crate) fn checkout(&mut self, index: usize) -> (record: TradeRecord)
        requires
            index < old(self)@.len(),
        ensures
            record == old(self)@[index as int],
            final(self)@ == old(self)@.remove(index as int),
            ids_distinct(old(self)@),
    {
        proof {
            use_type_invariant(&*self);
        }
        let ghost before = self.records@;
        let mut records = self.take_records();
        let record = records.remove(index);
        assert forall|i: int, j: int| 0 <= i < j < records@.len() implies records@[i].swap.id@
            != records@[j].swap.id@ by {
            let a = if i < index { i } else { i + 1 };
            let b = if j < index { j } else { j + 1 };
            assert(records@[i] == before[a]);
            assert(records@[j] == before[b]);
        }
        *self = TradeStore { records };
        record
    }

    /// Puts `record` into the store at `index`.
    pub(crate) fn checkin(&mut self, index: usize, record: TradeRecord)
        requires
            index <= old(self)@.len(),
            !holds(old(self)@, record.swap.id@),
        ensures
            final(self)@ == old(self)@.insert(index as int, record),
    {
        proof {
            use_type_invariant(&*self);
        }
        let ghost before = self.records@;
        let mut records = self.take_records();
        records.insert(index, record);
        assert forall|i: int, j: int| 0 <= i < j < records@.len() implies records@[i].swap.id@
            != records@[j].swap.id@ by {
            if i == index {
                assert(records@[j] == before[j - 1]);
                assert(record_at(before, j - 1, before[j - 1].swap.id@));
            } else if j == index {
                assert(records@[i] == before[i]);
                assert(record_at(before, i, before[i].swap.id@));
            } else {
                let a = if i < index { i } else { i - 1 };
                let b = if j < index { j } else { j - 1 };
                assert(records@[i] == before[a]);
                assert(records@[j] == before[b]);
            }
        }
        *self = TradeStore { records };
    }
}

} // verus!
