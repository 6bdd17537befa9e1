//! The table of plays, and what storage owes the rest of the service: a play
//! is stored once, however often it is brought, and plays are listed from the
//! most recent one on.
//!
//! `ListenStore` keeps the table in memory. A durable table stands in its
//! place where the service runs, and has to behave as this one does.

use crate::model::{opt_text, record_views, SongRecord, SongRecordView};
use crate::timestamp::{rank_of, stamp_rank};
use vstd::prelude::*;

verus! {

/// The rows of the table, the most recent play first.
pub type Table = Seq<SongRecordView>;

/// What identifies a play: when it was played, and the track's id.
pub open spec fn play_key(row: SongRecordView) -> (Option<Seq<char>>, Option<Seq<char>>) {
    (row.date, row.id)
}

/// The rank of a row's moment: larger for a later play, zero where the
/// moment is missing or cannot be read.
pub open spec fn row_rank(row: SongRecordView) -> int {
    stamp_rank(row.date)
}

/// Whether the table has a row with this key.
pub open spec fn holds(table: Table, key: (Option<Seq<char>>, Option<Seq<char>>)) -> bool {
    exists|i: int| 0 <= i < table.len() && play_key(#[trigger] table[i]) == key
}

/// Whether the rows run from the most recent play to the least recent.
pub open spec fn ordered(table: Table) -> bool {
    forall|i: int, j: int|
        0 <= i < j < table.len() ==> row_rank(#[trigger] table[i]) >= row_rank(
            #[trigger] table[j],
        )
}

/// Whether no two rows have the same key.
pub open spec fn distinct(table: Table) -> bool {
    forall|i: int, j: int|
        0 <= i < j < table.len() ==> play_key(#[trigger] table[i]) != play_key(
            #[trigger] table[j],
        )
}

/// Where a new row of this rank goes: before the first row of a lower rank,
/// and so after every row that is as recent or more recent.
pub open spec fn slot_for(table: Table, rank: int) -> int
    decreases table.len(),
{
    if table.len() == 0 {
        0
    } else if row_rank(table[0]) < rank {
        0
    } else {
        1 + slot_for(table.drop_first(), rank)
    }
}

/// The table after one row has been brought: unchanged where a row with the
/// same key is there already, else with the new row in its place.
pub open spec fn upserted(table: Table, row: SongRecordView) -> Table {
    if holds(table, play_key(row)) {
        table
    } else {
        table.insert(slot_for(table, row_rank(row)), row)
    }
}

/// The table after a batch of rows has been brought, one after another.
pub open spec fn upserted_all(table: Table, batch: Seq<SongRecordView>) -> Table
    decreases batch.len(),
{
    if batch.len() == 0 {
        table
    } else {
        upserted(upserted_all(table, batch.drop_last()), batch.last())
    }
}

/// The rows that a reader gets: all of them, or the first `limit` of them.
pub open spec fn listed(table: Table, limit: Option<u32>) -> Table {
    match limit {
        Some(k) => if k < table.len() {
            table.take(k as int)
        } else {
            table
        },
        None => table,
    }
}

impl Clone for SongRecord {
    fn clone(&self) -> (copy: Self)
        ensures
            copy@ == self@,
    {
        SongRecord {
            name: clone_column(&self.name),
            album: clone_column(&self.album),
            artist: clone_column(&self.artist),
            date: clone_column(&self.date),
            id: clone_column(&self.id),
        }
    }
}

fn clone_column(column: &Option<String>) -> (copy: Option<String>)
    ensures
        opt_text(copy) == opt_text(*column),
{
    match column {
        Some(text) => Some(text.clone()),
        None => None,
    }
}

fn same_column(a: &Option<String>, b: &Option<String>) -> (same: bool)
    ensures
        same == (opt_text(*a) == opt_text(*b)),
{
    match (a, b) {
        (Some(x), Some(y)) => *x == *y,
        (None, None) => true,
        _ => false,
    }
}

/// The table of plays, kept in memory: its rows are in order and its keys
/// are apart at all times.
pub struct ListenStore {
    rows: Vec<SongRecord>,
}

impl View for ListenStore {
    type V = Table;

    closed spec fn view(&self) -> Table {
        record_views(self.rows@)
    }
}

impl ListenStore {
    #[verifier::type_invariant]
    spec fn in_order_and_apart(self) -> bool {
        ordered(record_views(self.rows@)) && distinct(record_views(self.rows@))
    }

    /// An empty table.
    pub fn new() -> (store: ListenStore)
        ensures
            store@.len() == 0,
    {
        ListenStore { rows: Vec::new() }
    }

    /// The number of plays in the table.
    pub fn len(&self) -> (count: usize)
        ensures
            count == self@.len(),
            ordered(self@),
            distinct(self@),
    {
        proof {
            use_type_invariant(self);
        }
        self.rows.len()
    }

    /// Whether the table has a row with the key of `record`.
    pub fn contains(&self, record: &SongRecord) -> (found: bool)
        ensures
            found == holds(self@, play_key(record@)),
    {
        let ghost table = record_views(self.rows@);
        let mut i: usize = 0;
        while i < self.rows.len()
            invariant
                i <= self.rows.len(),
                table == record_views(self.rows@),
                forall|j: int| 0 <= j < i ==> play_key(#[trigger] table[j]) != play_key(record@),
            decreases self.rows.len() - i,
        {
            let row = &self.rows[i];
            if same_column(&row.date, &record.date) && same_column(&row.id, &record.id) {
                assert(play_key(table[i as int]) == play_key(record@));
                return true;
            }
            i += 1;
        }
        false
    }

    /// Brings one play: it is put in its place, unless a play with the same
    /// moment and track is there already, in which case nothing changes.
    pub fn upsert(&mut self, record: SongRecord)
        ensures
            final(self)@ == upserted(old(self)@, record@),
            ordered(final(self)@),
            distinct(final(self)@),
    {
        proof {
            use_type_invariant(&*self);
        }
        if self.contains(&record) {
            return ;
        }
        let ghost table = record_views(self.rows@);
        let rank = rank_of(&record.date);
        let mut i: usize = 0;
        proof {
            assert(table.skip(0) == table);
        }
        while i < self.rows.len() && rank_of(&self.rows[i].date) >= rank
            invariant
                i <= self.rows.len(),
                table == record_views(self.rows@),
                rank as int == row_rank(record@),
                slot_for(table, rank as int) == i + slot_for(table.skip(i as int), rank as int),
            decreases self.rows.len() - i,
        {
            proof {
                let rest = table.skip(i as int);
                assert(rest[0] == table[i as int]);
                assert(rest.drop_first() == table.skip(i + 1));
            }
            i += 1;
        }
        proof {
            let rest = table.skip(i as int);
            if i < self.rows.len() {
                assert(rest[0] == table[i as int]);
            }
            assert(slot_for(table, rank as int) == i);
            upsert_keeps_the_table(table, record@);
            assert(record_views(self.rows@.insert(i as int, record)) == table.insert(
                i as int,
                record@,
            ));
        }
        let mut taken = ListenStore::new();
        core::mem::swap(self, &mut taken);
        let mut rows = taken.rows;
        rows.insert(i, record);
        *self = ListenStore { rows };
    }

    /// Brings a batch of plays, one after another.
    pub fn upsert_batch(&mut self, records: Vec<SongRecord>)
        ensures
            final(self)@ == upserted_all(old(self)@, record_views(records@)),
            ordered(final(self)@),
            distinct(final(self)@),
    {
        proof {
            use_type_invariant(&*self);
        }
        let ghost batch = record_views(records@);
        let ghost start = self@;
        for record in it: records
            invariant
                it.seq() == records@,
                batch == record_views(records@),
                self@ == upserted_all(start, batch.take(it.index() as int)),
                ordered(self@),
                distinct(self@),
        {
            proof {
                let next = batch.take(it.index() + 1);
                assert(next.drop_last() == batch.take(it.index() as int));
                assert(next.last() == record@);
            }
            self.upsert(record);
        }
        proof {
            assert(batch.take(batch.len() as int) == batch);
        }
    }

    /// Copies of the plays from the most recent one on: all of them, or the
    /// first `limit`.
    pub fn read(&self, limit: Option<u32>) -> (rows: Vec<SongRecord>)
        ensures
            record_views(rows@) == listed(self@, limit),
            ordered(self@),
            distinct(self@),
    {
        proof {
            use_type_invariant(self);
        }
        let count = match limit {
            Some(k) => if (k as usize) < self.rows.len() {
                k as usize
            } else {
                self.rows.len()
            },
            None => self.rows.len(),
        };
        let ghost table = record_views(self.rows@);
        let mut rows: Vec<SongRecord> = Vec::new();
        let mut i: usize = 0;
        while i < count
            invariant
                i <= count <= self.rows.len(),
                table == record_views(self.rows@),
                record_views(rows@) == table.take(i as int),
            decreases count - i,
        {
            let ghost before = record_views(rows@);
            let row = self.rows[i].clone();
            rows.push(row);
            proof {
                assert(table[i as int] == self.rows@[i as int]@);
                assert(record_views(rows@) =~= before.push(row@));
                assert(table.take(i + 1) =~= table.take(i as int).push(table[i as int]));
            }
            i += 1;
        }
        proof {
            assert(table.take(table.len() as int) == table);
        }
        rows
    }
}

/// The slot splits an ordered table: every row before it is at least as
/// recent as the new row, and every row from it on is less recent.
pub proof fn slot_splits_the_table(table: Table, rank: int)
    requires
        ordered(table),
    ensures
        0 <= slot_for(table, rank) <= table.len(),
        forall|i: int| 0 <= i < slot_for(table, rank) ==> row_rank(#[trigger] table[i]) >= rank,
        forall|i: int|
            slot_for(table, rank) <= i < table.len() ==> row_rank(#[trigger] table[i]) < rank,
    decreases table.len(),
{
    if table.len() > 0 {
        if row_rank(table[0]) < rank {
            assert forall|i: int| 0 <= i < table.len() implies row_rank(#[trigger] table[i])
                < rank by {
                if i > 0 {
                    assert(row_rank(table[0]) >= row_rank(table[i]));
                }
            }
        } else {
            let rest = table.drop_first();
            assert forall|i: int, j: int| 0 <= i < j < rest.len() implies row_rank(
                #[trigger] rest[i],
            ) >= row_rank(#[trigger] rest[j]) by {
                assert(rest[i] == table[i + 1]);
                assert(rest[j] == table[j + 1]);
            }
            slot_splits_the_table(rest, rank);
            let slot = slot_for(table, rank);
            assert forall|i: int| 0 <= i < slot implies row_rank(#[trigger] table[i]) >= rank by {
                if i > 0 {
                    assert(table[i] == rest[i - 1]);
                }
            }
            assert forall|i: int| slot <= i < table.len() implies row_rank(#[trigger] table[i])
                < rank by {
                assert(table[i] == rest[i - 1]);
            }
        }
    }
}

/// Bringing a row keeps the table in order and its keys apart, and the row's
/// key is in the table afterwards.
pub proof fn upsert_keeps_the_table(table: Table, row: SongRecordView)
    requires
        ordered(table),
        distinct(table),
    ensures
        ordered(upserted(table, row)),
        distinct(upserted(table, row)),
        holds(upserted(table, row), play_key(row)),
{
    let after = upserted(table, row);
    if holds(table, play_key(row)) {
    } else {
        let slot = slot_for(table, row_rank(row));
        slot_splits_the_table(table, row_rank(row));
        table.insert_ensures(slot, row);
        assert forall|i: int, j: int| 0 <= i < j < after.len() implies row_rank(
            #[trigger] after[i],
        ) >= row_rank(#[trigger] after[j]) by {
            let a = if i < slot {
                i
            } else {
                i - 1
            };
            let b = if j < slot {
                j
            } else {
                j - 1
            };
            if i != slot {
                assert(after[i] == table[a]);
            }
            if j != slot {
                assert(after[j] == table[b]);
            }
            if i != slot && j != slot {
                assert(a < b);
            }
        }
        assert forall|i: int, j: int| 0 <= i < j < after.len() implies play_key(
            #[trigger] after[i],
        ) != play_key(#[trigger] after[j]) by {
            let a = if i < slot {
                i
            } else {
                i - 1
            };
            let b = if j < slot {
                j
            } else {
                j - 1
            };
            if i != slot {
                assert(after[i] == table[a]);
            }
            if j != slot {
                assert(after[j] == table[b]);
            }
            if i != slot && j != slot {
                assert(a < b);
            }
        }
        assert(play_key(after[slot]) == play_key(row));
    }
}

/// A key that the table holds is still held after a row has been brought.
pub proof fn upsert_keeps_every_key(
    table: Table,
    row: SongRecordView,
    key: (Option<Seq<char>>, Option<Seq<char>>),
)
    requires
        ordered(table),
        holds(table, key),
    ensures
        holds(upserted(table, row), key),
{
    if !holds(table, play_key(row)) {
        let slot = slot_for(table, row_rank(row));
        slot_splits_the_table(table, row_rank(row));
        table.insert_ensures(slot, row);
        let i = choose|i: int| 0 <= i < table.len() && play_key(#[trigger] table[i]) == key;
        let after = upserted(table, row);
        if i < slot {
            assert(after[i] == table[i]);
        } else {
            assert(after[i + 1] == table[i]);
        }
    }
}

/// Bringing a batch keeps the table in order and its keys apart.
pub proof fn batch_keeps_the_table(table: Table, batch: Seq<SongRecordView>)
    requires
        ordered(table),
        distinct(table),
    ensures
        ordered(upserted_all(table, batch)),
        distinct(upserted_all(table, batch)),
    decreases batch.len(),
{
    if batch.len() > 0 {
        batch_keeps_the_table(table, batch.drop_last());
        upsert_keeps_the_table(upserted_all(table, batch.drop_last()), batch.last());
    }
}

/// After a batch has been brought, the table holds the key of each of its rows.
pub proof fn batch_is_stored(table: Table, batch: Seq<SongRecordView>, k: int)
    requires
        ordered(table),
        distinct(table),
        0 <= k < batch.len(),
    ensures
        holds(upserted_all(table, batch), play_key(batch[k])),
    decreases batch.len(),
{
    let before = upserted_all(table, batch.drop_last());
    batch_keeps_the_table(table, batch.drop_last());
    if k == batch.len() - 1 {
        upsert_keeps_the_table(before, batch.last());
    } else {
        batch_is_stored(table, batch.drop_last(), k);
        assert(batch.drop_last()[k] == batch[k]);
        upsert_keeps_every_key(before, batch.last(), play_key(batch[k]));
    }
}

/// Idempotence: a play is stored once. After a batch has been brought, and
/// again after any further batch, whether it repeats rows of the first or
/// not, each key of the first batch belongs to exactly one row of the table.
pub proof fn each_play_is_stored_once(
    table: Table,
    batch: Seq<SongRecordView>,
    later: Seq<SongRecordView>,
    k: int,
)
    requires
        ordered(table),
        distinct(table),
        0 <= k < batch.len(),
    ensures
        ({
            let after = upserted_all(upserted_all(table, batch), later);
            exists|i: int|
                0 <= i < after.len() && play_key(#[trigger] after[i]) == play_key(batch[k])
                    && forall|j: int|
                    0 <= j < after.len() && play_key(#[trigger] after[j]) == play_key(batch[k])
                        ==> j == i
        }),
{
    let first = upserted_all(table, batch);
    let after = upserted_all(first, later);
    batch_keeps_the_table(table, batch);
    batch_is_stored(table, batch, k);
    batch_keeps_the_table(first, later);
    later_batches_keep_every_key(first, later, play_key(batch[k]));
    let i = choose|i: int| 0 <= i < after.len() && play_key(#[trigger] after[i]) == play_key(batch[k]);
    assert forall|j: int|
        0 <= j < after.len() && play_key(#[trigger] after[j]) == play_key(batch[k]) implies j
        == i by {
        if j < i {
            assert(play_key(after[j]) != play_key(after[i]));
        } else if i < j {
            assert(play_key(after[i]) != play_key(after[j]));
        }
    }
}

/// A key that the table holds is still held after a batch has been brought.
pub proof fn later_batches_keep_every_key(
    table: Table,
    batch: Seq<SongRecordView>,
    key: (Option<Seq<char>>, Option<Seq<char>>),
)
    requires
        ordered(table),
        distinct(table),
        holds(table, key),
    ensures
        holds(upserted_all(table, batch), key),
    decreases batch.len(),
{
    if batch.len() > 0 {
        later_batches_keep_every_key(table, batch.drop_last(), key);
        batch_keeps_the_table(table, batch.drop_last());
        upsert_keeps_every_key(upserted_all(table, batch.drop_last()), batch.last(), key);
    }
}

/// Bringing a row that is stored changes nothing: the row that is there stays
/// as it is, and is not overwritten.
pub proof fn a_stored_play_is_ignored(table: Table, row: SongRecordView)
    requires
        holds(table, play_key(row)),
    ensures
        upserted(table, row) == table,
{
}

/// A limited listing is the beginning of the full one: at most `limit` rows,
/// in the same order, each at least as recent as every row that is left out.
pub proof fn a_limited_listing_is_the_most_recent(table: Table, limit: u32)
    requires
        ordered(table),
    ensures
        listed(table, None) == table,
        listed(table, Some(limit)).len() <= limit,
        listed(table, Some(limit)).len() == if limit < table.len() {
            limit as int
        } else {
            table.len() as int
        },
        listed(table, Some(limit)) == listed(table, None).take(
            listed(table, Some(limit)).len() as int,
        ),
        forall|i: int, j: int|
            0 <= i < listed(table, Some(limit)).len() <= j < table.len() ==> row_rank(
                #[trigger] listed(table, Some(limit))[i],
            ) >= row_rank(#[trigger] table[j]),
{
    let short = listed(table, Some(limit));
    assert(table.take(table.len() as int) == table);
    assert forall|i: int, j: int| 0 <= i < short.len() <= j < table.len() implies row_rank(
        #[trigger] short[i],
    ) >= row_rank(#[trigger] table[j]) by {
        assert(short[i] == table[i]);
    }
}

} // verus!
