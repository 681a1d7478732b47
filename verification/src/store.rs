//! The store held in memory: the configuration table and the event log, with
//! the behaviour that the pipeline relies on in a durable store.

use crate::conf::ConfKey;
use crate::db::messages::{row_views, Message, MessageView};
use crate::update::{clone_opt_text, opt_text};
use vstd::prelude::*;

verus! {

/// One row of the configuration table.
#[derive(Debug)]
pub struct ConfRow {
    pub key: ConfKey,
    pub value: Option<String>,
}

/// A `ConfRow` as plain values.
pub struct ConfRowView {
    pub key: ConfKey,
    pub value: Option<Seq<char>>,
}

impl View for ConfRow {
    type V = ConfRowView;

    open spec fn view(&self) -> ConfRowView {
        ConfRowView { key: self.key, value: opt_text(self.value) }
    }
}

/// Whether the table has a row for `key`.
pub open spec fn has_key(rows: Seq<ConfRowView>, key: ConfKey) -> bool {
    exists|i: int| 0 <= i < rows.len() && (#[trigger] rows[i]).key == key
}

/// Whether no two rows of the table have the same key.
pub open spec fn distinct_keys(rows: Seq<ConfRowView>) -> bool {
    forall|i: int, j: int|
        0 <= i < j < rows.len() ==> (#[trigger] rows[i]).key != (#[trigger] rows[j]).key
}

/// What the table holds for `key`: the value of the key's first row, and
/// nothing where it has no row.
pub open spec fn stored_value(rows: Seq<ConfRowView>, key: ConfKey) -> Option<Seq<char>>
    decreases rows.len(),
{
    if rows.len() == 0 {
        None
    } else if rows[0].key == key {
        rows[0].value
    } else {
        stored_value(rows.subrange(1, rows.len() as int), key)
    }
}

/// The table with an empty row for `key`, unless it has a row for it.
pub open spec fn seeded(rows: Seq<ConfRowView>, key: ConfKey) -> Seq<ConfRowView> {
    if has_key(rows, key) {
        rows
    } else {
        rows.push(ConfRowView { key, value: None })
    }
}

/// The table after start-up: with a row for each key.
pub open spec fn migrated(rows: Seq<ConfRowView>) -> Seq<ConfRowView> {
    seeded(seeded(seeded(rows, ConfKey::Offset), ConfKey::ChatId), ConfKey::GptPrompt)
}

/// The table after `value` was written under `key`: in every row of that key,
/// or in a new row where there was none.
pub open spec fn written(rows: Seq<ConfRowView>, key: ConfKey, value: Option<Seq<char>>) -> Seq<
    ConfRowView,
> {
    if has_key(rows, key) {
        Seq::new(
            rows.len(),
            |i: int|
                if rows[i].key == key {
                    ConfRowView { key, value }
                } else {
                    rows[i]
                },
        )
    } else {
        rows.push(ConfRowView { key, value })
    }
}

/// The configuration table, held in memory.
pub struct ConfStore {
    rows: Vec<ConfRow>,
}

impl View for ConfStore {
    type V = Seq<ConfRowView>;

    closed spec fn view(&self) -> Seq<ConfRowView> {
        self.rows@.map_values(|r: ConfRow| r@)
    }
}

impl ConfStore {
    /// No key has two rows.
    pub open spec fn wf(&self) -> bool {
        distinct_keys(self@)
    }

    /// A table without rows.
    pub fn new() -> (store: Self)
        ensures
            store.wf(),
            store@ == Seq::<ConfRowView>::empty(),
    {
        let store = ConfStore { rows: Vec::new() };
        assert(store@ =~= Seq::<ConfRowView>::empty());
        store
    }

    /// How many rows the table has.
    pub fn len(&self) -> (n: usize)
        ensures
            n == self@.len(),
    {
        self.rows.len()
    }

    /// The place of the first row of `key`.
    fn find(&self, key: ConfKey) -> (place: Option<usize>)
        ensures
            match place {
                Some(i) => i < self@.len() && self@[i as int].key == key && forall|j: int|
                    0 <= j < i ==> (#[trigger] self@[j]).key != key,
                None => !has_key(self@, key),
            },
    {
        let mut i: usize = 0;
        while i < self.rows.len()
            invariant
                i <= self.rows.len(),
                forall|j: int| 0 <= j < i ==> (#[trigger] self@[j]).key != key,
            decreases self.rows.len() - i,
        {
            if self.rows[i].key == key {
                return Some(i);
            }
            i += 1;
        }
        None
    }

    /// Makes sure that each key has a row. Rows that exist stay as they are.
    pub fn migrate(&mut self)
        requires
            old(self).wf(),
        ensures
            final(self).wf(),
            final(self)@ == migrated(old(self)@),
    {
        self.seed(ConfKey::Offset);
        self.seed(ConfKey::ChatId);
        self.seed(ConfKey::GptPrompt);
    }

    /// Adds an empty row for `key`, unless the key has a row.
    fn seed(&mut self, key: ConfKey)
        requires
            old(self).wf(),
        ensures
            final(self).wf(),
            final(self)@ == seeded(old(self)@, key),
    {
        match self.find(key) {
            Some(_) => {},
            None => {
                let ghost before = self@;
                self.rows.push(ConfRow { key, value: None });
                assert(self@ =~= before.push(ConfRowView { key, value: None }));
            },
        }
    }

    /// What the table holds for `key`; nothing where the key has no row or an
    /// empty one.
    pub fn read(&self, key: ConfKey) -> (value: Option<String>)
        ensures
            opt_text(value) == stored_value(self@, key),
    {
        match self.find(key) {
            Some(i) => {
                proof {
                    lemma_stored_value_at(self@, key, i as int);
                }
                clone_opt_text(&self.rows[i].value)
            },
            None => {
                proof {
                    lemma_stored_value_absent(self@, key);
                }
                None
            },
        }
    }

    /// Stores `value` under `key`, in place of what was stored.
    pub fn write(&mut self, key: ConfKey, value: Option<String>)
        requires
            old(self).wf(),
        ensures
            final(self).wf(),
            final(self)@ == written(old(self)@, key, opt_text(value)),
            stored_value(final(self)@, key) == opt_text(value),
            forall|other: ConfKey|
                other != key ==> stored_value(final(self)@, other) == stored_value(
                    old(self)@,
                    other,
                ),
    {
        let ghost before = self@;
        let ghost text = opt_text(value);
        match self.find(key) {
            Some(i) => {
                self.rows[i] = ConfRow { key, value };
                assert(self@ =~= written(before, key, text)) by {
                    assert(has_key(before, key));
                    assert forall|j: int| 0 <= j < before.len() implies (#[trigger] self@[j])
                        == written(before, key, text)[j] by {
                        if j != i {
                            assert(self.rows@[j] == old(self).rows@[j]);
                            if j < i {
                            } else {
                                assert(before[i as int].key != before[j].key);
                            }
                        }
                    }
                }
            },
            None => {
                self.rows.push(ConfRow { key, value });
                assert(self@ =~= before.push(ConfRowView { key, value: text }));
            },
        }
        proof {
            lemma_written(before, key, text);
        }
    }
}

/// The value of a key is that of its first row.
pub proof fn lemma_stored_value_at(rows: Seq<ConfRowView>, key: ConfKey, i: int)
    requires
        0 <= i < rows.len(),
        rows[i].key == key,
        forall|j: int| 0 <= j < i ==> (#[trigger] rows[j]).key != key,
    ensures
        stored_value(rows, key) == rows[i].value,
    decreases rows.len(),
{
    if i > 0 {
        let rest = rows.subrange(1, rows.len() as int);
        assert(rows[0].key != key);
        assert forall|j: int| 0 <= j < i - 1 implies (#[trigger] rest[j]).key != key by {
            assert(rest[j] == rows[j + 1]);
        }
        lemma_stored_value_at(rest, key, i - 1);
    }
}

/// A key without a row has no value.
pub proof fn lemma_stored_value_absent(rows: Seq<ConfRowView>, key: ConfKey)
    requires
        !has_key(rows, key),
    ensures
        stored_value(rows, key) is None,
    decreases rows.len(),
{
    if rows.len() > 0 {
        let rest = rows.subrange(1, rows.len() as int);
        assert(rows[0].key != key);
        assert(!has_key(rest, key)) by {
            if has_key(rest, key) {
                let w = choose|i: int| 0 <= i < rest.len() && (#[trigger] rest[i]).key == key;
                assert(rows[w + 1].key == key);
            }
        }
        lemma_stored_value_absent(rest, key);
    }
}

/// In a table with distinct keys, a key holds the value of its row.
pub proof fn lemma_stored_value_of_row(rows: Seq<ConfRowView>, i: int)
    requires
        distinct_keys(rows),
        0 <= i < rows.len(),
    ensures
        stored_value(rows, rows[i].key) == rows[i].value,
{
    assert forall|j: int| 0 <= j < i implies (#[trigger] rows[j]).key != rows[i].key by {}
    lemma_stored_value_at(rows, rows[i].key, i);
}

/// A write keeps the keys distinct, is what the key then holds, and leaves
/// what every other key holds.
pub proof fn lemma_written(rows: Seq<ConfRowView>, key: ConfKey, value: Option<Seq<char>>)
    requires
        distinct_keys(rows),
    ensures
        distinct_keys(written(rows, key, value)),
        stored_value(written(rows, key, value), key) == value,
        forall|other: ConfKey|
            other != key ==> stored_value(written(rows, key, value), other) == stored_value(
                rows,
                other,
            ),
{
    let after = written(rows, key, value);
    assert(distinct_keys(after)) by {
        assert forall|i: int, j: int| 0 <= i < j < after.len() implies (#[trigger] after[i]).key != (
        #[trigger] after[j]).key by {
            if j < rows.len() {
                assert(after[i].key == rows[i].key);
                assert(after[j].key == rows[j].key);
            } else {
                assert(after[i] == rows[i]);
            }
        }
    }
    if has_key(rows, key) {
        let w = choose|i: int| 0 <= i < rows.len() && (#[trigger] rows[i]).key == key;
        assert(after[w] == ConfRowView { key, value });
        lemma_stored_value_of_row(after, w);
    } else {
        assert(after[rows.len() as int] == ConfRowView { key, value });
        lemma_stored_value_of_row(after, rows.len() as int);
    }
    assert forall|other: ConfKey| other != key implies stored_value(after, other) == stored_value(
        rows,
        other,
    ) by {
        if has_key(rows, other) {
            let w = choose|i: int| 0 <= i < rows.len() && (#[trigger] rows[i]).key == other;
            assert(after[w] == rows[w]);
            lemma_stored_value_of_row(rows, w);
            lemma_stored_value_of_row(after, w);
        } else {
            assert(!has_key(after, other)) by {
                if has_key(after, other) {
                    let w = choose|i: int| 0 <= i < after.len() && (#[trigger] after[i]).key == other;
                    if w < rows.len() {
                        assert(after[w].key == rows[w].key);
                    }
                }
            }
            lemma_stored_value_absent(rows, other);
            lemma_stored_value_absent(after, other);
        }
    }
}

/// Seeding a key gives it a row, keeps the rows of the others and the values
/// of all, and keeps the keys distinct.
pub proof fn lemma_seeded(rows: Seq<ConfRowView>, key: ConfKey)
    requires
        distinct_keys(rows),
    ensures
        distinct_keys(seeded(rows, key)),
        has_key(seeded(rows, key), key),
        forall|other: ConfKey| has_key(rows, other) ==> has_key(seeded(rows, key), other),
        forall|other: ConfKey|
            stored_value(seeded(rows, key), other) == stored_value(rows, other),
{
    let after = seeded(rows, key);
    if has_key(rows, key) {
    } else {
        assert(after[rows.len() as int].key == key);
        assert forall|i: int, j: int| 0 <= i < j < after.len() implies (#[trigger] after[i]).key != (
        #[trigger] after[j]).key by {
            assert(after[i] == rows[i]);
            if j < rows.len() {
                assert(after[j] == rows[j]);
            }
        }
        assert forall|other: ConfKey| has_key(rows, other) implies has_key(after, other) by {
            let w = choose|i: int| 0 <= i < rows.len() && (#[trigger] rows[i]).key == other;
            assert(after[w].key == other);
        }
        assert forall|other: ConfKey| stored_value(after, other) == stored_value(rows, other) by {
            if has_key(rows, other) {
                let w = choose|i: int| 0 <= i < rows.len() && (#[trigger] rows[i]).key == other;
                assert(after[w] == rows[w]);
                lemma_stored_value_of_row(rows, w);
                lemma_stored_value_of_row(after, w);
            } else {
                lemma_stored_value_absent(rows, other);
                if other == key {
                    lemma_stored_value_of_row(after, rows.len() as int);
                } else {
                    assert(!has_key(after, other)) by {
                        if has_key(after, other) {
                            let w = choose|i: int|
                                0 <= i < after.len() && (#[trigger] after[i]).key == other;
                            if w < rows.len() {
                                assert(after[w] == rows[w]);
                            }
                        }
                    }
                    lemma_stored_value_absent(after, other);
                }
            }
        }
    }
}

/// Start-up may run any number of times: a second run changes nothing, no key
/// ever has two rows, and no run changes what a key holds.
pub proof fn lemma_migrate_idempotent(rows: Seq<ConfRowView>)
    requires
        distinct_keys(rows),
    ensures
        distinct_keys(migrated(rows)),
        migrated(migrated(rows)) == migrated(rows),
        forall|key: ConfKey| has_key(migrated(rows), key),
        forall|key: ConfKey| stored_value(migrated(rows), key) == stored_value(rows, key),
{
    let first = seeded(rows, ConfKey::Offset);
    let second = seeded(first, ConfKey::ChatId);
    let third = seeded(second, ConfKey::GptPrompt);
    lemma_seeded(rows, ConfKey::Offset);
    lemma_seeded(first, ConfKey::ChatId);
    lemma_seeded(second, ConfKey::GptPrompt);
    assert(has_key(third, ConfKey::Offset));
    assert(has_key(third, ConfKey::ChatId));
    assert(has_key(third, ConfKey::GptPrompt));
    assert forall|key: ConfKey| has_key(third, key) by {
        match key {
            ConfKey::Offset => {},
            ConfKey::ChatId => {},
            ConfKey::GptPrompt => {},
        }
    }
}

/// Whether the log has a row under the number `id`.
pub open spec fn has_id(rows: Seq<MessageView>, id: i32) -> bool {
    exists|i: int| 0 <= i < rows.len() && (#[trigger] rows[i]).update_id == id
}

/// Whether no two rows of the log have the same number.
pub open spec fn distinct_ids(rows: Seq<MessageView>) -> bool {
    forall|i: int, j: int|
        0 <= i < j < rows.len() ==> (#[trigger] rows[i]).update_id != (#[trigger] rows[j]).update_id
}

/// The log after `row` was appended: with the row at its end, unless the log
/// had a row under that number, which then stays.
pub open spec fn appended(rows: Seq<MessageView>, row: MessageView) -> Seq<MessageView> {
    if has_id(rows, row.update_id) {
        rows
    } else {
        rows.push(row)
    }
}

/// The log after the rows of `batch` were appended one by one, in the batch's
/// order.
pub open spec fn appended_batch(rows: Seq<MessageView>, batch: Seq<MessageView>) -> Seq<
    MessageView,
>
    decreases batch.len(),
{
    if batch.len() == 0 {
        rows
    } else {
        appended(appended_batch(rows, batch.drop_last()), batch.last())
    }
}

/// The event log, held in memory: rows are only ever added, and at most one
/// under each number.
pub struct EventLog {
    rows: Vec<Message>,
}

impl View for EventLog {
    type V = Seq<MessageView>;

    closed spec fn view(&self) -> Seq<MessageView> {
        row_views(self.rows@)
    }
}

impl EventLog {
    /// No number has two rows.
    pub open spec fn wf(&self) -> bool {
        distinct_ids(self@)
    }

    /// A log without rows.
    pub fn new() -> (log: Self)
        ensures
            log.wf(),
            log@ == Seq::<MessageView>::empty(),
    {
        let log = EventLog { rows: Vec::new() };
        assert(log@ =~= Seq::<MessageView>::empty());
        log
    }

    /// How many rows the log has.
    pub fn len(&self) -> (n: usize)
        ensures
            n == self@.len(),
    {
        self.rows.len()
    }

    /// Whether the log has a row under the number `id`.
    pub fn contains(&self, id: i32) -> (found: bool)
        ensures
            found == has_id(self@, id),
    {
        let mut i: usize = 0;
        while i < self.rows.len()
            invariant
                i <= self.rows.len(),
                forall|j: int| 0 <= j < i ==> (#[trigger] self@[j]).update_id != id,
            decreases self.rows.len() - i,
        {
            if self.rows[i].update_id == id {
                assert(self@[i as int].update_id == id);
                return true;
            }
            i += 1;
        }
        false
    }

    /// The row at place `i`, in the order in which the rows were added.
    pub fn get(&self, i: usize) -> (row: &Message)
        requires
            i < self@.len(),
        ensures
            row@ == self@[i as int],
    {
        &self.rows[i]
    }

    /// Appends `row`, unless the log has a row under its number. Tells
    /// whether the row was added.
    pub fn append(&mut self, row: Message) -> (added: bool)
        requires
            old(self).wf(),
        ensures
            final(self).wf(),
            final(self)@ == appended(old(self)@, row@),
            added == !has_id(old(self)@, row.update_id),
    {
        if self.contains(row.update_id) {
            false
        } else {
            let ghost before = self@;
            let ghost view = row@;
            self.rows.push(row);
            assert(self@ =~= before.push(view));
            proof {
                lemma_appended(before, view);
            }
            true
        }
    }

    /// Appends the rows of `batch` one by one, in the batch's order.
    pub fn append_batch(&mut self, batch: Vec<Message>)
        requires
            old(self).wf(),
        ensures
            final(self).wf(),
            final(self)@ == appended_batch(old(self)@, row_views(batch@)),
    {
        let ghost before = self@;
        let ghost incoming = row_views(batch@);
        assert(incoming.take(0) =~= Seq::<MessageView>::empty());
        for row in it: batch
            invariant
                it.seq() == batch@,
                incoming == row_views(batch@),
                self.wf(),
                self@ == appended_batch(before, incoming.take(it.index() as int)),
        {
            let ghost k = it.index() as int;
            assert(incoming.take(k + 1).drop_last() =~= incoming.take(k));
            assert(incoming.take(k + 1).last() == row@);
            self.append(row);
        }
        assert(incoming.take(incoming.len() as int) =~= incoming);
    }
}

/// Appending keeps the numbers distinct, keeps every row, and leaves the log
/// with a row under the new row's number.
pub proof fn lemma_appended(rows: Seq<MessageView>, row: MessageView)
    requires
        distinct_ids(rows),
    ensures
        distinct_ids(appended(rows, row)),
        has_id(appended(rows, row), row.update_id),
        forall|id: i32| has_id(rows, id) ==> has_id(appended(rows, row), id),
        rows.len() <= appended(rows, row).len(),
        forall|i: int| 0 <= i < rows.len() ==> appended(rows, row)[i] == rows[i],
{
    let after = appended(rows, row);
    if !has_id(rows, row.update_id) {
        assert(after[rows.len() as int].update_id == row.update_id);
        assert forall|i: int, j: int| 0 <= i < j < after.len() implies (
        #[trigger] after[i]).update_id != (#[trigger] after[j]).update_id by {
            assert(after[i] == rows[i]);
            if j < rows.len() {
                assert(after[j] == rows[j]);
            }
        }
        assert forall|id: i32| has_id(rows, id) implies has_id(after, id) by {
            let w = choose|i: int| 0 <= i < rows.len() && (#[trigger] rows[i]).update_id == id;
            assert(after[w].update_id == id);
        }
    }
}

/// Appending a batch keeps the numbers distinct and every earlier row in its
/// place, and leaves the log with a row under the number of each row of the
/// batch.
pub proof fn lemma_appended_batch(rows: Seq<MessageView>, batch: Seq<MessageView>)
    requires
        distinct_ids(rows),
    ensures
        distinct_ids(appended_batch(rows, batch)),
        rows.len() <= appended_batch(rows, batch).len(),
        forall|i: int| 0 <= i < rows.len() ==> appended_batch(rows, batch)[i] == rows[i],
        forall|id: i32| has_id(rows, id) ==> has_id(appended_batch(rows, batch), id),
        forall|k: int|
            0 <= k < batch.len() ==> has_id(
                appended_batch(rows, batch),
                (#[trigger] batch[k]).update_id,
            ),
    decreases batch.len(),
{
    if batch.len() > 0 {
        let earlier = appended_batch(rows, batch.drop_last());
        lemma_appended_batch(rows, batch.drop_last());
        lemma_appended(earlier, batch.last());
        let after = appended_batch(rows, batch);
        assert forall|k: int| 0 <= k < batch.len() implies has_id(
            after,
            (#[trigger] batch[k]).update_id,
        ) by {
            if k < batch.len() - 1 {
                assert(batch.drop_last()[k] == batch[k]);
            }
        }
    }
}

/// A batch whose numbers are all in the log adds nothing to it.
pub proof fn lemma_known_batch_adds_nothing(rows: Seq<MessageView>, batch: Seq<MessageView>)
    requires
        forall|k: int| 0 <= k < batch.len() ==> has_id(rows, (#[trigger] batch[k]).update_id),
    ensures
        appended_batch(rows, batch) == rows,
    decreases batch.len(),
{
    if batch.len() > 0 {
        assert forall|k: int| 0 <= k < batch.drop_last().len() implies has_id(
            rows,
            (#[trigger] batch.drop_last()[k]).update_id,
        ) by {
            assert(batch.drop_last()[k] == batch[k]);
        }
        lemma_known_batch_adds_nothing(rows, batch.drop_last());
        assert(has_id(rows, batch[batch.len() - 1].update_id));
    }
}

/// A batch that is delivered a second time adds no row: the log is then what
/// it was after the first delivery.
pub proof fn lemma_redelivery_adds_nothing(rows: Seq<MessageView>, batch: Seq<MessageView>)
    requires
        distinct_ids(rows),
    ensures
        appended_batch(appended_batch(rows, batch), batch) == appended_batch(rows, batch),
        distinct_ids(appended_batch(rows, batch)),
{
    lemma_appended_batch(rows, batch);
    lemma_known_batch_adds_nothing(appended_batch(rows, batch), batch);
}

} // verus!
