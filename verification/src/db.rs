//! The store: the typed settings of the configuration table and the rows of
//! the event log, here held in memory.

pub mod messages;
pub mod permissions;

use crate::conf::{
    lemma_conf_round_trip, read_conf_value, read_value, read_view, write_conf_value,
    written_value, ConfError, ConfErrorView, ConfKey, ConfValue, ConfValueView, opt_value,
};
use crate::db::messages::MessageView;
use crate::decimal::{decimal_text, format_u64};
use crate::poll::{batch_rows, rows_of};
use crate::store::{
    appended_batch, distinct_ids, distinct_keys, lemma_written, migrated, stored_value, written,
    ConfRowView, ConfStore, EventLog,
};
use crate::update::{
    clone_opt_text, opt_text, update_views, Update, UpdateKind, UpdateKindView, UpdateView,
};
use vstd::prelude::*;

verus! {

/// The short record of an update: its number, the chat, the sender's number
/// as text, the text, and the update as received.
pub struct UpdateRecord {
    pub id: i32,
    pub chat_id: i64,
    pub from_id: Option<Seq<char>>,
    pub content: Option<Seq<char>>,
    pub raw: Option<Seq<char>>,
}

impl UpdateView {
    /// The short record of the update. Only a new message has a chat, a
    /// sender and a text here; any other update is recorded under the chat 0.
    /// What the update was received as is not recorded.
    pub open spec fn record(self) -> UpdateRecord {
        match self.kind {
            UpdateKindView::Message(m) => UpdateRecord {
                id: self.id,
                chat_id: m.chat_id,
                from_id: match m.from {
                    Some(user) => Some(decimal_text(user.id as nat)),
                    None => None,
                },
                content: m.text,
                raw: None,
            },
            _ => UpdateRecord { id: self.id, chat_id: 0, from_id: None, content: None, raw: None },
        }
    }
}

/// The short record of `update`.
pub fn parse_update(update: &Update) -> (record: (
    i32,
    i64,
    Option<String>,
    Option<String>,
    Option<String>,
))
    ensures
        update@.record() == (UpdateRecord {
            id: record.0,
            chat_id: record.1,
            from_id: opt_text(record.2),
            content: opt_text(record.3),
            raw: opt_text(record.4),
        }),
{
    match &update.kind {
        UpdateKind::Message(message) => {
            let from_id = match &message.from {
                Some(user) => Some(format_u64(user.id)),
                None => None,
            };
            (update.id, message.chat_id, from_id, clone_opt_text(&message.text), None)
        },
        _ => (update.id, 0, None, None, None),
    }
}

/// The store, held in memory.
pub struct Db {
    conf: ConfStore,
    log: EventLog,
}

/// A `Db` as plain values: the rows of its two tables.
pub struct DbView {
    pub conf: Seq<ConfRowView>,
    pub log: Seq<MessageView>,
}

impl View for Db {
    type V = DbView;

    closed spec fn view(&self) -> DbView {
        DbView { conf: self.conf@, log: self.log@ }
    }
}

impl DbView {
    /// No key has two rows in the configuration table, and no number has two
    /// rows in the event log.
    pub open spec fn wf(self) -> bool {
        distinct_keys(self.conf) && distinct_ids(self.log)
    }
}

impl Db {
    /// No key and no number has two rows.
    pub open spec fn wf(&self) -> bool {
        self@.wf()
    }

    /// A store with two empty tables.
    pub fn new() -> (db: Self)
        ensures
            db.wf(),
            db@.conf == Seq::<ConfRowView>::empty(),
            db@.log == Seq::<MessageView>::empty(),
    {
        Db { conf: ConfStore::new(), log: EventLog::new() }
    }

    /// Makes sure that each setting has a row. Nothing that is stored changes.
    pub fn migrate(&mut self)
        requires
            old(self).wf(),
        ensures
            final(self).wf(),
            final(self)@.conf == migrated(old(self)@.conf),
            final(self)@.log == old(self)@.log,
    {
        self.conf.migrate();
    }

    /// How many rows the configuration table has.
    pub fn conf_len(&self) -> (n: usize)
        ensures
            n == self@.conf.len(),
    {
        self.conf.len()
    }

    /// How many rows the event log has.
    pub fn log_len(&self) -> (n: usize)
        ensures
            n == self@.log.len(),
    {
        self.log.len()
    }

    /// The text that is stored under `key`, if any is.
    pub fn read_conf_value_raw(&self, key: ConfKey) -> (raw: Option<String>)
        ensures
            opt_text(raw) == stored_value(self@.conf, key),
    {
        self.conf.read(key)
    }

    /// The value of the setting `key`: nothing where nothing is stored, and an
    /// error where the stored text is no value of the key's type.
    pub fn read_conf_value(&self, key: ConfKey) -> (value: Result<Option<ConfValue>, ConfError>)
        ensures
            read_view(value) == read_value(key, stored_value(self@.conf, key)),
    {
        let raw = self.conf.read(key);
        read_conf_value(key, &raw)
    }

    /// Stores `value` as the setting `key`, in place of what was stored. A
    /// value of another type than the key's is refused, and nothing changes.
    pub fn write_conf_value(&mut self, key: ConfKey, value: Option<ConfValue>) -> (done: Result<
        (),
        ConfError,
    >)
        requires
            old(self).wf(),
        ensures
            final(self).wf(),
            final(self)@.log == old(self)@.log,
            match written_value(key, opt_value(value)) {
                Ok(raw) => done is Ok && final(self)@.conf == written(old(self)@.conf, key, raw),
                Err(e) => done matches Err(refused) && refused@ == e && final(self)@.conf == old(
                    self,
                )@.conf,
            },
    {
        match write_conf_value(key, &value) {
            Ok(raw) => {
                self.conf.write(key, raw);
                Ok(())
            },
            Err(e) => Err(e),
        }
    }

    /// Appends the rows that record `updates` to the event log, in the order
    /// of the batch. An update whose number the log holds adds nothing.
    pub fn save_updates(&mut self, updates: &Vec<Update>)
        requires
            old(self).wf(),
        ensures
            final(self).wf(),
            final(self)@.conf == old(self)@.conf,
            final(self)@.log == appended_batch(
                old(self)@.log,
                batch_rows(update_views(updates@)),
            ),
    {
        self.log.append_batch(rows_of(updates));
    }
}

/// A setting that was written is read back as it was written, and writing it
/// changes no other setting.
pub proof fn lemma_setting_reads_back(
    conf: Seq<ConfRowView>,
    key: ConfKey,
    value: Option<ConfValueView>,
)
    requires
        distinct_keys(conf),
        value matches Some(v) ==> v.fits(key),
    ensures
        written_value(key, value) matches Ok(raw) && read_value(
            key,
            stored_value(written(conf, key, raw), key),
        ) == Ok::<Option<ConfValueView>, ConfErrorView>(value) && forall|other: ConfKey|
            other != key ==> stored_value(written(conf, key, raw), other) == stored_value(
                conf,
                other,
            ),
{
    lemma_conf_round_trip(key, value);
    let raw = written_value(key, value)->Ok_0;
    lemma_written(conf, key, raw);
}

} // verus!
