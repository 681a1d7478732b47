//! What the long poll's batches mean for the pipeline: the cursor that follows
//! a batch, the rows that record it, and the turns that it adds to the chat.

use crate::db::messages::{row_views, Message, MessageView};
use crate::gpt::{turn_views, ChatMessage, ChatMessageView};
use crate::update::{update_views, Update, UpdateKind, UpdateKindView, UpdateView};
use vstd::prelude::*;

verus! {

/// The greatest number among the updates of a batch that is not empty.
pub open spec fn max_id(updates: Seq<UpdateView>) -> int
    recommends
        updates.len() > 0,
    decreases updates.len(),
{
    if updates.len() <= 1 {
        updates.last().id as int
    } else {
        let rest = max_id(updates.drop_last());
        if updates.last().id > rest {
            updates.last().id as int
        } else {
            rest
        }
    }
}

/// The cursor after a batch: one more than the greatest number in it, and the
/// cursor as it was where the batch is empty.
pub open spec fn cursor_after(cursor: Option<i64>, updates: Seq<UpdateView>) -> Option<i64> {
    if updates.len() == 0 {
        cursor
    } else {
        Some((max_id(updates) + 1) as i64)
    }
}

/// `max_id` is the number of one of the updates, and no update has a greater
/// one.
pub proof fn lemma_max_id(updates: Seq<UpdateView>)
    requires
        updates.len() > 0,
    ensures
        exists|i: int| 0 <= i < updates.len() && (#[trigger] updates[i]).id == max_id(updates),
        forall|i: int| 0 <= i < updates.len() ==> (#[trigger] updates[i]).id <= max_id(updates),
    decreases updates.len(),
{
    if updates.len() <= 1 {
        assert(updates[0].id == max_id(updates));
    } else {
        let rest = updates.drop_last();
        lemma_max_id(rest);
        let w = choose|i: int| 0 <= i < rest.len() && (#[trigger] rest[i]).id == max_id(rest);
        assert(rest[w] == updates[w]);
        if updates.last().id > max_id(rest) {
            assert(updates[updates.len() - 1].id == max_id(updates));
        } else {
            assert(updates[w].id == max_id(updates));
        }
        assert forall|i: int| 0 <= i < updates.len() implies (#[trigger] updates[i]).id <= max_id(
            updates,
        ) by {
            if i < rest.len() {
                assert(rest[i] == updates[i]);
            }
        }
    }
}

/// The cursor to ask with after `updates` have been processed.
pub fn next_offset(cursor: Option<i64>, updates: &Vec<Update>) -> (next: Option<i64>)
    ensures
        next == cursor_after(cursor, update_views(updates@)),
{
    if updates.len() == 0 {
        return cursor;
    }
    let ghost views = update_views(updates@);
    let mut greatest: i32 = updates[0].id;
    let mut i: usize = 1;
    assert(views.take(1).drop_last() =~= Seq::<UpdateView>::empty());
    while i < updates.len()
        invariant
            1 <= i <= updates.len(),
            views == update_views(updates@),
            greatest == max_id(views.take(i as int)),
        decreases updates.len() - i,
    {
        assert(views.take(i + 1).drop_last() =~= views.take(i as int));
        assert(views.take(i + 1).last() == updates[i as int]@);
        if updates[i].id > greatest {
            greatest = updates[i].id;
        }
        i += 1;
    }
    assert(views.take(updates.len() as int) =~= views);
    Some(greatest as i64 + 1)
}

/// The rows that record a batch: one for each update, in the batch's order.
pub open spec fn batch_rows(updates: Seq<UpdateView>) -> Seq<MessageView> {
    updates.map_values(|u: UpdateView| u.row())
}

/// The rows to append to the event log for `updates`.
pub fn rows_of(updates: &Vec<Update>) -> (rows: Vec<Message>)
    ensures
        row_views(rows@) == batch_rows(update_views(updates@)),
{
    let mut rows: Vec<Message> = Vec::new();
    let mut i: usize = 0;
    while i < updates.len()
        invariant
            i <= updates.len(),
            rows.len() == i,
            forall|j: int| 0 <= j < i ==> (#[trigger] rows[j])@ == updates[j]@.row(),
        decreases updates.len() - i,
    {
        rows.push(Message::from(&updates[i]));
        i += 1;
    }
    assert(row_views(rows@) =~= batch_rows(update_views(updates@)));
    rows
}

impl UpdateView {
    /// Whether the update is a new message in the chat `chat_id`.
    pub open spec fn speaks_in(self, chat_id: i64) -> bool {
        match self.kind {
            UpdateKindView::Message(m) => m.chat_id == chat_id,
            _ => false,
        }
    }
}

/// The turns that a batch adds to the conversation of the chat `chat_id`: one
/// for each new message in that chat, in the batch's order, and none for any
/// other update.
pub open spec fn chat_turns(updates: Seq<UpdateView>, chat_id: i64) -> Seq<ChatMessageView>
    decreases updates.len(),
{
    if updates.len() == 0 {
        Seq::<ChatMessageView>::empty()
    } else {
        let earlier = chat_turns(updates.drop_last(), chat_id);
        match updates.last().kind {
            UpdateKindView::Message(m) => if m.chat_id == chat_id {
                earlier.push(m.turn())
            } else {
                earlier
            },
            _ => earlier,
        }
    }
}

/// The turns that `tg_updates` add to the conversation of the chat `chat_id`.
pub fn get_chat_updates(tg_updates: &Vec<Update>, chat_id: i64) -> (turns: Vec<ChatMessage>)
    ensures
        turn_views(turns@) == chat_turns(update_views(tg_updates@), chat_id),
{
    let ghost views = update_views(tg_updates@);
    let mut turns: Vec<ChatMessage> = Vec::new();
    let mut i: usize = 0;
    assert(views.take(0) =~= Seq::<UpdateView>::empty());
    assert(turn_views(turns@) =~= Seq::<ChatMessageView>::empty());
    while i < tg_updates.len()
        invariant
            i <= tg_updates.len(),
            views == update_views(tg_updates@),
            turn_views(turns@) == chat_turns(views.take(i as int), chat_id),
        decreases tg_updates.len() - i,
    {
        assert(views.take(i + 1).drop_last() =~= views.take(i as int));
        assert(views.take(i + 1).last() == tg_updates[i as int]@);
        let ghost held = turn_views(turns@);
        match &tg_updates[i].kind {
            UpdateKind::Message(m) => {
                if m.chat_id == chat_id {
                    let turn = ChatMessage::from(m);
                    turns.push(turn);
                    assert(turn_views(turns@) =~= held.push(m@.turn()));
                }
            },
            _ => {},
        }
        i += 1;
    }
    assert(views.take(tg_updates.len() as int) =~= views);
    turns
}

/// Every turn that a batch adds to the conversation of a chat is the turn of
/// a new message in that chat, and the turns keep the order of the batch.
pub proof fn lemma_turns_come_from_chat(updates: Seq<UpdateView>, chat_id: i64)
    ensures
        chat_turns(updates, chat_id).len() <= updates.len(),
        forall|j: int|
            0 <= j < chat_turns(updates, chat_id).len() ==> exists|i: int|
                0 <= i < updates.len() && (#[trigger] updates[i]).speaks_in(chat_id)
                    && updates[i].kind->Message_0.turn() == #[trigger] chat_turns(
                    updates,
                    chat_id,
                )[j],
    decreases updates.len(),
{
    if updates.len() > 0 {
        let earlier = updates.drop_last();
        let turns = chat_turns(updates, chat_id);
        lemma_turns_come_from_chat(earlier, chat_id);
        assert forall|j: int| 0 <= j < turns.len() implies exists|i: int|
            0 <= i < updates.len() && (#[trigger] updates[i]).speaks_in(chat_id)
                && updates[i].kind->Message_0.turn() == #[trigger] turns[j] by {
            if j < chat_turns(earlier, chat_id).len() {
                assert(turns[j] == chat_turns(earlier, chat_id)[j]);
                let w = choose|i: int|
                    0 <= i < earlier.len() && (#[trigger] earlier[i]).speaks_in(chat_id)
                        && earlier[i].kind->Message_0.turn() == chat_turns(earlier, chat_id)[j];
                assert(updates[w] == earlier[w]);
            } else {
                assert(updates[updates.len() - 1].speaks_in(chat_id));
            }
        }
    }
}

/// An update that is no new message in the chat adds no turn: the batch
/// without it adds the same turns.
pub proof fn lemma_other_update_adds_no_turn(updates: Seq<UpdateView>, chat_id: i64, i: int)
    requires
        0 <= i < updates.len(),
        !updates[i].speaks_in(chat_id),
    ensures
        chat_turns(updates, chat_id) == chat_turns(updates.remove(i), chat_id),
    decreases updates.len(),
{
    if i == updates.len() - 1 {
        assert(updates.remove(i) =~= updates.drop_last());
    } else {
        lemma_other_update_adds_no_turn(updates.drop_last(), chat_id, i);
        assert(updates.remove(i).drop_last() =~= updates.drop_last().remove(i));
        assert(updates.remove(i).last() == updates.last());
    }
}

/// A batch in which no update is a new message in the chat adds no turn.
pub proof fn lemma_other_chats_add_no_turns(updates: Seq<UpdateView>, chat_id: i64)
    requires
        forall|i: int| 0 <= i < updates.len() ==> !(#[trigger] updates[i]).speaks_in(chat_id),
    ensures
        chat_turns(updates, chat_id) == Seq::<ChatMessageView>::empty(),
    decreases updates.len(),
{
    if updates.len() > 0 {
        assert forall|i: int| 0 <= i < updates.drop_last().len() implies !(
        #[trigger] updates.drop_last()[i]).speaks_in(chat_id) by {
            assert(updates.drop_last()[i] == updates[i]);
        }
        lemma_other_chats_add_no_turns(updates.drop_last(), chat_id);
        assert(!updates[updates.len() - 1].speaks_in(chat_id));
    }
}

/// The cursor after a batch lies beyond every update of the batch.
pub proof fn lemma_cursor_passes_batch(cursor: Option<i64>, updates: Seq<UpdateView>)
    requires
        updates.len() > 0,
    ensures
        cursor_after(cursor, updates) matches Some(next) && next == max_id(updates) + 1
            && forall|i: int| 0 <= i < updates.len() ==> (#[trigger] updates[i]).id < next,
{
    lemma_max_id(updates);
}

/// Where the platform delivers no update below the cursor that it was asked
/// with, the cursor never falls, and it rises with every batch that is not
/// empty.
pub proof fn lemma_cursor_never_falls(cursor: i64, updates: Seq<UpdateView>)
    requires
        forall|i: int| 0 <= i < updates.len() ==> (#[trigger] updates[i]).id >= cursor,
    ensures
        cursor_after(Some(cursor), updates) matches Some(next) && next >= cursor && (updates.len()
            > 0 ==> next > cursor),
{
    if updates.len() > 0 {
        lemma_max_id(updates);
    }
}

} // verus!
