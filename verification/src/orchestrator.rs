//! The control loop's decisions.
//!
//! The loop itself waits on the network and the store. What it decides is
//! here: for the state it is in and the event that has come, the state that
//! follows and the action to perform next.

use crate::conf::{read_integer, read_integer_value, ConfError, ConfErrorView, ConfKey};
use crate::db::messages::{row_views, Message, MessageView};
use crate::decimal::{lemma_i64_round_trip, signed_text};
use crate::gpt::{
    first_choice, flush_of, message_views, request_messages, rest_of, turn_views, ChatMessage,
    ChatMessageView, CompletionMessage, CompletionMessageView, Gpt,
};
use crate::poll::{batch_rows, chat_turns, cursor_after, get_chat_updates, next_offset, rows_of};
use crate::store::{appended_batch, distinct_ids, lemma_redelivery_adds_nothing};
use crate::tg::{poll_request, prepare_update_request, UpdateRequest, UpdateRequestView};
use crate::update::{opt_text, update_views, Update, UpdateView};
use vstd::prelude::*;

verus! {

/// Where the loop stands.
#[derive(Clone, Copy, Debug, PartialEq, Eq, Structural)]
pub enum State {
    /// The stored settings have not been loaded yet.
    Init,
    /// A batch is being fetched or processed.
    Polling,
    /// A fetch has failed, and the loop waits before it tries again.
    Backoff,
    /// The loop has ended.
    Stopped,
}

/// The work that the loop waits for while it is polling.
#[derive(Clone, Copy, Debug, PartialEq, Eq, Structural)]
pub enum Step {
    /// The long poll.
    Fetching,
    /// The batch's rows on their way into the event log.
    Persisting,
    /// The completion service's reply.
    Completing,
    /// The reply on its way to the chat.
    Sending,
    /// The new cursor on its way into the configuration table.
    SavingCursor,
}

/// What has happened outside.
pub enum Event {
    /// The stored cursor and chat were read: each as it is stored, or `None`.
    Loaded { offset: Option<String>, chat_id: Option<String> },
    /// The long poll returned these updates; none, where it timed out.
    Fetched(Vec<Update>),
    /// The long poll failed.
    FetchFailed,
    /// The rows are in the event log.
    Persisted,
    /// The event log did not take the rows.
    PersistFailed,
    /// The completion service answered with these choices.
    Completed(Vec<String>),
    /// The completion service failed.
    CompletionFailed,
    /// The reply was sent.
    Sent,
    /// The reply could not be sent.
    SendFailed,
    /// The cursor is in the configuration table.
    CursorSaved,
    /// The configuration table did not take the cursor.
    CursorSaveFailed,
    /// The wait after a failed fetch is over.
    Woke,
    /// The loop was asked to end; seen between two iterations.
    Cancelled,
}

/// An `Event` as plain values.
pub enum EventView {
    Loaded { offset: Option<Seq<char>>, chat_id: Option<Seq<char>> },
    Fetched(Seq<UpdateView>),
    FetchFailed,
    Persisted,
    PersistFailed,
    Completed(Seq<Seq<char>>),
    CompletionFailed,
    Sent,
    SendFailed,
    CursorSaved,
    CursorSaveFailed,
    Woke,
    Cancelled,
}

impl View for Event {
    type V = EventView;

    open spec fn view(&self) -> EventView {
        match self {
            Event::Loaded { offset, chat_id } => EventView::Loaded {
                offset: opt_text(*offset),
                chat_id: opt_text(*chat_id),
            },
            Event::Fetched(updates) => EventView::Fetched(update_views(updates@)),
            Event::FetchFailed => EventView::FetchFailed,
            Event::Persisted => EventView::Persisted,
            Event::PersistFailed => EventView::PersistFailed,
            Event::Completed(choices) => EventView::Completed(
                choices@.map_values(|c: String| c@),
            ),
            Event::CompletionFailed => EventView::CompletionFailed,
            Event::Sent => EventView::Sent,
            Event::SendFailed => EventView::SendFailed,
            Event::CursorSaved => EventView::CursorSaved,
            Event::CursorSaveFailed => EventView::CursorSaveFailed,
            Event::Woke => EventView::Woke,
            Event::Cancelled => EventView::Cancelled,
        }
    }
}

/// Why the loop gave up.
#[derive(Debug)]
pub enum Fatal {
    /// A stored setting is missing or is no value of its type.
    Configuration(ConfError),
    /// The store failed again right after a failure.
    Persistence,
}

/// A `Fatal` as plain values.
pub enum FatalView {
    Configuration(ConfErrorView),
    Persistence,
}

impl View for Fatal {
    type V = FatalView;

    open spec fn view(&self) -> FatalView {
        match self {
            Fatal::Configuration(e) => FatalView::Configuration(e@),
            Fatal::Persistence => FatalView::Persistence,
        }
    }
}

/// What the loop is to do next.
#[derive(Debug)]
pub enum Action {
    /// Make this long poll.
    Fetch(UpdateRequest),
    /// Append these rows to the event log, in this order.
    Persist(Vec<Message>),
    /// Ask the completion service with these messages.
    Complete(Vec<CompletionMessage>),
    /// Send this text to this chat.
    Send { chat_id: i64, text: String },
    /// Store this cursor.
    SaveCursor(Option<i64>),
    /// Wait this many seconds.
    Sleep { seconds: u64 },
    /// End the loop: it was asked to.
    Stop,
    /// End the loop with this error.
    Fail(Fatal),
    /// Nothing: the event does not belong to the work that the loop waits for.
    Wait,
}

/// An `Action` as plain values.
pub enum ActionView {
    Fetch(UpdateRequestView),
    Persist(Seq<MessageView>),
    Complete(Seq<CompletionMessageView>),
    Send { chat_id: i64, text: Seq<char> },
    SaveCursor(Option<i64>),
    Sleep { seconds: u64 },
    Stop,
    Fail(FatalView),
    Wait,
}

impl View for Action {
    type V = ActionView;

    open spec fn view(&self) -> ActionView {
        match self {
            Action::Fetch(request) => ActionView::Fetch(request@),
            Action::Persist(rows) => ActionView::Persist(row_views(rows@)),
            Action::Complete(messages) => ActionView::Complete(message_views(messages@)),
            Action::Send { chat_id, text } => ActionView::Send { chat_id: *chat_id, text: text@ },
            Action::SaveCursor(cursor) => ActionView::SaveCursor(*cursor),
            Action::Sleep { seconds } => ActionView::Sleep { seconds: *seconds },
            Action::Stop => ActionView::Stop,
            Action::Fail(fatal) => ActionView::Fail(fatal@),
            Action::Wait => ActionView::Wait,
        }
    }
}

/// The loop's state as plain values.
pub struct Machine {
    pub state: State,
    /// The work awaited; it counts while the state is `Polling`.
    pub step: Step,
    /// The cursor that the configuration table holds.
    pub cursor: Option<i64>,
    /// The cursor to store once the batch in hand is processed.
    pub next: Option<i64>,
    /// The chat that the bot listens to and answers in.
    pub chat_id: i64,
    /// How many seconds a long poll may stay open.
    pub lp_timeout: u32,
    /// How many seconds to wait after a failed fetch.
    pub retry_timeout: u64,
    /// The system prompt.
    pub prompt: Seq<char>,
    /// How many turns make a full window.
    pub capacity: nat,
    /// The turns in the window.
    pub window: Seq<ChatMessageView>,
    /// The turns of the batch in hand that have yet to enter the window.
    pub pending: Seq<ChatMessageView>,
    /// Whether the store has failed since a cursor was last stored.
    pub store_failed: bool,
}

/// What the stored settings say: the cursor, if one is stored, and the chat.
/// The chat must be stored, and both must be integers.
pub open spec fn loaded(offset: Option<Seq<char>>, chat_id: Option<Seq<char>>) -> Result<
    (Option<i64>, i64),
    ConfErrorView,
> {
    match read_integer_value(ConfKey::ChatId, chat_id) {
        Err(e) => Err(e),
        Ok(None) => Err(ConfErrorView::Missing { key: ConfKey::ChatId }),
        Ok(Some(chat)) => match read_integer_value(ConfKey::Offset, offset) {
            Err(e) => Err(e),
            Ok(cursor) => Ok((cursor, chat)),
        },
    }
}

/// The reply to send: the first choice, where there is one and it is not
/// empty.
pub open spec fn reply_of(choices: Seq<Seq<char>>) -> Option<Seq<char>> {
    if choices.len() > 0 && choices[0].len() > 0 {
        Some(choices[0])
    } else {
        None
    }
}

impl Machine {
    /// The machine polling again, from the cursor `cursor`.
    pub open spec fn fetching(self, cursor: Option<i64>) -> (Machine, ActionView) {
        (
            Machine {
                state: State::Polling,
                step: Step::Fetching,
                cursor,
                next: cursor,
                pending: Seq::<ChatMessageView>::empty(),
                ..self
            },
            ActionView::Fetch(poll_request(self.lp_timeout, cursor)),
        )
    }

    /// The machine about to store the cursor of the batch in hand.
    pub open spec fn saving_cursor(self) -> (Machine, ActionView) {
        (Machine { step: Step::SavingCursor, ..self }, ActionView::SaveCursor(self.next))
    }

    /// The machine after the store has failed: it gives up where the store
    /// had failed before, and else fetches the batch again, from the cursor
    /// that is stored.
    pub open spec fn store_failure(self) -> (Machine, ActionView) {
        if self.store_failed {
            (Machine { state: State::Stopped, ..self }, ActionView::Fail(FatalView::Persistence))
        } else {
            Machine { store_failed: true, ..self }.fetching(self.cursor)
        }
    }

    /// The state that follows `self` on `event`, and the action to perform.
    pub open spec fn step(self, event: EventView) -> (Machine, ActionView) {
        match (self.state, event) {
            (State::Init, EventView::Loaded { offset, chat_id }) => match loaded(offset, chat_id) {
                Ok((cursor, chat)) => Machine { chat_id: chat, ..self }.fetching(cursor),
                Err(e) => (
                    Machine { state: State::Stopped, ..self },
                    ActionView::Fail(FatalView::Configuration(e)),
                ),
            },
            (State::Backoff, EventView::Woke) => self.fetching(self.cursor),
            (State::Backoff, EventView::Cancelled) => (
                Machine { state: State::Stopped, ..self },
                ActionView::Stop,
            ),
            (State::Polling, _) => self.polling_step(event),
            _ => (self, ActionView::Wait),
        }
    }

    /// `step` for a machine that is polling.
    pub open spec fn polling_step(self, event: EventView) -> (Machine, ActionView) {
        match (self.step, event) {
            (Step::Fetching, EventView::Fetched(updates)) => (
                Machine {
                    step: Step::Persisting,
                    next: cursor_after(self.cursor, updates),
                    pending: chat_turns(updates, self.chat_id),
                    ..self
                },
                ActionView::Persist(batch_rows(updates)),
            ),
            (Step::Fetching, EventView::FetchFailed) => (
                Machine { state: State::Backoff, ..self },
                ActionView::Sleep { seconds: self.retry_timeout },
            ),
            (Step::Fetching, EventView::Cancelled) => (
                Machine { state: State::Stopped, ..self },
                ActionView::Stop,
            ),
            (Step::Persisting, EventView::Persisted) => {
                let fed = Machine {
                    window: rest_of(self.window, self.pending, self.capacity),
                    pending: Seq::<ChatMessageView>::empty(),
                    ..self
                };
                match flush_of(self.window, self.pending, self.capacity) {
                    Some(turns) => (
                        Machine { step: Step::Completing, ..fed },
                        ActionView::Complete(request_messages(self.prompt, turns)),
                    ),
                    None => fed.saving_cursor(),
                }
            },
            (Step::Persisting, EventView::PersistFailed) => self.store_failure(),
            (Step::Completing, EventView::Completed(choices)) => match reply_of(choices) {
                Some(text) => (
                    Machine { step: Step::Sending, ..self },
                    ActionView::Send { chat_id: self.chat_id, text },
                ),
                None => self.saving_cursor(),
            },
            (Step::Completing, EventView::CompletionFailed) => self.saving_cursor(),
            (Step::Sending, EventView::Sent) => self.saving_cursor(),
            (Step::Sending, EventView::SendFailed) => self.saving_cursor(),
            (Step::SavingCursor, EventView::CursorSaved) => Machine {
                store_failed: false,
                ..self
            }.fetching(self.next),
            (Step::SavingCursor, EventView::CursorSaveFailed) => self.store_failure(),
            _ => (self, ActionView::Wait),
        }
    }
}

impl Machine {
    /// The window never holds more turns than its capacity.
    pub open spec fn wf(self) -> bool {
        self.window.len() <= self.capacity
    }
}

/// The loop's state.
#[derive(Debug)]
pub struct Orchestrator {
    state: State,
    step: Step,
    cursor: Option<i64>,
    next: Option<i64>,
    chat_id: i64,
    lp_timeout: u32,
    retry_timeout: u64,
    gpt: Gpt,
    pending: Vec<ChatMessage>,
    store_failed: bool,
}

impl View for Orchestrator {
    type V = Machine;

    closed spec fn view(&self) -> Machine {
        Machine {
            state: self.state,
            step: self.step,
            cursor: self.cursor,
            next: self.next,
            chat_id: self.chat_id,
            lp_timeout: self.lp_timeout,
            retry_timeout: self.retry_timeout,
            prompt: self.gpt.prompt(),
            capacity: self.gpt.capacity(),
            window: self.gpt.turns(),
            pending: turn_views(self.pending@),
            store_failed: self.store_failed,
        }
    }
}

/// Reads the stored cursor and chat.
pub fn load(offset: &Option<String>, chat_id: &Option<String>) -> (settings: Result<
    (Option<i64>, i64),
    ConfError,
>)
    ensures
        match settings {
            Ok(found) => loaded(opt_text(*offset), opt_text(*chat_id)) == Ok::<
                (Option<i64>, i64),
                ConfErrorView,
            >(found),
            Err(e) => loaded(opt_text(*offset), opt_text(*chat_id)) == Err::<
                (Option<i64>, i64),
                ConfErrorView,
            >(e@),
        },
{
    let chat = match read_integer(ConfKey::ChatId, chat_id) {
        Err(e) => {
            return Err(e);
        },
        Ok(None) => {
            return Err(ConfError::Missing { key: ConfKey::ChatId });
        },
        Ok(Some(chat)) => chat,
    };
    match read_integer(ConfKey::Offset, offset) {
        Err(e) => Err(e),
        Ok(cursor) => Ok((cursor, chat)),
    }
}

impl Orchestrator {
    /// The window never holds more turns than its capacity.
    pub open spec fn wf(&self) -> bool {
        self@.wf()
    }

    /// A loop that has yet to load its settings, around the window `gpt`.
    pub fn new(gpt: Gpt, lp_timeout: u32, retry_timeout: u64) -> (orchestrator: Self)
        requires
            gpt.wf(),
        ensures
            orchestrator.wf(),
            orchestrator@ == (Machine {
                state: State::Init,
                step: Step::Fetching,
                cursor: None,
                next: None,
                chat_id: 0,
                lp_timeout,
                retry_timeout,
                prompt: gpt.prompt(),
                capacity: gpt.capacity(),
                window: gpt.turns(),
                pending: Seq::<ChatMessageView>::empty(),
                store_failed: false,
            }),
    {
        let orchestrator = Orchestrator {
            state: State::Init,
            step: Step::Fetching,
            cursor: None,
            next: None,
            chat_id: 0,
            lp_timeout,
            retry_timeout,
            gpt,
            pending: Vec::new(),
            store_failed: false,
        };
        assert(turn_views(orchestrator.pending@) =~= Seq::<ChatMessageView>::empty());
        orchestrator
    }

    /// Where the loop stands.
    pub fn state(&self) -> (state: State)
        ensures
            state == self@.state,
    {
        self.state
    }

    /// The work that the loop waits for while it is polling.
    pub fn step(&self) -> (step: Step)
        ensures
            step == self@.step,
    {
        self.step
    }

    /// The cursor that the configuration table holds.
    pub fn cursor(&self) -> (cursor: Option<i64>)
        ensures
            cursor == self@.cursor,
    {
        self.cursor
    }

    /// The chat that the bot listens to and answers in.
    pub fn chat_id(&self) -> (chat_id: i64)
        ensures
            chat_id == self@.chat_id,
    {
        self.chat_id
    }

    /// How many turns the window holds.
    pub fn window_len(&self) -> (n: usize)
        ensures
            n == self@.window.len(),
    {
        self.gpt.len()
    }

    /// Polls again, from `cursor`.
    fn fetch(&mut self, cursor: Option<i64>) -> (action: Action)
        ensures
            (final(self)@, action@) == old(self)@.fetching(cursor),
    {
        self.state = State::Polling;
        self.step = Step::Fetching;
        self.cursor = cursor;
        self.next = cursor;
        self.pending = Vec::new();
        assert(turn_views(self.pending@) =~= Seq::<ChatMessageView>::empty());
        Action::Fetch(prepare_update_request(self.lp_timeout, cursor))
    }

    /// Goes on to store the cursor of the batch in hand.
    fn save_cursor(&mut self) -> (action: Action)
        ensures
            (final(self)@, action@) == old(self)@.saving_cursor(),
    {
        self.step = Step::SavingCursor;
        Action::SaveCursor(self.next)
    }

    /// Gives up after a second failure of the store, and else fetches the
    /// batch again.
    fn store_failure(&mut self) -> (action: Action)
        ensures
            (final(self)@, action@) == old(self)@.store_failure(),
    {
        if self.store_failed {
            self.state = State::Stopped;
            Action::Fail(Fatal::Persistence)
        } else {
            self.store_failed = true;
            let cursor = self.cursor;
            self.fetch(cursor)
        }
    }

    /// Feeds the turns of the batch in hand into the window and, where that
    /// fills it, asks for a completion of the flushed turns.
    fn feed(&mut self) -> (action: Action)
        requires
            old(self).wf(),
            old(self)@.state == State::Polling,
            old(self)@.step == Step::Persisting,
        ensures
            final(self).wf(),
            (final(self)@, action@) == old(self)@.polling_step(EventView::Persisted),
    {
        let mut pending: Vec<ChatMessage> = Vec::new();
        std::mem::swap(&mut pending, &mut self.pending);
        assert(turn_views(self.pending@) =~= Seq::<ChatMessageView>::empty());
        match self.gpt.query(pending) {
            Some(turns) => match self.gpt.request(&turns) {
                Ok(Some(messages)) => {
                    self.step = Step::Completing;
                    Action::Complete(messages)
                },
                _ => self.save_cursor(),
            },
            None => self.save_cursor(),
        }
    }

    /// Takes the event that has come, moves to the state that follows, and
    /// says what to do next.
    pub fn handle(&mut self, event: Event) -> (action: Action)
        requires
            old(self).wf(),
        ensures
            final(self).wf(),
            (final(self)@, action@) == old(self)@.step(event@),
    {
        match self.state {
            State::Init => match event {
                Event::Loaded { offset, chat_id } => match load(&offset, &chat_id) {
                    Ok((cursor, chat)) => {
                        self.chat_id = chat;
                        self.fetch(cursor)
                    },
                    Err(e) => {
                        self.state = State::Stopped;
                        Action::Fail(Fatal::Configuration(e))
                    },
                },
                _ => Action::Wait,
            },
            State::Backoff => match event {
                Event::Woke => {
                    let cursor = self.cursor;
                    self.fetch(cursor)
                },
                Event::Cancelled => {
                    self.state = State::Stopped;
                    Action::Stop
                },
                _ => Action::Wait,
            },
            State::Polling => self.handle_polling(event),
            State::Stopped => Action::Wait,
        }
    }

    /// `handle` for a loop that is polling.
    fn handle_polling(&mut self, event: Event) -> (action: Action)
        requires
            old(self).wf(),
            old(self)@.state == State::Polling,
        ensures
            final(self).wf(),
            (final(self)@, action@) == old(self)@.polling_step(event@),
    {
        match self.step {
            Step::Fetching => match event {
                Event::Fetched(updates) => {
                    self.step = Step::Persisting;
                    self.next = next_offset(self.cursor, &updates);
                    self.pending = get_chat_updates(&updates, self.chat_id);
                    Action::Persist(rows_of(&updates))
                },
                Event::FetchFailed => {
                    self.state = State::Backoff;
                    Action::Sleep { seconds: self.retry_timeout }
                },
                Event::Cancelled => {
                    self.state = State::Stopped;
                    Action::Stop
                },
                _ => Action::Wait,
            },
            Step::Persisting => match event {
                Event::Persisted => self.feed(),
                Event::PersistFailed => self.store_failure(),
                _ => Action::Wait,
            },
            Step::Completing => match event {
                Event::Completed(choices) => {
                    let ghost texts = choices@.map_values(|c: String| c@);
                    match first_choice(choices) {
                        Ok(text) => {
                            assert(texts[0] == text@);
                            if text.as_str().is_empty() {
                                self.save_cursor()
                            } else {
                                self.step = Step::Sending;
                                Action::Send { chat_id: self.chat_id, text }
                            }
                        },
                        Err(_) => self.save_cursor(),
                    }
                },
                Event::CompletionFailed => self.save_cursor(),
                _ => Action::Wait,
            },
            Step::Sending => match event {
                Event::Sent => self.save_cursor(),
                Event::SendFailed => self.save_cursor(),
                _ => Action::Wait,
            },
            Step::SavingCursor => match event {
                Event::CursorSaved => {
                    self.store_failed = false;
                    let next = self.next;
                    self.fetch(next)
                },
                Event::CursorSaveFailed => self.store_failure(),
                _ => Action::Wait,
            },
        }
    }
}

impl Machine {
    /// Whether the machine is about to poll from `cursor`.
    pub open spec fn at_fetch(self, cursor: Option<i64>) -> bool {
        self.state == State::Polling && self.step == Step::Fetching && self.cursor == cursor
    }

    /// Whether the machine is processing the batch `updates`, which it
    /// fetched from `cursor`: the stored cursor is still `cursor`, and the
    /// cursor to store is the one that follows the batch.
    pub open spec fn in_batch(self, cursor: Option<i64>, updates: Seq<UpdateView>) -> bool {
        &&& self.state == State::Polling
        &&& self.step != Step::Fetching
        &&& self.cursor == cursor
        &&& self.next == cursor_after(cursor, updates)
    }
}

/// No step gives the window more turns than its capacity.
pub proof fn lemma_step_keeps_window(machine: Machine, event: EventView)
    requires
        machine.wf(),
    ensures
        machine.step(event).0.wf(),
        machine.step(event).0.capacity == machine.capacity,
{
}

/// The stored cursor changes in two steps only: when the settings are loaded,
/// and when the cursor of a processed batch has been stored, to that cursor.
pub proof fn lemma_cursor_moves_only_when_saved(machine: Machine, event: EventView)
    ensures
        ({
            let after = machine.step(event).0;
            ||| after.cursor == machine.cursor
            ||| machine.state == State::Init && event is Loaded
            ||| machine.state == State::Polling && machine.step == Step::SavingCursor
                && event is CursorSaved && after.cursor == machine.next
        }),
{
}

/// A fetched batch goes to the event log whole and in its order, and fixes
/// the cursor to store: one more than the greatest number in the batch, and
/// the stored cursor where the batch is empty.
pub proof fn lemma_fetched_batch_fixes_cursor(machine: Machine, updates: Seq<UpdateView>)
    requires
        machine.state == State::Polling,
        machine.step == Step::Fetching,
    ensures
        machine.step(EventView::Fetched(updates)).0.in_batch(machine.cursor, updates),
        machine.step(EventView::Fetched(updates)).0.pending == chat_turns(
            updates,
            machine.chat_id,
        ),
        machine.step(EventView::Fetched(updates)).1 == ActionView::Persist(
            batch_rows(updates),
        ),
{
}

/// Whatever happens while a batch is processed, the batch ends in one of
/// three ways: its cursor is stored and the next poll starts there; the store
/// fails and the next poll starts at the cursor as it was; or the loop stops
/// with the cursor as it was. The only cursor that is ever handed out to be
/// stored is the batch's.
pub proof fn lemma_batch_ends_with_its_cursor(
    machine: Machine,
    cursor: Option<i64>,
    updates: Seq<UpdateView>,
    event: EventView,
)
    requires
        machine.in_batch(cursor, updates),
    ensures
        ({
            let (after, action) = machine.step(event);
            &&& {
                ||| after.in_batch(cursor, updates)
                ||| after.at_fetch(cursor_after(cursor, updates)) && event is CursorSaved
                    && machine.step == Step::SavingCursor
                ||| after.at_fetch(cursor) && (event is PersistFailed || event is CursorSaveFailed)
                ||| after.state == State::Stopped && after.cursor == cursor
            }
            &&& action matches ActionView::SaveCursor(stored) ==> stored == cursor_after(
                cursor,
                updates,
            )
            &&& action matches ActionView::Fetch(request) ==> request.offset == after.cursor
        }),
{
}

/// The window takes turns from one place only: from the new messages of the
/// loop's own chat in the batch in hand, once the batch's rows are stored.
/// Every other step leaves the window as it is.
pub proof fn lemma_window_takes_chat_turns_only(machine: Machine, event: EventView)
    ensures
        ({
            let after = machine.step(event).0;
            &&& after.window == machine.window || (machine.state == State::Polling && machine.step
                == Step::Persisting && event is Persisted && after.window == rest_of(
                machine.window,
                machine.pending,
                machine.capacity,
            ))
            &&& {
                ||| after.pending == machine.pending
                ||| after.pending == Seq::<ChatMessageView>::empty()
                ||| machine.state == State::Polling && machine.step == Step::Fetching && (
                event matches EventView::Fetched(updates) && after.pending == chat_turns(
                    updates,
                    machine.chat_id,
                ))
            }
            &&& machine.state != State::Init ==> after.chat_id == machine.chat_id
        }),
{
}

/// Once the rows of a batch are stored, the batch's turns enter the window.
/// Where that fills the window, the completion service is asked, with the
/// system prompt and then every turn of the flushed window in its order, and
/// the window is left empty. Where it does not, nothing is asked: every turn
/// stays in the window, and the batch's cursor is stored next.
pub proof fn lemma_full_window_asks_completion(machine: Machine)
    requires
        machine.state == State::Polling,
        machine.step == Step::Persisting,
    ensures
        ({
            let (after, action) = machine.step(EventView::Persisted);
            let turns = machine.window + machine.pending;
            &&& turns.len() == machine.capacity ==> {
                &&& action == ActionView::Complete(request_messages(machine.prompt, turns))
                &&& after.step == Step::Completing
                &&& after.window == Seq::<ChatMessageView>::empty()
            }
            &&& turns.len() < machine.capacity ==> {
                &&& action == ActionView::SaveCursor(machine.next)
                &&& after.step == Step::SavingCursor
                &&& after.window == turns
            }
            &&& after.state == State::Polling
            &&& after.pending == Seq::<ChatMessageView>::empty()
        }),
{
}

/// The completion service is asked in one step only: when the rows of a batch
/// are stored and the batch's turns fill the window. A reply is sent in one
/// step only: when the service has answered with a first choice that is not
/// empty, and then that choice goes to the loop's own chat.
pub proof fn lemma_asking_and_sending_have_one_cause(machine: Machine, event: EventView)
    ensures
        ({
            let (after, action) = machine.step(event);
            &&& action is Complete ==> {
                &&& machine.state == State::Polling
                &&& machine.step == Step::Persisting
                &&& event is Persisted
                &&& flush_of(machine.window, machine.pending, machine.capacity) matches Some(turns)
                    && action == ActionView::Complete(request_messages(machine.prompt, turns))
                &&& after.step == Step::Completing
            }
            &&& action is Send ==> {
                &&& machine.state == State::Polling
                &&& machine.step == Step::Completing
                &&& after.step == Step::Sending
                &&& event matches EventView::Completed(choices) && reply_of(choices) matches Some(
                    text,
                ) && action == (ActionView::Send { chat_id: machine.chat_id, text })
            }
        }),
{
}

/// A batch without updates asks for nothing where the window is not full: its
/// one row-less step into the event log is followed by the storing of the
/// cursor as it was, and the window stays as it is.
pub proof fn lemma_empty_batch_asks_nothing(machine: Machine)
    requires
        machine.state == State::Polling,
        machine.step == Step::Fetching,
        machine.window.len() < machine.capacity,
    ensures
        ({
            let (fetched, persist) = machine.step(EventView::Fetched(Seq::<UpdateView>::empty()));
            let (after, action) = fetched.step(EventView::Persisted);
            &&& persist == ActionView::Persist(Seq::<MessageView>::empty())
            &&& action == ActionView::SaveCursor(machine.cursor)
            &&& after.window == machine.window
            &&& after.cursor == machine.cursor
        }),
{
    let none = Seq::<UpdateView>::empty();
    assert(batch_rows(none) =~= Seq::<MessageView>::empty());
    assert(chat_turns(none, machine.chat_id) =~= Seq::<ChatMessageView>::empty());
    assert(machine.window + Seq::<ChatMessageView>::empty() =~= machine.window);
}

/// A failed fetch loses nothing: the loop waits, and then polls again from the
/// same cursor.
pub proof fn lemma_backoff_keeps_cursor(machine: Machine)
    requires
        machine.state == State::Polling,
        machine.step == Step::Fetching,
    ensures
        ({
            let (waiting, sleep) = machine.step(EventView::FetchFailed);
            let (again, fetch) = waiting.step(EventView::Woke);
            &&& waiting.state == State::Backoff
            &&& sleep == ActionView::Sleep { seconds: machine.retry_timeout }
            &&& again.at_fetch(machine.cursor)
            &&& fetch == ActionView::Fetch(poll_request(machine.lp_timeout, machine.cursor))
        }),
{
}

/// A loop that has stopped stays stopped and asks for nothing more.
pub proof fn lemma_stopped_is_final(machine: Machine, event: EventView)
    requires
        machine.state == State::Stopped,
    ensures
        machine.step(event) == (machine, ActionView::Wait),
{
}

/// The text under which a cursor is stored.
pub open spec fn stored_cursor(cursor: Option<i64>) -> Option<Seq<char>> {
    match cursor {
        Some(c) => Some(signed_text(c as int)),
        None => None,
    }
}

/// A loop that ended between the storing of a batch's rows and the storing of
/// its cursor starts again from the cursor as it was. When the batch is then
/// delivered again, its rows add nothing to the event log, and the cursor to
/// store is again the one that follows the batch.
pub proof fn lemma_redelivery_after_restart(
    init: Machine,
    cursor: Option<i64>,
    chat: i64,
    updates: Seq<UpdateView>,
    log: Seq<MessageView>,
)
    requires
        init.state == State::Init,
        distinct_ids(log),
    ensures
        ({
            let settings = EventView::Loaded {
                offset: stored_cursor(cursor),
                chat_id: Some(signed_text(chat as int)),
            };
            let (started, fetch) = init.step(settings);
            let (fetched, persist) = started.step(EventView::Fetched(updates));
            let once = appended_batch(log, batch_rows(updates));
            &&& started.at_fetch(cursor)
            &&& started.chat_id == chat
            &&& fetch == ActionView::Fetch(poll_request(init.lp_timeout, cursor))
            &&& persist == ActionView::Persist(batch_rows(updates))
            &&& appended_batch(once, batch_rows(updates)) == once
            &&& distinct_ids(once)
            &&& fetched.in_batch(cursor, updates)
        }),
{
    lemma_i64_round_trip(chat);
    if let Some(c) = cursor {
        lemma_i64_round_trip(c);
    }
    lemma_redelivery_adds_nothing(log, batch_rows(updates));
}

} // verus!
