//! The context window and the completion requests built from it.

use crate::chat_data::{ChatMember, ChatMemberView};
use crate::decimal::{decimal_text, format_u64};
use crate::json::{frame_turn, json_string_literal, string_literal, turn_object};
use crate::update::{clone_opt_text, opt_text, TgMessage, TgMessageView};
use std::collections::VecDeque;
use vstd::prelude::*;

verus! {

/// What one turn of the conversation says, and under which display name.
#[derive(Debug)]
pub struct ChatMessageJson {
    pub user_name: String,
    pub content: String,
}

/// A `ChatMessageJson` as plain values.
pub struct ChatMessageJsonView {
    pub user_name: Seq<char>,
    pub content: Seq<char>,
}

impl View for ChatMessageJson {
    type V = ChatMessageJsonView;

    open spec fn view(&self) -> ChatMessageJsonView {
        ChatMessageJsonView { user_name: self.user_name@, content: self.content@ }
    }
}

impl Clone for ChatMessageJson {
    fn clone(&self) -> (copy: Self)
        ensures
            copy@ == self@,
    {
        ChatMessageJson { user_name: self.user_name.clone(), content: self.content.clone() }
    }
}

impl TgMessageView {
    /// The turn that the message contributes: the sender's full name and the
    /// text, each empty where the message has none.
    pub open spec fn turn_text(self) -> ChatMessageJsonView {
        ChatMessageJsonView {
            user_name: match self.from {
                Some(user) => user.full_name(),
                None => Seq::<char>::empty(),
            },
            content: match self.text {
                Some(text) => text,
                None => Seq::<char>::empty(),
            },
        }
    }

    /// Who spoke: the sender's number, with its decimal text as the name; the
    /// number 0 and no name where the message has no sender.
    pub open spec fn speaker(self) -> ChatMemberView {
        match self.from {
            Some(user) => ChatMemberView {
                id: user.id,
                name: Some(decimal_text(user.id as nat)),
            },
            None => ChatMemberView { id: 0, name: None },
        }
    }

    /// The turn of the conversation that the message is.
    pub open spec fn turn(self) -> ChatMessageView {
        ChatMessageView { user: self.speaker(), text: self.turn_text() }
    }
}

impl ChatMessageJson {
    /// What `message` says and under which display name.
    pub fn from(message: &TgMessage) -> (text: Self)
        ensures
            text@ == message@.turn_text(),
    {
        let user_name = match &message.from {
            Some(user) => user.full_name(),
            None => String::new(),
        };
        let content = match &message.text {
            Some(text) => text.clone(),
            None => String::new(),
        };
        ChatMessageJson { user_name, content }
    }
}

/// Why no completion request or no reply could be had.
#[derive(Clone, Copy, Debug, PartialEq, Eq, Structural)]
pub enum GptError {
    /// The serialiser gave no text for a turn. It stands for the serialiser's
    /// own error, which no string brings about.
    Serialize,
    /// The completion service answered without a choice.
    NoChoices,
}

impl ChatMessageJsonView {
    /// The turn as the JSON object that a completion request carries.
    pub open spec fn json(self) -> Seq<char> {
        turn_object(json_string_literal(self.user_name), json_string_literal(self.content))
    }
}

impl ChatMessageJson {
    /// The turn as a JSON object. The serialiser refuses no string, so the
    /// result is always `Ok`.
    pub fn to_json(&self) -> (json: Result<String, GptError>)
        ensures
            json matches Ok(j) && j@ == self@.json(),
    {
        let user_name = match string_literal(self.user_name.as_str()) {
            Ok(l) => l,
            Err(_) => {
                return Err(GptError::Serialize);
            },
        };
        let content = match string_literal(self.content.as_str()) {
            Ok(l) => l,
            Err(_) => {
                return Err(GptError::Serialize);
            },
        };
        Ok(frame_turn(user_name.as_str(), content.as_str()))
    }
}

/// One turn of the conversation: who spoke, and what was said.
#[derive(Debug)]
pub struct ChatMessage {
    pub user: ChatMember,
    pub text: ChatMessageJson,
}

/// A `ChatMessage` as plain values.
pub struct ChatMessageView {
    pub user: ChatMemberView,
    pub text: ChatMessageJsonView,
}

impl View for ChatMessage {
    type V = ChatMessageView;

    open spec fn view(&self) -> ChatMessageView {
        ChatMessageView { user: self.user@, text: self.text@ }
    }
}

impl Clone for ChatMessage {
    fn clone(&self) -> (copy: Self)
        ensures
            copy@ == self@,
    {
        ChatMessage { user: self.user.clone(), text: self.text.clone() }
    }
}

impl ChatMessage {
    /// The turn of the conversation that `message` is.
    pub fn from(message: &TgMessage) -> (turn: Self)
        ensures
            turn@ == message@.turn(),
    {
        let user = match &message.from {
            Some(user) => ChatMember { id: user.id, name: Some(format_u64(user.id)) },
            None => ChatMember { id: 0, name: None },
        };
        ChatMessage { user, text: ChatMessageJson::from(message) }
    }
}

/// Who a message of a completion request speaks for.
#[derive(Clone, Copy, Debug, PartialEq, Eq, Structural)]
pub enum Role {
    System,
    User,
}

/// One message of a completion request.
#[derive(Debug)]
pub struct CompletionMessage {
    pub role: Role,
    pub name: Option<String>,
    pub content: String,
}

/// A `CompletionMessage` as plain values.
pub struct CompletionMessageView {
    pub role: Role,
    pub name: Option<Seq<char>>,
    pub content: Seq<char>,
}

impl View for CompletionMessage {
    type V = CompletionMessageView;

    open spec fn view(&self) -> CompletionMessageView {
        CompletionMessageView {
            role: self.role,
            name: opt_text(self.name),
            content: self.content@,
        }
    }
}

/// The views of the messages of a request, in its order.
pub open spec fn message_views(messages: Seq<CompletionMessage>) -> Seq<CompletionMessageView> {
    messages.map_values(|m: CompletionMessage| m@)
}

/// The message that opens every request: the prompt, spoken by the system.
pub open spec fn system_message(prompt: Seq<char>) -> CompletionMessageView {
    CompletionMessageView { role: Role::System, name: None, content: prompt }
}

/// The message that carries one turn: spoken by a user, under the speaker's
/// name, with the turn's JSON object as its content.
pub open spec fn user_message(turn: ChatMessageView) -> CompletionMessageView {
    CompletionMessageView { role: Role::User, name: turn.user.name, content: turn.text.json() }
}

/// The messages of the request for `turns`: the system message, then one user
/// message for each turn, in the turns' order.
pub open spec fn request_messages(
    prompt: Seq<char>,
    turns: Seq<ChatMessageView>,
) -> Seq<CompletionMessageView> {
    seq![system_message(prompt)] + turns.map_values(|t: ChatMessageView| user_message(t))
}

/// The reply of the completion service: the first of its choices, or
/// `GptError::NoChoices` where it gave none.
pub fn first_choice(choices: Vec<String>) -> (reply: Result<String, GptError>)
    ensures
        match reply {
            Ok(text) => choices.len() > 0 && text@ == choices[0]@,
            Err(e) => choices.len() == 0 && e == GptError::NoChoices,
        },
{
    if choices.len() > 0 {
        Ok(choices[0].clone())
    } else {
        Err(GptError::NoChoices)
    }
}

/// The views of a run of turns, in its order.
pub open spec fn turn_views(turns: Seq<ChatMessage>) -> Seq<ChatMessageView> {
    turns.map_values(|m: ChatMessage| m@)
}

/// The newest `capacity` of `turns`, or all of them where there are no more.
pub open spec fn newest(turns: Seq<ChatMessageView>, capacity: nat) -> Seq<ChatMessageView> {
    if turns.len() > capacity {
        turns.subrange(turns.len() - capacity, turns.len() as int)
    } else {
        turns
    }
}

/// The bounded window of recent turns, with the settings of the completion
/// requests that are made from it.
#[derive(Debug)]
pub struct Gpt {
    model: String,
    prompt: String,
    messages_capacity: usize,
    messages: VecDeque<ChatMessage>,
}

impl Gpt {
    /// The name of the completion model.
    pub closed spec fn model(&self) -> Seq<char> {
        self.model@
    }

    /// The system prompt.
    pub closed spec fn prompt(&self) -> Seq<char> {
        self.prompt@
    }

    /// How many turns make a full window.
    pub closed spec fn capacity(&self) -> nat {
        self.messages_capacity as nat
    }

    /// The turns in the window, oldest first.
    pub closed spec fn turns(&self) -> Seq<ChatMessageView> {
        turn_views(self.messages@)
    }

    /// The window never holds more turns than its capacity.
    pub open spec fn wf(&self) -> bool {
        self.turns().len() <= self.capacity()
    }

    /// Whether `other` has the settings of `self`.
    pub open spec fn same_settings(&self, other: &Gpt) -> bool {
        &&& self.model() == other.model()
        &&& self.prompt() == other.prompt()
        &&& self.capacity() == other.capacity()
    }

    /// An empty window of the given capacity.
    pub fn new(model: String, prompt: String, capacity: usize) -> (gpt: Self)
        ensures
            gpt.wf(),
            gpt.model() == model@,
            gpt.prompt() == prompt@,
            gpt.capacity() == capacity,
            gpt.turns() == Seq::<ChatMessageView>::empty(),
    {
        let gpt = Gpt { model, prompt, messages_capacity: capacity, messages: VecDeque::new() };
        assert(gpt.turns() =~= Seq::<ChatMessageView>::empty());
        gpt
    }

    /// The name of the completion model.
    pub fn model_name(&self) -> (model: &String)
        ensures
            model@ == self.model(),
    {
        &self.model
    }

    /// The system prompt.
    pub fn system_prompt(&self) -> (prompt: &String)
        ensures
            prompt@ == self.prompt(),
    {
        &self.prompt
    }

    /// How many turns make a full window.
    pub fn messages_capacity(&self) -> (capacity: usize)
        ensures
            capacity == self.capacity(),
    {
        self.messages_capacity
    }

    /// How many turns the window holds.
    pub fn len(&self) -> (n: usize)
        ensures
            n == self.turns().len(),
    {
        self.messages.len()
    }

    /// Whether the window holds as many turns as its capacity asks for.
    pub fn is_full(&self) -> (full: bool)
        ensures
            full == (self.turns().len() >= self.capacity()),
    {
        self.messages.len() >= self.messages_capacity
    }

    /// Appends `history` in its order; whenever the window then holds more
    /// than its capacity, the oldest turn leaves.
    pub fn push(&mut self, history: Vec<ChatMessage>)
        requires
            old(self).wf(),
        ensures
            final(self).wf(),
            final(self).same_settings(old(self)),
            final(self).turns() == newest(
                old(self).turns() + turn_views(history@),
                old(self).capacity(),
            ),
    {
        let ghost before = self.turns();
        let ghost incoming = turn_views(history@);
        let ghost capacity = self.capacity();
        assert(incoming.take(0) =~= Seq::<ChatMessageView>::empty());
        assert(before + incoming.take(0) =~= before);
        for message in it: history
            invariant
                it.seq() == history@,
                incoming == turn_views(history@),
                capacity == self.capacity(),
                self.same_settings(old(self)),
                self.wf(),
                self.turns() == newest(before + incoming.take(it.index() as int), capacity),
        {
            let ghost k = it.index() as int;
            let ghost held = self.turns();
            let ghost added = message@;
            self.messages.push_back(message);
            assert(self.turns() =~= held.push(added));
            if self.messages.len() > self.messages_capacity {
                let ghost grown = self.turns();
                self.messages.pop_front();
                assert(self.turns() =~= grown.subrange(1, grown.len() as int));
            }
            assert(incoming.take(k + 1) =~= incoming.take(k).push(added));
            assert(before + incoming.take(k + 1) =~= (before + incoming.take(k)).push(added));
            assert(self.turns() =~= newest(before + incoming.take(k + 1), capacity));
        }
        assert(incoming.take(incoming.len() as int) =~= incoming);
    }

    /// Hands out the turns of the window, oldest first, and leaves it empty.
    pub fn drain(&mut self) -> (turns: Vec<ChatMessage>)
        ensures
            final(self).wf(),
            final(self).same_settings(old(self)),
            final(self).turns() == Seq::<ChatMessageView>::empty(),
            turn_views(turns@) == old(self).turns(),
    {
        let ghost before = self.turns();
        let mut turns: Vec<ChatMessage> = Vec::new();
        assert(turn_views(turns@) + self.turns() =~= before);
        while self.messages.len() > 0
            invariant
                self.same_settings(old(self)),
                turn_views(turns@) + self.turns() == before,
            decreases self.messages.len(),
        {
            let ghost taken = turn_views(turns@);
            let ghost held = self.turns();
            match self.messages.pop_front() {
                Some(message) => {
                    turns.push(message);
                    assert(turn_views(turns@) =~= taken.push(held[0]));
                    assert(self.turns() =~= held.subrange(1, held.len() as int));
                    assert(turn_views(turns@) + self.turns() =~= taken + held);
                },
                None => {},
            }
        }
        assert(self.turns() =~= Seq::<ChatMessageView>::empty());
        assert(turn_views(turns@) =~= turn_views(turns@) + self.turns());
        turns
    }

    /// The messages of the completion request for `turns`. Fewer turns than a
    /// full window make no request: `Ok(None)`. A full window always makes
    /// one: the result is never an error.
    pub fn request(&self, turns: &Vec<ChatMessage>) -> (request: Result<
        Option<Vec<CompletionMessage>>,
        GptError,
    >)
        ensures
            match request {
                Ok(Some(messages)) => {
                    &&& turns.len() >= self.capacity()
                    &&& message_views(messages@) == request_messages(
                        self.prompt(),
                        turn_views(turns@),
                    )
                },
                Ok(None) => turns.len() < self.capacity(),
                Err(_) => false,
            },
    {
        if turns.len() < self.messages_capacity {
            return Ok(None);
        }
        let ghost wanted = request_messages(self.prompt(), turn_views(turns@));
        let mut messages: Vec<CompletionMessage> = Vec::new();
        messages.push(
            CompletionMessage { role: Role::System, name: None, content: self.prompt.clone() },
        );
        assert(message_views(messages@) =~= wanted.take(1));
        let mut i: usize = 0;
        while i < turns.len()
            invariant
                i <= turns.len(),
                wanted == request_messages(self.prompt(), turn_views(turns@)),
                wanted.len() == turns.len() + 1,
                turns.len() >= self.capacity(),
                message_views(messages@) == wanted.take(i + 1),
            decreases turns.len() - i,
        {
            let turn = &turns[i];
            let content = match turn.text.to_json() {
                Ok(json) => json,
                Err(e) => {
                    return Err(e);
                },
            };
            let ghost built = message_views(messages@);
            let message = CompletionMessage {
                role: Role::User,
                name: clone_opt_text(&turn.user.name),
                content,
            };
            assert(message@ == user_message(turns[i as int]@));
            assert(wanted[i + 1] == user_message(turn_views(turns@)[i as int]));
            messages.push(message);
            assert(message_views(messages@) =~= built.push(message@));
            assert(wanted.take(i + 2) =~= wanted.take(i + 1).push(wanted[i + 1]));
            i += 1;
        }
        assert(wanted.take(turns.len() + 1) =~= wanted);
        Ok(Some(messages))
    }

    /// Takes `history` into the window and, if the window is then full, hands
    /// all of it out and leaves it empty. A window that is not full stays.
    pub fn query(&mut self, history: Vec<ChatMessage>) -> (flushed: Option<Vec<ChatMessage>>)
        requires
            old(self).wf(),
        ensures
            final(self).wf(),
            final(self).same_settings(old(self)),
            opt_turn_views(flushed) == flush_of(
                old(self).turns(),
                turn_views(history@),
                old(self).capacity(),
            ),
            final(self).turns() == rest_of(
                old(self).turns(),
                turn_views(history@),
                old(self).capacity(),
            ),
    {
        self.push(history);
        if self.is_full() {
            Some(self.drain())
        } else {
            None
        }
    }
}

/// The window that holds `held` after `incoming` has arrived, at the given
/// capacity.
pub open spec fn window_after(
    held: Seq<ChatMessageView>,
    incoming: Seq<ChatMessageView>,
    capacity: nat,
) -> Seq<ChatMessageView> {
    newest(held + incoming, capacity)
}

/// What the arrival of `incoming` flushes out of a window that holds `held`:
/// the whole window where it is then full, and nothing where it is not.
pub open spec fn flush_of(
    held: Seq<ChatMessageView>,
    incoming: Seq<ChatMessageView>,
    capacity: nat,
) -> Option<Seq<ChatMessageView>> {
    if window_after(held, incoming, capacity).len() >= capacity {
        Some(window_after(held, incoming, capacity))
    } else {
        None
    }
}

/// What the window holds once `incoming` has arrived and a full window has
/// been flushed.
pub open spec fn rest_of(
    held: Seq<ChatMessageView>,
    incoming: Seq<ChatMessageView>,
    capacity: nat,
) -> Seq<ChatMessageView> {
    if window_after(held, incoming, capacity).len() >= capacity {
        Seq::<ChatMessageView>::empty()
    } else {
        window_after(held, incoming, capacity)
    }
}

/// The views of what a flush handed out.
pub open spec fn opt_turn_views(flushed: Option<Vec<ChatMessage>>) -> Option<
    Seq<ChatMessageView>,
> {
    match flushed {
        Some(turns) => Some(turn_views(turns@)),
        None => None,
    }
}

/// The turn that fills the window flushes it: what comes out is every turn
/// that has arrived since the window was empty, in the order of arrival, as
/// many as the capacity, and the window is empty again.
pub proof fn lemma_flush_when_full(
    held: Seq<ChatMessageView>,
    incoming: Seq<ChatMessageView>,
    capacity: nat,
)
    requires
        held.len() + incoming.len() == capacity,
    ensures
        flush_of(held, incoming, capacity) == Some(held + incoming),
        (held + incoming).len() == capacity,
        rest_of(held, incoming, capacity) == Seq::<ChatMessageView>::empty(),
{
}

/// While fewer turns have arrived than the capacity, nothing is flushed and
/// every turn stays in the window, in the order of arrival.
pub proof fn lemma_no_flush_before_full(
    held: Seq<ChatMessageView>,
    incoming: Seq<ChatMessageView>,
    capacity: nat,
)
    requires
        held.len() + incoming.len() < capacity,
    ensures
        flush_of(held, incoming, capacity) is None,
        rest_of(held, incoming, capacity) == held + incoming,
{
}

/// A flush hands out as many turns as the capacity, and they are the newest
/// of those held and arrived; after any arrival the window holds fewer turns
/// than its capacity, or none.
pub proof fn lemma_flush_is_a_full_window(
    held: Seq<ChatMessageView>,
    incoming: Seq<ChatMessageView>,
    capacity: nat,
)
    requires
        held.len() <= capacity,
    ensures
        flush_of(held, incoming, capacity) matches Some(turns) ==> turns.len() == capacity
            && turns == newest(held + incoming, capacity),
        rest_of(held, incoming, capacity).len() <= capacity,
        capacity > 0 ==> rest_of(held, incoming, capacity).len() < capacity,
{
}

/// The window that held `held` after the turns of `arrivals` have come one
/// at a time, each flush taken as it fell due.
pub open spec fn window_after_each(
    held: Seq<ChatMessageView>,
    arrivals: Seq<ChatMessageView>,
    capacity: nat,
) -> Seq<ChatMessageView>
    decreases arrivals.len(),
{
    if arrivals.len() == 0 {
        held
    } else {
        rest_of(
            window_after_each(held, arrivals.drop_last(), capacity),
            seq![arrivals.last()],
            capacity,
        )
    }
}

/// The flushes that fell due while the turns of `arrivals` came one at a time
/// into a window that held `held`, in the order in which they fell due.
pub open spec fn flushes_of_each(
    held: Seq<ChatMessageView>,
    arrivals: Seq<ChatMessageView>,
    capacity: nat,
) -> Seq<Seq<ChatMessageView>>
    decreases arrivals.len(),
{
    if arrivals.len() == 0 {
        Seq::<Seq<ChatMessageView>>::empty()
    } else {
        let earlier = flushes_of_each(held, arrivals.drop_last(), capacity);
        match flush_of(
            window_after_each(held, arrivals.drop_last(), capacity),
            seq![arrivals.last()],
            capacity,
        ) {
            Some(turns) => earlier.push(turns),
            None => earlier,
        }
    }
}

/// Fewer turns than the capacity, coming one at a time into an empty window,
/// flush nothing and all stay, in the order of arrival.
pub proof fn lemma_window_fills(arrivals: Seq<ChatMessageView>, capacity: nat)
    requires
        arrivals.len() < capacity,
    ensures
        window_after_each(Seq::<ChatMessageView>::empty(), arrivals, capacity) == arrivals,
        flushes_of_each(Seq::<ChatMessageView>::empty(), arrivals, capacity) == Seq::<
            Seq<ChatMessageView>,
        >::empty(),
    decreases arrivals.len(),
{
    if arrivals.len() > 0 {
        lemma_window_fills(arrivals.drop_last(), capacity);
        assert(arrivals.drop_last() + seq![arrivals.last()] =~= arrivals);
    } else {
        assert(window_after_each(Seq::<ChatMessageView>::empty(), arrivals, capacity)
            =~= arrivals);
    }
}

/// As many turns as the capacity, coming one at a time into an empty window,
/// flush it once: when the last of them comes. The flush hands out exactly
/// these turns, in the order of arrival, and the window is empty after it.
pub proof fn lemma_one_flush_per_full_window(arrivals: Seq<ChatMessageView>, capacity: nat)
    requires
        capacity > 0,
        arrivals.len() == capacity,
    ensures
        flushes_of_each(Seq::<ChatMessageView>::empty(), arrivals, capacity) == seq![arrivals],
        window_after_each(Seq::<ChatMessageView>::empty(), arrivals, capacity) == Seq::<
            ChatMessageView,
        >::empty(),
{
    lemma_window_fills(arrivals.drop_last(), capacity);
    assert(arrivals.drop_last() + seq![arrivals.last()] =~= arrivals);
    assert(flushes_of_each(Seq::<ChatMessageView>::empty(), arrivals, capacity) =~= seq![
        arrivals,
    ]);
}

} // verus!
