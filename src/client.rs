use vstd::prelude::*;
use vstd::string::*;

use crate::conversation::{last_n, messages_view, Conversation, Message, MessageView, Role, CONTEXT_WINDOW};
use crate::store::{after_reply, after_user_turn, ConversationStore};
use crate::turns::{concat_all, ReplyBuffer};
use crate::validation::uuid_text_ok;

verus! {

/// The kinds of model provider.
#[derive(Clone, Copy, Debug, PartialEq, Eq, Structural)]
pub enum LlmProvider {
    Ollama,
}

/// A failed provider call: network failure, non-success status or a malformed body.
#[derive(Debug)]
pub struct ProviderError {
    pub message: String,
}

/// Relies on `uuid::Uuid::new_v4` and its hyphenated `to_string`: a random
/// identifier of 36 characters, which `uuid::Uuid::parse_str` accepts.
#[verifier::external_body]
fn new_conversation_id() -> (r: String)
    ensures
        r@.len() == 36,
        uuid_text_ok(r@),
{
    uuid::Uuid::new_v4().to_string()
}

/// The id of a turn: the one supplied, or a freshly generated UUID.
pub open spec fn turn_id_ok(given: Option<String>, id: Seq<char>) -> bool {
    match given {
        Some(g) => id == g@,
        None => id.len() == 36 && uuid_text_ok(id),
    }
}

/// The messages of a stateless turn: the user's message alone, written at `now`.
pub fn single_turn(user_message: &str, now: i64) -> (r: Vec<Message>)
    ensures
        messages_view(r@) == seq![MessageView { role: Role::User, content: user_message@, timestamp: now }],
{
    let r = vec![Message::new(Role::User, user_message, now)];
    assert(messages_view(r@) =~= seq![MessageView { role: Role::User, content: user_message@, timestamp: now }]);
    r
}

/// A turn between its two halves: the provider is called with `window`
/// while no lock is held.
pub struct PendingTurn {
    pub conversation_id: String,
    /// The messages to send to the provider.
    pub window: Vec<Message>,
    /// A detached copy of the conversation for the persistence sink, taken
    /// when persistence is configured.
    pub snapshot: Option<Conversation>,
}

/// The result of a completed blocking turn.
pub struct TurnOutcome {
    pub reply: String,
    pub conversation_id: String,
    /// The conversation with the reply, for the persistence sink; present
    /// exactly when persistence is configured.
    pub snapshot: Option<Conversation>,
}

/// First half of a turn (blocking or streaming): picks the conversation id
/// (generating one when absent), files the user's message under it, and
/// returns the last messages for the provider, with a snapshot if
/// `keep_snapshot` is set. Other conversations are untouched.
pub fn start_turn(
    store: &mut ConversationStore,
    conversation_id: Option<String>,
    user_message: &str,
    now: i64,
    keep_snapshot: bool,
) -> (r: PendingTurn)
    requires
        old(store).wf(),
    ensures
        final(store).wf(),
        turn_id_ok(conversation_id, r.conversation_id@),
        final(store).view() == old(store).view().insert(
            r.conversation_id@,
            after_user_turn(old(store).view(), r.conversation_id@, user_message@, now),
        ),
        messages_view(r.window@) == last_n(
            after_user_turn(old(store).view(), r.conversation_id@, user_message@, now).messages,
            CONTEXT_WINDOW as nat,
        ),
        r.snapshot is Some <==> keep_snapshot,
        r.snapshot is Some ==> r.snapshot->0@ == after_user_turn(
            old(store).view(),
            r.conversation_id@,
            user_message@,
            now,
        ),
{
    let id = match conversation_id {
        Some(id) => id,
        None => new_conversation_id(),
    };
    let start = store.begin_turn(id.as_str(), user_message, now, keep_snapshot);
    PendingTurn { conversation_id: id, window: start.window, snapshot: start.snapshot }
}

/// Second half of a blocking turn, given what the provider answered. On a
/// reply, it is appended to the live conversation (skipped if that is gone)
/// and to the snapshot; on an error the store is left as it is and the
/// provider's error is handed back unchanged.
pub fn finish_turn(
    store: &mut ConversationStore,
    pending: PendingTurn,
    answer: Result<String, ProviderError>,
    now: i64,
) -> (r: Result<TurnOutcome, ProviderError>)
    requires
        old(store).wf(),
    ensures
        final(store).wf(),
        match answer {
            Ok(reply) => {
                &&& final(store).view() == after_reply(
                    old(store).view(),
                    pending.conversation_id@,
                    reply@,
                    now,
                )
                &&& r is Ok
                &&& r->Ok_0.reply@ == reply@
                &&& r->Ok_0.conversation_id@ == pending.conversation_id@
                &&& (r->Ok_0.snapshot is Some <==> pending.snapshot is Some)
                &&& r->Ok_0.snapshot is Some ==> r->Ok_0.snapshot->0@
                    == pending.snapshot->0@.appended(Role::Assistant, reply@, now)
            },
            Err(e) => {
                &&& final(store).view() == old(store).view()
                &&& r == Err::<TurnOutcome, ProviderError>(e)
            },
        },
{
    let reply = match answer {
        Ok(text) => text,
        Err(e) => return Err(e),
    };
    store.record_reply(pending.conversation_id.as_str(), reply.as_str(), now);
    let snapshot = match pending.snapshot {
        Some(mut c) => {
            c.append(Role::Assistant, reply.as_str(), now);
            Some(c)
        },
        None => None,
    };
    Ok(TurnOutcome { reply, conversation_id: pending.conversation_id, snapshot })
}

/// What the relay of a streamed reply does with the next element.
pub enum StreamStep<E> {
    /// Hand this token to the caller.
    Token(String),
    /// Hand this error to the caller and stop; nothing is recorded.
    Failed(E),
    /// The stream is over: record the collected reply.
    Ended,
}

/// One step of relaying a streamed reply: a token is collected and passed
/// on, an error ends the relay without touching what was collected, and the
/// end of the stream asks for the reply to be recorded.
pub fn relay_step<E>(reply: &mut ReplyBuffer, item: Option<Result<String, E>>) -> (r: StreamStep<E>)
    requires
        old(reply).wf(),
    ensures
        final(reply).wf(),
        match item {
            Some(Ok(t)) => {
                &&& final(reply).tokens() == old(reply).tokens().push(t@)
                &&& r is Token
                &&& r->Token_0@ == t@
            },
            Some(Err(e)) => {
                &&& final(reply).tokens() == old(reply).tokens()
                &&& r == StreamStep::<E>::Failed(e)
            },
            None => {
                &&& final(reply).tokens() == old(reply).tokens()
                &&& r is Ended
            },
        },
{
    match item {
        Some(Ok(t)) => {
            reply.push(t.as_str());
            StreamStep::Token(t)
        },
        Some(Err(e)) => StreamStep::Failed(e),
        None => StreamStep::Ended,
    }
}

/// Second half of a streaming turn that ran to its end: the tokens relayed
/// to the caller, joined in order, become the assistant's message.
pub fn finish_stream(store: &mut ConversationStore, conversation_id: &str, reply: &ReplyBuffer, now: i64)
    requires
        old(store).wf(),
        reply.wf(),
    ensures
        final(store).wf(),
        final(store).view() == after_reply(
            old(store).view(),
            conversation_id@,
            concat_all(reply.tokens()),
            now,
        ),
{
    store.record_reply(conversation_id, reply.text(), now);
}

} // verus!
