use vstd::prelude::*;
use vstd::string::*;

use crate::conversation::{last_n, ConversationView, MessageView, Role};
use crate::store::{after_reply, after_user_turn, fresh_view};

verus! {

/// One completed turn, as the store sees it.
pub struct TurnRecord {
    pub user: Seq<char>,
    pub reply: Seq<char>,
    pub asked_at: i64,
    pub answered_at: i64,
}

/// The store after `turns` ran, in order, on conversation `id`.
pub open spec fn play_turns(
    m: Map<Seq<char>, ConversationView>,
    id: Seq<char>,
    turns: Seq<TurnRecord>,
) -> Map<Seq<char>, ConversationView>
    decreases turns.len(),
{
    if turns.len() == 0 {
        m
    } else {
        let before = play_turns(m, id, turns.drop_last());
        let t = turns.last();
        let asked = before.insert(id, after_user_turn(before, id, t.user, t.asked_at));
        after_reply(asked, id, t.reply, t.answered_at)
    }
}

/// The roles and texts that `turns` leave behind: each user message followed
/// by its reply.
pub open spec fn transcript(turns: Seq<TurnRecord>) -> Seq<(Role, Seq<char>)>
    decreases turns.len(),
{
    if turns.len() == 0 {
        Seq::empty()
    } else {
        transcript(turns.drop_last()).push((Role::User, turns.last().user)).push(
            (Role::Assistant, turns.last().reply),
        )
    }
}

pub open spec fn role_and_text(s: Seq<MessageView>) -> Seq<(Role, Seq<char>)> {
    s.map_values(|mv: MessageView| (mv.role, mv.content))
}

/// Concatenation of streamed tokens.
pub open spec fn concat_all(tokens: Seq<Seq<char>>) -> Seq<char>
    decreases tokens.len(),
{
    if tokens.len() == 0 {
        Seq::empty()
    } else {
        concat_all(tokens.drop_last()) + tokens.last()
    }
}

/// The messages that conversation `id` holds in `m`; none if it is not there.
pub open spec fn prior_messages(m: Map<Seq<char>, ConversationView>, id: Seq<char>) -> Seq<
    MessageView,
> {
    if m.contains_key(id) {
        m[id].messages
    } else {
        Seq::empty()
    }
}

/// A run of turns on one conversation id appends exactly the user and
/// assistant messages in call order to what the conversation held, keeps its
/// instants well ordered, and each turn moves the update instant forward or
/// leaves it.
pub proof fn lemma_turns_interleave(
    m: Map<Seq<char>, ConversationView>,
    id: Seq<char>,
    turns: Seq<TurnRecord>,
)
    requires
        m.contains_key(id) ==> m[id].wf(),
    ensures
        turns.len() > 0 ==> play_turns(m, id, turns).contains_key(id),
        turns.len() > 0 ==> role_and_text(play_turns(m, id, turns)[id].messages) == role_and_text(
            prior_messages(m, id),
        ) + transcript(turns),
        turns.len() > 0 ==> play_turns(m, id, turns)[id].wf(),
        turns.len() > 1 ==> play_turns(m, id, turns.drop_last())[id].updated_at <= play_turns(
            m,
            id,
            turns,
        )[id].updated_at,
    decreases turns.len(),
{
    if turns.len() > 0 {
        let rest = turns.drop_last();
        lemma_turns_interleave(m, id, rest);
        let before = play_turns(m, id, rest);
        let t = turns.last();
        let start = if before.contains_key(id) {
            before[id]
        } else {
            fresh_view(id, t.asked_at)
        };
        let earlier = role_and_text(prior_messages(m, id));
        assert(role_and_text(start.messages) =~= earlier + transcript(rest));
        assert(start.wf());
        let asked = start.appended(Role::User, t.user, t.asked_at);
        let done = asked.appended(Role::Assistant, t.reply, t.answered_at);
        assert(play_turns(m, id, turns)[id] == done);
        assert(role_and_text(done.messages) =~= role_and_text(start.messages).push(
            (Role::User, t.user),
        ).push((Role::Assistant, t.reply)));
        assert((earlier + transcript(rest)).push((Role::User, t.user)).push(
            (Role::Assistant, t.reply),
        ) =~= earlier + transcript(turns));
    }
}

/// Only the last ten messages of a longer conversation go to the provider,
/// in their order.
pub proof fn lemma_window_is_last_ten(s: Seq<MessageView>)
    requires
        s.len() > 10,
    ensures
        last_n(s, 10).len() == 10,
        forall|i: int| 0 <= i < 10 ==> #[trigger] last_n(s, 10)[i] == s[s.len() - 10 + i],
{
}

/// When the provider fails, the turn leaves the user's message as the last one
/// of the conversation and adds nothing else.
pub proof fn lemma_failed_turn_keeps_user_message(
    m: Map<Seq<char>, ConversationView>,
    id: Seq<char>,
    user_message: Seq<char>,
    now: i64,
)
    ensures
        ({
            let c = after_user_turn(m, id, user_message, now);
            let prior = if m.contains_key(id) {
                m[id].messages
            } else {
                Seq::<MessageView>::empty()
            };
            &&& c.messages.len() == prior.len() + 1
            &&& c.messages.drop_last() == prior
            &&& c.messages.last().role == Role::User
            &&& c.messages.last().content == user_message
        }),
{
    let c = after_user_turn(m, id, user_message, now);
    assert(c.messages.drop_last() =~= (if m.contains_key(id) {
        m[id].messages
    } else {
        Seq::<MessageView>::empty()
    }));
}

/// Collects the tokens of a streamed reply.
pub struct ReplyBuffer {
    text: String,
    tokens: Ghost<Seq<Seq<char>>>,
}

impl ReplyBuffer {
    /// The tokens taken so far.
    pub closed spec fn tokens(&self) -> Seq<Seq<char>> {
        self.tokens@
    }

    /// The reply collected so far.
    pub closed spec fn text_view(&self) -> Seq<char> {
        self.text@
    }

    pub closed spec fn wf(&self) -> bool {
        self.text@ == concat_all(self.tokens@)
    }

    pub fn new() -> (r: ReplyBuffer)
        ensures
            r.wf(),
            r.tokens() == Seq::<Seq<char>>::empty(),
            r.text_view() == Seq::<char>::empty(),
    {
        ReplyBuffer { text: String::new(), tokens: Ghost(Seq::empty()) }
    }

    /// Takes the next token.
    pub fn push(&mut self, token: &str)
        requires
            old(self).wf(),
        ensures
            final(self).wf(),
            final(self).tokens() == old(self).tokens().push(token@),
            final(self).text_view() == old(self).text_view() + token@,
    {
        self.text.append(token);
        self.tokens = Ghost(self.tokens@.push(token@));
        assert(self.tokens@.drop_last() =~= old(self).tokens@);
    }

    /// The reply collected so far: the tokens taken, joined in order.
    pub fn text(&self) -> (r: &str)
        requires
            self.wf(),
        ensures
            r@ == concat_all(self.tokens()),
            r@ == self.text_view(),
    {
        self.text.as_str()
    }
}

/// After a streamed turn, the assistant message that the store records is the
/// concatenation of the tokens that were handed to the caller.
pub proof fn lemma_streamed_reply_is_concatenation(
    m: Map<Seq<char>, ConversationView>,
    id: Seq<char>,
    tokens: Seq<Seq<char>>,
    now: i64,
)
    requires
        m.contains_key(id),
    ensures
        after_reply(m, id, concat_all(tokens), now)[id].messages.last() == (MessageView {
            role: Role::Assistant,
            content: concat_all(tokens),
            timestamp: after_reply(m, id, concat_all(tokens), now)[id].updated_at,
        }),
{
}

} // verus!
