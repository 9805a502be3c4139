use vstd::prelude::*;
use vstd::string::*;

use crate::conversation::{
    last_n, messages_view, tail, Conversation, ConversationView, Message, Role, CONTEXT_WINDOW,
};

verus! {

/// The view of an empty conversation created at `now`.
pub open spec fn fresh_view(id: Seq<char>, now: i64) -> ConversationView {
    ConversationView { id, messages: Seq::empty(), created_at: now, updated_at: now }
}

/// What a turn starts from: the stored conversation, or a fresh one.
pub open spec fn existing_or_fresh(
    m: Map<Seq<char>, ConversationView>,
    id: Seq<char>,
    now: i64,
) -> ConversationView {
    if m.contains_key(id) {
        m[id]
    } else {
        fresh_view(id, now)
    }
}

/// The conversation right after the user's message of a turn is appended.
pub open spec fn after_user_turn(
    m: Map<Seq<char>, ConversationView>,
    id: Seq<char>,
    user_message: Seq<char>,
    now: i64,
) -> ConversationView {
    existing_or_fresh(m, id, now).appended(Role::User, user_message, now)
}

/// The store after the assistant's reply of a turn is recorded: a conversation
/// that is not there is left alone.
pub open spec fn after_reply(
    m: Map<Seq<char>, ConversationView>,
    id: Seq<char>,
    reply: Seq<char>,
    now: i64,
) -> Map<Seq<char>, ConversationView> {
    if m.contains_key(id) {
        m.insert(id, m[id].appended(Role::Assistant, reply, now))
    } else {
        m
    }
}

/// What the first half of a turn hands out: the messages for the provider
/// and, where persistence is on, a detached copy of the conversation.
pub struct TurnStart {
    pub window: Vec<Message>,
    pub snapshot: Option<Conversation>,
}

/// The in-memory registry of conversations, keyed by id.
pub struct ConversationStore {
    entries: Vec<Conversation>,
}

impl ConversationStore {
    /// Ids are unique, and each conversation is well formed.
    pub closed spec fn wf(&self) -> bool {
        &&& forall|i: int, j: int|
            0 <= i < j < self.entries@.len() ==> self.entries@[i].id@
                != self.entries@[j].id@
        &&& forall|i: int| 0 <= i < self.entries@.len() ==> (#[trigger] self.entries@[i])@.wf()
    }

    closed spec fn holds(&self, k: Seq<char>) -> bool {
        exists|i: int| 0 <= i < self.entries@.len() && self.entries@[i].id@ == k
    }

    closed spec fn position(&self, k: Seq<char>) -> int {
        choose|i: int| 0 <= i < self.entries@.len() && self.entries@[i].id@ == k
    }

    /// The conversations by id.
    pub closed spec fn view(&self) -> Map<Seq<char>, ConversationView> {
        Map::new(|k: Seq<char>| self.holds(k), |k: Seq<char>| self.entries@[self.position(k)]@)
    }

    proof fn lemma_at(&self, i: int)
        requires
            self.wf(),
            0 <= i < self.entries@.len(),
        ensures
            self.view().contains_key(self.entries@[i].id@),
            self.view()[self.entries@[i].id@] == self.entries@[i]@,
    {
        let k = self.entries@[i].id@;
        assert(self.holds(k));
        let p = self.position(k);
        assert(p == i) by {
            if p < i {
                assert(self.entries@[p].id@ != self.entries@[i].id@);
            } else if p > i {
                assert(self.entries@[i].id@ != self.entries@[p].id@);
            }
        }
    }

    /// Every stored conversation is well formed and is filed under its own id.
    pub proof fn lemma_view_wf(&self)
        requires
            self.wf(),
        ensures
            forall|k: Seq<char>|
                #[trigger] self.view().contains_key(k) ==> self.view()[k].id == k
                    && self.view()[k].wf(),
    {
        assert forall|k: Seq<char>| #[trigger] self.view().contains_key(k) implies self.view()[k].id
            == k && self.view()[k].wf() by {
            let p = self.position(k);
            self.lemma_at(p);
        }
    }

    /// An empty store.
    pub fn new() -> (r: ConversationStore)
        ensures
            r.wf(),
            r.view() == Map::<Seq<char>, ConversationView>::empty(),
    {
        let r = ConversationStore { entries: Vec::new() };
        assert(r.view() =~= Map::<Seq<char>, ConversationView>::empty());
        r
    }

    fn find(&self, id: &String) -> (r: Option<usize>)
        requires
            self.wf(),
        ensures
            match r {
                Some(i) => i < self.entries@.len() && self.entries@[i as int].id@ == id@,
                None => !self.view().contains_key(id@),
            },
    {
        let mut i: usize = 0;
        while i < self.entries.len()
            invariant
                i <= self.entries@.len(),
                forall|j: int| 0 <= j < i ==> self.entries@[j].id@ != id@,
            decreases self.entries@.len() - i,
        {
            if self.entries[i].id == *id {
                return Some(i);
            }
            i += 1;
        }
        None
    }

    /// The conversation stored under `id`, if any.
    pub fn get(&self, id: &str) -> (r: Option<&Conversation>)
        requires
            self.wf(),
        ensures
            r is Some <==> self.view().contains_key(id@),
            r is Some ==> r->0@ == self.view()[id@],
    {
        let key = String::from_str(id);
        match self.find(&key) {
            Some(i) => {
                proof {
                    self.lemma_at(i as int);
                }
                Some(&self.entries[i])
            },
            None => None,
        }
    }

    /// Replaces the conversation at `i` by one with the same id.
    proof fn lemma_replaced(old_s: &Self, new_s: &Self, i: int)
        requires
            old_s.wf(),
            0 <= i < old_s.entries@.len(),
            new_s.entries@.len() == old_s.entries@.len(),
            forall|j: int| 0 <= j < old_s.entries@.len() && j != i ==> new_s.entries@[j] == old_s.entries@[j],
            new_s.entries@[i].id@ == old_s.entries@[i].id@,
            new_s.entries@[i]@.wf(),
        ensures
            new_s.wf(),
            new_s.view() == old_s.view().insert(old_s.entries@[i].id@, new_s.entries@[i]@),
    {
        let k = old_s.entries@[i].id@;
        assert(new_s.wf());
        assert forall|q: Seq<char>| #[trigger] new_s.view().contains_key(q) <==> old_s.view().insert(k, new_s.entries@[i]@).contains_key(q) by {
            if old_s.holds(q) {
                let p = old_s.position(q);
                assert(new_s.entries@[p].id@ == q);
            }
            if new_s.holds(q) {
                let p = new_s.position(q);
                assert(old_s.entries@[p].id@ == q);
            }
        }
        assert forall|q: Seq<char>| #[trigger] new_s.view().contains_key(q) implies new_s.view()[q]
            == old_s.view().insert(k, new_s.entries@[i]@)[q] by {
            let p = new_s.position(q);
            new_s.lemma_at(p);
            if q != k {
                old_s.lemma_at(p);
            } else {
                new_s.lemma_at(i);
            }
        }
        assert(new_s.view() =~= old_s.view().insert(k, new_s.entries@[i]@));
    }

    /// Adds a conversation under a new id.
    proof fn lemma_added(old_s: &Self, new_s: &Self, c: ConversationView)
        requires
            old_s.wf(),
            !old_s.view().contains_key(c.id),
            new_s.entries@.len() == old_s.entries@.len() + 1,
            forall|j: int| 0 <= j < old_s.entries@.len() ==> new_s.entries@[j] == old_s.entries@[j],
            new_s.entries@.last()@ == c,
            c.wf(),
        ensures
            new_s.wf(),
            new_s.view() == old_s.view().insert(c.id, c),
    {
        let n = old_s.entries@.len() as int;
        assert forall|j: int| 0 <= j < n implies new_s.entries@[j].id@ != c.id by {
            old_s.lemma_at(j);
        }
        assert(new_s.wf());
        assert forall|q: Seq<char>| #[trigger] new_s.view().contains_key(q) <==> old_s.view().insert(c.id, c).contains_key(q) by {
            if old_s.holds(q) {
                let p = old_s.position(q);
                assert(new_s.entries@[p].id@ == q);
            }
            if q == c.id {
                assert(new_s.entries@[n].id@ == q);
            }
            if new_s.holds(q) {
                let p = new_s.position(q);
                if p < n {
                    assert(old_s.entries@[p].id@ == q);
                }
            }
        }
        assert forall|q: Seq<char>| #[trigger] new_s.view().contains_key(q) implies new_s.view()[q]
            == old_s.view().insert(c.id, c)[q] by {
            let p = new_s.position(q);
            new_s.lemma_at(p);
            if p < n {
                old_s.lemma_at(p);
            }
        }
        assert(new_s.view() =~= old_s.view().insert(c.id, c));
    }

    /// Appends a message to the conversation at `i`.
    fn append_at(&mut self, i: usize, role: Role, content: &str, now: i64)
        requires
            old(self).wf(),
            i < old(self).entries@.len(),
        ensures
            final(self).wf(),
            final(self).entries@.len() == old(self).entries@.len(),
            final(self).entries@[i as int].id@ == old(self).entries@[i as int].id@,
            final(self).view() == old(self).view().insert(
                old(self).entries@[i as int].id@,
                old(self).entries@[i as int]@.appended(role, content@, now),
            ),
    {
        let mut c = self.entries.remove(i);
        proof {
            assert(old(self).entries@[i as int]@.wf());
        }
        c.append(role, content, now);
        self.entries.insert(i, c);
        proof {
            ConversationStore::lemma_replaced(old(self), self, i as int);
        }
    }

    /// First half of a turn: files the user's message under `id` (creating the
    /// conversation at `now` if the id is new) and returns the last messages for
    /// the provider, with a copy of the conversation if `keep_snapshot` is set.
    pub fn begin_turn(&mut self, id: &str, user_message: &str, now: i64, keep_snapshot: bool) -> (r:
        TurnStart)
        requires
            old(self).wf(),
        ensures
            final(self).wf(),
            final(self).view() == old(self).view().insert(
                id@,
                after_user_turn(old(self).view(), id@, user_message@, now),
            ),
            messages_view(r.window@) == last_n(
                after_user_turn(old(self).view(), id@, user_message@, now).messages,
                CONTEXT_WINDOW as nat,
            ),
            r.snapshot is Some <==> keep_snapshot,
            r.snapshot is Some ==> r.snapshot->0@ == after_user_turn(
                old(self).view(),
                id@,
                user_message@,
                now,
            ),
    {
        let key = String::from_str(id);
        let i = match self.find(&key) {
            Some(i) => {
                proof {
                    self.lemma_at(i as int);
                }
                i
            },
            None => {
                let c = Conversation::new(id, now);
                let ghost before = *self;
                self.entries.push(c);
                proof {
                    ConversationStore::lemma_added(&before, self, c@);
                }
                self.entries.len() - 1
            },
        };
        let ghost mid = *self;
        proof {
            mid.lemma_at(i as int);
        }
        self.append_at(i, Role::User, user_message, now);
        proof {
            self.lemma_at(i as int);
        }
        let conv = &self.entries[i];
        let window = tail(conv.messages.as_slice(), CONTEXT_WINDOW);
        let snapshot = if keep_snapshot {
            Some(conv.snapshot())
        } else {
            None
        };
        TurnStart { window, snapshot }
    }

    /// Second half of a turn: appends the assistant's reply to the
    /// conversation under `id`; an id that is not there is ignored.
    pub fn record_reply(&mut self, id: &str, reply: &str, now: i64)
        requires
            old(self).wf(),
        ensures
            final(self).wf(),
            final(self).view() == after_reply(old(self).view(), id@, reply@, now),
    {
        let key = String::from_str(id);
        match self.find(&key) {
            Some(i) => {
                proof {
                    self.lemma_at(i as int);
                }
                self.append_at(i, Role::Assistant, reply, now);
            },
            None => {},
        }
    }
}

} // verus!
