use vstd::prelude::*;
use vstd::string::*;

verus! {

/// Number of most recent messages that are sent to a model provider.
pub const CONTEXT_WINDOW: usize = 10;

/// Who wrote a message.
#[derive(Clone, Copy, Debug, PartialEq, Eq, Structural)]
pub enum Role {
    User,
    Assistant,
    System,
}

pub open spec fn role_name(r: Role) -> Seq<char> {
    match r {
        Role::User => "user"@,
        Role::Assistant => "assistant"@,
        Role::System => "system"@,
    }
}

impl Role {
    /// The wire name of the role.
    pub fn as_str(&self) -> (r: &'static str)
        ensures
            r@ == role_name(*self),
    {
        match self {
            Role::User => "user",
            Role::Assistant => "assistant",
            Role::System => "system",
        }
    }
}

/// One message of a conversation; `timestamp` is in milliseconds since the epoch.
#[derive(Debug)]
pub struct Message {
    pub role: Role,
    pub content: String,
    pub timestamp: i64,
}

pub struct MessageView {
    pub role: Role,
    pub content: Seq<char>,
    pub timestamp: i64,
}

impl View for Message {
    type V = MessageView;

    open spec fn view(&self) -> MessageView {
        MessageView { role: self.role, content: self.content@, timestamp: self.timestamp }
    }
}

pub open spec fn messages_view(s: Seq<Message>) -> Seq<MessageView> {
    s.map_values(|m: Message| m@)
}

impl Message {
    pub fn new(role: Role, content: &str, timestamp: i64) -> (r: Message)
        ensures
            r@ == (MessageView { role, content: content@, timestamp }),
    {
        Message { role, content: String::from_str(content), timestamp }
    }

    /// A detached copy of the message.
    pub fn copy(&self) -> (r: Message)
        ensures
            r@ == self@,
    {
        Message { role: self.role, content: self.content.clone(), timestamp: self.timestamp }
    }
}

/// Copies a run of messages.
pub fn copy_messages(all: &[Message]) -> (r: Vec<Message>)
    ensures
        messages_view(r@) == messages_view(all@),
{
    let mut r: Vec<Message> = Vec::new();
    let mut i: usize = 0;
    while i < all.len()
        invariant
            i <= all@.len(),
            r@.len() == i,
            forall|k: int| 0 <= k < i ==> #[trigger] r@[k]@ == all@[k]@,
        decreases all@.len() - i,
    {
        r.push(all[i].copy());
        i += 1;
    }
    assert(messages_view(r@) =~= messages_view(all@));
    r
}

/// The last `n` elements of `s`, or all of them when there are fewer.
pub open spec fn last_n<A>(s: Seq<A>, n: nat) -> Seq<A> {
    if s.len() <= n {
        s
    } else {
        s.subrange(s.len() - n, s.len() as int)
    }
}

/// Copies the last `n` messages of `all`, in their order.
pub fn tail(all: &[Message], n: usize) -> (r: Vec<Message>)
    ensures
        messages_view(r@) == last_n(messages_view(all@), n as nat),
{
    let len = all.len();
    let start: usize = if len > n { len - n } else { 0 };
    let mut r: Vec<Message> = Vec::new();
    let mut i: usize = start;
    while i < len
        invariant
            start <= i <= len,
            len == all@.len(),
            r@.len() == i - start,
            forall|k: int| 0 <= k < i - start ==> #[trigger] r@[k]@ == all@[start + k]@,
        decreases len - i,
    {
        r.push(all[i].copy());
        i += 1;
    }
    assert(messages_view(r@) =~= last_n(messages_view(all@), n as nat));
    r
}

/// The later of two instants.
pub open spec fn later(a: i64, b: i64) -> i64 {
    if a < b {
        b
    } else {
        a
    }
}

/// A conversation; instants are in milliseconds since the epoch.
#[derive(Debug)]
pub struct Conversation {
    pub id: String,
    pub messages: Vec<Message>,
    pub created_at: i64,
    pub updated_at: i64,
}

pub struct ConversationView {
    pub id: Seq<char>,
    pub messages: Seq<MessageView>,
    pub created_at: i64,
    pub updated_at: i64,
}

impl View for Conversation {
    type V = ConversationView;

    open spec fn view(&self) -> ConversationView {
        ConversationView {
            id: self.id@,
            messages: messages_view(self.messages@),
            created_at: self.created_at,
            updated_at: self.updated_at,
        }
    }
}

impl ConversationView {
    /// The view after appending a message written by `role` at `now`: the
    /// update instant never goes back, and the message carries it.
    pub open spec fn appended(self, role: Role, content: Seq<char>, now: i64) -> ConversationView {
        let at = later(self.updated_at, now);
        ConversationView {
            messages: self.messages.push(MessageView { role, content, timestamp: at }),
            updated_at: at,
            ..self
        }
    }

    /// The creation instant precedes every message, and every message precedes
    /// the next one and the last update.
    pub open spec fn wf(self) -> bool {
        &&& self.created_at <= self.updated_at
        &&& forall|i: int|
            0 <= i < self.messages.len() ==> self.created_at <= #[trigger] self.messages[i].timestamp
                <= self.updated_at
        &&& forall|i: int, j: int|
            0 <= i < j < self.messages.len() ==> self.messages[i].timestamp
                <= self.messages[j].timestamp
    }
}

impl Conversation {
    /// An empty conversation created at `now`.
    pub fn new(id: &str, now: i64) -> (r: Conversation)
        ensures
            r@ == (ConversationView {
                id: id@,
                messages: Seq::empty(),
                created_at: now,
                updated_at: now,
            }),
            r@.wf(),
    {
        let r = Conversation {
            id: String::from_str(id),
            messages: Vec::new(),
            created_at: now,
            updated_at: now,
        };
        assert(r@.messages =~= Seq::empty());
        r
    }

    /// Appends a message written by `role` at `now`.
    pub fn append(&mut self, role: Role, content: &str, now: i64)
        ensures
            final(self)@ == old(self)@.appended(role, content@, now),
            old(self)@.wf() ==> final(self)@.wf(),
    {
        let at = if self.updated_at < now {
            now
        } else {
            self.updated_at
        };
        self.messages.push(Message::new(role, content, at));
        self.updated_at = at;
        assert(self@.messages =~= old(self)@.messages.push(
            MessageView { role, content: content@, timestamp: at },
        ));
    }

    /// A detached copy of the conversation.
    pub fn snapshot(&self) -> (r: Conversation)
        ensures
            r@ == self@,
    {
        Conversation {
            id: self.id.clone(),
            messages: copy_messages(self.messages.as_slice()),
            created_at: self.created_at,
            updated_at: self.updated_at,
        }
    }
}

} // verus!
