use vstd::prelude::*;
use vstd::string::*;

use crate::conversation::{role_name, Message, MessageView};

verus! {

/// Name of the collection that conversations are stored in by default.
pub const DEFAULT_COLLECTION: &'static str = "conversations";

/// Base URL of the local model server by default.
pub const DEFAULT_OLLAMA_URL: &'static str = "http://localhost:11434";

/// URL of the vector store by default.
pub const DEFAULT_QDRANT_URL: &'static str = "http://localhost:6334";

/// Dimension of the placeholder vector stored with each conversation.
pub const VECTOR_SIZE: u64 = 1536;

/// A message as the model server reads it.
pub struct WireMessage {
    pub role: String,
    pub content: String,
}

/// The body of a chat request to the model server.
pub struct ChatRequest {
    pub model: String,
    pub messages: Vec<WireMessage>,
    pub stream: bool,
}

pub open spec fn wire_matches(w: Seq<WireMessage>, m: Seq<Message>) -> bool {
    &&& w.len() == m.len()
    &&& forall|i: int|
        0 <= i < w.len() ==> #[trigger] w[i].role@ == role_name(m[i].role) && w[i].content@
            == m[i].content@
}

/// The request that asks `model` to answer `messages`, streamed or not.
pub fn chat_request(model: &str, messages: &[Message], stream: bool) -> (r: ChatRequest)
    ensures
        r.model@ == model@,
        r.stream == stream,
        wire_matches(r.messages@, messages@),
{
    let mut out: Vec<WireMessage> = Vec::new();
    let mut i: usize = 0;
    while i < messages.len()
        invariant
            i <= messages@.len(),
            wire_matches(out@, messages@.subrange(0, i as int)),
        decreases messages@.len() - i,
    {
        let m = &messages[i];
        out.push(
            WireMessage { role: String::from_str(m.role.as_str()), content: m.content.clone() },
        );
        i += 1;
        assert forall|k: int| 0 <= k < out@.len() implies #[trigger] out@[k].role@ == role_name(
            messages@.subrange(0, i as int)[k].role,
        ) && out@[k].content@ == messages@.subrange(0, i as int)[k].content@ by {
            if k < i - 1 {
                assert(messages@.subrange(0, i as int)[k] == messages@.subrange(0, i - 1)[k]);
            }
        }
    }
    assert(messages@.subrange(0, messages@.len() as int) =~= messages@);
    ChatRequest { model: String::from_str(model), messages: out, stream }
}

/// The chat endpoint under `base_url`.
pub fn chat_url(base_url: &str) -> (r: String)
    ensures
        r@ == base_url@ + "/api/chat"@,
{
    let mut r = String::from_str(base_url);
    r.append("/api/chat");
    r
}

/// The configured value, or `default` when none is set.
pub fn or_default(value: Option<String>, default: &str) -> (r: String)
    ensures
        r@ == match value {
            Some(v) => v@,
            None => default@,
        },
{
    match value {
        Some(v) => v,
        None => String::from_str(default),
    }
}

pub open spec fn rest_port() -> Seq<char> {
    ":6333"@
}

pub open spec fn rpc_port() -> Seq<char> {
    ":6334"@
}

/// `s` with every `:6333`, read from the left without overlaps, made `:6334`.
pub open spec fn rpc_url_of(s: Seq<char>) -> Seq<char>
    decreases s.len(),
{
    if s.len() == 0 {
        s
    } else if s.len() >= 5 && s.subrange(0, 5) == rest_port() {
        rpc_port() + rpc_url_of(s.skip(5))
    } else {
        seq![s[0]] + rpc_url_of(s.drop_first())
    }
}

/// The vector store's RPC address for a configured URL: the REST port
/// `:6333` becomes the RPC port `:6334`.
pub fn rpc_url(raw: &str) -> (r: String)
    ensures
        r@ == rpc_url_of(raw@),
{
    let n = raw.unicode_len();
    let mut i: usize = 0;
    let mut out = String::new();
    proof {
        reveal_strlit(":6333");
        assert(raw@.skip(0) =~= raw@);
        assert(out@ + rpc_url_of(raw@) =~= rpc_url_of(raw@));
    }
    while i < n
        invariant
            n == raw@.len(),
            i <= n,
            out@ + rpc_url_of(raw@.skip(i as int)) == rpc_url_of(raw@),
        decreases n - i,
    {
        let ghost rest = raw@.skip(i as int);
        if n - i >= 5 && raw.get_char(i) == ':' && raw.get_char(i + 1) == '6' && raw.get_char(i + 2)
            == '3' && raw.get_char(i + 3) == '3' && raw.get_char(i + 4) == '3' {
            assert(rest.subrange(0, 5) =~= rest_port()) by {
                reveal_strlit(":6333");
            }
            assert(rest.skip(5) =~= raw@.skip(i + 5));
            let ghost before = out@;
            out.append(":6334");
            assert(out@ + rpc_url_of(raw@.skip(i + 5)) =~= before + rpc_url_of(rest));
            i += 5;
        } else {
            proof {
                reveal_strlit(":6333");
                if rest.len() >= 5 && rest.subrange(0, 5) == rest_port() {
                    assert(rest.subrange(0, 5)[0] == ':');
                    assert(rest.subrange(0, 5)[1] == '6');
                    assert(rest.subrange(0, 5)[2] == '3');
                    assert(rest.subrange(0, 5)[3] == '3');
                    assert(rest.subrange(0, 5)[4] == '3');
                }
            }
            assert(rest.drop_first() =~= raw@.skip(i + 1));
            let ghost before = out@;
            out.append(raw.substring_char(i, i + 1));
            assert(raw@.subrange(i as int, i + 1) =~= seq![rest[0]]);
            assert(out@ + rpc_url_of(raw@.skip(i + 1)) =~= before + rpc_url_of(rest));
            i += 1;
        }
    }
    assert(raw@.skip(n as int) =~= Seq::<char>::empty());
    assert(out@ + Seq::<char>::empty() =~= out@);
    out
}

/// Whether a collection named `name` is among `names`.
pub fn collection_exists(names: &Vec<String>, name: &str) -> (r: bool)
    ensures
        r == exists|i: int| 0 <= i < names@.len() && #[trigger] names@[i]@ == name@,
{
    let key = String::from_str(name);
    let mut i: usize = 0;
    while i < names.len()
        invariant
            i <= names@.len(),
            key@ == name@,
            forall|j: int| 0 <= j < i ==> names@[j]@ != name@,
        decreases names@.len() - i,
    {
        if names[i] == key {
            assert(names@[i as int]@ == name@);
            return true;
        }
        i += 1;
    }
    false
}

} // verus!
