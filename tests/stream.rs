use llm_core::stream::StreamDecoder;
use llm_core::wire::{
    chat_request, chat_url, collection_exists, or_default, rpc_url, DEFAULT_COLLECTION,
    DEFAULT_OLLAMA_URL,
};
use llm_core::conversation::{Message, Role};

fn line(content: &str, done: bool) -> String {
    format!("{{\"message\":{{\"role\":\"assistant\",\"content\":\"{}\"}},\"done\":{}}}\n", content, done)
}

#[test]
fn chunks_he_llo_then_done() {
    let mut d = StreamDecoder::new();
    let mut tokens: Vec<String> = Vec::new();
    for chunk in [line("He", false), line("llo", false), line("", true)] {
        tokens.extend(d.feed(chunk.as_bytes()));
    }
    assert_eq!(tokens, vec!["He".to_string(), "llo".to_string()]);
    assert!(d.finished());
    assert_eq!(tokens.concat(), "Hello");
}

#[test]
fn partial_lines_are_buffered() {
    let all = format!("{}{}", line("ab", false), line("cd", true));
    let bytes = all.as_bytes();
    for cut in 0..bytes.len() {
        let mut d = StreamDecoder::new();
        let mut tokens = d.feed(&bytes[..cut]);
        tokens.extend(d.feed(&bytes[cut..]));
        assert_eq!(tokens, vec!["ab".to_string(), "cd".to_string()], "cut at {}", cut);
        assert!(d.finished());
    }
}

#[test]
fn malformed_and_empty_lines_are_skipped() {
    let mut d = StreamDecoder::new();
    let text = format!("\n{{not json}}\n{{\"done\":false}}\n{}   \n", line("x", false).trim_end());
    assert_eq!(d.feed(text.as_bytes()), vec!["x".to_string()]);
    assert!(!d.finished());
}

#[test]
fn nothing_after_done() {
    let mut d = StreamDecoder::new();
    let text = format!("{}{}", line("last", true), line("late", false));
    assert_eq!(d.feed(text.as_bytes()), vec!["last".to_string()]);
    assert!(d.finished());
    assert!(d.feed(line("later", false).as_bytes()).is_empty());
}

#[test]
fn unterminated_line_waits() {
    let mut d = StreamDecoder::new();
    let l = line("wait", false);
    assert!(d.feed(l.trim_end().as_bytes()).is_empty());
    assert_eq!(d.feed(b"\n"), vec!["wait".to_string()]);
}

#[test]
fn split_multibyte_character() {
    let l = line("h\u{e9}", false);
    let bytes = l.as_bytes();
    let pos = l.find('\u{e9}').unwrap() + 1;
    let mut d = StreamDecoder::new();
    let mut tokens = d.feed(&bytes[..pos]);
    tokens.extend(d.feed(&bytes[pos..]));
    assert_eq!(tokens, vec!["h\u{e9}".to_string()]);
}

#[test]
fn request_body_fields() {
    let msgs = vec![
        Message::new(Role::System, "be brief", 1),
        Message::new(Role::User, "hi", 2),
    ];
    let r = chat_request("llama3", &msgs, true);
    assert_eq!(r.model, "llama3");
    assert!(r.stream);
    assert_eq!(r.messages.len(), 2);
    assert_eq!(r.messages[0].role, "system");
    assert_eq!(r.messages[1].role, "user");
    assert_eq!(r.messages[1].content, "hi");
    assert!(!chat_request("m", &msgs[..0], false).stream);
}

#[test]
fn endpoint_and_defaults() {
    assert_eq!(chat_url("http://localhost:11434"), "http://localhost:11434/api/chat");
    assert_eq!(or_default(None, DEFAULT_OLLAMA_URL), "http://localhost:11434");
    assert_eq!(or_default(Some("x".to_string()), DEFAULT_COLLECTION), "x");
    assert_eq!(or_default(None, DEFAULT_COLLECTION), "conversations");
}

#[test]
fn rest_port_becomes_rpc_port() {
    assert_eq!(rpc_url("http://localhost:6333"), "http://localhost:6334");
    assert_eq!(rpc_url("http://q:6334"), "http://q:6334");
    assert_eq!(rpc_url(":6333:6333/x"), ":6334:6334/x");
    assert_eq!(rpc_url(":633"), ":633");
    assert_eq!(rpc_url(""), "");
}

#[test]
fn collection_lookup() {
    let names = vec!["a".to_string(), "conversations".to_string()];
    assert!(collection_exists(&names, "conversations"));
    assert!(!collection_exists(&names, "conversation"));
    assert!(!collection_exists(&Vec::new(), "a"));
}
