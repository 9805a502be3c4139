use vstd::prelude::*;
use vstd::string::*;

verus! {

/// Largest accepted byte length of a text to be spoken.
pub const MAX_TEXT_LENGTH: usize = 5000;

/// Smallest accepted byte length of a text to be spoken.
pub const MIN_TEXT_LENGTH: usize = 1;

/// Largest accepted byte length of a chat message.
pub const MAX_MESSAGE_LENGTH: usize = 10000;

/// Error reported to the transport layer for a rejected request.
pub enum ApiError {
    InvalidInput(String),
}

impl ApiError {
    /// The message that the error carries.
    pub open spec fn message(&self) -> Seq<char> {
        match self {
            ApiError::InvalidInput(m) => m@,
        }
    }
}

/// Byte length of a string in UTF-8, as `str::len` gives it.
pub open spec fn byte_len(s: &str) -> usize {
    s.len()
}

pub open spec fn is_lower_letter(c: char) -> bool {
    'a' <= c && c <= 'z'
}

pub open spec fn is_upper_letter(c: char) -> bool {
    'A' <= c && c <= 'Z'
}

/// `ll` (two lowercase ASCII letters) or `ll_CC` (two lowercase, an
/// underscore, two uppercase ASCII letters).
pub open spec fn language_code_ok(s: Seq<char>) -> bool {
    ||| s.len() == 2 && is_lower_letter(s[0]) && is_lower_letter(s[1])
    ||| s.len() == 5 && is_lower_letter(s[0]) && is_lower_letter(s[1]) && s[2] == '_'
        && is_upper_letter(s[3]) && is_upper_letter(s[4])
}

/// The message of the error for an invalid language code.
pub open spec fn language_error_message(lang: Seq<char>) -> Seq<char> {
    "Invalid language code format: "@ + lang
        + ". Expected format: ll_CC (e.g., en_US, de_DE)"@
}

/// The error message with which a text-to-speech request is rejected, if any.
pub open spec fn tts_rejection(text: &str, language: Option<&str>) -> Option<Seq<char>> {
    if text@.len() == 0 {
        Some("Text cannot be empty"@)
    } else if byte_len(text) > MAX_TEXT_LENGTH {
        Some("Text too long (max 5000 characters)"@)
    } else if byte_len(text) < MIN_TEXT_LENGTH {
        Some("Text too short (min 1 characters)"@)
    } else {
        match language {
            Some(l) => if language_code_ok(l@) {
                None
            } else {
                Some(language_error_message(l@))
            },
            None => None,
        }
    }
}

/// The error message with which a chat request is rejected, if any.
pub open spec fn chat_rejection(message: &str) -> Option<Seq<char>> {
    if message@.len() == 0 {
        Some("Message cannot be empty"@)
    } else if byte_len(message) > MAX_MESSAGE_LENGTH {
        Some("Message too long (max 10000 characters)"@)
    } else {
        None
    }
}

pub open spec fn accepted_as(r: Result<(), ApiError>, rejection: Option<Seq<char>>) -> bool {
    match rejection {
        None => r is Ok,
        Some(m) => r is Err && r->Err_0.message() == m,
    }
}

fn invalid_input(m: &str) -> (r: Result<(), ApiError>)
    ensures
        r is Err && r->Err_0.message() == m@,
{
    Err(ApiError::InvalidInput(m.to_string()))
}

fn is_lower_char(c: char) -> (r: bool)
    ensures
        r == is_lower_letter(c),
{
    'a' <= c && c <= 'z'
}

fn is_upper_char(c: char) -> (r: bool)
    ensures
        r == is_upper_letter(c),
{
    'A' <= c && c <= 'Z'
}

/// Whether `code` has the shape `ll` or `ll_CC`.
pub fn is_valid_language_code(code: &str) -> (r: bool)
    ensures
        r == language_code_ok(code@),
{
    let n = code.unicode_len();
    if n == 2 {
        is_lower_char(code.get_char(0)) && is_lower_char(code.get_char(1))
    } else if n == 5 {
        is_lower_char(code.get_char(0)) && is_lower_char(code.get_char(1)) && code.get_char(2)
            == '_' && is_upper_char(code.get_char(3)) && is_upper_char(code.get_char(4))
    } else {
        false
    }
}

/// Checks the text and optional language code of a text-to-speech request.
pub fn validate_tts_request(text: &str, language: Option<&str>) -> (r: Result<(), ApiError>)
    ensures
        accepted_as(r, tts_rejection(text, language)),
{
    if text.is_empty() {
        return invalid_input("Text cannot be empty");
    }
    if text.len() > MAX_TEXT_LENGTH {
        return invalid_input("Text too long (max 5000 characters)");
    }
    if text.len() < MIN_TEXT_LENGTH {
        return invalid_input("Text too short (min 1 characters)");
    }
    if let Some(lang) = language {
        if !is_valid_language_code(lang) {
            let mut m = String::from_str("Invalid language code format: ");
            m.append(lang);
            m.append(". Expected format: ll_CC (e.g., en_US, de_DE)");
            return Err(ApiError::InvalidInput(m));
        }
    }
    Ok(())
}

/// Checks the user message of a chat request.
pub fn validate_chat_request(message: &str) -> (r: Result<(), ApiError>)
    ensures
        accepted_as(r, chat_rejection(message)),
{
    if message.is_empty() {
        return invalid_input("Message cannot be empty");
    }
    if message.len() > MAX_MESSAGE_LENGTH {
        return invalid_input("Message too long (max 10000 characters)");
    }
    Ok(())
}

/// Whether `uuid::Uuid::parse_str` accepts the text.
pub uninterp spec fn uuid_text_ok(s: Seq<char>) -> bool;

/// Relies on `uuid::Uuid::parse_str`: whether the text parses depends on the
/// text alone, and only ASCII texts of 32, 36, 38 or 45 characters parse.
#[verifier::external_body]
fn parses_as_uuid(s: &str) -> (r: bool)
    ensures
        r == uuid_text_ok(s@),
        r ==> s@.len() == 32 || s@.len() == 36 || s@.len() == 38 || s@.len() == 45,
{
    uuid::Uuid::parse_str(s).is_ok()
}

/// The error message with which a conversation id is rejected, if any.
pub open spec fn conversation_id_rejection(id: &str) -> Option<Seq<char>> {
    if id@.len() == 0 {
        Some("Conversation ID cannot be empty"@)
    } else if !uuid_text_ok(id@) {
        Some("Invalid conversation ID format. Expected UUID"@)
    } else {
        None
    }
}

/// Checks that a conversation id is a UUID.
pub fn validate_conversation_id(id: &str) -> (r: Result<(), ApiError>)
    ensures
        accepted_as(r, conversation_id_rejection(id)),
{
    if id.is_empty() {
        return invalid_input("Conversation ID cannot be empty");
    }
    if !parses_as_uuid(id) {
        return invalid_input("Invalid conversation ID format. Expected UUID");
    }
    Ok(())
}

} // verus!
