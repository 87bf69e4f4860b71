//! The request sent to the text-generation service and the reading of its reply.
use vstd::prelude::*;
use crate::riddle::{parse_riddle, first_line, second_line, is_riddle_reply, Riddle, GenerationError};

verus! {

/// The model asked for a riddle.
pub const MODEL: &'static str = "gpt-4o";

/// The most output tokens a reply may use.
pub const MAX_TOKENS: u16 = 1000;

/// The instruction that fixes the riddles' style and the answers' form.
pub const SYSTEM_PROMPT: &'static str = "You are a helpful assistant that generates simple riddles. Each riddle should have a one-word answer in lowercase.";

/// The instruction that fixes the exact shape of the reply.
pub const USER_PROMPT: &'static str = "Generate a new riddle in the following format:\n<riddle text>\n<one-word answer in lowercase>\nSeparate the riddle and answer with a newline.";

/// One role-tagged message of a conversation.
#[derive(Debug, PartialEq, Eq)]
pub struct ChatMessage {
    pub role: String,
    pub content: String,
}

/// A request for a completion.
#[derive(Debug, PartialEq, Eq)]
pub struct ChatRequest {
    pub model: String,
    pub messages: Vec<ChatMessage>,
    pub max_tokens: Option<u16>,
}

/// A reply: the message of each choice, in order.
#[derive(Debug, PartialEq, Eq)]
pub struct ChatResponse {
    pub choices: Vec<ChatMessage>,
}

/// The request for a new riddle: a system message and a user message, with
/// the output bounded to `MAX_TOKENS` tokens.
pub fn riddle_request() -> (r: ChatRequest)
    ensures
        r.model@ == MODEL@,
        r.max_tokens == Some(MAX_TOKENS),
        r.messages@.len() == 2,
        r.messages@[0].role@ == "system"@,
        r.messages@[0].content@ == SYSTEM_PROMPT@,
        r.messages@[1].role@ == "user"@,
        r.messages@[1].content@ == USER_PROMPT@,
{
    let system = ChatMessage { role: "system".to_owned(), content: SYSTEM_PROMPT.to_owned() };
    let user = ChatMessage { role: "user".to_owned(), content: USER_PROMPT.to_owned() };
    let mut messages: Vec<ChatMessage> = Vec::new();
    messages.push(system);
    messages.push(user);
    ChatRequest { model: MODEL.to_owned(), messages, max_tokens: Some(MAX_TOKENS) }
}

/// Accepts a reply status in 200..=299 and turns any other into an error.
pub fn check_status(status: u16) -> (r: Result<(), GenerationError>)
    ensures
        (200 <= status && status <= 299) <==> r is Ok,
        r matches Err(e) ==> e == GenerationError::Status(status),
{
    if 200 <= status && status <= 299 {
        Ok(())
    } else {
        Err(GenerationError::Status(status))
    }
}

/// Reads the riddle out of a reply's first choice.
pub fn riddle_from_response(response: &ChatResponse) -> (r: Result<Riddle, GenerationError>)
    ensures
        response.choices@.len() == 0 ==> r == Err::<Riddle, GenerationError>(
            GenerationError::NoChoices,
        ),
        response.choices@.len() > 0 ==> {
            let content = response.choices@[0].content@;
            &&& is_riddle_reply(content) <==> r is Ok
            &&& r matches Ok(riddle) ==> riddle.text@ == first_line(content)
                && riddle.answer@ == second_line(content)
            &&& r matches Err(e) ==> e == GenerationError::Unparsable
        },
{
    if response.choices.len() == 0 {
        return Err(GenerationError::NoChoices);
    }
    parse_riddle(response.choices[0].content.as_str())
}

} // verus!
