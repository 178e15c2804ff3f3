//! The description request sent for a selected command, and what its reply
//! yields.

use vstd::prelude::*;

verus! {

/// The chat model that is asked.
pub const MODEL: &'static str = "gpt-3.5-turbo";

/// The prompt's text before the command.
pub const PROMPT_HEAD: &'static str = "Explain the '";

/// The prompt's text after the command.
pub const PROMPT_TAIL: &'static str = "' command in maximum of 250 words. The structure of the response should be:
----
... Start with a short description of the tool with maximum of 50 words. ...
----
... Provide a deconstruction of the command with short info and code examples
----
... Provide a list of 5 tags in a comma separated list that represent this command for easier query when searching for this information.
----";

/// The token budget of the answer.
pub const MAX_TOKENS: u32 = 299;

/// Who wrote a chat message.
#[derive(Debug, Clone, Copy, PartialEq, Eq, Structural)]
pub enum Role {
    /// A message sent at the start to set the tone of the model.
    System,
    /// A message written by the model.
    Assistant,
    /// A message written by the user.
    User,
}

/// One message of a chat.
pub struct ChatMessage {
    pub role: Role,
    pub content: String,
}

/// A chat-completion request.
pub struct GPTRequest<'a> {
    pub model: &'a str,
    pub messages: Vec<ChatMessage>,
    pub temperature: u32,
    pub max_tokens: u32,
    pub top_p: u32,
    pub frequency_penalty: u32,
    pub presence_penalty: u32,
}

/// The prompt that asks for a description of `command`.
pub open spec fn prompt_text(command: Seq<char>) -> Seq<char> {
    PROMPT_HEAD@ + command + PROMPT_TAIL@
}

/// The prompt for `command`.
pub fn prompt_for(command: &str) -> (r: String)
    ensures
        r@ == prompt_text(command@),
{
    let mut p = String::from_str(PROMPT_HEAD);
    p.append(command);
    p.append(PROMPT_TAIL);
    p
}

impl<'a> GPTRequest<'a> {
    /// The request for `command`: one user message with its prompt, answered
    /// deterministically within the token budget.
    pub fn for_command(command: &str) -> (r: GPTRequest<'static>)
        ensures
            r.model@ == MODEL@,
            r.messages@.len() == 1,
            r.messages@[0].role == Role::User,
            r.messages@[0].content@ == prompt_text(command@),
            r.temperature == 0,
            r.max_tokens == MAX_TOKENS,
            r.top_p == 1,
            r.frequency_penalty == 0,
            r.presence_penalty == 0,
    {
        let message = ChatMessage { role: Role::User, content: prompt_for(command) };
        let mut messages: Vec<ChatMessage> = Vec::new();
        messages.push(message);
        GPTRequest {
            model: MODEL,
            messages,
            temperature: 0,
            max_tokens: MAX_TOKENS,
            top_p: 1,
            frequency_penalty: 0,
            presence_penalty: 0,
        }
    }
}

/// How the description service answered.
pub enum ServiceReply {
    /// No answer: the connection failed or timed out.
    Unreachable,
    /// An answer with its status code and the content of its first choice,
    /// `None` when the body held no readable choice.
    Answered { status: u16, first_choice: Option<String> },
}

/// A status code in the success range.
pub open spec fn is_success(status: u16) -> bool {
    200 <= status <= 299
}

/// The description that a reply carries: the first choice of a successful
/// answer; `None` for every failure.
pub open spec fn reply_description(reply: ServiceReply) -> Option<Seq<char>> {
    match reply {
        ServiceReply::Answered { status, first_choice } => {
            if is_success(status) && first_choice is Some {
                Some(first_choice->Some_0@)
            } else {
                None
            }
        },
        ServiceReply::Unreachable => None,
    }
}

/// The view of an optional string.
pub open spec fn opt_view(s: Option<String>) -> Option<Seq<char>> {
    match s {
        Some(t) => Some(t@),
        None => None,
    }
}

/// The description that `reply` carries, if any.
pub fn description_from(reply: ServiceReply) -> (r: Option<String>)
    ensures
        opt_view(r) == reply_description(reply),
{
    match reply {
        ServiceReply::Answered { status, first_choice } => {
            if 200 <= status && status <= 299 {
                first_choice
            } else {
                None
            }
        },
        ServiceReply::Unreachable => None,
    }
}

/// A selected command and the description found for it.
pub struct EnrichmentResult {
    pub command: String,
    pub description: Option<String>,
}

} // verus!
