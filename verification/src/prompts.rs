//! The request that carries a single message of a buyer to the model.

use crate::llm_types::{ChatParams, ChatParamsView, Message, MessageView};
use vstd::prelude::*;

verus! {

/// What the model is told before the message of the buyer.
pub const SYSTEM_PROMPT: &'static str =
    "I'm an auctioneer acting for X, I can tell u about what I have for sale currently. Here's a message from someone that might be trying to buy one off of you";

/// The model that answers a single message.
pub const PROMPT_MODEL: &'static str = "gpt-3.5-turbo";

/// The longest reply asked for, in tokens.
pub const PROMPT_MAX_TOKENS: u32 = 200;

/// The temperature asked for, in hundredths.
pub const PROMPT_TEMPERATURE_HUNDREDTHS: u32 = 125;

/// The message that carries `input`: the system prompt, a colon and a space, then `input`.
pub open spec fn prompt_for(input: Seq<char>) -> MessageView {
    MessageView { role: "user"@, content: SYSTEM_PROMPT@ + ": "@ + input }
}

/// The request that carries `text` alone.
pub open spec fn chat_params_for(text: Seq<char>) -> ChatParamsView {
    ChatParamsView {
        model: PROMPT_MODEL@,
        messages: seq![prompt_for(text)],
        max_tokens: Some(PROMPT_MAX_TOKENS),
        temperature_hundredths: Some(PROMPT_TEMPERATURE_HUNDREDTHS),
    }
}

/// Wraps the message of a buyer in the system prompt.
pub fn create_prompt(input: &str) -> (message: Message)
    ensures
        message@ == prompt_for(input@),
{
    let mut content = String::from_str(SYSTEM_PROMPT);
    content.append(": ");
    content.append(input);
    Message { content, role: String::from_str("user") }
}

/// The request that asks the model to answer `text`.
pub fn create_chat_params(text: &str) -> (params: ChatParams)
    ensures
        params@ == chat_params_for(text@),
{
    let message = create_prompt(text);
    let mut messages: Vec<Message> = Vec::new();
    messages.push(message);
    let params = ChatParams {
        model: String::from_str(PROMPT_MODEL),
        messages,
        max_tokens: Some(PROMPT_MAX_TOKENS),
        temperature_hundredths: Some(PROMPT_TEMPERATURE_HUNDREDTHS),
    };
    assert(params@.messages =~= seq![prompt_for(text@)]);
    params
}

} // verus!
