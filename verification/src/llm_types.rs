//! What is exchanged with a chat-completion model: messages, and the request
//! that carries them.

use crate::buffer::pushed;
use vstd::prelude::*;

verus! {

/// One message of a conversation with the model.
#[derive(Debug, PartialEq, Eq)]
pub struct Message {
    pub role: String,
    pub content: String,
}

/// A message, as plain values.
pub struct MessageView {
    pub role: Seq<char>,
    pub content: Seq<char>,
}

impl View for Message {
    type V = MessageView;

    open spec fn view(&self) -> MessageView {
        MessageView { role: self.role@, content: self.content@ }
    }
}

impl Clone for Message {
    fn clone(&self) -> (copy: Self)
        ensures
            copy@ == self@,
    {
        Message { role: self.role.clone(), content: self.content.clone() }
    }
}

impl Message {
    /// The message that says `content` in the role `role`.
    pub fn new(role: &str, content: &str) -> (message: Message)
        ensures
            message@ == (MessageView { role: role@, content: content@ }),
    {
        Message { role: String::from_str(role), content: String::from_str(content) }
    }
}

/// The messages of a sequence, each as plain values.
pub open spec fn messages_view(messages: Seq<Message>) -> Seq<MessageView> {
    messages.map_values(|message: Message| message@)
}

/// Pushing a message onto a bounded buffer, then looking at plain values, is
/// pushing its plain values.
pub proof fn lemma_pushed_messages(items: Seq<Message>, capacity: nat, message: Message)
    ensures
        messages_view(pushed(items, capacity, message)) == pushed(
            messages_view(items),
            capacity,
            message@,
        ),
{
    assert(messages_view(pushed(items, capacity, message)) =~= pushed(
        messages_view(items),
        capacity,
        message@,
    ));
}

/// A request for one reply of the model. The temperature is held in hundredths.
#[derive(Debug, PartialEq, Eq)]
pub struct ChatParams {
    pub model: String,
    pub messages: Vec<Message>,
    pub max_tokens: Option<u32>,
    pub temperature_hundredths: Option<u32>,
}

/// A request, as plain values.
pub struct ChatParamsView {
    pub model: Seq<char>,
    pub messages: Seq<MessageView>,
    pub max_tokens: Option<u32>,
    pub temperature_hundredths: Option<u32>,
}

impl View for ChatParams {
    type V = ChatParamsView;

    open spec fn view(&self) -> ChatParamsView {
        ChatParamsView {
            model: self.model@,
            messages: messages_view(self.messages@),
            max_tokens: self.max_tokens,
            temperature_hundredths: self.temperature_hundredths,
        }
    }
}

/// A copy of a list of messages.
pub fn clone_messages(messages: &Vec<Message>) -> (copy: Vec<Message>)
    ensures
        messages_view(copy@) == messages_view(messages@),
{
    let mut copy: Vec<Message> = Vec::new();
    let mut i: usize = 0;
    while i < messages.len()
        invariant
            i <= messages.len(),
            copy.len() == i,
            forall|j: int| 0 <= j < i ==> copy@[j]@ == messages@[j]@,
        decreases messages.len() - i,
    {
        copy.push(messages[i].clone());
        i += 1;
    }
    assert(messages_view(copy@) =~= messages_view(messages@));
    copy
}

impl Clone for ChatParams {
    fn clone(&self) -> (copy: Self)
        ensures
            copy@ == self@,
    {
        ChatParams {
            model: self.model.clone(),
            messages: clone_messages(&self.messages),
            max_tokens: self.max_tokens,
            temperature_hundredths: self.temperature_hundredths,
        }
    }
}

} // verus!
