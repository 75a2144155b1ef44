use auctioneer::llm_types::{clone_messages, Message};
use auctioneer::prompts::{create_chat_params, create_prompt};

#[test]
fn prompt_wraps_the_message_of_the_buyer() {
    let message = create_prompt("do you have clocks?");
    assert_eq!(message.role, "user");
    assert_eq!(
        message.content,
        "I'm an auctioneer acting for X, I can tell u about what I have for sale currently. Here's a message from someone that might be trying to buy one off of you: do you have clocks?"
    );
}

#[test]
fn request_carries_the_prompt_alone() {
    let params = create_chat_params("hi");
    assert_eq!(params.model, "gpt-3.5-turbo");
    assert_eq!(params.max_tokens, Some(200));
    assert_eq!(params.temperature_hundredths, Some(125));
    assert_eq!(params.messages, vec![create_prompt("hi")]);
    assert_eq!(params.clone(), params);
}

#[test]
fn messages_are_copied_one_for_one() {
    let messages = vec![Message::new("user", "a"), Message::new("assistant", "b")];
    assert_eq!(clone_messages(&messages), messages);
    assert_eq!(clone_messages(&vec![]), vec![]);
}
