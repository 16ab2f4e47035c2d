use clai::chat::{ChatMessage, ChatRequest, ChatResponse, Role, Usage};

#[test]
fn test_chat_message_creation() {
    let msg = ChatMessage::system("You are a helpful assistant.".to_string());
    assert_eq!(msg.role, Role::System);
    assert_eq!(msg.content, "You are a helpful assistant.");

    let msg = ChatMessage::user("Hello".to_string());
    assert_eq!(msg.role, Role::User);
    assert_eq!(msg.content, "Hello");
}

#[test]
fn test_chat_message_assistant() {
    let msg = ChatMessage::assistant("Reply".to_string());
    assert_eq!(msg.role, Role::Assistant);
    assert_eq!(msg.content, "Reply");
}

#[test]
fn test_chat_request_immutability() {
    let messages = vec![
        ChatMessage::system("System".to_string()),
        ChatMessage::user("User".to_string()),
    ];
    let req1 = ChatRequest::new(messages.clone());
    let req2 = ChatRequest::new(messages);

    assert_eq!(req1.messages.len(), req2.messages.len());
}

#[test]
fn test_chat_request_builder() {
    let messages = vec![ChatMessage::user("test".to_string())];
    let req = ChatRequest::new(messages)
        .with_model("gpt-4".to_string())
        .with_temperature(700)
        .with_max_tokens(100);

    assert_eq!(req.model, Some("gpt-4".to_string()));
    assert_eq!(req.temperature_milli, Some(700));
    assert_eq!(req.max_tokens, Some(100));
}

#[test]
fn test_chat_response_creation() {
    let resp = ChatResponse::new("Hello, world!".to_string());
    assert_eq!(resp.content, "Hello, world!");
    assert_eq!(resp.model, None);
    assert_eq!(resp.usage, None);
}

#[test]
fn test_chat_response_builder() {
    let usage = Usage {
        prompt_tokens: 10,
        completion_tokens: 5,
        total_tokens: 15,
    };
    let resp = ChatResponse::new("test".to_string())
        .with_model("gpt-4".to_string())
        .with_usage(usage.clone());

    assert_eq!(resp.model, Some("gpt-4".to_string()));
    assert_eq!(resp.usage, Some(usage));
}
