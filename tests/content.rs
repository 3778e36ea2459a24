use chatgpt_types::{ChatMessage, ChatMessageContent, ChatMessageType, Role};

#[test]
fn display_concatenation() {
    let m = ChatMessage::new(
        Role::User,
        vec![
            ChatMessageContent::text("a".to_string()),
            ChatMessageContent::image_url("http://x".to_string()),
            ChatMessageContent::text("b".to_string()),
        ],
    );
    assert_eq!(m.content(), "ahttp://xb");
}

#[test]
fn empty_message_renders_empty() {
    let m = ChatMessage::new(Role::System, vec![]);
    assert_eq!(m.content(), "");
    assert!(m.raw_content().is_empty());
}

#[test]
fn render_of_each_segment() {
    assert_eq!(ChatMessageContent::text("hi there".to_string()).render(), "hi there");
    assert_eq!(
        ChatMessageContent::image_url("https://example.com/a.png".to_string()).render(),
        "https://example.com/a.png"
    );
}

#[test]
fn raw_content_keeps_segments_in_order() {
    let segs = vec![
        ChatMessageContent::image_url("u".to_string()),
        ChatMessageContent::text("t".to_string()),
    ];
    let m = ChatMessage::new(Role::Assistant, segs.clone());
    assert_eq!(m.raw_content(), segs.as_slice());
    assert_eq!(m.role, Role::Assistant);
}

#[test]
fn text_from_string() {
    let c: ChatMessageContent = "abc".to_string().into();
    assert_eq!(c, ChatMessageContent::text("abc".to_string()));
}

#[test]
fn roles_are_ordered() {
    assert!(Role::System < Role::Assistant);
    assert!(Role::Assistant < Role::User);
    assert!(Role::User < Role::Function);
    let mut roles = vec![Role::Function, Role::User, Role::System, Role::Assistant];
    roles.sort();
    assert_eq!(roles, vec![Role::System, Role::Assistant, Role::User, Role::Function]);
    assert_ne!(ChatMessageType::Text, ChatMessageType::ImageUrl);
}
