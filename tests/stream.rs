use chatgpt_types::{
    ChatMessage, ChatMessageContent, ChunkSequenceError, CompletionResponse, InboundChunkChoice,
    InboundChunkPayload, InboundResponseChunk, MessageChoice, ResponseChunk, Role, TokenUsage,
};

fn begin(role: Role, idx: usize) -> ResponseChunk {
    ResponseChunk::BeginResponse { role, response_index: idx }
}

fn delta(text: &str, idx: usize) -> ResponseChunk {
    ResponseChunk::Content { delta: text.to_string(), response_index: idx }
}

#[test]
fn interleaved_responses_are_kept_apart() {
    let chunks = vec![
        begin(Role::Assistant, 0),
        begin(Role::Assistant, 1),
        delta("Hi", 1),
        delta("Hello", 0),
        delta(" there", 0),
        ResponseChunk::Done,
    ];
    let out = ChatMessage::from_response_chunks(chunks).unwrap();
    assert_eq!(out.len(), 2);
    assert_eq!(out[0].content(), "Hello there");
    assert_eq!(out[1].content(), "Hi");
    assert_eq!(out[0].raw_content(), &[ChatMessageContent::text("Hello there".to_string())]);
}

#[test]
fn single_response() {
    let chunks = vec![
        begin(Role::Assistant, 0),
        delta("A", 0),
        delta("B", 0),
        ResponseChunk::CloseResponse { response_index: 0 },
        ResponseChunk::Done,
    ];
    let out = ChatMessage::from_response_chunks(chunks).unwrap();
    assert_eq!(out, vec![ChatMessage::new(Role::Assistant, vec![ChatMessageContent::text("AB".to_string())])]);
}

#[test]
fn unopened_index_fails() {
    let r = ChatMessage::from_response_chunks(vec![delta("x", 0)]);
    assert_eq!(r, Err(ChunkSequenceError { response_index: 0 }));
}

#[test]
fn index_past_opened_slots_fails() {
    let r = ChatMessage::from_response_chunks(vec![
        begin(Role::Assistant, 0),
        delta("ok", 0),
        delta("x", 1),
        delta("y", 3),
    ]);
    assert_eq!(r, Err(ChunkSequenceError { response_index: 1 }));
}

#[test]
fn empty_stream_gives_no_messages() {
    assert_eq!(ChatMessage::from_response_chunks(vec![]), Ok(vec![]));
    assert_eq!(ChatMessage::from_response_chunks(vec![ResponseChunk::Done]), Ok(vec![]));
}

#[test]
fn opened_response_without_content_is_empty_text() {
    let out = ChatMessage::from_response_chunks(vec![begin(Role::User, 0), ResponseChunk::Done]).unwrap();
    assert_eq!(out, vec![ChatMessage::new(Role::User, vec![ChatMessageContent::text(String::new())])]);
}

#[test]
fn roles_follow_slot_order() {
    let out = ChatMessage::from_response_chunks(vec![
        begin(Role::System, 0),
        begin(Role::Function, 1),
        delta("f", 1),
    ])
    .unwrap();
    assert_eq!(out[0].role, Role::System);
    assert_eq!(out[1].role, Role::Function);
    assert_eq!(out[0].content(), "");
    assert_eq!(out[1].content(), "f");
}

#[test]
fn inbound_payloads_map_to_chunks() {
    let role = InboundChunkChoice { delta: InboundChunkPayload::AnnounceRoles { role: Role::Assistant }, index: 2 };
    let content = InboundChunkChoice {
        delta: InboundChunkPayload::StreamContent { content: "piece".to_string() },
        index: 1,
    };
    let close = InboundChunkChoice { delta: InboundChunkPayload::Close {}, index: 0 };
    assert_eq!(role.to_response_chunk(), begin(Role::Assistant, 2));
    assert_eq!(content.to_response_chunk(), delta("piece", 1));
    assert_eq!(close.to_response_chunk(), ResponseChunk::CloseResponse { response_index: 0 });
    let frame = InboundResponseChunk { choices: vec![role, content, close] };
    assert_eq!(
        frame.to_response_chunks(),
        vec![begin(Role::Assistant, 2), delta("piece", 1), ResponseChunk::CloseResponse { response_index: 0 }]
    );
}

#[test]
fn completion_message_is_first_choice() {
    let first = ChatMessage::new(Role::Assistant, vec![ChatMessageContent::text("one".to_string())]);
    let second = ChatMessage::new(Role::Assistant, vec![ChatMessageContent::text("two".to_string())]);
    let resp = CompletionResponse {
        message_id: Some("id".to_string()),
        created_timestamp: Some(1),
        model: "m".to_string(),
        usage: TokenUsage { prompt_tokens: 1, completion_tokens: 2, total_tokens: 3 },
        message_choices: vec![
            MessageChoice { message: first.clone(), finish_reason: "stop".to_string(), index: 0 },
            MessageChoice { message: second, finish_reason: "stop".to_string(), index: 1 },
        ],
    };
    assert_eq!(resp.message(), &first);
}
