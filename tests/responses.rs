use kind_openai::endpoints::chat::{
    ChatCompletionResponse, ChatCompletionResponseChoice, FinishReason, Model, Role,
    StructuredChatCompletionResponse, StructuredChatCompletionResponseChoice,
};
use kind_openai::endpoints::chat_reasoning::{
    ChatReasoningCompletionResponse, ChatReasoningCompletionResponseChoice,
    ChatReasoningCompletionResponseMessage, ReasoningModel,
};
use kind_openai::endpoints::embeddings::EmbeddingsModel;
use kind_openai::error::{OpenAIAPIError, OpenAIAPIErrorData, OpenAIError};
use kind_openai::Usage;

fn usage() -> Usage {
    Usage { prompt_tokens: 3, completion_tokens: 4, total_tokens: 7 }
}

#[test]
fn first_choice_and_usage() {
    let choices = vec![
        ChatCompletionResponseChoice::new(FinishReason::Stop, 0, "hello".to_string(), None),
        ChatCompletionResponseChoice::new(FinishReason::Length, 1, "second".to_string(), None),
    ];
    let response = ChatCompletionResponse::new(choices, usage());
    assert_eq!(*response.usage(), usage());
    let first = response.take_first_choice().unwrap();
    assert_eq!(first.index(), 0);
    assert_eq!(first.finish_reason(), FinishReason::Stop);
    assert_eq!(first.message().ok(), Some("hello".to_string()));
    assert!(ChatCompletionResponse::new(Vec::new(), usage()).take_first_choice().is_none());
}

#[test]
fn refusal_becomes_error() {
    let choice = ChatCompletionResponseChoice::new(
        FinishReason::ContentFilter,
        2,
        String::new(),
        Some("no".to_string()),
    );
    match choice.message() {
        Err(OpenAIError::Refusal(r)) => assert_eq!(r, "no"),
        _ => panic!("expected a refusal"),
    }
}

#[test]
fn structured_choice_holds_value() {
    let choice = StructuredChatCompletionResponseChoice::new(FinishReason::ToolCalls, 5, 42u8, None);
    let response = StructuredChatCompletionResponse::new(vec![choice], usage());
    assert_eq!(response.usage(), usage());
    let first = response.take_first_choice().unwrap();
    assert_eq!(first.index(), 5);
    assert_eq!(first.finish_reason(), FinishReason::ToolCalls);
    assert_eq!(first.message().ok(), Some(42u8));
}

#[test]
fn reasoning_choice_content() {
    let response = ChatReasoningCompletionResponse {
        choices: vec![ChatReasoningCompletionResponseChoice {
            message: ChatReasoningCompletionResponseMessage { content: "thought".to_string() },
        }],
    };
    assert_eq!(response.take_first_choice().unwrap().message(), "thought");
}

#[test]
fn wire_names() {
    assert_eq!(Model::Gpt4o_2024_11_20.name(), "gpt-4o-2024-11-20");
    assert_eq!(Model::Gpt4oMini.name(), "gpt-4o-mini");
    assert_eq!(Role::System.name(), "system");
    assert_eq!(ReasoningModel::O3Mini_2025_01_31.name(), "o3-mini-2025-01-31");
    assert_eq!(EmbeddingsModel::TextEmbedding3Large.name(), "text-embedding-3-large");
}

#[test]
fn api_error_text() {
    let data = OpenAIAPIErrorData {
        message: "too long".to_string(),
        param: None,
        code: Some("context_length_exceeded".to_string()),
    };
    assert_eq!(data.describe(), "message: too long, code: context_length_exceeded");
    let e = OpenAIAPIError::ContextLengthExceeded(data);
    assert_eq!(
        e.describe(),
        "model context length exceeded: message: too long, code: context_length_exceeded"
    );
}
