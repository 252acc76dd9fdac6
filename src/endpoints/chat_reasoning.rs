//! Reasoning completions: models, messages and responses.

use vstd::prelude::*;

verus! {

/// A model for reasoning completions.
#[derive(Clone, Copy, Debug, PartialEq, Eq, Structural)]
#[allow(non_camel_case_types)]
pub enum ReasoningModel {
    O1Preview,
    O1Mini,
    O1Mini_2024_09_12,
    O1,
    O1_2024_12_17,
    O3Mini,
    O3Mini_2025_01_31,
}

impl ReasoningModel {
    /// The identifier of the model on the wire.
    pub fn name(&self) -> (r: &'static str)
        ensures
            r@ == match self {
                ReasoningModel::O1Preview => "o1-preview"@,
                ReasoningModel::O1Mini => "o1-mini"@,
                ReasoningModel::O1Mini_2024_09_12 => "o1-mini-2024-09-12"@,
                ReasoningModel::O1 => "o1"@,
                ReasoningModel::O1_2024_12_17 => "o1-2024-12-17"@,
                ReasoningModel::O3Mini => "o3-mini"@,
                ReasoningModel::O3Mini_2025_01_31 => "o3-mini-2025-01-31"@,
            },
    {
        match self {
            ReasoningModel::O1Preview => "o1-preview",
            ReasoningModel::O1Mini => "o1-mini",
            ReasoningModel::O1Mini_2024_09_12 => "o1-mini-2024-09-12",
            ReasoningModel::O1 => "o1",
            ReasoningModel::O1_2024_12_17 => "o1-2024-12-17",
            ReasoningModel::O3Mini => "o3-mini",
            ReasoningModel::O3Mini_2025_01_31 => "o3-mini-2025-01-31",
        }
    }
}

/// The author of a reasoning message; there are no system messages.
#[derive(Clone, Copy, Debug, PartialEq, Eq, Structural)]
pub enum Role {
    /// Instructions and payload for the model.
    User,
    /// A response of the model.
    Assistant,
    /// Instructions for the model to follow.
    Developer,
}

impl Role {
    /// The role's name on the wire.
    pub fn name(&self) -> (r: &'static str)
        ensures
            r@ == match self {
                Role::User => "user"@,
                Role::Assistant => "assistant"@,
                Role::Developer => "developer"@,
            },
    {
        match self {
            Role::User => "user",
            Role::Assistant => "assistant",
            Role::Developer => "developer",
        }
    }
}

/// How much reasoning the model does; the service's default is medium.
#[derive(Clone, Copy, Debug, PartialEq, Eq, Structural)]
pub enum ReasoningEffort {
    Low,
    Medium,
    High,
}

impl ReasoningEffort {
    /// The effort's name on the wire.
    pub fn name(&self) -> (r: &'static str)
        ensures
            r@ == match self {
                ReasoningEffort::Low => "low"@,
                ReasoningEffort::Medium => "medium"@,
                ReasoningEffort::High => "high"@,
            },
    {
        match self {
            ReasoningEffort::Low => "low",
            ReasoningEffort::Medium => "medium",
            ReasoningEffort::High => "high",
        }
    }
}

/// A message of a reasoning completion request.
pub struct ReasoningMessage {
    pub role: Role,
    pub content: String,
}

/// A reasoning completion request.
pub struct ChatReasoningCompletion {
    pub model: ReasoningModel,
    pub messages: Vec<ReasoningMessage>,
    pub store: Option<bool>,
    /// Key and value pairs attached to the request.
    pub metadata: Option<Vec<(String, String)>>,
    pub reasoning_effort: Option<ReasoningEffort>,
}

impl ChatReasoningCompletion {
    /// A request to `model` with the given messages and nothing else set.
    pub fn new(model: ReasoningModel, messages: Vec<ReasoningMessage>) -> (r:
        ChatReasoningCompletion)
        ensures
            r.model == model,
            r.messages == messages,
            r.store is None,
            r.metadata is None,
            r.reasoning_effort is None,
    {
        ChatReasoningCompletion {
            model,
            messages,
            store: None,
            metadata: None,
            reasoning_effort: None,
        }
    }
}

impl crate::endpoints::Sealed for ChatReasoningCompletion {}

/// A response to a reasoning completion request.
pub struct ChatReasoningCompletionResponse {
    pub choices: Vec<ChatReasoningCompletionResponseChoice>,
}

/// One choice of a reasoning completion response.
pub struct ChatReasoningCompletionResponseChoice {
    pub message: ChatReasoningCompletionResponseMessage,
}

/// The message of a reasoning completion choice.
pub struct ChatReasoningCompletionResponseMessage {
    pub content: String,
}

impl ChatReasoningCompletionResponse {
    /// Takes the first choice, consuming the response.
    pub fn take_first_choice(self) -> (r: Option<ChatReasoningCompletionResponseChoice>)
        ensures
            self.choices@.len() == 0 ==> r is None,
            self.choices@.len() > 0 ==> r == Some(self.choices@[0]),
    {
        let mut choices = self.choices;
        if choices.len() == 0 {
            None
        } else {
            Some(choices.remove(0))
        }
    }
}

impl ChatReasoningCompletionResponseChoice {
    /// The message's content.
    pub fn message(self) -> (r: String)
        ensures
            r == self.message.content,
    {
        self.message.content
    }
}

} // verus!
