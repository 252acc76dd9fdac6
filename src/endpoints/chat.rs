//! Chat completions: models, messages, and standard and structured responses.

use vstd::prelude::*;

use crate::error::{OpenAIError, OpenAIResult};
use crate::Usage;

verus! {

/// A model for standard or structured chat completions.
#[derive(Clone, Copy, Debug, PartialEq, Eq, Structural)]
#[allow(non_camel_case_types)]
pub enum Model {
    Gpt4o_2024_11_20,
    Gpt4o_2024_08_06,
    Gpt4o,
    Gpt4oMini,
}

impl Model {
    /// The identifier of the model on the wire.
    pub fn name(&self) -> (r: &'static str)
        ensures
            r@ == match self {
                Model::Gpt4o_2024_11_20 => "gpt-4o-2024-11-20"@,
                Model::Gpt4o_2024_08_06 => "gpt-4o-2024-08-06"@,
                Model::Gpt4o => "gpt-4o"@,
                Model::Gpt4oMini => "gpt-4o-mini"@,
            },
    {
        match self {
            Model::Gpt4o_2024_11_20 => "gpt-4o-2024-11-20",
            Model::Gpt4o_2024_08_06 => "gpt-4o-2024-08-06",
            Model::Gpt4o => "gpt-4o",
            Model::Gpt4oMini => "gpt-4o-mini",
        }
    }
}

/// The author of a chat message.
#[derive(Clone, Copy, Debug, PartialEq, Eq, Structural)]
pub enum Role {
    /// Describes the task to the model.
    System,
    /// The payload given to the model.
    User,
    /// A response of the model.
    Assistant,
}

impl Role {
    /// The role's name on the wire.
    pub fn name(&self) -> (r: &'static str)
        ensures
            r@ == match self {
                Role::System => "system"@,
                Role::User => "user"@,
                Role::Assistant => "assistant"@,
            },
    {
        match self {
            Role::System => "system",
            Role::User => "user",
            Role::Assistant => "assistant",
        }
    }
}

/// A chat message of a request.
pub struct Message {
    pub role: Role,
    pub content: String,
    pub refusal: Option<String>,
    pub name: Option<String>,
}

impl Message {
    /// A message with the given role and content, and no refusal or name.
    pub fn new(role: Role, content: String) -> (r: Message)
        ensures
            r.role == role,
            r.content == content,
            r.refusal is None,
            r.name is None,
    {
        Message { role, content, refusal: None, name: None }
    }
}

/// The message of a response choice: content, unless the model refused.
pub struct UnifiedChatCompletionResponseMessage<T> {
    pub content: T,
    pub refusal: Option<String>,
}

impl<T> UnifiedChatCompletionResponseMessage<T> {
    /// The content, or the refusal as an error.
    pub fn into_result(self) -> (r: OpenAIResult<T>)
        ensures
            match self.refusal {
                Some(x) => r matches Err(OpenAIError::Refusal(y)) && y == x,
                None => r matches Ok(c) && c == self.content,
            },
    {
        match self.refusal {
            Some(refusal) => Err(OpenAIError::Refusal(refusal)),
            None => Ok(self.content),
        }
    }
}

/// Why a response ended.
#[derive(Clone, Copy, Debug, PartialEq, Eq, Structural)]
pub enum FinishReason {
    Stop,
    Length,
    ContentFilter,
    ToolCalls,
}

/// A response to a standard chat completion request.
pub struct ChatCompletionResponse {
    choices: Vec<ChatCompletionResponseChoice>,
    usage: Usage,
}

/// One choice of a standard chat completion response.
pub struct ChatCompletionResponseChoice {
    finish_reason: FinishReason,
    index: i32,
    message: UnifiedChatCompletionResponseMessage<String>,
}

impl ChatCompletionResponse {
    pub fn new(choices: Vec<ChatCompletionResponseChoice>, usage: Usage) -> (r:
        ChatCompletionResponse)
        ensures
            r.choices_spec() == choices@,
            r.usage_spec() == usage,
    {
        ChatCompletionResponse { choices, usage }
    }

    pub closed spec fn choices_spec(&self) -> Seq<ChatCompletionResponseChoice> {
        self.choices@
    }

    pub closed spec fn usage_spec(&self) -> Usage {
        self.usage
    }

    /// Takes the first choice, consuming the response.
    pub fn take_first_choice(self) -> (r: Option<ChatCompletionResponseChoice>)
        ensures
            self.choices_spec().len() == 0 ==> r is None,
            self.choices_spec().len() > 0 ==> r == Some(self.choices_spec()[0]),
    {
        let mut choices = self.choices;
        if choices.len() == 0 {
            None
        } else {
            Some(choices.remove(0))
        }
    }

    /// The token usage of the response.
    pub fn usage(&self) -> (r: &Usage)
        ensures
            *r == self.usage_spec(),
    {
        &self.usage
    }
}

impl ChatCompletionResponseChoice {
    pub fn new(finish_reason: FinishReason, index: i32, content: String, refusal: Option<String>) -> (r:
        ChatCompletionResponseChoice)
        ensures
            r.finish_reason_spec() == finish_reason,
            r.index_spec() == index,
            r.content_spec() == content,
            r.refusal_spec() == refusal,
    {
        ChatCompletionResponseChoice {
            finish_reason,
            index,
            message: UnifiedChatCompletionResponseMessage { content, refusal },
        }
    }

    pub closed spec fn finish_reason_spec(&self) -> FinishReason {
        self.finish_reason
    }

    pub closed spec fn index_spec(&self) -> i32 {
        self.index
    }

    pub closed spec fn content_spec(&self) -> String {
        self.message.content
    }

    pub closed spec fn refusal_spec(&self) -> Option<String> {
        self.message.refusal
    }

    /// The message's content, or its refusal as an error.
    pub fn message(self) -> (r: OpenAIResult<String>)
        ensures
            match self.refusal_spec() {
                Some(x) => r matches Err(OpenAIError::Refusal(y)) && y == x,
                None => r matches Ok(c) && c == self.content_spec(),
            },
    {
        self.message.into_result()
    }

    pub fn finish_reason(&self) -> (r: FinishReason)
        ensures
            r == self.finish_reason_spec(),
    {
        self.finish_reason
    }

    pub fn index(&self) -> (r: i32)
        ensures
            r == self.index_spec(),
    {
        self.index
    }
}

/// A response to a structured chat completion request, whose content is a
/// value of the requested type.
pub struct StructuredChatCompletionResponse<S> {
    choices: Vec<StructuredChatCompletionResponseChoice<S>>,
    usage: Usage,
}

/// One choice of a structured chat completion response.
pub struct StructuredChatCompletionResponseChoice<S> {
    finish_reason: FinishReason,
    index: i32,
    message: UnifiedChatCompletionResponseMessage<S>,
}

impl<S> StructuredChatCompletionResponse<S> {
    pub fn new(choices: Vec<StructuredChatCompletionResponseChoice<S>>, usage: Usage) -> (r:
        StructuredChatCompletionResponse<S>)
        ensures
            r.choices_spec() == choices@,
            r.usage_spec() == usage,
    {
        StructuredChatCompletionResponse { choices, usage }
    }

    pub closed spec fn choices_spec(&self) -> Seq<StructuredChatCompletionResponseChoice<S>> {
        self.choices@
    }

    pub closed spec fn usage_spec(&self) -> Usage {
        self.usage
    }

    /// Takes the first choice, consuming the response.
    pub fn take_first_choice(self) -> (r: Option<StructuredChatCompletionResponseChoice<S>>)
        ensures
            self.choices_spec().len() == 0 ==> r is None,
            self.choices_spec().len() > 0 ==> r == Some(self.choices_spec()[0]),
    {
        let mut choices = self.choices;
        if choices.len() == 0 {
            None
        } else {
            Some(choices.remove(0))
        }
    }

    /// The token usage of the response.
    pub fn usage(&self) -> (r: Usage)
        ensures
            r == self.usage_spec(),
    {
        self.usage
    }
}

impl<S> StructuredChatCompletionResponseChoice<S> {
    pub fn new(finish_reason: FinishReason, index: i32, content: S, refusal: Option<String>) -> (r:
        StructuredChatCompletionResponseChoice<S>)
        ensures
            r.finish_reason_spec() == finish_reason,
            r.index_spec() == index,
            r.content_spec() == content,
            r.refusal_spec() == refusal,
    {
        StructuredChatCompletionResponseChoice {
            finish_reason,
            index,
            message: UnifiedChatCompletionResponseMessage { content, refusal },
        }
    }

    pub closed spec fn finish_reason_spec(&self) -> FinishReason {
        self.finish_reason
    }

    pub closed spec fn index_spec(&self) -> i32 {
        self.index
    }

    pub closed spec fn content_spec(&self) -> S {
        self.message.content
    }

    pub closed spec fn refusal_spec(&self) -> Option<String> {
        self.message.refusal
    }

    /// The value the model produced, or its refusal as an error.
    pub fn message(self) -> (r: OpenAIResult<S>)
        ensures
            match self.refusal_spec() {
                Some(x) => r matches Err(OpenAIError::Refusal(y)) && y == x,
                None => r matches Ok(c) && c == self.content_spec(),
            },
    {
        self.message.into_result()
    }

    pub fn finish_reason(&self) -> (r: FinishReason)
        ensures
            r == self.finish_reason_spec(),
    {
        self.finish_reason
    }

    pub fn index(&self) -> (r: i32)
        ensures
            r == self.index_spec(),
    {
        self.index
    }
}

} // verus!
