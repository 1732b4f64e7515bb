//! The events and failures that one completion call delivers.

use vstd::prelude::*;

verus! {

/// The display name of this provider.
pub const PROVIDER_NAME: &'static str = "Codex CLI";

/// The display name of a provider.
#[derive(Clone, Debug, PartialEq, Eq)]
pub struct LanguageModelProviderName(pub String);

impl View for LanguageModelProviderName {
    type V = Seq<char>;

    open spec fn view(&self) -> Seq<char> {
        self.0@
    }
}

/// Why the model stopped producing output.
#[derive(Clone, Copy, Debug, PartialEq, Eq)]
pub enum StopReason {
    EndTurn,
    MaxTokens,
    ToolUse,
    Refusal,
}

/// A request of the model to run a tool.
#[derive(Clone, Debug, PartialEq)]
pub struct LanguageModelToolUse {
    pub id: String,
    pub name: String,
    /// The input as the child wrote it, or empty where it sent none.
    pub raw_input: String,
    /// The input as a structured value.
    pub input: serde_json::Value,
    pub is_input_complete: bool,
}

/// What a tool request holds, with its texts as sequences of characters.
pub struct ToolUseView {
    pub id: Seq<char>,
    pub name: Seq<char>,
    pub raw_input: Seq<char>,
    pub input: serde_json::Value,
    pub is_input_complete: bool,
}

impl View for LanguageModelToolUse {
    type V = ToolUseView;

    open spec fn view(&self) -> ToolUseView {
        ToolUseView {
            id: self.id@,
            name: self.name@,
            raw_input: self.raw_input@,
            input: self.input,
            is_input_complete: self.is_input_complete,
        }
    }
}

/// One unit of streamed output.
#[derive(Clone, Debug, PartialEq)]
pub enum LanguageModelCompletionEvent {
    /// A fragment of text.
    Text(String),
    /// A tool invocation.
    ToolUse(LanguageModelToolUse),
    /// The end of the output.
    Stop(StopReason),
}

/// What an event holds, with its texts as sequences of characters.
pub enum CompletionEventView {
    Text(Seq<char>),
    ToolUse(ToolUseView),
    Stop(StopReason),
}

impl View for LanguageModelCompletionEvent {
    type V = CompletionEventView;

    open spec fn view(&self) -> CompletionEventView {
        match self {
            LanguageModelCompletionEvent::Text(text) => CompletionEventView::Text(text@),
            LanguageModelCompletionEvent::ToolUse(tool_use) => CompletionEventView::ToolUse(
                tool_use@,
            ),
            LanguageModelCompletionEvent::Stop(reason) => CompletionEventView::Stop(*reason),
        }
    }
}

/// Why a completion call, or its stream, failed.
#[derive(Clone, Debug, PartialEq, Eq)]
pub enum LanguageModelCompletionError {
    /// The call was made while no secret was held.
    NoApiKey { provider: LanguageModelProviderName },
    /// Reading the child's output failed in the middle of the stream.
    ApiReadResponseError { provider: LanguageModelProviderName, error: String },
    /// The child could not be started, or did not take its input.
    Other(String),
}

/// What a failure holds, with its texts as sequences of characters.
pub enum CompletionErrorView {
    NoApiKey { provider: Seq<char> },
    ApiReadResponseError { provider: Seq<char>, error: Seq<char> },
    Other(Seq<char>),
}

impl View for LanguageModelCompletionError {
    type V = CompletionErrorView;

    open spec fn view(&self) -> CompletionErrorView {
        match self {
            LanguageModelCompletionError::NoApiKey { provider } => CompletionErrorView::NoApiKey {
                provider: provider@,
            },
            LanguageModelCompletionError::ApiReadResponseError { provider, error } => {
                CompletionErrorView::ApiReadResponseError { provider: provider@, error: error@ }
            },
            LanguageModelCompletionError::Other(message) => CompletionErrorView::Other(message@),
        }
    }
}

} // verus!
