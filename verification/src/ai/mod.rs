//! Talking to the reasoning and transcription services: what is sent, and
//! how what comes back is read.

pub mod live_engine;
pub mod llm;
pub mod ollama;
pub mod openai;
pub mod streaming;
pub mod stt;

use vstd::prelude::*;
use vstd::string::*;
use crate::config::LLMProvider;
use crate::text::{clone_opt, opt_text};

verus! {

/// One turn of a conversation with the reasoning service.
#[derive(Debug, PartialEq, Eq)]
pub struct AIMessage {
    pub role: String,
    pub content: String,
}

/// What an `AIMessage` holds.
pub struct AIMessageView {
    pub role: Seq<char>,
    pub content: Seq<char>,
}

impl View for AIMessage {
    type V = AIMessageView;

    open spec fn view(&self) -> AIMessageView {
        AIMessageView { role: self.role@, content: self.content@ }
    }
}

impl Clone for AIMessage {
    fn clone(&self) -> (r: Self)
        ensures
            r@ == self@,
    {
        AIMessage { role: self.role.clone(), content: self.content.clone() }
    }
}

/// The views of a list of messages.
pub open spec fn messages_view(messages: Seq<AIMessage>) -> Seq<AIMessageView> {
    Seq::new(messages.len(), |i: int| messages[i]@)
}

/// What is known of the moment at which a question is asked.
#[derive(Debug, PartialEq, Eq)]
pub struct AIContext {
    pub transcript: Option<String>,
    pub screen_description: Option<String>,
    pub custom_prompt: Option<String>,
    pub screen_base64: Option<String>,
}

/// What an `AIContext` holds.
pub struct AIContextView {
    pub transcript: Option<Seq<char>>,
    pub screen_description: Option<Seq<char>>,
    pub custom_prompt: Option<Seq<char>>,
    pub screen_base64: Option<Seq<char>>,
}

impl View for AIContext {
    type V = AIContextView;

    open spec fn view(&self) -> AIContextView {
        AIContextView {
            transcript: opt_text(self.transcript),
            screen_description: opt_text(self.screen_description),
            custom_prompt: opt_text(self.custom_prompt),
            screen_base64: opt_text(self.screen_base64),
        }
    }
}

impl Clone for AIContext {
    fn clone(&self) -> (r: Self)
        ensures
            r@ == self@,
    {
        AIContext {
            transcript: clone_opt(&self.transcript),
            screen_description: clone_opt(&self.screen_description),
            custom_prompt: clone_opt(&self.custom_prompt),
            screen_base64: clone_opt(&self.screen_base64),
        }
    }
}

/// A context in which nothing is known.
pub open spec fn empty_context() -> AIContextView {
    AIContextView { transcript: None, screen_description: None, custom_prompt: None, screen_base64: None }
}

impl AIContext {
    /// A context in which nothing is known.
    pub fn empty() -> (r: Self)
        ensures
            r@ == empty_context(),
    {
        AIContext { transcript: None, screen_description: None, custom_prompt: None, screen_base64: None }
    }
}

/// An answer of a reasoning service.
#[derive(Debug, PartialEq, Eq)]
pub struct AIResponse {
    pub content: String,
    pub model: String,
    pub provider: String,
    pub timestamp: String,
}

/// What an `AIResponse` holds.
pub struct AIResponseView {
    pub content: Seq<char>,
    pub model: Seq<char>,
    pub provider: Seq<char>,
    pub timestamp: Seq<char>,
}

impl View for AIResponse {
    type V = AIResponseView;

    open spec fn view(&self) -> AIResponseView {
        AIResponseView {
            content: self.content@,
            model: self.model@,
            provider: self.provider@,
            timestamp: self.timestamp@,
        }
    }
}

impl Clone for AIResponse {
    fn clone(&self) -> (r: Self)
        ensures
            r@ == self@,
    {
        AIResponse {
            content: self.content.clone(),
            model: self.model.clone(),
            provider: self.provider.clone(),
            timestamp: self.timestamp.clone(),
        }
    }
}


/// Why a request to a service could not be made.
#[derive(Debug, Clone, Copy, PartialEq, Eq, Structural)]
pub enum AiError {
    /// No key for the OpenAI services is configured.
    KeyNotConfigured,
    /// No key is configured, said with a pointer to the settings.
    KeyNotConfiguredSeeSettings,
}

impl AiError {
    /// The message shown for this error.
    pub fn message(&self) -> (r: String)
        ensures
            r@ == match *self {
                AiError::KeyNotConfigured => "OpenAI API key not configured"@,
                AiError::KeyNotConfiguredSeeSettings => "OpenAI API key not configured. Go to Settings to add your key."@,
            },
    {
        match self {
            AiError::KeyNotConfigured => "OpenAI API key not configured".to_owned(),
            AiError::KeyNotConfiguredSeeSettings => "OpenAI API key not configured. Go to Settings to add your key.".to_owned(),
        }
    }
}

/// A service that requests go to.
#[derive(Debug, Clone, Copy, PartialEq, Eq, Structural)]
pub enum Service {
    /// The OpenAI chat service.
    OpenAI,
    /// An Ollama server.
    Ollama,
    /// The OpenAI speech-to-text service.
    Whisper,
    /// The OpenAI chat service, answering as a token stream.
    Stream,
}

/// How a request to a service failed.
#[derive(Debug, PartialEq, Eq)]
pub enum ProviderError {
    /// The request did not get through; the detail says why.
    RequestFailed { service: Service, detail: String },
    /// The service answered with a failure status.
    Rejected { service: Service, status: String, body: String },
    /// The answer could not be read; the detail says why.
    Unreadable { service: Service, detail: String },
}

/// The message for a request that did not get through.
pub open spec fn request_failed_message(service: Service, detail: Seq<char>) -> Seq<char> {
    match service {
        Service::OpenAI => "OpenAI request failed: "@ + detail,
        Service::Ollama => "Ollama request failed: "@ + detail + ". Is Ollama running?"@,
        Service::Whisper => "Whisper API request failed: "@ + detail,
        Service::Stream => "Stream request failed: "@ + detail,
    }
}

/// The name under which a failure status is reported.
pub open spec fn rejected_prefix(service: Service) -> Seq<char> {
    match service {
        Service::OpenAI => "OpenAI API error ("@,
        Service::Ollama => "Ollama API error ("@,
        Service::Whisper => "Whisper API error ("@,
        Service::Stream => "OpenAI error ("@,
    }
}

/// The message for an answer that could not be read.
pub open spec fn unreadable_message(service: Service, detail: Seq<char>) -> Seq<char> {
    match service {
        Service::OpenAI => "Failed to parse OpenAI response: "@ + detail,
        Service::Ollama => "Failed to parse Ollama response: "@ + detail,
        Service::Whisper => "Failed to parse Whisper response: "@ + detail,
        Service::Stream => "Stream error: "@ + detail,
    }
}

/// The message shown for a failure.
pub open spec fn provider_message(error: ProviderError) -> Seq<char> {
    match error {
        ProviderError::RequestFailed { service, detail } => request_failed_message(service, detail@),
        ProviderError::Rejected { service, status, body } => rejected_prefix(service) + status@
            + "): "@ + body@,
        ProviderError::Unreadable { service, detail } => unreadable_message(service, detail@),
    }
}

impl ProviderError {
    /// The message shown for this failure.
    pub fn message(&self) -> (r: String)
        ensures
            r@ == provider_message(*self),
    {
        match self {
            ProviderError::RequestFailed { service, detail } => {
                let mut text = match service {
                    Service::OpenAI => "OpenAI request failed: ".to_owned(),
                    Service::Ollama => "Ollama request failed: ".to_owned(),
                    Service::Whisper => "Whisper API request failed: ".to_owned(),
                    Service::Stream => "Stream request failed: ".to_owned(),
                };
                text.append(detail.as_str());
                match service {
                    Service::Ollama => {
                        text.append(". Is Ollama running?");
                    },
                    _ => {},
                }
                text
            },
            ProviderError::Rejected { service, status, body } => {
                let mut text = match service {
                    Service::OpenAI => "OpenAI API error (".to_owned(),
                    Service::Ollama => "Ollama API error (".to_owned(),
                    Service::Whisper => "Whisper API error (".to_owned(),
                    Service::Stream => "OpenAI error (".to_owned(),
                };
                text.append(status.as_str());
                text.append("): ");
                text.append(body.as_str());
                text
            },
            ProviderError::Unreadable { service, detail } => {
                let mut text = match service {
                    Service::OpenAI => "Failed to parse OpenAI response: ".to_owned(),
                    Service::Ollama => "Failed to parse Ollama response: ".to_owned(),
                    Service::Whisper => "Failed to parse Whisper response: ".to_owned(),
                    Service::Stream => "Stream error: ".to_owned(),
                };
                text.append(detail.as_str());
                text
            },
        }
    }
}

/// What one turn of a chat request says.
#[derive(Debug, PartialEq, Eq)]
pub enum ChatContent {
    /// Plain text.
    Text(String),
    /// Text together with an image, given as a URL, at low detail.
    TextWithImage { text: String, image_url: String },
}

/// What a `ChatContent` holds.
pub enum ChatContentView {
    Text(Seq<char>),
    TextWithImage { text: Seq<char>, image_url: Seq<char> },
}

impl View for ChatContent {
    type V = ChatContentView;

    open spec fn view(&self) -> ChatContentView {
        match self {
            ChatContent::Text(t) => ChatContentView::Text(t@),
            ChatContent::TextWithImage { text, image_url } => ChatContentView::TextWithImage {
                text: text@,
                image_url: image_url@,
            },
        }
    }
}

/// One turn of a chat request.
#[derive(Debug, PartialEq, Eq)]
pub struct ChatTurn {
    pub role: String,
    pub content: ChatContent,
}

/// What a `ChatTurn` holds.
pub struct ChatTurnView {
    pub role: Seq<char>,
    pub content: ChatContentView,
}

impl View for ChatTurn {
    type V = ChatTurnView;

    open spec fn view(&self) -> ChatTurnView {
        ChatTurnView { role: self.role@, content: self.content@ }
    }
}

/// A turn of plain text.
pub open spec fn text_turn(role: Seq<char>, text: Seq<char>) -> ChatTurnView {
    ChatTurnView { role, content: ChatContentView::Text(text) }
}

/// A chat request, ready to be sent.
#[derive(Debug, PartialEq, Eq)]
pub struct ChatRequest {
    /// The service the request goes to.
    pub provider: LLMProvider,
    /// The address the request is posted to.
    pub url: String,
    /// The key sent as bearer token, where the service asks for one.
    pub api_key: Option<String>,
    pub model: String,
    pub turns: Vec<ChatTurn>,
    /// The cap on the length of the answer, where one is set.
    pub max_tokens: Option<u32>,
    /// Whether the answer is to arrive as a token stream.
    pub stream: bool,
}

/// What a `ChatRequest` holds.
pub struct ChatRequestView {
    pub provider: LLMProvider,
    pub url: Seq<char>,
    pub api_key: Option<Seq<char>>,
    pub model: Seq<char>,
    pub turns: Seq<ChatTurnView>,
    pub max_tokens: Option<u32>,
    pub stream: bool,
}

/// The views of a list of turns.
pub open spec fn turns_view(turns: Seq<ChatTurn>) -> Seq<ChatTurnView> {
    Seq::new(turns.len(), |i: int| turns[i]@)
}

impl View for ChatRequest {
    type V = ChatRequestView;

    open spec fn view(&self) -> ChatRequestView {
        ChatRequestView {
            provider: self.provider,
            url: self.url@,
            api_key: opt_text(self.api_key),
            model: self.model@,
            turns: turns_view(self.turns@),
            max_tokens: self.max_tokens,
            stream: self.stream,
        }
    }
}

/// The view of the answer to a planning function.
pub open spec fn plan_view(plan: Result<ChatRequest, AiError>) -> Result<ChatRequestView, AiError> {
    match plan {
        Ok(request) => Ok(request@),
        Err(e) => Err(e),
    }
}

/// A turn of plain text.
pub fn make_text_turn(role: &str, text: &str) -> (r: ChatTurn)
    ensures
        r@ == text_turn(role@, text@),
{
    ChatTurn { role: role.to_owned(), content: ChatContent::Text(text.to_owned()) }
}

/// The content of an answer, or the stand-in text where the service sent
/// none.
pub fn answer_content(content: Option<String>, stand_in: &str) -> (r: String)
    ensures
        r@ == match content {
            Some(c) => c@,
            None => stand_in@,
        },
{
    match content {
        Some(c) => c,
        None => stand_in.to_owned(),
    }
}

} // verus!
