//! Requests to the OpenAI chat service, and the reading of its answers.

use vstd::prelude::*;
use vstd::string::*;
use crate::ai::{
    AIContext, AiError, AIResponse, AIResponseView, ChatContent, ChatContentView, ChatRequest,
    ChatRequestView, ChatTurn, ChatTurnView, answer_content, make_text_turn, plan_view, text_turn,
    turns_view,
};
use crate::config::{AppConfig, AppConfigView, LLMProvider};

verus! {

/// The cap on the length of an answer.
pub const MAX_TOKENS: u32 = 1024;

/// The address of the chat service.
pub const CHAT_URL: &'static str = "https://api.openai.com/v1/chat/completions";

/// The address of the chat service.
pub open spec fn chat_url() -> Seq<char> {
    CHAT_URL@
}

/// The instruction sent where the caller gives none.
pub const DEFAULT_INSTRUCTION: &'static str =
    "You are VenkyAI, a helpful real-time AI assistant for meetings and interviews. Be concise and actionable.";

/// The instruction sent where the caller gives none.
pub open spec fn default_instruction() -> Seq<char> {
    DEFAULT_INSTRUCTION@
}

/// The user turn of a request: the question, with the screen as an image
/// where the context holds one.
pub open spec fn user_turn(question: Seq<char>, screen_base64: Option<Seq<char>>) -> ChatTurnView {
    match screen_base64 {
        Some(image) => ChatTurnView {
            role: "user"@,
            content: ChatContentView::TextWithImage {
                text: question,
                image_url: "data:image/png;base64,"@ + image,
            },
        },
        None => text_turn("user"@, question),
    }
}

/// The request that carries `turns` to the chat service.
pub open spec fn chat_request(config: AppConfigView, turns: Seq<ChatTurnView>) -> Result<
    ChatRequestView,
    AiError,
> {
    if config.openai_api_key.len() == 0 {
        Err(AiError::KeyNotConfiguredSeeSettings)
    } else {
        Ok(
            ChatRequestView {
                provider: LLMProvider::OpenAI,
                url: chat_url(),
                api_key: Some(config.openai_api_key),
                model: config.openai_model,
                turns,
                max_tokens: Some(MAX_TOKENS),
                stream: false,
            },
        )
    }
}

/// The answer handed on to the caller.
pub open spec fn chat_response(
    config: AppConfigView,
    content: Option<Seq<char>>,
    stand_in: Seq<char>,
    timestamp: Seq<char>,
) -> AIResponseView {
    AIResponseView {
        content: match content {
            Some(c) => c,
            None => stand_in,
        },
        model: config.openai_model,
        provider: "OpenAI"@,
        timestamp,
    }
}

fn request_with(config: &AppConfig, turns: Vec<ChatTurn>) -> (r: Result<ChatRequest, AiError>)
    ensures
        plan_view(r) == chat_request(config@, turns_view(turns@)),
{
    if config.openai_api_key.as_str().is_empty() {
        return Err(AiError::KeyNotConfiguredSeeSettings);
    }
    Ok(
        ChatRequest {
            provider: LLMProvider::OpenAI,
            url: CHAT_URL.to_owned(),
            api_key: Some(config.openai_api_key.clone()),
            model: config.openai_model.clone(),
            turns,
            max_tokens: Some(MAX_TOKENS),
            stream: false,
        },
    )
}

/// The request for an answer to `question` under the default instruction.
/// Refused where no key is configured.
pub fn generate_request(config: &AppConfig, question: &str) -> (r: Result<ChatRequest, AiError>)
    ensures
        plan_view(r) == chat_request(
            config@,
            seq![text_turn("system"@, default_instruction()), text_turn("user"@, question@)],
        ),
{
    let mut turns: Vec<ChatTurn> = Vec::new();
    turns.push(make_text_turn("system", DEFAULT_INSTRUCTION));
    turns.push(make_text_turn("user", question));
    assert(turns_view(turns@) =~= seq![
        text_turn("system"@, default_instruction()),
        text_turn("user"@, question@),
    ]);
    request_with(config, turns)
}

/// The request for an answer to `question` under the given instruction;
/// the screen goes along as an image where the context holds one. Refused
/// where no key is configured.
pub fn generate_with_system_request(
    config: &AppConfig,
    system_prompt: &str,
    question: &str,
    context: &AIContext,
) -> (r: Result<ChatRequest, AiError>)
    ensures
        plan_view(r) == chat_request(
            config@,
            seq![text_turn("system"@, system_prompt@), user_turn(question@, context@.screen_base64)],
        ),
{
    let mut turns: Vec<ChatTurn> = Vec::new();
    turns.push(make_text_turn("system", system_prompt));
    match &context.screen_base64 {
        Some(image) => {
            let mut image_url = "data:image/png;base64,".to_owned();
            image_url.append(image.as_str());
            turns.push(
                ChatTurn {
                    role: "user".to_owned(),
                    content: ChatContent::TextWithImage { text: question.to_owned(), image_url },
                },
            );
        },
        None => {
            turns.push(make_text_turn("user", question));
        },
    }
    assert(turns_view(turns@) =~= seq![
        text_turn("system"@, system_prompt@),
        user_turn(question@, context@.screen_base64),
    ]);
    request_with(config, turns)
}

/// The answer handed on for a request under the default instruction: the
/// content of the first choice, or a stand-in where there is none.
pub fn generate_response(config: &AppConfig, content: Option<String>, timestamp: String) -> (r:
    AIResponse)
    ensures
        r@ == chat_response(
            config@,
            crate::text::opt_text(content),
            "No response from OpenAI"@,
            timestamp@,
        ),
{
    AIResponse {
        content: answer_content(content, "No response from OpenAI"),
        model: config.openai_model.clone(),
        provider: "OpenAI".to_owned(),
        timestamp,
    }
}

/// The answer handed on for a request under a given instruction.
pub fn generate_with_system_response(
    config: &AppConfig,
    content: Option<String>,
    timestamp: String,
) -> (r: AIResponse)
    ensures
        r@ == chat_response(config@, crate::text::opt_text(content), "No response"@, timestamp@),
{
    AIResponse {
        content: answer_content(content, "No response"),
        model: config.openai_model.clone(),
        provider: "OpenAI".to_owned(),
        timestamp,
    }
}

} // verus!
