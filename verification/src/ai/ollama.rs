//! Requests to an Ollama server, and the reading of its answers.

use vstd::prelude::*;
use vstd::string::*;
use crate::ai::{
    AIResponse, AIResponseView, ChatRequest, ChatRequestView, ChatTurn, answer_content,
    make_text_turn, text_turn, turns_view,
};
use crate::config::{AppConfig, AppConfigView, LLMProvider};

verus! {

/// The instruction sent where the caller gives none.
pub const DEFAULT_INSTRUCTION: &'static str =
    "You are VenkyAI, a helpful real-time AI assistant for meetings and interviews. Be concise and actionable.";

/// The instruction sent where the caller gives none.
pub open spec fn default_instruction() -> Seq<char> {
    DEFAULT_INSTRUCTION@
}

/// The request that carries an instruction and a question to the server.
pub open spec fn chat_request(config: AppConfigView, instruction: Seq<char>, question: Seq<char>) -> ChatRequestView {
    ChatRequestView {
        provider: LLMProvider::Ollama,
        url: config.ollama_url + "/api/chat"@,
        api_key: None,
        model: config.ollama_model,
        turns: seq![text_turn("system"@, instruction), text_turn("user"@, question)],
        max_tokens: None,
        stream: false,
    }
}

/// The answer handed on to the caller.
pub open spec fn chat_response(
    config: AppConfigView,
    content: Option<Seq<char>>,
    stand_in: Seq<char>,
    timestamp: Seq<char>,
) -> AIResponseView {
    AIResponseView {
        content: match content {
            Some(c) => c,
            None => stand_in,
        },
        model: config.ollama_model,
        provider: "Ollama"@,
        timestamp,
    }
}

/// The request for an answer to `question` under the given instruction.
pub fn generate_with_system_request(config: &AppConfig, system_prompt: &str, question: &str) -> (r:
    ChatRequest)
    ensures
        r@ == chat_request(config@, system_prompt@, question@),
{
    let mut turns: Vec<ChatTurn> = Vec::new();
    turns.push(make_text_turn("system", system_prompt));
    turns.push(make_text_turn("user", question));
    assert(turns_view(turns@) =~= seq![
        text_turn("system"@, system_prompt@),
        text_turn("user"@, question@),
    ]);
    let mut url = config.ollama_url.clone();
    url.append("/api/chat");
    ChatRequest {
        provider: LLMProvider::Ollama,
        url,
        api_key: None,
        model: config.ollama_model.clone(),
        turns,
        max_tokens: None,
        stream: false,
    }
}

/// The request for an answer to `question` under the default instruction.
pub fn generate_request(config: &AppConfig, question: &str) -> (r: ChatRequest)
    ensures
        r@ == chat_request(config@, default_instruction(), question@),
{
    generate_with_system_request(config, DEFAULT_INSTRUCTION, question)
}

/// The answer handed on for a request under the default instruction: the
/// content of the message, or a stand-in where there is none.
pub fn generate_response(config: &AppConfig, content: Option<String>, timestamp: String) -> (r:
    AIResponse)
    ensures
        r@ == chat_response(
            config@,
            crate::text::opt_text(content),
            "No response from Ollama"@,
            timestamp@,
        ),
{
    AIResponse {
        content: answer_content(content, "No response from Ollama"),
        model: config.ollama_model.clone(),
        provider: "Ollama".to_owned(),
        timestamp,
    }
}

/// The answer handed on for a request under a given instruction.
pub fn generate_with_system_response(
    config: &AppConfig,
    content: Option<String>,
    timestamp: String,
) -> (r: AIResponse)
    ensures
        r@ == chat_response(config@, crate::text::opt_text(content), "No response"@, timestamp@),
{
    AIResponse {
        content: answer_content(content, "No response"),
        model: config.ollama_model.clone(),
        provider: "Ollama".to_owned(),
        timestamp,
    }
}

} // verus!
