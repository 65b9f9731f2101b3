//! Asking the configured reasoning service, with or without context.

use vstd::prelude::*;
use vstd::string::*;
use crate::ai::{AIContext, AIContextView, AiError, ChatRequest, ChatRequestView, plan_view};
use crate::ai::{ollama, openai};
use crate::config::{AppConfig, AppConfigView, LLMProvider};
use crate::text::{clone_texts, texts};

verus! {

/// A reasoning service and the models it offers.
#[derive(Debug, PartialEq, Eq)]
pub struct ProviderInfo {
    pub name: String,
    pub available: bool,
    pub models: Vec<String>,
}

/// What a `ProviderInfo` holds.
pub struct ProviderInfoView {
    pub name: Seq<char>,
    pub available: bool,
    pub models: Seq<Seq<char>>,
}

impl View for ProviderInfo {
    type V = ProviderInfoView;

    open spec fn view(&self) -> ProviderInfoView {
        ProviderInfoView { name: self.name@, available: self.available, models: texts(self.models@) }
    }
}

impl Clone for ProviderInfo {
    fn clone(&self) -> (r: Self)
        ensures
            r@ == self@,
    {
        ProviderInfo {
            name: self.name.clone(),
            available: self.available,
            models: clone_texts(&self.models),
        }
    }
}

/// One section of the instruction, present where its text is.
pub open spec fn section(heading: Seq<char>, body: Option<Seq<char>>) -> Seq<char> {
    match body {
        Some(text) => heading + text + "\n\n"@,
        None => Seq::empty(),
    }
}

/// The opening of the instruction.
pub const PROMPT_OPENING: &'static str =
    "You are VenkyAI, a real-time AI assistant helping the user during virtual meetings, interviews, and presentations. Provide concise, actionable suggestions. Be direct and helpful.\n\n";

/// The closing of the instruction.
pub const PROMPT_CLOSING: &'static str =
    "Based on all the context above, provide helpful suggestions, talking points, or answers the user might need right now. Be concise and practical.";

/// The opening of the instruction.
pub open spec fn prompt_opening() -> Seq<char> {
    PROMPT_OPENING@
}

/// The closing of the instruction.
pub open spec fn prompt_closing() -> Seq<char> {
    PROMPT_CLOSING@
}

/// The system instruction for a question asked with context: the opening,
/// then a section each for the custom instructions, the transcript and the
/// screen, as far as they are known, then the closing.
pub open spec fn system_prompt(context: AIContextView) -> Seq<char> {
    prompt_opening() + section("## Custom Instructions\n"@, context.custom_prompt) + section(
        "## Current Conversation Transcript\n"@,
        context.transcript,
    ) + section("## What's Currently on Screen\n"@, context.screen_description) + prompt_closing()
}

fn push_section(prompt: &mut String, heading: &str, body: &Option<String>)
    ensures
        final(prompt)@ == old(prompt)@ + section(heading@, crate::text::opt_text(*body)),
{
    match body {
        Some(text) => {
            prompt.append(heading);
            prompt.append(text.as_str());
            prompt.append("\n\n");
            assert(prompt@ =~= old(prompt)@ + (heading@ + text@ + "\n\n"@));
        },
        None => {
            assert(prompt@ =~= old(prompt)@ + Seq::<char>::empty());
        },
    }
}

/// Builds the system instruction for a question asked with context.
pub fn build_system_prompt(context: &AIContext) -> (r: String)
    ensures
        r@ == system_prompt(context@),
{
    let mut prompt = PROMPT_OPENING.to_owned();
    push_section(&mut prompt, "## Custom Instructions\n", &context.custom_prompt);
    push_section(&mut prompt, "## Current Conversation Transcript\n", &context.transcript);
    push_section(&mut prompt, "## What's Currently on Screen\n", &context.screen_description);
    prompt.append(PROMPT_CLOSING);
    prompt
}

/// The request that asks the configured service a bare question.
pub open spec fn ask_request(config: AppConfigView, question: Seq<char>) -> Result<
    ChatRequestView,
    AiError,
> {
    match config.llm_provider {
        LLMProvider::OpenAI => openai::chat_request(
            config,
            seq![
                crate::ai::text_turn("system"@, openai::default_instruction()),
                crate::ai::text_turn("user"@, question),
            ],
        ),
        LLMProvider::Ollama => Ok(
            ollama::chat_request(config, ollama::default_instruction(), question),
        ),
    }
}

/// The request that asks the configured service a question with context.
pub open spec fn ask_with_context_request(
    config: AppConfigView,
    question: Seq<char>,
    context: AIContextView,
) -> Result<ChatRequestView, AiError> {
    match config.llm_provider {
        LLMProvider::OpenAI => openai::chat_request(
            config,
            seq![
                crate::ai::text_turn("system"@, system_prompt(context)),
                openai::user_turn(question, context.screen_base64),
            ],
        ),
        LLMProvider::Ollama => Ok(ollama::chat_request(config, system_prompt(context), question)),
    }
}

/// The request that asks the configured service a bare question.
pub fn ask_ai_request(config: &AppConfig, question: &str) -> (r: Result<ChatRequest, AiError>)
    ensures
        plan_view(r) == ask_request(config@, question@),
{
    match config.llm_provider {
        LLMProvider::OpenAI => openai::generate_request(config, question),
        LLMProvider::Ollama => Ok(ollama::generate_request(config, question)),
    }
}

/// The request that asks the configured service a question with context.
pub fn ask_ai_with_context_request(config: &AppConfig, question: &str, context: &AIContext) -> (r:
    Result<ChatRequest, AiError>)
    ensures
        plan_view(r) == ask_with_context_request(config@, question@, context@),
{
    let instruction = build_system_prompt(context);
    match config.llm_provider {
        LLMProvider::OpenAI => openai::generate_with_system_request(
            config,
            instruction.as_str(),
            question,
            context,
        ),
        LLMProvider::Ollama => Ok(
            ollama::generate_with_system_request(config, instruction.as_str(), question),
        ),
    }
}

/// The services on offer.
pub open spec fn provider_catalogue() -> Seq<ProviderInfoView> {
    seq![
        ProviderInfoView {
            name: "OpenAI"@,
            available: true,
            models: seq!["gpt-4o"@, "gpt-4o-mini"@, "gpt-4-turbo"@, "gpt-3.5-turbo"@],
        },
        ProviderInfoView {
            name: "Ollama"@,
            available: true,
            models: seq!["llama3"@, "mistral"@, "codellama"@, "gemma"@],
        },
    ]
}

/// The views of a list of services.
pub open spec fn providers_view(providers: Seq<ProviderInfo>) -> Seq<ProviderInfoView> {
    Seq::new(providers.len(), |i: int| providers[i]@)
}

fn four(a: &str, b: &str, c: &str, d: &str) -> (r: Vec<String>)
    ensures
        texts(r@) == seq![a@, b@, c@, d@],
{
    let mut v: Vec<String> = Vec::new();
    v.push(a.to_owned());
    v.push(b.to_owned());
    v.push(c.to_owned());
    v.push(d.to_owned());
    assert(texts(v@) =~= seq![a@, b@, c@, d@]);
    v
}

/// The services on offer, with their models.
pub fn get_available_providers() -> (r: Vec<ProviderInfo>)
    ensures
        providers_view(r@) == provider_catalogue(),
{
    let mut providers: Vec<ProviderInfo> = Vec::new();
    providers.push(
        ProviderInfo {
            name: "OpenAI".to_owned(),
            available: true,
            models: four("gpt-4o", "gpt-4o-mini", "gpt-4-turbo", "gpt-3.5-turbo"),
        },
    );
    providers.push(
        ProviderInfo {
            name: "Ollama".to_owned(),
            available: true,
            models: four("llama3", "mistral", "codellama", "gemma"),
        },
    );
    assert(providers_view(providers@) =~= provider_catalogue());
    providers
}

} // verus!
