//! The settings of the assistant.

use vstd::prelude::*;
use vstd::string::*;
use crate::text::opt_text;

verus! {

/// The reasoning service that answers questions.
#[derive(Debug, Clone, Copy, PartialEq, Eq, Structural)]
pub enum LLMProvider {
    OpenAI,
    Ollama,
}

/// The settings of the assistant.
#[derive(Debug, PartialEq, Eq)]
pub struct AppConfig {
    pub llm_provider: LLMProvider,
    pub openai_api_key: String,
    pub openai_model: String,
    pub ollama_url: String,
    pub ollama_model: String,
    pub capture_interval_secs: u64,
    pub whisper_model: String,
    pub hotkey: String,
}

/// What an `AppConfig` holds.
pub struct AppConfigView {
    pub llm_provider: LLMProvider,
    pub openai_api_key: Seq<char>,
    pub openai_model: Seq<char>,
    pub ollama_url: Seq<char>,
    pub ollama_model: Seq<char>,
    pub capture_interval_secs: u64,
    pub whisper_model: Seq<char>,
    pub hotkey: Seq<char>,
}

impl View for AppConfig {
    type V = AppConfigView;

    open spec fn view(&self) -> AppConfigView {
        AppConfigView {
            llm_provider: self.llm_provider,
            openai_api_key: self.openai_api_key@,
            openai_model: self.openai_model@,
            ollama_url: self.ollama_url@,
            ollama_model: self.ollama_model@,
            capture_interval_secs: self.capture_interval_secs,
            whisper_model: self.whisper_model@,
            hotkey: self.hotkey@,
        }
    }
}

/// The settings of a fresh installation.
pub open spec fn default_settings() -> AppConfigView {
    AppConfigView {
        llm_provider: LLMProvider::OpenAI,
        openai_api_key: Seq::empty(),
        openai_model: "gpt-4o"@,
        ollama_url: "http://localhost:11434"@,
        ollama_model: "llama3"@,
        capture_interval_secs: 5,
        whisper_model: "base"@,
        hotkey: "CmdOrCtrl+Shift+C"@,
    }
}

/// The settings once a key from the environment is taken into account: a
/// key that is set and not empty replaces the stored one.
pub open spec fn with_env_key(settings: AppConfigView, key: Option<Seq<char>>) -> AppConfigView {
    match key {
        Some(k) => if k.len() > 0 {
            AppConfigView { openai_api_key: k, ..settings }
        } else {
            settings
        },
        None => settings,
    }
}

impl Clone for AppConfig {
    fn clone(&self) -> (r: Self)
        ensures
            r@ == self@,
    {
        AppConfig {
            llm_provider: self.llm_provider,
            openai_api_key: self.openai_api_key.clone(),
            openai_model: self.openai_model.clone(),
            ollama_url: self.ollama_url.clone(),
            ollama_model: self.ollama_model.clone(),
            capture_interval_secs: self.capture_interval_secs,
            whisper_model: self.whisper_model.clone(),
            hotkey: self.hotkey.clone(),
        }
    }
}

impl Default for AppConfig {
    fn default() -> (r: Self)
        ensures
            r@ == default_settings(),
    {
        AppConfig {
            llm_provider: LLMProvider::OpenAI,
            openai_api_key: String::new(),
            openai_model: "gpt-4o".to_owned(),
            ollama_url: "http://localhost:11434".to_owned(),
            ollama_model: "llama3".to_owned(),
            capture_interval_secs: 5,
            whisper_model: "base".to_owned(),
            hotkey: "CmdOrCtrl+Shift+C".to_owned(),
        }
    }
}

impl AppConfig {
    /// The settings to run with, from what was stored and from the key the
    /// environment offers: stored settings that could not be read give way
    /// to the defaults, and a key that is set and not empty replaces the
    /// stored one.
    pub fn resolve(stored: Option<AppConfig>, env_key: Option<String>) -> (r: AppConfig)
        ensures
            r@ == with_env_key(
                match stored {
                    Some(c) => c@,
                    None => default_settings(),
                },
                opt_text(env_key),
            ),
    {
        let mut config = match stored {
            Some(c) => c,
            None => AppConfig::default(),
        };
        match env_key {
            Some(key) => {
                if !key.as_str().is_empty() {
                    config.openai_api_key = key;
                }
            },
            None => {},
        }
        config
    }

    /// Whether a key for the OpenAI services is configured.
    pub fn has_openai_key(&self) -> (r: bool)
        ensures
            r == (self@.openai_api_key.len() > 0),
    {
        !self.openai_api_key.as_str().is_empty()
    }
}

} // verus!
