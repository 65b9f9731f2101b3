use venkyai::ai::llm::{ask_ai_request, ask_ai_with_context_request, build_system_prompt, get_available_providers};
use venkyai::ai::streaming::stream_chat_request;
use venkyai::ai::stt::transcribe_request;
use venkyai::ai::{ollama, openai, AIContext, AIMessage, AiError, ChatContent, ChatTurn, ProviderError, Service};
use venkyai::capture::screen::{needs_resize, ScreenCapture};
use venkyai::capture::CaptureState;
use venkyai::config::{AppConfig, LLMProvider};
use venkyai::integrations::crm::{
    accepted_result, crm_sync_contact_request, crm_sync_notes_request, get_crm_providers, not_configured_result,
    rejected_result, RecordKind,
};
use venkyai::integrations::{CRMConfig, CRMContact, CRMNote, CRMProvider, CRMSyncResult};

fn text(s: &str) -> String {
    s.to_string()
}

fn turn(role: &str, content: &str) -> ChatTurn {
    ChatTurn { role: text(role), content: ChatContent::Text(text(content)) }
}

fn with_key(provider: LLMProvider) -> AppConfig {
    let mut config = AppConfig::default();
    config.openai_api_key = text("sk-test");
    config.llm_provider = provider;
    config
}

const INSTRUCTION: &str =
    "You are VenkyAI, a helpful real-time AI assistant for meetings and interviews. Be concise and actionable.";

#[test]
fn default_settings_are_those_of_a_fresh_installation() {
    let config = AppConfig::default();
    assert_eq!(config.llm_provider, LLMProvider::OpenAI);
    assert_eq!(config.openai_api_key, "");
    assert_eq!(config.openai_model, "gpt-4o");
    assert_eq!(config.ollama_url, "http://localhost:11434");
    assert_eq!(config.ollama_model, "llama3");
    assert_eq!(config.capture_interval_secs, 5);
    assert_eq!(config.whisper_model, "base");
    assert_eq!(config.hotkey, "CmdOrCtrl+Shift+C");
    assert!(!config.has_openai_key());
    assert_eq!(config.clone(), config);
}

#[test]
fn a_key_from_the_environment_replaces_the_stored_one_unless_empty() {
    assert_eq!(AppConfig::resolve(None, None), AppConfig::default());
    let stored = with_key(LLMProvider::Ollama);
    assert_eq!(AppConfig::resolve(Some(stored.clone()), None), stored);
    assert_eq!(AppConfig::resolve(Some(stored.clone()), Some(text(""))), stored);
    let resolved = AppConfig::resolve(Some(stored.clone()), Some(text("sk-env")));
    assert_eq!(resolved.openai_api_key, "sk-env");
    assert_eq!(resolved.llm_provider, LLMProvider::Ollama);
    assert_eq!(AppConfig::resolve(None, Some(text("sk-env"))).openai_api_key, "sk-env");
}

#[test]
fn system_prompt_holds_a_section_for_each_known_part() {
    let bare = build_system_prompt(&AIContext::empty());
    assert_eq!(
        bare,
        "You are VenkyAI, a real-time AI assistant helping the user during virtual meetings, \
         interviews, and presentations. Provide concise, actionable suggestions. \
         Be direct and helpful.\n\n\
         Based on all the context above, provide helpful suggestions, talking points, \
         or answers the user might need right now. Be concise and practical."
    );
    let full = build_system_prompt(&AIContext {
        transcript: Some(text("T")),
        screen_description: Some(text("S")),
        custom_prompt: Some(text("C")),
        screen_base64: Some(text("ignored")),
    });
    assert!(full.contains(
        "helpful.\n\n## Custom Instructions\nC\n\n## Current Conversation Transcript\nT\n\n## What's Currently on Screen\nS\n\nBased on"
    ));
    assert!(!full.contains("ignored"));
}

#[test]
fn providers_on_offer_are_listed_with_their_models() {
    let providers = get_available_providers();
    assert_eq!(providers.len(), 2);
    assert_eq!(providers[0].name, "OpenAI");
    assert!(providers[0].available);
    assert_eq!(providers[0].models, vec!["gpt-4o", "gpt-4o-mini", "gpt-4-turbo", "gpt-3.5-turbo"]);
    assert_eq!(providers[1].name, "Ollama");
    assert_eq!(providers[1].models, vec!["llama3", "mistral", "codellama", "gemma"]);
}

#[test]
fn openai_requests_need_a_key() {
    let config = AppConfig::default();
    assert_eq!(openai::generate_request(&config, "q"), Err(AiError::KeyNotConfiguredSeeSettings));
    assert_eq!(ask_ai_request(&config, "q"), Err(AiError::KeyNotConfiguredSeeSettings));
    assert_eq!(stream_chat_request(&config, &vec![], &None), Err(AiError::KeyNotConfigured));
    assert_eq!(transcribe_request(&config, vec![1]), Err(AiError::KeyNotConfigured));
    assert_eq!(AiError::KeyNotConfigured.message(), "OpenAI API key not configured");
    assert_eq!(
        AiError::KeyNotConfiguredSeeSettings.message(),
        "OpenAI API key not configured. Go to Settings to add your key."
    );
}

#[test]
fn openai_request_carries_instruction_and_question() {
    let config = with_key(LLMProvider::OpenAI);
    let request = ask_ai_request(&config, "What now?").expect("planned");
    assert_eq!(request.provider, LLMProvider::OpenAI);
    assert_eq!(request.url, "https://api.openai.com/v1/chat/completions");
    assert_eq!(request.api_key, Some(text("sk-test")));
    assert_eq!(request.model, "gpt-4o");
    assert_eq!(request.max_tokens, Some(1024));
    assert!(!request.stream);
    assert_eq!(request.turns, vec![turn("system", INSTRUCTION), turn("user", "What now?")]);
}

#[test]
fn a_screen_in_the_context_goes_along_as_an_image() {
    let config = with_key(LLMProvider::OpenAI);
    let mut context = AIContext::empty();
    context.screen_base64 = Some(text("QUJD"));
    let request = ask_ai_with_context_request(&config, "See this?", &context).expect("planned");
    assert_eq!(request.turns[0], turn("system", &build_system_prompt(&context)));
    assert_eq!(
        request.turns[1],
        ChatTurn {
            role: text("user"),
            content: ChatContent::TextWithImage {
                text: text("See this?"),
                image_url: text("data:image/png;base64,QUJD"),
            },
        }
    );
    let plain = openai::generate_with_system_request(&config, "sys", "q", &AIContext::empty()).expect("planned");
    assert_eq!(plain.turns, vec![turn("system", "sys"), turn("user", "q")]);
}

#[test]
fn ollama_requests_go_to_the_configured_server_without_a_key() {
    let mut config = AppConfig::default();
    config.llm_provider = LLMProvider::Ollama;
    let request = ask_ai_request(&config, "What now?").expect("planned");
    assert_eq!(request.provider, LLMProvider::Ollama);
    assert_eq!(request.url, "http://localhost:11434/api/chat");
    assert_eq!(request.api_key, None);
    assert_eq!(request.model, "llama3");
    assert_eq!(request.max_tokens, None);
    assert_eq!(request.turns, vec![turn("system", INSTRUCTION), turn("user", "What now?")]);
    let with_context = ask_ai_with_context_request(&config, "q", &AIContext::empty()).expect("planned");
    assert_eq!(with_context.turns[0], turn("system", &build_system_prompt(&AIContext::empty())));
    assert_eq!(ollama::generate_with_system_request(&config, "s", "q").turns, vec![turn("system", "s"), turn("user", "q")]);
}

#[test]
fn answers_fall_back_to_a_stand_in() {
    let config = with_key(LLMProvider::OpenAI);
    let answer = openai::generate_response(&config, Some(text("Hi")), text("now"));
    assert_eq!((answer.content.as_str(), answer.provider.as_str(), answer.model.as_str(), answer.timestamp.as_str()), ("Hi", "OpenAI", "gpt-4o", "now"));
    assert_eq!(openai::generate_response(&config, None, text("now")).content, "No response from OpenAI");
    assert_eq!(openai::generate_with_system_response(&config, None, text("now")).content, "No response");
    let answer = ollama::generate_response(&config, None, text("now"));
    assert_eq!((answer.content.as_str(), answer.provider.as_str(), answer.model.as_str()), ("No response from Ollama", "Ollama", "llama3"));
    assert_eq!(ollama::generate_with_system_response(&config, None, text("now")).content, "No response");
    assert_eq!(ollama::generate_with_system_response(&config, Some(text("x")), text("now")).content, "x");
}

#[test]
fn stream_request_puts_the_instruction_before_the_messages() {
    let config = with_key(LLMProvider::OpenAI);
    let messages = vec![
        AIMessage { role: text("user"), content: text("one") },
        AIMessage { role: text("assistant"), content: text("two") },
    ];
    let request = stream_chat_request(&config, &messages, &Some(text("sys"))).expect("planned");
    assert!(request.stream);
    assert_eq!(request.max_tokens, None);
    assert_eq!(request.url, "https://api.openai.com/v1/chat/completions");
    assert_eq!(request.turns, vec![turn("system", "sys"), turn("user", "one"), turn("assistant", "two")]);
    let bare = stream_chat_request(&config, &messages, &None).expect("planned");
    assert_eq!(bare.turns, vec![turn("user", "one"), turn("assistant", "two")]);
}

#[test]
fn transcription_request_describes_the_clip() {
    let config = with_key(LLMProvider::OpenAI);
    let request = transcribe_request(&config, vec![1, 2, 3]).expect("planned");
    assert_eq!(request.url, "https://api.openai.com/v1/audio/transcriptions");
    assert_eq!(request.api_key, "sk-test");
    assert_eq!(request.model, "whisper-1");
    assert_eq!(request.language, "en");
    assert_eq!(request.response_format, "json");
    assert_eq!(request.file_name, "audio.wav");
    assert_eq!(request.mime_type, "audio/wav");
    assert_eq!(request.audio, vec![1, 2, 3]);
}

#[test]
fn screen_capture_holds_the_picture_in_base64() {
    let capture = ScreenCapture::from_png(&b"hello world~".to_vec(), 1920, 1080, text("now")).expect("fits");
    assert_eq!(capture.base64_image, "aGVsbG8gd29ybGR+");
    assert_eq!((capture.width, capture.height, capture.timestamp.as_str()), (1920, 1080, "now"));
    assert_eq!(ScreenCapture::from_png(&vec![0xff], 1, 1, text("t")).unwrap().base64_image, "/w==");
    assert_eq!(ScreenCapture::from_png(&vec![], 1, 1, text("t")).unwrap().base64_image, "");
    assert!(needs_resize(1281));
    assert!(!needs_resize(1280));
    let state = CaptureState::default();
    assert!(!state.is_recording_audio);
    assert_eq!(state.last_screen_capture, None);
}

fn contact() -> CRMContact {
    CRMContact {
        id: None,
        email: text("a@b.c"),
        first_name: text("Ada"),
        last_name: text("Byron"),
        company: None,
        phone: Some(text("123")),
    }
}

#[test]
fn crm_requests_follow_the_configured_provider() {
    let mut config = CRMConfig::default();
    assert_eq!(config.provider, CRMProvider::Unset);
    assert_eq!(crm_sync_contact_request(&config, &contact()), None);
    let note = CRMNote { contact_id: text("c1"), content: text("notes"), timestamp: text("t") };
    assert_eq!(crm_sync_notes_request(&config, &note), None);

    config.provider = CRMProvider::Salesforce;
    config.api_key = text("key");
    config.instance_url = text("https://x.my.salesforce.com");
    let request = crm_sync_contact_request(&config, &contact()).expect("planned");
    assert_eq!(request.url, "https://x.my.salesforce.com/services/data/v59.0/sobjects/Contact/");
    assert_eq!(request.api_key, "key");
    assert_eq!((request.phone.clone(), request.company.clone()), (Some(text("123")), None));
    let request = crm_sync_notes_request(&config, &note).expect("planned");
    assert_eq!(request.url, "https://x.my.salesforce.com/services/data/v59.0/sobjects/Note/");
    assert_eq!(request.title, Some(text("Meeting Notes - t")));
    assert_eq!(request.association_type, None);

    config.provider = CRMProvider::HubSpot;
    let request = crm_sync_contact_request(&config, &contact()).expect("planned");
    assert_eq!(request.url, "https://api.hubapi.com/crm/v3/objects/contacts");
    assert_eq!((request.phone.clone(), request.company.clone()), (Some(text("123")), Some(text(""))));
    assert_eq!((request.first_name.as_str(), request.last_name.as_str(), request.email.as_str()), ("Ada", "Byron", "a@b.c"));
    let request = crm_sync_notes_request(&config, &note).expect("planned");
    assert_eq!(request.url, "https://api.hubapi.com/crm/v3/objects/notes");
    assert_eq!(request.title, None);
    assert_eq!(request.association_type, Some(202));
    assert_eq!((request.contact_id.as_str(), request.content.as_str(), request.timestamp.as_str()), ("c1", "notes", "t"));
}

#[test]
fn crm_results_say_what_happened() {
    assert_eq!(
        not_configured_result(),
        CRMSyncResult { success: false, message: text("No CRM provider configured"), record_id: None }
    );
    assert_eq!(
        rejected_result(CRMProvider::Salesforce, "401 Unauthorized", "denied"),
        CRMSyncResult { success: false, message: text("Salesforce error (401 Unauthorized): denied"), record_id: None }
    );
    assert_eq!(rejected_result(CRMProvider::HubSpot, "500", "").message, "HubSpot error (500): ");
    assert_eq!(
        accepted_result(CRMProvider::Salesforce, RecordKind::Contact, Some(true), Some(text("003"))),
        CRMSyncResult { success: true, message: text("Contact created in Salesforce"), record_id: Some(text("003")) }
    );
    assert!(!accepted_result(CRMProvider::Salesforce, RecordKind::Note, None, None).success);
    assert_eq!(accepted_result(CRMProvider::Salesforce, RecordKind::Note, None, None).message, "Note added to Salesforce");
    assert_eq!(
        accepted_result(CRMProvider::HubSpot, RecordKind::Note, None, Some(text("9"))),
        CRMSyncResult { success: true, message: text("Note added to HubSpot"), record_id: Some(text("9")) }
    );
    assert_eq!(accepted_result(CRMProvider::HubSpot, RecordKind::Contact, Some(false), None).message, "Contact created in HubSpot");
    let providers = get_crm_providers();
    assert_eq!(providers.len(), 2);
    assert_eq!((providers[0].id.as_str(), providers[0].requires_instance_url), ("Salesforce", true));
    assert_eq!((providers[1].id.as_str(), providers[1].requires_instance_url), ("HubSpot", false));
    assert_eq!(providers[1].description, "Sync contacts and meeting notes to HubSpot CRM");
}

#[test]
fn provider_failures_read_as_their_messages() {
    let failed = |service| ProviderError::RequestFailed { service, detail: text("timeout") }.message();
    assert_eq!(failed(Service::OpenAI), "OpenAI request failed: timeout");
    assert_eq!(failed(Service::Ollama), "Ollama request failed: timeout. Is Ollama running?");
    assert_eq!(failed(Service::Whisper), "Whisper API request failed: timeout");
    assert_eq!(failed(Service::Stream), "Stream request failed: timeout");
    let rejected =
        |service| ProviderError::Rejected { service, status: text("429 Too Many Requests"), body: text("slow") }.message();
    assert_eq!(rejected(Service::OpenAI), "OpenAI API error (429 Too Many Requests): slow");
    assert_eq!(rejected(Service::Ollama), "Ollama API error (429 Too Many Requests): slow");
    assert_eq!(rejected(Service::Whisper), "Whisper API error (429 Too Many Requests): slow");
    assert_eq!(rejected(Service::Stream), "OpenAI error (429 Too Many Requests): slow");
    let unreadable = |service| ProviderError::Unreadable { service, detail: text("eof") }.message();
    assert_eq!(unreadable(Service::OpenAI), "Failed to parse OpenAI response: eof");
    assert_eq!(unreadable(Service::Ollama), "Failed to parse Ollama response: eof");
    assert_eq!(unreadable(Service::Whisper), "Failed to parse Whisper response: eof");
    assert_eq!(unreadable(Service::Stream), "Stream error: eof");
}
