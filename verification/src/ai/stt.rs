//! Requests to the speech-to-text service.

use vstd::prelude::*;
use vstd::string::*;
use crate::ai::AiError;
use crate::config::{AppConfig, AppConfigView};

verus! {

/// A clip on its way to the transcription service, as a multipart form.
#[derive(Debug, PartialEq, Eq)]
pub struct TranscriptionRequest {
    pub url: String,
    pub api_key: String,
    pub model: String,
    pub language: String,
    pub response_format: String,
    pub file_name: String,
    pub mime_type: String,
    pub audio: Vec<u8>,
}

/// What a `TranscriptionRequest` holds.
pub struct TranscriptionRequestView {
    pub url: Seq<char>,
    pub api_key: Seq<char>,
    pub model: Seq<char>,
    pub language: Seq<char>,
    pub response_format: Seq<char>,
    pub file_name: Seq<char>,
    pub mime_type: Seq<char>,
    pub audio: Seq<u8>,
}

impl View for TranscriptionRequest {
    type V = TranscriptionRequestView;

    open spec fn view(&self) -> TranscriptionRequestView {
        TranscriptionRequestView {
            url: self.url@,
            api_key: self.api_key@,
            model: self.model@,
            language: self.language@,
            response_format: self.response_format@,
            file_name: self.file_name@,
            mime_type: self.mime_type@,
            audio: self.audio@,
        }
    }
}

/// The request that carries a clip to the service.
pub open spec fn transcription_request(config: AppConfigView, audio: Seq<u8>) -> Result<
    TranscriptionRequestView,
    AiError,
> {
    if config.openai_api_key.len() == 0 {
        Err(AiError::KeyNotConfigured)
    } else {
        Ok(
            TranscriptionRequestView {
                url: "https://api.openai.com/v1/audio/transcriptions"@,
                api_key: config.openai_api_key,
                model: "whisper-1"@,
                language: "en"@,
                response_format: "json"@,
                file_name: "audio.wav"@,
                mime_type: "audio/wav"@,
                audio,
            },
        )
    }
}

/// The request that carries a clip to the service. Refused where no key is
/// configured.
pub fn transcribe_request(config: &AppConfig, audio_wav: Vec<u8>) -> (r: Result<
    TranscriptionRequest,
    AiError,
>)
    ensures
        match r {
            Ok(request) => transcription_request(config@, audio_wav@) == Ok::<
                TranscriptionRequestView,
                AiError,
            >(request@),
            Err(e) => transcription_request(config@, audio_wav@) == Err::<
                TranscriptionRequestView,
                AiError,
            >(e),
        },
{
    if config.openai_api_key.as_str().is_empty() {
        return Err(AiError::KeyNotConfigured);
    }
    Ok(
        TranscriptionRequest {
            url: "https://api.openai.com/v1/audio/transcriptions".to_owned(),
            api_key: config.openai_api_key.clone(),
            model: "whisper-1".to_owned(),
            language: "en".to_owned(),
            response_format: "json".to_owned(),
            file_name: "audio.wav".to_owned(),
            mime_type: "audio/wav".to_owned(),
            audio: audio_wav,
        },
    )
}

} // verus!
