//! The three background loops, one tick at a time: detecting a meeting,
//! cutting the microphone buffer into clips, and asking for a suggestion
//! when the transcript has grown.
//!
//! Each tick is a function from the state of its loop and what the tick
//! observed to the next state and what is to be done. Waiting for the timer
//! and doing what a tick asks for is left to the caller.

use vstd::prelude::*;
use vstd::string::*;
use crate::ai::{AIMessage, AIMessageView, messages_view};
use crate::capture::audio::{
    AudioError, CaptureController, ControllerView, drained, encodable, pcm_values, wav_clip,
};
use crate::session::manager::{
    Session, SessionManager, SessionView, TranscriptEntry, TranscriptEntryView, fresh_session,
    slot_view, transcript_view,
};
use crate::text::{
    clone_opt, contains, contains_text, is_blank, join, joined, opt_text, same_text, texts,
    to_uppercase, trim, trimmed, uppercased,
};

verus! {

/// The name under which a change of the detected meeting is notified.
pub const MEETING_DETECTED: &'static str = "meeting-detected";

/// The name under which a session started by detection is notified.
pub const SESSION_AUTO_STARTED: &'static str = "session-auto-started";

/// The name under which a transcribed chunk is notified.
pub const TRANSCRIPTION_CHUNK: &'static str = "transcription-chunk";

/// Whether `regex` finds a match of a pattern anywhere in a text, or `None`
/// where it refuses the pattern.
pub uninterp spec fn pattern_match(pattern: Seq<char>, text: Seq<char>) -> Option<bool>;

/// Compiles the pattern with `regex::Regex::new` and asks `is_match` of the
/// text.
///
/// Claims only that the answer is the one that `pattern_match` names for
/// this pattern and text, with `None` for a pattern that does not compile.
#[verifier::external_body]
fn match_pattern(pattern: &str, text: &str) -> (r: Option<bool>)
    ensures
        r == pattern_match(pattern@, text@),
{
    match regex::Regex::new(pattern) {
        Ok(re) => Some(re.is_match(text)),
        Err(_) => None,
    }
}

/// The pattern that the titles of meeting windows match: one of the known
/// product name fragments, in any case.
pub const MEETING_PATTERN: &'static str = "(?i)(Meet -|Zoom Meeting|Microsoft Teams|Webex|GoToMeeting)";

/// The pattern that the titles of meeting windows match.
pub open spec fn meeting_pattern() -> Seq<char> {
    MEETING_PATTERN@
}

/// Whether a window title is that of a meeting.
pub open spec fn is_meeting_title(title: Seq<char>) -> bool {
    pattern_match(meeting_pattern(), title) == Some(true)
}

/// The first meeting title among `titles` from `from` on.
pub open spec fn first_meeting(titles: Seq<Seq<char>>, from: int) -> Option<Seq<char>>
    decreases titles.len() - from,
{
    if from < 0 || from >= titles.len() {
        None
    } else if is_meeting_title(titles[from]) {
        Some(titles[from])
    } else {
        first_meeting(titles, from + 1)
    }
}

/// What a detection tick decides.
pub struct Detection {
    /// The title remembered for the next tick.
    pub last_title: Option<Seq<char>>,
    /// The notification to send, if any, with the title it carries.
    pub notify: Option<Option<Seq<char>>>,
    /// The title to start a session under, if one is to be started.
    pub start: Option<Seq<char>>,
}

/// One tick of the detection loop: a title that differs from the one
/// remembered is notified, also where it went away; a title that is there
/// while no session is current starts one.
pub open spec fn detection_step(
    last_title: Option<Seq<char>>,
    current: Option<Seq<char>>,
    session_active: bool,
) -> Detection {
    Detection {
        last_title: current,
        notify: if current != last_title {
            Some(current)
        } else {
            None
        },
        start: if session_active {
            None
        } else {
            current
        },
    }
}

/// The purpose under which a detected meeting is recorded.
pub const MEETING_PURPOSE: &'static str = "meeting";

/// The purpose under which a detected meeting is recorded.
pub open spec fn meeting_purpose() -> Seq<char> {
    MEETING_PURPOSE@
}

/// What a detection tick asks its caller to do.
#[derive(Debug, PartialEq, Eq)]
pub struct DetectionOutcome {
    /// The "meeting detected" notification to send, with the title it
    /// carries.
    pub detected: Option<Option<String>>,
    /// The session that was started; both capture sources are to be
    /// started with it.
    pub started: Option<Session>,
}

/// The view of a notification.
pub open spec fn notify_view(detected: Option<Option<String>>) -> Option<Option<Seq<char>>> {
    match detected {
        Some(title) => Some(opt_text(title)),
        None => None,
    }
}

/// The detection loop: it remembers the meeting title it saw last.
pub struct LiveEngine {
    last_detected_title: Option<String>,
}

impl View for LiveEngine {
    type V = Option<Seq<char>>;

    closed spec fn view(&self) -> Option<Seq<char>> {
        opt_text(self.last_detected_title)
    }
}

/// Whether two optional texts are the same.
fn same_opt(a: &Option<String>, b: &Option<String>) -> (r: bool)
    ensures
        r == (opt_text(*a) == opt_text(*b)),
{
    match a {
        Some(x) => match b {
            Some(y) => same_text(x.as_str(), y.as_str()),
            None => false,
        },
        None => b.is_none(),
    }
}

impl LiveEngine {
    /// A loop that has seen no meeting yet.
    pub fn new() -> (r: Self)
        ensures
            r@ is None,
    {
        LiveEngine { last_detected_title: None }
    }

    /// Whether a window title is that of a meeting.
    pub fn is_meeting(title: &str) -> (r: bool)
        ensures
            r == is_meeting_title(title@),
    {
        match match_pattern(MEETING_PATTERN, title) {
            Some(found) => found,
            None => false,
        }
    }

    /// The title of the first window, in the order given, that is a
    /// meeting.
    pub fn detect(titles: &Vec<String>) -> (r: Option<String>)
        ensures
            opt_text(r) == first_meeting(texts(titles@), 0),
    {
        let mut i: usize = 0;
        while i < titles.len()
            invariant
                i <= titles.len(),
                first_meeting(texts(titles@), 0) == first_meeting(texts(titles@), i as int),
            decreases titles.len() - i,
        {
            if LiveEngine::is_meeting(titles[i].as_str()) {
                return Some(titles[i].clone());
            }
            i += 1;
        }
        None
    }

    /// One tick of the detection loop over the titles of the visible
    /// windows. Starts a session where a meeting is seen and none is
    /// current.
    pub fn monitor_tick(&mut self, titles: &Vec<String>, sessions: &mut SessionManager) -> (r:
        DetectionOutcome)
        ensures
            ({
                let step = detection_step(
                    old(self)@,
                    first_meeting(texts(titles@), 0),
                    old(sessions)@ is Some,
                );
                &&& final(self)@ == step.last_title
                &&& notify_view(r.detected) == step.notify
                &&& match step.start {
                    Some(title) => r.started is Some && final(sessions)@ == Some(r.started->Some_0@)
                        && r.started->Some_0@ == fresh_session(
                        r.started->Some_0@.id,
                        r.started->Some_0@.start_time,
                        title,
                        Some(meeting_purpose()),
                        None,
                    ),
                    None => r.started is None && final(sessions)@ == old(sessions)@,
                }
            }),
    {
        let current = LiveEngine::detect(titles);
        let detected = if same_opt(&current, &self.last_detected_title) {
            None
        } else {
            Some(clone_opt(&current))
        };
        let started = match &current {
            Some(title) => {
                if sessions.has_session() {
                    None
                } else {
                    match sessions.create_session(title.clone(), Some(MEETING_PURPOSE.to_owned()), None) {
                        Ok(session) => Some(session),
                        Err(_) => None,
                    }
                }
            },
            None => None,
        };
        self.last_detected_title = current;
        DetectionOutcome { detected, started }
    }
}

/// Polling again with the same windows sends no second notification, and
/// a meeting that went away is notified once, without a title.
pub proof fn law_detection_notifies_changes(
    last_title: Option<Seq<char>>,
    current: Option<Seq<char>>,
    active: bool,
    active_again: bool,
)
    ensures
        detection_step(
            detection_step(last_title, current, active).last_title,
            current,
            active_again,
        ).notify is None,
        last_title is Some ==> detection_step(last_title, None, active).notify == Some(
            None::<Seq<char>>,
        ),
        last_title != current ==> detection_step(last_title, current, active).notify == Some(current),
        detection_step(last_title, None, active).start is None,
{
}

/// The first match wins: the title detected is a meeting title, and no
/// title before it is one.
pub proof fn law_first_match_wins(titles: Seq<Seq<char>>, from: int)
    requires
        0 <= from <= titles.len(),
    ensures
        match first_meeting(titles, from) {
            Some(title) => exists|i: int|
                from <= i < titles.len() && titles[i] == title && is_meeting_title(titles[i])
                    && forall|j: int| from <= j < i ==> !is_meeting_title(#[trigger] titles[j]),
            None => forall|j: int| from <= j < titles.len() ==> !is_meeting_title(#[trigger] titles[j]),
        },
    decreases titles.len() - from,
{
    if from < titles.len() {
        if is_meeting_title(titles[from]) {
            assert(from <= from < titles.len() && titles[from] == titles[from]);
        } else {
            law_first_match_wins(titles, from + 1);
            match first_meeting(titles, from + 1) {
                Some(title) => {
                    let i = choose|i: int|
                        from + 1 <= i < titles.len() && titles[i] == title && is_meeting_title(
                            titles[i],
                        ) && forall|j: int| from + 1 <= j < i ==> !is_meeting_title(#[trigger] titles[j]);
                    assert(from <= i < titles.len() && titles[i] == title && is_meeting_title(
                        titles[i],
                    ) && forall|j: int| from <= j < i ==> !is_meeting_title(#[trigger] titles[j]));
                },
                None => {},
            }
        }
    }
}


/// What a transcription tick asks its caller to do.
#[derive(Debug, PartialEq, Eq)]
pub enum TranscriptionAction {
    /// Nothing this tick.
    Skip,
    /// Send the clip to the transcription service, without waiting for the
    /// answer.
    Dispatch(Vec<u8>),
}

/// What to do with the outcome of draining the microphone: a clip is sent
/// where a key for the service is configured, and anything else is
/// skipped.
pub fn plan_transcription(clip: Result<Vec<u8>, AudioError>, key_configured: bool) -> (r:
    TranscriptionAction)
    ensures
        r == match clip {
            Ok(bytes) => if key_configured {
                TranscriptionAction::Dispatch(bytes)
            } else {
                TranscriptionAction::Skip
            },
            Err(_) => TranscriptionAction::Skip,
        },
{
    match clip {
        Ok(bytes) => if key_configured {
            TranscriptionAction::Dispatch(bytes)
        } else {
            TranscriptionAction::Skip
        },
        Err(_) => TranscriptionAction::Skip,
    }
}

/// Whether a tick owes a clip: a session is current, a key for the
/// service is configured, and the microphone holds samples whose clip fits
/// the format.
pub open spec fn clip_is_due(
    session_active: bool,
    microphone: ControllerView,
    key_configured: bool,
) -> bool {
    &&& session_active
    &&& key_configured
    &&& microphone.buffer.samples.len() > 0
    &&& encodable(microphone.buffer.sample_rate, microphone.buffer.samples.len())
}

/// One tick of the transcription loop. Without a current session nothing
/// is touched. With one, the microphone buffer is drained: an empty buffer
/// skips the tick, and so do samples whose clip does not fit the format or
/// that no service is configured for. In every other case the clip of the
/// samples is dispatched.
pub fn transcription_tick(
    session_active: bool,
    microphone: &mut CaptureController,
    key_configured: bool,
) -> (r: TranscriptionAction)
    ensures
        !session_active || old(microphone)@.buffer.samples.len() == 0 ==> final(microphone)@
            == old(microphone)@,
        session_active && old(microphone)@.buffer.samples.len() > 0 ==> final(microphone)@ == (
        ControllerView { buffer: drained(old(microphone)@.buffer), ..old(microphone)@ }),
        match r {
            TranscriptionAction::Dispatch(bytes) => clip_is_due(
                session_active,
                old(microphone)@,
                key_configured,
            ) && bytes@ == wav_clip(
                old(microphone)@.buffer.sample_rate,
                pcm_values(old(microphone)@.buffer.samples),
            ),
            TranscriptionAction::Skip => !clip_is_due(
                session_active,
                old(microphone)@,
                key_configured,
            ),
        },
{
    if !session_active {
        return TranscriptionAction::Skip;
    }
    let clip = microphone.drain_to_encoded_clip();
    plan_transcription(clip, key_configured)
}

/// What to report of an answer of the transcription service: its text
/// without leading and trailing whitespace, unless the service failed or
/// nothing is left of the text.
pub fn transcription_chunk(answer: Result<String, String>) -> (r: Option<String>)
    ensures
        opt_text(r) == match answer {
            Ok(text) => if trimmed(text@).len() > 0 {
                Some(trimmed(text@))
            } else {
                None
            },
            Err(_) => None,
        },
{
    match answer {
        Ok(text) => {
            let chunk = trim(text.as_str());
            if chunk.as_str().is_empty() {
                None
            } else {
                Some(chunk)
            }
        },
        Err(_) => None,
    }
}

/// The number of transcript entries that a suggestion is asked for.
pub const CONTEXT_ENTRIES: usize = 15;

/// One transcript entry as a line of the transcript block.
pub open spec fn block_line(entry: TranscriptEntryView) -> Seq<char> {
    entry.speaker + ": "@ + entry.text
}

/// The most recent entries of a transcript, oldest first.
pub open spec fn recent_entries(transcript: Seq<TranscriptEntryView>) -> Seq<TranscriptEntryView> {
    if transcript.len() > CONTEXT_ENTRIES {
        transcript.skip(transcript.len() - CONTEXT_ENTRIES)
    } else {
        transcript
    }
}

/// The lines of the transcript block.
pub open spec fn block_lines(transcript: Seq<TranscriptEntryView>) -> Seq<Seq<char>> {
    Seq::new(recent_entries(transcript).len(), |i: int| block_line(recent_entries(transcript)[i]))
}

/// The transcript block: the most recent entries, one line each.
pub open spec fn transcript_block(transcript: Seq<TranscriptEntryView>) -> Seq<char> {
    joined(block_lines(transcript), "\n"@)
}

/// The opening of the instruction, up to the purpose.
pub const INSTRUCTION_OPENING: &'static str =
    "You are VenkyAI, a world-class AI assistant helping the user during a ";

/// The rules of the instruction, after the purpose.
pub const INSTRUCTION_RULES: &'static str =
    ". Your primary goal is to provide perfectly tailored answers to interviewer questions. Detect if a question was JUST asked and provide the best response for the user to say. Be direct. NO prefixes like 'Answer:'. Respond with '[SILENCE]' if no response is needed right now. Be concise (max 3 sentences).";

/// The sentinel by which the service says that nothing is to be suggested.
pub const SILENCE: &'static str = "[SILENCE]";

/// The question put to the service.
pub const SUGGESTION_QUESTION: &'static str =
    "What is the best answer or talking point for the current moment?";

/// The opening of the instruction, up to the purpose.
pub open spec fn instruction_opening() -> Seq<char> {
    INSTRUCTION_OPENING@
}

/// The rules of the instruction, after the purpose.
pub open spec fn instruction_rules() -> Seq<char> {
    INSTRUCTION_RULES@
}

/// The part of the instruction that carries the user's context.
pub open spec fn context_section(context: Option<Seq<char>>) -> Seq<char> {
    match context {
        Some(c) => "\n\n## User's Resume/Context:\n"@ + c,
        None => Seq::empty(),
    }
}

/// The purpose as it is written into the instruction.
pub open spec fn purpose_text(purpose: Option<Seq<char>>) -> Seq<char> {
    match purpose {
        Some(p) => uppercased(p),
        None => uppercased(Seq::empty()),
    }
}

/// The system instruction of a suggestion request.
pub open spec fn suggestion_prompt(
    purpose: Option<Seq<char>>,
    context: Option<Seq<char>>,
    block: Seq<char>,
) -> Seq<char> {
    instruction_opening() + purpose_text(purpose) + instruction_rules() + context_section(context)
        + "\n\n## Recent Transcript:\n"@ + block
}

/// The one user turn of a suggestion request.
pub open spec fn suggestion_turn() -> AIMessageView {
    AIMessageView { role: "user"@, content: SUGGESTION_QUESTION@ }
}

/// A streaming request for a suggestion.
#[derive(Debug, PartialEq, Eq)]
pub struct SuggestionRequest {
    pub system_prompt: String,
    pub messages: Vec<AIMessage>,
}

/// What a `SuggestionRequest` holds.
pub struct SuggestionRequestView {
    pub system_prompt: Seq<char>,
    pub messages: Seq<AIMessageView>,
}

impl View for SuggestionRequest {
    type V = SuggestionRequestView;

    open spec fn view(&self) -> SuggestionRequestView {
        SuggestionRequestView {
            system_prompt: self.system_prompt@,
            messages: messages_view(self.messages@),
        }
    }
}

/// The request that a session gives rise to.
pub open spec fn suggestion_request(session: SessionView) -> SuggestionRequestView {
    SuggestionRequestView {
        system_prompt: suggestion_prompt(
            session.purpose,
            session.context,
            transcript_block(session.transcript),
        ),
        messages: seq![suggestion_turn()],
    }
}

/// What a suggestion tick decides.
pub struct Suggestion {
    /// The transcript length up to which suggestions were asked for.
    pub watermark: nat,
    /// The request to issue, if any.
    pub request: Option<SuggestionRequestView>,
}

/// One tick of the suggestion loop: where the transcript of the current
/// session has grown beyond the watermark, the watermark moves up to its
/// length, and a request is issued if a key for the service is configured.
pub open spec fn suggestion_step(
    watermark: nat,
    session: Option<SessionView>,
    key_configured: bool,
) -> Suggestion {
    match session {
        Some(s) => if transcript_block(s.transcript).len() > 0 && s.transcript.len() > watermark {
            Suggestion {
                watermark: s.transcript.len(),
                request: if key_configured {
                    Some(suggestion_request(s))
                } else {
                    None
                },
            }
        } else {
            Suggestion { watermark, request: None }
        },
        None => Suggestion { watermark, request: None },
    }
}

/// The view of an optional request.
pub open spec fn request_view(request: Option<SuggestionRequest>) -> Option<SuggestionRequestView> {
    match request {
        Some(r) => Some(r@),
        None => None,
    }
}

/// Whether the answer to a suggestion request is a suggestion to show: it
/// is not blank and does not hold the sentinel for silence.
pub open spec fn is_suggestion(answer: Seq<char>) -> bool {
    !contains_text(answer, SILENCE@) && trimmed(answer).len() > 0
}

/// Builds the transcript block of a transcript.
pub fn build_transcript_block(transcript: &Vec<TranscriptEntry>) -> (r: String)
    ensures
        r@ == transcript_block(transcript_view(transcript@)),
{
    let ghost entries = transcript_view(transcript@);
    let start: usize = if transcript.len() > CONTEXT_ENTRIES {
        transcript.len() - CONTEXT_ENTRIES
    } else {
        0
    };
    assert(recent_entries(entries) =~= entries.skip(start as int));
    let mut lines: Vec<String> = Vec::new();
    let mut i: usize = start;
    while i < transcript.len()
        invariant
            start <= i <= transcript.len(),
            entries == transcript_view(transcript@),
            lines.len() == i - start,
            forall|j: int| 0 <= j < i - start ==> lines@[j]@ == block_line(entries[start + j]),
        decreases transcript.len() - i,
    {
        let entry = &transcript[i];
        let mut line = entry.speaker.clone();
        line.append(": ");
        line.append(entry.text.as_str());
        lines.push(line);
        i += 1;
    }
    assert(texts(lines@) =~= block_lines(entries));
    join(&lines, "\n")
}

/// Builds the system instruction of a suggestion request.
pub fn build_suggestion_prompt(purpose: &Option<String>, context: &Option<String>, block: &str) -> (r:
    String)
    ensures
        r@ == suggestion_prompt(opt_text(*purpose), opt_text(*context), block@),
{
    let mut prompt = INSTRUCTION_OPENING.to_owned();
    let upper = match purpose {
        Some(p) => to_uppercase(p.as_str()),
        None => to_uppercase(""),
    };
    proof {
        reveal_strlit("");
        assert(""@ =~= Seq::<char>::empty());
    }
    prompt.append(upper.as_str());
    prompt.append(INSTRUCTION_RULES);
    let ghost before = prompt@;
    match context {
        Some(c) => {
            prompt.append("\n\n## User's Resume/Context:\n");
            prompt.append(c.as_str());
            assert(prompt@ =~= before + context_section(opt_text(*context)));
        },
        None => {
            assert(prompt@ =~= before + context_section(opt_text(*context)));
        },
    }
    prompt.append("\n\n## Recent Transcript:\n");
    prompt.append(block);
    prompt
}

/// Whether the answer to a suggestion request is a suggestion to show.
pub fn has_suggestion(answer: &str) -> (r: bool)
    ensures
        r == is_suggestion(answer@),
{
    !contains(answer, SILENCE) && !is_blank(answer)
}

/// The suggestion loop: it remembers the transcript length up to which it
/// has asked for suggestions.
pub struct SuggestionLoop {
    last_processed_count: usize,
}

impl View for SuggestionLoop {
    type V = nat;

    closed spec fn view(&self) -> nat {
        self.last_processed_count as nat
    }
}

impl SuggestionLoop {
    /// A loop that has asked for nothing yet.
    pub fn new() -> (r: Self)
        ensures
            r@ == 0,
    {
        SuggestionLoop { last_processed_count: 0 }
    }

    /// The transcript length up to which suggestions were asked for.
    pub fn watermark(&self) -> (r: usize)
        ensures
            r == self@,
    {
        self.last_processed_count
    }

    /// One tick of the suggestion loop over the current session.
    pub fn tick(&mut self, session: &Option<Session>, key_configured: bool) -> (r: Option<
        SuggestionRequest,
    >)
        ensures
            final(self)@ == suggestion_step(old(self)@, slot_view(*session), key_configured).watermark,
            request_view(r) == suggestion_step(
                old(self)@,
                slot_view(*session),
                key_configured,
            ).request,
    {
        match session {
            None => None,
            Some(s) => {
                let block = build_transcript_block(&s.transcript);
                let count = s.transcript.len();
                if block.as_str().is_empty() || count <= self.last_processed_count {
                    return None;
                }
                self.last_processed_count = count;
                if !key_configured {
                    return None;
                }
                let system_prompt = build_suggestion_prompt(&s.purpose, &s.context, block.as_str());
                let mut messages: Vec<AIMessage> = Vec::new();
                messages.push(
                    AIMessage {
                        role: "user".to_owned(),
                        content: SUGGESTION_QUESTION.to_owned(),
                    },
                );
                assert(messages_view(messages@) =~= seq![suggestion_turn()]);
                Some(SuggestionRequest { system_prompt, messages })
            },
        }
    }
}

proof fn lemma_joined_covers_last(parts: Seq<Seq<char>>, sep: Seq<char>)
    requires
        parts.len() > 0,
    ensures
        joined(parts, sep).len() >= parts.last().len(),
{
}

/// A transcript that has not grown since the last tick gives no second
/// request: after a tick over a session, a tick over a session whose
/// transcript is no longer issues nothing.
pub proof fn law_unchanged_transcript_is_silent(
    watermark: nat,
    first: SessionView,
    second: SessionView,
    key_configured: bool,
    key_configured_again: bool,
)
    requires
        second.transcript.len() <= first.transcript.len(),
    ensures
        suggestion_step(
            suggestion_step(watermark, Some(first), key_configured).watermark,
            Some(second),
            key_configured_again,
        ).request is None,
        suggestion_step(watermark, Some(first), key_configured).watermark >= watermark,
{
    if first.transcript.len() > 0 {
        let lines = block_lines(first.transcript);
        lemma_joined_covers_last(lines, "\n"@);
        reveal_strlit(": ");
        assert(lines.last().len() >= 2);
    }
}

} // verus!
