//! Session records and the store that holds the one current session.

use vstd::prelude::*;
use vstd::string::*;
use crate::ai::{AIContext, AIContextView};
use crate::clock::{fresh_id, now_rfc3339};
use crate::text::{clone_opt, clone_texts, join, joined, opt_text, texts};

verus! {

/// Where a session stands in its life.
#[derive(Debug, Clone, Copy, PartialEq, Eq, Structural)]
pub enum SessionStatus {
    Active,
    Paused,
    Ended,
}

/// Why the store turned a request down.
#[derive(Debug, Clone, Copy, PartialEq, Eq, Structural)]
pub enum SessionError {
    /// A session is already current.
    AlreadyActive,
    /// No session is current.
    NoActiveSession,
    /// The current session has nothing to summarize.
    EmptyTranscript,
}

/// One timestamped utterance.
#[derive(Debug, PartialEq, Eq)]
pub struct TranscriptEntry {
    pub timestamp: String,
    pub speaker: String,
    pub text: String,
}

/// What a `TranscriptEntry` holds, as plain sequences.
pub struct TranscriptEntryView {
    pub timestamp: Seq<char>,
    pub speaker: Seq<char>,
    pub text: Seq<char>,
}

impl View for TranscriptEntry {
    type V = TranscriptEntryView;

    open spec fn view(&self) -> TranscriptEntryView {
        TranscriptEntryView { timestamp: self.timestamp@, speaker: self.speaker@, text: self.text@ }
    }
}

impl Clone for TranscriptEntry {
    fn clone(&self) -> (r: Self)
        ensures
            r@ == self@,
    {
        TranscriptEntry {
            timestamp: self.timestamp.clone(),
            speaker: self.speaker.clone(),
            text: self.text.clone(),
        }
    }
}

/// The views of the entries of a transcript, in order.
pub open spec fn transcript_view(entries: Seq<TranscriptEntry>) -> Seq<TranscriptEntryView> {
    Seq::new(entries.len(), |i: int| entries[i]@)
}

/// Copies a transcript entry by entry.
pub fn clone_transcript(entries: &Vec<TranscriptEntry>) -> (r: Vec<TranscriptEntry>)
    ensures
        transcript_view(r@) == transcript_view(entries@),
{
    let mut out: Vec<TranscriptEntry> = Vec::new();
    let mut i: usize = 0;
    while i < entries.len()
        invariant
            i <= entries.len(),
            out.len() == i,
            forall|j: int| 0 <= j < i ==> out@[j]@ == entries@[j]@,
        decreases entries.len() - i,
    {
        out.push(entries[i].clone());
        i += 1;
    }
    assert(transcript_view(out@) =~= transcript_view(entries@));
    out
}

/// One tracked meeting with its transcript and what was derived from it.
#[derive(Debug, PartialEq, Eq)]
pub struct Session {
    pub id: String,
    pub title: String,
    pub status: SessionStatus,
    pub start_time: String,
    pub end_time: Option<String>,
    pub transcript: Vec<TranscriptEntry>,
    pub suggestions: Vec<String>,
    pub summary: Option<String>,
    pub purpose: Option<String>,
    pub context: Option<String>,
}

/// What a `Session` holds, as plain values.
pub struct SessionView {
    pub id: Seq<char>,
    pub title: Seq<char>,
    pub status: SessionStatus,
    pub start_time: Seq<char>,
    pub end_time: Option<Seq<char>>,
    pub transcript: Seq<TranscriptEntryView>,
    pub suggestions: Seq<Seq<char>>,
    pub summary: Option<Seq<char>>,
    pub purpose: Option<Seq<char>>,
    pub context: Option<Seq<char>>,
}

impl View for Session {
    type V = SessionView;

    open spec fn view(&self) -> SessionView {
        SessionView {
            id: self.id@,
            title: self.title@,
            status: self.status,
            start_time: self.start_time@,
            end_time: opt_text(self.end_time),
            transcript: transcript_view(self.transcript@),
            suggestions: texts(self.suggestions@),
            summary: opt_text(self.summary),
            purpose: opt_text(self.purpose),
            context: opt_text(self.context),
        }
    }
}

impl Clone for Session {
    fn clone(&self) -> (r: Self)
        ensures
            r@ == self@,
    {
        Session {
            id: self.id.clone(),
            title: self.title.clone(),
            status: self.status,
            start_time: self.start_time.clone(),
            end_time: clone_opt(&self.end_time),
            transcript: clone_transcript(&self.transcript),
            suggestions: clone_texts(&self.suggestions),
            summary: clone_opt(&self.summary),
            purpose: clone_opt(&self.purpose),
            context: clone_opt(&self.context),
        }
    }
}

/// The view of the current-session slot.
pub open spec fn slot_view(slot: Option<Session>) -> Option<SessionView> {
    match slot {
        Some(s) => Some(s@),
        None => None,
    }
}

/// The session that `create` puts into an empty slot.
pub open spec fn fresh_session(
    id: Seq<char>,
    start_time: Seq<char>,
    title: Seq<char>,
    purpose: Option<Seq<char>>,
    context: Option<Seq<char>>,
) -> SessionView {
    SessionView {
        id,
        title,
        status: SessionStatus::Active,
        start_time,
        end_time: None,
        transcript: Seq::empty(),
        suggestions: Seq::empty(),
        summary: None,
        purpose,
        context,
    }
}

/// A session as `end` hands it out: ended, with its end time.
pub open spec fn ended(session: SessionView, end_time: Seq<char>) -> SessionView {
    SessionView { status: SessionStatus::Ended, end_time: Some(end_time), ..session }
}

/// A session with one more transcript entry at the end.
pub open spec fn with_entry(session: SessionView, entry: TranscriptEntryView) -> SessionView {
    SessionView { transcript: session.transcript.push(entry), ..session }
}

/// A session with its summary set.
pub open spec fn with_summary(session: SessionView, text: Seq<char>) -> SessionView {
    SessionView { summary: Some(text), ..session }
}

/// The slot after an operation, and what the operation answered.
pub struct Step<T> {
    pub slot: Option<SessionView>,
    pub answer: Result<T, SessionError>,
}

/// `create` on a slot: refused while a session is current, else the fresh
/// session becomes current and is handed out.
pub open spec fn create_step(
    slot: Option<SessionView>,
    id: Seq<char>,
    start_time: Seq<char>,
    title: Seq<char>,
    purpose: Option<Seq<char>>,
    context: Option<Seq<char>>,
) -> Step<SessionView> {
    match slot {
        Some(_) => Step { slot, answer: Err(SessionError::AlreadyActive) },
        None => {
            let session = fresh_session(id, start_time, title, purpose, context);
            Step { slot: Some(session), answer: Ok(session) }
        },
    }
}

/// `end` on a slot: refused while it is empty, else the current session is
/// handed out ended and the slot is left empty.
pub open spec fn end_step(slot: Option<SessionView>, end_time: Seq<char>) -> Step<SessionView> {
    match slot {
        Some(session) => Step { slot: None, answer: Ok(ended(session, end_time)) },
        None => Step { slot, answer: Err(SessionError::NoActiveSession) },
    }
}

/// `append_transcript` on a slot: refused while it is empty, else the entry
/// is added behind the others and handed out.
pub open spec fn append_step(
    slot: Option<SessionView>,
    timestamp: Seq<char>,
    speaker: Seq<char>,
    text: Seq<char>,
) -> Step<TranscriptEntryView> {
    match slot {
        Some(session) => {
            let entry = TranscriptEntryView { timestamp, speaker, text };
            Step { slot: Some(with_entry(session, entry)), answer: Ok(entry) }
        },
        None => Step { slot, answer: Err(SessionError::NoActiveSession) },
    }
}

/// A session with one more suggestion at the end.
pub open spec fn with_suggestion(session: SessionView, text: Seq<char>) -> SessionView {
    SessionView { suggestions: session.suggestions.push(text), ..session }
}

/// `attach_suggestion` on a slot: nothing happens while it is empty.
pub open spec fn suggestion_added(slot: Option<SessionView>, text: Seq<char>) -> Option<SessionView> {
    match slot {
        Some(session) => Some(with_suggestion(session, text)),
        None => None,
    }
}

/// `attach_summary` on a slot: nothing happens while it is empty.
pub open spec fn summary_step(slot: Option<SessionView>, text: Seq<char>) -> Option<SessionView> {
    match slot {
        Some(session) => Some(with_summary(session, text)),
        None => None,
    }
}

/// A slot is in order if it is empty or holds a session that has not ended.
pub open spec fn slot_in_order(slot: Option<SessionView>) -> bool {
    slot matches Some(session) ==> session.status != SessionStatus::Ended
}

/// The view of what an operation answered.
pub open spec fn answer_view<T: View>(answer: Result<T, SessionError>) -> Result<T::V, SessionError> {
    match answer {
        Ok(v) => Ok(v@),
        Err(e) => Err(e),
    }
}

/// One transcript entry as a line of the text handed to the summarizer.
pub open spec fn summary_line(entry: TranscriptEntryView) -> Seq<char> {
    "["@ + entry.timestamp + "] "@ + entry.speaker + ": "@ + entry.text
}

/// The transcript as the text handed to the summarizer: one line per entry.
pub open spec fn summary_text(transcript: Seq<TranscriptEntryView>) -> Seq<char> {
    joined(Seq::new(transcript.len(), |i: int| summary_line(transcript[i])), "\n"@)
}

/// What `summary_transcript` answers on a slot.
pub open spec fn summary_source(slot: Option<SessionView>) -> Result<Seq<char>, SessionError> {
    match slot {
        None => Err(SessionError::NoActiveSession),
        Some(session) => if summary_text(session.transcript).len() == 0 {
            Err(SessionError::EmptyTranscript)
        } else {
            Ok(summary_text(session.transcript))
        },
    }
}

/// What is asked of the reasoning service to have a session summarized.
#[derive(Debug, PartialEq, Eq)]
pub struct SummaryPlan {
    pub question: String,
    pub context: AIContext,
}

/// What a `SummaryPlan` holds.
pub struct SummaryPlanView {
    pub question: Seq<char>,
    pub context: AIContextView,
}

impl View for SummaryPlan {
    type V = SummaryPlanView;

    open spec fn view(&self) -> SummaryPlanView {
        SummaryPlanView { question: self.question@, context: self.context@ }
    }
}

/// What the question for a summary opens with.
pub const SUMMARY_QUESTION: &'static str =
    "Summarize the following meeting transcript into key points, action items, and decisions:\n\n";

/// The instruction that goes along with the question for a summary.
pub const SUMMARY_INSTRUCTION: &'static str =
    "Generate a concise meeting summary with: 1) Key Points 2) Action Items 3) Decisions Made";

/// The plan for summarizing a transcript given as text.
pub open spec fn summary_plan(transcript: Seq<char>) -> SummaryPlanView {
    SummaryPlanView {
        question: SUMMARY_QUESTION@ + transcript,
        context: AIContextView {
            transcript: Some(transcript),
            screen_description: None,
            custom_prompt: Some(SUMMARY_INSTRUCTION@),
            screen_base64: None,
        },
    }
}

impl SessionError {
    /// The message shown for this error.
    pub fn message(&self) -> (r: String)
        ensures
            r@ == match *self {
                SessionError::AlreadyActive => "A session is already active. End it before starting a new one."@,
                SessionError::NoActiveSession => "No active session"@,
                SessionError::EmptyTranscript => "No transcript to summarize"@,
            },
    {
        match self {
            SessionError::AlreadyActive => "A session is already active. End it before starting a new one.".to_owned(),
            SessionError::NoActiveSession => "No active session".to_owned(),
            SessionError::EmptyTranscript => "No transcript to summarize".to_owned(),
        }
    }
}

/// Holds the one current session, if any.
pub struct SessionManager {
    current_session: Option<Session>,
}

impl View for SessionManager {
    type V = Option<SessionView>;

    closed spec fn view(&self) -> Option<SessionView> {
        slot_view(self.current_session)
    }
}

impl SessionManager {
    #[verifier::type_invariant]
    spec fn in_order(self) -> bool {
        slot_in_order(slot_view(self.current_session))
    }

    /// Empties the slot and hands out what it held.
    fn take_slot(&mut self) -> (r: Option<Session>)
        ensures
            final(self)@ is None,
            slot_view(r) == old(self)@,
            slot_in_order(old(self)@),
    {
        proof {
            use_type_invariant(&*self);
        }
        let mut taken = SessionManager { current_session: None };
        std::mem::swap(self, &mut taken);
        taken.current_session
    }

    /// A store with no current session.
    pub fn new() -> (r: Self)
        ensures
            r@ is None,
    {
        SessionManager { current_session: None }
    }

    /// Whether a session is current.
    pub fn has_session(&self) -> (r: bool)
        ensures
            r == self@ is Some,
    {
        self.current_session.is_some()
    }

    /// A copy of the current session, if any. It has not ended.
    pub fn get_current_session(&self) -> (r: Option<Session>)
        ensures
            slot_view(r) == self@,
            slot_in_order(self@),
    {
        proof {
            use_type_invariant(self);
        }
        match &self.current_session {
            Some(s) => Some(s.clone()),
            None => None,
        }
    }

    /// Makes a session with the given identity and start time current.
    pub fn create_with(
        &mut self,
        id: String,
        start_time: String,
        title: String,
        purpose: Option<String>,
        context: Option<String>,
    ) -> (r: Result<Session, SessionError>)
        ensures
            final(self)@ == create_step(
                old(self)@,
                id@,
                start_time@,
                title@,
                opt_text(purpose),
                opt_text(context),
            ).slot,
            answer_view(r) == create_step(
                old(self)@,
                id@,
                start_time@,
                title@,
                opt_text(purpose),
                opt_text(context),
            ).answer,
    {
        if self.current_session.is_some() {
            return Err(SessionError::AlreadyActive);
        }
        let session = Session {
            id,
            title,
            status: SessionStatus::Active,
            start_time,
            end_time: None,
            transcript: Vec::new(),
            suggestions: Vec::new(),
            summary: None,
            purpose,
            context,
        };
        assert(session@ =~= fresh_session(
            id@,
            start_time@,
            title@,
            opt_text(purpose),
            opt_text(context),
        )) by {
            assert(session@.transcript =~= Seq::<TranscriptEntryView>::empty());
            assert(session@.suggestions =~= Seq::<Seq<char>>::empty());
        }
        let copy = session.clone();
        self.current_session = Some(session);
        Ok(copy)
    }

    /// Starts a session under a fresh identifier, stamped with the current
    /// time: `create_with` for the identifier and the time that the session
    /// handed out carries. Refused with `AlreadyActive` while a session is
    /// current.
    pub fn create_session(
        &mut self,
        title: String,
        purpose: Option<String>,
        context: Option<String>,
    ) -> (r: Result<Session, SessionError>)
        ensures
            final(self)@ == create_step(
                old(self)@,
                r->Ok_0@.id,
                r->Ok_0@.start_time,
                title@,
                opt_text(purpose),
                opt_text(context),
            ).slot,
            answer_view(r) == create_step(
                old(self)@,
                r->Ok_0@.id,
                r->Ok_0@.start_time,
                title@,
                opt_text(purpose),
                opt_text(context),
            ).answer,
    {
        if self.current_session.is_some() {
            return Err(SessionError::AlreadyActive);
        }
        let id = fresh_id();
        let start_time = now_rfc3339();
        self.create_with(id, start_time, title, purpose, context)
    }

    /// Ends the current session at the given time and hands it out; the
    /// slot is empty afterwards.
    pub fn end_at(&mut self, end_time: String) -> (r: Result<Session, SessionError>)
        ensures
            final(self)@ == end_step(old(self)@, end_time@).slot,
            answer_view(r) == end_step(old(self)@, end_time@).answer,
    {
        match self.take_slot() {
            Some(mut session) => {
                session.status = SessionStatus::Ended;
                session.end_time = Some(end_time);
                Ok(session)
            },
            None => Err(SessionError::NoActiveSession),
        }
    }

    /// Ends the current session now: `end_at` for the end time that the
    /// session handed out carries. Refused with `NoActiveSession` while the
    /// slot is empty.
    pub fn end_session(&mut self) -> (r: Result<Session, SessionError>)
        ensures
            final(self)@ == end_step(old(self)@, r->Ok_0@.end_time->Some_0).slot,
            answer_view(r) == end_step(old(self)@, r->Ok_0@.end_time->Some_0).answer,
    {
        if self.current_session.is_none() {
            return Err(SessionError::NoActiveSession);
        }
        let end_time = now_rfc3339();
        self.end_at(end_time)
    }

    /// Adds an utterance with the given timestamp behind the transcript of
    /// the current session.
    pub fn append_at(&mut self, timestamp: String, speaker: String, text: String) -> (r: Result<
        TranscriptEntry,
        SessionError,
    >)
        ensures
            final(self)@ == append_step(old(self)@, timestamp@, speaker@, text@).slot,
            answer_view(r) == append_step(old(self)@, timestamp@, speaker@, text@).answer,
    {
        match self.take_slot() {
            Some(mut session) => {
                let ghost before = session@;
                let entry = TranscriptEntry { timestamp, speaker, text };
                let copy = entry.clone();
                session.transcript.push(entry);
                assert(session@ =~= with_entry(before, copy@)) by {
                    assert(session@.transcript =~= before.transcript.push(copy@));
                }
                self.current_session = Some(session);
                Ok(copy)
            },
            None => Err(SessionError::NoActiveSession),
        }
    }

    /// Adds an utterance, stamped with the current time, behind the
    /// transcript of the current session: `append_at` for the timestamp that
    /// the entry handed out carries. Refused with `NoActiveSession` while
    /// the slot is empty.
    pub fn add_transcript_entry(&mut self, speaker: String, text: String) -> (r: Result<
        TranscriptEntry,
        SessionError,
    >)
        ensures
            final(self)@ == append_step(old(self)@, r->Ok_0@.timestamp, speaker@, text@).slot,
            answer_view(r) == append_step(old(self)@, r->Ok_0@.timestamp, speaker@, text@).answer,
    {
        if self.current_session.is_none() {
            return Err(SessionError::NoActiveSession);
        }
        let timestamp = now_rfc3339();
        self.append_at(timestamp, speaker, text)
    }

    /// A copy of the transcript of the current session.
    pub fn get_session_transcript(&self) -> (r: Result<Vec<TranscriptEntry>, SessionError>)
        ensures
            match self@ {
                Some(session) => r is Ok && transcript_view(r->Ok_0@) == session.transcript,
                None => r == Err::<Vec<TranscriptEntry>, SessionError>(SessionError::NoActiveSession),
            },
    {
        match &self.current_session {
            Some(s) => Ok(clone_transcript(&s.transcript)),
            None => Err(SessionError::NoActiveSession),
        }
    }

    /// The transcript of the current session as the text handed to the
    /// summarizer. Refused with `NoActiveSession` while the slot is empty,
    /// and with `EmptyTranscript` where that text would be empty.
    pub fn summary_transcript(&self) -> (r: Result<String, SessionError>)
        ensures
            match r {
                Ok(text) => summary_source(self@) == Ok::<Seq<char>, SessionError>(text@),
                Err(e) => summary_source(self@) == Err::<Seq<char>, SessionError>(e),
            },
    {
        match &self.current_session {
            None => Err(SessionError::NoActiveSession),
            Some(session) => {
                let ghost entries = session@.transcript;
                let mut lines: Vec<String> = Vec::new();
                let mut i: usize = 0;
                while i < session.transcript.len()
                    invariant
                        i <= session.transcript.len(),
                        entries == transcript_view(session.transcript@),
                        lines.len() == i,
                        forall|j: int| 0 <= j < i ==> lines@[j]@ == summary_line(entries[j]),
                    decreases session.transcript.len() - i,
                {
                    let entry = &session.transcript[i];
                    let mut line = "[".to_owned();
                    line.append(entry.timestamp.as_str());
                    line.append("] ");
                    line.append(entry.speaker.as_str());
                    line.append(": ");
                    line.append(entry.text.as_str());
                    lines.push(line);
                    i += 1;
                }
                assert(texts(lines@) =~= Seq::new(
                    entries.len(),
                    |i: int| summary_line(entries[i]),
                ));
                let text = join(&lines, "\n");
                if text.as_str().is_empty() {
                    Err(SessionError::EmptyTranscript)
                } else {
                    Ok(text)
                }
            },
        }
    }

    /// What to ask of the reasoning service to have the current session
    /// summarized. Refused as `summary_transcript` is.
    pub fn generate_summary_request(&self) -> (r: Result<SummaryPlan, SessionError>)
        ensures
            match r {
                Ok(plan) => summary_source(self@) is Ok && plan@ == summary_plan(
                    summary_source(self@)->Ok_0,
                ),
                Err(e) => summary_source(self@) == Err::<Seq<char>, SessionError>(e),
            },
    {
        match self.summary_transcript() {
            Err(e) => Err(e),
            Ok(text) => {
                let mut question = SUMMARY_QUESTION.to_owned();
                question.append(text.as_str());
                Ok(
                    SummaryPlan {
                        question,
                        context: AIContext {
                            transcript: Some(text),
                            screen_description: None,
                            custom_prompt: Some(SUMMARY_INSTRUCTION.to_owned()),
                            screen_base64: None,
                        },
                    },
                )
            },
        }
    }

    /// Adds a suggestion behind those of the current session. Without a
    /// current session the text is dropped.
    pub fn attach_suggestion(&mut self, text: String)
        ensures
            final(self)@ == suggestion_added(old(self)@, text@),
    {
        match self.take_slot() {
            Some(mut session) => {
                let ghost before = session@;
                session.suggestions.push(text);
                assert(session@ =~= with_suggestion(before, text@)) by {
                    assert(session@.suggestions =~= before.suggestions.push(text@));
                }
                self.current_session = Some(session);
            },
            None => {},
        }
    }

    /// Sets the summary of the current session. Without a current session
    /// the text is dropped.
    pub fn attach_summary(&mut self, text: String)
        ensures
            final(self)@ == summary_step(old(self)@, text@),
    {
        match self.take_slot() {
            Some(mut session) => {
                session.summary = Some(text);
                self.current_session = Some(session);
            },
            None => {},
        }
    }
}


/// A second `create` without an `end` in between is refused: whatever the
/// first one answered, a session is current after it.
pub proof fn law_second_create_is_refused(
    slot: Option<SessionView>,
    first_id: Seq<char>,
    first_start: Seq<char>,
    first_title: Seq<char>,
    first_purpose: Option<Seq<char>>,
    first_context: Option<Seq<char>>,
    id: Seq<char>,
    start_time: Seq<char>,
    title: Seq<char>,
    purpose: Option<Seq<char>>,
    context: Option<Seq<char>>,
)
    ensures
        create_step(
            create_step(slot, first_id, first_start, first_title, first_purpose, first_context).slot,
            id,
            start_time,
            title,
            purpose,
            context,
        ).answer == Err::<SessionView, SessionError>(SessionError::AlreadyActive),
{
}

/// After an `end` that succeeded, `create` succeeds at once and makes the
/// session it was given current. Its identifier is the one drawn for it, so
/// it differs from the identifier of the ended session wherever the draw
/// does.
pub proof fn law_create_after_end(
    slot: Option<SessionView>,
    end_time: Seq<char>,
    id: Seq<char>,
    start_time: Seq<char>,
    title: Seq<char>,
    purpose: Option<Seq<char>>,
    context: Option<Seq<char>>,
)
    requires
        slot is Some,
    ensures
        end_step(slot, end_time).answer is Ok,
        create_step(
            end_step(slot, end_time).slot,
            id,
            start_time,
            title,
            purpose,
            context,
        ).answer == Ok::<SessionView, SessionError>(
            fresh_session(id, start_time, title, purpose, context),
        ),
        create_step(
            end_step(slot, end_time).slot,
            id,
            start_time,
            title,
            purpose,
            context,
        ).slot == Some(fresh_session(id, start_time, title, purpose, context)),
        id != slot->Some_0.id ==> fresh_session(id, start_time, title, purpose, context).id
            != end_step(slot, end_time).answer->Ok_0.id,
{
}

/// At most one session is current, and it has not ended: every operation
/// takes a slot that is in order to one that is.
pub proof fn law_slot_stays_in_order(
    slot: Option<SessionView>,
    stamp: Seq<char>,
    id: Seq<char>,
    title: Seq<char>,
    purpose: Option<Seq<char>>,
    context: Option<Seq<char>>,
    speaker: Seq<char>,
    text: Seq<char>,
)
    requires
        slot_in_order(slot),
    ensures
        slot_in_order(create_step(slot, id, stamp, title, purpose, context).slot),
        slot_in_order(end_step(slot, stamp).slot),
        slot_in_order(append_step(slot, stamp, speaker, text).slot),
        slot_in_order(summary_step(slot, text)),
        slot_in_order(suggestion_added(slot, text)),
{
}

/// A session that has ended takes no further writes: it has left the slot,
/// so appending is refused and a summary is dropped.
pub proof fn law_ended_session_is_closed(
    slot: Option<SessionView>,
    end_time: Seq<char>,
    stamp: Seq<char>,
    speaker: Seq<char>,
    text: Seq<char>,
)
    requires
        slot is Some,
    ensures
        end_step(slot, end_time).answer->Ok_0.status == SessionStatus::Ended,
        end_step(slot, end_time).answer->Ok_0.transcript == slot->Some_0.transcript,
        append_step(end_step(slot, end_time).slot, stamp, speaker, text).answer == Err::<
            TranscriptEntryView,
            SessionError,
        >(SessionError::NoActiveSession),
        summary_step(end_step(slot, end_time).slot, text) is None,
        suggestion_added(end_step(slot, end_time).slot, text) is None,
{
}

/// The transcript only grows at its end: an append keeps every earlier
/// entry in its place and puts the new one last, and no other operation
/// touches the transcript of the current session.
pub proof fn law_transcript_is_append_only(
    slot: Option<SessionView>,
    stamp: Seq<char>,
    speaker: Seq<char>,
    text: Seq<char>,
)
    requires
        slot is Some,
    ensures
        append_step(slot, stamp, speaker, text).slot->Some_0.transcript.len()
            == slot->Some_0.transcript.len() + 1,
        forall|i: int|
            0 <= i < slot->Some_0.transcript.len() ==> append_step(
                slot,
                stamp,
                speaker,
                text,
            ).slot->Some_0.transcript[i] == slot->Some_0.transcript[i],
        append_step(slot, stamp, speaker, text).slot->Some_0.transcript.last()
            == (TranscriptEntryView { timestamp: stamp, speaker, text }),
        summary_step(slot, text)->Some_0.transcript == slot->Some_0.transcript,
        suggestion_added(slot, text)->Some_0.transcript == slot->Some_0.transcript,
{
}

} // verus!
