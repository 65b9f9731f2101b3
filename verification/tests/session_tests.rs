use venkyai::session::manager::{Session, SessionError, SessionManager, SessionStatus, TranscriptEntry};
use venkyai::session::storage::{PromptTemplate, SessionSummary};

fn text(s: &str) -> String {
    s.to_string()
}

#[test]
fn new_store_holds_no_session() {
    let store = SessionManager::new();
    assert!(!store.has_session());
    assert_eq!(store.get_current_session(), None);
    assert_eq!(store.get_session_transcript(), Err(SessionError::NoActiveSession));
}

#[test]
fn create_makes_an_active_session_with_nothing_in_it() {
    let mut store = SessionManager::new();
    let session = store
        .create_with(text("id-1"), text("2024-01-01T10:00:00+00:00"), text("Standup"), Some(text("meeting")), None)
        .expect("created");
    assert_eq!(
        session,
        Session {
            id: text("id-1"),
            title: text("Standup"),
            status: SessionStatus::Active,
            start_time: text("2024-01-01T10:00:00+00:00"),
            end_time: None,
            transcript: vec![],
            suggestions: vec![],
            summary: None,
            purpose: Some(text("meeting")),
            context: None,
        }
    );
    assert_eq!(store.get_current_session(), Some(session));
    assert!(store.has_session());
}

#[test]
fn create_twice_without_end_fails_with_already_active() {
    let mut store = SessionManager::new();
    let first = store.create_session(text("One"), None, None).expect("created");
    assert_eq!(
        store.create_session(text("Two"), Some(text("interview")), Some(text("resume"))),
        Err(SessionError::AlreadyActive)
    );
    assert_eq!(store.create_with(text("x"), text("y"), text("Three"), None, None), Err(SessionError::AlreadyActive));
    assert_eq!(store.get_current_session(), Some(first));
}

#[test]
fn end_then_create_succeeds_with_a_different_id() {
    let mut store = SessionManager::new();
    let first = store.create_session(text("One"), None, None).expect("created");
    let ended = store.end_session().expect("ended");
    assert_eq!(ended.id, first.id);
    let second = store.create_session(text("Two"), None, None).expect("created again");
    assert_ne!(second.id, first.id);
    assert_eq!(second.title, "Two");
    assert_eq!(second.status, SessionStatus::Active);
    assert_eq!(store.get_current_session(), Some(second));
}

#[test]
fn fresh_ids_are_hyphenated_uuids_and_times_are_rfc3339() {
    let mut store = SessionManager::new();
    let session = store.create_session(text("One"), None, None).expect("created");
    assert_eq!(session.id.len(), 36);
    assert_eq!(session.id.matches('-').count(), 4);
    assert_eq!(session.id.as_bytes()[14], b'4');
    assert!(chrono::DateTime::parse_from_rfc3339(&session.start_time).is_ok());
    let entry = store.add_transcript_entry(text("me"), text("hi")).expect("appended");
    assert!(chrono::DateTime::parse_from_rfc3339(&entry.timestamp).is_ok());
    let ended = store.end_session().expect("ended");
    assert!(chrono::DateTime::parse_from_rfc3339(ended.end_time.as_deref().unwrap()).is_ok());
}

#[test]
fn end_hands_out_the_ended_session_and_empties_the_slot() {
    let mut store = SessionManager::new();
    assert_eq!(store.end_session(), Err(SessionError::NoActiveSession));
    assert_eq!(store.end_at(text("t")), Err(SessionError::NoActiveSession));
    store.create_with(text("id"), text("t0"), text("Call"), None, Some(text("ctx"))).expect("created");
    store.append_at(text("t1"), text("Alice"), text("Hello")).expect("appended");
    store.attach_summary(text("short"));
    let ended = store.end_at(text("t2")).expect("ended");
    assert_eq!(ended.status, SessionStatus::Ended);
    assert_eq!(ended.end_time, Some(text("t2")));
    assert_eq!(ended.summary, Some(text("short")));
    assert_eq!(ended.context, Some(text("ctx")));
    assert_eq!(ended.transcript.len(), 1);
    assert!(!store.has_session());
    assert_eq!(store.append_at(text("t3"), text("Bob"), text("late")), Err(SessionError::NoActiveSession));
    store.attach_summary(text("late summary"));
    assert_eq!(store.get_current_session(), None);
}

#[test]
fn transcript_entries_keep_their_order() {
    let mut store = SessionManager::new();
    assert_eq!(store.add_transcript_entry(text("a"), text("b")), Err(SessionError::NoActiveSession));
    store.create_with(text("id"), text("t0"), text("Call"), None, None).expect("created");
    let first = store.append_at(text("t1"), text("Alice"), text("Hello")).expect("appended");
    let second = store.append_at(text("t2"), text("Bob"), text("Hi")).expect("appended");
    assert_eq!(first, TranscriptEntry { timestamp: text("t1"), speaker: text("Alice"), text: text("Hello") });
    assert_eq!(store.get_session_transcript(), Ok(vec![first.clone(), second.clone()]));
    let third = store.add_transcript_entry(text("Carol"), text("Hey")).expect("appended");
    assert_eq!(third.speaker, "Carol");
    assert_eq!(third.text, "Hey");
    assert_eq!(store.get_session_transcript(), Ok(vec![first, second, third]));
}

#[test]
fn summary_transcript_writes_one_line_per_entry() {
    let mut store = SessionManager::new();
    assert_eq!(store.summary_transcript(), Err(SessionError::NoActiveSession));
    store.create_with(text("id"), text("t0"), text("Call"), None, None).expect("created");
    assert_eq!(store.summary_transcript(), Err(SessionError::EmptyTranscript));
    assert_eq!(store.generate_summary_request().map(|_| ()), Err(SessionError::EmptyTranscript));
    store.append_at(text("t1"), text("Alice"), text("Hello")).expect("appended");
    store.append_at(text("t2"), text("Bob"), text("Hi")).expect("appended");
    assert_eq!(store.summary_transcript(), Ok(text("[t1] Alice: Hello\n[t2] Bob: Hi")));
    let plan = store.generate_summary_request().expect("planned");
    assert_eq!(
        plan.question,
        "Summarize the following meeting transcript into key points, action items, and decisions:\n\n[t1] Alice: Hello\n[t2] Bob: Hi"
    );
    assert_eq!(plan.context.transcript, Some(text("[t1] Alice: Hello\n[t2] Bob: Hi")));
    assert_eq!(
        plan.context.custom_prompt,
        Some(text("Generate a concise meeting summary with: 1) Key Points 2) Action Items 3) Decisions Made"))
    );
    assert_eq!(plan.context.screen_description, None);
    assert_eq!(plan.context.screen_base64, None);
}

#[test]
fn session_errors_read_as_their_messages() {
    assert_eq!(
        SessionError::AlreadyActive.message(),
        "A session is already active. End it before starting a new one."
    );
    assert_eq!(SessionError::NoActiveSession.message(), "No active session");
    assert_eq!(SessionError::EmptyTranscript.message(), "No transcript to summarize");
}

#[test]
fn history_lists_a_session_by_its_head() {
    let mut store = SessionManager::new();
    store.create_with(text("id"), text("t0"), text("Call"), None, None).expect("created");
    store.attach_summary(text("sum"));
    let ended = store.end_at(text("t9")).expect("ended");
    assert_eq!(
        SessionSummary::of(&ended),
        SessionSummary {
            id: text("id"),
            title: text("Call"),
            start_time: text("t0"),
            end_time: Some(text("t9")),
            summary: Some(text("sum")),
        }
    );
}

#[test]
fn starter_templates_come_only_for_an_empty_history() {
    assert!(PromptTemplate::starters(3).is_empty());
    assert!(PromptTemplate::starters(-1).is_empty());
    let starters = PromptTemplate::starters(0);
    let heads: Vec<(&str, &str)> = starters.iter().map(|t| (t.name.as_str(), t.category.as_str())).collect();
    assert_eq!(
        heads,
        vec![
            ("Sales Call", "sales"),
            ("Job Interview", "interview"),
            ("Technical Discussion", "technical"),
            ("Presentation", "presentation"),
        ]
    );
    assert!(starters[1].template.starts_with("You're helping during a job interview."));
    assert_ne!(starters[0].id, starters[1].id);
    let made = PromptTemplate::create(text("n"), text("t"), text("c"));
    assert_eq!((made.name.as_str(), made.template.as_str(), made.category.as_str()), ("n", "t", "c"));
    assert_eq!(made.id.len(), 36);
}

#[test]
fn suggestions_are_kept_in_order_and_dropped_without_a_session() {
    let mut store = SessionManager::new();
    store.attach_suggestion(text("lost"));
    assert_eq!(store.get_current_session(), None);
    store.create_with(text("id"), text("t0"), text("Call"), None, None).expect("created");
    store.attach_suggestion(text("first"));
    store.attach_suggestion(text("second"));
    let session = store.get_current_session().expect("current");
    assert_eq!(session.suggestions, vec![text("first"), text("second")]);
    assert!(session.transcript.is_empty());
}
