//! Incremental reading of a token stream.
//!
//! The stream is a sequence of lines. A line that, once trimmed, starts with
//! the event tag carries a payload: the termination sentinel, or a JSON
//! document with text fragments and possibly a completion marker. Bytes may
//! arrive split at any point; what is read does not depend on where.

use vstd::prelude::*;
use vstd::string::*;
use crate::ai::{
    AiError, AIMessage, AIMessageView, ChatRequest, ChatRequestView, ChatTurn, ChatTurnView,
    make_text_turn, messages_view, plan_view, text_turn, turns_view,
};
use crate::config::{AppConfig, AppConfigView, LLMProvider};
use crate::json::{JsonValue, parsed_tree};
use crate::text::{
    chars_of, decode_lossy, holds_at, lossy_text, matches_at, same_text, texts, trim_bounds,
    trimmed,
};

verus! {

/// What the consumer reports while it reads.
#[derive(Debug, PartialEq, Eq)]
pub enum StreamEvent {
    /// One text fragment, as it arrived.
    Token(String),
    /// The stream is over; the whole text read from it.
    End(String),
}

/// A `StreamEvent` over plain sequences.
pub enum StreamEventView {
    Token(Seq<char>),
    End(Seq<char>),
}

impl View for StreamEvent {
    type V = StreamEventView;

    open spec fn view(&self) -> StreamEventView {
        match self {
            StreamEvent::Token(t) => StreamEventView::Token(t@),
            StreamEvent::End(t) => StreamEventView::End(t@),
        }
    }
}

/// The name under which the start of a stream is notified.
pub const STREAM_START: &'static str = "llm-stream-start";

/// The name under which an event is notified.
pub open spec fn event_name(event: StreamEventView) -> Seq<char> {
    match event {
        StreamEventView::Token(_) => "llm-token"@,
        StreamEventView::End(_) => "llm-stream-end"@,
    }
}

impl StreamEvent {
    /// The name under which the event is notified.
    pub fn name(&self) -> (r: &'static str)
        ensures
            r@ == event_name(self@),
    {
        match self {
            StreamEvent::Token(_) => "llm-token",
            StreamEvent::End(_) => "llm-stream-end",
        }
    }

    /// The text that the event carries: the token, or the whole text at the
    /// end.
    pub fn payload(&self) -> (r: &String)
        ensures
            r@ == match self@ {
                StreamEventView::Token(t) => t,
                StreamEventView::End(t) => t,
            },
    {
        match self {
            StreamEvent::Token(t) => t,
            StreamEvent::End(t) => t,
        }
    }
}

/// The views of a sequence of events.
pub open spec fn events_view(events: Seq<StreamEvent>) -> Seq<StreamEventView> {
    Seq::new(events.len(), |i: int| events[i]@)
}

/// What one line or payload contributes: its fragments in order, and whether
/// it ends the stream.
pub struct LineEffect {
    pub tokens: Seq<Seq<char>>,
    pub done: bool,
}

/// The tag that opens a line with a payload.
pub const EVENT_TAG: &'static str = "data: ";

/// The payload that ends the stream.
pub const END_SENTINEL: &'static str = "[DONE]";

/// The tag that opens a line with a payload.
pub open spec fn event_tag() -> Seq<char> {
    EVENT_TAG@
}

/// The payload that ends the stream.
pub open spec fn end_sentinel() -> Seq<char> {
    END_SENTINEL@
}

/// A line or payload that contributes nothing.
pub open spec fn no_effect() -> LineEffect {
    LineEffect { tokens: Seq::empty(), done: false }
}

/// Zero or one fragment as a sequence.
pub open spec fn fragment_seq(fragment: Option<Seq<char>>) -> Seq<Seq<char>> {
    match fragment {
        Some(t) => seq![t],
        None => Seq::empty(),
    }
}

/// The text of the string member `key` of a document.
pub open spec fn text_member(document: JsonValue, key: Seq<char>) -> Option<Seq<char>> {
    match document.member_of(key) {
        Some(v) => v.text_of(),
        None => None,
    }
}

/// The fragment of one choice: the string `content` of its `delta`.
pub open spec fn choice_fragment(choice: JsonValue) -> Option<Seq<char>> {
    match choice.member_of("delta"@) {
        Some(delta) => text_member(delta, "content"@),
        None => None,
    }
}

/// Whether a choice carries a completion marker: a string `finish_reason`.
pub open spec fn choice_ends(choice: JsonValue) -> bool {
    text_member(choice, "finish_reason"@) is Some
}

/// The choices from `from` on, read in order up to the first that ends the
/// stream.
pub open spec fn choices_effect(choices: Seq<JsonValue>, from: int) -> LineEffect
    decreases choices.len() - from,
{
    if from < 0 || from >= choices.len() {
        no_effect()
    } else {
        let head = fragment_seq(choice_fragment(choices[from]));
        if choice_ends(choices[from]) {
            LineEffect { tokens: head, done: true }
        } else {
            let rest = choices_effect(choices, from + 1);
            LineEffect { tokens: head + rest.tokens, done: rest.done }
        }
    }
}

/// The items of the array member `choices`, if there is one.
pub open spec fn choices_of(payload: JsonValue) -> Seq<JsonValue> {
    match payload.member_of("choices"@) {
        Some(c) => c.items_of(),
        None => Seq::empty(),
    }
}

/// Whether the payload has the member `done` with the value `true`.
pub open spec fn done_flag(payload: JsonValue) -> bool {
    payload.member_of("done"@) matches Some(JsonValue::Bool(b)) && b
}

/// What a structured payload contributes: the string member `token`, then
/// the fragments of `choices` up to the first completed one. It ends the
/// stream if a choice is completed or `done` is `true`.
pub open spec fn payload_effect(payload: JsonValue) -> LineEffect {
    let head = fragment_seq(text_member(payload, "token"@));
    let body = choices_effect(choices_of(payload), 0);
    LineEffect { tokens: head + body.tokens, done: body.done || done_flag(payload) }
}

/// What one line of the stream contributes.
pub open spec fn line_effect(line: Seq<u8>) -> LineEffect {
    let text = trimmed(lossy_text(line));
    if !holds_at(text, 0, event_tag()) {
        no_effect()
    } else {
        let payload = text.skip(event_tag().len() as int);
        if payload == end_sentinel() {
            LineEffect { tokens: Seq::empty(), done: true }
        } else {
            match parsed_tree(payload) {
                Some(document) => payload_effect(document),
                None => no_effect(),
            }
        }
    }
}

/// The fragments put together, in order.
pub open spec fn concat(tokens: Seq<Seq<char>>) -> Seq<char>
    decreases tokens.len(),
{
    if tokens.len() == 0 {
        Seq::empty()
    } else {
        concat(tokens.drop_last()) + tokens.last()
    }
}

/// One token event for each fragment, in order.
pub open spec fn token_events(tokens: Seq<Seq<char>>) -> Seq<StreamEventView> {
    Seq::new(tokens.len(), |i: int| StreamEventView::Token(tokens[i]))
}

/// The first index at or after `from` that holds a line feed, or the length
/// of `buf` if there is none.
pub open spec fn first_newline(buf: Seq<u8>, from: int) -> int
    decreases buf.len() - from,
{
    if from < 0 || from >= buf.len() {
        buf.len() as int
    } else if buf[from] == 10 {
        from
    } else {
        first_newline(buf, from + 1)
    }
}

/// The state of a consumer: the bytes after the last line feed, the text
/// read so far, and whether the stream is over.
pub struct ConsumerView {
    pub carry: Seq<u8>,
    pub aggregate: Seq<char>,
    pub finished: bool,
}

/// A state together with the events that led to it.
pub struct Fed {
    pub state: ConsumerView,
    pub events: Seq<StreamEventView>,
}

/// Reads the complete lines of `buf` in order, starting from the text
/// `aggregate`. Reading stops at the line that ends the stream; what follows
/// it is dropped. Without such a line, the bytes after the last line feed
/// are kept.
pub open spec fn drain_lines(buf: Seq<u8>, aggregate: Seq<char>) -> Fed
    decreases buf.len(),
{
    let p = first_newline(buf, 0);
    if p < 0 || p >= buf.len() {
        Fed {
            state: ConsumerView { carry: buf, aggregate, finished: false },
            events: Seq::empty(),
        }
    } else {
        let effect = line_effect(buf.take(p));
        let text = aggregate + concat(effect.tokens);
        if effect.done {
            Fed {
                state: ConsumerView { carry: Seq::empty(), aggregate: text, finished: true },
                events: token_events(effect.tokens).push(StreamEventView::End(text)),
            }
        } else {
            let rest = drain_lines(buf.skip(p + 1), text);
            Fed { state: rest.state, events: token_events(effect.tokens) + rest.events }
        }
    }
}

/// What feeding `chunk` to a consumer in state `state` does.
pub open spec fn fed(state: ConsumerView, chunk: Seq<u8>) -> Fed {
    if state.finished {
        Fed { state, events: Seq::empty() }
    } else {
        drain_lines(state.carry + chunk, state.aggregate)
    }
}

/// What closing a consumer in state `state` does: an unfinished one ends
/// with the text read so far, and its partial line is dropped.
pub open spec fn closed(state: ConsumerView) -> Fed {
    if state.finished {
        Fed { state, events: Seq::empty() }
    } else {
        Fed {
            state: ConsumerView { carry: Seq::empty(), aggregate: state.aggregate, finished: true },
            events: seq![StreamEventView::End(state.aggregate)],
        }
    }
}

/// A fresh consumer: nothing carried, nothing read.
pub open spec fn initial() -> ConsumerView {
    ConsumerView { carry: Seq::empty(), aggregate: Seq::empty(), finished: false }
}

proof fn lemma_first_newline_is(buf: Seq<u8>, from: int, p: int)
    requires
        0 <= from <= p <= buf.len(),
        forall|j: int| from <= j < p ==> buf[j] != 10,
        p < buf.len() ==> buf[p] == 10,
    ensures
        first_newline(buf, from) == p,
    decreases p - from,
{
    if from < p {
        lemma_first_newline_is(buf, from + 1, p);
    }
}

proof fn lemma_first_newline_found(buf: Seq<u8>, from: int)
    requires
        0 <= from <= buf.len(),
    ensures
        from <= first_newline(buf, from) <= buf.len(),
        forall|j: int| from <= j < first_newline(buf, from) ==> buf[j] != 10,
        first_newline(buf, from) < buf.len() ==> buf[first_newline(buf, from)] == 10,
    decreases buf.len() - from,
{
    if from < buf.len() && buf[from] != 10 {
        lemma_first_newline_found(buf, from + 1);
    }
}


/// Reads the fragment of one choice.
fn read_choice_fragment(choice: &JsonValue) -> (r: Option<String>)
    ensures
        crate::text::opt_text(r) == choice_fragment(*choice),
{
    match choice.member("delta") {
        Some(delta) => match delta.member("content") {
            Some(content) => match content.text() {
                Some(s) => Some(s.clone()),
                None => None,
            },
            None => None,
        },
        None => None,
    }
}

/// Whether a choice carries a completion marker.
fn read_choice_end(choice: &JsonValue) -> (r: bool)
    ensures
        r == choice_ends(*choice),
{
    match choice.member("finish_reason") {
        Some(reason) => reason.text().is_some(),
        None => false,
    }
}

/// Reads the fragments of a structured payload, in order, and whether the
/// payload ends the stream.
pub fn read_payload(payload: &JsonValue) -> (r: (Vec<String>, bool))
    ensures
        texts(r.0@) == payload_effect(*payload).tokens,
        r.1 == payload_effect(*payload).done,
{
    let mut tokens: Vec<String> = Vec::new();
    match payload.member("token") {
        Some(v) => match v.text() {
            Some(s) => {
                tokens.push(s.clone());
            },
            None => {},
        },
        None => {},
    }
    let ghost head = fragment_seq(text_member(*payload, "token"@));
    assert(texts(tokens@) =~= head);
    let mut done = false;
    match payload.member("choices") {
        Some(choices) => match choices {
            JsonValue::Array(items) => {
                let ghost body = choices_effect(items@, 0);
                let mut i: usize = 0;
                while i < items.len() && !done
                    invariant
                        i <= items.len(),
                        done ==> body.done && head + body.tokens == texts(tokens@),
                        !done ==> body.done == choices_effect(items@, i as int).done && head
                            + body.tokens == texts(tokens@) + choices_effect(
                            items@,
                            i as int,
                        ).tokens,
                    decreases items.len() - i + (if done { 0int } else { 1int }),
                {
                    let ghost before = texts(tokens@);
                    let ghost here = choices_effect(items@, i as int);
                    match read_choice_fragment(&items[i]) {
                        Some(t) => {
                            tokens.push(t);
                        },
                        None => {},
                    }
                    assert(texts(tokens@) =~= before + fragment_seq(
                        choice_fragment(items@[i as int]),
                    ));
                    if read_choice_end(&items[i]) {
                        done = true;
                        assert(head + body.tokens =~= texts(tokens@));
                    } else {
                        assert(head + body.tokens =~= texts(tokens@) + choices_effect(
                            items@,
                            i + 1,
                        ).tokens);
                        i += 1;
                    }
                }
                assert(head + body.tokens =~= texts(tokens@));
            },
            _ => {
                assert(head + choices_effect(choices_of(*payload), 0).tokens =~= texts(tokens@));
            },
        },
        None => {
            assert(head + choices_effect(choices_of(*payload), 0).tokens =~= texts(tokens@));
        },
    }
    if !done {
        done =
        match payload.member("done") {
            Some(flag) => match flag {
                JsonValue::Bool(b) => *b,
                _ => false,
            },
            None => false,
        };
    }
    (tokens, done)
}

/// Reads one line of the stream: its fragments, and whether it ends the
/// stream.
pub fn read_line(line: &[u8]) -> (r: (Vec<String>, bool))
    ensures
        texts(r.0@) == line_effect(line@).tokens,
        r.1 == line_effect(line@).done,
{
    let decoded = decode_lossy(line);
    let chars = chars_of(decoded.as_str());
    let (i, j) = trim_bounds(&chars);
    let tag = chars_of(EVENT_TAG);
    let ghost text = trimmed(chars@);
    proof {
        assert(text.len() == j - i);
        if tag.len() <= j - i {
            assert(text.subrange(0, tag@.len() as int) =~= chars@.subrange(
                i as int,
                i + tag@.len(),
            ));
        }
    }
    if tag.len() > j - i || !matches_at(&chars, i, &tag) {
        assert(texts(Seq::<String>::empty()) =~= Seq::<Seq<char>>::empty());
        return (Vec::new(), false);
    }
    let payload = decoded.as_str().substring_char(i + tag.len(), j);
    assert(payload@ =~= text.skip(event_tag().len() as int));
    if same_text(payload, END_SENTINEL) {
        assert(texts(Seq::<String>::empty()) =~= Seq::<Seq<char>>::empty());
        return (Vec::new(), true);
    }
    match JsonValue::parse(payload) {
        Some(document) => read_payload(&document),
        None => {
            assert(texts(Seq::<String>::empty()) =~= Seq::<Seq<char>>::empty());
            (Vec::new(), false)
        },
    }
}


/// Finds the first line feed at or after `from`.
fn find_newline(buf: &Vec<u8>, from: usize) -> (pos: usize)
    requires
        from <= buf.len(),
    ensures
        from <= pos <= buf.len(),
        pos == first_newline(buf@, from as int),
        first_newline(buf@.skip(from as int), 0) == pos - from,
{
    let mut pos = from;
    while pos < buf.len() && buf[pos] != 10
        invariant
            from <= pos <= buf.len(),
            forall|j: int| from <= j < pos ==> buf@[j] != 10,
        decreases buf.len() - pos,
    {
        pos += 1;
    }
    proof {
        lemma_first_newline_is(buf@, from as int, pos as int);
        lemma_first_newline_is(buf@.skip(from as int), 0, pos - from);
    }
    pos
}

/// Reads a token stream piece by piece.
pub struct StreamConsumer {
    carry: Vec<u8>,
    aggregate: String,
    finished: bool,
}

impl View for StreamConsumer {
    type V = ConsumerView;

    closed spec fn view(&self) -> ConsumerView {
        ConsumerView { carry: self.carry@, aggregate: self.aggregate@, finished: self.finished }
    }
}

impl StreamConsumer {
    /// A consumer that has read nothing yet.
    pub fn new() -> (r: Self)
        ensures
            r@ == initial(),
    {
        StreamConsumer { carry: Vec::new(), aggregate: String::new(), finished: false }
    }

    /// Whether the stream is over.
    pub fn is_finished(&self) -> (r: bool)
        ensures
            r == self@.finished,
    {
        self.finished
    }

    /// The text read so far.
    pub fn aggregate(&self) -> (r: String)
        ensures
            r@ == self@.aggregate,
    {
        self.aggregate.clone()
    }

    /// Takes the next bytes of the stream and reports, in order, the events
    /// of every line that they complete. Once the stream is over, further
    /// bytes are ignored.
    pub fn feed(&mut self, chunk: &[u8]) -> (events: Vec<StreamEvent>)
        ensures
            final(self)@ == fed(old(self)@, chunk@).state,
            events_view(events@) == fed(old(self)@, chunk@).events,
    {
        let mut events: Vec<StreamEvent> = Vec::new();
        if self.finished {
            assert(events_view(events@) =~= Seq::<StreamEventView>::empty());
            return events;
        }
        self.carry.extend_from_slice(chunk);
        let ghost full = self.carry@;
        let ghost start_text = old(self).aggregate@;
        let ghost goal = drain_lines(full, start_text);
        assert(full =~= old(self).carry@ + chunk@);
        assert(full.skip(0) =~= full);
        assert(events_view(events@) =~= Seq::<StreamEventView>::empty());
        let mut start: usize = 0;
        loop
            invariant
                start <= self.carry.len(),
                self.carry@ == full,
                !self.finished,
                goal == fed(old(self)@, chunk@),
                goal.state == drain_lines(full.skip(start as int), self.aggregate@).state,
                goal.events == events_view(events@) + drain_lines(
                    full.skip(start as int),
                    self.aggregate@,
                ).events,
            decreases self.carry.len() - start,
        {
            let pos = find_newline(&self.carry, start);
            let ghost rest = full.skip(start as int);
            let ghost text_before = self.aggregate@;
            let ghost events_before = events_view(events@);
            if pos == self.carry.len() {
                let tail = self.carry.split_off(start);
                self.carry = tail;
                assert(self.carry@ =~= rest);
                assert(goal.events =~= events_view(events@));
                return events;
            }
            let (tokens, done) = read_line(
                vstd::slice::slice_subrange(self.carry.as_slice(), start, pos),
            );
            let ghost effect = line_effect(rest.take(pos - start));
            assert(rest.take(pos - start) =~= full.subrange(start as int, pos as int));
            assert(rest.skip(pos - start + 1) =~= full.skip(pos + 1));
            let mut k: usize = 0;
            while k < tokens.len()
                invariant
                    k <= tokens.len(),
                    texts(tokens@) == effect.tokens,
                    self.carry@ == full,
                    !self.finished,
                    self.aggregate@ == text_before + concat(effect.tokens.take(k as int)),
                    events_view(events@) == events_before + token_events(
                        effect.tokens.take(k as int),
                    ),
                decreases tokens.len() - k,
            {
                let ghost upto = effect.tokens.take(k as int);
                let ghost next = effect.tokens.take(k + 1);
                proof {
                    assert(next.drop_last() =~= upto);
                    assert(next.last() == tokens@[k as int]@);
                }
                let ghost reported = events@;
                self.aggregate.append(tokens[k].as_str());
                events.push(StreamEvent::Token(tokens[k].clone()));
                proof {
                    assert(self.aggregate@ =~= text_before + concat(next));
                    assert(events_view(reported).len() == events_before.len() + k);
                    assert forall|i: int| 0 <= i < events@.len() implies events_view(events@)[i] == (
                    events_before + token_events(next))[i] by {
                        if i < reported.len() {
                            assert(events_view(reported)[i] == (events_before + token_events(
                                upto,
                            ))[i]);
                        }
                    }
                    assert(events_view(events@) =~= events_before + token_events(next));
                }
                k += 1;
            }
            assert(effect.tokens.take(tokens.len() as int) =~= effect.tokens);
            if done {
                let ghost reported = events@;
                events.push(StreamEvent::End(self.aggregate.clone()));
                self.finished = true;
                self.carry = Vec::new();
                assert(self.carry@ =~= Seq::<u8>::empty());
                assert forall|i: int| 0 <= i < events@.len() implies events_view(events@)[i] == (
                events_before + token_events(effect.tokens).push(
                    StreamEventView::End(self.aggregate@),
                ))[i] by {
                    if i < reported.len() {
                        assert(events_view(reported)[i] == (events_before + token_events(
                            effect.tokens,
                        ))[i]);
                    }
                }
                assert(events_view(events@) =~= events_before + token_events(effect.tokens).push(
                    StreamEventView::End(self.aggregate@),
                ));
                assert(goal.events =~= events_view(events@));
                return events;
            }
            assert(goal.events =~= events_view(events@) + drain_lines(
                full.skip(pos + 1),
                self.aggregate@,
            ).events);
            start = pos + 1;
        }
    }

    /// Ends the reading when the stream stops without a termination signal:
    /// the text read so far stands, and a partial last line is dropped.
    /// Reports the end unless it was reported before.
    pub fn close(&mut self) -> (event: Option<StreamEvent>)
        ensures
            final(self)@ == closed(old(self)@).state,
            match event {
                Some(e) => closed(old(self)@).events == seq![e@],
                None => closed(old(self)@).events == Seq::<StreamEventView>::empty(),
            },
    {
        if self.finished {
            return None;
        }
        self.finished = true;
        self.carry = Vec::new();
        assert(self.carry@ =~= Seq::<u8>::empty());
        Some(StreamEvent::End(self.aggregate.clone()))
    }
}


proof fn lemma_drain_split(buf: Seq<u8>, more: Seq<u8>, aggregate: Seq<char>)
    ensures
        drain_lines(buf + more, aggregate).state == fed(
            drain_lines(buf, aggregate).state,
            more,
        ).state,
        drain_lines(buf + more, aggregate).events == drain_lines(buf, aggregate).events + fed(
            drain_lines(buf, aggregate).state,
            more,
        ).events,
    decreases buf.len(),
{
    let first = drain_lines(buf, aggregate);
    let second = fed(first.state, more);
    let p = first_newline(buf, 0);
    lemma_first_newline_found(buf, 0);
    if p >= buf.len() {
        assert(first.events + second.events =~= second.events);
    } else {
        lemma_first_newline_is(buf + more, 0, p);
        assert((buf + more).take(p) =~= buf.take(p));
        assert((buf + more).skip(p + 1) =~= buf.skip(p + 1) + more);
        let effect = line_effect(buf.take(p));
        let text = aggregate + concat(effect.tokens);
        if effect.done {
            assert(first.events + second.events =~= first.events);
        } else {
            lemma_drain_split(buf.skip(p + 1), more, text);
            let rest = drain_lines(buf.skip(p + 1), text);
            assert(token_events(effect.tokens) + (rest.events + second.events) =~= (token_events(
                effect.tokens,
            ) + rest.events) + second.events);
        }
    }
}

/// Where a stream of bytes is cut into reads does not matter: feeding `a`
/// and then `b` leaves the consumer in the state that feeding `a + b` at
/// once leaves it in, and reports the same events in the same order.
pub proof fn law_feed_split(state: ConsumerView, a: Seq<u8>, b: Seq<u8>)
    ensures
        fed(fed(state, a).state, b).state == fed(state, a + b).state,
        fed(state, a).events + fed(fed(state, a).state, b).events == fed(state, a + b).events,
{
    if state.finished {
        assert(fed(state, a).events + fed(fed(state, a).state, b).events =~= fed(
            state,
            a + b,
        ).events);
    } else {
        lemma_drain_split(state.carry + a, b, state.aggregate);
        assert(state.carry + (a + b) =~= (state.carry + a) + b);
    }
}

/// What follows the last line feed of `buf`: all of it where there is none.
pub open spec fn after_last_newline(buf: Seq<u8>) -> Seq<u8>
    decreases buf.len(),
{
    let p = first_newline(buf, 0);
    if p < 0 || p >= buf.len() {
        buf
    } else {
        after_last_newline(buf.skip(p + 1))
    }
}

proof fn lemma_after_last_newline(buf: Seq<u8>)
    ensures
        after_last_newline(buf).len() <= buf.len(),
        after_last_newline(buf) == buf.skip(buf.len() - after_last_newline(buf).len()),
        forall|i: int| 0 <= i < after_last_newline(buf).len() ==> after_last_newline(buf)[i] != 10,
        after_last_newline(buf).len() < buf.len() ==> buf[buf.len() - after_last_newline(buf).len()
            - 1] == 10,
    decreases buf.len(),
{
    let p = first_newline(buf, 0);
    lemma_first_newline_found(buf, 0);
    if p >= buf.len() {
        assert(buf.skip(0) =~= buf);
    } else {
        let rest = buf.skip(p + 1);
        lemma_after_last_newline(rest);
        let kept = after_last_newline(rest);
        assert(rest.skip(rest.len() - kept.len()) =~= buf.skip(buf.len() - kept.len()));
    }
}

proof fn lemma_drain_carry(buf: Seq<u8>, aggregate: Seq<char>)
    ensures
        !drain_lines(buf, aggregate).state.finished ==> drain_lines(buf, aggregate).state.carry
            == after_last_newline(buf),
        drain_lines(buf, aggregate).state.finished ==> drain_lines(buf, aggregate).state.carry.len()
            == 0,
    decreases buf.len(),
{
    let p = first_newline(buf, 0);
    lemma_first_newline_found(buf, 0);
    if p < buf.len() {
        let effect = line_effect(buf.take(p));
        if !effect.done {
            lemma_drain_carry(buf.skip(p + 1), aggregate + concat(effect.tokens));
        }
    }
}

/// What follows the last line feed is never discarded: while the stream
/// goes on, the consumer carries exactly the bytes after the last line feed
/// it was given, a partial line without a line feed in it, over to the next
/// read. Once the stream is over it carries nothing.
pub proof fn law_partial_line_is_kept(state: ConsumerView, chunk: Seq<u8>)
    requires
        !state.finished,
    ensures
        ({
            let buf = state.carry + chunk;
            let after = fed(state, chunk).state;
            &&& !after.finished ==> after.carry == after_last_newline(buf)
            &&& after.finished ==> after.carry.len() == 0
            &&& after.carry.len() <= buf.len()
            &&& !after.finished ==> after.carry == buf.skip(buf.len() - after.carry.len())
            &&& forall|i: int| 0 <= i < after.carry.len() ==> after.carry[i] != 10
            &&& !after.finished && after.carry.len() < buf.len() ==> buf[buf.len()
                - after.carry.len() - 1] == 10
        }),
{
    lemma_drain_carry(state.carry + chunk, state.aggregate);
    lemma_after_last_newline(state.carry + chunk);
}

/// The tokens among `events`, put together in order.
pub open spec fn tokens_text(events: Seq<StreamEventView>) -> Seq<char>
    decreases events.len(),
{
    if events.len() == 0 {
        Seq::empty()
    } else {
        match events.last() {
            StreamEventView::Token(t) => tokens_text(events.drop_last()) + t,
            StreamEventView::End(_) => tokens_text(events.drop_last()),
        }
    }
}

proof fn lemma_tokens_text_of_tokens(tokens: Seq<Seq<char>>)
    ensures
        tokens_text(token_events(tokens)) == concat(tokens),
    decreases tokens.len(),
{
    if tokens.len() > 0 {
        lemma_tokens_text_of_tokens(tokens.drop_last());
        assert(token_events(tokens).drop_last() =~= token_events(tokens.drop_last()));
    }
}

proof fn lemma_tokens_text_add(a: Seq<StreamEventView>, b: Seq<StreamEventView>)
    ensures
        tokens_text(a + b) == tokens_text(a) + tokens_text(b),
    decreases b.len(),
{
    if b.len() == 0 {
        assert(a + b =~= a);
        assert(tokens_text(a) + tokens_text(b) =~= tokens_text(a));
    } else {
        lemma_tokens_text_add(a, b.drop_last());
        assert((a + b).drop_last() =~= a + b.drop_last());
        assert((a + b).last() == b.last());
        match b.last() {
            StreamEventView::Token(t) => {
                assert((tokens_text(a) + tokens_text(b.drop_last())) + t =~= tokens_text(a) + (
                tokens_text(b.drop_last()) + t));
            },
            StreamEventView::End(_) => {},
        }
    }
}

proof fn lemma_drain_text(buf: Seq<u8>, aggregate: Seq<char>)
    ensures
        drain_lines(buf, aggregate).state.aggregate == aggregate + tokens_text(
            drain_lines(buf, aggregate).events,
        ),
        drain_lines(buf, aggregate).state.finished <==> drain_lines(buf, aggregate).events.len() > 0
            && drain_lines(buf, aggregate).events.last() == StreamEventView::End(
            drain_lines(buf, aggregate).state.aggregate,
        ),
    decreases buf.len(),
{
    let p = first_newline(buf, 0);
    lemma_first_newline_found(buf, 0);
    if p >= buf.len() {
        assert(aggregate + tokens_text(Seq::<StreamEventView>::empty()) =~= aggregate);
    } else {
        let effect = line_effect(buf.take(p));
        let text = aggregate + concat(effect.tokens);
        lemma_tokens_text_of_tokens(effect.tokens);
        if effect.done {
            let events = token_events(effect.tokens).push(StreamEventView::End(text));
            assert(events.drop_last() =~= token_events(effect.tokens));
        } else {
            lemma_drain_text(buf.skip(p + 1), text);
            let rest = drain_lines(buf.skip(p + 1), text);
            lemma_tokens_text_add(token_events(effect.tokens), rest.events);
            assert(aggregate + (concat(effect.tokens) + tokens_text(rest.events)) =~= text
                + tokens_text(rest.events));
            if rest.events.len() > 0 {
                assert((token_events(effect.tokens) + rest.events).last() == rest.events.last());
            } else {
                assert(token_events(effect.tokens) + rest.events =~= token_events(effect.tokens));
                if effect.tokens.len() > 0 {
                    assert(token_events(effect.tokens).last() is Token);
                }
            }
        }
    }
}

/// Tokens are reported in the order in which they are read and each is
/// added to the text once: after a feed the text is the text before it,
/// followed by the reported tokens in order. The feed ends the stream
/// exactly when its last event is the end, carrying that text.
pub proof fn law_feed_text(state: ConsumerView, chunk: Seq<u8>)
    requires
        !state.finished,
    ensures
        fed(state, chunk).state.aggregate == state.aggregate + tokens_text(
            fed(state, chunk).events,
        ),
        fed(state, chunk).state.finished <==> fed(state, chunk).events.len() > 0 && fed(
            state,
            chunk,
        ).events.last() == StreamEventView::End(fed(state, chunk).state.aggregate),
{
    lemma_drain_text(state.carry + chunk, state.aggregate);
}


/// What feeding the reads of a stream one after the other does.
pub open spec fn fed_all(state: ConsumerView, reads: Seq<Seq<u8>>) -> Fed
    decreases reads.len(),
{
    if reads.len() == 0 {
        Fed { state, events: Seq::empty() }
    } else {
        let before = fed_all(state, reads.drop_last());
        let last = fed(before.state, reads.last());
        Fed { state: last.state, events: before.events + last.events }
    }
}

/// The bytes of all the reads of a stream, in order.
pub open spec fn all_bytes(reads: Seq<Seq<u8>>) -> Seq<u8>
    decreases reads.len(),
{
    if reads.len() == 0 {
        Seq::empty()
    } else {
        all_bytes(reads.drop_last()) + reads.last()
    }
}

/// However a stream of bytes is cut into reads, the consumer ends in the
/// same state and reports the same events in the same order as if all the
/// bytes had come in one read.
pub proof fn law_reads_do_not_matter(state: ConsumerView, reads: Seq<Seq<u8>>)
    requires
        reads.len() > 0,
    ensures
        fed_all(state, reads).state == fed(state, all_bytes(reads)).state,
        fed_all(state, reads).events == fed(state, all_bytes(reads)).events,
    decreases reads.len(),
{
    let head = reads.drop_last();
    if head.len() == 0 {
        assert(all_bytes(head) + reads.last() =~= reads.last());
        assert(fed_all(state, head).events + fed(state, reads.last()).events =~= fed(
            state,
            reads.last(),
        ).events);
    } else {
        law_reads_do_not_matter(state, head);
        law_feed_split(state, all_bytes(head), reads.last());
    }
}

/// A whole stream read at once: the reads fed in order, then the close.
pub open spec fn stream_read(reads: Seq<Seq<u8>>) -> Fed {
    let run = fed_all(initial(), reads);
    let end = closed(run.state);
    Fed { state: end.state, events: run.events + end.events }
}

/// What reading a whole stream gave: the events in order, and the text.
#[derive(Debug, PartialEq, Eq)]
pub struct StreamOutcome {
    pub events: Vec<StreamEvent>,
    pub text: String,
}

/// The views of a list of reads.
pub open spec fn reads_view(reads: Seq<Vec<u8>>) -> Seq<Seq<u8>> {
    Seq::new(reads.len(), |i: int| reads[i]@)
}

/// Reads a whole stream from the reads it came in: every token in order,
/// then the end, once, with the text the tokens make up.
pub fn read_stream(reads: &Vec<Vec<u8>>) -> (r: StreamOutcome)
    ensures
        events_view(r.events@) == stream_read(reads_view(reads@)).events,
        r.text@ == stream_read(reads_view(reads@)).state.aggregate,
{
    let mut consumer = StreamConsumer::new();
    let mut events: Vec<StreamEvent> = Vec::new();
    let ghost all = reads_view(reads@);
    let mut i: usize = 0;
    assert(events_view(events@) =~= fed_all(initial(), all.take(0)).events);
    while i < reads.len()
        invariant
            i <= reads.len(),
            all == reads_view(reads@),
            consumer@ == fed_all(initial(), all.take(i as int)).state,
            events_view(events@) == fed_all(initial(), all.take(i as int)).events,
        decreases reads.len() - i,
    {
        let ghost before = events_view(events@);
        let mut more = consumer.feed(reads[i].as_slice());
        let ghost added = events_view(more@);
        proof {
            assert(all.take(i + 1).drop_last() =~= all.take(i as int));
            assert(all.take(i + 1).last() == reads@[i as int]@);
        }
        events.append(&mut more);
        assert(events_view(events@) =~= before + added);
        i += 1;
    }
    assert(all.take(reads.len() as int) =~= all);
    let ghost before = events_view(events@);
    match consumer.close() {
        Some(event) => {
            events.push(event);
            assert(events_view(events@) =~= before + seq![event@]);
        },
        None => {
            assert(events_view(events@) =~= before + Seq::<StreamEventView>::empty());
        },
    }
    StreamOutcome { events, text: consumer.aggregate() }
}

/// The turns of a streaming request: the instruction first, where there is
/// one, then the messages in order.
pub open spec fn stream_turns(system_prompt: Option<Seq<char>>, messages: Seq<AIMessageView>) -> Seq<
    ChatTurnView,
> {
    crate::text::opt_seq(system_prompt).map_values(|s: Seq<char>| text_turn("system"@, s))
        + messages.map_values(|m: AIMessageView| text_turn(m.role, m.content))
}

/// The request that opens a token stream.
pub open spec fn stream_request(
    config: AppConfigView,
    messages: Seq<AIMessageView>,
    system_prompt: Option<Seq<char>>,
) -> Result<ChatRequestView, AiError> {
    if config.openai_api_key.len() == 0 {
        Err(AiError::KeyNotConfigured)
    } else {
        Ok(
            ChatRequestView {
                provider: LLMProvider::OpenAI,
                url: crate::ai::openai::chat_url(),
                api_key: Some(config.openai_api_key),
                model: config.openai_model,
                turns: stream_turns(system_prompt, messages),
                max_tokens: None,
                stream: true,
            },
        )
    }
}

/// The request that opens a token stream for a conversation. Refused where
/// no key is configured.
pub fn stream_chat_request(
    config: &AppConfig,
    messages: &Vec<AIMessage>,
    system_prompt: &Option<String>,
) -> (r: Result<ChatRequest, AiError>)
    ensures
        plan_view(r) == stream_request(
            config@,
            messages_view(messages@),
            crate::text::opt_text(*system_prompt),
        ),
{
    if config.openai_api_key.as_str().is_empty() {
        return Err(AiError::KeyNotConfigured);
    }
    let mut turns: Vec<ChatTurn> = Vec::new();
    match system_prompt {
        Some(s) => {
            turns.push(make_text_turn("system", s.as_str()));
        },
        None => {},
    }
    let ghost head = turns_view(turns@);
    assert(head =~= crate::text::opt_seq(crate::text::opt_text(*system_prompt)).map_values(
        |s: Seq<char>| text_turn("system"@, s),
    ));
    let mut i: usize = 0;
    while i < messages.len()
        invariant
            i <= messages.len(),
            turns.len() == head.len() + i,
            head == crate::text::opt_seq(crate::text::opt_text(*system_prompt)).map_values(
                |s: Seq<char>| text_turn("system"@, s),
            ),
            forall|j: int| 0 <= j < head.len() ==> turns@[j]@ == head[j],
            forall|j: int|
                0 <= j < i ==> turns@[head.len() + j]@ == text_turn(
                    messages@[j]@.role,
                    messages@[j]@.content,
                ),
        decreases messages.len() - i,
    {
        turns.push(make_text_turn(messages[i].role.as_str(), messages[i].content.as_str()));
        i += 1;
    }
    assert(turns_view(turns@) =~= stream_turns(
        crate::text::opt_text(*system_prompt),
        messages_view(messages@),
    ));
    Ok(
        ChatRequest {
            provider: LLMProvider::OpenAI,
            url: crate::ai::openai::CHAT_URL.to_owned(),
            api_key: Some(config.openai_api_key.clone()),
            model: config.openai_model.clone(),
            turns,
            max_tokens: None,
            stream: true,
        },
    )
}

} // verus!
