//! The records that the history of sessions is kept in.

use vstd::prelude::*;
use vstd::string::*;
use crate::clock::fresh_id;
use crate::session::manager::{Session, SessionView};
use crate::text::{clone_opt, opt_text};

verus! {

/// A stored instruction for a kind of conversation.
#[derive(Debug, PartialEq, Eq)]
pub struct PromptTemplate {
    pub id: String,
    pub name: String,
    pub template: String,
    pub category: String,
}

/// What a `PromptTemplate` holds.
pub struct PromptTemplateView {
    pub id: Seq<char>,
    pub name: Seq<char>,
    pub template: Seq<char>,
    pub category: Seq<char>,
}

impl View for PromptTemplate {
    type V = PromptTemplateView;

    open spec fn view(&self) -> PromptTemplateView {
        PromptTemplateView {
            id: self.id@,
            name: self.name@,
            template: self.template@,
            category: self.category@,
        }
    }
}

impl Clone for PromptTemplate {
    fn clone(&self) -> (r: Self)
        ensures
            r@ == self@,
    {
        PromptTemplate {
            id: self.id.clone(),
            name: self.name.clone(),
            template: self.template.clone(),
            category: self.category.clone(),
        }
    }
}

/// A past session as the history lists it.
#[derive(Debug, PartialEq, Eq)]
pub struct SessionSummary {
    pub id: String,
    pub title: String,
    pub start_time: String,
    pub end_time: Option<String>,
    pub summary: Option<String>,
}

/// What a `SessionSummary` holds.
pub struct SessionSummaryView {
    pub id: Seq<char>,
    pub title: Seq<char>,
    pub start_time: Seq<char>,
    pub end_time: Option<Seq<char>>,
    pub summary: Option<Seq<char>>,
}

impl View for SessionSummary {
    type V = SessionSummaryView;

    open spec fn view(&self) -> SessionSummaryView {
        SessionSummaryView {
            id: self.id@,
            title: self.title@,
            start_time: self.start_time@,
            end_time: opt_text(self.end_time),
            summary: opt_text(self.summary),
        }
    }
}

impl Clone for SessionSummary {
    fn clone(&self) -> (r: Self)
        ensures
            r@ == self@,
    {
        SessionSummary {
            id: self.id.clone(),
            title: self.title.clone(),
            start_time: self.start_time.clone(),
            end_time: clone_opt(&self.end_time),
            summary: clone_opt(&self.summary),
        }
    }
}

/// The entry of the history for a session.
pub open spec fn listed(session: SessionView) -> SessionSummaryView {
    SessionSummaryView {
        id: session.id,
        title: session.title,
        start_time: session.start_time,
        end_time: session.end_time,
        summary: session.summary,
    }
}

/// A template without its identifier.
pub struct TemplateSeed {
    pub name: Seq<char>,
    pub template: Seq<char>,
    pub category: Seq<char>,
}

/// The templates that a fresh history starts with.
pub open spec fn starter_templates() -> Seq<TemplateSeed> {
    seq![
        TemplateSeed {
            name: "Sales Call"@,
            template: "You're helping during a sales call. Focus on: identifying pain points, suggesting product features that match needs, and crafting compelling value propositions."@,
            category: "sales"@,
        },
        TemplateSeed {
            name: "Job Interview"@,
            template: "You're helping during a job interview. Focus on: structured answers using STAR method, highlighting relevant experience, asking insightful questions."@,
            category: "interview"@,
        },
        TemplateSeed {
            name: "Technical Discussion"@,
            template: "You're helping during a technical discussion. Focus on: clear explanations, suggesting best practices, identifying potential issues, and providing code snippets when helpful."@,
            category: "technical"@,
        },
        TemplateSeed {
            name: "Presentation"@,
            template: "You're helping during a presentation. Focus on: keeping on track, suggesting transition phrases, anticipating audience questions, and highlighting key data points."@,
            category: "presentation"@,
        },
    ]
}

/// What a template says, apart from its identifier.
pub open spec fn seed_of(template: PromptTemplateView) -> TemplateSeed {
    TemplateSeed { name: template.name, template: template.template, category: template.category }
}

impl SessionSummary {
    /// The entry of the history for a session.
    pub fn of(session: &Session) -> (r: SessionSummary)
        ensures
            r@ == listed(session@),
    {
        SessionSummary {
            id: session.id.clone(),
            title: session.title.clone(),
            start_time: session.start_time.clone(),
            end_time: clone_opt(&session.end_time),
            summary: clone_opt(&session.summary),
        }
    }
}

impl PromptTemplate {
    /// A template under a fresh identifier.
    pub fn create(name: String, template: String, category: String) -> (r: PromptTemplate)
        ensures
            seed_of(r@) == (TemplateSeed { name: name@, template: template@, category: category@ }),
    {
        PromptTemplate { id: fresh_id(), name, template, category }
    }

    /// The templates to add to a history that holds `stored` of them: the
    /// starter templates, each under a fresh identifier, for an empty
    /// history, and none for any other.
    pub fn starters(stored: i64) -> (r: Vec<PromptTemplate>)
        ensures
            stored != 0 ==> r@.len() == 0,
            stored == 0 ==> Seq::new(r@.len(), |i: int| seed_of(r@[i]@)) == starter_templates(),
    {
        let mut out: Vec<PromptTemplate> = Vec::new();
        if stored != 0 {
            return out;
        }
        out.push(
            PromptTemplate::create(
                "Sales Call".to_owned(),
                "You're helping during a sales call. Focus on: identifying pain points, suggesting product features that match needs, and crafting compelling value propositions.".to_owned(),
                "sales".to_owned(),
            ),
        );
        out.push(
            PromptTemplate::create(
                "Job Interview".to_owned(),
                "You're helping during a job interview. Focus on: structured answers using STAR method, highlighting relevant experience, asking insightful questions.".to_owned(),
                "interview".to_owned(),
            ),
        );
        out.push(
            PromptTemplate::create(
                "Technical Discussion".to_owned(),
                "You're helping during a technical discussion. Focus on: clear explanations, suggesting best practices, identifying potential issues, and providing code snippets when helpful.".to_owned(),
                "technical".to_owned(),
            ),
        );
        out.push(
            PromptTemplate::create(
                "Presentation".to_owned(),
                "You're helping during a presentation. Focus on: keeping on track, suggesting transition phrases, anticipating audience questions, and highlighting key data points.".to_owned(),
                "presentation".to_owned(),
            ),
        );
        assert(Seq::new(out@.len(), |i: int| seed_of(out@[i]@)) =~= starter_templates());
        out
    }
}

} // verus!
