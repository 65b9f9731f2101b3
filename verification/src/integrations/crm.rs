//! What is sent to Salesforce and HubSpot, and how their answers are read.

use vstd::prelude::*;
use vstd::string::*;
use crate::integrations::{
    CRMConfig, CRMConfigView, CRMContact, CRMContactView, CRMNote, CRMNoteView, CRMProvider,
    CRMSyncResult, CRMSyncResultView,
};
use crate::text::{clone_opt, opt_text};

verus! {

/// The kind of record passed on.
#[derive(Debug, Clone, Copy, PartialEq, Eq, Structural)]
pub enum RecordKind {
    Contact,
    Note,
}

/// The HubSpot association type that ties a note to a contact.
pub const NOTE_TO_CONTACT: u32 = 202;

/// A contact on its way to a CRM.
#[derive(Debug, PartialEq, Eq)]
pub struct ContactRequest {
    pub provider: CRMProvider,
    pub url: String,
    pub api_key: String,
    pub first_name: String,
    pub last_name: String,
    pub email: String,
    pub phone: Option<String>,
    pub company: Option<String>,
}

/// What a `ContactRequest` holds.
pub struct ContactRequestView {
    pub provider: CRMProvider,
    pub url: Seq<char>,
    pub api_key: Seq<char>,
    pub first_name: Seq<char>,
    pub last_name: Seq<char>,
    pub email: Seq<char>,
    pub phone: Option<Seq<char>>,
    pub company: Option<Seq<char>>,
}

impl View for ContactRequest {
    type V = ContactRequestView;

    open spec fn view(&self) -> ContactRequestView {
        ContactRequestView {
            provider: self.provider,
            url: self.url@,
            api_key: self.api_key@,
            first_name: self.first_name@,
            last_name: self.last_name@,
            email: self.email@,
            phone: opt_text(self.phone),
            company: opt_text(self.company),
        }
    }
}

/// A note on its way to a CRM.
#[derive(Debug, PartialEq, Eq)]
pub struct NoteRequest {
    pub provider: CRMProvider,
    pub url: String,
    pub api_key: String,
    pub contact_id: String,
    /// The title of the note, where the CRM keeps one.
    pub title: Option<String>,
    pub content: String,
    pub timestamp: String,
    /// The type of the association with the contact, where the CRM asks for
    /// one.
    pub association_type: Option<u32>,
}

/// What a `NoteRequest` holds.
pub struct NoteRequestView {
    pub provider: CRMProvider,
    pub url: Seq<char>,
    pub api_key: Seq<char>,
    pub contact_id: Seq<char>,
    pub title: Option<Seq<char>>,
    pub content: Seq<char>,
    pub timestamp: Seq<char>,
    pub association_type: Option<u32>,
}

impl View for NoteRequest {
    type V = NoteRequestView;

    open spec fn view(&self) -> NoteRequestView {
        NoteRequestView {
            provider: self.provider,
            url: self.url@,
            api_key: self.api_key@,
            contact_id: self.contact_id@,
            title: opt_text(self.title),
            content: self.content@,
            timestamp: self.timestamp@,
            association_type: self.association_type,
        }
    }
}

/// An optional text, with the empty text where there is none.
pub open spec fn or_empty(text: Option<Seq<char>>) -> Seq<char> {
    match text {
        Some(t) => t,
        None => Seq::empty(),
    }
}

/// The request that creates a contact, or `None` where no CRM is
/// configured. Salesforce is reached under the instance URL and takes
/// missing fields as missing; HubSpot is reached at its own address and
/// takes them as empty texts.
pub open spec fn contact_request(config: CRMConfigView, contact: CRMContactView) -> Option<
    ContactRequestView,
> {
    match config.provider {
        CRMProvider::Salesforce => Some(
            ContactRequestView {
                provider: CRMProvider::Salesforce,
                url: config.instance_url + "/services/data/v59.0/sobjects/Contact/"@,
                api_key: config.api_key,
                first_name: contact.first_name,
                last_name: contact.last_name,
                email: contact.email,
                phone: contact.phone,
                company: contact.company,
            },
        ),
        CRMProvider::HubSpot => Some(
            ContactRequestView {
                provider: CRMProvider::HubSpot,
                url: "https://api.hubapi.com/crm/v3/objects/contacts"@,
                api_key: config.api_key,
                first_name: contact.first_name,
                last_name: contact.last_name,
                email: contact.email,
                phone: Some(or_empty(contact.phone)),
                company: Some(or_empty(contact.company)),
            },
        ),
        CRMProvider::Unset => None,
    }
}

/// The request that adds a note, or `None` where no CRM is configured.
pub open spec fn note_request(config: CRMConfigView, note: CRMNoteView) -> Option<NoteRequestView> {
    match config.provider {
        CRMProvider::Salesforce => Some(
            NoteRequestView {
                provider: CRMProvider::Salesforce,
                url: config.instance_url + "/services/data/v59.0/sobjects/Note/"@,
                api_key: config.api_key,
                contact_id: note.contact_id,
                title: Some("Meeting Notes - "@ + note.timestamp),
                content: note.content,
                timestamp: note.timestamp,
                association_type: None,
            },
        ),
        CRMProvider::HubSpot => Some(
            NoteRequestView {
                provider: CRMProvider::HubSpot,
                url: "https://api.hubapi.com/crm/v3/objects/notes"@,
                api_key: config.api_key,
                contact_id: note.contact_id,
                title: None,
                content: note.content,
                timestamp: note.timestamp,
                association_type: Some(NOTE_TO_CONTACT),
            },
        ),
        CRMProvider::Unset => None,
    }
}

/// The name of a CRM as it is shown.
pub open spec fn provider_name(provider: CRMProvider) -> Seq<char> {
    match provider {
        CRMProvider::Salesforce => "Salesforce"@,
        CRMProvider::HubSpot => "HubSpot"@,
        CRMProvider::Unset => Seq::empty(),
    }
}

/// The result shown where no CRM is configured.
pub open spec fn not_configured() -> CRMSyncResultView {
    CRMSyncResultView { success: false, message: "No CRM provider configured"@, record_id: None }
}

/// The result shown where the CRM answered with a failure status.
pub open spec fn rejected(provider: CRMProvider, status: Seq<char>, body: Seq<char>) -> CRMSyncResultView {
    CRMSyncResultView {
        success: false,
        message: provider_name(provider) + " error ("@ + status + "): "@ + body,
        record_id: None,
    }
}

/// What is said of a record that was accepted.
pub open spec fn accepted_message(provider: CRMProvider, kind: RecordKind) -> Seq<char> {
    match kind {
        RecordKind::Contact => "Contact created in "@ + provider_name(provider),
        RecordKind::Note => "Note added to "@ + provider_name(provider),
    }
}

/// The result shown where the CRM accepted the record. Salesforce says
/// itself whether it succeeded, and saying nothing counts as no; HubSpot's
/// acceptance is the success.
pub open spec fn accepted(
    provider: CRMProvider,
    kind: RecordKind,
    success: Option<bool>,
    record_id: Option<Seq<char>>,
) -> CRMSyncResultView {
    CRMSyncResultView {
        success: match provider {
            CRMProvider::Salesforce => match success {
                Some(s) => s,
                None => false,
            },
            _ => true,
        },
        message: accepted_message(provider, kind),
        record_id,
    }
}

fn name_of(provider: CRMProvider) -> (r: String)
    ensures
        r@ == provider_name(provider),
{
    match provider {
        CRMProvider::Salesforce => "Salesforce".to_owned(),
        CRMProvider::HubSpot => "HubSpot".to_owned(),
        CRMProvider::Unset => String::new(),
    }
}

fn text_or_empty(text: &Option<String>) -> (r: String)
    ensures
        r@ == or_empty(opt_text(*text)),
{
    match text {
        Some(t) => t.clone(),
        None => String::new(),
    }
}

/// The request that creates a contact in the configured CRM.
pub fn crm_sync_contact_request(config: &CRMConfig, contact: &CRMContact) -> (r: Option<
    ContactRequest,
>)
    ensures
        match r {
            Some(request) => contact_request(config@, contact@) == Some(request@),
            None => contact_request(config@, contact@) is None,
        },
{
    match config.provider {
        CRMProvider::Salesforce => {
            let mut url = config.instance_url.clone();
            url.append("/services/data/v59.0/sobjects/Contact/");
            Some(
                ContactRequest {
                    provider: CRMProvider::Salesforce,
                    url,
                    api_key: config.api_key.clone(),
                    first_name: contact.first_name.clone(),
                    last_name: contact.last_name.clone(),
                    email: contact.email.clone(),
                    phone: clone_opt(&contact.phone),
                    company: clone_opt(&contact.company),
                },
            )
        },
        CRMProvider::HubSpot => Some(
            ContactRequest {
                provider: CRMProvider::HubSpot,
                url: "https://api.hubapi.com/crm/v3/objects/contacts".to_owned(),
                api_key: config.api_key.clone(),
                first_name: contact.first_name.clone(),
                last_name: contact.last_name.clone(),
                email: contact.email.clone(),
                phone: Some(text_or_empty(&contact.phone)),
                company: Some(text_or_empty(&contact.company)),
            },
        ),
        CRMProvider::Unset => None,
    }
}

/// The request that adds a note in the configured CRM.
pub fn crm_sync_notes_request(config: &CRMConfig, note: &CRMNote) -> (r: Option<NoteRequest>)
    ensures
        match r {
            Some(request) => note_request(config@, note@) == Some(request@),
            None => note_request(config@, note@) is None,
        },
{
    match config.provider {
        CRMProvider::Salesforce => {
            let mut url = config.instance_url.clone();
            url.append("/services/data/v59.0/sobjects/Note/");
            let mut title = "Meeting Notes - ".to_owned();
            title.append(note.timestamp.as_str());
            Some(
                NoteRequest {
                    provider: CRMProvider::Salesforce,
                    url,
                    api_key: config.api_key.clone(),
                    contact_id: note.contact_id.clone(),
                    title: Some(title),
                    content: note.content.clone(),
                    timestamp: note.timestamp.clone(),
                    association_type: None,
                },
            )
        },
        CRMProvider::HubSpot => Some(
            NoteRequest {
                provider: CRMProvider::HubSpot,
                url: "https://api.hubapi.com/crm/v3/objects/notes".to_owned(),
                api_key: config.api_key.clone(),
                contact_id: note.contact_id.clone(),
                title: None,
                content: note.content.clone(),
                timestamp: note.timestamp.clone(),
                association_type: Some(NOTE_TO_CONTACT),
            },
        ),
        CRMProvider::Unset => None,
    }
}

/// The result shown where no CRM is configured.
pub fn not_configured_result() -> (r: CRMSyncResult)
    ensures
        r@ == not_configured(),
{
    CRMSyncResult { success: false, message: "No CRM provider configured".to_owned(), record_id: None }
}

/// The result shown where the CRM answered with a failure status.
pub fn rejected_result(provider: CRMProvider, status: &str, body: &str) -> (r: CRMSyncResult)
    ensures
        r@ == rejected(provider, status@, body@),
{
    let mut message = name_of(provider);
    message.append(" error (");
    message.append(status);
    message.append("): ");
    message.append(body);
    CRMSyncResult { success: false, message, record_id: None }
}

/// The result shown where the CRM accepted the record.
pub fn accepted_result(
    provider: CRMProvider,
    kind: RecordKind,
    success: Option<bool>,
    record_id: Option<String>,
) -> (r: CRMSyncResult)
    ensures
        r@ == accepted(provider, kind, success, opt_text(record_id)),
{
    let mut message = match kind {
        RecordKind::Contact => "Contact created in ".to_owned(),
        RecordKind::Note => "Note added to ".to_owned(),
    };
    message.append(name_of(provider).as_str());
    let success = match provider {
        CRMProvider::Salesforce => match success {
            Some(s) => s,
            None => false,
        },
        _ => true,
    };
    CRMSyncResult { success, message, record_id }
}

/// A CRM on offer.
#[derive(Debug, PartialEq, Eq)]
pub struct CRMProviderInfo {
    pub name: String,
    pub id: String,
    pub description: String,
    pub requires_instance_url: bool,
}

/// What a `CRMProviderInfo` holds.
pub struct CRMProviderInfoView {
    pub name: Seq<char>,
    pub id: Seq<char>,
    pub description: Seq<char>,
    pub requires_instance_url: bool,
}

impl View for CRMProviderInfo {
    type V = CRMProviderInfoView;

    open spec fn view(&self) -> CRMProviderInfoView {
        CRMProviderInfoView {
            name: self.name@,
            id: self.id@,
            description: self.description@,
            requires_instance_url: self.requires_instance_url,
        }
    }
}

/// The CRMs on offer.
pub open spec fn crm_catalogue() -> Seq<CRMProviderInfoView> {
    seq![
        CRMProviderInfoView {
            name: "Salesforce"@,
            id: "Salesforce"@,
            description: "Sync contacts and meeting notes to Salesforce CRM"@,
            requires_instance_url: true,
        },
        CRMProviderInfoView {
            name: "HubSpot"@,
            id: "HubSpot"@,
            description: "Sync contacts and meeting notes to HubSpot CRM"@,
            requires_instance_url: false,
        },
    ]
}

/// The CRMs on offer.
pub fn get_crm_providers() -> (r: Vec<CRMProviderInfo>)
    ensures
        Seq::new(r@.len(), |i: int| r@[i]@) == crm_catalogue(),
{
    let mut providers: Vec<CRMProviderInfo> = Vec::new();
    providers.push(
        CRMProviderInfo {
            name: "Salesforce".to_owned(),
            id: "Salesforce".to_owned(),
            description: "Sync contacts and meeting notes to Salesforce CRM".to_owned(),
            requires_instance_url: true,
        },
    );
    providers.push(
        CRMProviderInfo {
            name: "HubSpot".to_owned(),
            id: "HubSpot".to_owned(),
            description: "Sync contacts and meeting notes to HubSpot CRM".to_owned(),
            requires_instance_url: false,
        },
    );
    assert(Seq::new(providers@.len(), |i: int| providers@[i]@) =~= crm_catalogue());
    providers
}

} // verus!
