//! Passing contacts and meeting notes on to a CRM.

pub mod crm;

use vstd::prelude::*;
use crate::text::{clone_opt, opt_text};

verus! {

/// The CRM, if any, that records are passed on to.
#[derive(Debug, Clone, Copy, PartialEq, Eq, Structural)]
pub enum CRMProvider {
    Salesforce,
    HubSpot,
    /// No CRM is configured.
    Unset,
}

/// How the CRM is reached.
#[derive(Debug, PartialEq, Eq)]
pub struct CRMConfig {
    pub provider: CRMProvider,
    pub api_key: String,
    pub instance_url: String,
}

/// What a `CRMConfig` holds.
pub struct CRMConfigView {
    pub provider: CRMProvider,
    pub api_key: Seq<char>,
    pub instance_url: Seq<char>,
}

impl View for CRMConfig {
    type V = CRMConfigView;

    open spec fn view(&self) -> CRMConfigView {
        CRMConfigView {
            provider: self.provider,
            api_key: self.api_key@,
            instance_url: self.instance_url@,
        }
    }
}

impl Clone for CRMConfig {
    fn clone(&self) -> (r: Self)
        ensures
            r@ == self@,
    {
        CRMConfig {
            provider: self.provider,
            api_key: self.api_key.clone(),
            instance_url: self.instance_url.clone(),
        }
    }
}

impl Default for CRMConfig {
    fn default() -> (r: Self)
        ensures
            r@ == (CRMConfigView {
                provider: CRMProvider::Unset,
                api_key: Seq::empty(),
                instance_url: Seq::empty(),
            }),
    {
        CRMConfig { provider: CRMProvider::Unset, api_key: String::new(), instance_url: String::new() }
    }
}

/// A person known to the CRM.
#[derive(Debug, PartialEq, Eq)]
pub struct CRMContact {
    pub id: Option<String>,
    pub email: String,
    pub first_name: String,
    pub last_name: String,
    pub company: Option<String>,
    pub phone: Option<String>,
}

/// What a `CRMContact` holds.
pub struct CRMContactView {
    pub id: Option<Seq<char>>,
    pub email: Seq<char>,
    pub first_name: Seq<char>,
    pub last_name: Seq<char>,
    pub company: Option<Seq<char>>,
    pub phone: Option<Seq<char>>,
}

impl View for CRMContact {
    type V = CRMContactView;

    open spec fn view(&self) -> CRMContactView {
        CRMContactView {
            id: opt_text(self.id),
            email: self.email@,
            first_name: self.first_name@,
            last_name: self.last_name@,
            company: opt_text(self.company),
            phone: opt_text(self.phone),
        }
    }
}

impl Clone for CRMContact {
    fn clone(&self) -> (r: Self)
        ensures
            r@ == self@,
    {
        CRMContact {
            id: clone_opt(&self.id),
            email: self.email.clone(),
            first_name: self.first_name.clone(),
            last_name: self.last_name.clone(),
            company: clone_opt(&self.company),
            phone: clone_opt(&self.phone),
        }
    }
}

/// A note to attach to a contact.
#[derive(Debug, PartialEq, Eq)]
pub struct CRMNote {
    pub contact_id: String,
    pub content: String,
    pub timestamp: String,
}

/// What a `CRMNote` holds.
pub struct CRMNoteView {
    pub contact_id: Seq<char>,
    pub content: Seq<char>,
    pub timestamp: Seq<char>,
}

impl View for CRMNote {
    type V = CRMNoteView;

    open spec fn view(&self) -> CRMNoteView {
        CRMNoteView {
            contact_id: self.contact_id@,
            content: self.content@,
            timestamp: self.timestamp@,
        }
    }
}

impl Clone for CRMNote {
    fn clone(&self) -> (r: Self)
        ensures
            r@ == self@,
    {
        CRMNote {
            contact_id: self.contact_id.clone(),
            content: self.content.clone(),
            timestamp: self.timestamp.clone(),
        }
    }
}

/// How passing a record on ended.
#[derive(Debug, PartialEq, Eq)]
pub struct CRMSyncResult {
    pub success: bool,
    pub message: String,
    pub record_id: Option<String>,
}

/// What a `CRMSyncResult` holds.
pub struct CRMSyncResultView {
    pub success: bool,
    pub message: Seq<char>,
    pub record_id: Option<Seq<char>>,
}

impl View for CRMSyncResult {
    type V = CRMSyncResultView;

    open spec fn view(&self) -> CRMSyncResultView {
        CRMSyncResultView {
            success: self.success,
            message: self.message@,
            record_id: opt_text(self.record_id),
        }
    }
}

impl Clone for CRMSyncResult {
    fn clone(&self) -> (r: Self)
        ensures
            r@ == self@,
    {
        CRMSyncResult {
            success: self.success,
            message: self.message.clone(),
            record_id: clone_opt(&self.record_id),
        }
    }
}

} // verus!
