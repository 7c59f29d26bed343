//! The user-facing intents this library resolves.

use vstd::prelude::*;

verus! {

/// What the user wants opened.  `phone` and `number` are expected to be
/// non-empty; `path` is a filesystem path string, taken as-is and not
/// checked against the filesystem here.
#[derive(Clone, Debug)]
pub enum Intent {
    OpenPath { path: String },
    OpenUrl { url: String },
    OpenWhatsApp { phone: String, message: Option<String> },
    OpenEmail { address: String, subject: Option<String>, body: Option<String> },
    OpenPhone { number: String },
}

/// The mathematical shape of an intent: the same variants over character
/// sequences.
pub enum IntentView {
    OpenPath { path: Seq<char> },
    OpenUrl { url: Seq<char> },
    OpenWhatsApp { phone: Seq<char>, message: Option<Seq<char>> },
    OpenEmail { address: Seq<char>, subject: Option<Seq<char>>, body: Option<Seq<char>> },
    OpenPhone { number: Seq<char> },
}

impl View for Intent {
    type V = IntentView;

    open spec fn view(&self) -> IntentView {
        match self {
            Intent::OpenPath { path } => IntentView::OpenPath { path: path@ },
            Intent::OpenUrl { url } => IntentView::OpenUrl { url: url@ },
            Intent::OpenWhatsApp { phone, message } => IntentView::OpenWhatsApp {
                phone: phone@,
                message: match message {
                    Some(m) => Some(m@),
                    None => None,
                },
            },
            Intent::OpenEmail { address, subject, body } => IntentView::OpenEmail {
                address: address@,
                subject: match subject {
                    Some(s) => Some(s@),
                    None => None,
                },
                body: match body {
                    Some(b) => Some(b@),
                    None => None,
                },
            },
            Intent::OpenPhone { number } => IntentView::OpenPhone { number: number@ },
        }
    }
}

/// The strings an intent carries are non-empty where the data model
/// demands it: a phone number (for WhatsApp or the dialler) must not be
/// empty.
pub open spec fn intent_well_formed(iv: IntentView) -> bool {
    match iv {
        IntentView::OpenWhatsApp { phone, message } => phone.len() > 0,
        IntentView::OpenPhone { number } => number.len() > 0,
        _ => true,
    }
}

} // verus!
