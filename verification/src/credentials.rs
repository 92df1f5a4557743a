//! Getting the API token of a host: from what was stored for it, or else
//! from the user, once.

use vstd::prelude::*;
use crate::text::{concat, trim, trimmed};

verus! {

/// What the caller hands over when it asks how to go on.
#[derive(Clone, Debug, PartialEq, Eq)]
pub enum KeyEvent {
    /// What the store holds for the host, if anything.
    Stored(Option<String>),
    /// The line that the user entered at the prompt.
    Entered(String),
}

/// What the caller is to do next.
#[derive(Clone, Debug, PartialEq, Eq)]
pub enum KeyStep {
    /// Use this token.
    Use(String),
    /// Show the notice, then ask the user for a token under the label.
    Prompt { notice: String, label: String },
    /// Store this token for the host, then use it.
    Store(String),
}

/// What a `KeyStep` holds.
pub enum KeyStepView {
    Use(Seq<char>),
    Prompt { notice: Seq<char>, label: Seq<char> },
    Store(Seq<char>),
}

impl View for KeyStep {
    type V = KeyStepView;

    open spec fn view(&self) -> KeyStepView {
        match *self {
            KeyStep::Use(token) => KeyStepView::Use(token@),
            KeyStep::Prompt { notice, label } => KeyStepView::Prompt {
                notice: notice@,
                label: label@,
            },
            KeyStep::Store(token) => KeyStepView::Store(token@),
        }
    }
}

/// The notice that tells the user where to get a token for `host`.
pub open spec fn missing_notice(host: Seq<char>) -> Seq<char> {
    "No API token for "@ + host
        + " found. See https://github.com/arusahni/git-req/wiki/API-Keys for instructions."@
}

/// The label of the prompt for the token of `host`.
pub open spec fn prompt_label(host: Seq<char>) -> Seq<char> {
    host + " API token: "@
}

/// How to go on. A stored token is used as it is. Where nothing is stored,
/// or an empty token, the user is asked. What the user entered is stored and
/// used without the white space around it; the user is not asked again.
pub open spec fn key_step(host: Seq<char>, event: KeyEvent) -> KeyStepView {
    match event {
        KeyEvent::Stored(Some(token)) => if token@.len() > 0 {
            KeyStepView::Use(token@)
        } else {
            KeyStepView::Prompt { notice: missing_notice(host), label: prompt_label(host) }
        },
        KeyEvent::Stored(None) => KeyStepView::Prompt {
            notice: missing_notice(host),
            label: prompt_label(host),
        },
        KeyEvent::Entered(line) => KeyStepView::Store(trimmed(line@)),
    }
}

fn ask(host: &str) -> (step: KeyStep)
    ensures
        step@ == (KeyStepView::Prompt { notice: missing_notice(host@), label: prompt_label(host@) }),
{
    let mut notice: String = concat("No API token for ", host);
    notice.append(" found. See https://github.com/arusahni/git-req/wiki/API-Keys for instructions.");
    KeyStep::Prompt { notice, label: concat(host, " API token: ") }
}

/// The next step towards the API token of `host`.
pub fn get_api_key(host: &str, event: KeyEvent) -> (step: KeyStep)
    ensures
        step@ == key_step(host@, event),
{
    match event {
        KeyEvent::Stored(Some(token)) => {
            if token.as_str().is_empty() {
                ask(host)
            } else {
                KeyStep::Use(token)
            }
        },
        KeyEvent::Stored(None) => ask(host),
        KeyEvent::Entered(line) => KeyStep::Store(trim(line.as_str())),
    }
}

} // verus!
