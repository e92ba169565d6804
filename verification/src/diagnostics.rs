//! What a load pass reports: one record per lookup, per ambiguous path, per
//! text that did not convert and per label that names no variant.

use vstd::prelude::*;
use vstd::string::StringExecFns;

verus! {

/// How serious a diagnostic is.
#[derive(Clone, Copy, Debug, PartialEq, Eq, Structural)]
pub enum Severity {
    Info,
    Warning,
    Error,
}

/// What happened.
#[derive(Clone, Copy, Debug, PartialEq, Eq, Structural)]
pub enum Event {
    /// The key was present and its text converted.
    Found,
    /// The key was absent.
    NotFound,
    /// The key had been consulted before in the same pass.
    Ambiguous,
    /// The key was present and its text did not convert.
    ParseFailure,
    /// The text under the key names no variant of the enumeration.
    UnknownVariant,
}

/// One diagnostic: the event, the key it concerns and the text found under
/// the key (empty where there was none).
#[derive(Clone, Debug, PartialEq, Eq)]
pub struct Diagnostic {
    pub event: Event,
    pub key: String,
    pub text: String,
}

/// The mathematical form of a [`Diagnostic`].
pub struct Notice {
    pub event: Event,
    pub key: Seq<char>,
    pub text: Seq<char>,
}

impl View for Diagnostic {
    type V = Notice;

    open spec fn view(&self) -> Notice {
        Notice { event: self.event, key: self.key@, text: self.text@ }
    }
}

/// The mathematical form of a list of diagnostics.
pub open spec fn notices(log: Seq<Diagnostic>) -> Seq<Notice> {
    log.map_values(|d: Diagnostic| d@)
}

/// The severity that belongs to an event.
pub open spec fn spec_severity(event: Event) -> Severity {
    match event {
        Event::Found => Severity::Info,
        Event::NotFound => Severity::Info,
        Event::Ambiguous => Severity::Warning,
        Event::ParseFailure => Severity::Error,
        Event::UnknownVariant => Severity::Error,
    }
}

/// The line that a diagnostic is reported with.
pub open spec fn spec_message(notice: Notice) -> Seq<char> {
    match notice.event {
        Event::Found => "econf: loading "@ + notice.key + ": found "@ + notice.text,
        Event::NotFound => "econf: loading "@ + notice.key + ": not found"@,
        Event::Ambiguous => "econf: warning: "@ + notice.key + " is ambiguous"@,
        Event::ParseFailure => "econf: loading "@ + notice.key + ": error on parsing \""@
            + notice.text + "\""@,
        Event::UnknownVariant => "econf: couldn't find variant: "@ + notice.text,
    }
}

impl Diagnostic {
    /// The line to report: what was looked up, and what came of it.
    pub fn message(&self) -> (r: String)
        ensures
            r@ == spec_message(self@),
    {
        let key = self.key.as_str();
        let text = self.text.as_str();
        match self.event {
            Event::Found => String::from_str("econf: loading ").concat(key).concat(
                ": found ",
            ).concat(text),
            Event::NotFound => String::from_str("econf: loading ").concat(key).concat(
                ": not found",
            ),
            Event::Ambiguous => String::from_str("econf: warning: ").concat(key).concat(
                " is ambiguous",
            ),
            Event::ParseFailure => String::from_str("econf: loading ").concat(key).concat(
                ": error on parsing \"",
            ).concat(text).concat("\""),
            Event::UnknownVariant => String::from_str("econf: couldn't find variant: ").concat(
                text,
            ),
        }
    }

    /// Lookups are informational, an ambiguous path is a warning, a text that
    /// cannot be used is an error.
    pub fn severity(&self) -> (r: Severity)
        ensures
            r == spec_severity(self.event),
    {
        match self.event {
            Event::Found => Severity::Info,
            Event::NotFound => Severity::Info,
            Event::Ambiguous => Severity::Warning,
            Event::ParseFailure => Severity::Error,
            Event::UnknownVariant => Severity::Error,
        }
    }
}

} // verus!
