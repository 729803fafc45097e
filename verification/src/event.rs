//! Events of the chain, and the text of their kind and level.

use vstd::prelude::*;
use crate::collections::TextMap;

verus! {

/// What `{:?}` of the standard library writes for a string of the characters
/// `s`: the string between double quotes, with its special characters
/// escaped.
pub uninterp spec fn debug_text(s: Seq<char>) -> Seq<char>;

/// Formats `s` with `{:?}`: `format!` of the standard library, which calls
/// `<str as core::fmt::Debug>::fmt`. That the result is a function of the
/// characters of `s` alone is stated, not proved; what it is, character by
/// character, is not stated at all.
#[verifier::external_body]
fn debug_quoted(s: &str) -> (out: String)
    ensures
        out@ == debug_text(s@),
{
    format!("{:?}", s)
}

/// The kind of an event.
#[derive(Debug, PartialEq, Eq)]
pub enum EventType {
    Accepted,
    Applied,
    Ibc(String),
    Proposal,
    PgfPayment,
    EthereumBridge,
}

impl EventType {
    /// The text of the kind: its name, and for an IBC event the quoted name
    /// of the IBC event in brackets behind it.
    pub open spec fn text(&self) -> Seq<char> {
        match self {
            EventType::Accepted => "Accepted"@,
            EventType::Applied => "Applied"@,
            EventType::Ibc(name) => "Ibc("@ + debug_text(name@) + ")"@,
            EventType::Proposal => "Proposal"@,
            EventType::PgfPayment => "PgfPayment"@,
            EventType::EthereumBridge => "EthereumBridge"@,
        }
    }

    /// Writes the kind as text.
    pub fn to_string(&self) -> (text: String)
        ensures
            text@ == self.text(),
    {
        match self {
            EventType::Accepted => "Accepted".to_owned(),
            EventType::Applied => "Applied".to_owned(),
            EventType::Ibc(name) => {
                let mut text = "Ibc(".to_owned();
                let quoted = debug_quoted(name.as_str());
                text.append(quoted.as_str());
                text.append(")");
                text
            },
            EventType::Proposal => "Proposal".to_owned(),
            EventType::PgfPayment => "PgfPayment".to_owned(),
            EventType::EthereumBridge => "EthereumBridge".to_owned(),
        }
    }
}

/// Whether an event belongs to a block or to a transaction.
#[derive(Clone, Copy, Debug, PartialEq, Eq)]
pub enum EventLevel {
    Block,
    Tx,
}

impl EventLevel {
    /// The name of the level.
    pub open spec fn name(&self) -> Seq<char> {
        match self {
            EventLevel::Block => "Block"@,
            EventLevel::Tx => "Tx"@,
        }
    }

    /// Writes the name of the level.
    pub fn to_string(&self) -> (text: String)
        ensures
            text@ == self.name(),
    {
        match self {
            EventLevel::Block => "Block".to_owned(),
            EventLevel::Tx => "Tx".to_owned(),
        }
    }
}

/// An event: its kind, its level, and its attributes, no key twice.
#[derive(Debug, PartialEq, Eq)]
pub struct Event {
    pub event_type: EventType,
    pub level: EventLevel,
    pub attributes: TextMap<String>,
}

} // verus!
