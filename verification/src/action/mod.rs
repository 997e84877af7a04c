//! What every step of an installation has in common: how it is named, how
//! it is described to an operator, and how its failures are reported.

use vstd::prelude::*;
use crate::action::base::fetch_and_unpack_nix::FetchUrlError;

pub mod base;
pub mod stateful;

verus! {

/// The name under which a kind of action is known, in a stored plan and in
/// every error that such an action reports.
#[derive(Debug, Clone, Copy, PartialEq, Eq)]
pub struct ActionTag(pub &'static str);

/// What the host said when something it was asked to do did not succeed.
#[derive(Debug)]
pub struct HostFailure {
    pub message: String,
}

/// A failure that belongs to one concrete action rather than to all of them.
#[non_exhaustive]
#[derive(Debug)]
pub enum CustomError {
    /// The fetch-and-unpack action could not do its work.
    FetchUrl(FetchUrlError),
    /// The extra root certificate could not be read or parsed.
    Certificate(HostFailure),
}

/// Why an action failed.
#[non_exhaustive]
#[derive(Debug)]
pub enum ActionErrorKind {
    /// A failure that one concrete action brings with it.
    Custom(CustomError),
    /// A URL names a scheme that cannot be fetched from.
    UnknownUrlScheme,
    /// The file at this path could not be read.
    Read(String, HostFailure),
    /// The tree at this path could not be removed.
    Remove(String, HostFailure),
    /// The request over the network failed: connecting, TLS or HTTP.
    Reqwest(HostFailure),
}

/// A failure together with the tag of the action that reports it.
#[derive(Debug)]
pub struct ActionError {
    pub action_tag: ActionTag,
    pub kind: ActionErrorKind,
}

impl ActionError {
    pub fn new(action_tag: ActionTag, kind: ActionErrorKind) -> (error: ActionError)
        ensures
            error == (ActionError { action_tag, kind }),
    {
        ActionError { action_tag, kind }
    }

    pub fn kind(&self) -> (kind: &ActionErrorKind)
        ensures
            *kind == self.kind,
    {
        &self.kind
    }

    pub fn action_tag(&self) -> (tag: &ActionTag)
        ensures
            *tag == self.action_tag,
    {
        &self.action_tag
    }
}

/// One thing an action will do, in words, with the reasons for it.
#[derive(Debug)]
pub struct ActionDescription {
    pub description: String,
    pub explanation: Vec<String>,
}

impl ActionDescription {
    pub fn new(description: String, explanation: Vec<String>) -> (described: ActionDescription)
        ensures
            described == (ActionDescription { description, explanation }),
    {
        ActionDescription { description, explanation }
    }
}

/// One named value of a trace context; a value that is not known is absent.
#[derive(Debug)]
pub struct TraceField {
    pub name: &'static str,
    pub value: Option<String>,
}

impl TraceField {
    /// The field is called `name` and holds `value`.
    pub open spec fn shows(self, name: Seq<char>, value: Option<Seq<char>>) -> bool {
        &&& self.name@ == name
        &&& match value {
            Some(text) => self.value matches Some(held) && held@ == text,
            None => self.value is None,
        }
    }
}

/// How much detail a trace context is meant for, from the finest up.
#[derive(Debug, Clone, Copy, PartialEq, Eq, Structural)]
pub enum TraceLevel {
    Trace,
    Debug,
    Info,
    Warn,
    Error,
}

/// The structured context under which what an action does is traced.
#[derive(Debug)]
pub struct TraceContext {
    pub level: TraceLevel,
    pub name: &'static str,
    pub fields: Vec<TraceField>,
}

/// The part of an action that only describes: nothing here touches the host.
pub trait Action {
    /// The tag of this kind of action; no two kinds share one.
    fn action_tag() -> ActionTag;

    /// One line that says what executing the action will do.
    fn tracing_synopsis(&self) -> String;

    /// The context under which the action's work is traced.
    fn tracing_span(&self) -> TraceContext;

    /// What executing the action will do, for an operator to confirm.
    fn execute_description(&self) -> Vec<ActionDescription>;

    /// What reverting the action will do, for an operator to confirm.
    fn revert_description(&self) -> Vec<ActionDescription>;
}

} // verus!
