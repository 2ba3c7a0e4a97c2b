//! Idle gating: the cached idle hint of the login session, and how the
//! session is found.

use vstd::prelude::*;

use crate::backend::opt_view;

verus! {

broadcast use vstd::string::group_string_axioms;

/// What the idle monitor holds.
pub struct IdleModel {
    pub session_path: Option<Seq<char>>,
    pub idle_hint: bool,
    pub enabled: bool,
}

/// The cached idle state of the session.
#[derive(Debug)]
pub struct IdleState {
    session_path: Option<String>,
    idle_hint: bool,
    enabled: bool,
}

impl View for IdleState {
    type V = IdleModel;

    closed spec fn view(&self) -> IdleModel {
        IdleModel {
            session_path: opt_view(self.session_path),
            idle_hint: self.idle_hint,
            enabled: self.enabled,
        }
    }
}

impl IdleState {
    /// Enabled, not idle, no session resolved yet.
    pub fn new() -> (r: IdleState)
        ensures
            r@ == (IdleModel { session_path: None, idle_hint: false, enabled: true }),
    {
        IdleState { session_path: None, idle_hint: false, enabled: true }
    }

    /// Whether the session counts as idle: never while monitoring is disabled.
    pub fn is_idle(&self) -> (r: bool)
        ensures
            r == (self@.enabled && self@.idle_hint),
    {
        self.enabled && self.idle_hint
    }

    /// Turns idle gating off for good; the session then never counts as idle.
    pub fn disable(&mut self)
        ensures
            final(self)@ == (IdleModel { enabled: false, ..old(self)@ }),
    {
        self.enabled = false;
    }

    /// Remembers the resolved session.
    pub fn set_session(&mut self, path: String)
        ensures
            final(self)@ == (IdleModel { session_path: Some(path@), ..old(self)@ }),
    {
        self.session_path = Some(path);
    }

    /// The session to poll, if one was resolved.
    pub fn session_path(&self) -> (r: Option<&String>)
        ensures
            match r {
                Some(p) => self@.session_path == Some(p@),
                None => self@.session_path is None,
            },
    {
        match &self.session_path {
            Some(p) => Some(p),
            None => None,
        }
    }

    /// Stores a polled idle hint; returns the previous one.
    pub fn record_poll(&mut self, idle: bool) -> (r: bool)
        ensures
            r == old(self)@.idle_hint,
            final(self)@ == (IdleModel { idle_hint: idle, ..old(self)@ }),
    {
        let previous = self.idle_hint;
        self.idle_hint = idle;
        previous
    }
}

/// How to find the session whose idle hint is polled.
#[derive(Debug)]
pub enum SessionLookup {
    /// Ask the session manager for the session of this identifier.
    ById(String),
    /// Try these session objects in order; the first that answers is used.
    Probe(Vec<String>),
}

/// The session lookup: by the session identifier from the environment when
/// there is one, else the `self` and then the `auto` session objects.
pub fn session_lookup(session_id: Option<String>) -> (r: SessionLookup)
    ensures
        session_id is Some ==> (r matches SessionLookup::ById(id) && id@ == session_id->0@),
        session_id is None ==> (r matches SessionLookup::Probe(paths) && paths@.len() == 2
            && paths@[0]@ == "/org/freedesktop/login1/session/self"@ && paths@[1]@
            == "/org/freedesktop/login1/session/auto"@),
{
    match session_id {
        Some(id) => SessionLookup::ById(id),
        None => {
            let mut paths: Vec<String> = Vec::new();
            paths.push("/org/freedesktop/login1/session/self".to_owned());
            paths.push("/org/freedesktop/login1/session/auto".to_owned());
            SessionLookup::Probe(paths)
        },
    }
}

} // verus!
