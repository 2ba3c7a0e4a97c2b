//! Backend-neutral focus events and the errors of focus detection.

pub mod hyprland;

use vstd::prelude::*;

verus! {

/// Which application holds input focus, as a focus source reports it.
#[derive(Debug, Clone)]
pub struct FocusEvent {
    /// Application class (the primary identifier of the application).
    pub app_class: String,
    /// Window title, which may carry sensitive text.
    pub title: Option<String>,
    /// Backend-specific window identifier.
    pub window_id: Option<String>,
}

/// The contents of a focus event.
pub struct FocusEventModel {
    pub app_class: Seq<char>,
    pub title: Option<Seq<char>>,
    pub window_id: Option<Seq<char>>,
}

/// The text of an optional string.
pub open spec fn opt_view(o: Option<String>) -> Option<Seq<char>> {
    match o {
        Some(s) => Some(s@),
        None => None,
    }
}

impl View for FocusEvent {
    type V = FocusEventModel;

    open spec fn view(&self) -> FocusEventModel {
        FocusEventModel {
            app_class: self.app_class@,
            title: opt_view(self.title),
            window_id: opt_view(self.window_id),
        }
    }
}

/// The contents of an optional focus event.
pub open spec fn opt_event_view(o: Option<FocusEvent>) -> Option<FocusEventModel> {
    match o {
        Some(e) => Some(e@),
        None => None,
    }
}

/// A copy of an optional string.
pub fn copy_opt(o: &Option<String>) -> (r: Option<String>)
    ensures
        opt_view(r) == opt_view(*o),
{
    match o {
        Some(s) => Some(s.clone()),
        None => None,
    }
}

impl FocusEvent {
    /// A focus event with the given fields.
    pub fn new(app_class: String, title: Option<String>, window_id: Option<String>) -> (r: Self)
        ensures
            r.app_class == app_class,
            r.title == title,
            r.window_id == window_id,
    {
        FocusEvent { app_class, title, window_id }
    }

    /// Whether this stands for "no window focused".
    pub fn is_empty(&self) -> (r: bool)
        ensures
            r == (self.app_class@.len() == 0),
    {
        self.app_class.as_str().is_empty()
    }

    /// A copy of this event.
    pub fn duplicate(&self) -> (r: Self)
        ensures
            r@ == self@,
    {
        FocusEvent {
            app_class: self.app_class.clone(),
            title: copy_opt(&self.title),
            window_id: copy_opt(&self.window_id),
        }
    }
}

/// Errors of focus detection.
#[derive(Debug)]
pub enum FocusError {
    /// The socket connection failed.
    ConnectionFailed(String),
    /// A required environment variable is not set.
    EnvVarNotSet(String),
    /// The resolved socket path does not exist.
    SocketNotFound(String),
}

} // verus!
