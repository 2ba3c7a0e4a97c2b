//! Focus events stamped with the time of detection and the backend that saw them.

pub mod hyprland_ipc;

use vstd::prelude::*;

use crate::backend::{opt_view, FocusEventModel};

verus! {

/// A normalized focus event of one backend.
#[derive(Debug, Clone)]
pub struct FocusEvent {
    /// When the focus change was detected.
    pub ts: std::time::Instant,
    /// Backend identifier.
    pub backend: &'static str,
    /// Backend-specific window identifier.
    pub window_id: Option<String>,
    /// Application class (the primary identifier of the application).
    pub app_class: String,
    /// Window title, which may carry sensitive text.
    pub title: Option<String>,
}

impl View for FocusEvent {
    type V = FocusEventModel;

    open spec fn view(&self) -> FocusEventModel {
        FocusEventModel {
            app_class: self.app_class@,
            title: opt_view(self.title),
            window_id: opt_view(self.window_id),
        }
    }
}

impl FocusEvent {
    /// A focus event stamped with the current time.
    pub fn new(
        backend: &'static str,
        window_id: Option<String>,
        app_class: String,
        title: Option<String>,
    ) -> (r: Self)
        ensures
            r.backend == backend,
            r.window_id == window_id,
            r.app_class == app_class,
            r.title == title,
    {
        FocusEvent { ts: std::time::Instant::now(), backend, window_id, app_class, title }
    }

    /// The backend-neutral event `e`, stamped now as seen by `backend`.
    pub fn from_event(backend: &'static str, e: crate::backend::FocusEvent) -> (r: Self)
        ensures
            r.backend == backend,
            r@ == e@,
    {
        FocusEvent::new(backend, e.window_id, e.app_class, e.title)
    }

    /// Whether this stands for "no window focused".
    pub fn is_empty(&self) -> (r: bool)
        ensures
            r == (self.app_class@.len() == 0),
    {
        self.app_class.as_str().is_empty()
    }
}

/// Errors of focus detection.
#[derive(Debug)]
pub enum FocusError {
    /// The socket connection failed.
    ConnectionFailed(String),
    /// The socket was closed.
    Disconnected,
    /// Reading from the socket failed.
    ReadError(String),
    /// A required environment variable is not set.
    EnvVarNotSet(String),
    /// The resolved socket path does not exist.
    SocketNotFound(String),
    /// A record could not be parsed.
    ParseError(String),
}

} // verus!
