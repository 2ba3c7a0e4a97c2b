//! Focus events of the compositor's event socket, stamped with this backend's name.

use vstd::prelude::*;

pub use crate::backend::hyprland::{
    event_of_line, get_diagnostics, parse_event_line, EventModel, HyprlandEvent,
};
use crate::backend::hyprland::{correlate, fresh_correlation, CorrelationModel};
use crate::backend::FocusEventModel;
use crate::focus::FocusEvent;

verus! {

/// Backend identifier of the event-socket backend.
pub const BACKEND_NAME: &'static str = "hyprland-ipc";

/// The contents of an optional stamped focus event.
pub open spec fn opt_stamped_view(o: Option<FocusEvent>) -> Option<FocusEventModel> {
    match o {
        Some(e) => Some(e@),
        None => None,
    }
}

/// Merges window records and address records into stamped focus events.
#[derive(Debug)]
pub struct FocusState {
    inner: crate::backend::hyprland::FocusState,
}

impl View for FocusState {
    type V = CorrelationModel;

    closed spec fn view(&self) -> CorrelationModel {
        self.inner@
    }
}

impl FocusState {
    /// A correlator that remembers nothing.
    pub fn new() -> (r: FocusState)
        ensures
            r@ == fresh_correlation(),
    {
        FocusState { inner: crate::backend::hyprland::FocusState::new() }
    }

    /// Takes one record; returns the focus event it causes, if any.
    pub fn update(&mut self, event: HyprlandEvent) -> (r: Option<FocusEvent>)
        ensures
            (final(self)@, opt_stamped_view(r)) == correlate(old(self)@, event@),
            r matches Some(e) ==> e.backend == BACKEND_NAME,
    {
        match self.inner.update(event) {
            Some(e) => Some(FocusEvent::from_event(BACKEND_NAME, e)),
            None => None,
        }
    }
}

impl Default for FocusState {
    fn default() -> (r: FocusState)
        ensures
            r@ == fresh_correlation(),
    {
        FocusState::new()
    }
}

} // verus!
