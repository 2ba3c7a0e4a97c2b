//! Decisions of the main event loop: what to do with a focus event, with a
//! periodic tick, and with the outcome of a send.

use vstd::prelude::*;

use crate::backend::FocusEvent;
use crate::config::Config;
use crate::domain::Heartbeat;
use crate::heartbeat::{
    app_allowed, builder_model, category_for, entity_text, rejected_texts, HeartbeatBuilder,
    RejectedRule,
};
use crate::throttle::{decide, record, HeartbeatThrottle, ThrottleDecision, ThrottleModel};

verus! {

/// What became of a focus event.
#[derive(Debug)]
pub enum FocusOutcome {
    /// No window is focused.
    Empty,
    /// The application is filtered out by the allow and deny lists.
    NotAllowed,
    /// The session is idle.
    Idle,
    /// The same entity was sent too recently.
    Throttled,
    /// Send this heartbeat, then report how the send went.
    Send(Heartbeat),
}

/// The main loop's state: the heartbeat builder and the throttle.
pub struct Orchestrator {
    builder: HeartbeatBuilder,
    throttle: HeartbeatThrottle,
}

impl Orchestrator {
    /// The builder that resolves events.
    pub closed spec fn builder(&self) -> HeartbeatBuilder {
        self.builder
    }

    /// What the throttle knows.
    pub closed spec fn throttle(&self) -> ThrottleModel {
        self.throttle@
    }

    /// The heartbeat last sent, if any.
    pub closed spec fn last(&self) -> Option<Heartbeat> {
        self.throttle.last()
    }

    /// The loop's state for `config`, before any heartbeat was sent.
    pub fn new(config: &Config) -> (r: Self)
        ensures
            r.builder()@ == builder_model(config),
            r.throttle() == (ThrottleModel {
                last: None,
                min_resend_seconds: config.min_entity_resend_seconds,
            }),
            r.last() is None,
    {
        Orchestrator {
            builder: HeartbeatBuilder::from_config(config),
            throttle: HeartbeatThrottle::new(config.min_entity_resend_seconds),
        }
    }

    /// Category rules left out because their pattern did not compile.
    pub fn skipped_rules(&self) -> (r: &Vec<RejectedRule>)
        ensures
            rejected_texts(r@) == self.builder().skipped(),
    {
        self.builder.skipped_rules()
    }

    /// A focus event arrived at time `now_ms`: empty and filtered events are
    /// dropped, then an idle session drops it, then the throttle decides.
    pub fn on_focus(&self, event: FocusEvent, idle: bool, now_ms: u64) -> (r: FocusOutcome)
        ensures
            event@.app_class.len() == 0 ==> r is Empty,
            event@.app_class.len() > 0 && !app_allowed(
                self.builder()@.allowlist,
                self.builder()@.denylist,
                event@.app_class,
            ) ==> r is NotAllowed,
            event@.app_class.len() > 0 && app_allowed(
                self.builder()@.allowlist,
                self.builder()@.denylist,
                event@.app_class,
            ) ==> {
                let b = self.builder()@;
                let entity = entity_text(b.track_titles, b.title_strategy, event@.app_class, event@.title);
                if idle {
                    r is Idle
                } else if decide(self.throttle(), entity, now_ms) == ThrottleDecision::Skip {
                    r is Throttled
                } else {
                    r matches FocusOutcome::Send(h) && h.entity@ == entity && h.category
                        == category_for(b.rules, event@.app_class, b.default_category) && h.source
                        == event
                }
            },
    {
        if event.is_empty() {
            return FocusOutcome::Empty;
        }
        if !self.builder.is_app_allowed(event.app_class.as_str()) {
            return FocusOutcome::NotAllowed;
        }
        let heartbeat = self.builder.build(event);
        if idle {
            return FocusOutcome::Idle;
        }
        match self.throttle.should_send_at(&heartbeat.entity, now_ms) {
            ThrottleDecision::Send => FocusOutcome::Send(heartbeat),
            ThrottleDecision::Skip => FocusOutcome::Throttled,
        }
    }

    /// The periodic tick at time `now_ms`: the source event of the heartbeat
    /// last sent is resolved again, and its heartbeat is returned when the
    /// session is not idle and the throttle lets it through.
    pub fn on_tick(&self, idle: bool, now_ms: u64) -> (r: Option<Heartbeat>)
        ensures
            self.last() is None ==> r is None,
            idle ==> r is None,
            self.last() is Some && !idle ==> {
                let b = self.builder()@;
                let src = self.last()->0.source@;
                let entity = entity_text(b.track_titles, b.title_strategy, src.app_class, src.title);
                if decide(self.throttle(), entity, now_ms) == ThrottleDecision::Send {
                    r matches Some(h) && h.entity@ == entity && h.category == category_for(
                        b.rules,
                        src.app_class,
                        b.default_category,
                    ) && h.source@ == src
                } else {
                    r is None
                }
            },
    {
        let source = match self.throttle.last_heartbeat() {
            Some(last) => last.source.duplicate(),
            None => {
                return None;
            },
        };
        if idle {
            return None;
        }
        let heartbeat = self.builder.build(source);
        match self.throttle.should_send_at(&heartbeat.entity, now_ms) {
            ThrottleDecision::Send => Some(heartbeat),
            ThrottleDecision::Skip => None,
        }
    }

    /// The sink took (`delivered`) or refused `heartbeat` at time `now_ms`.
    /// Only a delivered heartbeat advances the throttle.
    pub fn on_sent(&mut self, heartbeat: Heartbeat, delivered: bool, now_ms: u64)
        ensures
            final(self).builder() == old(self).builder(),
            delivered ==> final(self).throttle() == record(
                old(self).throttle(),
                heartbeat.entity@,
                now_ms,
            ),
            delivered ==> final(self).last() == Some(heartbeat),
            !delivered ==> final(self).throttle() == old(self).throttle(),
            !delivered ==> final(self).last() == old(self).last(),
    {
        if delivered {
            self.throttle.record_sent_at(heartbeat, now_ms);
        }
    }
}

} // verus!
