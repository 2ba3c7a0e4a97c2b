//! Heartbeat throttling: send at once when the entity changes, and again for
//! the same entity once the resend interval has passed.

use vstd::prelude::*;

use crate::clock::millis_since;
use crate::domain::{Entity, Heartbeat};

verus! {

/// Whether a candidate heartbeat goes to the sink.
#[derive(Debug, Clone, Copy, PartialEq, Eq, Structural)]
pub enum ThrottleDecision {
    /// Send the heartbeat.
    Send,
    /// Drop it: the same entity was sent too recently.
    Skip,
}

/// What the throttle knows: the entity last sent and when (in milliseconds
/// on the throttle's clock), and the resend interval in seconds.
pub struct ThrottleModel {
    pub last: Option<(Seq<char>, u64)>,
    pub min_resend_seconds: u64,
}

/// Milliseconds from `sent_at` to `now`; zero if `now` is earlier.
pub open spec fn elapsed_ms(sent_at: u64, now: u64) -> int {
    if now >= sent_at {
        now - sent_at
    } else {
        0
    }
}

/// The throttle rule: the first heartbeat is sent, a changed entity is sent
/// whatever the time, and the same entity is sent once at least the resend
/// interval has passed since it was last sent.
pub open spec fn decide(m: ThrottleModel, entity: Seq<char>, now: u64) -> ThrottleDecision {
    match m.last {
        None => ThrottleDecision::Send,
        Some((e, t)) => if e != entity || elapsed_ms(t, now) >= 1000 * m.min_resend_seconds {
            ThrottleDecision::Send
        } else {
            ThrottleDecision::Skip
        },
    }
}

/// The throttle after `entity` was sent at `now`.
pub open spec fn record(m: ThrottleModel, entity: Seq<char>, now: u64) -> ThrottleModel {
    ThrottleModel { last: Some((entity, now)), min_resend_seconds: m.min_resend_seconds }
}

/// A heartbeat that reached the sink.
#[derive(Debug)]
struct SentHeartbeat {
    heartbeat: Heartbeat,
    sent_at_ms: u64,
}

/// The throttle state machine. It is advanced only for heartbeats that the
/// sink accepted.
#[derive(Debug)]
pub struct HeartbeatThrottle {
    last_sent: Option<SentHeartbeat>,
    min_resend_seconds: u64,
    origin: std::time::Instant,
}

impl View for HeartbeatThrottle {
    type V = ThrottleModel;

    closed spec fn view(&self) -> ThrottleModel {
        ThrottleModel {
            last: match self.last_sent {
                Some(s) => Some((s.heartbeat.entity@, s.sent_at_ms)),
                None => None,
            },
            min_resend_seconds: self.min_resend_seconds,
        }
    }
}

impl HeartbeatThrottle {
    /// The heartbeat last sent, if any.
    pub closed spec fn last(&self) -> Option<Heartbeat> {
        match self.last_sent {
            Some(s) => Some(s.heartbeat),
            None => None,
        }
    }

    /// A throttle that has sent nothing, with the given resend interval.
    pub fn new(min_resend_seconds: u64) -> (r: Self)
        ensures
            r@ == (ThrottleModel { last: None, min_resend_seconds }),
            r.last() is None,
    {
        HeartbeatThrottle { last_sent: None, min_resend_seconds, origin: std::time::Instant::now() }
    }

    /// The decision for a heartbeat of `entity` at time `now_ms`.
    pub fn should_send_at(&self, entity: &Entity, now_ms: u64) -> (r: ThrottleDecision)
        ensures
            r == decide(self@, entity@, now_ms),
    {
        match &self.last_sent {
            None => ThrottleDecision::Send,
            Some(last) => {
                if !(last.heartbeat.entity == *entity) {
                    return ThrottleDecision::Send;
                }
                let elapsed = if now_ms >= last.sent_at_ms {
                    now_ms - last.sent_at_ms
                } else {
                    0
                };
                let due = match self.min_resend_seconds.checked_mul(1000) {
                    Some(threshold) => elapsed >= threshold,
                    None => false,
                };
                if due {
                    ThrottleDecision::Send
                } else {
                    ThrottleDecision::Skip
                }
            },
        }
    }

    /// Records that `heartbeat` was sent at time `now_ms`.
    pub fn record_sent_at(&mut self, heartbeat: Heartbeat, now_ms: u64)
        ensures
            final(self)@ == record(old(self)@, heartbeat.entity@, now_ms),
            final(self).last() == Some(heartbeat),
    {
        self.last_sent = Some(SentHeartbeat { heartbeat, sent_at_ms: now_ms });
    }

    /// The decision for a heartbeat of `entity` now, on the throttle's clock.
    pub fn should_send(&self, entity: &Entity) -> (r: ThrottleDecision)
        ensures
            exists|now: u64| r == decide(self@, entity@, now),
            self@.last is None ==> r == ThrottleDecision::Send,
            self@.last matches Some((e, _)) && e != entity@ ==> r == ThrottleDecision::Send,
    {
        let now = millis_since(&self.origin);
        self.should_send_at(entity, now)
    }

    /// Records that `heartbeat` was sent now, on the throttle's clock.
    pub fn record_sent(&mut self, heartbeat: Heartbeat)
        ensures
            exists|now: u64| final(self)@ == record(old(self)@, heartbeat.entity@, now),
            final(self).last() == Some(heartbeat),
    {
        let now = millis_since(&self.origin);
        self.record_sent_at(heartbeat, now);
    }

    /// The heartbeat last sent, if any.
    pub fn last_heartbeat(&self) -> (r: Option<&Heartbeat>)
        ensures
            match r {
                Some(h) => self.last() == Some(*h),
                None => self.last() is None,
            },
    {
        match &self.last_sent {
            Some(s) => Some(&s.heartbeat),
            None => None,
        }
    }
}

/// The throttle rule over a run of decisions: a throttle that has sent
/// nothing sends; right after a send the same entity is skipped (for a
/// non-zero interval); another entity is always sent; the same entity is
/// sent again once the interval has passed; with a zero interval every
/// repeat is sent.
pub proof fn lemma_throttle_rule(m: ThrottleModel, e: Seq<char>, other: Seq<char>, t: u64, now: u64)
    requires
        m.last is None,
        e != other,
    ensures
        decide(m, e, now) == ThrottleDecision::Send,
        m.min_resend_seconds > 0 ==> decide(record(m, e, t), e, t) == ThrottleDecision::Skip,
        decide(record(m, e, t), other, now) == ThrottleDecision::Send,
        now >= t + 1000 * m.min_resend_seconds ==> decide(record(m, e, t), e, now)
            == ThrottleDecision::Send,
        m.min_resend_seconds == 0 ==> decide(record(m, e, t), e, now) == ThrottleDecision::Send,
{
}

} // verus!
