//! At most one telemetry record per error type and cooldown window.

use crate::clock::{decision_time, unix_seconds};
use crate::text_map::TextMap;
use vstd::prelude::*;
use vstd::string::*;

verus! {

/// The least number of seconds between two records of one error type.
pub const ERROR_COOLDOWN_SECS: u64 = 60;

/// Whether a record of type `error_type` is due at time `now`: nothing of
/// that type was sent yet, or the last one was sent a full window ago. A
/// clock that has gone backwards has let no time pass.
pub open spec fn due(last_sent: Map<Seq<char>, u64>, error_type: Seq<char>, now: u64) -> bool {
    !last_sent.contains_key(error_type) || now - last_sent[error_type] >= ERROR_COOLDOWN_SECS
}

/// The times of the last record after the decision at time `now`: the time
/// is noted where a record is due, and nothing changes where none is.
pub open spec fn after_decision(
    last_sent: Map<Seq<char>, u64>,
    error_type: Seq<char>,
    now: u64,
) -> Map<Seq<char>, u64> {
    if due(last_sent, error_type, now) {
        last_sent.insert(error_type, now)
    } else {
        last_sent
    }
}

/// For each error type, when its last record was sent, in seconds since the
/// Unix epoch.
///
/// The throttle is a value that its owner constructs once and hands to every
/// caller; each decision takes it exclusively, so that reading the last time,
/// comparing and noting the new one are a single step.
pub struct ErrorThrottle {
    last_sent: TextMap<u64>,
}

impl View for ErrorThrottle {
    type V = Map<Seq<char>, u64>;

    closed spec fn view(&self) -> Map<Seq<char>, u64> {
        self.last_sent@
    }
}

impl ErrorThrottle {
    /// A throttle that has sent nothing yet.
    pub fn new() -> (throttle: ErrorThrottle)
        ensures
            throttle@ == Map::<Seq<char>, u64>::empty(),
    {
        ErrorThrottle { last_sent: TextMap::new() }
    }

    /// When the last record of `error_type` was sent, if one was.
    pub fn last_sent(&self, error_type: &str) -> (time: Option<u64>)
        ensures
            match time {
                Some(t) => self@.contains_key(error_type@) && self@[error_type@] == t,
                None => !self@.contains_key(error_type@),
            },
    {
        match self.last_sent.get(error_type) {
            Some(t) => Some(*t),
            None => None,
        }
    }

    /// Decides at time `now` whether a record of `error_type` goes out, and
    /// notes the time where it does.
    pub fn should_send_at(&mut self, error_type: &str, now: u64) -> (send: bool)
        ensures
            send == due(old(self)@, error_type@, now),
            final(self)@ == after_decision(old(self)@, error_type@, now),
    {
        let send = match self.last_sent.get(error_type) {
            Some(last) => now >= *last && now - *last >= ERROR_COOLDOWN_SECS,
            None => true,
        };
        if send {
            self.last_sent.insert(error_type.to_owned(), now);
        }
        send
    }
}

/// Decides by the system clock whether a record of `error_type` goes out,
/// and notes the time where it does.
///
/// The decision is that of [`ErrorThrottle::should_send_at`] at the time the
/// clock gave, whatever that time is; a clock that stands before the Unix
/// epoch is read as the epoch. So a first record of a type always goes out,
/// and where none goes out nothing changes.
pub fn should_send_error(throttle: &mut ErrorThrottle, error_type: &str) -> (send: bool)
    ensures
        exists|now: u64|
            send == due(old(throttle)@, error_type@, now) && final(throttle)@
                == #[trigger] after_decision(old(throttle)@, error_type@, now),
        !old(throttle)@.contains_key(error_type@) ==> send,
        !send ==> final(throttle)@ == old(throttle)@,
{
    let now = decision_time(unix_seconds());
    throttle.should_send_at(error_type, now)
}

/// After a record went out at `sent`, none of the same type goes out for a
/// full window, and one goes out again as soon as the window has passed.
pub proof fn lemma_cooldown(
    last_sent: Map<Seq<char>, u64>,
    error_type: Seq<char>,
    sent: u64,
    within: u64,
    later: u64,
)
    requires
        due(last_sent, error_type, sent),
        sent <= within < sent + ERROR_COOLDOWN_SECS,
        later >= sent + ERROR_COOLDOWN_SECS,
    ensures
        !due(after_decision(last_sent, error_type, sent), error_type, within),
        after_decision(after_decision(last_sent, error_type, sent), error_type, within)
            == after_decision(last_sent, error_type, sent),
        due(after_decision(last_sent, error_type, sent), error_type, later),
{
}

/// The decision for one error type leaves every other type as it was.
pub proof fn lemma_types_are_independent(
    last_sent: Map<Seq<char>, u64>,
    error_type: Seq<char>,
    other: Seq<char>,
    now: u64,
    then: u64,
)
    requires
        other != error_type,
    ensures
        due(after_decision(last_sent, error_type, now), other, then) == due(
            last_sent,
            other,
            then,
        ),
{
}

} // verus!
