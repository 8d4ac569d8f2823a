use vstd::prelude::*;

use crate::constants::MAX_FEED_EVENTS;

verus! {

/// What a social-feed event reports.
#[derive(Clone, Copy, Debug, PartialEq, Eq, Structural)]
pub enum SocialFeedEventType {
    CardUsed,
    CiphersPurchased,
    GameWon,
    PlayerCardCollected,
    PlayerJoined,
    PlayerCardsMaxRange,
    PlayerMoved,
    ResetAlert,
    MilestoneReached,
    PersonalBest,
    PrizePoolChange,
    PathLengthChange,
    StepPriceChange,
    ConsensusAlert,
    DataBreach,
    SystemIntrusion,
    ProtocolFragment,
}

/// One entry of a bounded event log. `value` carries the figure the event is
/// about (a position, a streak, an amount, a percentage, an achievement code);
/// turning it into display text is left to clients.
#[derive(Clone, Copy, Debug, PartialEq, Eq, Structural)]
pub struct SocialFeedEvent {
    pub event_type: SocialFeedEventType,
    pub value: u64,
    pub timestamp: i64,
}

/// A log after `e` is appended: when the log is full, its oldest entry is dropped.
pub open spec fn push_event(log: Seq<SocialFeedEvent>, e: SocialFeedEvent) -> Seq<SocialFeedEvent> {
    if log.len() >= MAX_FEED_EVENTS {
        log.drop_first().push(e)
    } else {
        log.push(e)
    }
}

/// A log after an event of type `t` with `value` is recorded at time `now`.
pub open spec fn log_event(
    log: Seq<SocialFeedEvent>,
    t: SocialFeedEventType,
    value: u64,
    now: i64,
) -> Seq<SocialFeedEvent> {
    push_event(log, SocialFeedEvent { event_type: t, value, timestamp: now })
}

/// A log holds no more than the capacity.
pub open spec fn log_wf(log: Seq<SocialFeedEvent>) -> bool {
    log.len() <= MAX_FEED_EVENTS
}

/// Appends an event to a bounded log, dropping the oldest one when it is full.
pub fn save_and_emit_event(
    events: &mut Vec<SocialFeedEvent>,
    event_type: SocialFeedEventType,
    value: u64,
    now: i64,
)
    requires
        log_wf(old(events)@),
    ensures
        final(events)@ == log_event(old(events)@, event_type, value, now),
        log_wf(final(events)@),
{
    if events.len() >= MAX_FEED_EVENTS {
        events.remove(0);
    }
    events.push(SocialFeedEvent { event_type, value, timestamp: now });
    assert(final(events)@ =~= log_event(old(events)@, event_type, value, now));
}

} // verus!
