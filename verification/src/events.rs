//! The events that drive the display, and the timing of the source that
//! produces them.

use vstd::prelude::*;

verus! {

/// One event for the display: an input, or the periodic tick.
#[derive(Clone, Copy, Debug)]
pub enum Event<I> {
    Input(I),
    Tick,
}

/// A key as the display tells keys apart.
#[derive(Clone, Copy, Debug, PartialEq, Eq, Structural)]
pub enum Key {
    Char(char),
    Down,
    Up,
    Other,
}

/// The tick interval that the display runs with, in milliseconds.
pub const TICK_RATE_MS: u64 = 200;

/// The length of a tick interval in nanoseconds.
pub open spec fn interval_nanos(tick_rate_ms: u64) -> int {
    tick_rate_ms as int * 1_000_000
}

/// How long the source may wait for a key, in nanoseconds: what is left of
/// the interval since the last tick, and nothing once the interval is over.
pub fn poll_timeout(tick_rate_ms: u64, since_tick_nanos: u128) -> (wait: u128)
    ensures
        since_tick_nanos <= interval_nanos(tick_rate_ms) ==> wait == interval_nanos(tick_rate_ms)
            - since_tick_nanos,
        since_tick_nanos > interval_nanos(tick_rate_ms) ==> wait == 0,
{
    let interval: u128 = (tick_rate_ms as u128) * 1_000_000;
    if since_tick_nanos <= interval {
        interval - since_tick_nanos
    } else {
        0
    }
}

/// Whether a tick is due: the interval since the last tick is over.
pub fn tick_due(tick_rate_ms: u64, since_tick_nanos: u128) -> (due: bool)
    ensures
        due == (since_tick_nanos >= interval_nanos(tick_rate_ms)),
{
    let interval: u128 = (tick_rate_ms as u128) * 1_000_000;
    since_tick_nanos >= interval
}

/// The events of one round of the source, in the order in which they are
/// sent: the key that arrived while it waited, if any, and then one tick
/// if the interval is over.
pub open spec fn round_events<I>(key: Option<I>, tick_rate_ms: u64, since_tick_nanos: u128) -> Seq<
    Event<I>,
> {
    let keys = match key {
        Some(k) => seq![Event::Input(k)],
        None => Seq::empty(),
    };
    if since_tick_nanos >= interval_nanos(tick_rate_ms) {
        keys.push(Event::Tick)
    } else {
        keys
    }
}

/// A round sends at most one tick, as its last event, and sends it exactly
/// when the interval is over; the key of the round, if there is one, is
/// its first event.
pub proof fn lemma_one_tick_a_round<I>(key: Option<I>, tick_rate_ms: u64, since_tick_nanos: u128)
    ensures
        ({
            let events = round_events(key, tick_rate_ms, since_tick_nanos);
            let due = since_tick_nanos >= interval_nanos(tick_rate_ms);
            &&& events.len() == (if key is Some { 1int } else { 0int }) + (if due { 1int } else { 0int })
            &&& key is Some ==> events[0] == Event::Input(key->Some_0)
            &&& due ==> events.last() == Event::<I>::Tick
            &&& forall|i: int| 0 <= i < events.len() - 1 ==> !(#[trigger] events[i] is Tick)
        }),
{
}

/// The events that one round of the source sends, in order.
pub fn round<I>(key: Option<I>, tick_rate_ms: u64, since_tick_nanos: u128) -> (events: Vec<Event<I>>)
    ensures
        events@ == round_events(key, tick_rate_ms, since_tick_nanos),
{
    let mut events: Vec<Event<I>> = Vec::new();
    match key {
        Some(k) => {
            events.push(Event::Input(k));
        },
        None => {},
    }
    if tick_due(tick_rate_ms, since_tick_nanos) {
        events.push(Event::Tick);
    }
    assert(events@ =~= round_events(key, tick_rate_ms, since_tick_nanos));
    events
}

} // verus!
