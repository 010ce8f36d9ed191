//! The status aggregator: it folds semantic controller events into a
//! `{layer, key_event_count}` snapshot and publishes each new snapshot into a
//! single-slot channel, where a newer value replaces an unread older one.

use vstd::prelude::*;
use embassy_sync::blocking_mutex::raw::CriticalSectionRawMutex;
use embassy_sync::signal::Signal;
use crate::layers::KeyEvent;

verus! {

/// Holds the embassy_sync signal that carries published snapshots as
/// `(layer, key_event_count)` pairs; opaque to proofs.
#[verifier::external_body]
pub struct LatestSlot {
    signal: Signal<CriticalSectionRawMutex, (usize, usize)>,
}

/// The pair that the slot's signal holds and has not handed out yet.
pub uninterp spec fn slot_value(s: LatestSlot) -> Option<(usize, usize)>;

/// Relies on embassy_sync's `Signal::new`: a new signal holds no value.
#[verifier::external_body]
fn slot_new() -> (r: LatestSlot)
    ensures
        slot_value(r) == None::<(usize, usize)>,
{
    LatestSlot { signal: Signal::new() }
}

/// Relies on `Signal::signal`: the value replaces whatever the signal held.
#[verifier::external_body]
fn slot_put(s: &mut LatestSlot, v: (usize, usize))
    ensures
        slot_value(*final(s)) == Some(v),
{
    s.signal.signal(v)
}

/// Relies on `Signal::try_take`: it hands out the held value, if any, and
/// leaves the signal without one.
#[verifier::external_body]
fn slot_take(s: &mut LatestSlot) -> (r: Option<(usize, usize)>)
    ensures
        r == slot_value(*old(s)),
        slot_value(*final(s)) == None::<(usize, usize)>,
{
    s.signal.try_take()
}

/// A snapshot of what the display shows.
#[derive(Clone, Copy, Debug, PartialEq, Eq, Structural)]
pub struct UiState {
    pub layer: usize,
    pub key_event_count: usize,
}

/// A semantic notification from the input-processing pipeline, as far as the
/// status display reads it.
#[derive(Clone, Copy, Debug, PartialEq, Eq, Structural)]
pub enum ControllerEvent {
    /// The active layer changed to the given one.
    Layer(u8),
    /// A key was pressed or released.
    Key(KeyEvent),
    /// Any other notification.
    Other,
}

/// The snapshot after `ev`, with `layer_count` layers configured: a layer
/// change overwrites the layer, unless its index is out of range, where it
/// changes nothing; a key event counts once whatever its edge (saturating at
/// the width of the count).
pub open spec fn next_state(s: UiState, ev: ControllerEvent, layer_count: nat) -> UiState {
    match ev {
        ControllerEvent::Layer(l) => {
            if (l as nat) < layer_count {
                UiState { layer: l as usize, ..s }
            } else {
                s
            }
        },
        ControllerEvent::Key(_) => UiState {
            key_event_count: if s.key_event_count < usize::MAX {
                (s.key_event_count + 1) as usize
            } else {
                s.key_event_count
            },
            ..s
        },
        ControllerEvent::Other => s,
    }
}

/// Whether the aggregator publishes after `ev`: a layer change to a
/// configured layer, or a key event.
pub open spec fn is_published(ev: ControllerEvent, layer_count: nat) -> bool {
    match ev {
        ControllerEvent::Layer(l) => (l as nat) < layer_count,
        ControllerEvent::Key(_) => true,
        ControllerEvent::Other => false,
    }
}

/// The UI state behind a pair held in the signal.
pub open spec fn state_of(v: Option<(usize, usize)>) -> Option<UiState> {
    match v {
        Some((layer, key_event_count)) => Some(UiState { layer, key_event_count }),
        None => None,
    }
}

/// What publishing `s` leaves in the slot: `s`, whatever was there before.
pub open spec fn publish_step(pending: Option<UiState>, s: UiState) -> Option<UiState> {
    Some(s)
}

/// What the slot holds after publishing each of `us` in turn, with no take in between.
pub open spec fn after_publishing(pending: Option<UiState>, us: Seq<UiState>) -> Option<UiState>
    decreases us.len(),
{
    if us.len() == 0 {
        pending
    } else {
        publish_step(after_publishing(pending, us.drop_last()), us.last())
    }
}

/// The single-slot "latest value wins" channel between aggregator and renderer.
pub struct StatusChannel {
    slot: LatestSlot,
}

impl StatusChannel {
    /// The snapshot published and not yet taken, if any.
    pub closed spec fn pending(&self) -> Option<UiState> {
        state_of(slot_value(self.slot))
    }

    pub fn new() -> (r: StatusChannel)
        ensures
            r.pending() == None::<UiState>,
    {
        StatusChannel { slot: slot_new() }
    }

    /// Publishes `s`, replacing any snapshot not yet taken.
    pub fn publish(&mut self, s: UiState)
        ensures
            final(self).pending() == publish_step(old(self).pending(), s),
    {
        slot_put(&mut self.slot, (s.layer, s.key_event_count));
    }

    /// Takes the pending snapshot, if any, leaving the channel empty.
    pub fn take(&mut self) -> (r: Option<UiState>)
        ensures
            r == old(self).pending(),
            final(self).pending() == None::<UiState>,
    {
        match slot_take(&mut self.slot) {
            Some((layer, key_event_count)) => Some(UiState { layer, key_event_count }),
            None => None,
        }
    }
}

/// Keeps the current snapshot and publishes it after every event that changes it.
pub struct StatusAggregator {
    state: UiState,
    layer_count: usize,
}

impl StatusAggregator {
    pub closed spec fn current(&self) -> UiState {
        self.state
    }

    /// The number of configured layers.
    pub closed spec fn layers(&self) -> nat {
        self.layer_count as nat
    }

    /// At least one layer is configured and the snapshot's layer is one of them.
    pub open spec fn wf(&self) -> bool {
        self.layers() >= 1 && (self.current().layer as nat) < self.layers()
    }

    /// An aggregator over `layer_count` layers, at layer 0 with no key event
    /// counted; `None` when no layer is configured.
    pub fn new(layer_count: usize) -> (r: Option<StatusAggregator>)
        ensures
            layer_count >= 1 <==> r.is_some(),
            r matches Some(a) ==> a.wf() && a.layers() == layer_count
                && a.current() == (UiState { layer: 0, key_event_count: 0 }),
    {
        if layer_count >= 1 {
            Some(StatusAggregator { state: UiState { layer: 0, key_event_count: 0 }, layer_count })
        } else {
            None
        }
    }

    /// The current snapshot.
    pub fn state(&self) -> (r: UiState)
        ensures
            r == self.current(),
    {
        self.state
    }

    /// The number of configured layers.
    pub fn layer_count(&self) -> (r: usize)
        ensures
            r == self.layers(),
    {
        self.layer_count
    }

    /// Folds `ev` into the snapshot and publishes the result when `ev` is a
    /// change to a configured layer or a key event. A layer change out of
    /// range is ignored.
    pub fn process_event(&mut self, ev: ControllerEvent, channel: &mut StatusChannel)
        requires
            old(self).wf(),
        ensures
            final(self).wf(),
            final(self).layers() == old(self).layers(),
            final(self).current() == next_state(old(self).current(), ev, old(self).layers()),
            (final(self).current().layer as nat) < final(self).layers(),
            final(self).current().key_event_count >= old(self).current().key_event_count,
            is_published(ev, old(self).layers())
                ==> final(channel).pending() == Some(final(self).current()),
            !is_published(ev, old(self).layers())
                ==> final(channel).pending() == old(channel).pending(),
    {
        match ev {
            ControllerEvent::Layer(l) => {
                if (l as usize) < self.layer_count {
                    self.state.layer = l as usize;
                    channel.publish(self.state);
                }
            },
            ControllerEvent::Key(_) => {
                self.state.key_event_count = self.state.key_event_count.saturating_add(1);
                channel.publish(self.state);
            },
            ControllerEvent::Other => {},
        }
    }
}

} // verus!
