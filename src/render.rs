//! The display renderer: on each tick it shows the latest published snapshot,
//! or the last one it showed when nothing new arrived, as a text frame.

use vstd::prelude::*;
use crate::status::{StatusChannel, UiState, after_publishing};

verus! {

/// The ASCII code of the decimal digit `d`.
pub open spec fn digit_byte(d: nat) -> u8 {
    (48 + d) as u8
}

/// The decimal digits of `n`, most significant first, without leading zeros.
pub open spec fn decimal(n: nat) -> Seq<u8>
    decreases n,
{
    if n < 10 {
        seq![digit_byte(n)]
    } else {
        decimal(n / 10).push(digit_byte(n % 10))
    }
}

/// The text of a frame: the layer, a line break, then the key event count.
pub open spec fn frame_text(s: UiState) -> Seq<u8> {
    decimal(s.layer as nat) + seq![10u8] + decimal(s.key_event_count as nat)
}

/// The snapshot that a tick shows: a fresh one if the channel had one, else
/// the one shown before.
pub open spec fn shown(last: Option<UiState>, fresh: Option<UiState>) -> Option<UiState> {
    match fresh {
        Some(s) => Some(s),
        None => last,
    }
}

/// Appends the decimal digits of `n` to `buf`.
pub fn push_decimal(buf: &mut Vec<u8>, n: usize)
    ensures
        final(buf)@ == old(buf)@ + decimal(n as nat),
    decreases n,
{
    if n >= 10 {
        push_decimal(buf, n / 10);
    }
    buf.push((48 + n % 10) as u8);
    assert(final(buf)@ =~= old(buf)@ + decimal(n as nat));
}

/// The text frame for `s`.
pub fn render_frame(s: UiState) -> (r: Vec<u8>)
    ensures
        r@ == frame_text(s),
{
    let mut buf: Vec<u8> = Vec::new();
    push_decimal(&mut buf, s.layer);
    buf.push(10u8);
    push_decimal(&mut buf, s.key_event_count);
    assert(buf@ =~= frame_text(s));
    buf
}

/// How a draw or flush on the display ended.
#[derive(Clone, Copy, Debug, PartialEq, Eq, Structural)]
pub enum FlushOutcome {
    Done,
    /// A failure that the next tick may not see again; the frame is skipped.
    Transient,
    /// The display is gone; rendering stops, nothing else does.
    Permanent,
}

/// Turns the latest snapshot into a frame at each tick of a fixed cadence.
pub struct Renderer {
    last: Option<UiState>,
    stopped: bool,
}

impl Renderer {
    /// The snapshot shown at the last tick, if any.
    pub closed spec fn last_shown(&self) -> Option<UiState> {
        self.last
    }

    /// Whether a permanent display failure stopped rendering.
    pub closed spec fn is_stopped(&self) -> bool {
        self.stopped
    }

    pub fn new() -> (r: Renderer)
        ensures
            r.last_shown() == None::<UiState>,
            !r.is_stopped(),
    {
        Renderer { last: None, stopped: false }
    }

    /// One tick: takes the pending snapshot from `channel`, if any, and returns
    /// the frame of the snapshot to show. No frame before the first snapshot
    /// arrives, and none once rendering stopped (the channel is then left alone).
    pub fn tick(&mut self, channel: &mut StatusChannel) -> (r: Option<Vec<u8>>)
        ensures
            final(self).is_stopped() == old(self).is_stopped(),
            old(self).is_stopped() ==> r.is_none()
                && final(self).last_shown() == old(self).last_shown()
                && final(channel).pending() == old(channel).pending(),
            !old(self).is_stopped() ==> final(self).last_shown()
                == shown(old(self).last_shown(), old(channel).pending())
                && final(channel).pending() == None::<UiState>,
            !old(self).is_stopped() ==> (r.is_some() <==> final(self).last_shown().is_some()),
            r matches Some(f) ==> f@ == frame_text(final(self).last_shown().unwrap()),
    {
        if self.stopped {
            return None;
        }
        match channel.take() {
            Some(s) => {
                self.last = Some(s);
            },
            None => {},
        }
        match self.last {
            Some(s) => Some(render_frame(s)),
            None => None,
        }
    }

    /// Records how drawing the last frame ended: a permanent failure stops the
    /// renderer, anything else leaves it running for the next tick.
    pub fn record_flush(&mut self, outcome: FlushOutcome)
        ensures
            final(self).last_shown() == old(self).last_shown(),
            final(self).is_stopped() == (old(self).is_stopped() || outcome
                == FlushOutcome::Permanent),
    {
        if let FlushOutcome::Permanent = outcome {
            self.stopped = true;
        }
    }

    /// Whether the renderer still draws frames.
    pub fn is_running(&self) -> (r: bool)
        ensures
            r == !self.is_stopped(),
    {
        !self.stopped
    }
}

/// Two ticks with no publication in between show the same snapshot, and so
/// render the same frame.
pub proof fn lemma_tick_twice_same_frame(last: Option<UiState>, pending: Option<UiState>)
    ensures
        shown(shown(last, pending), None) == shown(last, pending),
        shown(last, pending) matches Some(s) ==> frame_text(s) == frame_text(
            shown(shown(last, pending), None).unwrap(),
        ),
{
}

/// When snapshots `us` were published before a tick, that tick shows the last
/// of them, whatever the renderer showed or the channel held before.
pub proof fn lemma_tick_shows_latest(
    last: Option<UiState>,
    pending: Option<UiState>,
    us: Seq<UiState>,
)
    requires
        us.len() > 0,
    ensures
        shown(last, after_publishing(pending, us)) == Some(us.last()),
{
}

} // verus!
