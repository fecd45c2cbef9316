use vstd::prelude::*;

use crate::encoders::encoder_state::{encoder_step, EncoderOp, EncoderState};

verus! {

/// Every this many frames the camera asks the encoder for a key frame.
pub const KEY_FRAME_INTERVAL: u32 = 50;

/// The camera capture's control state. Capturing itself runs in the browser;
/// it reads this state to know when to stop.
#[derive(PartialEq, Debug)]
pub struct CameraEncoder {
    pub state: EncoderState,
}

impl CameraEncoder {
    pub fn new() -> (r: Self)
        ensures
            !r.state.destroy,
            !r.state.enabled,
            !r.state.switching,
            r.state.selected is None,
            r.state.first,
    {
        Self { state: EncoderState::new() }
    }

    /// Sets whether capture is wanted; returns whether that changed it.
    pub fn set_enabled(&mut self, value: bool) -> (changed: bool)
        ensures
            changed == (value != old(self).state.enabled),
            final(self).state == (EncoderState { enabled: value, ..old(self).state }),
            final(self).state == encoder_step(old(self).state, EncoderOp::SetEnabled(value)),
    {
        self.state.set_enabled(value)
    }

    pub fn get_enabled(&self) -> (r: bool)
        ensures
            r == self.state.enabled,
    {
        self.state.is_enabled()
    }

    pub fn is_first(&self) -> (r: bool)
        ensures
            r == self.state.first,
    {
        self.state.is_first()
    }

    pub fn set_first(&mut self, is_first: bool)
        ensures
            final(self).state == (EncoderState { first: is_first, ..old(self).state }),
            final(self).state == encoder_step(old(self).state, EncoderOp::SetFirst(is_first)),
    {
        self.state.set_first(is_first)
    }

    /// Selects a device; returns `true`.
    pub fn select(&mut self, device: String) -> (r: bool)
        ensures
            r,
            final(self).state == (EncoderState { selected: Some(device), switching: true, ..old(self).state }),
            final(self).state == encoder_step(old(self).state, EncoderOp::Select(device)),
    {
        self.state.select(device)
    }

    pub fn stop(&mut self)
        ensures
            final(self).state == (EncoderState { destroy: true, ..old(self).state }),
            final(self).state == encoder_step(old(self).state, EncoderOp::Stop),
    {
        self.state.stop()
    }
}

/// Advances the camera's frame counter: it counts modulo the key frame
/// interval, and a frame is a key frame when the counter comes back to zero.
pub fn next_frame_counter(counter: u32) -> (r: (u32, bool))
    requires
        counter < KEY_FRAME_INTERVAL,
    ensures
        r.0 == (counter + 1) % (KEY_FRAME_INTERVAL as int),
        r.1 == (r.0 == 0),
{
    let next = (counter + 1) % KEY_FRAME_INTERVAL;
    (next, next == 0)
}

/// The frame counter after `k` frames, starting from zero, as
/// `next_frame_counter` advances it.
pub open spec fn counter_after(k: nat) -> nat
    decreases k,
{
    if k == 0 {
        0
    } else {
        (counter_after((k - 1) as nat) + 1) % (KEY_FRAME_INTERVAL as nat)
    }
}

/// The camera asks for a key frame every `KEY_FRAME_INTERVAL` frames: after
/// `k` frames the counter is `k` modulo the interval, so frame `k` is a key
/// frame exactly when `k` is a multiple of the interval.
pub proof fn lemma_key_frame_period(k: nat)
    ensures
        counter_after(k) == k % (KEY_FRAME_INTERVAL as nat),
        k > 0 ==> ((counter_after(k) == 0) <==> (k % (KEY_FRAME_INTERVAL as nat) == 0)),
    decreases k,
{
    if k > 0 {
        lemma_key_frame_period((k - 1) as nat);
    }
}

/// The camera's frame clock: it counts the frames read since a capture
/// started and says which of them are encoded as key frames.
pub struct FrameClock {
    counter: u32,
    frames: Ghost<nat>,
}

impl FrameClock {
    /// How many frames were read.
    pub closed spec fn frames(&self) -> nat {
        self.frames@
    }

    #[verifier::type_invariant]
    closed spec fn counts_frames(&self) -> bool {
        self.counter as nat == self.frames@ % (KEY_FRAME_INTERVAL as nat)
    }

    /// A capture's clock: no frame read yet.
    pub fn new() -> (r: Self)
        ensures
            r.frames() == 0,
    {
        FrameClock { counter: 0, frames: Ghost(0) }
    }

    /// One more frame was read: it is a key frame exactly when its number,
    /// counting from one, is a multiple of the key frame interval.
    pub fn tick(&mut self) -> (key: bool)
        ensures
            final(self).frames() == old(self).frames() + 1,
            key == (final(self).frames() % (KEY_FRAME_INTERVAL as nat) == 0),
    {
        proof {
            use_type_invariant(&*self);
        }
        let ghost f = self.frames@;
        let (next, key) = next_frame_counter(self.counter);
        assert(next as nat == (f + 1) % (KEY_FRAME_INTERVAL as nat)) by {
            assert((f % 50 + 1) % 50 == (f + 1) % 50) by (nonlinear_arith);
        }
        *self = FrameClock { counter: next, frames: Ghost(f + 1) };
        key
    }
}

/// The numbers given to the encoded chunks of one capture, from zero up.
pub struct PacketCounter {
    pub next: u64,
}

impl PacketCounter {
    /// A capture's counter: the first chunk gets number zero.
    pub fn new() -> (r: Self)
        ensures
            r.next == 0,
    {
        PacketCounter { next: 0 }
    }

    /// The number of the next encoded chunk.
    pub fn take(&mut self) -> (r: u64)
        requires
            old(self).next < u64::MAX,
        ensures
            r == old(self).next,
            final(self).next == old(self).next + 1,
    {
        let r = self.next;
        self.next = self.next + 1;
        r
    }
}

proof fn lemma_counter_at(counters: Seq<PacketCounter>, taken: Seq<u64>, k: int)
    requires
        counters.len() == taken.len() + 1,
        counters[0].next == 0,
        forall|i: int|
            0 <= i < taken.len() ==> #[trigger] taken[i] == counters[i].next && counters[i + 1].next
                == counters[i].next + 1,
        0 <= k <= taken.len(),
    ensures
        counters[k].next == k,
    decreases k,
{
    if k > 0 {
        lemma_counter_at(counters, taken, k - 1);
        assert(taken[k - 1] == counters[k - 1].next);
    }
}

/// Each capture numbers its chunks 0, 1, 2, ... in the order they come out:
/// from a new counter, the `i`-th number taken is `i`.
pub proof fn lemma_chunks_numbered_in_order(counters: Seq<PacketCounter>, taken: Seq<u64>)
    requires
        counters.len() == taken.len() + 1,
        counters[0].next == 0,
        forall|i: int|
            0 <= i < taken.len() ==> #[trigger] taken[i] == counters[i].next && counters[i + 1].next
                == counters[i].next + 1,
    ensures
        forall|i: int| 0 <= i < taken.len() ==> #[trigger] taken[i] == i,
{
    assert forall|i: int| 0 <= i < taken.len() implies #[trigger] taken[i] == i by {
        lemma_counter_at(counters, taken, i);
    }
}

} // verus!
