use vstd::prelude::*;

verus! {

/// The control flags of a capture device: whether capture is wanted, whether it
/// must end for good, whether the device is being switched, which device is
/// selected, and whether no device has been chosen by the user yet.
#[derive(PartialEq, Debug)]
pub struct EncoderState {
    pub destroy: bool,
    pub enabled: bool,
    pub switching: bool,
    pub selected: Option<String>,
    pub first: bool,
}

/// What can be done to a capture state.
pub enum EncoderOp {
    SetEnabled(bool),
    SetFirst(bool),
    Select(String),
    Stop,
    /// The running capture's check before a frame.
    ShouldStop,
}

/// The capture state after `op`.
pub open spec fn encoder_step(s: EncoderState, op: EncoderOp) -> EncoderState {
    match op {
        EncoderOp::SetEnabled(value) => EncoderState { enabled: value, ..s },
        EncoderOp::SetFirst(first) => EncoderState { first, ..s },
        EncoderOp::Select(device) => EncoderState { selected: Some(device), switching: true, ..s },
        EncoderOp::Stop => EncoderState { destroy: true, ..s },
        EncoderOp::ShouldStop => if !s.enabled || s.destroy || s.switching {
            EncoderState { switching: false, ..s }
        } else {
            s
        },
    }
}

impl EncoderState {
    /// Disabled, not destroyed, not switching, no device selected, first use.
    pub fn new() -> (r: Self)
        ensures
            !r.destroy,
            !r.enabled,
            !r.switching,
            r.selected is None,
            r.first,
    {
        Self { destroy: false, enabled: false, switching: false, selected: None, first: true }
    }

    /// Sets whether capture is wanted; returns whether that changed it.
    pub fn set_enabled(&mut self, value: bool) -> (changed: bool)
        ensures
            changed == (value != old(self).enabled),
            *final(self) == (EncoderState { enabled: value, ..*old(self) }),
            *final(self) == encoder_step(*old(self), EncoderOp::SetEnabled(value)),
    {
        if value != self.enabled {
            self.enabled = value;
            true
        } else {
            false
        }
    }

    pub fn is_enabled(&self) -> (r: bool)
        ensures
            r == self.enabled,
    {
        self.enabled
    }

    pub fn is_first(&self) -> (r: bool)
        ensures
            r == self.first,
    {
        self.first
    }

    pub fn set_first(&mut self, is_first: bool)
        ensures
            *final(self) == (EncoderState { first: is_first, ..*old(self) }),
            *final(self) == encoder_step(*old(self), EncoderOp::SetFirst(is_first)),
    {
        self.first = is_first;
    }

    /// Selects `device` and asks a running capture to stop so that it can be
    /// restarted on it; returns `true`.
    pub fn select(&mut self, device: String) -> (r: bool)
        ensures
            r,
            *final(self) == (EncoderState { selected: Some(device), switching: true, ..*old(self) }),
            *final(self) == encoder_step(*old(self), EncoderOp::Select(device)),
    {
        self.selected = Some(device);
        self.switching = true;
        true
    }

    /// Asks a running capture to end for good.
    pub fn stop(&mut self)
        ensures
            *final(self) == (EncoderState { destroy: true, ..*old(self) }),
            *final(self) == encoder_step(*old(self), EncoderOp::Stop),
    {
        self.destroy = true;
    }

    /// The check a running capture makes before each frame: it stops when
    /// capture is no longer wanted, the encoder is destroyed or the device is
    /// being switched; stopping acknowledges a switch.
    pub fn should_stop(&mut self) -> (stop: bool)
        ensures
            stop == (!old(self).enabled || old(self).destroy || old(self).switching),
            *final(self) == (if stop {
                EncoderState { switching: false, ..*old(self) }
            } else {
                *old(self)
            }),
            *final(self) == encoder_step(*old(self), EncoderOp::ShouldStop),
    {
        if !self.enabled || self.destroy || self.switching {
            self.switching = false;
            true
        } else {
            false
        }
    }
}

/// Setting the same value twice: the second call reports no change and
/// leaves the state as the first call left it.
pub proof fn lemma_set_enabled_idempotent(s0: EncoderState, value: bool, s1: EncoderState, s2: EncoderState, changed: bool)
    requires
        s1 == (EncoderState { enabled: value, ..s0 }),
        changed == (value != s1.enabled),
        s2 == (EncoderState { enabled: value, ..s1 }),
    ensures
        !changed,
        s2 == s1,
{
}

/// A capture stopped for a device switch goes on with the next check: the
/// switch is acknowledged once.
pub proof fn lemma_switch_acknowledged_once(s0: EncoderState, s1: EncoderState, stop1: bool, s2: EncoderState, stop2: bool)
    requires
        s0.enabled,
        !s0.destroy,
        s0.switching,
        stop1 == (!s0.enabled || s0.destroy || s0.switching),
        s1 == (if stop1 { EncoderState { switching: false, ..s0 } } else { s0 }),
        stop2 == (!s1.enabled || s1.destroy || s1.switching),
        s2 == (if stop2 { EncoderState { switching: false, ..s1 } } else { s1 }),
    ensures
        stop1,
        !stop2,
        s2 == s1,
{
}

proof fn lemma_enabled_since(states: Seq<EncoderState>, ops: Seq<EncoderOp>, j: int, v: bool, k: int)
    requires
        states.len() == ops.len() + 1,
        forall|i: int| 0 <= i < ops.len() ==> states[i + 1] == encoder_step(states[i], #[trigger] ops[i]),
        0 <= j < ops.len(),
        ops[j] == EncoderOp::SetEnabled(v),
        forall|i: int| j < i < ops.len() ==> !(#[trigger] ops[i] is SetEnabled),
        j < k <= ops.len(),
    ensures
        states[k].enabled == v,
    decreases k,
{
    if k > j + 1 {
        lemma_enabled_since(states, ops, j, v, k - 1);
        assert(states[k] == encoder_step(states[k - 1], ops[k - 1]));
        assert(!(ops[k - 1] is SetEnabled));
    } else {
        assert(states[j + 1] == encoder_step(states[j], ops[j]));
    }
}

/// Whatever else is done to a capture state, capture is wanted exactly as
/// the last `set_enabled` said: after a run of operations whose last
/// `SetEnabled` is `v`, `enabled` (what `get_enabled` reports) is `v`.
pub proof fn lemma_enabled_is_last_set(states: Seq<EncoderState>, ops: Seq<EncoderOp>, j: int, v: bool)
    requires
        states.len() == ops.len() + 1,
        forall|i: int| 0 <= i < ops.len() ==> states[i + 1] == encoder_step(states[i], #[trigger] ops[i]),
        0 <= j < ops.len(),
        ops[j] == EncoderOp::SetEnabled(v),
        forall|i: int| j < i < ops.len() ==> !(#[trigger] ops[i] is SetEnabled),
    ensures
        states.last().enabled == v,
{
    lemma_enabled_since(states, ops, j, v, ops.len() as int);
}

} // verus!
