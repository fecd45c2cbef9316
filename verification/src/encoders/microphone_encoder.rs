use vstd::prelude::*;

use crate::encoders::encoder_state::{encoder_step, EncoderOp, EncoderState};

verus! {

/// The microphone capture's control state. Capturing itself runs in the
/// browser; it reads this state to know when to stop.
#[derive(PartialEq, Debug)]
pub struct MicrophoneEncoder {
    pub state: EncoderState,
}

impl MicrophoneEncoder {
    pub fn new() -> (r: Self)
        ensures
            !r.state.destroy,
            !r.state.enabled,
            !r.state.switching,
            r.state.selected is None,
            r.state.first,
    {
        Self { state: EncoderState::new() }
    }

    /// Sets whether capture is wanted; returns whether that changed it.
    pub fn set_enabled(&mut self, value: bool) -> (changed: bool)
        ensures
            changed == (value != old(self).state.enabled),
            final(self).state == (EncoderState { enabled: value, ..old(self).state }),
            final(self).state == encoder_step(old(self).state, EncoderOp::SetEnabled(value)),
    {
        self.state.set_enabled(value)
    }

    pub fn get_enabled(&self) -> (r: bool)
        ensures
            r == self.state.enabled,
    {
        self.state.is_enabled()
    }

    pub fn is_first(&self) -> (r: bool)
        ensures
            r == self.state.first,
    {
        self.state.is_first()
    }

    pub fn set_first(&mut self, is_first: bool)
        ensures
            final(self).state == (EncoderState { first: is_first, ..old(self).state }),
            final(self).state == encoder_step(old(self).state, EncoderOp::SetFirst(is_first)),
    {
        self.state.set_first(is_first)
    }

    /// Selects a device; returns `true`.
    pub fn select(&mut self, device: String) -> (r: bool)
        ensures
            r,
            final(self).state == (EncoderState { selected: Some(device), switching: true, ..old(self).state }),
            final(self).state == encoder_step(old(self).state, EncoderOp::Select(device)),
    {
        self.state.select(device)
    }

    pub fn stop(&mut self)
        ensures
            final(self).state == (EncoderState { destroy: true, ..old(self).state }),
            final(self).state == encoder_step(old(self).state, EncoderOp::Stop),
    {
        self.state.stop()
    }
}

} // verus!
