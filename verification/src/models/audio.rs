use vstd::prelude::*;

use crate::utils::device::CodecState;

verus! {

/// What to do with the audio decoder for one incoming chunk.
#[derive(PartialEq, Eq, Structural, Clone, Copy, Debug)]
pub enum AudioAction {
    Skip,
    Decode,
    /// The decoder has fallen behind: drop what is queued.
    Reset,
}

/// A decoder accepts at most this many queued chunks before it is reset.
pub const MAX_AUDIO_QUEUE: u32 = 3;

/// The playback switches of one remote audio stream.
#[derive(PartialEq, Eq, Structural, Clone, Copy, Debug)]
pub struct Audio {
    pub on_speakers: bool,
    pub on_video: bool,
}

impl Audio {
    /// Audio that is played.
    pub fn new() -> (r: Self)
        ensures
            r.on_speakers,
            r.on_video,
    {
        Self { on_speakers: true, on_video: true }
    }

    /// The decision for a client's audio chunk: decode it when the decoder's
    /// queue is short and the decoder is configured; reset a decoder whose
    /// queue has grown to the limit.
    pub fn decode(&self, queue_size: u32, codec: CodecState) -> (r: AudioAction)
        ensures
            r == (if queue_size < MAX_AUDIO_QUEUE {
                if codec == CodecState::Configured { AudioAction::Decode } else { AudioAction::Skip }
            } else {
                AudioAction::Reset
            }),
    {
        if queue_size < MAX_AUDIO_QUEUE {
            match codec {
                CodecState::Configured => AudioAction::Decode,
                _ => AudioAction::Skip,
            }
        } else {
            AudioAction::Reset
        }
    }

    /// The decision for the host's audio chunk: decode it when the speakers
    /// are on and the decoder is configured.
    pub fn play(&self, codec: CodecState) -> (r: AudioAction)
        ensures
            r == (if self.on_speakers && codec == CodecState::Configured {
                AudioAction::Decode
            } else {
                AudioAction::Skip
            }),
    {
        if self.on_speakers {
            match codec {
                CodecState::Configured => AudioAction::Decode,
                _ => AudioAction::Skip,
            }
        } else {
            AudioAction::Skip
        }
    }
}

} // verus!
