use vstd::prelude::*;

use crate::utils::device::{CodecState, VideoElementKind};
use crate::utils::text::{is_key_chunk, key_chunk_type};

verus! {

/// What to do with the video decoder for one incoming frame.
#[derive(PartialEq, Eq, Structural, Clone, Copy, Debug)]
pub enum DecodeAction {
    /// Leave the frame.
    Skip,
    /// Hand the frame to the decoder.
    Decode,
    /// The decoder is closed: build a new one; when `remove_element` holds,
    /// the old video element is removed from the page first.
    RecreateDecoder { remove_element: bool },
}

/// What a remote video stream asks of its decoder when a start/stop request arrives.
#[derive(PartialEq, Eq, Structural, Clone, Copy, Debug)]
pub enum SwitchAction {
    /// Configure the decoder again.
    Configure,
    /// Reset the decoder.
    Reset,
}

/// What a client does with a frame of the host's camera or screen.
#[derive(PartialEq, Eq, Structural, Clone, Copy, Debug)]
pub enum FrameAction {
    /// Leave the frame.
    Ignore,
    /// The frame went through sequencing, with this decoder action.
    Decode(DecodeAction),
    /// The camera decoder is closed: build a new one for a fresh stream.
    RecreateDecoder,
    /// The screen decoder is closed: configure the camera decoder again.
    ReconfigureCamera,
}

/// The playback bookkeeping of one remote video stream: which frame was
/// decoded last, whether a key frame is needed before decoding goes on, and
/// whether the stream is shown.
#[derive(PartialEq, Debug)]
pub struct Video {
    pub on_video: bool,
    pub video_start: bool,
    pub check_key: bool,
    pub render_id: String,
    pub sequence: Option<u64>,
    pub element_kind: VideoElementKind,
    pub require_key: bool,
    pub is_screen: bool,
}

/// The decision for a frame that reaches the decoder, by the codec's state,
/// with whether a key frame is then required.
pub open spec fn packet_decision(codec: CodecState, is_screen: bool) -> DecodeAction {
    match codec {
        CodecState::Configured => DecodeAction::Decode,
        CodecState::Closed => DecodeAction::RecreateDecoder { remove_element: !is_screen },
        _ => DecodeAction::Skip,
    }
}

/// Whether a frame is decoded in sequence: it is a key frame, or it directly
/// follows the last decoded frame while no key frame is required.
pub open spec fn frame_accepted(v: Video, sequence_number: u64, chunk_type: Seq<char>) -> bool {
    ||| chunk_type == key_chunk_type()
    ||| (v.sequence is Some && !v.require_key && sequence_number == v.sequence->0 + 1)
}

/// The stream after a frame: an accepted frame becomes the last decoded one
/// and clears the need for a key frame, unless the decoder turned out closed.
pub open spec fn after_frame(v: Video, sequence_number: u64, chunk_type: Seq<char>, codec: CodecState) -> Video {
    if frame_accepted(v, sequence_number, chunk_type) {
        Video {
            sequence: Some(sequence_number),
            require_key: codec == CodecState::Closed,
            ..v
        }
    } else {
        v
    }
}

/// The decoder action for a frame.
pub open spec fn frame_decision(v: Video, sequence_number: u64, chunk_type: Seq<char>, codec: CodecState) -> DecodeAction {
    if frame_accepted(v, sequence_number, chunk_type) {
        packet_decision(codec, v.is_screen)
    } else {
        DecodeAction::Skip
    }
}

/// A frame's number can be compared with its successor without overflow.
pub open spec fn frame_in_range(v: Video, chunk_type: Seq<char>) -> bool {
    chunk_type == key_chunk_type() || v.require_key || v.sequence != Some(u64::MAX)
}

impl Video {
    /// A fresh stream: shown, started, waiting for a key frame, nothing decoded.
    pub fn new(render_id: String, element_kind: VideoElementKind, is_screen: bool) -> (r: Self)
        ensures
            r == (Video {
                on_video: true,
                video_start: true,
                check_key: true,
                render_id,
                sequence: None,
                element_kind,
                require_key: false,
                is_screen,
            }),
    {
        Self {
            on_video: true,
            video_start: true,
            check_key: true,
            render_id,
            sequence: None,
            element_kind,
            require_key: false,
            is_screen,
        }
    }

    /// Whether a frame of this chunk type can be sequenced: its number can be
    /// compared with the successor of the last decoded one.
    pub fn can_sequence(&self, chunk_type: &str) -> (r: bool)
        ensures
            r == frame_in_range(*self, chunk_type@),
    {
        is_key_chunk(chunk_type) || self.require_key || match self.sequence {
            Some(n) => n != u64::MAX,
            None => true,
        }
    }

    /// The decision for a frame that reaches the decoder: decode it when the
    /// decoder is configured; when it is closed, require a key frame and
    /// rebuild the decoder.
    pub fn decode_packet(&mut self, codec: CodecState) -> (r: DecodeAction)
        ensures
            r == packet_decision(codec, old(self).is_screen),
            *final(self) == (if codec == CodecState::Closed {
                Video { require_key: true, ..*old(self) }
            } else {
                *old(self)
            }),
    {
        match codec {
            CodecState::Configured => DecodeAction::Decode,
            CodecState::Closed => {
                self.require_key = true;
                DecodeAction::RecreateDecoder { remove_element: !self.is_screen }
            },
            _ => DecodeAction::Skip,
        }
    }

    /// Keeps decoding in sequence: a key frame is always decoded; another
    /// frame only when it follows the last decoded one directly and no key
    /// frame is required.
    pub fn decode_break(&mut self, sequence_number: u64, chunk_type: &str, codec: CodecState) -> (r: DecodeAction)
        requires
            frame_in_range(*old(self), chunk_type@),
        ensures
            r == frame_decision(*old(self), sequence_number, chunk_type@, codec),
            *final(self) == after_frame(*old(self), sequence_number, chunk_type@, codec),
    {
        if is_key_chunk(chunk_type) {
            self.require_key = false;
            let r = self.decode_packet(codec);
            self.sequence = Some(sequence_number);
            r
        } else {
            match self.sequence {
                Some(sequence) => {
                    if self.require_key {
                        return DecodeAction::Skip;
                    }
                    if sequence_number == sequence + 1 {
                        let r = self.decode_packet(codec);
                        self.sequence = Some(sequence_number);
                        r
                    } else {
                        DecodeAction::Skip
                    }
                },
                None => DecodeAction::Skip,
            }
        }
    }

    /// As `decode_packet`, for frames rebuilt from their raw data.
    pub fn decode_packet_data(&mut self, codec: CodecState) -> (r: DecodeAction)
        ensures
            r == packet_decision(codec, old(self).is_screen),
            *final(self) == (if codec == CodecState::Closed {
                Video { require_key: true, ..*old(self) }
            } else {
                *old(self)
            }),
    {
        self.decode_packet(codec)
    }

    /// As `decode_break`, for frames rebuilt from their raw data.
    pub fn decode_break_data(&mut self, sequence_number: u64, chunk_type: &str, codec: CodecState) -> (r: DecodeAction)
        requires
            frame_in_range(*old(self), chunk_type@),
        ensures
            r == frame_decision(*old(self), sequence_number, chunk_type@, codec),
            *final(self) == after_frame(*old(self), sequence_number, chunk_type@, codec),
    {
        if is_key_chunk(chunk_type) {
            self.require_key = false;
            let r = self.decode_packet_data(codec);
            self.sequence = Some(sequence_number);
            r
        } else {
            match self.sequence {
                Some(sequence) => {
                    if !self.require_key && sequence_number == sequence + 1 {
                        let r = self.decode_packet_data(codec);
                        self.sequence = Some(sequence_number);
                        r
                    } else {
                        DecodeAction::Skip
                    }
                },
                None => DecodeAction::Skip,
            }
        }
    }

    /// Starts or stops showing the stream: flips `video_start` and `on_video`;
    /// starting again waits for a key frame and reconfigures the decoder,
    /// stopping resets it.
    pub fn switch_video(&mut self) -> (r: SwitchAction)
        ensures
            final(self).video_start == !old(self).video_start,
            final(self).on_video == !old(self).on_video,
            final(self).check_key == (old(self).check_key || final(self).video_start),
            r == (if final(self).video_start { SwitchAction::Configure } else { SwitchAction::Reset }),
            *final(self) == (Video {
                video_start: final(self).video_start,
                on_video: final(self).on_video,
                check_key: final(self).check_key,
                ..*old(self)
            }),
    {
        self.video_start = !self.video_start;
        self.on_video = !self.on_video;
        if self.video_start {
            self.check_key = true;
            SwitchAction::Configure
        } else {
            SwitchAction::Reset
        }
    }
}

/// Whether a frame passes the wait for a first key frame.
pub open spec fn passes_key_wait(v: Video, chunk_type: Seq<char>) -> bool {
    !v.check_key || chunk_type == key_chunk_type()
}

/// A frame of the host's camera, on a client: nothing happens while the
/// stream is hidden or, before the first key frame, for other frames; once
/// past that wait, a configured decoder takes the frame in sequence, and a
/// closed one is replaced by a fresh stream.
pub fn receive_host_frame(video: &mut Video, sequence_number: u64, chunk_type: &str, codec: CodecState) -> (r: FrameAction)
    requires
        frame_in_range(*old(video), chunk_type@),
    ensures
        ({
            let v = *old(video);
            let passed = Video { check_key: false, ..v };
            if !v.on_video || !passes_key_wait(v, chunk_type@) {
                r == FrameAction::Ignore && *final(video) == v
            } else if codec == CodecState::Configured {
                r == FrameAction::Decode(frame_decision(passed, sequence_number, chunk_type@, codec))
                    && *final(video) == after_frame(passed, sequence_number, chunk_type@, codec)
            } else if codec == CodecState::Closed {
                r == FrameAction::RecreateDecoder && *final(video) == (Video {
                    on_video: true,
                    video_start: true,
                    check_key: true,
                    sequence: None,
                    require_key: false,
                    is_screen: false,
                    ..passed
                })
            } else {
                r == FrameAction::Ignore && *final(video) == passed
            }
        }),
{
    if !video.on_video {
        return FrameAction::Ignore;
    }
    if video.check_key {
        if !is_key_chunk(chunk_type) {
            return FrameAction::Ignore;
        }
        video.check_key = false;
    }
    match codec {
        CodecState::Configured => FrameAction::Decode(video.decode_break(sequence_number, chunk_type, codec)),
        CodecState::Closed => {
            let render_id = video.render_id.clone();
            *video = Video::new(render_id, video.element_kind, false);
            FrameAction::RecreateDecoder
        },
        _ => FrameAction::Ignore,
    }
}

/// A frame of the host's screen, on a client: before the first key frame
/// only a key frame passes; then a configured screen decoder takes the frame
/// in sequence, and a closed one has the camera decoder configured again and
/// the camera stream wait for a key frame.
pub fn receive_screen_frame(
    screen: &mut Video,
    camera: &mut Video,
    sequence_number: u64,
    chunk_type: &str,
    codec: CodecState,
) -> (r: FrameAction)
    requires
        frame_in_range(*old(screen), chunk_type@),
    ensures
        ({
            let s = *old(screen);
            let passed = Video { check_key: false, ..s };
            if !passes_key_wait(s, chunk_type@) {
                r == FrameAction::Ignore && *final(screen) == s && *final(camera) == *old(camera)
            } else if codec == CodecState::Configured {
                r == FrameAction::Decode(frame_decision(passed, sequence_number, chunk_type@, codec))
                    && *final(screen) == after_frame(passed, sequence_number, chunk_type@, codec)
                    && *final(camera) == *old(camera)
            } else if codec == CodecState::Closed {
                r == FrameAction::ReconfigureCamera && *final(screen) == passed
                    && *final(camera) == (Video { check_key: true, ..*old(camera) })
            } else {
                r == FrameAction::Ignore && *final(screen) == passed && *final(camera) == *old(camera)
            }
        }),
{
    if screen.check_key {
        if !is_key_chunk(chunk_type) {
            return FrameAction::Ignore;
        }
        screen.check_key = false;
    }
    match codec {
        CodecState::Configured => FrameAction::Decode(screen.decode_break(sequence_number, chunk_type, codec)),
        CodecState::Closed => {
            camera.check_key = true;
            FrameAction::ReconfigureCamera
        },
        _ => FrameAction::Ignore,
    }
}

/// Once the decoder was found closed, decoding waits for a key frame: any
/// other frame is skipped and changes nothing, and a key frame resumes
/// decoding from its own number.
pub proof fn lemma_key_frame_resumes(v: Video, sequence_number: u64, chunk_type: Seq<char>, codec: CodecState)
    requires
        v.require_key,
    ensures
        chunk_type != key_chunk_type() ==> frame_decision(v, sequence_number, chunk_type, codec)
            == DecodeAction::Skip && after_frame(v, sequence_number, chunk_type, codec) == v,
        chunk_type == key_chunk_type() ==> after_frame(v, sequence_number, chunk_type, codec).sequence
            == Some(sequence_number) && frame_decision(v, sequence_number, chunk_type, codec)
            == packet_decision(codec, v.is_screen),
{
}

/// In a run of frames from a configured decoder, a frame that is not a key
/// frame is decoded only when its number directly follows the last decoded
/// one, and then it becomes the last decoded one.
pub proof fn lemma_decode_in_order(v: Video, sequence_number: u64, chunk_type: Seq<char>)
    requires
        chunk_type != key_chunk_type(),
        frame_decision(v, sequence_number, chunk_type, CodecState::Configured) == DecodeAction::Decode,
    ensures
        v.sequence is Some,
        sequence_number == v.sequence->0 + 1,
        after_frame(v, sequence_number, chunk_type, CodecState::Configured).sequence == Some(sequence_number),
        !after_frame(v, sequence_number, chunk_type, CodecState::Configured).require_key,
{
}

/// Decoding a frame rebuilt from its raw data goes exactly as decoding the
/// frame itself: from equal streams, `decode_break_data` and `decode_break`
/// give the same decision and leave equal streams (the same last decoded
/// frame and the same need for a key frame); likewise `decode_packet_data`
/// and `decode_packet`.
pub proof fn lemma_data_decoding_agrees(
    v: Video,
    sequence_number: u64,
    chunk_type: Seq<char>,
    codec: CodecState,
    r_frame: DecodeAction,
    v_frame: Video,
    r_data: DecodeAction,
    v_data: Video,
)
    requires
        frame_in_range(v, chunk_type),
        r_frame == frame_decision(v, sequence_number, chunk_type, codec),
        v_frame == after_frame(v, sequence_number, chunk_type, codec),
        r_data == frame_decision(v, sequence_number, chunk_type, codec),
        v_data == after_frame(v, sequence_number, chunk_type, codec),
    ensures
        r_frame == r_data,
        v_frame == v_data,
        v_frame.sequence == v_data.sequence,
        v_frame.require_key == v_data.require_key,
{
}

/// A key frame is always taken, whatever frame was decoded last and whether
/// a key frame was awaited: with a configured decoder it is decoded, and it
/// becomes the last decoded frame with no key frame awaited; with a closed
/// decoder the decoder is rebuilt and a key frame is awaited again. Nothing
/// else about the stream changes. So a new capture, which numbers its frames
/// from zero again, is picked up at its first key frame.
pub proof fn lemma_key_frame_always_taken(v: Video, sequence_number: u64, codec: CodecState)
    ensures
        codec == CodecState::Configured ==> frame_decision(v, sequence_number, key_chunk_type(), codec)
            == DecodeAction::Decode,
        codec == CodecState::Closed ==> frame_decision(v, sequence_number, key_chunk_type(), codec)
            is RecreateDecoder,
        after_frame(v, sequence_number, key_chunk_type(), codec).sequence == Some(sequence_number),
        after_frame(v, sequence_number, key_chunk_type(), codec).require_key == (codec
            == CodecState::Closed),
        after_frame(v, sequence_number, key_chunk_type(), codec).on_video == v.on_video,
        after_frame(v, sequence_number, key_chunk_type(), codec).check_key == v.check_key,
        after_frame(v, sequence_number, key_chunk_type(), codec).render_id == v.render_id,
        after_frame(v, sequence_number, key_chunk_type(), codec).is_screen == v.is_screen,
{
}

/// After a key frame numbered `n` is decoded, the frame numbered `n + 1` is
/// decoded too and becomes the last one; a frame with any other number is
/// skipped and changes nothing.
pub proof fn lemma_successor_of_key_frame_decoded(v: Video, n: u64, m: u64, chunk_type: Seq<char>)
    requires
        n < u64::MAX,
        chunk_type != key_chunk_type(),
    ensures
        ({
            let after_key = after_frame(v, n, key_chunk_type(), CodecState::Configured);
            &&& m == n + 1 ==> frame_decision(after_key, m, chunk_type, CodecState::Configured)
                == DecodeAction::Decode && after_frame(after_key, m, chunk_type, CodecState::Configured).sequence
                == Some(m)
            &&& m != n + 1 ==> frame_decision(after_key, m, chunk_type, CodecState::Configured)
                == DecodeAction::Skip && after_frame(after_key, m, chunk_type, CodecState::Configured)
                == after_key
        }),
{
}

/// A frame that is not a key frame is decoded only when it directly follows
/// the last decoded frame and no key frame is awaited; otherwise it is
/// skipped and the stream is left as it was.
pub proof fn lemma_delta_frame_in_order_only(v: Video, n: u64, chunk_type: Seq<char>, codec: CodecState)
    requires
        chunk_type != key_chunk_type(),
    ensures
        (frame_decision(v, n, chunk_type, codec) != DecodeAction::Skip || after_frame(v, n, chunk_type, codec)
            != v) ==> v.sequence == Some((n - 1) as u64) && n >= 1 && !v.require_key,
        !(v.sequence == Some((n - 1) as u64) && n >= 1 && !v.require_key) ==> frame_decision(
            v,
            n,
            chunk_type,
            codec,
        ) == DecodeAction::Skip && after_frame(v, n, chunk_type, codec) == v,
{
}

/// Only a configured decoder decodes, and only a closed one is rebuilt: with
/// any other decoder state a frame is never decoded, whatever it is.
pub proof fn lemma_only_configured_decodes(v: Video, n: u64, chunk_type: Seq<char>, codec: CodecState)
    ensures
        frame_decision(v, n, chunk_type, codec) == DecodeAction::Decode ==> codec == CodecState::Configured,
        frame_decision(v, n, chunk_type, codec) is RecreateDecoder ==> codec == CodecState::Closed,
        frame_decision(v, n, chunk_type, codec) is RecreateDecoder ==> frame_decision(v, n, chunk_type, codec)
            == (DecodeAction::RecreateDecoder { remove_element: !v.is_screen }),
        after_frame(v, n, chunk_type, codec).require_key ==> (v.require_key || codec == CodecState::Closed),
        after_frame(v, n, chunk_type, codec).is_screen == v.is_screen,
        after_frame(v, n, chunk_type, codec).element_kind == v.element_kind,
{
}

} // verus!
