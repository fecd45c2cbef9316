use vstd::prelude::*;

use crate::encoders::camera_encoder::CameraEncoder;
use crate::encoders::encoder_state::EncoderState;
use crate::encoders::microphone_encoder::MicrophoneEncoder;
use crate::stores::effects::{Effect, PageElement};
use crate::utils::inputs::{ClientNotice, HostNotice};

verus! {

/// The participant's own capture devices, whether participants see each
/// other, and whether the host shares its screen.
pub struct MediaStore {
    camera: CameraEncoder,
    microphone: MicrophoneEncoder,
    is_communication: bool,
    is_screen: bool,
}

/// What the media store holds.
pub struct MediaView {
    pub camera: EncoderState,
    pub microphone: EncoderState,
    pub is_communication: bool,
    pub is_screen: bool,
}

impl View for MediaStore {
    type V = MediaView;

    closed spec fn view(&self) -> MediaView {
        MediaView {
            camera: self.camera.state,
            microphone: self.microphone.state,
            is_communication: self.is_communication,
            is_screen: self.is_screen,
        }
    }
}

/// A fresh capture state.
pub open spec fn fresh_encoder(s: EncoderState) -> bool {
    !s.destroy && !s.enabled && !s.switching && s.selected is None && s.first
}

impl Default for MediaStore {
    /// Fresh camera and microphone, participants seeing each other, no screen shared.
    fn default() -> (r: Self)
        ensures
            fresh_encoder(r@.camera),
            fresh_encoder(r@.microphone),
            r@.is_communication,
            !r@.is_screen,
    {
        Self {
            camera: CameraEncoder::new(),
            microphone: MicrophoneEncoder::new(),
            is_communication: true,
            is_screen: false,
        }
    }
}

impl MediaStore {
    pub fn get_camera(&self) -> (r: &CameraEncoder)
        ensures
            r.state == self@.camera,
    {
        &self.camera
    }

    pub fn get_mut_camera(&mut self) -> (r: &mut CameraEncoder)
        ensures
            r.state == old(self)@.camera,
            final(self)@ == (MediaView { camera: final(r).state, ..old(self)@ }),
    {
        &mut self.camera
    }

    pub fn get_microphone(&self) -> (r: &MicrophoneEncoder)
        ensures
            r.state == self@.microphone,
    {
        &self.microphone
    }

    pub fn get_mut_microphone(&mut self) -> (r: &mut MicrophoneEncoder)
        ensures
            r.state == old(self)@.microphone,
            final(self)@ == (MediaView { microphone: final(r).state, ..old(self)@ }),
    {
        &mut self.microphone
    }

    pub fn set_communication(&mut self, is_communication: bool)
        ensures
            final(self)@ == (MediaView { is_communication, ..old(self)@ }),
    {
        self.is_communication = is_communication;
    }

    pub fn is_communication(&self) -> (r: bool)
        ensures
            r == self@.is_communication,
    {
        self.is_communication
    }

    pub fn is_screen(&self) -> (r: bool)
        ensures
            r == self@.is_screen,
    {
        self.is_screen
    }
}

/// Where a client's own captured chunk is sent.
#[derive(PartialEq, Eq, Structural, Clone, Copy, Debug)]
pub enum MediaTarget {
    /// To the host.
    Host,
    /// To the other clients.
    Peers,
}

impl MediaStore {
    /// Where a client's own camera or microphone chunk goes, in order: to the
    /// host, then to the other clients while participants see each other.
    pub fn own_media_targets(&self) -> (r: Vec<MediaTarget>)
        ensures
            r@ == if self@.is_communication {
                seq![MediaTarget::Host, MediaTarget::Peers]
            } else {
                seq![MediaTarget::Host]
            },
    {
        let mut r = Vec::new();
        r.push(MediaTarget::Host);
        if self.is_communication {
            r.push(MediaTarget::Peers);
        }
        r
    }
}

/// The host's own device and sharing actions.
#[derive(PartialEq, Debug)]
pub enum HostMediaMsg {
    AudioDeviceInit(String),
    AudioDeviceChanged(String),
    EnableMicrophone(bool),
    SwitchMic(bool),
    VideoDeviceInit(String),
    VideoDeviceChanged(String),
    EnableVideo(bool),
    SwitchVedeo(bool),
    OnCummunication(bool),
    EnableScreenShare(bool),
    /// The host stopped sharing its screen from the browser.
    ScreenShareEnded,
    SendIsScreenState(u64),
    ResumeVideo,
}

/// A client's own device actions.
#[derive(PartialEq, Debug)]
pub enum ClientMediaMsg {
    AudioDeviceInit(String),
    AudioDeviceChanged(String),
    EnableMicrophone(bool),
    SwitchMic(bool),
    VideoDeviceInit(String),
    VideoDeviceChanged(String),
    EnableVideo(bool),
    SwitchVedeo(bool),
    OnCummunication(bool),
    SetCommunication(bool),
}

/// The capture state after selecting `device`.
pub open spec fn selected(s: EncoderState, device: String) -> EncoderState {
    EncoderState { selected: Some(device), switching: true, ..s }
}

/// The capture state after selecting `device` as a change of device.
pub open spec fn changed_to(s: EncoderState, device: String) -> EncoderState {
    EncoderState { first: false, ..selected(s, device) }
}

/// The effect list `e`, followed by `last` when `cond` holds.
pub open spec fn then_if(e: Seq<Effect>, cond: bool, last: Effect) -> Seq<Effect> {
    if cond { e.push(last) } else { e }
}

/// The host's media store and effects after `msg`.
pub open spec fn host_media_step(pre: MediaView, msg: HostMediaMsg) -> (MediaView, Seq<Effect>) {
    match msg {
        HostMediaMsg::AudioDeviceInit(d) => (MediaView { microphone: selected(pre.microphone, d), ..pre }, seq![]),
        HostMediaMsg::AudioDeviceChanged(d) => (
            MediaView { microphone: changed_to(pre.microphone, d), ..pre },
            seq![Effect::Later(Box::new(Effect::HostMedia(HostMediaMsg::EnableMicrophone(true))))],
        ),
        HostMediaMsg::EnableMicrophone(b) => (pre, then_if(seq![], b, Effect::StartHostMicrophone)),
        HostMediaMsg::SwitchMic(on) => (
            MediaView { microphone: EncoderState { enabled: on, ..pre.microphone }, ..pre },
            then_if(seq![], on, Effect::Later(Box::new(Effect::HostMedia(HostMediaMsg::EnableMicrophone(true))))),
        ),
        HostMediaMsg::VideoDeviceInit(v) => (
            MediaView { camera: selected(pre.camera, v), ..pre },
            seq![Effect::Later(Box::new(Effect::InitCamera))],
        ),
        HostMediaMsg::VideoDeviceChanged(v) => (
            MediaView { camera: changed_to(pre.camera, v), ..pre },
            seq![Effect::Later(Box::new(Effect::HostMedia(HostMediaMsg::EnableVideo(true))))],
        ),
        HostMediaMsg::EnableVideo(b) => (pre, then_if(seq![], b, Effect::StartHostCamera)),
        HostMediaMsg::SwitchVedeo(on) => (
            MediaView { camera: EncoderState { enabled: on, ..pre.camera }, ..pre },
            then_if(
                seq![
                    Effect::OnVisible { visible: !on, shown: PageElement::VideoElement, hidden: PageElement::VideoLogo },
                    Effect::SendToAll(HostNotice::HostSWitchSelfVideo { message: on }),
                ],
                on,
                Effect::Later(Box::new(Effect::HostMedia(HostMediaMsg::EnableVideo(true)))),
            ),
        ),
        HostMediaMsg::OnCummunication(b) => (
            MediaView { is_communication: b, ..pre },
            seq![Effect::SwitchVisible { visible: b, element: PageElement::VideoBox }],
        ),
        HostMediaMsg::EnableScreenShare(b) => if b {
            (
                MediaView { is_screen: true, ..pre },
                seq![
                    Effect::HostMedia(HostMediaMsg::SwitchVedeo(false)),
                    Effect::SendToAll(HostNotice::HostIsScreenShare { message: true }),
                    Effect::StartScreenShare,
                ],
            )
        } else {
            (pre, seq![])
        },
        HostMediaMsg::ScreenShareEnded => (
            MediaView { is_screen: false, ..pre },
            seq![
                Effect::HostMedia(HostMediaMsg::SwitchVedeo(true)),
                Effect::SendToAll(HostNotice::HostIsScreenShare { message: false }),
                Effect::HostMedia(HostMediaMsg::EnableScreenShare(false)),
            ],
        ),
        HostMediaMsg::SendIsScreenState(user_id) => (
            pre,
            seq![Effect::SendToUser(user_id, HostNotice::HostIsScreenShare { message: pre.is_screen })],
        ),
        HostMediaMsg::ResumeVideo => (pre, seq![Effect::HostMedia(HostMediaMsg::EnableVideo(true))]),
    }
}

/// A client's media store and effects after `msg`.
pub open spec fn client_media_step(pre: MediaView, msg: ClientMediaMsg) -> (MediaView, Seq<Effect>) {
    match msg {
        ClientMediaMsg::AudioDeviceInit(d) => (MediaView { microphone: selected(pre.microphone, d), ..pre }, seq![]),
        ClientMediaMsg::AudioDeviceChanged(d) => (
            MediaView { microphone: changed_to(pre.microphone, d), ..pre },
            seq![Effect::Later(Box::new(Effect::ClientMedia(ClientMediaMsg::EnableMicrophone(true))))],
        ),
        ClientMediaMsg::EnableMicrophone(b) => (pre, then_if(seq![], b, Effect::StartClientMicrophone)),
        ClientMediaMsg::SwitchMic(on) => (
            MediaView { microphone: EncoderState { enabled: on, ..pre.microphone }, ..pre },
            then_if(seq![], on, Effect::Later(Box::new(Effect::ClientMedia(ClientMediaMsg::EnableMicrophone(true))))),
        ),
        ClientMediaMsg::VideoDeviceInit(v) => (
            MediaView { camera: selected(pre.camera, v), ..pre },
            seq![Effect::Later(Box::new(Effect::InitCamera))],
        ),
        ClientMediaMsg::VideoDeviceChanged(v) => (
            MediaView { camera: changed_to(pre.camera, v), ..pre },
            seq![Effect::Later(Box::new(Effect::ClientMedia(ClientMediaMsg::EnableVideo(true))))],
        ),
        ClientMediaMsg::EnableVideo(b) => (pre, then_if(seq![], b, Effect::StartClientCamera)),
        ClientMediaMsg::SwitchVedeo(on) => (
            MediaView { camera: EncoderState { enabled: on, ..pre.camera }, ..pre },
            then_if(
                seq![
                    Effect::OnVisible { visible: !on, shown: PageElement::VideoElement, hidden: PageElement::VideoLogo },
                    Effect::SendToHost(ClientNotice::ClientSwitchVideo { message: !on }),
                ],
                on,
                Effect::Later(Box::new(Effect::ClientMedia(ClientMediaMsg::EnableVideo(true)))),
            ),
        ),
        ClientMediaMsg::OnCummunication(b) => (
            MediaView { is_communication: b, ..pre },
            seq![Effect::SwitchVisible { visible: b, element: PageElement::VideoBox }],
        ),
        ClientMediaMsg::SetCommunication(b) => (MediaView { is_communication: b, ..pre }, seq![]),
    }
}

/// The delayed start of a capture.
fn later(e: Effect) -> (r: Effect)
    ensures
        r == Effect::Later(Box::new(e)),
{
    Effect::Later(Box::new(e))
}

impl HostMediaMsg {
    /// Applies one of the host's device or sharing actions.
    #[verifier::spinoff_prover]
    #[verifier::rlimit(40)]
    pub fn apply(self, store: &mut MediaStore) -> (r: Vec<Effect>)
        ensures
            (final(store)@, r@) == host_media_step(old(store)@, self),
    {
        let mut effects: Vec<Effect> = Vec::new();
        match self {
            HostMediaMsg::AudioDeviceInit(audio) => {
                let _ = store.microphone.select(audio);
            },
            HostMediaMsg::AudioDeviceChanged(audio) => {
                if store.microphone.select(audio) || store.microphone.is_first() {
                    store.microphone.set_first(false);
                    effects.push(later(Effect::HostMedia(HostMediaMsg::EnableMicrophone(true))));
                }
            },
            HostMediaMsg::EnableMicrophone(should_enable) => {
                if should_enable {
                    effects.push(Effect::StartHostMicrophone);
                }
            },
            HostMediaMsg::SwitchMic(on_mic) => {
                store.microphone.set_enabled(on_mic);
                if on_mic {
                    effects.push(later(Effect::HostMedia(HostMediaMsg::EnableMicrophone(true))));
                }
            },
            HostMediaMsg::VideoDeviceInit(video) => {
                if store.camera.select(video) {
                    effects.push(later(Effect::InitCamera));
                }
            },
            HostMediaMsg::VideoDeviceChanged(video) => {
                if store.camera.select(video) || store.camera.is_first() {
                    store.camera.set_first(false);
                    effects.push(later(Effect::HostMedia(HostMediaMsg::EnableVideo(true))));
                }
            },
            HostMediaMsg::EnableVideo(should_enable) => {
                if should_enable {
                    effects.push(Effect::StartHostCamera);
                }
            },
            HostMediaMsg::SwitchVedeo(on_video) => {
                store.camera.set_enabled(on_video);
                let is_video = !store.camera.get_enabled();
                effects.push(
                    Effect::OnVisible {
                        visible: is_video,
                        shown: PageElement::VideoElement,
                        hidden: PageElement::VideoLogo,
                    },
                );
                effects.push(Effect::SendToAll(HostNotice::HostSWitchSelfVideo { message: on_video }));
                if store.camera.get_enabled() {
                    effects.push(later(Effect::HostMedia(HostMediaMsg::EnableVideo(true))));
                }
            },
            HostMediaMsg::OnCummunication(message) => {
                effects.push(Effect::SwitchVisible { visible: message, element: PageElement::VideoBox });
                store.set_communication(message);
            },
            HostMediaMsg::EnableScreenShare(should_enable) => {
                if should_enable {
                    effects.push(Effect::HostMedia(HostMediaMsg::SwitchVedeo(false)));
                    store.is_screen = true;
                    effects.push(Effect::SendToAll(HostNotice::HostIsScreenShare { message: true }));
                    effects.push(Effect::StartScreenShare);
                }
            },
            HostMediaMsg::ScreenShareEnded => {
                effects.push(Effect::HostMedia(HostMediaMsg::SwitchVedeo(true)));
                store.is_screen = false;
                effects.push(Effect::SendToAll(HostNotice::HostIsScreenShare { message: false }));
                effects.push(Effect::HostMedia(HostMediaMsg::EnableScreenShare(false)));
            },
            HostMediaMsg::SendIsScreenState(user_id) => {
                effects.push(
                    Effect::SendToUser(user_id, HostNotice::HostIsScreenShare { message: store.is_screen }),
                );
            },
            HostMediaMsg::ResumeVideo => {
                effects.push(Effect::HostMedia(HostMediaMsg::EnableVideo(true)));
            },
        }
        proof {
            let (m, e) = host_media_step(old(store)@, self);
            assert(effects@ =~= e);
            assert(store@ == m);
        }
        effects
    }
}

impl ClientMediaMsg {
    /// Applies one of a client's device actions.
    #[verifier::spinoff_prover]
    #[verifier::rlimit(40)]
    pub fn apply(self, store: &mut MediaStore) -> (r: Vec<Effect>)
        ensures
            (final(store)@, r@) == client_media_step(old(store)@, self),
    {
        let mut effects: Vec<Effect> = Vec::new();
        match self {
            ClientMediaMsg::AudioDeviceInit(audio) => {
                let _ = store.microphone.select(audio);
            },
            ClientMediaMsg::AudioDeviceChanged(audio) => {
                if store.microphone.select(audio) || store.microphone.is_first() {
                    store.microphone.set_first(false);
                    effects.push(later(Effect::ClientMedia(ClientMediaMsg::EnableMicrophone(true))));
                }
            },
            ClientMediaMsg::EnableMicrophone(should_enable) => {
                if should_enable {
                    effects.push(Effect::StartClientMicrophone);
                }
            },
            ClientMediaMsg::SwitchMic(on_mic) => {
                store.microphone.set_enabled(on_mic);
                if on_mic {
                    effects.push(later(Effect::ClientMedia(ClientMediaMsg::EnableMicrophone(true))));
                }
            },
            ClientMediaMsg::VideoDeviceInit(video) => {
                if store.camera.select(video) {
                    effects.push(later(Effect::InitCamera));
                }
            },
            ClientMediaMsg::VideoDeviceChanged(video) => {
                if store.camera.select(video) || store.camera.is_first() {
                    store.camera.set_first(false);
                    effects.push(later(Effect::ClientMedia(ClientMediaMsg::EnableVideo(true))));
                }
            },
            ClientMediaMsg::EnableVideo(should_enable) => {
                if should_enable {
                    effects.push(Effect::StartClientCamera);
                }
            },
            ClientMediaMsg::SwitchVedeo(on_video) => {
                store.camera.set_enabled(on_video);
                let is_video = !store.camera.get_enabled();
                effects.push(
                    Effect::OnVisible {
                        visible: is_video,
                        shown: PageElement::VideoElement,
                        hidden: PageElement::VideoLogo,
                    },
                );
                effects.push(Effect::SendToHost(ClientNotice::ClientSwitchVideo { message: is_video }));
                if store.camera.get_enabled() {
                    effects.push(later(Effect::ClientMedia(ClientMediaMsg::EnableVideo(true))));
                }
            },
            ClientMediaMsg::OnCummunication(message) => {
                effects.push(Effect::SwitchVisible { visible: message, element: PageElement::VideoBox });
                store.set_communication(message);
            },
            ClientMediaMsg::SetCommunication(message) => {
                store.set_communication(message);
            },
        }
        proof {
            let (m, e) = client_media_step(old(store)@, self);
            assert(effects@ =~= e);
            assert(store@ == m);
        }
        effects
    }
}

/// A joining client is told whether the host shares its screen, truthfully:
/// one message, to that client, with the store's screen flag, and the store
/// unchanged. On a fresh store that is "no"; after the host starts sharing
/// it is "yes"; after sharing ends it is "no" again.
pub proof fn lemma_joining_client_told_screen_state(pre: MediaView, user_id: u64)
    ensures
        host_media_step(pre, HostMediaMsg::SendIsScreenState(user_id)).0 == pre,
        host_media_step(pre, HostMediaMsg::SendIsScreenState(user_id)).1.len() == 1,
        host_media_step(pre, HostMediaMsg::SendIsScreenState(user_id)).1[0] matches Effect::SendToUser(
            u,
            HostNotice::HostIsScreenShare { message },
        ) && u == user_id && message == pre.is_screen,
        !pre.is_screen ==> host_media_step(pre, HostMediaMsg::SendIsScreenState(user_id)).1[0]
            == Effect::SendToUser(user_id, HostNotice::HostIsScreenShare { message: false }),
        ({
            let shared = host_media_step(pre, HostMediaMsg::EnableScreenShare(true)).0;
            host_media_step(shared, HostMediaMsg::SendIsScreenState(user_id)).1[0] == Effect::SendToUser(
                user_id,
                HostNotice::HostIsScreenShare { message: true },
            )
        }),
        ({
            let ended = host_media_step(pre, HostMediaMsg::ScreenShareEnded).0;
            host_media_step(ended, HostMediaMsg::SendIsScreenState(user_id)).1[0] == Effect::SendToUser(
                user_id,
                HostNotice::HostIsScreenShare { message: false },
            )
        }),
{
}

/// A fresh media store tells a joining client that no screen is shared.
pub proof fn lemma_fresh_store_shares_no_screen(pre: MediaView, user_id: u64)
    requires
        fresh_encoder(pre.camera),
        fresh_encoder(pre.microphone),
        pre.is_communication,
        !pre.is_screen,
    ensures
        host_media_step(pre, HostMediaMsg::SendIsScreenState(user_id)).1 == seq![
            Effect::SendToUser(user_id, HostNotice::HostIsScreenShare { message: false }),
        ],
{
}

/// Switching the own camera on (a client's or the host's) enables it and
/// always ends by asking, after the settle delay, for the capture to start;
/// switching it off disables it and asks for no capture at all.
pub proof fn lemma_camera_switch_restarts_capture(pre: MediaView, on: bool)
    ensures
        client_media_step(pre, ClientMediaMsg::SwitchVedeo(on)).0.camera.enabled == on,
        host_media_step(pre, HostMediaMsg::SwitchVedeo(on)).0.camera.enabled == on,
        on ==> client_media_step(pre, ClientMediaMsg::SwitchVedeo(on)).1.last() == Effect::Later(
            Box::new(Effect::ClientMedia(ClientMediaMsg::EnableVideo(true))),
        ),
        on ==> host_media_step(pre, HostMediaMsg::SwitchVedeo(on)).1.last() == Effect::Later(
            Box::new(Effect::HostMedia(HostMediaMsg::EnableVideo(true))),
        ),
        !on ==> forall|i: int|
            0 <= i < client_media_step(pre, ClientMediaMsg::SwitchVedeo(on)).1.len() ==> !(
            #[trigger] client_media_step(pre, ClientMediaMsg::SwitchVedeo(on)).1[i] is Later),
        !on ==> forall|i: int|
            0 <= i < host_media_step(pre, HostMediaMsg::SwitchVedeo(on)).1.len() ==> !(
            #[trigger] host_media_step(pre, HostMediaMsg::SwitchVedeo(on)).1[i] is Later),
        client_media_step(pre, ClientMediaMsg::EnableVideo(true)).1 == seq![Effect::StartClientCamera],
        host_media_step(pre, HostMediaMsg::EnableVideo(true)).1 == seq![Effect::StartHostCamera],
{
}

/// What the host's and a client's own switches do to the media store and
/// what they ask for: the microphone switch sets the microphone's flag and
/// restarts capture after the settle delay exactly when switched on; the
/// communication switch sets the flag and shows or hides the others' videos
/// accordingly; a new device is selected and marks a switch for the running
/// capture; screen sharing sets the host's screen flag and announces it.
pub proof fn lemma_media_switches(pre: MediaView, on: bool, device: String)
    ensures
        host_media_step(pre, HostMediaMsg::SwitchMic(on)).0.microphone.enabled == on,
        client_media_step(pre, ClientMediaMsg::SwitchMic(on)).0.microphone.enabled == on,
        host_media_step(pre, HostMediaMsg::SwitchMic(on)).1.len() == (if on { 1int } else { 0 }),
        client_media_step(pre, ClientMediaMsg::SwitchMic(on)).1.len() == (if on { 1int } else { 0 }),
        on ==> host_media_step(pre, HostMediaMsg::SwitchMic(on)).1[0] == Effect::Later(
            Box::new(Effect::HostMedia(HostMediaMsg::EnableMicrophone(true))),
        ),
        on ==> client_media_step(pre, ClientMediaMsg::SwitchMic(on)).1[0] == Effect::Later(
            Box::new(Effect::ClientMedia(ClientMediaMsg::EnableMicrophone(true))),
        ),
        host_media_step(pre, HostMediaMsg::OnCummunication(on)).0.is_communication == on,
        client_media_step(pre, ClientMediaMsg::OnCummunication(on)).0.is_communication == on,
        client_media_step(pre, ClientMediaMsg::SetCommunication(on)).0.is_communication == on,
        host_media_step(pre, HostMediaMsg::OnCummunication(on)).1 == seq![
            Effect::SwitchVisible { visible: on, element: PageElement::VideoBox },
        ],
        client_media_step(pre, ClientMediaMsg::OnCummunication(on)).1 == seq![
            Effect::SwitchVisible { visible: on, element: PageElement::VideoBox },
        ],
        host_media_step(pre, HostMediaMsg::VideoDeviceChanged(device)).0.camera.selected == Some(device),
        host_media_step(pre, HostMediaMsg::VideoDeviceChanged(device)).0.camera.switching,
        client_media_step(pre, ClientMediaMsg::AudioDeviceChanged(device)).0.microphone.selected == Some(
            device,
        ),
        client_media_step(pre, ClientMediaMsg::AudioDeviceChanged(device)).0.microphone.switching,
        host_media_step(pre, HostMediaMsg::EnableScreenShare(true)).0.is_screen,
        host_media_step(pre, HostMediaMsg::EnableScreenShare(true)).1.contains(
            Effect::SendToAll(HostNotice::HostIsScreenShare { message: true }),
        ),
        !host_media_step(pre, HostMediaMsg::ScreenShareEnded).0.is_screen,
        host_media_step(pre, HostMediaMsg::ScreenShareEnded).1.contains(
            Effect::SendToAll(HostNotice::HostIsScreenShare { message: false }),
        ),
        host_media_step(pre, HostMediaMsg::EnableMicrophone(on)).1 == (if on {
            seq![Effect::StartHostMicrophone]
        } else {
            seq![]
        }),
        client_media_step(pre, ClientMediaMsg::EnableMicrophone(on)).1 == (if on {
            seq![Effect::StartClientMicrophone]
        } else {
            seq![]
        }),
{
    assert(host_media_step(pre, HostMediaMsg::EnableScreenShare(true)).1[1] == Effect::SendToAll(
        HostNotice::HostIsScreenShare { message: true },
    ));
    assert(host_media_step(pre, HostMediaMsg::ScreenShareEnded).1[1] == Effect::SendToAll(
        HostNotice::HostIsScreenShare { message: false },
    ));
}

} // verus!
