use vstd::prelude::*;

use crate::stores::client_items_store::ClientItemMsg;
use crate::stores::client_props_store::{ClientPropsMsg, HostClientMsg};
use crate::stores::client_store::ClientMsg;
use crate::stores::host_props_store::{HostHostMsg, HostPropsMsg};
use crate::stores::media_store::{ClientMediaMsg, HostMediaMsg};
use crate::utils::inputs::{ClientNotice, HostNotice};

verus! {

/// The page elements whose visibility the stores change.
#[derive(PartialEq, Eq, Structural, Clone, Copy, Debug)]
pub enum PageElement {
    /// The participant's own camera view.
    VideoElement,
    /// The placeholder shown instead of the own camera view.
    VideoLogo,
    /// The box of the other participants' videos.
    VideoBox,
    /// The client's main container.
    Container,
    /// The container of the host's shared screen.
    ScreenContainer,
    /// The client's own video container.
    VideoContainer,
}

/// What a store asks to happen after it changed: messages to other stores,
/// messages over the network, page changes and media actions. They are to be
/// carried out in order.
#[derive(PartialEq, Debug)]
pub enum Effect {
    ClientItems(ClientItemMsg),
    ClientProps(ClientPropsMsg),
    HostClient(HostClientMsg),
    HostHost(HostHostMsg),
    HostProps(HostPropsMsg),
    HostMedia(HostMediaMsg),
    ClientMedia(ClientMediaMsg),
    Client(ClientMsg),
    /// Send to every client.
    SendToAll(HostNotice),
    /// Send to one client.
    SendToUser(u64, HostNotice),
    /// Send to the host.
    SendToHost(ClientNotice),
    /// Remove a client's box from the host's page.
    RemoveClientBox(u64),
    /// Remove the drawing board from the page.
    RemoveDrawCanvas,
    /// Show `shown` and hide `hidden` when `visible`, the other way round otherwise.
    OnVisible { visible: bool, shown: PageElement, hidden: PageElement },
    /// Show or hide one element.
    SwitchVisible { visible: bool, element: PageElement },
    /// Show a client's video or, when `visible` is false, its placeholder.
    ShowClientVideo { user_id: u64, visible: bool },
    /// Open the drawing board over the given text, kept under `key`.
    OpenPaintCanvas { key: i8, content: String },
    /// Attach the selected camera to the own video element.
    InitCamera,
    /// Start capturing and sending the host's microphone.
    StartHostMicrophone,
    /// Start capturing and sending the host's camera.
    StartHostCamera,
    /// Start capturing and sending the host's screen.
    StartScreenShare,
    /// Start capturing and sending a client's microphone.
    StartClientMicrophone,
    /// Start capturing and sending a client's camera.
    StartClientCamera,
    /// Carry out the effect after the device settle delay.
    Later(Box<Effect>),
}

/// How long a newly selected device is given before capture starts, in milliseconds.
pub const DEVICE_SETTLE_MS: u32 = 1000;

/// The effects still to be carried out, the next one first. What an effect
/// asks for is carried out before the effects that followed it, as a message
/// handed from one store to another is applied at once.
pub struct Agenda {
    /// The effects in reverse order: the last one is the next.
    stack: Vec<Effect>,
}

impl View for Agenda {
    type V = Seq<Effect>;

    closed spec fn view(&self) -> Seq<Effect> {
        self.stack@.reverse()
    }
}

impl Agenda {
    /// The effects, to be carried out in order.
    pub fn new(effects: Vec<Effect>) -> (r: Self)
        ensures
            r@ == effects@,
    {
        let mut r = Agenda { stack: Vec::new() };
        assert(r@ =~= Seq::<Effect>::empty());
        r.prepend(effects);
        assert(effects@ + Seq::<Effect>::empty() =~= effects@);
        r
    }

    /// Puts `effects`, in order, before the effects still to be carried out.
    pub fn prepend(&mut self, effects: Vec<Effect>)
        ensures
            final(self)@ == effects@ + old(self)@,
    {
        let ghost all = effects@;
        let ghost rest = self@;
        let mut effects = effects;
        while effects.len() > 0
            invariant
                effects@ == all.subrange(0, effects.len() as int),
                self@ == all.subrange(effects.len() as int, all.len() as int) + rest,
                effects.len() <= all.len(),
            decreases effects.len(),
        {
            let ghost before = self.stack@;
            let ghost n = effects.len();
            let e = effects.pop().unwrap();
            self.stack.push(e);
            proof {
                assert(e == all[n - 1]);
                assert(self.stack@.reverse() =~= seq![e] + before.reverse());
                assert(all.subrange(n - 1, all.len() as int) =~= seq![e] + all.subrange(
                    n as int,
                    all.len() as int,
                ));
                assert(effects@ =~= all.subrange(0, effects.len() as int));
            }
        }
        assert(all.subrange(0, all.len() as int) =~= all);
    }

    /// Takes the next effect, if any is left.
    pub fn next(&mut self) -> (r: Option<Effect>)
        ensures
            old(self)@.len() == 0 ==> r is None && final(self)@ == old(self)@,
            old(self)@.len() > 0 ==> r == Some(old(self)@[0]) && final(self)@ == old(self)@.drop_first(),
    {
        let ghost before = self.stack@;
        let r = self.stack.pop();
        proof {
            if before.len() > 0 {
                assert(self.stack@ =~= before.drop_last());
                assert(self.stack@.reverse() =~= before.reverse().drop_first());
            }
        }
        r
    }
}

} // verus!
