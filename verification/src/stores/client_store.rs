use vstd::prelude::*;

use crate::models::commons::{AreaKind, InitUser};
use crate::stores::client_props_store::ClientPropsMsg;
use crate::stores::effects::{Effect, PageElement};
use crate::stores::host_props_store::HostPropsMsg;
use crate::stores::media_store::ClientMediaMsg;
use crate::utils::inputs::{ClientNotice, HostNotice};

verus! {

/// A client's session: the id it joined, once it joined one.
pub struct ClientStore {
    session_id: Option<u128>,
}

impl View for ClientStore {
    type V = Option<u128>;

    closed spec fn view(&self) -> Option<u128> {
        self.session_id
    }
}

impl Default for ClientStore {
    /// No session yet.
    fn default() -> (r: Self)
        ensures
            r@ is None,
    {
        ClientStore { session_id: None }
    }
}

impl ClientStore {
    pub fn session_id(&self) -> (r: Option<u128>)
        ensures
            r == self@,
    {
        self.session_id
    }
}

/// What reaches a client from the host, and what it sends to the host.
#[derive(PartialEq, Debug)]
pub enum ClientMsg {
    /// Join the session.
    Init(u128),
    SendStateToHost,
    SendMessage(ClientNotice),
    HostToHost { message: String, area_kind: AreaKind },
    HostToClient { message: String, area_kind: AreaKind },
    InitHostAra(InitUser),
    HostIsScreenShare(bool),
    HostSwitchArea(AreaKind),
    OpenPaint,
    OnCummunication { message: bool },
}

/// Where a client passes each message on.
pub open spec fn client_route(msg: ClientMsg) -> Seq<Effect> {
    match msg {
        ClientMsg::Init(_) => seq![],
        ClientMsg::SendStateToHost => seq![Effect::ClientProps(ClientPropsMsg::SendStateToHost)],
        ClientMsg::SendMessage(message) => seq![Effect::SendToHost(message)],
        ClientMsg::HostToHost { message, area_kind } => seq![
            Effect::HostProps(HostPropsMsg::HostToHost { message, area_kind }),
        ],
        ClientMsg::HostToClient { message, area_kind } => seq![
            Effect::ClientProps(ClientPropsMsg::HostToClient { message, area_kind }),
        ],
        ClientMsg::InitHostAra(user) => seq![Effect::HostProps(HostPropsMsg::InitHost(user))],
        ClientMsg::HostIsScreenShare(is_share) => seq![
            Effect::OnVisible { visible: is_share, shown: PageElement::Container, hidden: PageElement::ScreenContainer },
            Effect::SwitchVisible { visible: !is_share, element: PageElement::VideoContainer },
        ],
        ClientMsg::HostSwitchArea(area_kind) => seq![Effect::HostProps(HostPropsMsg::HostSwitchArea(area_kind))],
        ClientMsg::OpenPaint => seq![Effect::HostProps(HostPropsMsg::OpenPaint)],
        ClientMsg::OnCummunication { message } => seq![
            Effect::ClientMedia(ClientMediaMsg::OnCummunication(message)),
        ],
    }
}

/// Whether a client can take the message: sending needs a joined session.
pub open spec fn client_accepts(session: Option<u128>, msg: ClientMsg) -> bool {
    msg is SendMessage ==> session is Some
}

impl ClientMsg {
    /// Whether a client can take this message.
    pub fn accepts(&self, store: &ClientStore) -> (r: bool)
        ensures
            r == client_accepts(store@, *self),
    {
        match self {
            ClientMsg::SendMessage(_) => store.session_id.is_some(),
            _ => true,
        }
    }

    /// Passes the message on to the stores, the network or the page.
    pub fn apply(self, store: &mut ClientStore) -> (r: Vec<Effect>)
        requires
            client_accepts(old(store)@, self),
        ensures
            r@ == client_route(self),
            final(store)@ == match self {
                ClientMsg::Init(id) => Some(id),
                _ => old(store)@,
            },
    {
        let mut effects: Vec<Effect> = Vec::new();
        match self {
            ClientMsg::Init(session_id) => {
                store.session_id = Some(session_id);
            },
            ClientMsg::SendStateToHost => {
                effects.push(Effect::ClientProps(ClientPropsMsg::SendStateToHost));
            },
            ClientMsg::SendMessage(message) => {
                effects.push(Effect::SendToHost(message));
            },
            ClientMsg::HostToHost { message, area_kind } => {
                effects.push(Effect::HostProps(HostPropsMsg::HostToHost { message, area_kind }));
            },
            ClientMsg::HostToClient { message, area_kind } => {
                effects.push(Effect::ClientProps(ClientPropsMsg::HostToClient { message, area_kind }));
            },
            ClientMsg::InitHostAra(user) => {
                effects.push(Effect::HostProps(HostPropsMsg::InitHost(user)));
            },
            ClientMsg::HostIsScreenShare(is_share) => {
                effects.push(
                    Effect::OnVisible {
                        visible: is_share,
                        shown: PageElement::Container,
                        hidden: PageElement::ScreenContainer,
                    },
                );
                effects.push(Effect::SwitchVisible { visible: !is_share, element: PageElement::VideoContainer });
            },
            ClientMsg::HostSwitchArea(area_kind) => {
                effects.push(Effect::HostProps(HostPropsMsg::HostSwitchArea(area_kind)));
            },
            ClientMsg::OpenPaint => {
                effects.push(Effect::HostProps(HostPropsMsg::OpenPaint));
            },
            ClientMsg::OnCummunication { message } => {
                effects.push(Effect::ClientMedia(ClientMediaMsg::OnCummunication(message)));
            },
        }
        assert(effects@ =~= client_route(self));
        effects
    }
}

/// What the host's notice asks of a client. A client leaves the host's own
/// camera switch and the closing of the drawing board alone.
pub open spec fn received_from_host(notice: HostNotice) -> Seq<Effect> {
    match notice {
        HostNotice::HostToHost { message, area_kind } => seq![
            Effect::Client(ClientMsg::HostToHost { message, area_kind }),
        ],
        HostNotice::HostToClient { message, area_kind } => seq![
            Effect::Client(ClientMsg::HostToClient { message, area_kind }),
        ],
        HostNotice::Init { message } => seq![Effect::Client(ClientMsg::InitHostAra(message))],
        HostNotice::HostIsScreenShare { message } => seq![
            Effect::OnVisible { visible: message, shown: PageElement::Container, hidden: PageElement::ScreenContainer },
        ],
        HostNotice::HostSwitchArea { message } => seq![Effect::Client(ClientMsg::HostSwitchArea(message))],
        HostNotice::OpenPaint => seq![Effect::Client(ClientMsg::OpenPaint)],
        HostNotice::OnCummunication { message } => seq![
            Effect::Client(ClientMsg::OnCummunication { message }),
        ],
        HostNotice::HostSWitchSelfVideo { .. } => seq![],
        HostNotice::ClosePaint => seq![],
    }
}

/// Turns the host's notice into what a client does with it.
pub fn client_receive(notice: HostNotice) -> (r: Vec<Effect>)
    ensures
        r@ == received_from_host(notice),
{
    let mut effects: Vec<Effect> = Vec::new();
    match notice {
        HostNotice::HostToHost { message, area_kind } => {
            effects.push(Effect::Client(ClientMsg::HostToHost { message, area_kind }));
        },
        HostNotice::HostToClient { message, area_kind } => {
            effects.push(Effect::Client(ClientMsg::HostToClient { message, area_kind }));
        },
        HostNotice::Init { message } => {
            effects.push(Effect::Client(ClientMsg::InitHostAra(message)));
        },
        HostNotice::HostIsScreenShare { message } => {
            effects.push(
                Effect::OnVisible {
                    visible: message,
                    shown: PageElement::Container,
                    hidden: PageElement::ScreenContainer,
                },
            );
        },
        HostNotice::HostSwitchArea { message } => {
            effects.push(Effect::Client(ClientMsg::HostSwitchArea(message)));
        },
        HostNotice::OpenPaint => {
            effects.push(Effect::Client(ClientMsg::OpenPaint));
        },
        HostNotice::OnCummunication { message } => {
            effects.push(Effect::Client(ClientMsg::OnCummunication { message }));
        },
        HostNotice::HostSWitchSelfVideo { .. } => {},
        HostNotice::ClosePaint => {},
    }
    assert(effects@ =~= received_from_host(notice));
    effects
}

/// Every notice from the host is handed to the client's own routing exactly
/// once and unchanged, except the host's screen-share state (shown on the
/// page at once) and the host's own camera switch and board closing (left
/// alone), which reach no store.
pub proof fn lemma_host_notice_dispatched_once(notice: HostNotice)
    ensures
        match notice {
            HostNotice::HostToHost { message, area_kind } => received_from_host(notice) == seq![
                Effect::Client(ClientMsg::HostToHost { message, area_kind }),
            ],
            HostNotice::HostToClient { message, area_kind } => received_from_host(notice) == seq![
                Effect::Client(ClientMsg::HostToClient { message, area_kind }),
            ],
            HostNotice::Init { message } => received_from_host(notice) == seq![
                Effect::Client(ClientMsg::InitHostAra(message)),
            ],
            HostNotice::HostSwitchArea { message } => received_from_host(notice) == seq![
                Effect::Client(ClientMsg::HostSwitchArea(message)),
            ],
            HostNotice::OpenPaint => received_from_host(notice) == seq![Effect::Client(ClientMsg::OpenPaint)],
            HostNotice::OnCummunication { message } => received_from_host(notice) == seq![
                Effect::Client(ClientMsg::OnCummunication { message }),
            ],
            _ => forall|i: int| 0 <= i < received_from_host(notice).len() ==> !(#[trigger] received_from_host(notice)[i] is Client),
        },
{
}

} // verus!
