use vstd::prelude::*;

use crate::models::commons::{AreaKind, InitUser};
use crate::stores::client_items_store::ClientItemMsg;
use crate::stores::client_props_store::HostClientMsg;
use crate::stores::effects::Effect;
use crate::stores::host_props_store::HostHostMsg;
use crate::stores::media_store::HostMediaMsg;
use crate::utils::inputs::{ClientNotice, HostNotice};

verus! {

/// The host's session: the id it serves, once it started serving one.
pub struct HostStore {
    session_id: Option<u128>,
}

impl View for HostStore {
    type V = Option<u128>;

    closed spec fn view(&self) -> Option<u128> {
        self.session_id
    }
}

impl Default for HostStore {
    /// No session yet.
    fn default() -> (r: Self)
        ensures
            r@ is None,
    {
        HostStore { session_id: None }
    }
}

impl HostStore {
    pub fn session_id(&self) -> (r: Option<u128>)
        ensures
            r == self@,
    {
        self.session_id
    }
}

/// What reaches the host from its network connections, and what it sends.
#[derive(PartialEq, Debug)]
pub enum Msg {
    /// Start serving the session.
    Init(u128),
    SendMessage(HostNotice),
    SendMessageToUser(u64, HostNotice),
    AddClient(u64),
    DisconnectClient(u64),
    InitClient(u64, InitUser),
    ClientSwitchVideo(u64, bool),
    ClientToClient(u64, String, AreaKind),
    ClientSwitchArea(u64, AreaKind),
}

/// Where the host passes each message on.
pub open spec fn host_route(msg: Msg) -> Seq<Effect> {
    match msg {
        Msg::Init(_) => seq![],
        Msg::SendMessage(message) => seq![Effect::SendToAll(message)],
        Msg::SendMessageToUser(user_id, message) => seq![Effect::SendToUser(user_id, message)],
        Msg::AddClient(user_id) => seq![
            Effect::HostHost(HostHostMsg::AddClient(user_id)),
            Effect::ClientItems(ClientItemMsg::AddClient(user_id)),
            Effect::HostMedia(HostMediaMsg::SendIsScreenState(user_id)),
        ],
        Msg::InitClient(user_id, init_user) => seq![
            Effect::ClientItems(ClientItemMsg::InitClient(user_id, init_user)),
        ],
        Msg::DisconnectClient(user_id) => seq![Effect::ClientItems(ClientItemMsg::DisconnectClient(user_id))],
        Msg::ClientSwitchVideo(user_id, visible) => seq![Effect::ShowClientVideo { user_id, visible }],
        Msg::ClientToClient(user_id, message, area_kind) => match area_kind {
            AreaKind::Editor => seq![
                Effect::ClientItems(ClientItemMsg::SetEditorContent(user_id, message)),
                Effect::HostClient(HostClientMsg::SetEditorContent(user_id, message)),
            ],
            AreaKind::TextArea => seq![
                Effect::ClientItems(ClientItemMsg::SetTextAreaContent(user_id, message)),
                Effect::HostClient(HostClientMsg::SetTextAreaContent(user_id, message)),
            ],
        },
        Msg::ClientSwitchArea(user_id, area_kind) => seq![
            Effect::HostClient(HostClientMsg::ClientSwitchArea(user_id, area_kind)),
            Effect::ClientItems(ClientItemMsg::ClientSwitchArea(user_id, area_kind)),
        ],
    }
}

/// Whether the host can take the message: sending needs a session served.
pub open spec fn host_accepts(session: Option<u128>, msg: Msg) -> bool {
    (msg is SendMessage || msg is SendMessageToUser) ==> session is Some
}

impl Msg {
    /// Whether the host can take this message.
    pub fn accepts(&self, store: &HostStore) -> (r: bool)
        ensures
            r == host_accepts(store@, *self),
    {
        match self {
            Msg::SendMessage(_) | Msg::SendMessageToUser(_, _) => store.session_id.is_some(),
            _ => true,
        }
    }

    /// Passes the message on to the stores, the network or the page.
    pub fn apply(self, store: &mut HostStore) -> (r: Vec<Effect>)
        requires
            host_accepts(old(store)@, self),
        ensures
            r@ == host_route(self),
            final(store)@ == match self {
                Msg::Init(id) => Some(id),
                _ => old(store)@,
            },
    {
        let mut effects: Vec<Effect> = Vec::new();
        match self {
            Msg::Init(session_id) => {
                store.session_id = Some(session_id);
            },
            Msg::SendMessage(message) => {
                effects.push(Effect::SendToAll(message));
            },
            Msg::SendMessageToUser(user_id, message) => {
                effects.push(Effect::SendToUser(user_id, message));
            },
            Msg::AddClient(user_id) => {
                effects.push(Effect::HostHost(HostHostMsg::AddClient(user_id)));
                effects.push(Effect::ClientItems(ClientItemMsg::AddClient(user_id)));
                effects.push(Effect::HostMedia(HostMediaMsg::SendIsScreenState(user_id)));
            },
            Msg::InitClient(user_id, init_user) => {
                effects.push(Effect::ClientItems(ClientItemMsg::InitClient(user_id, init_user)));
            },
            Msg::DisconnectClient(user_id) => {
                effects.push(Effect::ClientItems(ClientItemMsg::DisconnectClient(user_id)));
            },
            Msg::ClientSwitchVideo(user_id, visible) => {
                effects.push(Effect::ShowClientVideo { user_id, visible });
            },
            Msg::ClientToClient(user_id, message, area_kind) => {
                match area_kind {
                    AreaKind::Editor => {
                        effects.push(Effect::ClientItems(ClientItemMsg::SetEditorContent(user_id, message.clone())));
                        effects.push(Effect::HostClient(HostClientMsg::SetEditorContent(user_id, message)));
                    },
                    AreaKind::TextArea => {
                        effects.push(
                            Effect::ClientItems(ClientItemMsg::SetTextAreaContent(user_id, message.clone())),
                        );
                        effects.push(Effect::HostClient(HostClientMsg::SetTextAreaContent(user_id, message)));
                    },
                }
            },
            Msg::ClientSwitchArea(user_id, area_kind) => {
                effects.push(Effect::HostClient(HostClientMsg::ClientSwitchArea(user_id, area_kind)));
                effects.push(Effect::ClientItems(ClientItemMsg::ClientSwitchArea(user_id, area_kind)));
            },
        }
        assert(effects@ =~= host_route(self));
        effects
    }
}

/// What a client's notice asks of the host.
pub open spec fn received_from_client(user_id: u64, notice: ClientNotice) -> Msg {
    match notice {
        ClientNotice::InitClient { message } => Msg::InitClient(user_id, message),
        ClientNotice::ClientSwitchVideo { message } => Msg::ClientSwitchVideo(user_id, message),
        ClientNotice::ClientToClient { message, area_kind } => Msg::ClientToClient(user_id, message, area_kind),
        ClientNotice::ClientSwitchArea { message } => Msg::ClientSwitchArea(user_id, message),
    }
}

/// Turns a client's notice into the host's message about that client.
pub fn host_receive(user_id: u64, notice: ClientNotice) -> (r: Msg)
    ensures
        r == received_from_client(user_id, notice),
{
    match notice {
        ClientNotice::InitClient { message } => Msg::InitClient(user_id, message),
        ClientNotice::ClientSwitchVideo { message } => Msg::ClientSwitchVideo(user_id, message),
        ClientNotice::ClientToClient { message, area_kind } => Msg::ClientToClient(user_id, message, area_kind),
        ClientNotice::ClientSwitchArea { message } => Msg::ClientSwitchArea(user_id, message),
    }
}

/// Every notice from client `user_id` becomes exactly one message to the
/// host's stores, tagged with that client and carrying the notice's content.
pub proof fn lemma_client_notice_dispatched_once(user_id: u64, notice: ClientNotice)
    ensures
        match notice {
            ClientNotice::InitClient { message } => received_from_client(user_id, notice) == Msg::InitClient(
                user_id,
                message,
            ),
            ClientNotice::ClientSwitchVideo { message } => received_from_client(user_id, notice)
                == Msg::ClientSwitchVideo(user_id, message),
            ClientNotice::ClientToClient { message, area_kind } => received_from_client(user_id, notice)
                == Msg::ClientToClient(user_id, message, area_kind),
            ClientNotice::ClientSwitchArea { message } => received_from_client(user_id, notice)
                == Msg::ClientSwitchArea(user_id, message),
        },
{
}

/// The host routes what it hears of a client to the stores for that same
/// client, with the content unchanged: content goes to both the client's
/// record and the host's client area, in the area it was typed in; a joining
/// client is welcomed, recorded and told the screen state; a leaving client's
/// record goes; sends go out to the addressee unchanged.
pub proof fn lemma_host_routes_to_same_client(user_id: u64, message: String, area_kind: AreaKind, b: bool, notice: HostNotice)
    ensures
        host_route(Msg::ClientToClient(user_id, message, area_kind)).len() == 2,
        area_kind == AreaKind::Editor ==> host_route(Msg::ClientToClient(user_id, message, area_kind))
            == seq![
            Effect::ClientItems(ClientItemMsg::SetEditorContent(user_id, message)),
            Effect::HostClient(HostClientMsg::SetEditorContent(user_id, message)),
        ],
        area_kind == AreaKind::TextArea ==> host_route(Msg::ClientToClient(user_id, message, area_kind))
            == seq![
            Effect::ClientItems(ClientItemMsg::SetTextAreaContent(user_id, message)),
            Effect::HostClient(HostClientMsg::SetTextAreaContent(user_id, message)),
        ],
        host_route(Msg::ClientSwitchArea(user_id, area_kind)).contains(
            Effect::ClientItems(ClientItemMsg::ClientSwitchArea(user_id, area_kind)),
        ),
        host_route(Msg::ClientSwitchArea(user_id, area_kind)).contains(
            Effect::HostClient(HostClientMsg::ClientSwitchArea(user_id, area_kind)),
        ),
        host_route(Msg::AddClient(user_id)).contains(Effect::ClientItems(ClientItemMsg::AddClient(user_id))),
        host_route(Msg::AddClient(user_id)).contains(Effect::HostHost(HostHostMsg::AddClient(user_id))),
        host_route(Msg::AddClient(user_id)).contains(
            Effect::HostMedia(HostMediaMsg::SendIsScreenState(user_id)),
        ),
        host_route(Msg::DisconnectClient(user_id)) == seq![
            Effect::ClientItems(ClientItemMsg::DisconnectClient(user_id)),
        ],
        host_route(Msg::ClientSwitchVideo(user_id, b)) == seq![
            Effect::ShowClientVideo { user_id, visible: b },
        ],
        host_route(Msg::SendMessage(notice)) == seq![Effect::SendToAll(notice)],
        host_route(Msg::SendMessageToUser(user_id, notice)) == seq![Effect::SendToUser(user_id, notice)],
{
    assert(host_route(Msg::ClientSwitchArea(user_id, area_kind))[0] == Effect::HostClient(
        HostClientMsg::ClientSwitchArea(user_id, area_kind),
    ));
    assert(host_route(Msg::ClientSwitchArea(user_id, area_kind))[1] == Effect::ClientItems(
        ClientItemMsg::ClientSwitchArea(user_id, area_kind),
    ));
    assert(host_route(Msg::AddClient(user_id))[0] == Effect::HostHost(HostHostMsg::AddClient(user_id)));
    assert(host_route(Msg::AddClient(user_id))[1] == Effect::ClientItems(ClientItemMsg::AddClient(user_id)));
    assert(host_route(Msg::AddClient(user_id))[2] == Effect::HostMedia(
        HostMediaMsg::SendIsScreenState(user_id),
    ));
}

} // verus!
