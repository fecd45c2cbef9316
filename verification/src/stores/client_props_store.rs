use vstd::prelude::*;

use crate::models::client::{ClientItem, ClientProps};
use crate::models::commons::{AreaKind, InitUser, TextAreaProps};
use crate::stores::client_items_store::ClientItemMsg;
use crate::stores::effects::Effect;
use crate::utils::decimal::{decimal, parse_u64, parse_u64_spec, u64_to_decimal};
use crate::utils::inputs::{ClientNotice, HostNotice};

verus! {

/// The client area: on a client its own areas, on the host the areas of the
/// client the host works with.
pub struct ClientPropsStore {
    client_props: ClientProps,
}

impl View for ClientPropsStore {
    type V = ClientProps;

    closed spec fn view(&self) -> ClientProps {
        self.client_props
    }
}

impl Default for ClientPropsStore {
    /// Empty areas, no client chosen, the text area in use.
    fn default() -> (r: Self)
        ensures
            r@.client_editor_content@ == Seq::<char>::empty(),
            r@.client_id@ == Seq::<char>::empty(),
            r@.client_text_area.content@ == Seq::<char>::empty(),
            r@.client_text_area.placeholder@ == Seq::<char>::empty(),
            r@.client_text_area.is_disabled,
            !r@.is_write,
            r@.client_area_kind == AreaKind::TextArea,
    {
        Self { client_props: ClientProps::new(String::new(), String::new()) }
    }
}

impl ClientPropsStore {
    pub fn get_client_props(&self) -> (r: &ClientProps)
        ensures
            *r == self@,
    {
        &self.client_props
    }

    pub fn get_mut_client_props(&mut self) -> (r: &mut ClientProps)
        ensures
            *r == old(self)@,
            final(self)@ == *final(r),
    {
        &mut self.client_props
    }
}

/// The messages a client's own area reacts to.
#[derive(PartialEq, Debug)]
pub enum ClientPropsMsg {
    SendStateToHost,
    SwitchArea(AreaKind),
    UpdateClientValue(String),
    /// The client typed in its text area; it carries the new text.
    UpdateClientTextArea(String),
    HostToClient { message: String, area_kind: AreaKind },
}

/// The messages of the host about the client it works with.
#[derive(PartialEq, Debug)]
pub enum HostClientMsg {
    SetTextAreaContent(u64, String),
    SetEditorContent(u64, String),
    ClientSwitchArea(u64, AreaKind),
    HostClientToClient(String),
    SetFromChoosedItem(String, ClientItem),
}

/// `p` with its text area's content replaced.
pub open spec fn with_text(p: ClientProps, content: String) -> ClientProps {
    ClientProps { client_text_area: TextAreaProps { content, ..p.client_text_area }, ..p }
}

/// The client area `post` and effects `r` after `msg` on a client whose area is `pre`.
pub open spec fn client_props_post(pre: ClientProps, msg: ClientPropsMsg, post: ClientProps, r: Seq<Effect>) -> bool {
    match msg {
        ClientPropsMsg::SendStateToHost => post == pre && r == seq![
            Effect::SendToHost(
                ClientNotice::InitClient {
                    message: InitUser {
                        editor_content: pre.client_editor_content,
                        text_area_content: pre.client_text_area.content,
                        area_kind: pre.client_area_kind,
                        is_communication: false,
                    },
                },
            ),
        ],
        ClientPropsMsg::SwitchArea(area_kind) => post == (ClientProps {
            client_area_kind: area_kind,
            ..pre
        }) && r == seq![Effect::SendToHost(ClientNotice::ClientSwitchArea { message: area_kind })],
        ClientPropsMsg::UpdateClientValue(content) => post == (ClientProps {
            client_editor_content: content,
            is_write: false,
            ..pre
        }) && r == seq![
            Effect::SendToHost(
                ClientNotice::ClientToClient { message: content, area_kind: pre.client_area_kind },
            ),
        ],
        ClientPropsMsg::UpdateClientTextArea(content) => post == with_text(pre, content) && r == seq![
            Effect::SendToHost(
                ClientNotice::ClientToClient { message: content, area_kind: pre.client_area_kind },
            ),
        ],
        ClientPropsMsg::HostToClient { message, area_kind } => r == Seq::<Effect>::empty() && post
            == match area_kind {
            AreaKind::Editor => ClientProps { client_editor_content: message, is_write: true, ..pre },
            AreaKind::TextArea => with_text(pre, message),
        },
    }
}

/// Whether the client area shows the client with this user id.
pub open spec fn shows_client(p: ClientProps, user_id: u64) -> bool {
    p.client_id@ == decimal(user_id as nat)
}

/// Whether the host's client area can take the message: writing to the
/// chosen client needs its id to be empty (none chosen) or a decimal id.
pub open spec fn host_client_accepts(pre: ClientProps, msg: HostClientMsg) -> bool {
    msg matches HostClientMsg::HostClientToClient(_) ==> pre.client_id@.len() == 0 || parse_u64_spec(
        pre.client_id@,
    ) is Some
}

/// The host's client area `post` and effects `r` after `msg` on `pre`, for a
/// message the area accepts.
pub open spec fn host_client_post(pre: ClientProps, msg: HostClientMsg, post: ClientProps, r: Seq<Effect>) -> bool {
    match msg {
        HostClientMsg::SetTextAreaContent(user_id, message) => r == Seq::<Effect>::empty() && post
            == if shows_client(pre, user_id) {
            with_text(pre, message)
        } else {
            pre
        },
        HostClientMsg::SetEditorContent(user_id, content) => r == Seq::<Effect>::empty() && post
            == if shows_client(pre, user_id) {
            ClientProps { client_editor_content: content, is_write: true, ..pre }
        } else {
            pre
        },
        HostClientMsg::ClientSwitchArea(user_id, area_kind) => r == Seq::<Effect>::empty() && post
            == if shows_client(pre, user_id) {
            ClientProps { client_area_kind: area_kind, ..pre }
        } else {
            pre
        },
        HostClientMsg::HostClientToClient(content) => if pre.client_id@.len() == 0 {
            r == Seq::<Effect>::empty() && post == pre
        } else {
            let user_id = parse_u64_spec(pre.client_id@)->0;
            let kind = pre.client_area_kind;
            let send = Effect::SendToUser(user_id, HostNotice::HostToClient { message: content, area_kind: kind });
            match kind {
                AreaKind::Editor => r == seq![
                    Effect::ClientItems(ClientItemMsg::SetEditorContent(user_id, content)),
                    send,
                ] && post == (ClientProps { client_editor_content: content, is_write: false, ..pre }),
                AreaKind::TextArea => r == seq![
                    Effect::ClientItems(ClientItemMsg::SetTextAreaContent(user_id, content)),
                    send,
                ] && post == (ClientProps { is_write: false, ..with_text(pre, content) }),
            }
        },
        HostClientMsg::SetFromChoosedItem(client_id, item) => r == Seq::<Effect>::empty() && post == (
        ClientProps {
            client_id,
            client_area_kind: item.area_kind,
            client_editor_content: item.editor_content,
            is_write: true,
            ..with_text(pre, item.text_area_content)
        }),
    }
}

impl ClientPropsMsg {
    /// Applies the message to a client's own area.
    pub fn apply(self, store: &mut ClientPropsStore) -> (r: Vec<Effect>)
        ensures
            client_props_post(old(store)@, self, final(store)@, r@),
    {
        let mut effects: Vec<Effect> = Vec::new();
        match self {
            ClientPropsMsg::SendStateToHost => {
                let props = store.get_client_props();
                let init_user = InitUser {
                    editor_content: props.client_editor_content.clone(),
                    text_area_content: props.client_text_area.content.clone(),
                    area_kind: props.client_area_kind,
                    is_communication: false,
                };
                effects.push(Effect::SendToHost(ClientNotice::InitClient { message: init_user }));
            },
            ClientPropsMsg::SwitchArea(area_kind) => {
                store.get_mut_client_props().set_area_kind(area_kind);
                effects.push(Effect::SendToHost(ClientNotice::ClientSwitchArea { message: area_kind }));
            },
            ClientPropsMsg::UpdateClientValue(content) => {
                let area_kind = store.client_props.client_area_kind;
                store.client_props.set_editor_content(content.clone());
                store.client_props.set_is_write(false);
                effects.push(
                    Effect::SendToHost(ClientNotice::ClientToClient { message: content, area_kind }),
                );
            },
            ClientPropsMsg::UpdateClientTextArea(content) => {
                let area_kind = store.client_props.client_area_kind;
                store.client_props.set_text_area_content(content.clone());
                effects.push(
                    Effect::SendToHost(ClientNotice::ClientToClient { message: content, area_kind }),
                );
            },
            ClientPropsMsg::HostToClient { message, area_kind } => {
                match area_kind {
                    AreaKind::Editor => {
                        store.client_props.set_editor_content(message);
                        store.client_props.set_is_write(true);
                    },
                    AreaKind::TextArea => {
                        store.client_props.set_text_area_content(message);
                    },
                }
            },
        }
        effects
    }
}

impl HostClientMsg {
    /// Whether the host's client area can take this message.
    pub fn accepts(&self, store: &ClientPropsStore) -> (r: bool)
        ensures
            r == host_client_accepts(store@, *self),
    {
        match self {
            HostClientMsg::HostClientToClient(_) => {
                let id = store.client_props.client_id.as_str();
                id.is_empty() || parse_u64(id).is_some()
            },
            _ => true,
        }
    }

    /// Applies the message to the host's area of the client it works with.
    /// Messages about another client leave the area unchanged.
    pub fn apply(self, store: &mut ClientPropsStore) -> (r: Vec<Effect>)
        requires
            host_client_accepts(old(store)@, self),
        ensures
            host_client_post(old(store)@, self, final(store)@, r@),
    {
        match self {
            HostClientMsg::SetTextAreaContent(user_id, message) => {
                if store.client_props.client_id == u64_to_decimal(user_id) {
                    store.client_props.set_text_area_content(message);
                }
                Vec::new()
            },
            HostClientMsg::SetEditorContent(user_id, content) => {
                if store.client_props.client_id == u64_to_decimal(user_id) {
                    store.client_props.set_editor_content(content);
                    store.client_props.set_is_write(true);
                }
                Vec::new()
            },
            HostClientMsg::ClientSwitchArea(user_id, area_kind) => {
                if store.client_props.client_id == u64_to_decimal(user_id) {
                    store.client_props.set_area_kind(area_kind);
                }
                Vec::new()
            },
            HostClientMsg::HostClientToClient(content) => {
                if store.client_props.client_id.as_str().is_empty() {
                    return Vec::new();
                }
                let user_id = match parse_u64(store.client_props.client_id.as_str()) {
                    Some(user_id) => user_id,
                    None => {
                        return Vec::new();
                    },
                };
                let area_kind = store.client_props.client_area_kind;
                let mut effects: Vec<Effect> = Vec::new();
                match area_kind {
                    AreaKind::Editor => {
                        effects.push(
                            Effect::ClientItems(ClientItemMsg::SetEditorContent(user_id, content.clone())),
                        );
                        store.client_props.set_editor_content(content.clone());
                    },
                    AreaKind::TextArea => {
                        effects.push(
                            Effect::ClientItems(ClientItemMsg::SetTextAreaContent(user_id, content.clone())),
                        );
                        store.client_props.set_text_area_content(content.clone());
                    },
                }
                effects.push(
                    Effect::SendToUser(user_id, HostNotice::HostToClient { message: content, area_kind }),
                );
                store.client_props.set_is_write(false);
                assert(effects@ =~= seq![effects@[0], effects@[1]]);
                effects
            },
            HostClientMsg::SetFromChoosedItem(client_id, client_item) => {
                store.client_props.set_client_id(client_id);
                store.client_props.set_area_kind(client_item.area_kind);
                store.client_props.set_editor_content(client_item.editor_content);
                store.client_props.set_text_area_content(client_item.text_area_content);
                store.client_props.set_is_write(true);
                Vec::new()
            },
        }
    }
}

} // verus!
