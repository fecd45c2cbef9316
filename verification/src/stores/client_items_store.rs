use std::collections::HashMap;

use vstd::prelude::*;

use crate::models::client::{ClientItem, ClientItemView};
use crate::models::commons::{AreaKind, InitUser};
use crate::stores::client_props_store::HostClientMsg;
use crate::stores::effects::Effect;
use crate::utils::decimal::{parse_u64, parse_u64_spec};

verus! {

broadcast use vstd::std_specs::hash::group_hash_axioms;

/// The host's records of its connected clients, by user id.
pub struct ClientItemsStore {
    players: HashMap<u64, ClientItem>,
}

impl View for ClientItemsStore {
    type V = Map<u64, ClientItemView>;

    closed spec fn view(&self) -> Map<u64, ClientItemView> {
        self.players@.map_values(|c: ClientItem| c@)
    }
}

impl Default for ClientItemsStore {
    fn default() -> (r: Self)
        ensures
            r@ == Map::<u64, ClientItemView>::empty(),
    {
        let r = Self { players: HashMap::new() };
        assert(r@ =~= Map::<u64, ClientItemView>::empty());
        r
    }
}

impl ClientItemsStore {
    /// A copy of the records.
    pub fn get_players(&self) -> (r: HashMap<u64, ClientItem>)
        ensures
            r@.map_values(|c: ClientItem| c@) == self@,
    {
        self.players.clone()
    }

    /// The records, to be changed in place.
    pub fn get_mut_players(&mut self) -> (r: &mut HashMap<u64, ClientItem>)
        ensures
            r@.map_values(|c: ClientItem| c@) == old(self)@,
            final(self)@ == final(r)@.map_values(|c: ClientItem| c@),
    {
        &mut self.players
    }
}

/// The messages the host's client records react to.
#[derive(PartialEq, Debug)]
pub enum ClientItemMsg {
    AddClient(u64),
    InitClient(u64, InitUser),
    SetTextAreaContent(u64, String),
    SetEditorContent(u64, String),
    ClientSwitchArea(u64, AreaKind),
    /// A client's box was clicked; it carries the box's client id.
    ChooseItem(String),
    SwitchSpeakers(String),
    SwitchVideo(String),
    DisconnectClient(u64),
}

/// The record of a newly joined client: both areas empty, the text area in use.
pub open spec fn fresh_item() -> ClientItemView {
    ClientItemView {
        editor_content: Seq::empty(),
        text_area_content: Seq::empty(),
        area_kind: AreaKind::TextArea,
    }
}

/// Whether the records can take the message: a client's first state and a
/// switch of its area are for a recorded client, and a chosen box names a
/// recorded client by its decimal id.
pub open spec fn client_items_accepts(pre: Map<u64, ClientItemView>, msg: ClientItemMsg) -> bool {
    match msg {
        ClientItemMsg::InitClient(user_id, _) => pre.contains_key(user_id),
        ClientItemMsg::ClientSwitchArea(user_id, _) => pre.contains_key(user_id),
        ClientItemMsg::ChooseItem(client_id) => match parse_u64_spec(client_id@) {
            Some(user_id) => pre.contains_key(user_id),
            None => false,
        },
        _ => true,
    }
}

/// The records `post` and the effects `r` after the message `msg` on the
/// records `pre`, for a message the records accept.
pub open spec fn client_items_post(
    pre: Map<u64, ClientItemView>,
    msg: ClientItemMsg,
    post: Map<u64, ClientItemView>,
    r: Seq<Effect>,
) -> bool {
    match msg {
        ClientItemMsg::AddClient(user_id) => r == Seq::<Effect>::empty() && post == pre.insert(
            user_id,
            fresh_item(),
        ),
        ClientItemMsg::InitClient(user_id, init) => r == Seq::<Effect>::empty() && post == pre.insert(
            user_id,
            ClientItemView {
                editor_content: init.editor_content@,
                text_area_content: init.text_area_content@,
                area_kind: init.area_kind,
            },
        ),
        ClientItemMsg::SetTextAreaContent(user_id, content) => r == Seq::<Effect>::empty() && post
            == if pre.contains_key(user_id) {
            pre.insert(
                user_id,
                ClientItemView {
                    text_area_content: content@,
                    area_kind: AreaKind::TextArea,
                    ..pre[user_id]
                },
            )
        } else {
            pre
        },
        ClientItemMsg::SetEditorContent(user_id, content) => r == Seq::<Effect>::empty() && post
            == if pre.contains_key(user_id) {
            pre.insert(
                user_id,
                ClientItemView { editor_content: content@, area_kind: AreaKind::Editor, ..pre[user_id] },
            )
        } else {
            pre
        },
        ClientItemMsg::ClientSwitchArea(user_id, area_kind) => r == Seq::<Effect>::empty() && post
            == pre.insert(user_id, ClientItemView { area_kind, ..pre[user_id] }),
        ClientItemMsg::ChooseItem(client_id) => {
            let user_id = parse_u64_spec(client_id@)->0;
            &&& post == pre
            &&& r.len() == 1
            &&& r[0] matches Effect::HostClient(HostClientMsg::SetFromChoosedItem(id, item)) && id
                == client_id && item@ == pre[user_id]
        },
        ClientItemMsg::SwitchSpeakers(_) => r == Seq::<Effect>::empty() && post == pre,
        ClientItemMsg::SwitchVideo(_) => r == Seq::<Effect>::empty() && post == pre,
        ClientItemMsg::DisconnectClient(user_id) => if pre.contains_key(user_id) {
            r == seq![Effect::RemoveClientBox(user_id)] && post == pre.remove(user_id)
        } else {
            r == Seq::<Effect>::empty() && post == pre
        },
    }
}

impl ClientItemMsg {
    /// Whether the records can take this message.
    pub fn accepts(&self, store: &ClientItemsStore) -> (r: bool)
        ensures
            r == client_items_accepts(store@, *self),
    {
        match self {
            ClientItemMsg::InitClient(user_id, _) => store.players.contains_key(user_id),
            ClientItemMsg::ClientSwitchArea(user_id, _) => store.players.contains_key(user_id),
            ClientItemMsg::ChooseItem(client_id) => match parse_u64(client_id.as_str()) {
                Some(user_id) => store.players.contains_key(&user_id),
                None => false,
            },
            _ => true,
        }
    }

    /// Applies the message to the host's client records. Content for a
    /// client that is not recorded is ignored.
    pub fn apply(self, store: &mut ClientItemsStore) -> (r: Vec<Effect>)
        requires
            client_items_accepts(old(store)@, self),
        ensures
            client_items_post(old(store)@, self, final(store)@, r@),
    {
        let ghost pre = store@;
        match self {
            ClientItemMsg::AddClient(user_id) => {
                store.players.insert(user_id, ClientItem::new(AreaKind::TextArea));
                assert(store@ =~= pre.insert(user_id, fresh_item()));
                Vec::new()
            },
            ClientItemMsg::InitClient(user_id, init_user) => {
                match store.players.remove(&user_id) {
                    Some(mut client_item) => {
                        client_item.set_area_kind(init_user.area_kind);
                        client_item.set_editor_content(init_user.editor_content);
                        client_item.set_text_area_content(init_user.text_area_content);
                        store.players.insert(user_id, client_item);
                        assert(store@ =~= pre.insert(user_id, client_item@));
                    },
                    None => {},
                }
                Vec::new()
            },
            ClientItemMsg::SetTextAreaContent(user_id, content) => {
                match store.players.remove(&user_id) {
                    Some(mut client_item) => {
                        client_item.set_area_kind(AreaKind::TextArea);
                        client_item.set_text_area_content(content);
                        store.players.insert(user_id, client_item);
                        assert(store@ =~= pre.insert(user_id, client_item@));
                    },
                    None => {
                        assert(store@ =~= pre);
                    },
                }
                Vec::new()
            },
            ClientItemMsg::SetEditorContent(user_id, content) => {
                match store.players.remove(&user_id) {
                    Some(mut client_item) => {
                        client_item.set_area_kind(AreaKind::Editor);
                        client_item.set_editor_content(content);
                        store.players.insert(user_id, client_item);
                        assert(store@ =~= pre.insert(user_id, client_item@));
                    },
                    None => {
                        assert(store@ =~= pre);
                    },
                }
                Vec::new()
            },
            ClientItemMsg::ClientSwitchArea(user_id, area_kind) => {
                match store.players.remove(&user_id) {
                    Some(mut client_item) => {
                        client_item.set_area_kind(area_kind);
                        store.players.insert(user_id, client_item);
                        assert(store@ =~= pre.insert(user_id, client_item@));
                    },
                    None => {},
                }
                Vec::new()
            },
            ClientItemMsg::ChooseItem(client_id) => {
                let mut effects = Vec::new();
                match parse_u64(client_id.as_str()) {
                    Some(user_id) => {
                        match store.players.get(&user_id) {
                            Some(client_item) => {
                                let item = client_item.duplicate();
                                effects.push(
                                    Effect::HostClient(HostClientMsg::SetFromChoosedItem(client_id, item)),
                                );
                            },
                            None => {},
                        }
                    },
                    None => {},
                }
                effects
            },
            ClientItemMsg::SwitchSpeakers(_speakers_id) => Vec::new(),
            ClientItemMsg::SwitchVideo(_video_id) => Vec::new(),
            ClientItemMsg::DisconnectClient(user_id) => {
                let mut effects = Vec::new();
                match store.players.remove(&user_id) {
                    Some(_client_item) => {
                        assert(store@ =~= pre.remove(user_id));
                        effects.push(Effect::RemoveClientBox(user_id));
                    },
                    None => {
                        assert(store@ =~= pre);
                    },
                }
                effects
            },
        }
    }
}

/// A client that joins and leaves leaves no trace: adding a client that was
/// not recorded and then disconnecting it gives back the records as they
/// were, and the disconnection asks for its box to be removed.
pub proof fn lemma_add_then_disconnect(
    pre: Map<u64, ClientItemView>,
    user_id: u64,
    mid: Map<u64, ClientItemView>,
    r1: Seq<Effect>,
    post: Map<u64, ClientItemView>,
    r2: Seq<Effect>,
)
    requires
        !pre.contains_key(user_id),
        client_items_post(pre, ClientItemMsg::AddClient(user_id), mid, r1),
        client_items_post(mid, ClientItemMsg::DisconnectClient(user_id), post, r2),
    ensures
        post == pre,
        r2 == seq![Effect::RemoveClientBox(user_id)],
{
    assert(post =~= pre);
}

/// Content for a client that is not recorded changes nothing.
pub proof fn lemma_unknown_client_content_ignored(
    pre: Map<u64, ClientItemView>,
    user_id: u64,
    content: String,
    post: Map<u64, ClientItemView>,
    r: Seq<Effect>,
)
    requires
        !pre.contains_key(user_id),
        client_items_post(pre, ClientItemMsg::SetTextAreaContent(user_id, content), post, r)
            || client_items_post(pre, ClientItemMsg::SetEditorContent(user_id, content), post, r),
    ensures
        post == pre,
        r == Seq::<Effect>::empty(),
{
}

/// A recorded client's switch of area is recorded as that area, with its
/// contents kept and the other records untouched; choosing its box then
/// opens the area it switched to.
pub proof fn lemma_switch_area_recorded(
    pre: Map<u64, ClientItemView>,
    user_id: u64,
    area_kind: AreaKind,
    post: Map<u64, ClientItemView>,
    r: Seq<Effect>,
    client_id: String,
    chosen: Seq<Effect>,
)
    requires
        pre.contains_key(user_id),
        client_items_post(pre, ClientItemMsg::ClientSwitchArea(user_id, area_kind), post, r),
        parse_u64_spec(client_id@) == Some(user_id),
        client_items_post(post, ClientItemMsg::ChooseItem(client_id), post, chosen),
    ensures
        post.contains_key(user_id),
        post[user_id].area_kind == area_kind,
        post[user_id].editor_content == pre[user_id].editor_content,
        post[user_id].text_area_content == pre[user_id].text_area_content,
        post.dom() == pre.dom(),
        forall|u: u64| u != user_id && pre.contains_key(u) ==> post[u] == pre[u],
        r == Seq::<Effect>::empty(),
        chosen[0] matches Effect::HostClient(HostClientMsg::SetFromChoosedItem(_, item)) && item.area_kind
            == area_kind,
{
    assert(post.dom() =~= pre.dom());
}

/// What each message does to the record of the client it names, leaving
/// every other record as it was: a joining client gets an empty record in
/// its text area; its first state is copied in; typed content lands in the
/// area it was typed in, which becomes the area in use; a client that leaves
/// loses its record and its box.
pub proof fn lemma_records_follow_clients(
    pre: Map<u64, ClientItemView>,
    msg: ClientItemMsg,
    post: Map<u64, ClientItemView>,
    r: Seq<Effect>,
)
    requires
        client_items_accepts(pre, msg),
        client_items_post(pre, msg, post, r),
    ensures
        match msg {
            ClientItemMsg::AddClient(u) => post.contains_key(u) && post[u].editor_content.len() == 0
                && post[u].text_area_content.len() == 0 && post[u].area_kind == AreaKind::TextArea,
            ClientItemMsg::InitClient(u, init) => post.contains_key(u) && post[u].editor_content
                == init.editor_content@ && post[u].text_area_content == init.text_area_content@
                && post[u].area_kind == init.area_kind,
            ClientItemMsg::SetEditorContent(u, c) => pre.contains_key(u) ==> post[u].editor_content == c@
                && post[u].area_kind == AreaKind::Editor && post[u].text_area_content
                == pre[u].text_area_content,
            ClientItemMsg::SetTextAreaContent(u, c) => pre.contains_key(u) ==> post[u].text_area_content
                == c@ && post[u].area_kind == AreaKind::TextArea && post[u].editor_content
                == pre[u].editor_content,
            ClientItemMsg::DisconnectClient(u) => !post.contains_key(u) && (pre.contains_key(u) ==> r
                == seq![Effect::RemoveClientBox(u)]),
            _ => post.dom() == pre.dom(),
        },
        forall|v: u64|
            pre.contains_key(v) && match msg {
                ClientItemMsg::AddClient(u) => u != v,
                ClientItemMsg::InitClient(u, _) => u != v,
                ClientItemMsg::SetEditorContent(u, _) => u != v,
                ClientItemMsg::SetTextAreaContent(u, _) => u != v,
                ClientItemMsg::ClientSwitchArea(u, _) => u != v,
                ClientItemMsg::DisconnectClient(u) => u != v,
                _ => true,
            } ==> post.contains_key(v) && post[v] == pre[v],
{
}

} // verus!
