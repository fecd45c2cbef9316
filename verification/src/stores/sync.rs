//! How the host's and the clients' copies of the shared areas stay equal.

use vstd::prelude::*;

use crate::models::client::ClientProps;
use crate::models::commons::AreaKind;
use crate::stores::client_items_store::{client_items_post, ClientItemMsg};
use crate::stores::client_props_store::{client_props_post, host_client_post, shows_client, ClientPropsMsg, HostClientMsg};
use crate::stores::client_store::{client_route, received_from_host, ClientMsg};
use crate::stores::effects::Effect;
use crate::stores::host_props_store::{host_host_post, host_props_post, HostHostMsg, HostPropsMsg, HostPropsView};
use crate::stores::host_store::{host_route, received_from_client, Msg};
use crate::models::client::ClientItemView;
use crate::stores::media_store::{client_media_step, ClientMediaMsg, MediaView};
use crate::utils::decimal::decimal;
use crate::utils::inputs::{ClientNotice, HostNotice};

verus! {

/// When the host types in its area, every client that showed the same host
/// area before shows the same host area after applying what the host sent:
/// the host's notice goes through the client's routing to its host area.
pub proof fn lemma_host_edit_reaches_clients(
    host_pre: HostPropsView,
    client_pre: HostPropsView,
    content: String,
    host_post: HostPropsView,
    sent: Seq<Effect>,
    notice: HostNotice,
    cmsg: ClientMsg,
    pmsg: HostPropsMsg,
    client_post: HostPropsView,
    client_effects: Seq<Effect>,
)
    requires
        host_pre.host_props == client_pre.host_props,
        host_host_post(host_pre, HostHostMsg::HostUpdateValue(content), host_post, sent),
        sent[0] == Effect::SendToAll(notice),
        received_from_host(notice)[0] == Effect::Client(cmsg),
        client_route(cmsg)[0] == Effect::HostProps(pmsg),
        host_props_post(client_pre, pmsg, client_post, client_effects),
    ensures
        host_post.host_props == client_post.host_props,
{
}

/// When the host switches its area, every client that showed the same host
/// area before shows the same host area after applying what the host sent.
pub proof fn lemma_host_switch_reaches_clients(
    host_pre: HostPropsView,
    client_pre: HostPropsView,
    area_kind: AreaKind,
    host_post: HostPropsView,
    sent: Seq<Effect>,
    notice: HostNotice,
    cmsg: ClientMsg,
    pmsg: HostPropsMsg,
    client_post: HostPropsView,
    client_effects: Seq<Effect>,
)
    requires
        host_pre.host_props == client_pre.host_props,
        host_host_post(host_pre, HostHostMsg::SwitchHostArea(area_kind), host_post, sent),
        sent[0] == Effect::SendToAll(notice),
        received_from_host(notice)[0] == Effect::Client(cmsg),
        client_route(cmsg)[0] == Effect::HostProps(pmsg),
        host_props_post(client_pre, pmsg, client_post, client_effects),
    ensures
        host_post.host_props == client_post.host_props,
{
}

/// A client that joins learns the host's area: after applying the host's
/// welcome, its copy of the host's editor, text area, area in use and
/// communication setting equal the host's, whatever it showed before.
pub proof fn lemma_join_copies_host_area(
    host: HostPropsView,
    user_id: u64,
    host_post: HostPropsView,
    sent: Seq<Effect>,
    notice: HostNotice,
    cmsg: ClientMsg,
    pmsg: HostPropsMsg,
    client_pre: HostPropsView,
    client_post: HostPropsView,
    client_effects: Seq<Effect>,
)
    requires
        host_host_post(host, HostHostMsg::AddClient(user_id), host_post, sent),
        sent[0] == Effect::SendToUser(user_id, notice),
        received_from_host(notice)[0] == Effect::Client(cmsg),
        client_route(cmsg)[0] == Effect::HostProps(pmsg),
        host_props_post(client_pre, pmsg, client_post, client_effects),
    ensures
        client_post.host_props.host_editor_content == host.host_props.host_editor_content,
        client_post.host_props.host_area_content.content == host.host_props.host_area_content.content,
        client_post.host_props.host_area_kind == host.host_props.host_area_kind,
        client_post.host_props.is_communication == host.host_props.is_communication,
{
}

/// When a client in its editor types, the host's record of that client gets
/// the same editor content and shows the editor as in use: the client's
/// notice is routed by the host to its client records.
pub proof fn lemma_client_edit_reaches_host(
    client_pre: ClientProps,
    content: String,
    client_post: ClientProps,
    sent: Seq<Effect>,
    notice: ClientNotice,
    imsg: ClientItemMsg,
    user_id: u64,
    records_pre: Map<u64, ClientItemView>,
    records_post: Map<u64, ClientItemView>,
    outcome: Seq<Effect>,
)
    requires
        client_pre.client_area_kind == AreaKind::Editor,
        client_props_post(client_pre, ClientPropsMsg::UpdateClientValue(content), client_post, sent),
        records_pre.contains_key(user_id),
        sent[0] == Effect::SendToHost(notice),
        host_route(received_from_client(user_id, notice))[0] == Effect::ClientItems(imsg),
        client_items_post(records_pre, imsg, records_post, outcome),
    ensures
        records_post.contains_key(user_id),
        records_post[user_id].editor_content == client_post.client_editor_content@,
        records_post[user_id].area_kind == client_post.client_area_kind,
        forall|u: u64| u != user_id && records_pre.contains_key(u) ==> records_post.contains_key(u)
            && records_post[u] == records_pre[u],
{
}

/// When a client in its text area types, the host's record of that client
/// gets the same text and shows the text area as in use.
pub proof fn lemma_client_text_reaches_host(
    client_pre: ClientProps,
    content: String,
    client_post: ClientProps,
    sent: Seq<Effect>,
    notice: ClientNotice,
    imsg: ClientItemMsg,
    user_id: u64,
    records_pre: Map<u64, ClientItemView>,
    records_post: Map<u64, ClientItemView>,
    outcome: Seq<Effect>,
)
    requires
        client_pre.client_area_kind == AreaKind::TextArea,
        client_props_post(client_pre, ClientPropsMsg::UpdateClientTextArea(content), client_post, sent),
        records_pre.contains_key(user_id),
        sent[0] == Effect::SendToHost(notice),
        host_route(received_from_client(user_id, notice))[0] == Effect::ClientItems(imsg),
        client_items_post(records_pre, imsg, records_post, outcome),
    ensures
        records_post.contains_key(user_id),
        records_post[user_id].text_area_content == client_post.client_text_area.content@,
        records_post[user_id].area_kind == client_post.client_area_kind,
{
}

/// When the host writes in the editor of the client it works with, that
/// client's own editor, the host's record of it and the host's client area
/// all end with the same content.
pub proof fn lemma_host_writes_to_client(
    area_pre: ClientProps,
    content: String,
    user_id: u64,
    area_post: ClientProps,
    effects: Seq<Effect>,
    imsg: ClientItemMsg,
    records_pre: Map<u64, ClientItemView>,
    records_post: Map<u64, ClientItemView>,
    records_outcome: Seq<Effect>,
    notice: HostNotice,
    cmsg: ClientMsg,
    pmsg: ClientPropsMsg,
    client_pre: ClientProps,
    client_post: ClientProps,
    client_effects: Seq<Effect>,
)
    requires
        area_pre.client_area_kind == AreaKind::Editor,
        shows_client(area_pre, user_id),
        host_client_post(area_pre, HostClientMsg::HostClientToClient(content), area_post, effects),
        records_pre.contains_key(user_id),
        effects[0] == Effect::ClientItems(imsg),
        client_items_post(records_pre, imsg, records_post, records_outcome),
        effects[1] == Effect::SendToUser(user_id, notice),
        received_from_host(notice)[0] == Effect::Client(cmsg),
        client_route(cmsg)[0] == Effect::ClientProps(pmsg),
        client_props_post(client_pre, pmsg, client_post, client_effects),
    ensures
        client_post.client_editor_content == content,
        area_post.client_editor_content == content,
        records_post[user_id].editor_content == content@,
{
    crate::utils::decimal::lemma_parse_decimal_roundtrip(user_id);
    crate::utils::decimal::lemma_decimal_nonempty(user_id as nat);
}

/// When the host writes in the text area of the client it works with, that
/// client's own text area, the host's record of it and the host's client
/// area all end with the same text.
pub proof fn lemma_host_writes_text_to_client(
    area_pre: ClientProps,
    content: String,
    user_id: u64,
    area_post: ClientProps,
    effects: Seq<Effect>,
    imsg: ClientItemMsg,
    records_pre: Map<u64, ClientItemView>,
    records_post: Map<u64, ClientItemView>,
    records_outcome: Seq<Effect>,
    notice: HostNotice,
    cmsg: ClientMsg,
    pmsg: ClientPropsMsg,
    client_pre: ClientProps,
    client_post: ClientProps,
    client_effects: Seq<Effect>,
)
    requires
        area_pre.client_area_kind == AreaKind::TextArea,
        shows_client(area_pre, user_id),
        host_client_post(area_pre, HostClientMsg::HostClientToClient(content), area_post, effects),
        records_pre.contains_key(user_id),
        effects[0] == Effect::ClientItems(imsg),
        client_items_post(records_pre, imsg, records_post, records_outcome),
        effects[1] == Effect::SendToUser(user_id, notice),
        received_from_host(notice)[0] == Effect::Client(cmsg),
        client_route(cmsg)[0] == Effect::ClientProps(pmsg),
        client_props_post(client_pre, pmsg, client_post, client_effects),
    ensures
        client_post.client_text_area.content == content,
        area_post.client_text_area.content == content,
        records_post[user_id].text_area_content == content@,
{
    crate::utils::decimal::lemma_parse_decimal_roundtrip(user_id);
    crate::utils::decimal::lemma_decimal_nonempty(user_id as nat);
}

/// When a client switches its camera, the host shows that client's video
/// box with the same visibility the client gives its own camera view: the
/// host's page mirrors the client's, whichever way the switch goes, and
/// opposite switches give opposite visibility on the host.
pub proof fn lemma_host_mirrors_client_video_switch(pre: MediaView, on: bool, user_id: u64)
    ensures
        ({
            let effects = client_media_step(pre, ClientMediaMsg::SwitchVedeo(on)).1;
            &&& effects[0] matches Effect::OnVisible { visible: shown, .. }
            &&& effects[1] matches Effect::SendToHost(notice)
            &&& host_route(received_from_client(user_id, notice)) == seq![
                Effect::ShowClientVideo { user_id, visible: shown },
            ]
        }),
        ({
            let on_effects = client_media_step(pre, ClientMediaMsg::SwitchVedeo(true)).1;
            let off_effects = client_media_step(pre, ClientMediaMsg::SwitchVedeo(false)).1;
            on_effects[1] matches Effect::SendToHost(n_on) && off_effects[1] matches Effect::SendToHost(
                n_off,
            ) && host_route(received_from_client(user_id, n_on)) != host_route(
                received_from_client(user_id, n_off),
            )
        }),
{
    let on_routes = host_route(Msg::ClientSwitchVideo(user_id, false));
    let off_routes = host_route(Msg::ClientSwitchVideo(user_id, true));
    assert(on_routes[0] != off_routes[0]);
}

/// The host shows a client's video box exactly as that client's switch says:
/// one page change, for that client, with the flag it sent.
pub proof fn lemma_client_video_switch_shown(user_id: u64, visible: bool)
    ensures
        host_route(received_from_client(user_id, ClientNotice::ClientSwitchVideo { message: visible }))
            .len() == 1,
        host_route(received_from_client(user_id, ClientNotice::ClientSwitchVideo { message: visible }))[0]
            matches Effect::ShowClientVideo { user_id: u, visible: v } && u == user_id && v == visible,
{
}

} // verus!
