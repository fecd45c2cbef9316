use live_lesson::encoders::encoder_state::EncoderState;
use live_lesson::models::client::ClientItem;
use live_lesson::models::commons::{AreaKind, InitUser};
use live_lesson::stores::client_items_store::{ClientItemMsg, ClientItemsStore};
use live_lesson::stores::client_props_store::{ClientPropsMsg, ClientPropsStore, HostClientMsg};
use live_lesson::stores::client_store::{client_receive, ClientMsg, ClientStore};
use live_lesson::stores::effects::{Agenda, Effect, PageElement};
use live_lesson::stores::host_props_store::{HostHostMsg, HostPropsMsg, HostPropsStore};
use live_lesson::stores::host_store::{host_receive, HostStore, Msg};
use live_lesson::stores::media_store::{ClientMediaMsg, HostMediaMsg, MediaStore, MediaTarget};
use live_lesson::utils::inputs::{ClientNotice, HostNotice};

fn init_user(editor: &str, text: &str, kind: AreaKind, comm: bool) -> InitUser {
    InitUser {
        editor_content: editor.to_string(),
        text_area_content: text.to_string(),
        area_kind: kind,
        is_communication: comm,
    }
}

// ---- client records ----

#[test]
fn add_client_records_empty_text_area() {
    let mut store = ClientItemsStore::default();
    assert_eq!(ClientItemMsg::AddClient(5).apply(&mut store), vec![]);
    let players = store.get_players();
    assert_eq!(players.len(), 1);
    assert_eq!(players[&5], ClientItem::new(AreaKind::TextArea));
}

#[test]
fn init_client_requires_known_client() {
    let mut store = ClientItemsStore::default();
    assert!(!ClientItemMsg::InitClient(3, init_user("e", "t", AreaKind::Editor, false)).accepts(&store));
    ClientItemMsg::AddClient(3).apply(&mut store);
    assert_eq!(
        ClientItemMsg::InitClient(3, init_user("e", "t", AreaKind::Editor, false)).apply(&mut store),
        vec![]
    );
    assert_eq!(
        store.get_players()[&3],
        ClientItem { editor_content: "e".to_string(), text_area_content: "t".to_string(), area_kind: AreaKind::Editor }
    );
}

#[test]
fn content_updates_set_area_in_use() {
    let mut store = ClientItemsStore::default();
    ClientItemMsg::AddClient(1).apply(&mut store);
    ClientItemMsg::SetEditorContent(1, "code".to_string()).apply(&mut store);
    assert_eq!(store.get_players()[&1].editor_content, "code");
    assert_eq!(store.get_players()[&1].area_kind, AreaKind::Editor);
    ClientItemMsg::SetTextAreaContent(1, "notes".to_string()).apply(&mut store);
    assert_eq!(store.get_players()[&1].text_area_content, "notes");
    assert_eq!(store.get_players()[&1].editor_content, "code");
    assert_eq!(store.get_players()[&1].area_kind, AreaKind::TextArea);
}

#[test]
fn unknown_client_content_is_ignored() {
    let mut store = ClientItemsStore::default();
    ClientItemMsg::AddClient(1).apply(&mut store);
    assert_eq!(ClientItemMsg::SetEditorContent(2, "x".to_string()).apply(&mut store), vec![]);
    assert_eq!(ClientItemMsg::SetTextAreaContent(2, "x".to_string()).apply(&mut store), vec![]);
    let players = store.get_players();
    assert_eq!(players.len(), 1);
    assert_eq!(players[&1], ClientItem::new(AreaKind::TextArea));
}

#[test]
fn switch_area_needs_known_client() {
    let mut store = ClientItemsStore::default();
    assert!(!ClientItemMsg::ClientSwitchArea(9, AreaKind::Editor).accepts(&store));
    ClientItemMsg::AddClient(9).apply(&mut store);
    assert_eq!(ClientItemMsg::ClientSwitchArea(9, AreaKind::Editor).apply(&mut store), vec![]);
    assert_eq!(store.get_players()[&9].area_kind, AreaKind::Editor);
}

#[test]
fn choose_item_cases() {
    let mut store = ClientItemsStore::default();
    assert!(!ClientItemMsg::ChooseItem("abc".to_string()).accepts(&store));
    assert!(!ClientItemMsg::ChooseItem("4".to_string()).accepts(&store));
    ClientItemMsg::AddClient(4).apply(&mut store);
    ClientItemMsg::SetEditorContent(4, "fn main".to_string()).apply(&mut store);
    let expected = ClientItem {
        editor_content: "fn main".to_string(),
        text_area_content: String::new(),
        area_kind: AreaKind::Editor,
    };
    assert_eq!(
        ClientItemMsg::ChooseItem("4".to_string()).apply(&mut store),
        vec![Effect::HostClient(HostClientMsg::SetFromChoosedItem("4".to_string(), expected))]
    );
}

#[test]
fn speakers_and_video_switches_change_nothing() {
    let mut store = ClientItemsStore::default();
    ClientItemMsg::AddClient(2).apply(&mut store);
    assert_eq!(ClientItemMsg::SwitchSpeakers("2".to_string()).apply(&mut store), vec![]);
    assert_eq!(ClientItemMsg::SwitchVideo("2".to_string()).apply(&mut store), vec![]);
    assert_eq!(store.get_players().len(), 1);
}

#[test]
fn add_then_disconnect_leaves_no_trace() {
    let mut store = ClientItemsStore::default();
    ClientItemMsg::AddClient(1).apply(&mut store);
    let before = store.get_players();
    ClientItemMsg::AddClient(2).apply(&mut store);
    assert_eq!(
        ClientItemMsg::DisconnectClient(2).apply(&mut store),
        vec![Effect::RemoveClientBox(2)]
    );
    assert_eq!(store.get_players(), before);
    assert_eq!(ClientItemMsg::DisconnectClient(2).apply(&mut store), vec![]);
}

#[test]
fn mutable_players_access() {
    let mut store = ClientItemsStore::default();
    store.get_mut_players().insert(8, ClientItem::new(AreaKind::Editor));
    assert_eq!(store.get_players()[&8].area_kind, AreaKind::Editor);
}

// ---- client area ----

#[test]
fn client_area_defaults() {
    let store = ClientPropsStore::default();
    let p = store.get_client_props();
    assert_eq!(p.client_editor_content, "");
    assert_eq!(p.client_id, "");
    assert_eq!(p.client_area_kind, AreaKind::TextArea);
    assert!(!p.is_write);
}

#[test]
fn send_state_to_host() {
    let mut store = ClientPropsStore::default();
    store.get_mut_client_props().set_editor_content("e".to_string());
    store.get_mut_client_props().set_text_area_content("t".to_string());
    assert_eq!(
        ClientPropsMsg::SendStateToHost.apply(&mut store),
        vec![Effect::SendToHost(ClientNotice::InitClient {
            message: init_user("e", "t", AreaKind::TextArea, false)
        })]
    );
}

#[test]
fn client_switch_area_tells_host() {
    let mut store = ClientPropsStore::default();
    assert_eq!(
        ClientPropsMsg::SwitchArea(AreaKind::Editor).apply(&mut store),
        vec![Effect::SendToHost(ClientNotice::ClientSwitchArea { message: AreaKind::Editor })]
    );
    assert_eq!(store.get_client_props().client_area_kind, AreaKind::Editor);
}

#[test]
fn client_typing_is_sent_to_host() {
    let mut store = ClientPropsStore::default();
    ClientPropsMsg::SwitchArea(AreaKind::Editor).apply(&mut store);
    store.get_mut_client_props().set_is_write(true);
    assert_eq!(
        ClientPropsMsg::UpdateClientValue("x = 1".to_string()).apply(&mut store),
        vec![Effect::SendToHost(ClientNotice::ClientToClient {
            message: "x = 1".to_string(),
            area_kind: AreaKind::Editor
        })]
    );
    assert_eq!(store.get_client_props().client_editor_content, "x = 1");
    assert!(!store.get_client_props().is_write);
    assert_eq!(
        ClientPropsMsg::UpdateClientTextArea("hello".to_string()).apply(&mut store),
        vec![Effect::SendToHost(ClientNotice::ClientToClient {
            message: "hello".to_string(),
            area_kind: AreaKind::Editor
        })]
    );
    assert_eq!(store.get_client_props().client_text_area.content, "hello");
}

#[test]
fn host_writes_into_client_area() {
    let mut store = ClientPropsStore::default();
    assert_eq!(
        ClientPropsMsg::HostToClient { message: "e".to_string(), area_kind: AreaKind::Editor }.apply(&mut store),
        vec![]
    );
    assert_eq!(store.get_client_props().client_editor_content, "e");
    assert!(store.get_client_props().is_write);
    ClientPropsMsg::HostToClient { message: "t".to_string(), area_kind: AreaKind::TextArea }.apply(&mut store);
    assert_eq!(store.get_client_props().client_text_area.content, "t");
}

#[test]
fn host_client_area_follows_chosen_client_only() {
    let mut store = ClientPropsStore::default();
    store.get_mut_client_props().set_client_id("12".to_string());
    assert_eq!(HostClientMsg::SetEditorContent(12, "mine".to_string()).apply(&mut store), vec![]);
    assert_eq!(store.get_client_props().client_editor_content, "mine");
    assert!(store.get_client_props().is_write);
    HostClientMsg::SetEditorContent(13, "other".to_string()).apply(&mut store);
    assert_eq!(store.get_client_props().client_editor_content, "mine");
    HostClientMsg::SetTextAreaContent(12, "t".to_string()).apply(&mut store);
    HostClientMsg::SetTextAreaContent(1, "u".to_string()).apply(&mut store);
    assert_eq!(store.get_client_props().client_text_area.content, "t");
    HostClientMsg::ClientSwitchArea(12, AreaKind::Editor).apply(&mut store);
    assert_eq!(store.get_client_props().client_area_kind, AreaKind::Editor);
    HostClientMsg::ClientSwitchArea(2, AreaKind::TextArea).apply(&mut store);
    assert_eq!(store.get_client_props().client_area_kind, AreaKind::Editor);
}

#[test]
fn host_client_to_client_without_chosen_client() {
    let mut store = ClientPropsStore::default();
    assert_eq!(HostClientMsg::HostClientToClient("x".to_string()).apply(&mut store), vec![]);
    assert_eq!(store.get_client_props().client_editor_content, "");
}

#[test]
fn host_client_to_client_with_bad_id() {
    let mut store = ClientPropsStore::default();
    store.get_mut_client_props().set_client_id("abc".to_string());
    assert!(!HostClientMsg::HostClientToClient("x".to_string()).accepts(&store));
    assert!(HostClientMsg::SetEditorContent(1, "x".to_string()).accepts(&store));
}

#[test]
fn host_client_to_client_editor_and_text() {
    let mut store = ClientPropsStore::default();
    store.get_mut_client_props().set_client_id("3".to_string());
    store.get_mut_client_props().set_area_kind(AreaKind::Editor);
    store.get_mut_client_props().set_is_write(true);
    assert_eq!(
        HostClientMsg::HostClientToClient("code".to_string()).apply(&mut store),
        vec![
            Effect::ClientItems(ClientItemMsg::SetEditorContent(3, "code".to_string())),
            Effect::SendToUser(3, HostNotice::HostToClient { message: "code".to_string(), area_kind: AreaKind::Editor }),
        ]
    );
    assert_eq!(store.get_client_props().client_editor_content, "code");
    assert!(!store.get_client_props().is_write);
    store.get_mut_client_props().set_area_kind(AreaKind::TextArea);
    assert_eq!(
        HostClientMsg::HostClientToClient("note".to_string()).apply(&mut store),
        vec![
            Effect::ClientItems(ClientItemMsg::SetTextAreaContent(3, "note".to_string())),
            Effect::SendToUser(3, HostNotice::HostToClient { message: "note".to_string(), area_kind: AreaKind::TextArea }),
        ]
    );
    assert_eq!(store.get_client_props().client_text_area.content, "note");
}

#[test]
fn set_from_chosen_item() {
    let mut store = ClientPropsStore::default();
    let item = ClientItem { editor_content: "e".to_string(), text_area_content: "t".to_string(), area_kind: AreaKind::Editor };
    assert_eq!(HostClientMsg::SetFromChoosedItem("6".to_string(), item).apply(&mut store), vec![]);
    let p = store.get_client_props();
    assert_eq!(p.client_id, "6");
    assert_eq!(p.client_editor_content, "e");
    assert_eq!(p.client_text_area.content, "t");
    assert_eq!(p.client_area_kind, AreaKind::Editor);
    assert!(p.is_write);
}

// ---- host area ----

#[test]
fn host_area_defaults() {
    let store = HostPropsStore::default();
    assert_eq!(store.get_host_props().host_area_kind, AreaKind::Editor);
    assert!(store.get_host_props().is_communication);
    assert!(store.get_paints_f().is_empty());
}

#[test]
fn host_welcomes_new_client() {
    let mut store = HostPropsStore::default();
    store.get_mut_host_props().set_editor_content("e".to_string());
    assert_eq!(
        HostHostMsg::AddClient(4).apply(&mut store),
        vec![Effect::SendToUser(4, HostNotice::Init { message: init_user("e", "", AreaKind::Editor, true) })]
    );
}

#[test]
fn host_update_value_goes_to_area_in_use() {
    let mut store = HostPropsStore::default();
    assert_eq!(
        HostHostMsg::HostUpdateValue("code".to_string()).apply(&mut store),
        vec![Effect::SendToAll(HostNotice::HostToHost { message: "code".to_string(), area_kind: AreaKind::Editor })]
    );
    assert_eq!(store.get_host_props().host_editor_content, "code");
    assert_eq!(
        HostHostMsg::SwitchHostArea(AreaKind::TextArea).apply(&mut store),
        vec![Effect::SendToAll(HostNotice::HostSwitchArea { message: AreaKind::TextArea })]
    );
    HostHostMsg::HostUpdateValue("notes".to_string()).apply(&mut store);
    assert_eq!(store.get_host_props().host_area_content.content, "notes");
    assert_eq!(store.get_host_props().host_editor_content, "code");
}

#[test]
fn host_text_area_input_becomes_update() {
    let mut store = HostPropsStore::default();
    assert_eq!(
        HostHostMsg::HostTextAreaInput("t".to_string()).apply(&mut store),
        vec![Effect::HostHost(HostHostMsg::HostUpdateValue("t".to_string()))]
    );
}

#[test]
fn host_paint_open_and_close() {
    let mut store = HostPropsStore::default();
    HostHostMsg::HostUpdateValue("draw me".to_string()).apply(&mut store);
    assert_eq!(HostHostMsg::OpenPaint.apply(&mut store), vec![Effect::SendToAll(HostNotice::OpenPaint)]);
    assert_eq!(store.get_paints_f().get(&1), Some(&"draw me".to_string()));
    assert_eq!(
        HostHostMsg::ClosePaint.apply(&mut store),
        vec![Effect::RemoveDrawCanvas, Effect::SendToAll(HostNotice::ClosePaint)]
    );
    store.get_mut_paints_f().clear();
    assert!(store.get_paints_f().is_empty());
}

#[test]
fn host_on_communication_flips() {
    let mut store = HostPropsStore::default();
    assert_eq!(
        HostHostMsg::OnCummunication.apply(&mut store),
        vec![Effect::SendToAll(HostNotice::OnCummunication { message: false })]
    );
    assert_eq!(
        HostHostMsg::OnCummunication.apply(&mut store),
        vec![Effect::SendToAll(HostNotice::OnCummunication { message: true })]
    );
}

#[test]
fn client_copy_of_host_area() {
    let mut store = HostPropsStore::default();
    assert_eq!(HostPropsMsg::InitHost(init_user("e", "t", AreaKind::TextArea, false)).apply(&mut store), vec![]);
    let p = store.get_host_props();
    assert_eq!(p.host_editor_content, "e");
    assert_eq!(p.host_area_content.content, "t");
    assert_eq!(p.host_area_kind, AreaKind::TextArea);
    assert!(!p.is_communication);
    HostPropsMsg::HostToHost { message: "e2".to_string(), area_kind: AreaKind::Editor }.apply(&mut store);
    assert_eq!(store.get_host_props().host_editor_content, "e2");
    HostPropsMsg::HostSwitchArea(AreaKind::Editor).apply(&mut store);
    assert_eq!(store.get_host_props().host_area_kind, AreaKind::Editor);
}

#[test]
fn client_opens_paint_on_area_in_use() {
    let mut store = HostPropsStore::default();
    HostPropsMsg::InitHost(init_user("e", "t", AreaKind::Editor, true)).apply(&mut store);
    assert_eq!(
        HostPropsMsg::OpenPaint.apply(&mut store),
        vec![Effect::OpenPaintCanvas { key: 1, content: "e".to_string() }]
    );
    HostPropsMsg::HostSwitchArea(AreaKind::TextArea).apply(&mut store);
    assert_eq!(
        HostPropsMsg::OpenPaint.apply(&mut store),
        vec![Effect::OpenPaintCanvas { key: 2, content: "t".to_string() }]
    );
}

// ---- media ----

fn delayed(e: Effect) -> Effect {
    Effect::Later(Box::new(e))
}

#[test]
fn media_defaults() {
    let store = MediaStore::default();
    assert!(store.is_communication());
    assert!(!store.is_screen());
    assert_eq!(store.get_camera().state, EncoderState::new());
    assert_eq!(store.get_microphone().state, EncoderState::new());
}

#[test]
fn host_device_selection() {
    let mut store = MediaStore::default();
    assert_eq!(HostMediaMsg::AudioDeviceInit("mic".to_string()).apply(&mut store), vec![]);
    assert_eq!(store.get_microphone().state.selected, Some("mic".to_string()));
    assert!(store.get_microphone().state.first);
    assert_eq!(
        HostMediaMsg::AudioDeviceChanged("mic2".to_string()).apply(&mut store),
        vec![delayed(Effect::HostMedia(HostMediaMsg::EnableMicrophone(true)))]
    );
    assert!(!store.get_microphone().state.first);
    assert_eq!(
        HostMediaMsg::VideoDeviceInit("cam".to_string()).apply(&mut store),
        vec![delayed(Effect::InitCamera)]
    );
    assert_eq!(
        HostMediaMsg::VideoDeviceChanged("cam2".to_string()).apply(&mut store),
        vec![delayed(Effect::HostMedia(HostMediaMsg::EnableVideo(true)))]
    );
    assert_eq!(store.get_camera().state.selected, Some("cam2".to_string()));
}

#[test]
fn host_enable_and_switch() {
    let mut store = MediaStore::default();
    assert_eq!(HostMediaMsg::EnableMicrophone(true).apply(&mut store), vec![Effect::StartHostMicrophone]);
    assert_eq!(HostMediaMsg::EnableMicrophone(false).apply(&mut store), vec![]);
    assert_eq!(HostMediaMsg::EnableVideo(true).apply(&mut store), vec![Effect::StartHostCamera]);
    assert_eq!(
        HostMediaMsg::SwitchMic(true).apply(&mut store),
        vec![delayed(Effect::HostMedia(HostMediaMsg::EnableMicrophone(true)))]
    );
    assert!(store.get_microphone().state.enabled);
    assert_eq!(HostMediaMsg::SwitchMic(false).apply(&mut store), vec![]);
    assert!(!store.get_microphone().state.enabled);
    assert_eq!(
        HostMediaMsg::SwitchVedeo(true).apply(&mut store),
        vec![
            Effect::OnVisible { visible: false, shown: PageElement::VideoElement, hidden: PageElement::VideoLogo },
            Effect::SendToAll(HostNotice::HostSWitchSelfVideo { message: true }),
            delayed(Effect::HostMedia(HostMediaMsg::EnableVideo(true))),
        ]
    );
    assert_eq!(
        HostMediaMsg::SwitchVedeo(false).apply(&mut store),
        vec![
            Effect::OnVisible { visible: true, shown: PageElement::VideoElement, hidden: PageElement::VideoLogo },
            Effect::SendToAll(HostNotice::HostSWitchSelfVideo { message: false }),
        ]
    );
}

#[test]
fn host_screen_share_cycle() {
    let mut store = MediaStore::default();
    assert_eq!(HostMediaMsg::EnableScreenShare(false).apply(&mut store), vec![]);
    assert_eq!(
        HostMediaMsg::EnableScreenShare(true).apply(&mut store),
        vec![
            Effect::HostMedia(HostMediaMsg::SwitchVedeo(false)),
            Effect::SendToAll(HostNotice::HostIsScreenShare { message: true }),
            Effect::StartScreenShare,
        ]
    );
    assert!(store.is_screen());
    assert_eq!(
        HostMediaMsg::SendIsScreenState(7).apply(&mut store),
        vec![Effect::SendToUser(7, HostNotice::HostIsScreenShare { message: true })]
    );
    assert_eq!(
        HostMediaMsg::ScreenShareEnded.apply(&mut store),
        vec![
            Effect::HostMedia(HostMediaMsg::SwitchVedeo(true)),
            Effect::SendToAll(HostNotice::HostIsScreenShare { message: false }),
            Effect::HostMedia(HostMediaMsg::EnableScreenShare(false)),
        ]
    );
    assert!(!store.is_screen());
}

#[test]
fn host_communication_and_resume() {
    let mut store = MediaStore::default();
    assert_eq!(
        HostMediaMsg::OnCummunication(false).apply(&mut store),
        vec![Effect::SwitchVisible { visible: false, element: PageElement::VideoBox }]
    );
    assert!(!store.is_communication());
    assert_eq!(
        HostMediaMsg::ResumeVideo.apply(&mut store),
        vec![Effect::HostMedia(HostMediaMsg::EnableVideo(true))]
    );
}

#[test]
fn client_media_messages() {
    let mut store = MediaStore::default();
    assert_eq!(ClientMediaMsg::AudioDeviceInit("m".to_string()).apply(&mut store), vec![]);
    assert_eq!(
        ClientMediaMsg::AudioDeviceChanged("m2".to_string()).apply(&mut store),
        vec![delayed(Effect::ClientMedia(ClientMediaMsg::EnableMicrophone(true)))]
    );
    assert_eq!(ClientMediaMsg::EnableMicrophone(true).apply(&mut store), vec![Effect::StartClientMicrophone]);
    assert_eq!(ClientMediaMsg::EnableVideo(true).apply(&mut store), vec![Effect::StartClientCamera]);
    assert_eq!(ClientMediaMsg::EnableVideo(false).apply(&mut store), vec![]);
    assert_eq!(
        ClientMediaMsg::VideoDeviceInit("c".to_string()).apply(&mut store),
        vec![delayed(Effect::InitCamera)]
    );
    assert_eq!(
        ClientMediaMsg::VideoDeviceChanged("c2".to_string()).apply(&mut store),
        vec![delayed(Effect::ClientMedia(ClientMediaMsg::EnableVideo(true)))]
    );
    assert_eq!(
        ClientMediaMsg::SwitchMic(true).apply(&mut store),
        vec![delayed(Effect::ClientMedia(ClientMediaMsg::EnableMicrophone(true)))]
    );
    assert_eq!(
        ClientMediaMsg::SwitchVedeo(false).apply(&mut store),
        vec![
            Effect::OnVisible { visible: true, shown: PageElement::VideoElement, hidden: PageElement::VideoLogo },
            Effect::SendToHost(ClientNotice::ClientSwitchVideo { message: true }),
        ]
    );
    assert_eq!(
        ClientMediaMsg::OnCummunication(false).apply(&mut store),
        vec![Effect::SwitchVisible { visible: false, element: PageElement::VideoBox }]
    );
    assert!(!store.is_communication());
    assert_eq!(ClientMediaMsg::SetCommunication(true).apply(&mut store), vec![]);
    assert!(store.is_communication());
}

#[test]
fn media_mutable_access() {
    let mut store = MediaStore::default();
    store.get_mut_camera().set_enabled(true);
    store.get_mut_microphone().select("m".to_string());
    store.set_communication(false);
    assert!(store.get_camera().get_enabled());
    assert_eq!(store.get_microphone().state.selected, Some("m".to_string()));
    assert!(!store.is_communication());
}

// ---- routing ----

#[test]
fn host_routes_new_client() {
    let mut hs = HostStore::default();
    assert_eq!(
        Msg::AddClient(3).apply(&mut hs),
        vec![
            Effect::HostHost(HostHostMsg::AddClient(3)),
            Effect::ClientItems(ClientItemMsg::AddClient(3)),
            Effect::HostMedia(HostMediaMsg::SendIsScreenState(3)),
        ]
    );
    assert_eq!(
        Msg::DisconnectClient(3).apply(&mut hs),
        vec![Effect::ClientItems(ClientItemMsg::DisconnectClient(3))]
    );
}

#[test]
fn host_routes_client_content() {
    let mut hs = HostStore::default();
    assert_eq!(
        Msg::ClientToClient(2, "x".to_string(), AreaKind::Editor).apply(&mut hs),
        vec![
            Effect::ClientItems(ClientItemMsg::SetEditorContent(2, "x".to_string())),
            Effect::HostClient(HostClientMsg::SetEditorContent(2, "x".to_string())),
        ]
    );
    assert_eq!(
        Msg::ClientToClient(2, "y".to_string(), AreaKind::TextArea).apply(&mut hs),
        vec![
            Effect::ClientItems(ClientItemMsg::SetTextAreaContent(2, "y".to_string())),
            Effect::HostClient(HostClientMsg::SetTextAreaContent(2, "y".to_string())),
        ]
    );
    assert_eq!(
        Msg::ClientSwitchArea(2, AreaKind::Editor).apply(&mut hs),
        vec![
            Effect::HostClient(HostClientMsg::ClientSwitchArea(2, AreaKind::Editor)),
            Effect::ClientItems(ClientItemMsg::ClientSwitchArea(2, AreaKind::Editor)),
        ]
    );
    assert_eq!(
        Msg::ClientSwitchVideo(2, true).apply(&mut hs),
        vec![Effect::ShowClientVideo { user_id: 2, visible: true }]
    );
}

#[test]
fn host_routes_sends() {
    let mut hs = HostStore::default();
    assert!(!Msg::SendMessage(HostNotice::OpenPaint).accepts(&hs));
    assert!(!Msg::SendMessageToUser(1, HostNotice::OpenPaint).accepts(&hs));
    assert_eq!(Msg::Init(77).apply(&mut hs), vec![]);
    assert_eq!(hs.session_id(), Some(77));
    assert!(Msg::SendMessage(HostNotice::OpenPaint).accepts(&hs));
    assert_eq!(
        Msg::SendMessage(HostNotice::OpenPaint).apply(&mut hs),
        vec![Effect::SendToAll(HostNotice::OpenPaint)]
    );
    assert_eq!(
        Msg::SendMessageToUser(1, HostNotice::ClosePaint).apply(&mut hs),
        vec![Effect::SendToUser(1, HostNotice::ClosePaint)]
    );
    assert_eq!(
        Msg::InitClient(1, init_user("", "", AreaKind::TextArea, false)).apply(&mut hs),
        vec![Effect::ClientItems(ClientItemMsg::InitClient(1, init_user("", "", AreaKind::TextArea, false)))]
    );
}

#[test]
fn host_receive_tags_sender() {
    assert_eq!(
        host_receive(4, ClientNotice::ClientSwitchVideo { message: false }),
        Msg::ClientSwitchVideo(4, false)
    );
    assert_eq!(
        host_receive(4, ClientNotice::ClientToClient { message: "m".to_string(), area_kind: AreaKind::Editor }),
        Msg::ClientToClient(4, "m".to_string(), AreaKind::Editor)
    );
    assert_eq!(
        host_receive(4, ClientNotice::ClientSwitchArea { message: AreaKind::TextArea }),
        Msg::ClientSwitchArea(4, AreaKind::TextArea)
    );
    assert_eq!(
        host_receive(4, ClientNotice::InitClient { message: init_user("a", "b", AreaKind::Editor, false) }),
        Msg::InitClient(4, init_user("a", "b", AreaKind::Editor, false))
    );
}

#[test]
fn client_routes_messages() {
    let mut cs = ClientStore::default();
    assert!(!ClientMsg::SendMessage(ClientNotice::ClientSwitchVideo { message: true }).accepts(&cs));
    assert!(ClientMsg::OpenPaint.accepts(&cs));
    assert_eq!(ClientMsg::Init(5).apply(&mut cs), vec![]);
    assert_eq!(cs.session_id(), Some(5));
    assert_eq!(ClientMsg::SendStateToHost.apply(&mut cs), vec![Effect::ClientProps(ClientPropsMsg::SendStateToHost)]);
    assert_eq!(
        ClientMsg::HostIsScreenShare(true).apply(&mut cs),
        vec![
            Effect::OnVisible { visible: true, shown: PageElement::Container, hidden: PageElement::ScreenContainer },
            Effect::SwitchVisible { visible: false, element: PageElement::VideoContainer },
        ]
    );
    assert_eq!(
        ClientMsg::OnCummunication { message: true }.apply(&mut cs),
        vec![Effect::ClientMedia(ClientMediaMsg::OnCummunication(true))]
    );
    assert_eq!(ClientMsg::OpenPaint.apply(&mut cs), vec![Effect::HostProps(HostPropsMsg::OpenPaint)]);
    assert_eq!(
        ClientMsg::SendMessage(ClientNotice::ClientSwitchVideo { message: true }).apply(&mut cs),
        vec![Effect::SendToHost(ClientNotice::ClientSwitchVideo { message: true })]
    );
}

#[test]
fn client_receive_cases() {
    assert_eq!(
        client_receive(HostNotice::HostToHost { message: "m".to_string(), area_kind: AreaKind::Editor }),
        vec![Effect::Client(ClientMsg::HostToHost { message: "m".to_string(), area_kind: AreaKind::Editor })]
    );
    assert_eq!(
        client_receive(HostNotice::HostIsScreenShare { message: false }),
        vec![Effect::OnVisible { visible: false, shown: PageElement::Container, hidden: PageElement::ScreenContainer }]
    );
    assert_eq!(client_receive(HostNotice::HostSWitchSelfVideo { message: true }), vec![]);
    assert_eq!(client_receive(HostNotice::ClosePaint), vec![]);
}

#[test]
fn own_media_goes_to_host_first() {
    let mut store = MediaStore::default();
    assert_eq!(store.own_media_targets(), vec![MediaTarget::Host, MediaTarget::Peers]);
    store.set_communication(false);
    assert_eq!(store.own_media_targets(), vec![MediaTarget::Host]);
}

#[test]
fn agenda_runs_what_an_effect_asks_for_first() {
    let mut agenda = Agenda::new(vec![Effect::InitCamera, Effect::StartScreenShare]);
    assert_eq!(agenda.next(), Some(Effect::InitCamera));
    agenda.prepend(vec![Effect::StartHostCamera, Effect::StartHostMicrophone]);
    assert_eq!(agenda.next(), Some(Effect::StartHostCamera));
    assert_eq!(agenda.next(), Some(Effect::StartHostMicrophone));
    assert_eq!(agenda.next(), Some(Effect::StartScreenShare));
    assert_eq!(agenda.next(), None);
}

#[test]
fn screen_share_hides_own_video_before_announcing() {
    let mut store = MediaStore::default();
    let mut agenda = Agenda::new(vec![Effect::HostMedia(HostMediaMsg::EnableScreenShare(true))]);
    let mut sent: Vec<HostNotice> = Vec::new();
    while let Some(e) = agenda.next() {
        match e {
            Effect::HostMedia(m) => agenda.prepend(m.apply(&mut store)),
            Effect::SendToAll(n) => sent.push(n),
            _ => {}
        }
    }
    assert_eq!(
        sent,
        vec![
            HostNotice::HostSWitchSelfVideo { message: false },
            HostNotice::HostIsScreenShare { message: true },
        ]
    );
}
