use live_lesson::models::commons::AreaKind;
use live_lesson::stores::client_items_store::{ClientItemMsg, ClientItemsStore};
use live_lesson::stores::client_props_store::{ClientPropsMsg, ClientPropsStore, HostClientMsg};
use live_lesson::stores::client_store::{client_receive, ClientMsg, ClientStore};
use live_lesson::stores::effects::Effect;
use live_lesson::stores::host_props_store::{HostHostMsg, HostPropsMsg, HostPropsStore};
use live_lesson::stores::host_store::{host_receive, HostStore};
use live_lesson::video_tick::client::ClientGameInner;
use live_lesson::video_tick::host::HostGameInner;
use live_lesson::video_tick::models::{local_player_input, GameMsg, Message, Player, PlayerInput};

/// Delivers the host's effects to one client's host area, as the network
/// and the client's routing would.
fn deliver_to_client(effects: Vec<Effect>, client: &mut HostPropsStore, client_area: &mut ClientPropsStore) {
    for e in effects {
        let notice = match e {
            Effect::SendToAll(n) => n,
            Effect::SendToUser(_, n) => n,
            _ => continue,
        };
        for c in client_receive(notice) {
            if let Effect::Client(cmsg) = c {
                for step in cmsg.apply(&mut ClientStore::default()) {
                    match step {
                        Effect::HostProps(m) => {
                            m.apply(client);
                        }
                        Effect::ClientProps(m) => {
                            m.apply(client_area);
                        }
                        _ => {}
                    }
                }
            }
        }
    }
}

/// Delivers a client's effects to the host's records, as the network and
/// the host's routing would.
fn deliver_to_host(
    user_id: u64,
    effects: Vec<Effect>,
    records: &mut ClientItemsStore,
    host_area: &mut ClientPropsStore,
) {
    for e in effects {
        if let Effect::SendToHost(notice) = e {
            for step in host_receive(user_id, notice).apply(&mut HostStore::default()) {
                match step {
                    Effect::ClientItems(m) => {
                        m.apply(records);
                    }
                    Effect::HostClient(m) => {
                        m.apply(host_area);
                    }
                    _ => {}
                }
            }
        }
    }
}

#[test]
fn host_edit_reaches_client() {
    let mut host = HostPropsStore::default();
    let mut client = HostPropsStore::default();
    let mut client_area = ClientPropsStore::default();
    let sent = HostHostMsg::HostUpdateValue("let x = 1;".to_string()).apply(&mut host);
    deliver_to_client(sent, &mut client, &mut client_area);
    assert_eq!(client.get_host_props(), host.get_host_props());
}

#[test]
fn host_switch_reaches_client() {
    let mut host = HostPropsStore::default();
    let mut client = HostPropsStore::default();
    let mut client_area = ClientPropsStore::default();
    let sent = HostHostMsg::SwitchHostArea(AreaKind::TextArea).apply(&mut host);
    deliver_to_client(sent, &mut client, &mut client_area);
    let sent = HostHostMsg::HostUpdateValue("notes".to_string()).apply(&mut host);
    deliver_to_client(sent, &mut client, &mut client_area);
    assert_eq!(client.get_host_props(), host.get_host_props());
}

#[test]
fn joining_client_copies_host_area() {
    let mut host = HostPropsStore::default();
    HostHostMsg::HostUpdateValue("code".to_string()).apply(&mut host);
    HostHostMsg::SwitchHostArea(AreaKind::TextArea).apply(&mut host);
    HostHostMsg::HostUpdateValue("text".to_string()).apply(&mut host);
    HostHostMsg::OnCummunication.apply(&mut host);
    let mut client = HostPropsStore::default();
    HostPropsMsg::HostToHost { message: "stale".to_string(), area_kind: AreaKind::Editor }.apply(&mut client);
    let mut client_area = ClientPropsStore::default();
    let sent = HostHostMsg::AddClient(9).apply(&mut host);
    deliver_to_client(sent, &mut client, &mut client_area);
    let h = host.get_host_props();
    let c = client.get_host_props();
    assert_eq!(c.host_editor_content, h.host_editor_content);
    assert_eq!(c.host_area_content.content, h.host_area_content.content);
    assert_eq!(c.host_area_kind, h.host_area_kind);
    assert_eq!(c.is_communication, h.is_communication);
}

#[test]
fn client_edit_reaches_host_record() {
    let mut records = ClientItemsStore::default();
    let mut host_area = ClientPropsStore::default();
    ClientItemMsg::AddClient(2).apply(&mut records);
    ClientItemMsg::AddClient(3).apply(&mut records);
    let mut client = ClientPropsStore::default();
    let sent = ClientPropsMsg::SwitchArea(AreaKind::Editor).apply(&mut client);
    deliver_to_host(2, sent, &mut records, &mut host_area);
    let sent = ClientPropsMsg::UpdateClientValue("print(1)".to_string()).apply(&mut client);
    deliver_to_host(2, sent, &mut records, &mut host_area);
    let players = records.get_players();
    assert_eq!(players[&2].editor_content, client.get_client_props().client_editor_content);
    assert_eq!(players[&2].area_kind, AreaKind::Editor);
    assert_eq!(players[&3].editor_content, "");
}

#[test]
fn client_text_reaches_host_record() {
    let mut records = ClientItemsStore::default();
    let mut host_area = ClientPropsStore::default();
    ClientItemMsg::AddClient(2).apply(&mut records);
    let mut client = ClientPropsStore::default();
    let sent = ClientPropsMsg::UpdateClientTextArea("answer".to_string()).apply(&mut client);
    deliver_to_host(2, sent, &mut records, &mut host_area);
    let players = records.get_players();
    assert_eq!(players[&2].text_area_content, "answer");
    assert_eq!(players[&2].area_kind, AreaKind::TextArea);
}

#[test]
fn host_writes_to_chosen_client() {
    let mut records = ClientItemsStore::default();
    ClientItemMsg::AddClient(5).apply(&mut records);
    ClientItemMsg::SetEditorContent(5, "old".to_string()).apply(&mut records);
    let mut host_area = ClientPropsStore::default();
    for e in ClientItemMsg::ChooseItem("5".to_string()).apply(&mut records) {
        if let Effect::HostClient(m) = e {
            m.apply(&mut host_area);
        }
    }
    assert_eq!(host_area.get_client_props().client_editor_content, "old");
    let mut client_copy = HostPropsStore::default();
    let mut client_area = ClientPropsStore::default();
    let effects = HostClientMsg::HostClientToClient("new".to_string()).apply(&mut host_area);
    for e in effects.iter() {
        if let Effect::ClientItems(ClientItemMsg::SetEditorContent(u, c)) = e {
            ClientItemMsg::SetEditorContent(*u, c.clone()).apply(&mut records);
        }
    }
    deliver_to_client(effects, &mut client_copy, &mut client_area);
    assert_eq!(host_area.get_client_props().client_editor_content, "new");
    assert_eq!(records.get_players()[&5].editor_content, "new");
    assert_eq!(client_area.get_client_props().client_editor_content, "new");
}

#[test]
fn host_writes_text_to_chosen_client() {
    let mut records = ClientItemsStore::default();
    ClientItemMsg::AddClient(6).apply(&mut records);
    let mut host_area = ClientPropsStore::default();
    for e in ClientItemMsg::ChooseItem("6".to_string()).apply(&mut records) {
        if let Effect::HostClient(m) = e {
            m.apply(&mut host_area);
        }
    }
    let mut client_copy = HostPropsStore::default();
    let mut client_area = ClientPropsStore::default();
    let effects = HostClientMsg::HostClientToClient("note".to_string()).apply(&mut host_area);
    for e in effects.iter() {
        if let Effect::ClientItems(ClientItemMsg::SetTextAreaContent(u, c)) = e {
            ClientItemMsg::SetTextAreaContent(*u, c.clone()).apply(&mut records);
        }
    }
    deliver_to_client(effects, &mut client_copy, &mut client_area);
    assert_eq!(host_area.get_client_props().client_text_area.content, "note");
    assert_eq!(records.get_players()[&6].text_area_content, "note");
    assert_eq!(client_area.get_client_props().client_text_area.content, "note");
}

#[test]
fn client_routes_host_to_client_and_init() {
    let effects = ClientMsg::HostToClient { message: "m".to_string(), area_kind: AreaKind::TextArea }.apply(&mut ClientStore::default());
    assert_eq!(
        effects,
        vec![Effect::ClientProps(ClientPropsMsg::HostToClient { message: "m".to_string(), area_kind: AreaKind::TextArea })]
    );
}

// ---- game ----

#[test]
fn game_host_needs_own_player() {
    let mut host = HostGameInner::new(PlayerInput::default());
    assert!(!host.started());
    assert!(host.get_players().is_empty());
    assert!(!host.ended());
    host.init();
    assert!(host.started());
}

#[test]
fn game_host_init_and_join() {
    let mut host = HostGameInner::new(local_player_input(Some("hi".to_string())));
    host.init();
    assert_eq!(host.get_player_entities(), vec![Player::new(1)]);
    assert_eq!(host.on_open(7), Message::GameInit { players: vec![Player::new(1)] });
    let players = host.get_players();
    assert_eq!(players.len(), 1);
    assert_eq!(players[&7], Player::new(0));
    assert!(host.has_player(7));
    assert!(!host.has_player(8));
}

#[test]
fn game_host_lists_each_player_once() {
    let mut host = HostGameInner::new(PlayerInput::default());
    host.init();
    host.on_open(1);
    host.on_open(2);
    host.on_open(3);
    let entities = host.get_player_entities();
    assert_eq!(entities.len(), 4);
    assert_eq!(entities[3], Player::new(1));
    assert_eq!(entities[..3].iter().filter(|p| **p == Player::new(0)).count(), 3);
}

#[test]
fn game_host_input_and_tick() {
    let mut host = HostGameInner::new(PlayerInput::default());
    host.init();
    host.on_open(7);
    host.on_message(7, PlayerInput { value: "abc".to_string() });
    assert_eq!(host.get_players()[&7].get_input(), PlayerInput { value: "abc".to_string() });
    match host.tick("host text".to_string(), "client text".to_string()) {
        Message::GameState { players, host_value, client_value } => {
            assert_eq!(host_value, "host text");
            assert_eq!(client_value, "client text");
            assert_eq!(players.len(), 2);
            assert_eq!(players[0].current_input.value, "abc");
            assert_eq!(players[1].number, 1);
            assert_eq!(players[1].current_input.value, "host text");
        }
        other => panic!("unexpected {:?}", other),
    }
}

#[test]
fn game_client_tick_and_messages() {
    let mut client = ClientGameInner::new(local_player_input(None));
    assert_eq!(client.player_input.value, "");
    assert_eq!(client.tick("typed".to_string()), PlayerInput { value: "typed".to_string() });
    assert_eq!(client.on_message(Message::GameInit { players: vec![Player::new(1)] }), None);
    assert_eq!(client.players, vec![Player::new(1)]);
    assert_eq!(
        client.on_message(Message::GameState {
            players: vec![],
            host_value: "h".to_string(),
            client_value: "c".to_string()
        }),
        Some(("h".to_string(), "c".to_string()))
    );
    assert!(client.players.is_empty());
    assert_eq!(client.player_input.value, "typed");
}

#[test]
fn player_setters() {
    let mut p = Player::new(3);
    p.set_input(PlayerInput { value: "v".to_string() });
    assert_eq!(p.get_input().value, "v");
    assert_eq!(p.duplicate(), p);
    assert_eq!(GameMsg::Tick, GameMsg::Tick);
}
