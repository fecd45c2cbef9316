use std::collections::HashMap;

use vstd::prelude::*;

use crate::video_tick::models::{Message, Player, PlayerInput};

verus! {

broadcast use vstd::std_specs::hash::group_hash_axioms;

/// The game host's state: its own player, the joined players by user id, the
/// host's input, and the number given to joining players.
pub struct HostGameInner {
    host_player: Option<Player>,
    players: HashMap<u64, Player>,
    player_input: PlayerInput,
    game_started: bool,
    joining_number: usize,
}

/// What the game host holds.
pub struct HostGameView {
    pub host_player: Option<Player>,
    pub players: Map<u64, Player>,
    pub player_input: PlayerInput,
    pub game_started: bool,
    pub joining_number: usize,
}

impl View for HostGameInner {
    type V = HostGameView;

    closed spec fn view(&self) -> HostGameView {
        HostGameView {
            host_player: self.host_player,
            players: self.players@,
            player_input: self.player_input,
            game_started: self.game_started,
            joining_number: self.joining_number,
        }
    }
}

/// The players sent to clients: each joined player once, by its user id in
/// some order, then the host's own player.
pub open spec fn entities_of(r: Seq<Player>, players: Map<u64, Player>, host: Player) -> bool {
    &&& r.len() == players.len() + 1
    &&& r.last() == host
    &&& exists|ids: Seq<u64>|
        #![trigger ids.to_set()]
        ids.no_duplicates() && ids.to_set() == players.dom() && r.drop_last() == ids.map_values(
            |id: u64| players[id],
        )
}

impl HostGameInner {
    /// A host that has not started: no players, the given local input.
    pub fn new(player_input: PlayerInput) -> (r: Self)
        ensures
            r@ == (HostGameView {
                host_player: None,
                players: Map::empty(),
                player_input,
                game_started: false,
                joining_number: 0,
            }),
    {
        Self {
            host_player: None,
            players: HashMap::new(),
            player_input,
            game_started: false,
            joining_number: 0,
        }
    }

    /// Creates the host's own player, number 1, and fixes the number that
    /// joining players get: the number of players joined so far.
    pub fn init(&mut self)
        ensures
            final(self)@.host_player matches Some(p) && p.number == 1 && p.current_input.value@
                == Seq::<char>::empty(),
            final(self)@.joining_number == old(self)@.players.len(),
            final(self)@.players == old(self)@.players,
            final(self)@.player_input == old(self)@.player_input,
            final(self)@.game_started == old(self)@.game_started,
    {
        self.host_player = Some(Player::new(1));
        self.joining_number = self.players.len();
    }

    /// Whether the host's own player was created.
    pub fn started(&self) -> (r: bool)
        ensures
            r == self@.host_player is Some,
    {
        self.host_player.is_some()
    }

    /// Whether a player with this user id joined.
    pub fn has_player(&self, user_id: u64) -> (r: bool)
        ensures
            r == self@.players.contains_key(user_id),
    {
        self.players.contains_key(&user_id)
    }

    /// The players to send: copies of the joined players, then the host's own.
    pub fn get_player_entities(&self) -> (r: Vec<Player>)
        requires
            self@.host_player is Some,
        ensures
            entities_of(r@, self@.players, self@.host_player->0),
    {
        let host = match &self.host_player {
            Some(host) => host.duplicate(),
            None => Player::new(1),
        };
        let mut v: Vec<Player> = Vec::new();
        let ghost ids = vstd::std_specs::iter::IteratorSpec::remaining(&vstd::std_specs::hash::spec_keys_iter(&self.players)).unref();
        for id in it: self.players.keys()
            invariant
                it.seq().unref() == ids,
                ids.to_set() == self@.players.dom(),
                v.len() == it.index(),
                forall|i: int| 0 <= i < v.len() ==> v@[i] == self@.players[ids[i]],
        {
            proof {
                assert(ids.contains(ids[it.index() as int]));
            }
            match self.players.get(id) {
                Some(player) => v.push(player.duplicate()),
                None => {},
            }
        }
        proof {
            assert(v@ =~= ids.map_values(|id: u64| self@.players[id]));
        }
        v.push(host);
        proof {
            assert(v@.drop_last() =~= ids.map_values(|id: u64| self@.players[id]));
            assert(ids.no_duplicates());
            ids.unique_seq_to_set();
        }
        v
    }

    /// A client joined: it is sent the players so far, the game counts as
    /// started, and the client becomes a player with the joining number.
    pub fn on_open(&mut self, user_id: u64) -> (r: Message)
        requires
            old(self)@.host_player is Some,
        ensures
            r matches Message::GameInit { players } && entities_of(
                players@,
                old(self)@.players,
                old(self)@.host_player->0,
            ),
            final(self)@.game_started,
            final(self)@.players.dom() == old(self)@.players.dom().insert(user_id),
            final(self)@.players[user_id].number == old(self)@.joining_number,
            final(self)@.players[user_id].current_input.value@ == Seq::<char>::empty(),
            forall|u: u64|
                u != user_id && old(self)@.players.contains_key(u) ==> final(self)@.players[u] == old(
                    self,
                )@.players[u],
            final(self)@.host_player == old(self)@.host_player,
            final(self)@.player_input == old(self)@.player_input,
            final(self)@.joining_number == old(self)@.joining_number,
    {
        let players = self.get_player_entities();
        self.game_started = true;
        self.players.insert(user_id, Player::new(self.joining_number));
        Message::GameInit { players }
    }

    /// A joined player's input arrived.
    pub fn on_message(&mut self, user_id: u64, input: PlayerInput)
        requires
            old(self)@.players.contains_key(user_id),
        ensures
            final(self)@ == (HostGameView {
                players: old(self)@.players.insert(
                    user_id,
                    Player { current_input: input, ..old(self)@.players[user_id] },
                ),
                ..old(self)@
            }),
    {
        match self.players.remove(&user_id) {
            Some(mut player) => {
                player.set_input(input);
                self.players.insert(user_id, player);
                assert(self.players@ =~= old(self)@.players.insert(user_id, player));
            },
            None => {},
        }
    }

    /// One frame on the host: the host's text becomes its input, and every
    /// client is sent the players with both texts.
    pub fn tick(&mut self, host_value: String, client_value: String) -> (r: Message)
        requires
            old(self)@.host_player is Some,
        ensures
            ({
                let input = PlayerInput { value: host_value };
                let new_host = Player { current_input: input, ..old(self)@.host_player->0 };
                &&& final(self)@ == (HostGameView {
                    host_player: Some(new_host),
                    player_input: input,
                    ..old(self)@
                })
                &&& r matches Message::GameState { players, host_value: h, client_value: c }
                    && entities_of(players@, old(self)@.players, new_host) && h == host_value && c
                    == client_value
            }),
    {
        self.player_input.value = host_value.clone();
        let input = self.player_input.duplicate();
        match &mut self.host_player {
            Some(host) => host.set_input(input),
            None => {},
        }
        let players = self.get_player_entities();
        Message::GameState { players, host_value, client_value }
    }

    /// The host's game never ends.
    pub fn ended(&self) -> (r: bool)
        ensures
            !r,
    {
        false
    }

    /// A copy of the joined players.
    pub fn get_players(&self) -> (r: HashMap<u64, Player>)
        ensures
            r@ == self@.players,
    {
        self.players.clone()
    }
}

} // verus!
