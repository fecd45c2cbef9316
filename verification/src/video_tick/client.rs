use vstd::prelude::*;

use crate::video_tick::models::{Message, Player, PlayerInput};

verus! {

/// A game client's state: the players last received and its own input.
pub struct ClientGameInner {
    pub players: Vec<Player>,
    pub player_input: PlayerInput,
}

impl ClientGameInner {
    pub fn new(player_input: PlayerInput) -> (r: Self)
        ensures
            r.players@ == Seq::<Player>::empty(),
            r.player_input == player_input,
    {
        Self { players: Vec::new(), player_input }
    }

    /// One frame on a client: its text becomes its input, which is sent to the host.
    pub fn tick(&mut self, value: String) -> (r: PlayerInput)
        ensures
            final(self).player_input == (PlayerInput { value }),
            final(self).players == old(self).players,
            r == final(self).player_input,
    {
        self.player_input.value = value;
        self.player_input.duplicate()
    }

    /// A message from the host, a first or a later game state: the players
    /// are replaced; a later state also gives the host's and the client's
    /// texts to show.
    pub fn on_message(&mut self, message: Message) -> (r: Option<(String, String)>)
        requires
            message is GameInit || message is GameState,
        ensures
            final(self).player_input == old(self).player_input,
            match message {
                Message::GameInit { players } => r is None && final(self).players == players,
                Message::GameState { players, host_value, client_value } => r == Some((host_value, client_value))
                    && final(self).players == players,
                _ => true,
            },
    {
        match message {
            Message::GameInit { players } => {
                self.players = players;
                None
            },
            Message::GameState { players, host_value, client_value } => {
                self.players = players;
                Some((host_value, client_value))
            },
            _ => None,
        }
    }
}

} // verus!
