use vstd::prelude::*;

verus! {

/// What a player typed.
#[derive(PartialEq, Clone, Debug)]
pub struct PlayerInput {
    pub value: String,
}

impl Default for PlayerInput {
    /// Nothing typed.
    fn default() -> (r: Self)
        ensures
            r.value@ == Seq::<char>::empty(),
    {
        PlayerInput { value: String::new() }
    }
}

impl PlayerInput {
    /// A copy with equal fields.
    pub fn duplicate(&self) -> (r: Self)
        ensures
            r == *self,
    {
        PlayerInput { value: self.value.clone() }
    }
}

/// A player of the shared game: its number and latest input.
#[derive(PartialEq, Clone, Debug)]
pub struct Player {
    pub number: usize,
    pub current_input: PlayerInput,
}

impl Player {
    /// A player with nothing typed yet.
    pub fn new(number: usize) -> (r: Self)
        ensures
            r.number == number,
            r.current_input.value@ == Seq::<char>::empty(),
    {
        Self { number, current_input: PlayerInput::default() }
    }

    pub fn set_input(&mut self, input: PlayerInput)
        ensures
            *final(self) == (Player { current_input: input, ..*old(self) }),
    {
        self.current_input = input;
    }

    /// A copy of the latest input.
    pub fn get_input(&self) -> (r: PlayerInput)
        ensures
            r == self.current_input,
    {
        self.current_input.duplicate()
    }

    /// A copy with equal fields.
    pub fn duplicate(&self) -> (r: Self)
        ensures
            r == *self,
    {
        Player { number: self.number, current_input: self.current_input.duplicate() }
    }
}

/// What the game host sends to its clients.
#[derive(PartialEq, Debug)]
pub enum Message {
    GameInit { players: Vec<Player> },
    GameState { players: Vec<Player>, host_value: String, client_value: String },
    GoalScored,
    GameEnded,
}

/// The game page's own events.
#[derive(PartialEq, Eq, Structural, Clone, Copy, Debug)]
pub enum GameMsg {
    CopyLink,
    Init,
    Tick,
}

/// The initial local input: the text already in the page's text area, or
/// nothing when the page has none.
pub fn local_player_input(text_area_value: Option<String>) -> (r: PlayerInput)
    ensures
        match text_area_value {
            Some(v) => r.value == v,
            None => r.value@ == Seq::<char>::empty(),
        },
{
    match text_area_value {
        Some(value) => PlayerInput { value },
        None => PlayerInput::default(),
    }
}

} // verus!
