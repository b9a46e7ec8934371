use vstd::prelude::*;

verus! {

/// How a game is set up.
#[derive(Debug)]
pub struct Settings {
    pub player_count: usize,
}

impl Settings {
    pub fn new(player_count: usize) -> (s: Self)
        ensures
            s.player_count == player_count,
    {
        Self { player_count }
    }
}

impl Default for Settings {
    /// A game for a single player.
    fn default() -> (s: Self)
        ensures
            s.player_count == 1,
    {
        Self { player_count: 1 }
    }
}

} // verus!
