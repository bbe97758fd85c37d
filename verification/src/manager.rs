use vstd::prelude::*;

verus! {

/// The manager on the bench.
#[derive(Debug)]
pub struct Manager {
    pub id: u32,
    pub name: String,
    /// Reading of the game.
    pub tactical: u8,
    /// Handling of the squad.
    pub management: u8,
    /// Work on the training ground.
    pub coaching: u8,
}

} // verus!
