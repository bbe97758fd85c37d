use vstd::prelude::*;

verus! {

/// How a player interprets the position: it shifts where the player turns up
/// and what the player tries with the ball.
#[derive(Clone, Copy, PartialEq, Eq, Structural, Debug, Hash)]
pub enum PlayStyle {
    /// Goalkeepers.
    Sweeper,
    /// Centre-backs.
    BallPlaying,
    /// Wide players.
    Wide,
    /// Wingers.
    CutInside,
    TrackBack,
    /// Full-backs.
    Inverted,
    /// Midfielders.
    BoxToBox,
    /// Forwards.
    False9,
    Playmaker,
    Default,
}

} // verus!
