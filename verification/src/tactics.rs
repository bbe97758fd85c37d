use vstd::prelude::*;

verus! {

/// The flank, if any, that a team favours when it attacks.
#[derive(Clone, Copy, PartialEq, Eq, Structural, Debug, Hash)]
pub enum Width {
    Central,
    Left,
    Right,
    Balanced,
}

/// A team's instructions for the match.
#[derive(Clone, Copy, Debug)]
pub struct Tactics {
    /// A higher line presses more, and is more exposed when the press fails.
    pub defense_line: u8,
    /// A more compact team gives up width and is harder to play through.
    pub compactness: u8,
    /// More aggression means more tackles.
    pub aggression: u8,
    /// A faster build-up is riskier and creates more chances.
    pub build_up_speed: u8,
    /// Where the team attacks.
    pub attack_width: Width,
    /// Shoot on sight: more shots, more of them off target.
    pub shoot_more_often: bool,
    /// Look for the cross.
    pub cross_more_often: bool,
    /// Longer passes lose the ball more often.
    pub pass_range: u8,
}

} // verus!
