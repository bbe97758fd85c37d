use vstd::prelude::*;

verus! {

/// Where on the pitch a player lines up.
#[derive(Clone, Copy, PartialEq, Eq, Structural, Debug, Hash)]
pub enum Position {
    Goalkeeper,
    LeftBack,
    CenterBack,
    RightBack,
    LeftWingBack,
    RightWingBack,
    DefensiveMidfield,
    CenterMidfield,
    AttackingMidfield,
    LeftMidfield,
    RightMidfield,
    LeftWing,
    RightWing,
    Striker,
}

} // verus!
