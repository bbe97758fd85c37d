use vstd::prelude::*;

verus! {

/// The four regions of the pitch in which a possession can be played.
#[derive(Clone, Copy, PartialEq, Eq, Structural, Debug, Hash)]
pub enum FieldZone {
    Left,
    Right,
    Center,
    Box,
}

/// One of the two sides of the pitch.
#[derive(Clone, Copy, PartialEq, Eq, Structural, Debug, Hash)]
pub enum Flank {
    Left,
    Right,
}

impl FieldZone {
    /// The zone's name as text.
    pub open spec fn label_text(self) -> Seq<char> {
        match self {
            FieldZone::Left => "Left"@,
            FieldZone::Right => "Right"@,
            FieldZone::Center => "Center"@,
            FieldZone::Box => "Box"@,
        }
    }

    /// The zone's name, for display.
    pub fn label(&self) -> (text: &'static str)
        ensures
            text@ == self.label_text(),
    {
        match self {
            FieldZone::Left => "Left",
            FieldZone::Right => "Right",
            FieldZone::Center => "Center",
            FieldZone::Box => "Box",
        }
    }
}

} // verus!
