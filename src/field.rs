//! Which of the three buffers has the focus, and the cursor coordinates.
use vstd::prelude::*;

verus! {

/// The buffer that receives character input.
#[derive(Debug, Clone, Copy, PartialEq, Eq, Structural)]
pub enum CurrentField {
    Regex,
    Text,
    Matches,
}

/// The focus that follows `f` in the rotation Regex, Text, Matches, Regex.
pub open spec fn next_field(f: CurrentField) -> CurrentField {
    match f {
        CurrentField::Regex => CurrentField::Text,
        CurrentField::Text => CurrentField::Matches,
        CurrentField::Matches => CurrentField::Regex,
    }
}

impl CurrentField {
    /// Moves the focus one step along the rotation.
    pub fn next(&mut self)
        ensures
            *final(self) == next_field(*old(self)),
    {
        match self {
            CurrentField::Regex => *self = CurrentField::Text,
            CurrentField::Text => *self = CurrentField::Matches,
            CurrentField::Matches => *self = CurrentField::Regex,
        }
    }

    pub fn is_text(&self) -> (r: bool)
        ensures
            r == (*self is Text),
    {
        *self == CurrentField::Text
    }

    pub fn is_regex(&self) -> (r: bool)
        ensures
            r == (*self is Regex),
    {
        *self == CurrentField::Regex
    }

    pub fn is_matches(&self) -> (r: bool)
        ensures
            r == (*self is Matches),
    {
        *self == CurrentField::Matches
    }
}

/// Three steps of the rotation bring any focus back to where it started.
pub proof fn lemma_next_three_times(f: CurrentField)
    ensures
        next_field(next_field(next_field(f))) == f,
{
}

/// A cursor: `x` is the column (an insertion point, at most the line's
/// length) and `y` the line.
#[derive(Debug, Clone, Copy, PartialEq, Eq, Structural, Default)]
pub struct Position {
    pub x: u16,
    pub y: u16,
}

} // verus!
