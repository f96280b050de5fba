//! The three things that a request to move the cursor can do.

use vstd::prelude::*;

verus! {

/// What became of a request to move the cursor.
#[derive(Debug, Copy, Clone, PartialEq, Eq, Structural)]
pub enum Movement {
    /// The cursor could not move; nothing has changed.
    NoMove,
    /// The cursor moved and the viewport stayed where it was.
    MovedOnly,
    /// The cursor moved and the viewport scrolled after it.
    MovedAndScrolled,
}

impl Movement {
    /// The movement as an optional flag: nothing where the cursor did not
    /// move, else whether the viewport scrolled.
    pub open spec fn spec_to_option(self) -> Option<bool> {
        match self {
            Movement::NoMove => None,
            Movement::MovedOnly => Some(false),
            Movement::MovedAndScrolled => Some(true),
        }
    }

    /// The movement that an optional flag stands for.
    pub open spec fn spec_from_option(outcome: Option<bool>) -> Movement {
        match outcome {
            None => Movement::NoMove,
            Some(false) => Movement::MovedOnly,
            Some(true) => Movement::MovedAndScrolled,
        }
    }

    /// The movement of a cursor that moved or not, under a viewport that
    /// would scroll after it or not.
    pub open spec fn of(moved: bool, scrolls: bool) -> Movement {
        if !moved {
            Movement::NoMove
        } else if scrolls {
            Movement::MovedAndScrolled
        } else {
            Movement::MovedOnly
        }
    }

    /// Turns the movement into an optional flag.
    #[verifier::when_used_as_spec(spec_to_option)]
    pub fn to_option(self) -> (outcome: Option<bool>)
        ensures
            outcome == self.to_option(),
    {
        match self {
            Movement::NoMove => None,
            Movement::MovedOnly => Some(false),
            Movement::MovedAndScrolled => Some(true),
        }
    }

    /// Names the movement that an optional flag stands for.
    #[verifier::when_used_as_spec(spec_from_option)]
    pub fn from_option(outcome: Option<bool>) -> (movement: Movement)
        ensures
            movement == Movement::from_option(outcome),
    {
        match outcome {
            None => Movement::NoMove,
            Some(false) => Movement::MovedOnly,
            Some(true) => Movement::MovedAndScrolled,
        }
    }
}

/// A movement and its optional flag determine each other.
pub proof fn lemma_movement_round_trip(movement: Movement, outcome: Option<bool>)
    ensures
        Movement::from_option(movement.to_option()) == movement,
        Movement::from_option(outcome).to_option() == outcome,
{
}

} // verus!
