//! The closed set of directional input actions.
//!
//! These are declared for future gameplay: no system consumes them yet, so
//! the library only fixes the set of actions a player could take.

use vstd::prelude::*;

verus! {

/// An action a player could take through input.
#[derive(Clone, Copy, PartialEq, Eq, Structural, Hash, Debug)]
pub enum Action {
    MoveUp,
    MoveDown,
    MoveLeft,
    MoveRight,
}

} // verus!
