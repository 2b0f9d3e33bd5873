//! The mode state machine: the cyclic three-way context that decides
//! how the ambiguous navigation handlers behave.

use vstd::prelude::*;

verus! {

/// The three-way navigation context consulted by the dispatcher.
///
/// The mode persists until explicitly advanced by the `"navigation"`
/// handler; no timeout ever resets it.
#[derive(Clone, Copy, Debug, PartialEq, Eq, Structural)]
pub enum MenuMode {
    Media,
    MouseEmulation,
    Selector,
}

impl MenuMode {
    /// The successor in the cycle `Media -> MouseEmulation -> Selector -> Media`.
    pub open spec fn spec_next(self) -> MenuMode {
        match self {
            MenuMode::Media => MenuMode::MouseEmulation,
            MenuMode::MouseEmulation => MenuMode::Selector,
            MenuMode::Selector => MenuMode::Media,
        }
    }

    /// Advance the mode one step along the cycle.
    pub fn next(self) -> (r: MenuMode)
        ensures
            r == self.spec_next(),
    {
        match self {
            MenuMode::Media => MenuMode::MouseEmulation,
            MenuMode::MouseEmulation => MenuMode::Selector,
            MenuMode::Selector => MenuMode::Media,
        }
    }
}

impl Default for MenuMode {
    /// The mode the state machine starts in.
    fn default() -> (r: MenuMode)
        ensures
            r == MenuMode::Media,
    {
        MenuMode::Media
    }
}

/// Law: advancing the mode exactly three times returns to the starting
/// mode, whatever it was.
pub proof fn lemma_mode_cycle(m: MenuMode)
    ensures
        m.spec_next().spec_next().spec_next() == m,
{
}

} // verus!
