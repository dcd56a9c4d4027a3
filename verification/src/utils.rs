use vstd::prelude::*;

verus! {

/// The behaviour of the UI in its states.
#[allow(non_camel_case_types)]
#[derive(Clone, Copy, Debug, PartialEq, Eq, Structural)]
pub enum UiState {
    /// The start state: No contact is selected/displayed.
    NORMAL,
    /// A single contact is selected and displayed
    SHOWING,
    /// Zero or more contacts are selected (but this can be changed).
    /// One contact might be displayed.
    SELECTING,
    /// A new contact is being created
    CREATING,
}

impl Default for UiState {
    /// The start state.
    fn default() -> (s: UiState)
        ensures
            s == UiState::NORMAL,
    {
        UiState::NORMAL
    }
}

} // verus!
