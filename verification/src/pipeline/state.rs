//! States of the dialogue state machine.

use vstd::prelude::*;

verus! {

/// Phase of a voice interaction.
///
/// - `Idle`: waiting for a wake word or push-to-talk
/// - `Listening`: listening for user speech
/// - `Processing`: turning the user's speech into a reply
/// - `Speaking`: playing the reply
#[derive(Debug, Clone, Copy, PartialEq, Eq, Structural)]
pub enum DialogueState {
    Idle,
    Listening,
    Processing,
    Speaking,
}

impl Default for DialogueState {
    fn default() -> (s: Self)
        ensures
            s == DialogueState::Idle,
    {
        DialogueState::Idle
    }
}

impl DialogueState {
    /// Only a speaking assistant can be interrupted by user speech.
    pub fn can_interrupt(&self) -> (b: bool)
        ensures
            b <==> *self == DialogueState::Speaking,
    {
        matches!(self, DialogueState::Speaking)
    }

    /// Every state but `Idle` is active.
    pub fn is_active(&self) -> (b: bool)
        ensures
            b <==> *self != DialogueState::Idle,
    {
        !matches!(self, DialogueState::Idle)
    }

    /// Name of the state, as it is displayed.
    pub fn name(&self) -> (s: &'static str)
        ensures
            s@ == state_name(*self),
    {
        match self {
            DialogueState::Idle => "Idle",
            DialogueState::Listening => "Listening",
            DialogueState::Processing => "Processing",
            DialogueState::Speaking => "Speaking",
        }
    }
}

/// Display name of a state.
pub open spec fn state_name(s: DialogueState) -> Seq<char> {
    match s {
        DialogueState::Idle => "Idle"@,
        DialogueState::Listening => "Listening"@,
        DialogueState::Processing => "Processing"@,
        DialogueState::Speaking => "Speaking"@,
    }
}

} // verus!
