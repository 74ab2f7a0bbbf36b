//! Dialogue management: the states of a voice interaction, the events that
//! move between them, and the manager that applies them.

pub mod events;
pub mod manager;
pub mod state;

pub use events::DialogueEvent;
pub use manager::DialogueManager;
pub use state::DialogueState;
