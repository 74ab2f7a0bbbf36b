//! The logic of the voice tools server: session memory, heuristics,
//! request routing and tool descriptions.

pub mod heuristics;
pub mod session;
pub mod protocol;
pub mod replies;
