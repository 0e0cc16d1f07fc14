//! Ludo game rules as a verified state machine, with the commitments that
//! bind each transition to digests of the states before and after it.

pub mod commit;
pub mod model;
pub mod players;
pub mod rules;
pub mod session;
