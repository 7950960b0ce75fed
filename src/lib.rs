//! Session logic of a terminal viewer for the caller's public network identity:
//! the lifecycle state machine, fetch-cycle bookkeeping and the animation and
//! layout arithmetic that the screen is drawn from.

pub mod app;
pub mod ip;
pub mod laws;
pub mod layout;
