//! State and key handling of the interactive terminal interface. Drawing,
//! the event loop and the tunnel tasks live outside the library; they call
//! into these functions for every decision.

pub mod app;
pub mod events;
pub mod dispatch;
pub mod log_view;
pub mod layout;
pub mod session;
