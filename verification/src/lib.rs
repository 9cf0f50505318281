//! Core of a terminal chat client: the permission resolver that decides
//! which channels a user may see, and the state machine that turns key
//! presses and remote results into changes of the displayed state.

pub mod api;
pub mod app;
pub mod bitmask;
pub mod channel;
pub mod config;
pub mod events;
pub mod guild;
pub mod input;
pub mod layout;
pub mod message;
pub mod screen;
pub mod sync;
pub mod text;
