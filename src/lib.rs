//! Supervisory logic of a handheld console's runtime daemon: persisted state, hotkey
//! routing, power policy and process supervision, together with the row container of
//! the launcher's views.
pub mod state;
pub mod keys;
pub mod hotkeys;
pub mod supervisor;
pub mod power;
pub mod daemon;
pub mod row;
pub mod entry_list;
