//! The channel state of a VMBus server, and its saved form.

pub mod channels;
pub mod consistency;
pub mod form_laws;
pub mod laws;
pub mod offered_laws;
pub mod outcome_laws;
pub mod protocol;
pub mod restore;
pub mod restore_laws;
pub mod save;
pub mod save_laws;
pub mod saved_data;
pub mod saved_state;
pub mod saved_slots;
pub mod search;
pub mod server;
pub mod table_laws;
pub mod tables;
