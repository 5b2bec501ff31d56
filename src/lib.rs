//! A chat bot's command handling and its two-stage weather lookup.
//!
//! `commands` binds command names to handlers and dispatches interactions;
//! `lookup` sequences a location search and a forecast request and turns the
//! outcome into one reply; `query` writes query values into
//! URLs; `weather` holds the provider's records.
pub mod commands;
pub mod lookup;
pub mod query;
pub mod weather;
