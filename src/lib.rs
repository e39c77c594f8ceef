//! Core logic of the sekhmet server: the dispatch state of its worker pool,
//! calendar event colors and selection, authorization errors, and the LED
//! hardware model.
pub mod auth;
pub mod calendar;
pub mod fit;
pub mod gpio;
pub mod server;
pub mod text;
pub mod thread_pool;
