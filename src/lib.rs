//! Hotkeys, the table that binds them to timer actions, the decisions of the
//! hub that broadcasts timer state to connected clients, and the pixel
//! conversion used to show the timer.
pub mod config;
pub mod dispatch;
pub mod hub;
pub mod keys;
pub mod pixels;
