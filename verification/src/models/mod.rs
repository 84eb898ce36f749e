//! The state of the application's pages and how each request changes it.
pub mod app;
pub mod notification;
pub mod playlist;
pub mod preview;
pub mod video;
