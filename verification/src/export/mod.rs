//! The decisions of exporting videos and playlists.
pub mod video;
pub mod playlist;
