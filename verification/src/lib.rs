//! ytconvertv2: export audio and video from YouTube videos and playlists with
//! yt-dlp and ffmpeg. This library holds the application's data, its state
//! machines and the decisions of exporting and updating; the caller performs
//! the downloads, conversions and file accesses that they ask for.
use vstd::prelude::*;

pub mod text;
pub mod theme;
pub mod helpers;
pub mod data;
pub mod events;
pub mod error;
pub mod export;
pub mod models;
pub mod config;
pub mod updates;

verus! {

} // verus!
