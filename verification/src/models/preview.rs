//! The text the pages show of the video or playlist they found, with the
//! placeholders shown when there is none.
use vstd::prelude::*;

use crate::data::{PlaylistData, VideoData};
use crate::helpers::{format_seconds, spec_format_seconds};
use crate::text::{decimal, push_decimal, push_str_chars};

verus! {

/// The length shown on a video's thumbnail: its duration as `mm:ss` or
/// `hh:mm:ss`, or `??:??` when there is no video.
pub fn video_duration_label(video: &Option<VideoData>) -> (r: String)
    ensures
        r@ == match video {
            Some(v) => spec_format_seconds(v@.duration as nat),
            None => "??:??"@,
        },
{
    match video {
        Some(v) => format_seconds(v.duration()),
        None => String::from_str("??:??"),
    }
}

/// The heading shown for a video: its title, or `No Video Selected`.
pub fn video_title_label(video: &Option<VideoData>) -> (r: String)
    ensures
        r@ == match video {
            Some(v) => v@.title,
            None => "No Video Selected"@,
        },
{
    match video {
        Some(v) => v.title().clone(),
        None => String::from_str("No Video Selected"),
    }
}

/// The line under a video's heading: its channel, or nothing.
pub fn video_author_label(video: &Option<VideoData>) -> (r: String)
    ensures
        r@ == match video {
            Some(v) => v@.author,
            None => Seq::<char>::empty(),
        },
{
    match video {
        Some(v) => v.author().clone(),
        None => String::new(),
    }
}

/// The count shown on a playlist's thumbnail: `n Videos`, or `????` when there
/// is no playlist.
pub fn playlist_count_label(playlist: &Option<PlaylistData>) -> (r: String)
    ensures
        r@ == match playlist {
            Some(p) => decimal(p@.videos.len()) + " Videos"@,
            None => "????"@,
        },
{
    match playlist {
        Some(p) => {
            let mut s = String::new();
            let n = p.video_count();
            push_decimal(&mut s, n as u64);
            push_str_chars(&mut s, " Videos");
            s
        },
        None => String::from_str("????"),
    }
}

/// The heading shown for a playlist: its title, or `No Playlist Selected`.
pub fn playlist_title_label(playlist: &Option<PlaylistData>) -> (r: String)
    ensures
        r@ == match playlist {
            Some(p) => p@.title,
            None => "No Playlist Selected"@,
        },
{
    match playlist {
        Some(p) => p.title().clone(),
        None => String::from_str("No Playlist Selected"),
    }
}

/// The line under a playlist's heading: its creator, or nothing.
pub fn playlist_creator_label(playlist: &Option<PlaylistData>) -> (r: String)
    ensures
        r@ == match playlist {
            Some(p) => p@.creator,
            None => Seq::<char>::empty(),
        },
{
    match playlist {
        Some(p) => p.creator().clone(),
        None => String::new(),
    }
}

/// The title in the edit box of the playlist's video at `index`, or nothing
/// when there is no such video.
pub fn editing_title(playlist: &Option<PlaylistData>, index: usize) -> (r: String)
    ensures
        r@ == match playlist {
            Some(p) => if index < p@.videos.len() {
                p@.videos[index as int].1.title
            } else {
                Seq::<char>::empty()
            },
            None => Seq::<char>::empty(),
        },
{
    match playlist {
        Some(p) => match p.video(index) {
            Some(entry) => entry.1.title.clone(),
            None => String::new(),
        },
        None => String::new(),
    }
}

} // verus!
