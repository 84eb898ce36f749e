//! A queued export: what to export and where to.
use vstd::prelude::*;

use std::path::PathBuf;

use super::playlist_data::PlaylistData;
use super::playlist_settings::PlaylistExportSettings;
use super::video_data::VideoData;
use super::video_settings::VideoExportSettings;

verus! {

/// A location in the file system, carried through unchanged.
#[verifier::external_type_specification]
#[verifier::external_body]
pub struct ExPathBuf(std::path::PathBuf);

/// `PathBuf::clone` gives a path equal to the one cloned.
pub assume_specification[ <std::path::PathBuf as Clone>::clone ](p: &std::path::PathBuf) -> (r:
    std::path::PathBuf)
    ensures
        r == *p,
;

/// What a task exports: one video or a playlist, with its settings.
#[derive(Clone, Debug)]
pub enum TaskData {
    Video(VideoData, VideoExportSettings),
    Playlist(PlaylistData, PlaylistExportSettings),
}

/// An export to carry out.
#[derive(Clone, Debug)]
pub struct Task {
    export_location: PathBuf,
    data: TaskData,
}

/// A task as the location it exports to and what it exports.
pub struct TaskView {
    pub location: PathBuf,
    pub data: TaskData,
}

impl View for Task {
    type V = TaskView;

    closed spec fn view(&self) -> TaskView {
        TaskView { location: self.export_location, data: self.data }
    }
}

/// The text naming a task's kind.
pub open spec fn task_type_text(d: TaskData) -> Seq<char> {
    match d {
        TaskData::Video(..) => "VIDEO"@,
        TaskData::Playlist(..) => "PLAYLIST"@,
    }
}

impl Task {
    /// A task exporting one video to `location`.
    pub fn video(location: PathBuf, data: VideoData, settings: VideoExportSettings) -> (t: Self)
        ensures
            t@.location == location,
            t@.data == TaskData::Video(data, settings),
    {
        Self { export_location: location, data: TaskData::Video(data, settings) }
    }

    /// A task exporting a playlist into a folder under `location`.
    pub fn playlist(
        location: PathBuf,
        data: PlaylistData,
        settings: PlaylistExportSettings,
    ) -> (t: Self)
        ensures
            t@.location == location,
            t@.data == TaskData::Playlist(data, settings),
    {
        Self { export_location: location, data: TaskData::Playlist(data, settings) }
    }

    /// The location the task exports to.
    pub fn location(&self) -> (r: &PathBuf)
        ensures
            *r == self@.location,
    {
        &self.export_location
    }

    /// What the task exports.
    pub fn data(&self) -> (r: &TaskData)
        ensures
            *r == self@.data,
    {
        &self.data
    }

    /// Whether the task exports one video.
    pub fn is_video(&self) -> (r: bool)
        ensures
            r == (self@.data is Video),
    {
        if let TaskData::Video { .. } = self.data {
            return true;
        }
        return false;
    }

    /// Whether the task exports a playlist.
    pub fn is_playlist(&self) -> (r: bool)
        ensures
            r == (self@.data is Playlist),
    {
        if let TaskData::Playlist { .. } = self.data {
            return true;
        }
        return false;
    }
}

impl TaskData {
    /// `VIDEO` or `PLAYLIST`.
    pub fn get_type(&self) -> (r: &str)
        ensures
            r@ == task_type_text(*self),
    {
        match self {
            Self::Video { .. } => "VIDEO",
            Self::Playlist { .. } => "PLAYLIST",
        }
    }
}

} // verus!
