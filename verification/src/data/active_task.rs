//! The task being exported, and how progress reports move it along.
use vstd::prelude::*;

use super::playlist_data::{count_included, PlaylistData};
use super::playlist_settings::PlaylistExportSettings;
use super::playlist_video_settings::PlaylistVideoSettings;
use super::task::{Task, TaskData};
use super::video_data::VideoData;
use super::video_settings::VideoExportSettings;
use crate::export::playlist::PlaylistProgress;
use crate::export::video::VideoProgress;

verus! {

/// The bit pattern of the progress value `0.0f32`.
pub const PROGRESS_ZERO: u32 = 0u32;

/// The bit pattern of the progress value `1.0f32`.
pub const PROGRESS_ONE: u32 = 0x3f80_0000u32;

/// The task being exported and how far it has got. Progress values are bit
/// patterns of `f32` values from 0.0 to 1.0, carried through unchanged.
#[derive(Clone, Debug)]
pub enum ActiveTask {
    Video {
        data: VideoData,
        settings: VideoExportSettings,
        downloading: bool,
        progress: u32,
    },
    Playlist {
        data: PlaylistData,
        settings: PlaylistExportSettings,
        active_video: Option<PlaylistVideoSettings>,
        downloading: bool,
        video_progress: u32,
        finished_count: usize,
        total_videos: usize,
    },
}

/// The task with its (current video's) progress set to `p`.
pub open spec fn with_progress(t: ActiveTask, p: u32) -> ActiveTask {
    match t {
        ActiveTask::Video { data, settings, downloading, .. } => ActiveTask::Video {
            data,
            settings,
            downloading,
            progress: p,
        },
        ActiveTask::Playlist {
            data,
            settings,
            active_video,
            downloading,
            finished_count,
            total_videos,
            ..
        } => ActiveTask::Playlist {
            data,
            settings,
            active_video,
            downloading,
            video_progress: p,
            finished_count,
            total_videos,
        },
    }
}

/// The task with its downloading flag set to `d`.
pub open spec fn with_downloading(t: ActiveTask, d: bool) -> ActiveTask {
    match t {
        ActiveTask::Video { data, settings, progress, .. } => ActiveTask::Video {
            data,
            settings,
            downloading: d,
            progress,
        },
        ActiveTask::Playlist {
            data,
            settings,
            active_video,
            video_progress,
            finished_count,
            total_videos,
            ..
        } => ActiveTask::Playlist {
            data,
            settings,
            active_video,
            downloading: d,
            video_progress,
            finished_count,
            total_videos,
        },
    }
}

/// A playlist task with its count of finished videos set to `n`; a video task
/// unchanged.
pub open spec fn with_finished_count(t: ActiveTask, n: usize) -> ActiveTask {
    match t {
        ActiveTask::Video { .. } => t,
        ActiveTask::Playlist {
            data,
            settings,
            active_video,
            downloading,
            video_progress,
            total_videos,
            ..
        } => ActiveTask::Playlist {
            data,
            settings,
            active_video,
            downloading,
            video_progress,
            finished_count: n,
            total_videos,
        },
    }
}

/// A playlist task with its current video set to `v`; a video task unchanged.
pub open spec fn with_active_video(t: ActiveTask, v: PlaylistVideoSettings) -> ActiveTask {
    match t {
        ActiveTask::Video { .. } => t,
        ActiveTask::Playlist {
            data,
            settings,
            downloading,
            video_progress,
            finished_count,
            total_videos,
            ..
        } => ActiveTask::Playlist {
            data,
            settings,
            active_video: Some(v),
            downloading,
            video_progress,
            finished_count,
            total_videos,
        },
    }
}

/// The (current video's) progress.
pub open spec fn progress_of(t: ActiveTask) -> u32 {
    match t {
        ActiveTask::Video { progress, .. } => progress,
        ActiveTask::Playlist { video_progress, .. } => video_progress,
    }
}

/// Whether the task is downloading.
pub open spec fn downloading_of(t: ActiveTask) -> bool {
    match t {
        ActiveTask::Video { downloading, .. } => downloading,
        ActiveTask::Playlist { downloading, .. } => downloading,
    }
}

/// Whether `r` is the active form of a task that starts with `data`:
/// downloading, no progress yet; a playlist has finished no video and exports
/// its included videos.
pub open spec fn is_start_of(r: ActiveTask, data: TaskData) -> bool {
    match data {
        TaskData::Video(d, s) => r == (ActiveTask::Video {
            data: d,
            settings: s,
            downloading: true,
            progress: PROGRESS_ZERO,
        }),
        TaskData::Playlist(d, s) => r matches ActiveTask::Playlist {
            data,
            settings,
            active_video,
            downloading,
            video_progress,
            finished_count,
            total_videos,
        } && data@ == d@ && settings == s && active_video is None && downloading
            && video_progress == PROGRESS_ZERO && finished_count == 0 && total_videos
            == count_included(d@.videos),
    }
}

/// What the task's owner does after a progress report: show the task, show it
/// and end the task, or just end it.
#[derive(Clone, Copy, PartialEq, Eq, Structural, Debug)]
pub enum ProgressAction {
    Update,
    UpdateAndFinish,
    Finish,
}

impl ActiveTask {
    /// The active form of a task that starts: downloading, no progress yet;
    /// a playlist has finished no video and exports its included videos.
    pub fn new(base: &Task) -> (r: Self)
        ensures
            is_start_of(r, base@.data),
    {
        match base.data() {
            TaskData::Video(data, settings) => Self::Video {
                data: data.clone(),
                settings: settings.clone(),
                downloading: true,
                progress: PROGRESS_ZERO,
            },
            TaskData::Playlist(data, settings) => Self::Playlist {
                data: data.clone(),
                settings: settings.clone(),
                active_video: None,
                downloading: true,
                video_progress: PROGRESS_ZERO,
                finished_count: 0,
                total_videos: data.active_video_count(),
            },
        }
    }

    /// Sets the (current video's) progress.
    pub fn set_video_progress(&mut self, new_progress: u32)
        ensures
            *final(self) == with_progress(*old(self), new_progress),
    {
        match self {
            ActiveTask::Video { progress, .. } => {
                *progress = new_progress;
            },
            ActiveTask::Playlist { video_progress, .. } => {
                *video_progress = new_progress;
            },
        }
    }

    /// The (current video's) progress.
    pub fn get_video_progress(&self) -> (r: u32)
        ensures
            r == progress_of(*self),
    {
        match self {
            ActiveTask::Video { progress, .. } => *progress,
            ActiveTask::Playlist { video_progress, .. } => *video_progress,
        }
    }

    /// Sets whether the task is downloading.
    pub fn set_downloading(&mut self, new_downloading: bool)
        ensures
            *final(self) == with_downloading(*old(self), new_downloading),
    {
        match self {
            ActiveTask::Video { downloading, .. } => {
                *downloading = new_downloading;
            },
            ActiveTask::Playlist { downloading, .. } => {
                *downloading = new_downloading;
            },
        }
    }

    /// Whether the task is downloading.
    pub fn get_downloading(&self) -> (r: bool)
        ensures
            r == downloading_of(*self),
    {
        match self {
            ActiveTask::Video { downloading, .. } => *downloading,
            ActiveTask::Playlist { downloading, .. } => *downloading,
        }
    }

    /// Sets how many videos of a playlist are finished; a video task is left
    /// as it is.
    pub fn set_finished_count(&mut self, new_finished_count: usize)
        ensures
            *final(self) == with_finished_count(*old(self), new_finished_count),
    {
        match self {
            ActiveTask::Playlist { finished_count, .. } => {
                *finished_count = new_finished_count;
            },
            _ => (),
        }
    }

    /// For a playlist, the finished videos and the videos to export.
    pub fn get_count_ratio(&self) -> (r: Option<(usize, usize)>)
        ensures
            r == match *self {
                ActiveTask::Playlist { finished_count, total_videos, .. } => Some(
                    (finished_count, total_videos),
                ),
                _ => None,
            },
    {
        match self {
            ActiveTask::Playlist { finished_count, total_videos, .. } => Some(
                (*finished_count, *total_videos),
            ),
            _ => None,
        }
    }

    /// Sets the video of a playlist being exported; a video task is left as it
    /// is.
    pub fn set_active_video(&mut self, new_active_video: PlaylistVideoSettings)
        ensures
            *final(self) == with_active_video(*old(self), new_active_video),
    {
        match self {
            ActiveTask::Playlist { active_video, .. } => {
                *active_video = Some(new_active_video);
            },
            _ => (),
        }
    }

    /// The video of a playlist being exported.
    pub fn get_active_video(&self) -> (r: Option<PlaylistVideoSettings>)
        ensures
            r == match *self {
                ActiveTask::Playlist { active_video, .. } => active_video,
                _ => None,
            },
    {
        match self {
            ActiveTask::Playlist { active_video, .. } => match active_video {
                Some(v) => Some(v.clone()),
                None => None,
            },
            _ => None,
        }
    }

    /// Takes in a progress report of a single video's export: a progress value
    /// is shown; when done, the progress is set to 1.0, shown, and the task
    /// ends.
    pub fn apply_video_progress(&mut self, event: VideoProgress) -> (action: ProgressAction)
        ensures
            match event {
                VideoProgress::Progress(p) => {
                    &&& *final(self) == with_progress(*old(self), p)
                    &&& action == ProgressAction::Update
                },
                VideoProgress::Done => {
                    &&& *final(self) == with_progress(*old(self), PROGRESS_ONE)
                    &&& action == ProgressAction::UpdateAndFinish
                },
            },
    {
        match event {
            VideoProgress::Progress(progress) => {
                self.set_video_progress(progress);
                ProgressAction::Update
            },
            VideoProgress::Done => {
                self.set_video_progress(PROGRESS_ONE);
                ProgressAction::UpdateAndFinish
            },
        }
    }

    /// Takes in a progress report of a playlist's export: a video starts
    /// (downloading, no progress, it becomes the current video), progresses
    /// (no longer downloading), or completes (progress 1.0, one more finished
    /// video); each is shown. When done, the task ends.
    pub fn apply_playlist_progress(&mut self, event: PlaylistProgress) -> (action: ProgressAction)
        requires
            event matches PlaylistProgress::VideoComplete(i) ==> i < usize::MAX,
        ensures
            match event {
                PlaylistProgress::StartVideo(s) => {
                    &&& *final(self) == with_active_video(
                        with_progress(with_downloading(*old(self), true), PROGRESS_ZERO),
                        s,
                    )
                    &&& action == ProgressAction::Update
                },
                PlaylistProgress::VideoProgress(p) => {
                    &&& *final(self) == with_progress(with_downloading(*old(self), false), p)
                    &&& action == ProgressAction::Update
                },
                PlaylistProgress::VideoComplete(i) => {
                    &&& *final(self) == with_finished_count(
                        with_progress(*old(self), PROGRESS_ONE),
                        (i + 1) as usize,
                    )
                    &&& action == ProgressAction::Update
                },
                PlaylistProgress::Done => {
                    &&& *final(self) == *old(self)
                    &&& action == ProgressAction::Finish
                },
            },
    {
        match event {
            PlaylistProgress::StartVideo(settings) => {
                self.set_downloading(true);
                self.set_video_progress(PROGRESS_ZERO);
                self.set_active_video(settings);
                ProgressAction::Update
            },
            PlaylistProgress::VideoProgress(progress) => {
                self.set_downloading(false);
                self.set_video_progress(progress);
                ProgressAction::Update
            },
            PlaylistProgress::VideoComplete(index) => {
                self.set_video_progress(PROGRESS_ONE);
                self.set_finished_count(index + 1);
                ProgressAction::Update
            },
            PlaylistProgress::Done => ProgressAction::Finish,
        }
    }
}

/// What a setter sets is what the matching getter gives back, and no setter
/// changes whether the task is a video or a playlist.
pub proof fn law_active_task_set_get(t: ActiveTask, p: u32, d: bool, n: usize)
    ensures
        progress_of(with_progress(t, p)) == p,
        downloading_of(with_downloading(t, d)) == d,
        with_progress(t, p) is Video == t is Video,
        with_downloading(t, d) is Video == t is Video,
        with_finished_count(t, n) is Video == t is Video,
        t is Playlist ==> with_finished_count(t, n)->finished_count == n,
        downloading_of(with_progress(t, p)) == downloading_of(t),
        progress_of(with_downloading(t, d)) == progress_of(t),
{
}

} // verus!
