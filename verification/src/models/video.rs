//! The single-video page: the link typed in, the video it found, and its
//! export settings.
use vstd::prelude::*;

use std::path::PathBuf;

use super::notification::{Notification, NotificationLevel};
use crate::data::video_data::VideoDataView;
use crate::data::video_settings::{export_type_after_choice, export_type_after_switch};
use crate::data::{AudioExtension, ExportType, Task, VideoData, VideoExportSettings};
use crate::error::{error_is, Error, ErrorSeverity};
use crate::events::VideoExportSettingsEvent;
use crate::helpers::valid_filename;
use crate::text::{is_blank, string_is_blank, trim, trim_string};

verus! {

/// What became of a fetched thumbnail once it was known to be current.
pub enum ThumbnailLoad {
    /// The response's bytes could not be read; the message says why.
    BytesFailed(String),
    /// The bytes were read, but the image could not be loaded.
    LoadFailed,
    /// The image was loaded.
    Loaded,
}

/// A request to the single-video page.
pub enum AppVideoEvent {
    LinkSubmit(String),
    Reset,
    TryVideoUrl(String),
    UrlFailed,
    /// The video found for a link, and that link.
    UrlSucceeded(VideoData, String),
    FetchThumbnail(String),
    /// The thumbnail fetched from a link, and what became of it.
    FinishedThumbnailFetch(String, ThumbnailLoad),
    ExportSettingsEvent(VideoExportSettingsEvent),
}

/// What the page asks its surroundings to do.
pub enum VideoModelAction {
    /// Hand this request back to the page.
    Emit(AppVideoEvent),
    /// Ask yt-dlp about the link, answering with `UrlSucceeded` or `UrlFailed`.
    FetchVideoData(String),
    /// Download the thumbnail at the address, answering with
    /// `FinishedThumbnailFetch`.
    FetchThumbnail(String),
    /// Show the placeholder thumbnail.
    LoadPlaceholderThumbnail,
    Notify(Notification),
    ShowError(Error),
}

/// The single-video page's state.
#[derive(Debug)]
pub struct AppVideoData {
    pub searching: bool,
    pub link: String,
    pub video: Option<VideoData>,
    pub thumbnail_generation: usize,
    pub export_settings: VideoExportSettings,
}

/// The video of the page as plain values.
pub open spec fn video_view(v: Option<VideoData>) -> Option<VideoDataView> {
    match v {
        Some(d) => Some(d@),
        None => None,
    }
}

/// Whether `s` is the page after a reset from `old`: no link, no video, new
/// settings for an empty title, and a new thumbnail generation. Whether a
/// search runs is left to the caller.
pub open spec fn is_reset_of(s: AppVideoData, old: AppVideoData) -> bool {
    &&& s.link@.len() == 0
    &&& s.video is None
    &&& s.export_settings.title@.len() == 0
    &&& s.export_settings.export_type == ExportType::Audio(AudioExtension::Mp3)
    &&& s.thumbnail_generation == old.thumbnail_generation + 1
}

/// The notice shown for a link that finds nothing.
pub open spec fn is_invalid_url_notice(a: VideoModelAction) -> bool {
    a matches VideoModelAction::Notify(n) && n.level == NotificationLevel::Error && n.message@
        == "Invalid URL, please try again"@
}

impl AppVideoData {
    /// The page with no link and no video.
    pub fn new() -> (s: Self)
        ensures
            !s.searching,
            s.link@.len() == 0,
            s.video is None,
            s.thumbnail_generation == 0,
            s.export_settings.title@.len() == 0,
            s.export_settings.export_type == ExportType::Audio(AudioExtension::Mp3),
    {
        let s = AppVideoData {
            searching: false,
            link: String::new(),
            video: None,
            thumbnail_generation: 0,
            export_settings: VideoExportSettings::new(String::new()),
        };
        assert(s.export_settings.title@ =~= Seq::<char>::empty());
        s
    }

    fn reset(&mut self) -> (actions: Vec<VideoModelAction>)
        requires
            old(self).thumbnail_generation < usize::MAX,
        ensures
            is_reset_of(*final(self), *old(self)),
            final(self).searching == old(self).searching,
            actions@.len() == 1,
            actions@[0] is LoadPlaceholderThumbnail,
    {
        self.link = String::new();
        self.video = None;
        self.export_settings = VideoExportSettings::new(String::new());
        assert(self.export_settings.title@ =~= Seq::<char>::empty());
        self.thumbnail_generation = self.thumbnail_generation + 1;
        vec![VideoModelAction::LoadPlaceholderThumbnail]
    }

    /// Whether a fetched thumbnail belongs to the video on the page.
    pub fn thumbnail_is_current(&self, link: &String) -> (r: bool)
        ensures
            r == (self.video matches Some(v) && v@.thumbnail == link@),
    {
        match &self.video {
            Some(video) => *video.thumbnail() == *link,
            None => false,
        }
    }

    /// Handles a request to the page:
    /// - a submitted link, when it differs from the current one, is kept and
    ///   tried (trimmed), or resets the page when it is blank;
    /// - a reset clears the page;
    /// - trying a link starts a search;
    /// - a failed search ends the search, tells the user, and resets the page
    ///   when it showed a video;
    /// - a video found for the current link, when it differs from the shown
    ///   one, is shown with new settings for its title, and its thumbnail is
    ///   fetched;
    /// - a fetched thumbnail of the shown video is counted as a new generation
    ///   unless its bytes could not be read, which is shown as a warning;
    /// - a change of settings applies to the settings.
    pub fn event(&mut self, event: AppVideoEvent) -> (actions: Vec<VideoModelAction>)
        requires
            old(self).thumbnail_generation < usize::MAX,
        ensures
            match event {
                AppVideoEvent::LinkSubmit(text) => if old(self).link@ == text@ {
                    &&& *final(self) == *old(self)
                    &&& actions@.len() == 0
                } else if !is_blank(text@) {
                    &&& final(self).link@ == text@
                    &&& final(self).video == old(self).video
                    &&& final(self).searching == old(self).searching
                    &&& final(self).thumbnail_generation == old(self).thumbnail_generation
                    &&& final(self).export_settings == old(self).export_settings
                    &&& actions@.len() == 1
                    &&& actions@[0] matches VideoModelAction::Emit(AppVideoEvent::TryVideoUrl(u))
                        && u@ == trim(text@)
                } else {
                    &&& is_reset_of(*final(self), *old(self))
                    &&& final(self).searching == old(self).searching
                    &&& actions@.len() == 1
                    &&& actions@[0] is LoadPlaceholderThumbnail
                },
                AppVideoEvent::Reset => {
                    &&& is_reset_of(*final(self), *old(self))
                    &&& final(self).searching == old(self).searching
                    &&& actions@.len() == 1
                    &&& actions@[0] is LoadPlaceholderThumbnail
                },
                AppVideoEvent::TryVideoUrl(url) => {
                    &&& final(self).searching
                    &&& final(self).link == old(self).link
                    &&& final(self).video == old(self).video
                    &&& final(self).thumbnail_generation == old(self).thumbnail_generation
                    &&& final(self).export_settings == old(self).export_settings
                    &&& actions@.len() == 1
                    &&& actions@[0] matches VideoModelAction::FetchVideoData(u) && u == url
                },
                AppVideoEvent::UrlFailed => {
                    &&& !final(self).searching
                    &&& actions@.len() >= 1
                    &&& is_invalid_url_notice(actions@[0])
                    &&& if old(self).video is Some {
                        &&& is_reset_of(*final(self), *old(self))
                        &&& actions@.len() == 2
                        &&& actions@[1] is LoadPlaceholderThumbnail
                    } else {
                        &&& final(self).link == old(self).link
                        &&& final(self).video == old(self).video
                        &&& final(self).thumbnail_generation == old(self).thumbnail_generation
                        &&& final(self).export_settings == old(self).export_settings
                        &&& actions@.len() == 1
                    }
                },
                AppVideoEvent::UrlSucceeded(data, url) => {
                    &&& !final(self).searching
                    &&& final(self).link == old(self).link
                    &&& final(self).thumbnail_generation == old(self).thumbnail_generation
                    &&& if old(self).link@ == url@ && video_view(old(self).video) != Some(data@) {
                        &&& final(self).video == Some(data)
                        &&& final(self).export_settings.title@ == valid_filename(data@.title)
                        &&& final(self).export_settings.export_type == ExportType::Audio(
                            AudioExtension::Mp3,
                        )
                        &&& actions@.len() == 1
                        &&& actions@[0] matches VideoModelAction::Emit(
                            AppVideoEvent::FetchThumbnail(t),
                        ) && t@ == data@.thumbnail
                    } else {
                        &&& final(self).video == old(self).video
                        &&& final(self).export_settings == old(self).export_settings
                        &&& actions@.len() == 0
                    }
                },
                AppVideoEvent::FetchThumbnail(url) => {
                    &&& *final(self) == *old(self)
                    &&& actions@.len() == 1
                    &&& actions@[0] matches VideoModelAction::FetchThumbnail(u) && u == url
                },
                AppVideoEvent::FinishedThumbnailFetch(link, load) => {
                    &&& final(self).link == old(self).link
                    &&& final(self).video == old(self).video
                    &&& final(self).searching == old(self).searching
                    &&& final(self).export_settings == old(self).export_settings
                    &&& if (old(self).video matches Some(v) && v@.thumbnail == link@) {
                        match load {
                            ThumbnailLoad::BytesFailed(msg) => {
                                &&& final(self).thumbnail_generation
                                    == old(self).thumbnail_generation
                                &&& actions@.len() == 1
                                &&& actions@[0] matches VideoModelAction::ShowError(e)
                                    && error_is(
                                    e,
                                    202,
                                    ErrorSeverity::Warning,
                                    "Reqwest Response Bytes Conversion Failed"@,
                                    Some(
                                        "Failed convert a response to bytes due to the following error from reqwest: "@
                                            + msg@,
                                    ),
                                )
                            },
                            _ => {
                                &&& final(self).thumbnail_generation
                                    == old(self).thumbnail_generation + 1
                                &&& actions@.len() == 0
                            },
                        }
                    } else {
                        &&& final(self).thumbnail_generation == old(self).thumbnail_generation
                        &&& actions@.len() == 0
                    }
                },
                AppVideoEvent::ExportSettingsEvent(e) => {
                    &&& final(self).link == old(self).link
                    &&& final(self).video == old(self).video
                    &&& final(self).searching == old(self).searching
                    &&& final(self).thumbnail_generation == old(self).thumbnail_generation
                    &&& actions@.len() == 0
                    &&& match e {
                        VideoExportSettingsEvent::ChangeTitle(t) => {
                            &&& final(self).export_settings.title@ == valid_filename(t@)
                            &&& final(self).export_settings.export_type
                                == old(self).export_settings.export_type
                        },
                        VideoExportSettingsEvent::SetToVideo(b) => {
                            &&& final(self).export_settings.title
                                == old(self).export_settings.title
                            &&& final(self).export_settings.export_type
                                == export_type_after_switch(
                                old(self).export_settings.export_type,
                                b,
                            )
                        },
                        VideoExportSettingsEvent::SetExtension(x) => {
                            &&& final(self).export_settings.title
                                == old(self).export_settings.title
                            &&& final(self).export_settings.export_type
                                == export_type_after_choice(
                                old(self).export_settings.export_type,
                                x,
                            )
                        },
                    }
                },
            },
    {
        match event {
            AppVideoEvent::LinkSubmit(text) => {
                if !(self.link == text) {
                    if !string_is_blank(text.as_str()) {
                        let url = trim_string(text.as_str());
                        self.link = text;
                        vec![VideoModelAction::Emit(AppVideoEvent::TryVideoUrl(url))]
                    } else {
                        self.link = text;
                        self.reset()
                    }
                } else {
                    Vec::new()
                }
            },
            AppVideoEvent::Reset => self.reset(),
            AppVideoEvent::TryVideoUrl(url) => {
                self.searching = true;
                vec![VideoModelAction::FetchVideoData(url)]
            },
            AppVideoEvent::UrlFailed => {
                self.searching = false;
                let mut actions = vec![
                    VideoModelAction::Notify(
                        Notification::new(NotificationLevel::Error, "Invalid URL, please try again"),
                    ),
                ];
                if self.video.is_some() {
                    let mut more = self.reset();
                    actions.append(&mut more);
                }
                actions
            },
            AppVideoEvent::UrlSucceeded(data, url) => {
                self.searching = false;
                if self.link == url {
                    let differs = match &self.video {
                        Some(v) => !v.same(&data),
                        None => true,
                    };
                    if differs {
                        let thumbnail = data.thumbnail().clone();
                        self.export_settings = VideoExportSettings::new(data.title().clone());
                        self.video = Some(data);
                        return vec![VideoModelAction::Emit(AppVideoEvent::FetchThumbnail(thumbnail))];
                    }
                }
                Vec::new()
            },
            AppVideoEvent::FetchThumbnail(url) => vec![VideoModelAction::FetchThumbnail(url)],
            AppVideoEvent::FinishedThumbnailFetch(link, load) => {
                if self.thumbnail_is_current(&link) {
                    match load {
                        ThumbnailLoad::BytesFailed(msg) => {
                            let mut description = String::from_str(
                                "Failed convert a response to bytes due to the following error from reqwest: ",
                            );
                            crate::text::push_str_chars(&mut description, msg.as_str());
                            let error = Error::new(
                                202,
                                String::from_str("Reqwest Response Bytes Conversion Failed"),
                                ErrorSeverity::Warning,
                                Some(description),
                            );
                            return vec![VideoModelAction::ShowError(error)];
                        },
                        _ => {
                            self.thumbnail_generation = self.thumbnail_generation + 1;
                        },
                    }
                }
                Vec::new()
            },
            AppVideoEvent::ExportSettingsEvent(e) => {
                self.export_settings.event(e);
                Vec::new()
            },
        }
    }
}

/// What pressing "Create Task" on the single-video page does: with an export
/// location and a video, a video task is submitted and the user told so;
/// otherwise an error for each of the two that is missing. The page is reset
/// either way.
pub enum SubmitAction {
    SubmitTask(Task),
    Notify(Notification),
    ShowError(Error),
    ResetPage,
}

/// The errors for a missing export location (code 4) and missing data (code 5).
pub open spec fn is_missing_error(a: SubmitAction, code: u16) -> bool {
    a matches SubmitAction::ShowError(e) && error_is(
        e,
        code,
        ErrorSeverity::Error,
        if code == 4 {
            "Export Location Unexpectedly None"@
        } else {
            "Video Data Unexpectedly None"@
        },
        None,
    )
}

/// The actions of "Create Task" for a video.
pub fn submit_video_task(
    location: Option<PathBuf>,
    data: Option<VideoData>,
    settings: VideoExportSettings,
) -> (actions: Vec<SubmitAction>)
    ensures
        actions@.last() is ResetPage,
        match (location, data) {
            (Some(l), Some(d)) => {
                &&& actions@.len() == 3
                &&& actions@[0] matches SubmitAction::SubmitTask(t) && t@.location == l && t@.data
                    == crate::data::TaskData::Video(d, settings)
                &&& actions@[1] matches SubmitAction::Notify(n) && n.level
                    == NotificationLevel::Success && n.message@ == "Task Created Successfully"@
            },
            (l, d) => {
                &&& actions@.len() == 1 + (if l is None {
                    1int
                } else {
                    0
                }) + (if d is None {
                    1int
                } else {
                    0
                })
                &&& l is None ==> is_missing_error(actions@[0], 4)
                &&& d is None ==> is_missing_error(actions@[actions@.len() - 2], 5)
            },
        },
{
    let mut actions: Vec<SubmitAction> = Vec::new();
    match (location, data) {
        (Some(location), Some(data)) => {
            actions.push(SubmitAction::SubmitTask(Task::video(location, data, settings)));
            actions.push(
                SubmitAction::Notify(
                    Notification::new(NotificationLevel::Success, "Task Created Successfully"),
                ),
            );
        },
        (location, data) => {
            if location.is_none() {
                actions.push(
                    SubmitAction::ShowError(
                        Error::from_parts(
                            4,
                            "Export Location Unexpectedly None",
                            ErrorSeverity::Error,
                            None,
                        ),
                    ),
                );
            }
            if data.is_none() {
                actions.push(
                    SubmitAction::ShowError(
                        Error::from_parts(5, "Video Data Unexpectedly None", ErrorSeverity::Error, None),
                    ),
                );
            }
        },
    }
    actions.push(SubmitAction::ResetPage);
    actions
}


/// Why fetching a thumbnail failed before its page could look at it.
pub enum ThumbnailFetchFailure {
    /// The request could not be built; the message says why.
    BuildRequest(String),
    /// The request failed; the message says why.
    ExecuteRequest(String),
    /// The fetched thumbnail could not be handed to the single-video page.
    EmitVideoResult,
    /// The fetched thumbnail could not be handed to the playlist page.
    EmitPlaylistResult,
}

/// The warning shown for a failed thumbnail fetch.
pub fn thumbnail_fetch_error(failure: ThumbnailFetchFailure) -> (e: Error)
    ensures
        match failure {
            ThumbnailFetchFailure::BuildRequest(m) => error_is(
                e,
                200,
                ErrorSeverity::Warning,
                "Reqwest Request Builder Failed"@,
                Some(
                    "Failed to create a build a Request due to the following error from reqwest: "@
                        + m@,
                ),
            ),
            ThumbnailFetchFailure::ExecuteRequest(m) => error_is(
                e,
                201,
                ErrorSeverity::Warning,
                "Reqwest Request Execution Failed"@,
                Some("Failed execute a built Request due to the following error from reqwest: "@ + m@),
            ),
            ThumbnailFetchFailure::EmitVideoResult => error_is(
                e,
                3,
                ErrorSeverity::Warning,
                "Event Emission Failure"@,
                Some(
                    "Failed to emit an error to the context proxy while submitting an AppVideoEvent::FinishedThumbnailFetch event"@,
                ),
            ),
            ThumbnailFetchFailure::EmitPlaylistResult => error_is(
                e,
                3,
                ErrorSeverity::Warning,
                "Event Emission Failure"@,
                Some(
                    "Failed to emit an error to the context proxy while submitting a finished thumbnail"@,
                ),
            ),
        },
{
    match failure {
        ThumbnailFetchFailure::BuildRequest(m) => {
            let mut d = String::from_str(
                "Failed to create a build a Request due to the following error from reqwest: ",
            );
            crate::text::push_str_chars(&mut d, m.as_str());
            Error::new(
                200,
                String::from_str("Reqwest Request Builder Failed"),
                ErrorSeverity::Warning,
                Some(d),
            )
        },
        ThumbnailFetchFailure::ExecuteRequest(m) => {
            let mut d = String::from_str(
                "Failed execute a built Request due to the following error from reqwest: ",
            );
            crate::text::push_str_chars(&mut d, m.as_str());
            Error::new(
                201,
                String::from_str("Reqwest Request Execution Failed"),
                ErrorSeverity::Warning,
                Some(d),
            )
        },
        ThumbnailFetchFailure::EmitVideoResult => Error::from_parts(
            3,
            "Event Emission Failure",
            ErrorSeverity::Warning,
            Some(
                "Failed to emit an error to the context proxy while submitting an AppVideoEvent::FinishedThumbnailFetch event",
            ),
        ),
        ThumbnailFetchFailure::EmitPlaylistResult => Error::from_parts(
            3,
            "Event Emission Failure",
            ErrorSeverity::Warning,
            Some(
                "Failed to emit an error to the context proxy while submitting a finished thumbnail",
            ),
        ),
    }
}

/// The warning shown when the placeholder thumbnail could not be loaded
/// after a reset.
pub fn placeholder_load_error() -> (e: Error)
    ensures
        error_is(
            e,
            0,
            ErrorSeverity::Warning,
            "Image Loading Failed"@,
            Some("Failed to load default thumbnail image"@),
        ),
{
    Error::from_parts(
        0,
        "Image Loading Failed",
        ErrorSeverity::Warning,
        Some("Failed to load default thumbnail image"),
    )
}

} // verus!
