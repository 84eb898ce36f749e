//! The playlist page: the link typed in, the playlist it found, the settings
//! of the export and of each of its videos.
use vstd::prelude::*;

use std::path::PathBuf;

use super::notification::{Notification, NotificationLevel};
use super::video::{SubmitAction, ThumbnailLoad};
use crate::data::playlist_data::PlaylistDataView;
use crate::data::playlist_video_settings::settings_after_event;
use crate::data::video_settings::{export_type_after_choice, export_type_after_switch};
use crate::data::{AudioExtension, ExportType, PlaylistData, PlaylistExportSettings, Task};
use crate::error::{error_is, Error, ErrorSeverity};
use crate::events::{PlaylistExportSettingsEvent, PlaylistVideoSettingsEvent};
use crate::helpers::valid_filename;
use crate::text::{is_blank, string_is_blank, trim, trim_string};

verus! {

/// A request to the playlist page.
pub enum AppPlaylistEvent {
    LinkSubmit(String),
    Reset,
    TryPlaylistUrl(String),
    UrlFailed,
    /// The playlist found for a link, and that link.
    UrlSucceeded(PlaylistData, String),
    FetchThumbnail(String),
    /// The thumbnail fetched from a link, and what became of it.
    FinishedThumbnailFetch(String, ThumbnailLoad),
    ExportSettingsEvent(PlaylistExportSettingsEvent),
    /// A change to the settings of the video at an index of the playlist.
    PlaylistVideoSettingsEvent(usize, PlaylistVideoSettingsEvent),
}

/// What the playlist page asks its surroundings to do.
pub enum PlaylistModelAction {
    /// Hand this request back to the page.
    Emit(AppPlaylistEvent),
    /// Ask yt-dlp about the link, answering with `UrlSucceeded` or `UrlFailed`.
    FetchPlaylistData(String),
    /// Download the thumbnail at the address, answering with
    /// `FinishedThumbnailFetch`.
    FetchThumbnail(String),
    /// Show the placeholder thumbnail.
    LoadPlaceholderThumbnail,
    Notify(Notification),
    ShowError(Error),
}

/// The playlist page's state.
#[derive(Debug)]
pub struct AppPlaylistData {
    pub searching: bool,
    pub link: String,
    pub playlist: Option<PlaylistData>,
    pub thumbnail_generation: usize,
    pub export_settings: PlaylistExportSettings,
}

/// The playlist of the page as plain values.
pub open spec fn playlist_view(p: Option<PlaylistData>) -> Option<PlaylistDataView> {
    match p {
        Some(d) => Some(d@),
        None => None,
    }
}

/// Whether `s` is the page after a reset from `old`: no link, no playlist, new
/// settings for an empty title, and a new thumbnail generation. Whether a
/// search runs is left to the caller.
pub open spec fn is_playlist_reset_of(s: AppPlaylistData, old: AppPlaylistData) -> bool {
    &&& s.link@.len() == 0
    &&& s.playlist is None
    &&& s.export_settings.title@.len() == 0
    &&& s.export_settings.export_type == ExportType::Audio(AudioExtension::Mp3)
    &&& s.thumbnail_generation == old.thumbnail_generation + 1
}

/// The notice shown for a link that finds nothing.
pub open spec fn is_invalid_playlist_url_notice(a: PlaylistModelAction) -> bool {
    a matches PlaylistModelAction::Notify(n) && n.level == NotificationLevel::Error && n.message@
        == "Invalid URL, please try again"@
}

impl AppPlaylistData {
    /// The page with no link and no playlist.
    pub fn new() -> (s: Self)
        ensures
            !s.searching,
            s.link@.len() == 0,
            s.playlist is None,
            s.thumbnail_generation == 0,
            s.export_settings.title@.len() == 0,
            s.export_settings.export_type == ExportType::Audio(AudioExtension::Mp3),
    {
        let s = AppPlaylistData {
            searching: false,
            link: String::new(),
            playlist: None,
            thumbnail_generation: 0,
            export_settings: PlaylistExportSettings::new(String::new()),
        };
        assert(s.export_settings.title@ =~= Seq::<char>::empty());
        s
    }

    fn reset(&mut self) -> (actions: Vec<PlaylistModelAction>)
        requires
            old(self).thumbnail_generation < usize::MAX,
        ensures
            is_playlist_reset_of(*final(self), *old(self)),
            final(self).searching == old(self).searching,
            actions@.len() == 1,
            actions@[0] is LoadPlaceholderThumbnail,
    {
        self.link = String::new();
        self.playlist = None;
        self.export_settings = PlaylistExportSettings::new(String::new());
        assert(self.export_settings.title@ =~= Seq::<char>::empty());
        self.thumbnail_generation = self.thumbnail_generation + 1;
        vec![PlaylistModelAction::LoadPlaceholderThumbnail]
    }

    /// Whether a fetched thumbnail belongs to the playlist on the page.
    pub fn thumbnail_is_current(&self, link: &String) -> (r: bool)
        ensures
            r == (self.playlist matches Some(p) && p@.thumbnail == link@),
    {
        match &self.playlist {
            Some(playlist) => *playlist.thumbnail() == *link,
            None => false,
        }
    }

    /// Handles a request to the page, as the single-video page does, and in
    /// addition applies a change of a video's settings to the shown playlist.
    pub fn event(&mut self, event: AppPlaylistEvent) -> (actions: Vec<PlaylistModelAction>)
        requires
            old(self).thumbnail_generation < usize::MAX,
        ensures
            match event {
                AppPlaylistEvent::LinkSubmit(text) => if old(self).link@ == text@ {
                    &&& *final(self) == *old(self)
                    &&& actions@.len() == 0
                } else if !is_blank(text@) {
                    &&& final(self).link@ == text@
                    &&& final(self).playlist == old(self).playlist
                    &&& final(self).searching == old(self).searching
                    &&& final(self).thumbnail_generation == old(self).thumbnail_generation
                    &&& final(self).export_settings == old(self).export_settings
                    &&& actions@.len() == 1
                    &&& actions@[0] matches PlaylistModelAction::Emit(
                        AppPlaylistEvent::TryPlaylistUrl(u),
                    ) && u@ == trim(text@)
                } else {
                    &&& is_playlist_reset_of(*final(self), *old(self))
                    &&& final(self).searching == old(self).searching
                    &&& actions@.len() == 1
                    &&& actions@[0] is LoadPlaceholderThumbnail
                },
                AppPlaylistEvent::Reset => {
                    &&& is_playlist_reset_of(*final(self), *old(self))
                    &&& final(self).searching == old(self).searching
                    &&& actions@.len() == 1
                    &&& actions@[0] is LoadPlaceholderThumbnail
                },
                AppPlaylistEvent::TryPlaylistUrl(url) => {
                    &&& final(self).searching
                    &&& final(self).link == old(self).link
                    &&& final(self).playlist == old(self).playlist
                    &&& final(self).thumbnail_generation == old(self).thumbnail_generation
                    &&& final(self).export_settings == old(self).export_settings
                    &&& actions@.len() == 1
                    &&& actions@[0] matches PlaylistModelAction::FetchPlaylistData(u) && u == url
                },
                AppPlaylistEvent::UrlFailed => {
                    &&& !final(self).searching
                    &&& actions@.len() >= 1
                    &&& is_invalid_playlist_url_notice(actions@[0])
                    &&& if old(self).playlist is Some {
                        &&& is_playlist_reset_of(*final(self), *old(self))
                        &&& actions@.len() == 2
                        &&& actions@[1] is LoadPlaceholderThumbnail
                    } else {
                        &&& final(self).link == old(self).link
                        &&& final(self).playlist == old(self).playlist
                        &&& final(self).thumbnail_generation == old(self).thumbnail_generation
                        &&& final(self).export_settings == old(self).export_settings
                        &&& actions@.len() == 1
                    }
                },
                AppPlaylistEvent::UrlSucceeded(data, url) => {
                    &&& !final(self).searching
                    &&& final(self).link == old(self).link
                    &&& final(self).thumbnail_generation == old(self).thumbnail_generation
                    &&& if old(self).link@ == url@ && playlist_view(old(self).playlist) != Some(
                        data@,
                    ) {
                        &&& final(self).playlist == Some(data)
                        &&& final(self).export_settings.title@ == valid_filename(data@.title)
                        &&& final(self).export_settings.export_type == ExportType::Audio(
                            AudioExtension::Mp3,
                        )
                        &&& actions@.len() == 1
                        &&& actions@[0] matches PlaylistModelAction::Emit(
                            AppPlaylistEvent::FetchThumbnail(t),
                        ) && t@ == data@.thumbnail
                    } else {
                        &&& final(self).playlist == old(self).playlist
                        &&& final(self).export_settings == old(self).export_settings
                        &&& actions@.len() == 0
                    }
                },
                AppPlaylistEvent::FetchThumbnail(url) => {
                    &&& *final(self) == *old(self)
                    &&& actions@.len() == 1
                    &&& actions@[0] matches PlaylistModelAction::FetchThumbnail(u) && u == url
                },
                AppPlaylistEvent::FinishedThumbnailFetch(link, load) => {
                    &&& final(self).link == old(self).link
                    &&& final(self).playlist == old(self).playlist
                    &&& final(self).searching == old(self).searching
                    &&& final(self).export_settings == old(self).export_settings
                    &&& if (old(self).playlist matches Some(p) && p@.thumbnail == link@) {
                        match load {
                            ThumbnailLoad::BytesFailed(msg) => {
                                &&& final(self).thumbnail_generation
                                    == old(self).thumbnail_generation
                                &&& actions@.len() == 1
                                &&& actions@[0] matches PlaylistModelAction::ShowError(e)
                                    && error_is(
                                    e,
                                    202,
                                    ErrorSeverity::Warning,
                                    "Reqwest Response Bytes Conversion Failed"@,
                                    Some(
                                        "Failed convert a response to bytes due to the following error from reqwest: "@
                                            + msg@,
                                    ),
                                )
                            },
                            _ => {
                                &&& final(self).thumbnail_generation
                                    == old(self).thumbnail_generation + 1
                                &&& actions@.len() == 0
                            },
                        }
                    } else {
                        &&& final(self).thumbnail_generation == old(self).thumbnail_generation
                        &&& actions@.len() == 0
                    }
                },
                AppPlaylistEvent::ExportSettingsEvent(e) => {
                    &&& final(self).link == old(self).link
                    &&& final(self).playlist == old(self).playlist
                    &&& final(self).searching == old(self).searching
                    &&& final(self).thumbnail_generation == old(self).thumbnail_generation
                    &&& actions@.len() == 0
                    &&& match e {
                        PlaylistExportSettingsEvent::ChangeTitle(t) => {
                            &&& final(self).export_settings.title@ == valid_filename(t@)
                            &&& final(self).export_settings.export_type
                                == old(self).export_settings.export_type
                        },
                        PlaylistExportSettingsEvent::SetToVideo(b) => {
                            &&& final(self).export_settings.title
                                == old(self).export_settings.title
                            &&& final(self).export_settings.export_type
                                == export_type_after_switch(
                                old(self).export_settings.export_type,
                                b,
                            )
                        },
                        PlaylistExportSettingsEvent::SetExtension(x) => {
                            &&& final(self).export_settings.title
                                == old(self).export_settings.title
                            &&& final(self).export_settings.export_type
                                == export_type_after_choice(
                                old(self).export_settings.export_type,
                                x,
                            )
                        },
                    }
                },
                AppPlaylistEvent::PlaylistVideoSettingsEvent(index, e) => {
                    &&& final(self).link == old(self).link
                    &&& final(self).searching == old(self).searching
                    &&& final(self).thumbnail_generation == old(self).thumbnail_generation
                    &&& final(self).export_settings == old(self).export_settings
                    &&& actions@.len() == 0
                    &&& match old(self).playlist {
                        None => final(self).playlist is None,
                        Some(p) => final(self).playlist matches Some(q) && if index
                            < p@.videos.len() {
                            q@ == (PlaylistDataView {
                                videos: p@.videos.update(
                                    index as int,
                                    (
                                        p@.videos[index as int].0,
                                        settings_after_event(p@.videos[index as int].1, e),
                                    ),
                                ),
                                ..p@
                            })
                        } else {
                            q@ == p@
                        },
                    }
                },
            },
    {
        match event {
            AppPlaylistEvent::LinkSubmit(text) => {
                if !(self.link == text) {
                    if !string_is_blank(text.as_str()) {
                        let url = trim_string(text.as_str());
                        self.link = text;
                        vec![PlaylistModelAction::Emit(AppPlaylistEvent::TryPlaylistUrl(url))]
                    } else {
                        self.link = text;
                        self.reset()
                    }
                } else {
                    Vec::new()
                }
            },
            AppPlaylistEvent::Reset => self.reset(),
            AppPlaylistEvent::TryPlaylistUrl(url) => {
                self.searching = true;
                vec![PlaylistModelAction::FetchPlaylistData(url)]
            },
            AppPlaylistEvent::UrlFailed => {
                self.searching = false;
                let mut actions = vec![
                    PlaylistModelAction::Notify(
                        Notification::new(NotificationLevel::Error, "Invalid URL, please try again"),
                    ),
                ];
                if self.playlist.is_some() {
                    let mut more = self.reset();
                    actions.append(&mut more);
                }
                actions
            },
            AppPlaylistEvent::UrlSucceeded(data, url) => {
                self.searching = false;
                if self.link == url {
                    let differs = match &self.playlist {
                        Some(p) => !p.same(&data),
                        None => true,
                    };
                    if differs {
                        let thumbnail = data.thumbnail().clone();
                        self.export_settings = PlaylistExportSettings::new(data.title().clone());
                        self.playlist = Some(data);
                        return vec![
                            PlaylistModelAction::Emit(AppPlaylistEvent::FetchThumbnail(thumbnail)),
                        ];
                    }
                }
                Vec::new()
            },
            AppPlaylistEvent::FetchThumbnail(url) => vec![PlaylistModelAction::FetchThumbnail(url)],
            AppPlaylistEvent::FinishedThumbnailFetch(link, load) => {
                if self.thumbnail_is_current(&link) {
                    match load {
                        ThumbnailLoad::BytesFailed(msg) => {
                            let mut description = String::from_str(
                                "Failed convert a response to bytes due to the following error from reqwest: ",
                            );
                            crate::text::push_str_chars(&mut description, msg.as_str());
                            let error = Error::new(
                                202,
                                String::from_str("Reqwest Response Bytes Conversion Failed"),
                                ErrorSeverity::Warning,
                                Some(description),
                            );
                            return vec![PlaylistModelAction::ShowError(error)];
                        },
                        _ => {
                            self.thumbnail_generation = self.thumbnail_generation + 1;
                        },
                    }
                }
                Vec::new()
            },
            AppPlaylistEvent::ExportSettingsEvent(e) => {
                self.export_settings.event(e);
                Vec::new()
            },
            AppPlaylistEvent::PlaylistVideoSettingsEvent(index, e) => {
                match self.playlist.take() {
                    Some(mut data) => {
                        data.video_event(index, e);
                        self.playlist = Some(data);
                    },
                    None => {},
                }
                Vec::new()
            },
        }
    }
}

/// The actions of "Create Task" for a playlist: with an export location and a
/// playlist, a playlist task is submitted and the user told so; otherwise an
/// error for each of the two that is missing. The page is reset either way.
pub fn submit_playlist_task(
    location: Option<PathBuf>,
    data: Option<PlaylistData>,
    settings: PlaylistExportSettings,
) -> (actions: Vec<SubmitAction>)
    ensures
        actions@.last() is ResetPage,
        match (location, data) {
            (Some(l), Some(d)) => {
                &&& actions@.len() == 3
                &&& actions@[0] matches SubmitAction::SubmitTask(t) && t@.location == l && t@.data
                    == crate::data::TaskData::Playlist(d, settings)
                &&& actions@[1] matches SubmitAction::Notify(n) && n.level
                    == NotificationLevel::Success && n.message@ == "Task Created Successfully"@
            },
            (l, d) => {
                &&& actions@.len() == 1 + (if l is None {
                    1int
                } else {
                    0
                }) + (if d is None {
                    1int
                } else {
                    0
                })
                &&& l is None ==> super::video::is_missing_error(actions@[0], 4)
                &&& d is None ==> super::video::is_missing_error(actions@[actions@.len() - 2], 5)
            },
        },
{
    let mut actions: Vec<SubmitAction> = Vec::new();
    match (location, data) {
        (Some(location), Some(data)) => {
            actions.push(SubmitAction::SubmitTask(Task::playlist(location, data, settings)));
            actions.push(
                SubmitAction::Notify(
                    Notification::new(NotificationLevel::Success, "Task Created Successfully"),
                ),
            );
        },
        (location, data) => {
            if location.is_none() {
                actions.push(
                    SubmitAction::ShowError(
                        Error::from_parts(
                            4,
                            "Export Location Unexpectedly None",
                            ErrorSeverity::Error,
                            None,
                        ),
                    ),
                );
            }
            if data.is_none() {
                actions.push(
                    SubmitAction::ShowError(
                        Error::from_parts(5, "Video Data Unexpectedly None", ErrorSeverity::Error, None),
                    ),
                );
            }
        },
    }
    actions.push(SubmitAction::ResetPage);
    actions
}

} // verus!
