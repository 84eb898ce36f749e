//! The settings of one video within a playlist.
use vstd::prelude::*;

use super::export_type::ExportType;
use super::video_settings::VideoExportSettings;
use crate::events::PlaylistVideoSettingsEvent;
use crate::helpers::{is_valid_filename, make_filename_valid, valid_filename};

verus! {

/// The file name of one video of a playlist, whether it is being renamed, and
/// whether it is exported.
#[derive(Debug)]
pub struct PlaylistVideoSettings {
    pub title: String,
    pub editing: bool,
    pub included: bool,
}

/// The settings of a playlist video as plain values.
pub struct PlaylistVideoSettingsView {
    pub title: Seq<char>,
    pub editing: bool,
    pub included: bool,
}

impl View for PlaylistVideoSettings {
    type V = PlaylistVideoSettingsView;

    open spec fn view(&self) -> PlaylistVideoSettingsView {
        PlaylistVideoSettingsView { title: self.title@, editing: self.editing, included: self.included }
    }
}

/// The settings after a change: inclusion is set, renaming starts, or
/// renaming ends with a new title (made a valid file name) when it had started.
pub open spec fn settings_after_event(
    s: PlaylistVideoSettingsView,
    event: PlaylistVideoSettingsEvent,
) -> PlaylistVideoSettingsView {
    match event {
        PlaylistVideoSettingsEvent::SetInclusion(b) => PlaylistVideoSettingsView { included: b, ..s },
        PlaylistVideoSettingsEvent::StartEdit => PlaylistVideoSettingsView { editing: true, ..s },
        PlaylistVideoSettingsEvent::EndEdit(t) => if s.editing {
            PlaylistVideoSettingsView { editing: false, title: valid_filename(t@), ..s }
        } else {
            s
        },
    }
}

impl Clone for PlaylistVideoSettings {
    fn clone(&self) -> (r: Self)
        ensures
            r == *self,
    {
        PlaylistVideoSettings {
            title: self.title.clone(),
            editing: self.editing,
            included: self.included,
        }
    }
}

impl PlaylistVideoSettings {
    /// A video's settings when the playlist is read: the title made a valid
    /// file name, not being renamed, included.
    pub fn new(title: String) -> (s: Self)
        ensures
            s.title@ == valid_filename(title@),
            !s.editing,
            s.included,
    {
        Self { title: make_filename_valid(title), editing: false, included: true }
    }

    /// Applies a change: inclusion is set, renaming starts, or renaming ends
    /// with a new title (made a valid file name) when it had started.
    pub fn event(&mut self, event: PlaylistVideoSettingsEvent)
        ensures
            final(self)@ == settings_after_event(old(self)@, event),
    {
        match event {
            PlaylistVideoSettingsEvent::SetInclusion(inclusion) => {
                self.included = inclusion;
            },
            PlaylistVideoSettingsEvent::StartEdit => {
                self.editing = true;
            },
            PlaylistVideoSettingsEvent::EndEdit(text) => {
                if self.editing {
                    self.editing = false;
                    self.title = make_filename_valid(text);
                }
            },
        }
    }

    /// The settings a single video of the playlist is exported with.
    pub fn to_video_setting(&self, export_type: ExportType) -> (s: VideoExportSettings)
        ensures
            s.title == self.title,
            s.export_type == export_type,
    {
        VideoExportSettings { title: self.title.clone(), export_type }
    }
}

/// A video's title stays a valid file name: a new title is cleaned, and no
/// change makes a valid title invalid.
pub proof fn law_title_stays_valid(title: Seq<char>, s: PlaylistVideoSettingsView, e: PlaylistVideoSettingsEvent)
    ensures
        is_valid_filename(valid_filename(title)),
        is_valid_filename(s.title) ==> is_valid_filename(settings_after_event(s, e).title),
{
    crate::helpers::law_valid_filename(title);
    match e {
        PlaylistVideoSettingsEvent::EndEdit(t) => crate::helpers::law_valid_filename(t@),
        _ => {},
    }
}

/// Each change does what it says, whatever the settings were: inclusion is
/// set to the value asked for (so unticking and ticking a video again puts it
/// back into the export), renaming starts without touching the rest, and the
/// end of a renaming takes the cleaned new title only when renaming had
/// started. No change but inclusion touches inclusion.
pub proof fn law_video_settings_events(s: PlaylistVideoSettingsView, b: bool, t: String)
    ensures
        settings_after_event(s, PlaylistVideoSettingsEvent::SetInclusion(b)).included == b,
        settings_after_event(s, PlaylistVideoSettingsEvent::SetInclusion(b)).title == s.title,
        settings_after_event(s, PlaylistVideoSettingsEvent::SetInclusion(b)).editing == s.editing,
        settings_after_event(
            settings_after_event(s, PlaylistVideoSettingsEvent::SetInclusion(!b)),
            PlaylistVideoSettingsEvent::SetInclusion(b),
        ).included == b,
        settings_after_event(s, PlaylistVideoSettingsEvent::StartEdit).editing,
        settings_after_event(s, PlaylistVideoSettingsEvent::StartEdit).title == s.title,
        settings_after_event(s, PlaylistVideoSettingsEvent::StartEdit).included == s.included,
        s.editing ==> settings_after_event(s, PlaylistVideoSettingsEvent::EndEdit(t)).title
            == valid_filename(t@) && !settings_after_event(
            s,
            PlaylistVideoSettingsEvent::EndEdit(t),
        ).editing,
        !s.editing ==> settings_after_event(s, PlaylistVideoSettingsEvent::EndEdit(t)) == s,
        settings_after_event(s, PlaylistVideoSettingsEvent::EndEdit(t)).included == s.included,
{
}

} // verus!
