//! How a playlist is exported, and how a change of settings acts.
use vstd::prelude::*;

use super::export_type::{AudioExtension, ExportType};
use super::video_settings::{
    choose_export_type, export_type_after_choice, export_type_after_switch, switch_export_type,
};
use crate::events::PlaylistExportSettingsEvent;
use crate::helpers::{is_valid_filename, make_filename_valid, valid_filename};

verus! {

/// The folder name and format a playlist is exported with.
#[derive(Debug)]
pub struct PlaylistExportSettings {
    pub title: String,
    pub export_type: ExportType,
}

impl Clone for PlaylistExportSettings {
    fn clone(&self) -> (r: Self)
        ensures
            r == *self,
    {
        PlaylistExportSettings { title: self.title.clone(), export_type: self.export_type }
    }
}

impl PlaylistExportSettings {
    /// Settings for a new export: the title made a valid file name, exported
    /// as mp3.
    pub fn new(title: String) -> (s: Self)
        ensures
            s.title@ == valid_filename(title@),
            s.export_type == ExportType::Audio(AudioExtension::Mp3),
    {
        Self { title: make_filename_valid(title), export_type: AudioExtension::Mp3.into() }
    }

    /// Applies a change, as for a single video's settings.
    pub fn event(&mut self, event: PlaylistExportSettingsEvent)
        ensures
            match event {
                PlaylistExportSettingsEvent::ChangeTitle(t) => {
                    &&& final(self).title@ == valid_filename(t@)
                    &&& final(self).export_type == old(self).export_type
                },
                PlaylistExportSettingsEvent::SetToVideo(b) => {
                    &&& final(self).title == old(self).title
                    &&& final(self).export_type == export_type_after_switch(
                        old(self).export_type,
                        b,
                    )
                },
                PlaylistExportSettingsEvent::SetExtension(e) => {
                    &&& final(self).title == old(self).title
                    &&& final(self).export_type == export_type_after_choice(
                        old(self).export_type,
                        e,
                    )
                },
            },
            (final(self).title@, final(self).export_type) == playlist_settings_after(
                old(self).title@,
                old(self).export_type,
                event,
            ),
    {
        match event {
            PlaylistExportSettingsEvent::ChangeTitle(title) => {
                self.title = make_filename_valid(title);
            },
            PlaylistExportSettingsEvent::SetToVideo(set_to_video) => {
                self.export_type = switch_export_type(self.export_type, set_to_video);
            },
            PlaylistExportSettingsEvent::SetExtension(extension) => {
                self.export_type = choose_export_type(self.export_type, extension);
            },
        }
    }
}

/// The title and export type after a change.
pub open spec fn playlist_settings_after(
    title: Seq<char>,
    export_type: ExportType,
    event: PlaylistExportSettingsEvent,
) -> (Seq<char>, ExportType) {
    match event {
        PlaylistExportSettingsEvent::ChangeTitle(t) => (valid_filename(t@), export_type),
        PlaylistExportSettingsEvent::SetToVideo(b) => (
            title,
            export_type_after_switch(export_type, b),
        ),
        PlaylistExportSettingsEvent::SetExtension(e) => (
            title,
            export_type_after_choice(export_type, e),
        ),
    }
}

/// The title and export type before the changes, and after each of them in
/// turn.
pub open spec fn playlist_settings_states(
    title: Seq<char>,
    export_type: ExportType,
    events: Seq<PlaylistExportSettingsEvent>,
) -> Seq<(Seq<char>, ExportType)>
    decreases events.len(),
{
    if events.len() == 0 {
        seq![(title, export_type)]
    } else {
        let prev = playlist_settings_states(title, export_type, events.drop_last());
        prev.push(playlist_settings_after(prev.last().0, prev.last().1, events.last()))
    }
}

proof fn lemma_playlist_settings_states(
    title: Seq<char>,
    export_type: ExportType,
    events: Seq<PlaylistExportSettingsEvent>,
)
    requires
        is_valid_filename(title),
    ensures
        playlist_settings_states(title, export_type, events).len() == events.len() + 1,
        forall|i: int|
            0 <= i < events.len() + 1 ==> is_valid_filename(
                #[trigger] playlist_settings_states(title, export_type, events)[i].0,
            ),
        forall|i: int|
            0 <= i < events.len() && (playlist_settings_states(title, export_type, events)[i
                + 1].1 is Audio) != (#[trigger] playlist_settings_states(
                title,
                export_type,
                events,
            )[i].1 is Audio) ==> events[i] is SetToVideo,
    decreases events.len(),
{
    if events.len() > 0 {
        let d = events.drop_last();
        lemma_playlist_settings_states(title, export_type, d);
        let prev = playlist_settings_states(title, export_type, d);
        let st = playlist_settings_states(title, export_type, events);
        let e = events.last();
        let last = playlist_settings_after(prev.last().0, prev.last().1, e);
        assert(st == prev.push(last));
        match e {
            PlaylistExportSettingsEvent::ChangeTitle(t) => crate::helpers::law_valid_filename(t@),
            PlaylistExportSettingsEvent::SetExtension(x) => {
                super::video_settings::law_export_type_changes(prev.last().1, false, x);
            },
            _ => {},
        }
        assert(is_valid_filename(prev[prev.len() - 1].0));
        assert forall|i: int| 0 <= i < events.len() + 1 implies is_valid_filename(
            #[trigger] st[i].0,
        ) by {
            if i < prev.len() {
                assert(st[i] == prev[i]);
            }
        }
        assert forall|i: int|
            0 <= i < events.len() && (st[i + 1].1 is Audio) != (#[trigger] st[i].1
                is Audio) implies events[i] is SetToVideo by {
            if i + 1 < prev.len() {
                assert(st[i] == prev[i]);
                assert(st[i + 1] == prev[i + 1]);
                assert(events[i] == d[i]);
            } else {
                assert(st[i] == prev.last());
                assert(st[i + 1] == last);
            }
        }
    }
}

/// Whatever changes are made to new playlist export settings, the title stays
/// a valid file name, and the export type switches between audio and video
/// only on the audio/video switch.
pub proof fn law_playlist_settings_invariant(
    title: Seq<char>,
    events: Seq<PlaylistExportSettingsEvent>,
)
    ensures
        ({
            let st = playlist_settings_states(
                valid_filename(title),
                ExportType::Audio(AudioExtension::Mp3),
                events,
            );
            &&& st.len() == events.len() + 1
            &&& forall|i: int| 0 <= i < st.len() ==> is_valid_filename(#[trigger] st[i].0)
            &&& forall|i: int|
                0 <= i < events.len() && (st[i + 1].1 is Audio) != (#[trigger] st[i].1 is Audio)
                    ==> events[i] is SetToVideo
        }),
{
    crate::helpers::law_valid_filename(title);
    lemma_playlist_settings_states(
        valid_filename(title),
        ExportType::Audio(AudioExtension::Mp3),
        events,
    );
}

} // verus!
