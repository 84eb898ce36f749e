//! How a single video is exported, and how a change of settings acts.
use vstd::prelude::*;

use super::export_type::{AudioExtension, ExportType, VideoExtension};
use crate::events::VideoExportSettingsEvent;
use crate::helpers::{is_valid_filename, make_filename_valid, valid_filename};

verus! {

/// The export type after the audio/video switch is set: video switches to mp4
/// and audio to mp3, unless the type already has the asked kind.
pub open spec fn export_type_after_switch(current: ExportType, to_video: bool) -> ExportType {
    if to_video && current is Audio {
        ExportType::Video(VideoExtension::Mp4)
    } else if !to_video && current is Video {
        ExportType::Audio(AudioExtension::Mp3)
    } else {
        current
    }
}

/// The export type after an extension is chosen: taken only when it has the
/// kind of the current type.
pub open spec fn export_type_after_choice(current: ExportType, chosen: ExportType) -> ExportType {
    if (chosen is Audio && current is Audio) || (chosen is Video && current is Video) {
        chosen
    } else {
        current
    }
}

/// Computes `export_type_after_switch`.
pub fn switch_export_type(current: ExportType, to_video: bool) -> (r: ExportType)
    ensures
        r == export_type_after_switch(current, to_video),
{
    if to_video {
        if current.is_audio() {
            return VideoExtension::Mp4.into();
        }
    } else {
        if current.is_video() {
            return AudioExtension::Mp3.into();
        }
    }
    current
}

/// Computes `export_type_after_choice`.
pub fn choose_export_type(current: ExportType, chosen: ExportType) -> (r: ExportType)
    ensures
        r == export_type_after_choice(current, chosen),
{
    if (chosen.is_audio() && current.is_audio()) || (chosen.is_video() && current.is_video()) {
        chosen
    } else {
        current
    }
}

/// The name and format a single video is exported with.
#[derive(Debug)]
pub struct VideoExportSettings {
    pub title: String,
    pub export_type: ExportType,
}

impl Clone for VideoExportSettings {
    fn clone(&self) -> (r: Self)
        ensures
            r == *self,
    {
        VideoExportSettings { title: self.title.clone(), export_type: self.export_type }
    }
}

impl VideoExportSettings {
    /// Settings for a new export: the title made a valid file name, exported
    /// as mp3.
    pub fn new(title: String) -> (s: Self)
        ensures
            s.title@ == valid_filename(title@),
            s.export_type == ExportType::Audio(AudioExtension::Mp3),
    {
        Self { title: make_filename_valid(title), export_type: AudioExtension::Mp3.into() }
    }

    /// Applies a change: a new title is made a valid file name, the
    /// audio/video switch and the choice of extension act as
    /// `export_type_after_switch` and `export_type_after_choice` say.
    pub fn event(&mut self, event: VideoExportSettingsEvent)
        ensures
            match event {
                VideoExportSettingsEvent::ChangeTitle(t) => {
                    &&& final(self).title@ == valid_filename(t@)
                    &&& final(self).export_type == old(self).export_type
                },
                VideoExportSettingsEvent::SetToVideo(b) => {
                    &&& final(self).title == old(self).title
                    &&& final(self).export_type == export_type_after_switch(
                        old(self).export_type,
                        b,
                    )
                },
                VideoExportSettingsEvent::SetExtension(e) => {
                    &&& final(self).title == old(self).title
                    &&& final(self).export_type == export_type_after_choice(
                        old(self).export_type,
                        e,
                    )
                },
            },
            (final(self).title@, final(self).export_type) == video_settings_after(
                old(self).title@,
                old(self).export_type,
                event,
            ),
    {
        match event {
            VideoExportSettingsEvent::ChangeTitle(title) => {
                self.title = make_filename_valid(title);
            },
            VideoExportSettingsEvent::SetToVideo(set_to_video) => {
                self.export_type = switch_export_type(self.export_type, set_to_video);
            },
            VideoExportSettingsEvent::SetExtension(extension) => {
                self.export_type = choose_export_type(self.export_type, extension);
            },
        }
    }
}

/// The audio/video switch leaves a type of the asked kind; choosing an
/// extension never changes the kind, and takes the extension when it has that
/// kind.
pub proof fn law_export_type_changes(current: ExportType, to_video: bool, chosen: ExportType)
    ensures
        export_type_after_switch(current, to_video) is Video == to_video,
        export_type_after_choice(current, chosen) is Audio == current is Audio,
        (chosen is Audio == current is Audio) ==> export_type_after_choice(current, chosen)
            == chosen,
{
}

/// The title and export type after a change.
pub open spec fn video_settings_after(
    title: Seq<char>,
    export_type: ExportType,
    event: VideoExportSettingsEvent,
) -> (Seq<char>, ExportType) {
    match event {
        VideoExportSettingsEvent::ChangeTitle(t) => (valid_filename(t@), export_type),
        VideoExportSettingsEvent::SetToVideo(b) => (
            title,
            export_type_after_switch(export_type, b),
        ),
        VideoExportSettingsEvent::SetExtension(e) => (
            title,
            export_type_after_choice(export_type, e),
        ),
    }
}

/// The title and export type before the changes, and after each of them in
/// turn.
pub open spec fn video_settings_states(
    title: Seq<char>,
    export_type: ExportType,
    events: Seq<VideoExportSettingsEvent>,
) -> Seq<(Seq<char>, ExportType)>
    decreases events.len(),
{
    if events.len() == 0 {
        seq![(title, export_type)]
    } else {
        let prev = video_settings_states(title, export_type, events.drop_last());
        prev.push(video_settings_after(prev.last().0, prev.last().1, events.last()))
    }
}

proof fn lemma_video_settings_states(
    title: Seq<char>,
    export_type: ExportType,
    events: Seq<VideoExportSettingsEvent>,
)
    requires
        is_valid_filename(title),
    ensures
        video_settings_states(title, export_type, events).len() == events.len() + 1,
        forall|i: int|
            0 <= i < events.len() + 1 ==> is_valid_filename(
                #[trigger] video_settings_states(title, export_type, events)[i].0,
            ),
        forall|i: int|
            0 <= i < events.len() && (video_settings_states(title, export_type, events)[i
                + 1].1 is Audio) != (#[trigger] video_settings_states(
                title,
                export_type,
                events,
            )[i].1 is Audio) ==> events[i] is SetToVideo,
    decreases events.len(),
{
    if events.len() > 0 {
        let d = events.drop_last();
        lemma_video_settings_states(title, export_type, d);
        let prev = video_settings_states(title, export_type, d);
        let st = video_settings_states(title, export_type, events);
        let e = events.last();
        let last = video_settings_after(prev.last().0, prev.last().1, e);
        assert(st == prev.push(last));
        match e {
            VideoExportSettingsEvent::ChangeTitle(t) => crate::helpers::law_valid_filename(t@),
            VideoExportSettingsEvent::SetExtension(x) => {
                law_export_type_changes(prev.last().1, false, x);
            },
            _ => {},
        }
        assert(is_valid_filename(prev[prev.len() - 1].0));
        assert forall|i: int| 0 <= i < events.len() + 1 implies is_valid_filename(
            #[trigger] st[i].0,
        ) by {
            if i < prev.len() {
                assert(st[i] == prev[i]);
            }
        }
        assert forall|i: int|
            0 <= i < events.len() && (st[i + 1].1 is Audio) != (#[trigger] st[i].1
                is Audio) implies events[i] is SetToVideo by {
            if i + 1 < prev.len() {
                assert(st[i] == prev[i]);
                assert(st[i + 1] == prev[i + 1]);
                assert(events[i] == d[i]);
            } else {
                assert(st[i] == prev.last());
                assert(st[i + 1] == last);
            }
        }
    }
}

/// Whatever changes are made to a new video's export settings, the title stays
/// a valid file name, and the export type switches between audio and video
/// only on the audio/video switch.
pub proof fn law_video_settings_invariant(
    title: Seq<char>,
    events: Seq<VideoExportSettingsEvent>,
)
    ensures
        ({
            let st = video_settings_states(
                valid_filename(title),
                ExportType::Audio(AudioExtension::Mp3),
                events,
            );
            &&& st.len() == events.len() + 1
            &&& forall|i: int| 0 <= i < st.len() ==> is_valid_filename(#[trigger] st[i].0)
            &&& forall|i: int|
                0 <= i < events.len() && (st[i + 1].1 is Audio) != (#[trigger] st[i].1 is Audio)
                    ==> events[i] is SetToVideo
        }),
{
    crate::helpers::law_valid_filename(title);
    lemma_video_settings_states(
        valid_filename(title),
        ExportType::Audio(AudioExtension::Mp3),
        events,
    );
}

} // verus!
