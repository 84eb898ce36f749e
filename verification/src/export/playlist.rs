//! The decisions of exporting a playlist: which videos, in which order, with
//! which settings, and how its errors are shown.
use vstd::prelude::*;

use std::path::PathBuf;

use super::video::{VideoExporterError, VideoProgress};
use crate::data::export_type::ExportType;
use crate::data::playlist_data::{PlaylistData, PlaylistEntryView, entries_view};
use crate::data::playlist_video_settings::{PlaylistVideoSettings, PlaylistVideoSettingsView};
use crate::data::video_data::{VideoData, VideoDataView};
use crate::data::{PlaylistExportSettings, VideoExportSettings};
use crate::error::{Error, ErrorSeverity};

verus! {

/// How far the export of a playlist has got. A progress value is the bit
/// pattern of an `f32` from 0.0 to 1.0, carried through unchanged.
#[derive(Clone, Debug)]
pub enum PlaylistProgress {
    StartVideo(PlaylistVideoSettings),
    VideoProgress(u32),
    VideoComplete(usize),
    Done,
}

/// Why a playlist could not be exported.
#[derive(Clone, Debug)]
pub enum PlaylistExporterError {
    /// A file-system error, with its message.
    IOError(String),
    VideoError(VideoExporterError),
}

impl Error {
    /// How a playlist export error is shown: a file-system error with code 13,
    /// titled `Playlist Error: Standard IO Error` and described by its message;
    /// a video's error as that error is shown.
    pub fn from_playlist_error(value: PlaylistExporterError) -> (e: Error)
        ensures
            match value {
                PlaylistExporterError::IOError(m) => {
                    &&& e.title@ == "Playlist Error: Standard IO Error"@
                    &&& e.code == 13
                    &&& e.severity == ErrorSeverity::Error
                    &&& e.description == Some(m)
                },
                PlaylistExporterError::VideoError(v) => {
                    &&& e.title@ == "Video Export: "@ + super::video::video_error_label(v)
                    &&& e.code == super::video::video_error_code(v)
                    &&& e.severity == ErrorSeverity::Error
                    &&& e.description matches Some(d) && d@ == super::video::video_error_message(v)
                },
            },
    {
        match value {
            PlaylistExporterError::IOError(error) => Error::new(
                13,
                String::from_str("Playlist Error: Standard IO Error"),
                ErrorSeverity::Error,
                Some(error),
            ),
            PlaylistExporterError::VideoError(error) => Error::from_video_error(error),
        }
    }
}

/// One video to export as part of a playlist: its place among the exported
/// videos, the video, its settings in the playlist, and the settings it is
/// exported with.
#[derive(Debug)]
pub struct PlaylistVideoJob {
    pub index: usize,
    pub data: VideoData,
    pub entry_settings: PlaylistVideoSettings,
    pub settings: VideoExportSettings,
}

/// A planned video export as plain values.
pub struct PlannedVideo {
    pub index: nat,
    pub video: VideoDataView,
    pub entry_settings: PlaylistVideoSettingsView,
    pub title: Seq<char>,
    pub export_type: ExportType,
}

/// The plain values of a job.
pub open spec fn job_view(j: PlaylistVideoJob) -> PlannedVideo {
    PlannedVideo {
        index: j.index as nat,
        video: j.data@,
        entry_settings: j.entry_settings@,
        title: j.settings.title@,
        export_type: j.settings.export_type,
    }
}

/// The videos a playlist export exports: the included ones, in order, numbered
/// from 0, each under its own title with the playlist's format.
pub open spec fn export_plan(videos: Seq<PlaylistEntryView>, export_type: ExportType) -> Seq<
    PlannedVideo,
>
    decreases videos.len(),
{
    if videos.len() == 0 {
        Seq::empty()
    } else {
        let p = export_plan(videos.drop_last(), export_type);
        let e = videos.last();
        if e.1.included {
            p.push(
                PlannedVideo {
                    index: p.len(),
                    video: e.0,
                    entry_settings: e.1,
                    title: e.1.title,
                    export_type,
                },
            )
        } else {
            p
        }
    }
}

/// The videos to export for a playlist, in order.
pub fn playlist_export_plan(data: &PlaylistData, settings: &PlaylistExportSettings) -> (r: Vec<
    PlaylistVideoJob,
>)
    ensures
        r@.map_values(|j: PlaylistVideoJob| job_view(j)) == export_plan(
            data@.videos,
            settings.export_type,
        ),
{
    let entries = data.iter();
    let ghost all = entries_view(entries@);
    let mut jobs: Vec<PlaylistVideoJob> = Vec::new();
    let mut i: usize = 0;
    while i < entries.len()
        invariant
            i <= entries@.len(),
            all == entries_view(entries@),
            all == data@.videos,
            jobs@.map_values(|j: PlaylistVideoJob| job_view(j)) == export_plan(
                all.take(i as int),
                settings.export_type,
            ),
            jobs@.len() <= i,
        decreases entries@.len() - i,
    {
        let ghost before = jobs@.map_values(|j: PlaylistVideoJob| job_view(j));
        assert(all.take(i + 1).drop_last() =~= all.take(i as int));
        assert(all.take(i + 1).last() == all[i as int]);
        let entry = &entries[i];
        if entry.1.included {
            let job = PlaylistVideoJob {
                index: jobs.len(),
                data: entry.0.clone(),
                entry_settings: entry.1.clone(),
                settings: entry.1.to_video_setting(settings.export_type),
            };
            jobs.push(job);
            assert(jobs@.map_values(|j: PlaylistVideoJob| job_view(j)) =~= before.push(job_view(job)));
        }
        i = i + 1;
    }
    assert(all.take(entries@.len() as int) =~= all);
    jobs
}

/// Every planned video is one the user included, and they are numbered
/// 0, 1, 2, ... in order.
pub proof fn law_export_plan(videos: Seq<PlaylistEntryView>, export_type: ExportType)
    ensures
        forall|k: int|
            0 <= k < export_plan(videos, export_type).len() ==> {
                let p = #[trigger] export_plan(videos, export_type)[k];
                &&& p.index == k
                &&& p.entry_settings.included
                &&& p.title == p.entry_settings.title
                &&& p.export_type == export_type
            },
        export_plan(videos, export_type).len() <= videos.len(),
    decreases videos.len(),
{
    if videos.len() > 0 {
        law_export_plan(videos.drop_last(), export_type);
    }
}


// ---------------------------------------------------------------------------
// The export
// ---------------------------------------------------------------------------

/// The export of a playlist, in the step `S` it has reached. The caller
/// creates the playlist's folder, exports each planned video as a single
/// video, and reports the progress.
pub struct PlaylistExporter<S> {
    pub state: S,
}

/// The first and only step before the export runs.
pub struct Unused {
    pub export_location: PathBuf,
    pub data: PlaylistData,
    pub settings: PlaylistExportSettings,
}

impl PlaylistExporter<Unused> {
    /// An export of `data` with `settings` into a folder under
    /// `export_location`.
    pub fn new(export_location: PathBuf, data: PlaylistData, settings: PlaylistExportSettings) -> (r:
        Self)
        ensures
            r.state.export_location == export_location,
            r.state.data == data,
            r.state.settings == settings,
    {
        PlaylistExporter { state: Unused { export_location, data, settings } }
    }

    /// The name of the folder the videos are exported into, under the export
    /// location: the title of the export.
    pub fn folder_name(&self) -> (r: &String)
        ensures
            r@ == self.state.settings.title@,
    {
        &self.state.settings.title
    }

    /// The videos to export, in order.
    pub fn jobs(&self) -> (r: Vec<PlaylistVideoJob>)
        ensures
            r@.map_values(|j: PlaylistVideoJob| job_view(j)) == export_plan(
                self.state.data@.videos,
                self.state.settings.export_type,
            ),
    {
        playlist_export_plan(&self.state.data, &self.state.settings)
    }
}

/// What a video's progress report becomes within a playlist's export: a
/// progress value is passed on; the end of a video is reported by the
/// playlist's export itself.
pub fn forward_video_progress(p: VideoProgress) -> (r: Option<PlaylistProgress>)
    ensures
        match p {
            VideoProgress::Progress(x) => r matches Some(PlaylistProgress::VideoProgress(y))
                && y == x,
            VideoProgress::Done => r is None,
        },
{
    match p {
        VideoProgress::Progress(x) => Some(PlaylistProgress::VideoProgress(x)),
        VideoProgress::Done => None,
    }
}


// ---------------------------------------------------------------------------
// Running the export, step by step
// ---------------------------------------------------------------------------

/// A playlist's export while it runs: the videos to export, in order, and how
/// many of them are exported.
pub struct PlaylistRun {
    pub jobs: Vec<PlaylistVideoJob>,
    pub next: usize,
}

/// What the caller reports back to a running playlist export.
pub enum PlaylistRunEvent {
    /// Asks for the first step.
    Begin,
    /// The playlist's folder exists.
    FolderCreated,
    /// The playlist's folder could not be created; the message says why.
    FolderFailed(String),
    /// A progress report of the video being exported.
    VideoProgress(VideoProgress),
    /// The video being exported is done.
    VideoExported,
    /// The video being exported failed.
    VideoFailed(VideoExporterError),
}

/// What a running playlist export asks its caller to do.
pub enum PlaylistRunAction {
    /// Create the playlist's folder and the folders above it.
    CreateFolder,
    /// Export the job at this position of the run, as a single video, into
    /// the playlist's folder.
    ExportVideo(usize),
    /// Report the export's progress.
    Report(PlaylistProgress),
    /// The export is over, done or failed.
    Finish(Result<(), PlaylistExporterError>),
}

/// After `next` videos are done: the folder is made ready for the next video
/// if there is one, and otherwise the export is reported done and ends well.
pub open spec fn continue_or_finish(jobs: Seq<PlaylistVideoJob>, next: nat) -> Seq<
    PlaylistRunAction,
> {
    if next < jobs.len() {
        seq![PlaylistRunAction::CreateFolder]
    } else {
        seq![
            PlaylistRunAction::Report(PlaylistProgress::Done),
            PlaylistRunAction::Finish(Ok(())),
        ]
    }
}

/// One step of a playlist's export: how many videos are done afterwards, and
/// what is asked for. The folder is created before each video; each video
/// starts, reports its progress values and completes under its number; after
/// the last video the export is done. The first failure ends the export with
/// that error, and nothing more is reported. An event that comes when no
/// video is left to export asks for nothing.
pub open spec fn run_step(jobs: Seq<PlaylistVideoJob>, next: nat, event: PlaylistRunEvent) -> (
    nat,
    Seq<PlaylistRunAction>,
) {
    match event {
        PlaylistRunEvent::Begin => (next, continue_or_finish(jobs, next)),
        PlaylistRunEvent::FolderCreated => if next < jobs.len() {
            (
                next,
                seq![
                    PlaylistRunAction::Report(
                        PlaylistProgress::StartVideo(jobs[next as int].entry_settings),
                    ),
                    PlaylistRunAction::ExportVideo(next as usize),
                ],
            )
        } else {
            (next, Seq::empty())
        },
        PlaylistRunEvent::FolderFailed(m) => (
            next,
            seq![PlaylistRunAction::Finish(Err(PlaylistExporterError::IOError(m)))],
        ),
        PlaylistRunEvent::VideoProgress(p) => (
            next,
            match p {
                VideoProgress::Progress(x) => seq![
                    PlaylistRunAction::Report(PlaylistProgress::VideoProgress(x)),
                ],
                VideoProgress::Done => Seq::empty(),
            },
        ),
        PlaylistRunEvent::VideoExported => if next < jobs.len() {
            (
                next + 1,
                seq![
                    PlaylistRunAction::Report(
                        PlaylistProgress::VideoComplete(jobs[next as int].index),
                    ),
                ] + continue_or_finish(jobs, next + 1),
            )
        } else {
            (next, Seq::empty())
        },
        PlaylistRunEvent::VideoFailed(e) => (
            next,
            seq![PlaylistRunAction::Finish(Err(PlaylistExporterError::VideoError(e)))],
        ),
    }
}

impl PlaylistRun {
    /// A run of the given jobs, none of them done.
    pub fn new(jobs: Vec<PlaylistVideoJob>) -> (r: Self)
        ensures
            r.jobs == jobs,
            r.next == 0,
    {
        PlaylistRun { jobs, next: 0 }
    }

    fn continue_or_finish(&self) -> (r: Vec<PlaylistRunAction>)
        ensures
            r@ == continue_or_finish(self.jobs@, self.next as nat),
    {
        if self.next < self.jobs.len() {
            vec![PlaylistRunAction::CreateFolder]
        } else {
            vec![
                PlaylistRunAction::Report(PlaylistProgress::Done),
                PlaylistRunAction::Finish(Ok(())),
            ]
        }
    }

    /// Takes one step, as `run_step` says.
    pub fn step(&mut self, event: PlaylistRunEvent) -> (actions: Vec<PlaylistRunAction>)
        ensures
            final(self).jobs == old(self).jobs,
            (final(self).next as nat, actions@) == run_step(
                old(self).jobs@,
                old(self).next as nat,
                event,
            ),
    {
        match event {
            PlaylistRunEvent::Begin => self.continue_or_finish(),
            PlaylistRunEvent::FolderCreated => {
                if self.next < self.jobs.len() {
                    let settings = self.jobs[self.next].entry_settings.clone();
                    vec![
                        PlaylistRunAction::Report(PlaylistProgress::StartVideo(settings)),
                        PlaylistRunAction::ExportVideo(self.next),
                    ]
                } else {
                    Vec::new()
                }
            },
            PlaylistRunEvent::FolderFailed(m) => vec![
                PlaylistRunAction::Finish(Err(PlaylistExporterError::IOError(m))),
            ],
            PlaylistRunEvent::VideoProgress(p) => match forward_video_progress(p) {
                Some(r) => vec![PlaylistRunAction::Report(r)],
                None => Vec::new(),
            },
            PlaylistRunEvent::VideoExported => {
                if self.next < self.jobs.len() {
                    let index = self.jobs[self.next].index;
                    self.next = self.next + 1;
                    let mut actions = vec![
                        PlaylistRunAction::Report(PlaylistProgress::VideoComplete(index)),
                    ];
                    let mut rest = self.continue_or_finish();
                    actions.append(&mut rest);
                    actions
                } else {
                    Vec::new()
                }
            },
            PlaylistRunEvent::VideoFailed(e) => vec![
                PlaylistRunAction::Finish(Err(PlaylistExporterError::VideoError(e))),
            ],
        }
    }
}

impl PlaylistExporter<Unused> {
    /// The run of this export: its planned videos, none of them done.
    pub fn start(&self) -> (r: PlaylistRun)
        ensures
            r.jobs@.map_values(|j: PlaylistVideoJob| job_view(j)) == export_plan(
                self.state.data@.videos,
                self.state.settings.export_type,
            ),
            r.next == 0,
    {
        PlaylistRun::new(self.jobs())
    }
}

/// The progress reports among the actions, in order.
pub open spec fn reports(actions: Seq<PlaylistRunAction>) -> Seq<PlaylistProgress>
    decreases actions.len(),
{
    if actions.len() == 0 {
        Seq::empty()
    } else {
        reports(actions.drop_last()) + match actions.last() {
            PlaylistRunAction::Report(p) => seq![p],
            _ => Seq::empty(),
        }
    }
}

/// The actions of a run from `next` on when every folder is created and every
/// video exported.
pub open spec fn successful_run(jobs: Seq<PlaylistVideoJob>, next: nat) -> Seq<PlaylistRunAction>
    decreases jobs.len() - next,
{
    if next < jobs.len() {
        run_step(jobs, next, PlaylistRunEvent::FolderCreated).1 + run_step(
            jobs,
            next,
            PlaylistRunEvent::VideoExported,
        ).1 + successful_run(jobs, next + 1)
    } else {
        Seq::empty()
    }
}

/// The reports of a successful run from `next` on: each remaining video
/// starts and completes under its number, in order, and then the export is
/// done.
pub open spec fn successful_reports(jobs: Seq<PlaylistVideoJob>, next: nat) -> Seq<
    PlaylistProgress,
>
    decreases jobs.len() - next,
{
    if next < jobs.len() {
        seq![
            PlaylistProgress::StartVideo(jobs[next as int].entry_settings),
            PlaylistProgress::VideoComplete(jobs[next as int].index),
        ] + successful_reports(jobs, next + 1)
    } else {
        seq![PlaylistProgress::Done]
    }
}

proof fn lemma_reports_append(a: Seq<PlaylistRunAction>, b: Seq<PlaylistRunAction>)
    ensures
        reports(a + b) == reports(a) + reports(b),
    decreases b.len(),
{
    if b.len() == 0 {
        assert(a + b =~= a);
        assert(reports(a) + reports(b) =~= reports(a));
    } else {
        lemma_reports_append(a, b.drop_last());
        assert((a + b).drop_last() =~= a + b.drop_last());
        assert((a + b).last() == b.last());
    }
}

proof fn lemma_successful_run(jobs: Seq<PlaylistVideoJob>, next: nat)
    requires
        next < jobs.len(),
    ensures
        reports(successful_run(jobs, next)) == successful_reports(jobs, next),
    decreases jobs.len() - next,
{
    let k = next as int;
    let created = run_step(jobs, next, PlaylistRunEvent::FolderCreated).1;
    let exported = run_step(jobs, next, PlaylistRunEvent::VideoExported).1;
    let rest = successful_run(jobs, next + 1);
    let start = PlaylistProgress::StartVideo(jobs[k].entry_settings);
    let complete = PlaylistProgress::VideoComplete(jobs[k].index);
    assert(created =~= seq![
        PlaylistRunAction::Report(start),
        PlaylistRunAction::ExportVideo(next as usize),
    ]);
    assert(reports(created) =~= seq![start]) by {
        reveal_with_fuel(reports, 3);
        assert(created.drop_last() =~= seq![PlaylistRunAction::Report(start)]);
        assert(created.drop_last().drop_last() =~= Seq::<PlaylistRunAction>::empty());
    }
    lemma_reports_append(created + exported, rest);
    lemma_reports_append(created, exported);
    let first = seq![PlaylistRunAction::Report(complete)];
    assert(reports(first) =~= seq![complete]) by {
        reveal_with_fuel(reports, 3);
        assert(first.drop_last() =~= Seq::<PlaylistRunAction>::empty());
    }
    let tail = continue_or_finish(jobs, next + 1);
    assert(exported =~= first + tail);
    lemma_reports_append(first, tail);
    if next + 1 < jobs.len() {
        assert(reports(tail) =~= Seq::<PlaylistProgress>::empty()) by {
        reveal_with_fuel(reports, 3);
            assert(tail.drop_last() =~= Seq::<PlaylistRunAction>::empty());
        }
        lemma_successful_run(jobs, next + 1);
    } else {
        assert(rest =~= Seq::<PlaylistRunAction>::empty());
        assert(reports(tail) =~= seq![PlaylistProgress::Done]) by {
        reveal_with_fuel(reports, 3);
            assert(tail.drop_last() =~= seq![PlaylistRunAction::Report(PlaylistProgress::Done)]);
            assert(tail.drop_last().drop_last() =~= Seq::<PlaylistRunAction>::empty());
        }
        assert(reports(rest) =~= Seq::<PlaylistProgress>::empty());
    }
    assert(successful_run(jobs, next) == created + exported + rest);
    assert(reports(exported) =~= seq![complete] + reports(tail));
    if next + 1 < jobs.len() {
        assert(reports(successful_run(jobs, next)) =~= seq![start, complete]
            + successful_reports(jobs, next + 1));
    } else {
        assert(successful_reports(jobs, next + 1) =~= seq![PlaylistProgress::Done]);
        assert(reports(successful_run(jobs, next)) =~= seq![start, complete]
            + successful_reports(jobs, next + 1));
    }
}

/// A playlist's export that never fails reports, in order, the start and the
/// completion of each video under its number, and then that it is done; the
/// last step ends it well.
pub proof fn law_successful_run(jobs: Seq<PlaylistVideoJob>)
    ensures
        reports(run_step(jobs, 0, PlaylistRunEvent::Begin).1 + successful_run(jobs, 0))
            == successful_reports(jobs, 0),
{
    let begin = run_step(jobs, 0, PlaylistRunEvent::Begin).1;
    lemma_reports_append(begin, successful_run(jobs, 0));
    if jobs.len() > 0 {
        assert(begin =~= seq![PlaylistRunAction::CreateFolder]);
        assert(reports(begin) =~= Seq::<PlaylistProgress>::empty()) by {
        reveal_with_fuel(reports, 3);
            assert(begin.drop_last() =~= Seq::<PlaylistRunAction>::empty());
        }
        lemma_successful_run(jobs, 0);
    } else {
        assert(successful_run(jobs, 0) =~= Seq::<PlaylistRunAction>::empty());
        assert(reports(begin) =~= seq![PlaylistProgress::Done]) by {
        reveal_with_fuel(reports, 3);
            assert(begin.drop_last() =~= seq![PlaylistRunAction::Report(PlaylistProgress::Done)]);
            assert(begin.drop_last().drop_last() =~= Seq::<PlaylistRunAction>::empty());
        }
        assert(reports(Seq::<PlaylistRunAction>::empty()) =~= Seq::<PlaylistProgress>::empty());
    }
}

/// A failure ends a playlist's export at once, with that error and no
/// further report.
pub proof fn law_failure_ends_run(jobs: Seq<PlaylistVideoJob>, next: nat, m: String, e: VideoExporterError)
    ensures
        run_step(jobs, next, PlaylistRunEvent::FolderFailed(m)).1 == seq![
            PlaylistRunAction::Finish(Err(PlaylistExporterError::IOError(m))),
        ],
        run_step(jobs, next, PlaylistRunEvent::VideoFailed(e)).1 == seq![
            PlaylistRunAction::Finish(Err(PlaylistExporterError::VideoError(e))),
        ],
{
}

/// Whether a planned video is the export of entry `e` with the export type.
pub open spec fn plans_entry(p: PlannedVideo, e: PlaylistEntryView, export_type: ExportType) -> bool {
    &&& p.video == e.0
    &&& p.entry_settings == e.1
    &&& p.title == e.1.title
    &&& p.export_type == export_type
}

/// A playlist's export plans exactly its included entries, in their order:
/// the `k`-th planned video is numbered `k` and is the `k`-th included entry,
/// with its own video, its own settings and title, and the playlist's export
/// type.
pub proof fn law_plan_follows_playlist(videos: Seq<PlaylistEntryView>, export_type: ExportType)
    ensures
        export_plan(videos, export_type).len() == videos.filter(
            |e: PlaylistEntryView| e.1.included,
        ).len(),
        forall|k: int|
            0 <= k < export_plan(videos, export_type).len() ==> {
                &&& #[trigger] export_plan(videos, export_type)[k].index == k
                &&& plans_entry(
                    export_plan(videos, export_type)[k],
                    videos.filter(|e: PlaylistEntryView| e.1.included)[k],
                    export_type,
                )
            },
    decreases videos.len(),
{
    reveal(Seq::filter);
    let f = |e: PlaylistEntryView| e.1.included;
    if videos.len() > 0 {
        let d = videos.drop_last();
        law_plan_follows_playlist(d, export_type);
        law_export_plan(d, export_type);
        assert(videos.filter(f) == if f(videos.last()) {
            d.filter(f).push(videos.last())
        } else {
            d.filter(f)
        });
        let p = export_plan(d, export_type);
        let q = export_plan(videos, export_type);
        assert forall|k: int| 0 <= k < q.len() implies {
            &&& #[trigger] q[k].index == k
            &&& plans_entry(q[k], videos.filter(f)[k], export_type)
        } by {
            if k < p.len() {
                assert(q[k] == p[k]);
                assert(videos.filter(f)[k] == d.filter(f)[k]);
            }
        }
    }
}

} // verus!
