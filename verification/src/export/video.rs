//! The decisions of exporting one video: the errors and how they are shown,
//! which downloaded file is the video, the name of the exported file, and how
//! far ffmpeg has got.
use vstd::prelude::*;

use crate::data::export_type::export_type_text;
use std::path::PathBuf;

use crate::data::{VideoData, VideoExportSettings};
use crate::error::{Error, ErrorSeverity};
use crate::helpers::{parse_formatted_seconds, spec_parse_formatted_seconds};
use crate::text::{chars_of, char_is_whitespace, is_whitespace, push_str_chars, string_from_range};

verus! {

/// How far the export of a video has got: a progress value, or done. A
/// progress value is the bit pattern of an `f32` from 0.0 to 1.0, carried
/// through unchanged.
#[derive(Clone, Copy, PartialEq, Eq, Structural, Debug)]
pub enum VideoProgress {
    Progress(u32),
    Done,
}

/// Why a video could not be exported. The messages of errors that come from
/// elsewhere (the file system, yt-dlp, ffmpeg) are kept as text.
#[derive(Clone, Debug)]
pub enum VideoExporterError {
    IOError(String),
    YoutubeDlError(String),
    AnyhowError(String),
    TempDirMissing,
    ExportMissing,
    AmbiguousTempFile,
    InvalidPathBufStr,
}

/// The message of an export error.
pub open spec fn video_error_message(e: VideoExporterError) -> Seq<char> {
    match e {
        VideoExporterError::IOError(m) => m@,
        VideoExporterError::YoutubeDlError(m) => m@,
        VideoExporterError::AnyhowError(m) => m@,
        VideoExporterError::TempDirMissing => "temporary directory is either missing or is not a directory"@,
        VideoExporterError::ExportMissing => "file exported from yt-dlp is missing"@,
        VideoExporterError::AmbiguousTempFile => "there are multiple files that could be the target file from yt-dlp"@,
        VideoExporterError::InvalidPathBufStr => "converting a `PathBuf` to str unexepectedly returned `None`"@,
    }
}

/// The short name of an export error's kind.
pub open spec fn video_error_label(e: VideoExporterError) -> Seq<char> {
    match e {
        VideoExporterError::YoutubeDlError(_) => "yt-dlp Error"@,
        VideoExporterError::IOError(_) => "Standard IO Error"@,
        VideoExporterError::AnyhowError(_) => "Generic Error"@,
        VideoExporterError::TempDirMissing => "Missing Temporary Directory"@,
        VideoExporterError::ExportMissing => "Missing Exported File"@,
        VideoExporterError::AmbiguousTempFile => "Ambiguous File Found"@,
        VideoExporterError::InvalidPathBufStr => "Invalid PathBuf Found"@,
    }
}

/// The code an export error is shown with.
pub open spec fn video_error_code(e: VideoExporterError) -> u16 {
    match e {
        VideoExporterError::YoutubeDlError(_) => 301,
        VideoExporterError::IOError(_) => 8,
        VideoExporterError::AnyhowError(_) => 400,
        VideoExporterError::TempDirMissing => 9,
        VideoExporterError::ExportMissing => 10,
        VideoExporterError::AmbiguousTempFile => 11,
        VideoExporterError::InvalidPathBufStr => 12,
    }
}

impl VideoExporterError {
    /// The error's message.
    pub fn to_string(&self) -> (s: String)
        ensures
            s@ == video_error_message(*self),
    {
        match self {
            VideoExporterError::IOError(m) => m.clone(),
            VideoExporterError::YoutubeDlError(m) => m.clone(),
            VideoExporterError::AnyhowError(m) => m.clone(),
            VideoExporterError::TempDirMissing => String::from_str(
                "temporary directory is either missing or is not a directory",
            ),
            VideoExporterError::ExportMissing => String::from_str(
                "file exported from yt-dlp is missing",
            ),
            VideoExporterError::AmbiguousTempFile => String::from_str(
                "there are multiple files that could be the target file from yt-dlp",
            ),
            VideoExporterError::InvalidPathBufStr => String::from_str(
                "converting a `PathBuf` to str unexepectedly returned `None`",
            ),
        }
    }
}

impl Error {
    /// How an export error is shown: titled `Video Export: ` and the kind's
    /// name, with the kind's code, as an error, described by its message.
    pub fn from_video_error(value: VideoExporterError) -> (e: Error)
        ensures
            e.title@ == "Video Export: "@ + video_error_label(value),
            e.code == video_error_code(value),
            e.severity == ErrorSeverity::Error,
            e.description matches Some(d) && d@ == video_error_message(value),
    {
        let label = match &value {
            VideoExporterError::YoutubeDlError(_) => "yt-dlp Error",
            VideoExporterError::IOError(_) => "Standard IO Error",
            VideoExporterError::AnyhowError(_) => "Generic Error",
            VideoExporterError::TempDirMissing => "Missing Temporary Directory",
            VideoExporterError::ExportMissing => "Missing Exported File",
            VideoExporterError::AmbiguousTempFile => "Ambiguous File Found",
            VideoExporterError::InvalidPathBufStr => "Invalid PathBuf Found",
        };
        let mut title = String::new();
        push_str_chars(&mut title, "Video Export: ");
        push_str_chars(&mut title, label);
        let description = value.to_string();
        let code: u16 = match &value {
            VideoExporterError::YoutubeDlError(_) => 301,
            VideoExporterError::IOError(_) => 8,
            VideoExporterError::AnyhowError(_) => 400,
            VideoExporterError::TempDirMissing => 9,
            VideoExporterError::ExportMissing => 10,
            VideoExporterError::AmbiguousTempFile => 11,
            VideoExporterError::InvalidPathBufStr => 12,
        };
        Error::new(code, title, ErrorSeverity::Error, Some(description))
    }
}

// ---------------------------------------------------------------------------
// Finding the downloaded file
// ---------------------------------------------------------------------------

/// Whether the entry at `i` of a directory listing has the stem `target`.
pub open spec fn stem_matches(stems: Seq<Option<String>>, target: Seq<char>, i: int) -> bool {
    stems[i] matches Some(s) && s@ == target
}

/// Which entry of a directory is the downloaded file: given the file stem of
/// each entry (`None` for an entry that could not be read or has no stem), the
/// one entry whose stem is `target`; an error when two entries have it, or
/// none does.
pub fn match_file_stem(stems: &Vec<Option<String>>, target: &String) -> (r: Result<
    usize,
    VideoExporterError,
>)
    ensures
        match r {
            Ok(i) => {
                &&& i < stems@.len()
                &&& stem_matches(stems@, target@, i as int)
                &&& forall|j: int|
                    0 <= j < stems@.len() && j != i ==> !stem_matches(stems@, target@, j)
            },
            Err(VideoExporterError::AmbiguousTempFile) => exists|i: int, j: int|
                0 <= i < j < stems@.len() && stem_matches(stems@, target@, i) && stem_matches(
                    stems@,
                    target@,
                    j,
                ),
            Err(VideoExporterError::ExportMissing) => forall|j: int|
                0 <= j < stems@.len() ==> !stem_matches(stems@, target@, j),
            Err(_) => false,
        },
{
    let mut found: Option<usize> = None;
    let mut k: usize = 0;
    while k < stems.len()
        invariant
            k <= stems@.len(),
            match found {
                Some(i) => i < k && stem_matches(stems@, target@, i as int) && forall|j: int|
                    0 <= j < k && j != i ==> !stem_matches(stems@, target@, j),
                None => forall|j: int| 0 <= j < k ==> !stem_matches(stems@, target@, j),
            },
        decreases stems@.len() - k,
    {
        if let Some(stem) = &stems[k] {
            if *stem == *target {
                if let Some(i) = found {
                    assert(stem_matches(stems@, target@, i as int));
                    assert(stem_matches(stems@, target@, k as int));
                    return Err(VideoExporterError::AmbiguousTempFile);
                }
                found = Some(k);
            }
        }
        k = k + 1;
    }
    match found {
        None => Err(VideoExporterError::ExportMissing),
        Some(i) => Ok(i),
    }
}

// ---------------------------------------------------------------------------
// The exported file's name
// ---------------------------------------------------------------------------

/// The name of the exported file: the title and the format's extension.
pub open spec fn spec_output_file_name(s: VideoExportSettings) -> Seq<char> {
    s.title@ + export_type_text(s.export_type)
}

/// The name of the exported file, such as `title.mp3`.
pub fn output_file_name(settings: &VideoExportSettings) -> (r: String)
    ensures
        r@ == spec_output_file_name(*settings),
{
    let mut name = settings.title.clone();
    let ext = settings.export_type.to_string();
    push_str_chars(&mut name, ext.as_str());
    name
}

// ---------------------------------------------------------------------------
// Reading ffmpeg's progress
// ---------------------------------------------------------------------------

/// The words of `s`: its maximal runs of non-whitespace characters, in order
/// (`str::split_whitespace`).
pub open spec fn words(s: Seq<char>) -> Seq<Seq<char>>
    decreases s.len(),
{
    if s.len() == 0 {
        Seq::empty()
    } else {
        let w = words(s.drop_last());
        let c = s.last();
        if is_whitespace(c) {
            w
        } else if s.len() >= 2 && !is_whitespace(s[s.len() - 2]) {
            w.update(w.len() - 1, w.last().push(c))
        } else {
            w.push(seq![c])
        }
    }
}

/// Whether a word starts with `time=`.
pub open spec fn has_time_prefix(w: Seq<char>) -> bool {
    w.len() >= 5 && w.take(5) == "time="@
}

/// The seconds that a line of ffmpeg's output reports: the first word that
/// starts with `time=`, read after that prefix as `hh:mm:ss`; `None` when no
/// word starts so, or that word does not read.
pub open spec fn spec_progress_seconds(line: Seq<char>) -> Option<u64> {
    let w = words(line);
    if exists|i: int| 0 <= i < w.len() && has_time_prefix(#[trigger] w[i]) {
        let i = choose|i: int|
            0 <= i < w.len() && has_time_prefix(#[trigger] w[i]) && forall|j: int|
                0 <= j < i ==> !has_time_prefix(#[trigger] w[j]);
        spec_parse_formatted_seconds(w[i].skip(5))
    } else {
        None
    }
}

/// The state of a left-to-right scan of `v[0..i]`: the words seen so far, the
/// last of them still open (from `start`) when `open`.
spec fn scan_state(v: Seq<char>, i: int, open: bool, start: int) -> bool {
    let w = words(v.take(i));
    &&& open <==> (i > 0 && !is_whitespace(v[i - 1]))
    &&& open ==> (0 <= start < i && w.len() > 0 && w.last() == v.subrange(start, i))
    &&& forall|j: int|
        0 <= j < w.len() && !(open && j == w.len() - 1) ==> !has_time_prefix(#[trigger] w[j])
}

fn starts_with_time(v: &Vec<char>, start: usize, end: usize) -> (r: bool)
    requires
        start <= end <= v@.len(),
    ensures
        r == has_time_prefix(v@.subrange(start as int, end as int)),
{
    let ghost w = v@.subrange(start as int, end as int);
    let ghost lit = "time="@;
    assert(lit =~= seq!['t', 'i', 'm', 'e', '=']) by {
        reveal_strlit("time=");
    }
    if end - start < 5 {
        return false;
    }
    let r = v[start] == 't' && v[start + 1] == 'i' && v[start + 2] == 'm' && v[start + 3] == 'e'
        && v[start + 4] == '=';
    if r {
        assert(w.take(5) =~= lit);
    } else {
        assert(w.take(5) != lit) by {
            if w.take(5) == lit {
                assert(w.take(5)[0] == lit[0] && w.take(5)[1] == lit[1] && w.take(5)[2] == lit[2]
                    && w.take(5)[3] == lit[3] && w.take(5)[4] == lit[4]);
            }
        }
    }
    r
}

proof fn lemma_first_time_word(w: Seq<Seq<char>>, i: int)
    requires
        0 <= i < w.len(),
        has_time_prefix(w[i]),
        forall|j: int| 0 <= j < i ==> !has_time_prefix(#[trigger] w[j]),
    ensures
        (choose|k: int|
            0 <= k < w.len() && has_time_prefix(#[trigger] w[k]) && forall|j: int|
                0 <= j < k ==> !has_time_prefix(#[trigger] w[j])) == i,
{
    let k = choose|k: int|
        0 <= k < w.len() && has_time_prefix(#[trigger] w[k]) && forall|j: int|
            0 <= j < k ==> !has_time_prefix(#[trigger] w[j]);
    assert(0 <= k < w.len() && has_time_prefix(w[k]));
    if k < i {
        assert(!has_time_prefix(w[k]));
    } else if k > i {
        assert(!has_time_prefix(w[i]));
    }
}

/// The answer once the open word `v[start..i]`, ended by whitespace or by
/// the end of the line, is found to start with `time=`.
proof fn lemma_progress_found(v: Seq<char>, i: int, start: int)
    requires
        0 <= i <= v.len(),
        i == v.len() || is_whitespace(v[i]),
        scan_state(v, i, true, start),
        has_time_prefix(v.subrange(start, i)),
    ensures
        spec_progress_seconds(v) == spec_parse_formatted_seconds(v.subrange(start + 5, i)),
{
    let w = words(v.take(i));
    let wf = words(v);
    assert(v.take(i).subrange(start, i) =~= v.subrange(start, i));
    lemma_words_prefix_closed(v, i);
    assert(wf.take(w.len() as int) == w);
    assert forall|j: int| 0 <= j < w.len() - 1 implies !has_time_prefix(#[trigger] wf[j]) by {
        assert(wf[j] == wf.take(w.len() as int)[j]);
    }
    assert(wf[w.len() - 1] == wf.take(w.len() as int)[w.len() - 1]);
    assert(has_time_prefix(wf[w.len() - 1]));
    lemma_first_time_word(wf, w.len() - 1);
    assert(v.subrange(start, i).skip(5) =~= v.subrange(start + 5, i));
}

/// The seconds that a line of ffmpeg's output reports after `time=`.
pub fn progress_seconds(line: &str) -> (r: Option<u64>)
    ensures
        r == spec_progress_seconds(line@),
{
    let v = chars_of(line);
    let n = v.len();
    let mut i: usize = 0;
    let mut open = false;
    let mut start: usize = 0;
    assert(v@.take(0) =~= Seq::<char>::empty());
    while i < n
        invariant
            i <= n == v@.len(),
            v@ == line@,
            scan_state(v@, i as int, open, start as int),
        decreases n - i,
    {
        let ghost t1 = v@.take(i + 1);
        proof {
            assert(t1.drop_last() =~= v@.take(i as int));
            assert(t1.last() == v@[i as int]);
            if i > 0 {
                assert(t1[t1.len() - 2] == v@[i - 1]);
            }
        }
        if char_is_whitespace(v[i]) {
            if open {
                if starts_with_time(&v, start, i) {
                    proof {
                        lemma_progress_found(v@, i as int, start as int);
                    }
                    let rest = string_from_range(&v, start + 5, i);
                    assert(v@ == line@);
                    return parse_formatted_seconds(rest);
                }
            }
            proof {
                let w = words(v@.take(i as int));
                assert(words(t1) == w);
                if open {
                    assert(!has_time_prefix(w[w.len() - 1]));
                }
                assert forall|j: int| 0 <= j < w.len() implies !has_time_prefix(#[trigger] w[j]) by {
                    if open && j == w.len() - 1 {
                    }
                }
            }
            open = false;
        } else {
            proof {
                if open {
                    assert(v@.subrange(start as int, i + 1) =~= v@.subrange(start as int, i as int).push(
                        v@[i as int],
                    ));
                } else {
                    assert(v@.subrange(i as int, i + 1) =~= seq![v@[i as int]]);
                }
            }
            let ghost was_open = open;
            if !open {
                start = i;
            }
            open = true;
            proof {
                let w = words(v@.take(i as int));
                let w1 = words(t1);
                if was_open {
                    assert(w1 == w.update(w.len() - 1, w.last().push(v@[i as int])));
                    assert forall|j: int| 0 <= j < w1.len() && j != w1.len() - 1 implies !has_time_prefix(
                        #[trigger] w1[j],
                    ) by {
                        assert(w1[j] == w[j]);
                    }
                } else {
                    assert(w1 == w.push(seq![v@[i as int]]));
                    assert forall|j: int| 0 <= j < w1.len() && j != w1.len() - 1 implies !has_time_prefix(
                        #[trigger] w1[j],
                    ) by {
                        assert(w1[j] == w[j]);
                    }
                }
                assert(w1.last() == v@.subrange(start as int, i + 1));
            }
        }
        i = i + 1;
    }
    if open {
        if starts_with_time(&v, start, n) {
            proof {
                lemma_progress_found(v@, n as int, start as int);
            }
            let rest = string_from_range(&v, start + 5, n);
            return parse_formatted_seconds(rest);
        }
    }
    proof {
        assert(v@.take(n as int) =~= v@);
        let wf = words(v@);
        assert(!(exists|k: int| 0 <= k < wf.len() && has_time_prefix(#[trigger] wf[k])));
    }
    None
}

/// The words of a prefix that ends at a whitespace character, or at the end,
/// are the first words of the whole.
proof fn lemma_words_prefix_closed(v: Seq<char>, i: int)
    requires
        0 <= i <= v.len(),
        i == v.len() || is_whitespace(v[i]),
    ensures
        words(v).len() >= words(v.take(i)).len(),
        words(v).take(words(v.take(i)).len() as int) == words(v.take(i)),
    decreases v.len() - i,
{
    if i == v.len() {
        assert(v.take(i) =~= v);
        assert(words(v).take(words(v).len() as int) =~= words(v));
    } else {
        lemma_words_grow(v, i, v.len() as int);
        assert(v.take(v.len() as int) =~= v);
    }
}

/// From `v.take(i)` with `v[i]` whitespace up to `v.take(k)`, the earlier
/// words are kept.
proof fn lemma_words_grow(v: Seq<char>, i: int, k: int)
    requires
        0 <= i < k <= v.len(),
        is_whitespace(v[i]),
    ensures
        words(v.take(k)).len() >= words(v.take(i)).len(),
        words(v.take(k)).take(words(v.take(i)).len() as int) == words(v.take(i)),
    decreases k - i,
{
    let wi = words(v.take(i));
    let t = v.take(k);
    assert(t.drop_last() =~= v.take(k - 1));
    if k == i + 1 {
        assert(t.last() == v[i]);
        assert(words(t) == wi);
        assert(wi.take(wi.len() as int) =~= wi);
    } else {
        lemma_words_grow(v, i, k - 1);
        let wp = words(v.take(k - 1));
        assert(wp.take(wi.len() as int) == wi);
        assert(t.last() == v[k - 1]);
        if is_whitespace(v[k - 1]) {
        } else if t.len() >= 2 && !is_whitespace(t[t.len() - 2]) {
            // the last word grows; it is not one of the earlier words
            assert(t[t.len() - 2] == v[k - 2]);
            if k - 2 == i {
                assert(false);
            }
            lemma_words_open_after(v, i, k - 1);
            assert(words(t).take(wi.len() as int) =~= wi);
        } else {
            assert(words(t).take(wi.len() as int) =~= wi);
        }
    }
}

/// After a whitespace at `i`, when `v[k-1]` is not whitespace and `k - 1 > i`,
/// the words of `v.take(k)` number more than those of `v.take(i)`.
proof fn lemma_words_open_after(v: Seq<char>, i: int, k: int)
    requires
        0 <= i < k - 1,
        k <= v.len(),
        is_whitespace(v[i]),
        !is_whitespace(v[k - 1]),
    ensures
        words(v.take(k)).len() > words(v.take(i)).len(),
    decreases k - i,
{
    let t = v.take(k);
    assert(t.drop_last() =~= v.take(k - 1));
    assert(t.last() == v[k - 1]);
    assert(t[t.len() - 2] == v[k - 2]);
    if is_whitespace(v[k - 2]) {
        lemma_words_len_mono(v, i, k - 1);
    } else {
        lemma_words_open_after(v, i, k - 1);
    }
}

proof fn lemma_words_len_mono(v: Seq<char>, i: int, k: int)
    requires
        0 <= i <= k <= v.len(),
    ensures
        words(v.take(k)).len() >= words(v.take(i)).len(),
    decreases k - i,
{
    if k > i {
        lemma_words_len_mono(v, i, k - 1);
        let t = v.take(k);
        assert(t.drop_last() =~= v.take(k - 1));
    }
}


/// A message of ffmpeg, as far as the export reads it.
pub enum FfmpegLine {
    /// A log line at the info level.
    InfoLog(String),
    /// A progress report, with its time field as ffmpeg wrote it.
    Progress(String),
    /// Anything else.
    Other,
}

/// The seconds of the video that a message of ffmpeg reports done: an info
/// log line is read for its `time=` word, a progress report for its time;
/// other messages report nothing.
pub fn ffmpeg_line_seconds(line: &FfmpegLine) -> (r: Option<u64>)
    ensures
        r == match line {
            FfmpegLine::InfoLog(s) => spec_progress_seconds(s@),
            FfmpegLine::Progress(t) => spec_progress_seconds("time="@ + t@),
            FfmpegLine::Other => None,
        },
{
    match line {
        FfmpegLine::InfoLog(s) => progress_seconds(s.as_str()),
        FfmpegLine::Progress(t) => {
            let mut s = String::from_str("time=");
            push_str_chars(&mut s, t.as_str());
            progress_seconds(s.as_str())
        },
        FfmpegLine::Other => None,
    }
}

// ---------------------------------------------------------------------------
// The export, step by step
// ---------------------------------------------------------------------------

/// The export of one video, in the step `S` it has reached: `Unused`, then
/// `VideoFetched` once yt-dlp downloaded it, then `PathGrabbed` once the
/// downloaded file was found. The downloads, the directory listing and the
/// run of ffmpeg are done by the caller between the steps.
pub struct VideoExporter<S> {
    pub state: S,
}

/// The first step: nothing done yet.
pub struct Unused {
    pub export_location: PathBuf,
    pub data: VideoData,
    pub settings: VideoExportSettings,
}

/// The second step: the video was downloaded into a temporary directory under
/// a file stem of its own.
pub struct VideoFetched {
    pub export_location: PathBuf,
    pub data: VideoData,
    pub settings: VideoExportSettings,
    pub id_name: String,
}

/// The third step: the downloaded file was found.
pub struct PathGrabbed {
    pub export_location: PathBuf,
    pub data: VideoData,
    pub settings: VideoExportSettings,
    pub input_path: PathBuf,
}

/// What yt-dlp is asked to download: the video's page, and whether only its
/// best audio is wanted.
pub struct DownloadRequest {
    pub url: String,
    pub audio_only: bool,
}

impl VideoExporter<Unused> {
    /// An export of `data` with `settings` into `export_location`.
    pub fn new(export_location: PathBuf, data: VideoData, settings: VideoExportSettings) -> (r:
        Self)
        ensures
            r.state.export_location == export_location,
            r.state.data == data,
            r.state.settings == settings,
    {
        VideoExporter { state: Unused { export_location, data, settings } }
    }

    /// The download to ask yt-dlp for: the video's page, audio only when the
    /// export is to an audio format.
    pub fn download_request(&self) -> (r: DownloadRequest)
        ensures
            r.url@ == self.state.data@.url,
            r.audio_only == (self.state.settings.export_type is Audio),
    {
        DownloadRequest {
            url: self.state.data.url().clone(),
            audio_only: self.state.settings.export_type.is_audio(),
        }
    }

    /// The next step, once yt-dlp downloaded the video under the file stem
    /// `id_name`.
    pub fn fetch_video(self, id_name: String) -> (r: VideoExporter<VideoFetched>)
        ensures
            r.state.export_location == self.state.export_location,
            r.state.data == self.state.data,
            r.state.settings == self.state.settings,
            r.state.id_name == id_name,
    {
        let Unused { export_location, data, settings } = self.state;
        VideoExporter { state: VideoFetched { export_location, data, settings, id_name } }
    }
}

/// The file stems of a directory listing.
pub open spec fn listing_stems(entries: Seq<(PathBuf, Option<String>)>) -> Seq<Option<String>> {
    entries.map_values(|e: (PathBuf, Option<String>)| e.1)
}

impl VideoExporter<VideoFetched> {
    /// The next step: finds the downloaded file among the entries of the
    /// temporary directory (each a path and its file stem, `None` for an
    /// entry that could not be read). An error when the directory is gone,
    /// or when no entry or more than one has the download's stem.
    pub fn grab_filepath(self, dir_exists: bool, entries: &Vec<(PathBuf, Option<String>)>) -> (r:
        Result<VideoExporter<PathGrabbed>, VideoExporterError>)
        ensures
            !dir_exists ==> r matches Err(VideoExporterError::TempDirMissing),
            dir_exists ==> match r {
                Ok(e) => {
                    &&& e.state.export_location == self.state.export_location
                    &&& e.state.data == self.state.data
                    &&& e.state.settings == self.state.settings
                    &&& exists|i: int|
                        0 <= i < entries@.len() && e.state.input_path == entries@[i].0
                            && stem_matches(listing_stems(entries@), self.state.id_name@, i)
                            && forall|j: int|
                            0 <= j < entries@.len() && j != i ==> !stem_matches(
                                listing_stems(entries@),
                                self.state.id_name@,
                                j,
                            )
                },
                Err(VideoExporterError::AmbiguousTempFile) => exists|i: int, j: int|
                    0 <= i < j < entries@.len() && stem_matches(
                        listing_stems(entries@),
                        self.state.id_name@,
                        i,
                    ) && stem_matches(listing_stems(entries@), self.state.id_name@, j),
                Err(VideoExporterError::ExportMissing) => forall|j: int|
                    0 <= j < entries@.len() ==> !stem_matches(
                        listing_stems(entries@),
                        self.state.id_name@,
                        j,
                    ),
                Err(_) => false,
            },
    {
        if !dir_exists {
            return Err(VideoExporterError::TempDirMissing);
        }
        let mut stems: Vec<Option<String>> = Vec::new();
        let mut k: usize = 0;
        while k < entries.len()
            invariant
                k <= entries@.len(),
                stems@ == listing_stems(entries@).take(k as int),
            decreases entries@.len() - k,
        {
            let stem = match &entries[k].1 {
                Some(s) => Some(s.clone()),
                None => None,
            };
            stems.push(stem);
            k = k + 1;
            assert(stems@ =~= listing_stems(entries@).take(k as int));
        }
        assert(stems@ =~= listing_stems(entries@));
        let VideoFetched { export_location, data, settings, id_name } = self.state;
        match match_file_stem(&stems, &id_name) {
            Ok(i) => {
                let input_path = entries[i].0.clone();
                Ok(VideoExporter { state: PathGrabbed { export_location, data, settings, input_path } })
            },
            Err(e) => Err(e),
        }
    }
}

impl VideoExporter<PathGrabbed> {
    /// The name of the file ffmpeg writes into the export location.
    pub fn output_name(&self) -> (r: String)
        ensures
            r@ == spec_output_file_name(self.state.settings),
    {
        output_file_name(&self.state.settings)
    }
}

} // verus!
