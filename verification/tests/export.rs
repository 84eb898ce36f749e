use std::path::PathBuf;

use ytconvertv2::data::playlist_data::PlaylistInfo;
use ytconvertv2::data::video_data::VideoInfo;
use ytconvertv2::data::{
    AudioExtension, ExportType, PlaylistData, PlaylistExportSettings, VideoData,
    VideoExportSettings, VideoExtension,
};
use ytconvertv2::error::{Error, ErrorSeverity};
use ytconvertv2::events::PlaylistVideoSettingsEvent;
use ytconvertv2::export::playlist::{
    forward_video_progress, playlist_export_plan, PlaylistExporter, PlaylistExporterError,
    PlaylistProgress, PlaylistRunAction, PlaylistRunEvent,
};
use ytconvertv2::export::video::{
    ffmpeg_line_seconds, match_file_stem, FfmpegLine, output_file_name, progress_seconds, VideoExporter, VideoExporterError,
    VideoProgress,
};

fn video(id: &str, title: &str) -> VideoData {
    VideoData::try_from_info(VideoInfo {
        id: id.to_string(),
        title: Some(title.to_string()),
        channel: Some("C".to_string()),
        duration: Some(10),
    })
    .unwrap()
}

fn playlist(titles: &[&str]) -> PlaylistData {
    let entries: Vec<VideoInfo> = titles
        .iter()
        .enumerate()
        .map(|(i, t)| VideoInfo {
            id: format!("v{i}"),
            title: Some(t.to_string()),
            channel: Some("C".to_string()),
            duration: Some(5),
        })
        .collect();
    PlaylistData::try_from_info(PlaylistInfo {
        title: Some("List".to_string()),
        id: Some("PL".to_string()),
        uploader: Some("U".to_string()),
        thumbnails: Some(vec![Some("t".to_string())]),
        entries: Some(entries),
    })
    .unwrap()
}

fn stems(list: &[Option<&str>]) -> Vec<Option<String>> {
    list.iter().map(|s| s.map(|s| s.to_string())).collect()
}

#[test]
fn match_file_stem_finds_the_single_match() {
    let target = "abc".to_string();
    assert!(matches!(match_file_stem(&stems(&[Some("x"), None, Some("abc")]), &target), Ok(2)));
}

#[test]
fn match_file_stem_reports_ambiguity_and_absence() {
    let target = "abc".to_string();
    assert!(matches!(
        match_file_stem(&stems(&[Some("abc"), Some("abc")]), &target),
        Err(VideoExporterError::AmbiguousTempFile)
    ));
    assert!(matches!(
        match_file_stem(&stems(&[Some("abcd"), None]), &target),
        Err(VideoExporterError::ExportMissing)
    ));
    assert!(matches!(match_file_stem(&vec![], &target), Err(VideoExporterError::ExportMissing)));
}

#[test]
fn output_file_name_is_title_and_extension() {
    let mut s = VideoExportSettings::new("My: Song".to_string());
    assert_eq!(output_file_name(&s), "My_ Song.mp3");
    s.export_type = ExportType::Video(VideoExtension::Mkv);
    assert_eq!(output_file_name(&s), "My_ Song.mkv");
}

#[test]
fn progress_seconds_reads_the_time_word() {
    assert_eq!(progress_seconds("frame=  10 fps=0.0 time=00:01:02.50 bitrate=N/A"), Some(62));
    assert_eq!(progress_seconds("time=01:00:00.00"), Some(3600));
    assert_eq!(progress_seconds("size=1kB bitrate=N/A"), None);
    assert_eq!(progress_seconds("time=N/A time=00:00:01"), None);
    assert_eq!(progress_seconds("xtime=00:00:01"), None);
    assert_eq!(progress_seconds(""), None);
}

#[test]
fn video_exporter_steps() {
    let settings = VideoExportSettings::new("Name".to_string());
    let exporter = VideoExporter::new(PathBuf::from("/out"), video("id1", "Name"), settings);
    let request = exporter.download_request();
    assert_eq!(request.url, "https://www.youtube.com/watch?v=id1");
    assert!(request.audio_only);
    let fetched = exporter.fetch_video("stem".to_string());
    let entries = vec![
        (PathBuf::from("/tmp/other.webm"), Some("other".to_string())),
        (PathBuf::from("/tmp/stem.webm"), Some("stem".to_string())),
    ];
    let grabbed = fetched.grab_filepath(true, &entries).ok().unwrap();
    assert_eq!(grabbed.state.input_path, PathBuf::from("/tmp/stem.webm"));
    assert_eq!(grabbed.output_name(), "Name.mp3");
}

#[test]
fn video_exporter_asks_for_full_video_when_exporting_video() {
    let mut settings = VideoExportSettings::new("V".to_string());
    settings.export_type = ExportType::Video(VideoExtension::Mp4);
    let exporter = VideoExporter::new(PathBuf::from("/out"), video("id", "V"), settings);
    assert!(!exporter.download_request().audio_only);
}

#[test]
fn video_exporter_grab_errors() {
    let make = || {
        VideoExporter::new(PathBuf::from("/o"), video("i", "T"), VideoExportSettings::new("T".to_string()))
            .fetch_video("s".to_string())
    };
    assert!(matches!(make().grab_filepath(false, &vec![]), Err(VideoExporterError::TempDirMissing)));
    assert!(matches!(make().grab_filepath(true, &vec![]), Err(VideoExporterError::ExportMissing)));
    let twice = vec![(PathBuf::from("/a/s.mp4"), Some("s".to_string())), (PathBuf::from("/a/s.m4a"), Some("s".to_string()))];
    assert!(matches!(make().grab_filepath(true, &twice), Err(VideoExporterError::AmbiguousTempFile)));
}

#[test]
fn video_errors_are_shown_with_their_codes() {
    let cases: Vec<(VideoExporterError, u16, &str, String)> = vec![
        (VideoExporterError::IOError("disk full".to_string()), 8, "Video Export: Standard IO Error", "disk full".to_string()),
        (VideoExporterError::YoutubeDlError("bad".to_string()), 301, "Video Export: yt-dlp Error", "bad".to_string()),
        (VideoExporterError::AnyhowError("x".to_string()), 400, "Video Export: Generic Error", "x".to_string()),
        (VideoExporterError::TempDirMissing, 9, "Video Export: Missing Temporary Directory", "temporary directory is either missing or is not a directory".to_string()),
        (VideoExporterError::ExportMissing, 10, "Video Export: Missing Exported File", "file exported from yt-dlp is missing".to_string()),
        (VideoExporterError::AmbiguousTempFile, 11, "Video Export: Ambiguous File Found", "there are multiple files that could be the target file from yt-dlp".to_string()),
        (VideoExporterError::InvalidPathBufStr, 12, "Video Export: Invalid PathBuf Found", "converting a `PathBuf` to str unexepectedly returned `None`".to_string()),
    ];
    for (e, code, title, description) in cases {
        assert_eq!(e.to_string(), description);
        let shown = Error::from_video_error(e);
        assert_eq!(shown.code, code);
        assert_eq!(shown.title, title);
        assert_eq!(shown.severity, ErrorSeverity::Error);
        assert_eq!(shown.description, Some(description));
    }
}

#[test]
fn playlist_errors_are_shown() {
    let io = Error::from_playlist_error(PlaylistExporterError::IOError("denied".to_string()));
    assert_eq!(io.code, 13);
    assert_eq!(io.title, "Playlist Error: Standard IO Error");
    assert_eq!(io.description.as_deref(), Some("denied"));
    let v = Error::from_playlist_error(PlaylistExporterError::VideoError(VideoExporterError::ExportMissing));
    assert_eq!(v.code, 10);
    assert_eq!(v.title, "Video Export: Missing Exported File");
}

#[test]
fn playlist_plan_numbers_the_included_videos() {
    let mut data = playlist(&["One", "Two", "Three?"]);
    data.video_event(1, PlaylistVideoSettingsEvent::SetInclusion(false));
    let mut settings = PlaylistExportSettings::new("Folder".to_string());
    settings.export_type = ExportType::Audio(AudioExtension::Wav);
    let jobs = playlist_export_plan(&data, &settings);
    assert_eq!(jobs.len(), 2);
    assert_eq!(jobs[0].index, 0);
    assert_eq!(jobs[0].data.title(), "One");
    assert_eq!(jobs[1].index, 1);
    assert_eq!(jobs[1].settings.title, "Three_");
    assert_eq!(jobs[1].settings.export_type, ExportType::Audio(AudioExtension::Wav));
    assert_eq!(output_file_name(&jobs[1].settings), "Three_.wav");
}

#[test]
fn playlist_exporter_folder_and_jobs() {
    let exporter = PlaylistExporter::new(
        PathBuf::from("/out"),
        playlist(&["A", "B"]),
        PlaylistExportSettings::new("My/List".to_string()),
    );
    assert_eq!(exporter.folder_name(), "My_List");
    let jobs = exporter.jobs();
    assert_eq!(jobs.len(), 2);
    assert_eq!(jobs[1].entry_settings.title, "B");
}

#[test]
fn playlist_forwards_only_progress_values() {
    let bits = 0.75f32.to_bits();
    assert!(matches!(
        forward_video_progress(VideoProgress::Progress(bits)),
        Some(PlaylistProgress::VideoProgress(b)) if b == bits
    ));
    assert!(forward_video_progress(VideoProgress::Done).is_none());
}

#[test]
fn ffmpeg_messages_report_seconds() {
    assert_eq!(ffmpeg_line_seconds(&FfmpegLine::InfoLog("size=1 time=00:00:42.10 speed=1x".to_string())), Some(42));
    assert_eq!(ffmpeg_line_seconds(&FfmpegLine::Progress("00:01:00.00".to_string())), Some(60));
    assert_eq!(ffmpeg_line_seconds(&FfmpegLine::Progress("garbage".to_string())), None);
    assert_eq!(ffmpeg_line_seconds(&FfmpegLine::Other), None);
}

fn describe(actions: &[PlaylistRunAction]) -> Vec<String> {
    actions
        .iter()
        .map(|a| match a {
            PlaylistRunAction::CreateFolder => "folder".to_string(),
            PlaylistRunAction::ExportVideo(i) => format!("export {i}"),
            PlaylistRunAction::Report(PlaylistProgress::StartVideo(s)) => format!("start {}", s.title),
            PlaylistRunAction::Report(PlaylistProgress::VideoProgress(b)) => format!("progress {b}"),
            PlaylistRunAction::Report(PlaylistProgress::VideoComplete(i)) => format!("complete {i}"),
            PlaylistRunAction::Report(PlaylistProgress::Done) => "done".to_string(),
            PlaylistRunAction::Finish(Ok(())) => "ok".to_string(),
            PlaylistRunAction::Finish(Err(_)) => "failed".to_string(),
        })
        .collect()
}

#[test]
fn playlist_run_exports_each_video_in_order() {
    let mut data = playlist(&["A", "B", "C"]);
    data.video_event(1, PlaylistVideoSettingsEvent::SetInclusion(false));
    let exporter = PlaylistExporter::new(PathBuf::from("/out"), data, PlaylistExportSettings::new("L".to_string()));
    let mut run = exporter.start();
    let mut log: Vec<String> = Vec::new();
    log.extend(describe(&run.step(PlaylistRunEvent::Begin)));
    log.extend(describe(&run.step(PlaylistRunEvent::FolderCreated)));
    log.extend(describe(&run.step(PlaylistRunEvent::VideoProgress(VideoProgress::Progress(7)))));
    log.extend(describe(&run.step(PlaylistRunEvent::VideoProgress(VideoProgress::Done))));
    log.extend(describe(&run.step(PlaylistRunEvent::VideoExported)));
    log.extend(describe(&run.step(PlaylistRunEvent::FolderCreated)));
    log.extend(describe(&run.step(PlaylistRunEvent::VideoExported)));
    assert_eq!(
        log,
        vec![
            "folder", "start A", "export 0", "progress 7", "complete 0", "folder", "start C",
            "export 1", "complete 1", "done", "ok",
        ]
    );
    assert_eq!(run.next, 2);
    assert!(run.step(PlaylistRunEvent::VideoExported).is_empty());
}

#[test]
fn playlist_run_stops_at_the_first_failure() {
    let exporter = PlaylistExporter::new(PathBuf::from("/out"), playlist(&["A", "B"]), PlaylistExportSettings::new("L".to_string()));
    let mut run = exporter.start();
    run.step(PlaylistRunEvent::Begin);
    let actions = run.step(PlaylistRunEvent::FolderFailed("denied".to_string()));
    assert!(matches!(&actions[..], [PlaylistRunAction::Finish(Err(PlaylistExporterError::IOError(m)))] if m == "denied"));
    let mut run = exporter.start();
    run.step(PlaylistRunEvent::FolderCreated);
    let actions = run.step(PlaylistRunEvent::VideoFailed(VideoExporterError::ExportMissing));
    assert_eq!(describe(&actions), vec!["failed"]);
    assert_eq!(run.next, 0);
}

#[test]
fn empty_playlist_run_is_done_at_once() {
    let exporter = PlaylistExporter::new(PathBuf::from("/out"), playlist(&[]), PlaylistExportSettings::new("L".to_string()));
    let mut run = exporter.start();
    assert_eq!(describe(&run.step(PlaylistRunEvent::Begin)), vec!["done", "ok"]);
}
