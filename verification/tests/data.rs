use std::path::PathBuf;

use ytconvertv2::data::active_task::{ProgressAction, PROGRESS_ONE, PROGRESS_ZERO};
use ytconvertv2::data::playlist_data::PlaylistInfo;
use ytconvertv2::data::update_settings::UpdateSettings;
use ytconvertv2::data::video_data::VideoInfo;
use ytconvertv2::data::video_settings::{choose_export_type, switch_export_type};
use ytconvertv2::data::{
    ActiveTask, AudioExtension, ExportType, FfmpegInstallState, PlaylistData,
    PlaylistExportSettings, PlaylistVideoSettings, Task, TaskData, TaskQueue, VideoData,
    VideoExportSettings, VideoExtension,
};
use ytconvertv2::events::{
    PlaylistExportSettingsEvent, PlaylistVideoSettingsEvent, VideoExportSettingsEvent,
};
use ytconvertv2::export::playlist::PlaylistProgress;
use ytconvertv2::export::video::VideoProgress;

fn info(id: &str, title: &str, duration: u64) -> VideoInfo {
    VideoInfo {
        id: id.to_string(),
        title: Some(title.to_string()),
        channel: Some("Channel".to_string()),
        duration: Some(duration),
    }
}

fn video(id: &str, title: &str) -> VideoData {
    VideoData::try_from_info(info(id, title, 90)).unwrap()
}

fn playlist(titles: &[&str]) -> PlaylistData {
    let entries: Vec<VideoInfo> =
        titles.iter().enumerate().map(|(i, t)| info(&format!("v{i}"), t, 60)).collect();
    PlaylistData::try_from_info(PlaylistInfo {
        title: Some("My List".to_string()),
        id: Some("PL1".to_string()),
        uploader: Some("Uploader".to_string()),
        thumbnails: Some(vec![Some("small.jpg".to_string()), Some("large.jpg".to_string())]),
        entries: Some(entries),
    })
    .unwrap()
}

#[test]
fn export_type_text_and_kinds() {
    assert_eq!(ExportType::Audio(AudioExtension::Mp3).to_string(), ".mp3");
    assert_eq!(ExportType::Audio(AudioExtension::Wav).to_string(), ".wav");
    assert_eq!(ExportType::Audio(AudioExtension::Ogg).to_string(), ".ogg");
    assert_eq!(ExportType::Video(VideoExtension::Mp4).to_string(), ".mp4");
    assert_eq!(ExportType::Video(VideoExtension::Mov).to_string(), ".mov");
    assert_eq!(ExportType::Video(VideoExtension::Mkv).to_string(), ".mkv");
    assert!(ExportType::Audio(AudioExtension::Wav).is_audio());
    assert!(!ExportType::Audio(AudioExtension::Wav).is_video());
    assert!(ExportType::Video(VideoExtension::Mkv).is_video());
    assert_eq!(ExportType::from(AudioExtension::Ogg), ExportType::Audio(AudioExtension::Ogg));
    assert_eq!(ExportType::from(VideoExtension::Mov), ExportType::Video(VideoExtension::Mov));
}

#[test]
fn formats_offered_by_kind() {
    assert_eq!(
        ExportType::Audio(AudioExtension::Ogg).formats(),
        vec![
            ExportType::Audio(AudioExtension::Mp3),
            ExportType::Audio(AudioExtension::Wav),
            ExportType::Audio(AudioExtension::Ogg),
        ]
    );
    assert_eq!(
        ExportType::Video(VideoExtension::Mp4).formats(),
        vec![
            ExportType::Video(VideoExtension::Mp4),
            ExportType::Video(VideoExtension::Mov),
            ExportType::Video(VideoExtension::Mkv),
        ]
    );
}

#[test]
fn switching_and_choosing_formats() {
    let wav = ExportType::Audio(AudioExtension::Wav);
    let mkv = ExportType::Video(VideoExtension::Mkv);
    assert_eq!(switch_export_type(wav, true), ExportType::Video(VideoExtension::Mp4));
    assert_eq!(switch_export_type(wav, false), wav);
    assert_eq!(switch_export_type(mkv, false), ExportType::Audio(AudioExtension::Mp3));
    assert_eq!(switch_export_type(mkv, true), mkv);
    assert_eq!(choose_export_type(wav, ExportType::Audio(AudioExtension::Ogg)), ExportType::Audio(AudioExtension::Ogg));
    assert_eq!(choose_export_type(wav, mkv), wav);
}

#[test]
fn video_export_settings_events() {
    let mut s = VideoExportSettings::new("Song: Live?".to_string());
    assert_eq!(s.title, "Song_ Live_");
    assert_eq!(s.export_type, ExportType::Audio(AudioExtension::Mp3));
    s.event(VideoExportSettingsEvent::SetToVideo(true));
    assert_eq!(s.export_type, ExportType::Video(VideoExtension::Mp4));
    s.event(VideoExportSettingsEvent::SetExtension(ExportType::Audio(AudioExtension::Wav)));
    assert_eq!(s.export_type, ExportType::Video(VideoExtension::Mp4));
    s.event(VideoExportSettingsEvent::SetExtension(ExportType::Video(VideoExtension::Mov)));
    assert_eq!(s.export_type, ExportType::Video(VideoExtension::Mov));
    s.event(VideoExportSettingsEvent::ChangeTitle("a/b".to_string()));
    assert_eq!(s.title, "a_b");
    assert_eq!(s.export_type, ExportType::Video(VideoExtension::Mov));
}

#[test]
fn playlist_export_settings_events() {
    let mut s = PlaylistExportSettings::new("Mix*".to_string());
    assert_eq!(s.title, "Mix_");
    s.event(PlaylistExportSettingsEvent::SetToVideo(false));
    assert_eq!(s.export_type, ExportType::Audio(AudioExtension::Mp3));
    s.event(PlaylistExportSettingsEvent::SetExtension(ExportType::Audio(AudioExtension::Ogg)));
    assert_eq!(s.export_type, ExportType::Audio(AudioExtension::Ogg));
    s.event(PlaylistExportSettingsEvent::ChangeTitle("x|y".to_string()));
    assert_eq!(s.title, "x_y");
}

#[test]
fn playlist_video_settings_editing() {
    let mut s = PlaylistVideoSettings::new("a:b".to_string());
    assert_eq!(s.title, "a_b");
    assert!(s.included && !s.editing);
    s.event(PlaylistVideoSettingsEvent::EndEdit("ignored".to_string()));
    assert_eq!(s.title, "a_b");
    s.event(PlaylistVideoSettingsEvent::StartEdit);
    assert!(s.editing);
    s.event(PlaylistVideoSettingsEvent::EndEdit("new?".to_string()));
    assert_eq!(s.title, "new_");
    assert!(!s.editing);
    s.event(PlaylistVideoSettingsEvent::SetInclusion(false));
    assert!(!s.included);
    let v = s.to_video_setting(ExportType::Video(VideoExtension::Mkv));
    assert_eq!(v.title, "new_");
    assert_eq!(v.export_type, ExportType::Video(VideoExtension::Mkv));
}

#[test]
fn video_data_from_yt_dlp_report() {
    let v = video("abc123", "Title");
    assert_eq!(v.title(), "Title");
    assert_eq!(v.url(), "https://www.youtube.com/watch?v=abc123");
    assert_eq!(v.author(), "Channel");
    assert_eq!(v.duration(), 90);
    assert_eq!(v.thumbnail(), "https://i.ytimg.com/vi/abc123/mqdefault.jpg");
    assert!(v.same(&v.clone()));
    assert!(!v.same(&video("abc124", "Title")));
}

#[test]
fn video_data_needs_title_channel_and_duration() {
    let mut i = info("x", "t", 1);
    i.title = None;
    assert!(VideoData::try_from_info(i).is_err());
    let mut i = info("x", "t", 1);
    i.channel = None;
    assert!(VideoData::try_from_info(i).is_err());
    let mut i = info("x", "t", 1);
    i.duration = None;
    assert!(VideoData::try_from_info(i).is_err());
}

#[test]
fn playlist_data_from_yt_dlp_report() {
    let p = playlist(&["One", "Two?"]);
    assert_eq!(p.title(), "My List");
    assert_eq!(p.url(), "https://www.youtube.com/playlist?list=PL1");
    assert_eq!(p.creator(), "Uploader");
    assert_eq!(p.thumbnail(), "large.jpg");
    assert_eq!(p.video_count(), 2);
    assert_eq!(p.active_video_count(), 2);
    assert_eq!(p.iter()[1].1.title, "Two_");
    assert_eq!(p.video(0).unwrap().0.title(), "One");
    assert!(p.video(2).is_none());
}

#[test]
fn playlist_skips_entries_that_are_not_videos() {
    let mut bad = info("bad", "Bad", 1);
    bad.duration = None;
    let p = PlaylistData::try_from_info(PlaylistInfo {
        title: Some("L".to_string()),
        id: Some("P".to_string()),
        uploader: Some("U".to_string()),
        thumbnails: Some(vec![Some("t".to_string())]),
        entries: Some(vec![info("a", "A", 1), bad, info("b", "B", 2)]),
    })
    .unwrap();
    assert_eq!(p.video_count(), 2);
    assert_eq!(p.video(1).unwrap().0.title(), "B");
}

#[test]
fn playlist_needs_a_last_thumbnail() {
    let make = |thumbnails: Option<Vec<Option<String>>>| PlaylistInfo {
        title: Some("L".to_string()),
        id: Some("P".to_string()),
        uploader: Some("U".to_string()),
        thumbnails,
        entries: Some(vec![]),
    };
    assert!(PlaylistData::try_from_info(make(Some(vec![Some("a".to_string()), None]))).is_err());
    assert!(PlaylistData::try_from_info(make(None)).is_err());
    assert!(PlaylistData::try_from_info(make(Some(vec![None, Some("a".to_string())]))).is_ok());
}

#[test]
fn playlist_video_event_changes_one_entry() {
    let mut p = playlist(&["One", "Two", "Three"]);
    p.video_event(1, PlaylistVideoSettingsEvent::SetInclusion(false));
    assert_eq!(p.active_video_count(), 2);
    assert!(!p.video(1).unwrap().1.included);
    assert!(p.video(0).unwrap().1.included);
    let before = p.clone();
    p.video_event(7, PlaylistVideoSettingsEvent::SetInclusion(false));
    assert!(p.same(&before));
}

#[test]
fn task_kinds_and_types() {
    let t = Task::video(PathBuf::from("/out"), video("a", "A"), VideoExportSettings::new("A".to_string()));
    assert!(t.is_video() && !t.is_playlist());
    assert_eq!(t.data().get_type(), "VIDEO");
    assert_eq!(t.location(), &PathBuf::from("/out"));
    let p = Task::playlist(PathBuf::from("/out"), playlist(&["x"]), PlaylistExportSettings::new("L".to_string()));
    assert!(p.is_playlist());
    assert_eq!(p.data().get_type(), "PLAYLIST");
    assert!(matches!(p.data(), TaskData::Playlist(_, _)));
}

fn titled_task(title: &str) -> Task {
    Task::video(PathBuf::from("/out"), video(title, title), VideoExportSettings::new(title.to_string()))
}

fn task_title(t: &Task) -> String {
    match t.data() {
        TaskData::Video(_, s) => s.title.clone(),
        TaskData::Playlist(_, s) => s.title.clone(),
    }
}

#[test]
fn task_queue_is_first_in_first_out() {
    let mut q = TaskQueue::default();
    assert!(q.pull().is_none());
    q.push(titled_task("a"));
    q.push(titled_task("b"));
    q.push(titled_task("c"));
    assert_eq!(task_title(&q.tasks[0]), "c");
    assert_eq!(task_title(&q.pull().unwrap()), "a");
    assert_eq!(task_title(&q.pull().unwrap()), "b");
    q.push(titled_task("d"));
    assert_eq!(task_title(&q.pull().unwrap()), "c");
    assert_eq!(task_title(&q.pull().unwrap()), "d");
    assert!(q.pull().is_none());
}

#[test]
fn task_queue_remove_by_index() {
    let mut q = TaskQueue::default();
    q.push(titled_task("a"));
    q.push(titled_task("b"));
    q.remove(5);
    assert_eq!(q.tasks.len(), 2);
    q.remove(0);
    assert_eq!(q.tasks.len(), 1);
    assert_eq!(task_title(&q.tasks[0]), "a");
}

#[test]
fn progress_constants_are_float_bits() {
    assert_eq!(PROGRESS_ZERO, 0.0f32.to_bits());
    assert_eq!(PROGRESS_ONE, 1.0f32.to_bits());
}

#[test]
fn active_video_task_progress() {
    let t = titled_task("a");
    let mut a = ActiveTask::new(&t);
    assert!(a.get_downloading());
    assert_eq!(a.get_video_progress(), PROGRESS_ZERO);
    assert_eq!(a.get_count_ratio(), None);
    assert!(a.get_active_video().is_none());
    a.set_downloading(false);
    assert!(!a.get_downloading());
    let half = 0.5f32.to_bits();
    assert_eq!(a.apply_video_progress(VideoProgress::Progress(half)), ProgressAction::Update);
    assert_eq!(a.get_video_progress(), half);
    assert_eq!(a.apply_video_progress(VideoProgress::Done), ProgressAction::UpdateAndFinish);
    assert_eq!(a.get_video_progress(), PROGRESS_ONE);
}

#[test]
fn active_playlist_task_progress() {
    let mut data = playlist(&["One", "Two", "Three"]);
    data.video_event(0, PlaylistVideoSettingsEvent::SetInclusion(false));
    let t = Task::playlist(PathBuf::from("/out"), data, PlaylistExportSettings::new("L".to_string()));
    let mut a = ActiveTask::new(&t);
    assert_eq!(a.get_count_ratio(), Some((0, 2)));
    let second = PlaylistVideoSettings::new("Two".to_string());
    assert_eq!(a.apply_playlist_progress(PlaylistProgress::StartVideo(second)), ProgressAction::Update);
    assert!(a.get_downloading());
    assert_eq!(a.get_active_video().unwrap().title, "Two");
    let q = 0.25f32.to_bits();
    a.apply_playlist_progress(PlaylistProgress::VideoProgress(q));
    assert!(!a.get_downloading());
    assert_eq!(a.get_video_progress(), q);
    a.apply_playlist_progress(PlaylistProgress::VideoComplete(0));
    assert_eq!(a.get_video_progress(), PROGRESS_ONE);
    assert_eq!(a.get_count_ratio(), Some((1, 2)));
    a.set_finished_count(2);
    assert_eq!(a.get_count_ratio(), Some((2, 2)));
    assert_eq!(a.apply_playlist_progress(PlaylistProgress::Done), ProgressAction::Finish);
}

#[test]
fn install_state_names_and_update_defaults() {
    assert_eq!(FfmpegInstallState::Installed.to_string(), "Installed");
    assert_eq!(FfmpegInstallState::Unknown.to_string(), "Unknown");
    assert!(UpdateSettings::default().auto_update);
}

#[test]
fn settings_titles_stay_clean_and_kind_changes_only_on_switch() {
    let mut s = PlaylistExportSettings::new("A/B".to_string());
    let events = vec![
        PlaylistExportSettingsEvent::SetExtension(ExportType::Video(VideoExtension::Mkv)),
        PlaylistExportSettingsEvent::ChangeTitle("x:y".to_string()),
        PlaylistExportSettingsEvent::SetToVideo(true),
        PlaylistExportSettingsEvent::SetExtension(ExportType::Audio(AudioExtension::Wav)),
        PlaylistExportSettingsEvent::SetToVideo(false),
    ];
    let mut kinds = vec![s.export_type.is_audio()];
    for e in events {
        s.event(e);
        assert!(!s.title.contains(['<', '>', ':', '"', '/', '\\', '|', '?', '*']));
        kinds.push(s.export_type.is_audio());
    }
    assert_eq!(kinds, vec![true, true, true, false, false, true]);
    assert_eq!(s.title, "x_y");
}
