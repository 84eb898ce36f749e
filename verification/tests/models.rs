use std::path::PathBuf;

use ytconvertv2::config::{Config, ConfigAction, ConfigEvent, ConfigModel};
use ytconvertv2::data::playlist_data::PlaylistInfo;
use ytconvertv2::data::update_settings::UpdateSettings;
use ytconvertv2::data::video_data::VideoInfo;
use ytconvertv2::data::{
    AudioExtension, ExportType, FfmpegInstallState, PlaylistData, PlaylistExportSettings, Task,
    TaskData, VideoData, VideoExportSettings, VideoExtension,
};
use ytconvertv2::error::ErrorSeverity;
use ytconvertv2::events::{
    PlaylistExportSettingsEvent, PlaylistVideoSettingsEvent, Update, UpdateTheme,
    UpdateUpdateSettings, VideoExportSettingsEvent,
};
use ytconvertv2::models::app::{AppAction, AppData, AppDataEvent, AppEvent, TaskEvent, ToolbarEvent};
use ytconvertv2::models::notification::NotificationLevel;
use ytconvertv2::models::playlist::{
    submit_playlist_task, AppPlaylistData, AppPlaylistEvent, PlaylistModelAction,
};
use ytconvertv2::models::preview::{
    editing_title, playlist_count_label, playlist_creator_label, playlist_title_label,
    video_author_label, video_duration_label, video_title_label,
};
use ytconvertv2::models::video::{
    placeholder_load_error, submit_video_task, thumbnail_fetch_error, AppVideoData, AppVideoEvent,
    SubmitAction, ThumbnailFetchFailure, ThumbnailLoad, VideoModelAction,
};
use ytconvertv2::theme::{Color, Theme};
use ytconvertv2::updates::{
    finish_app_update, finish_ffmpeg_update, finish_yt_dlp_update, plan_ffmpeg, AppUpdateOutcome,
    FfmpegPlan, FfmpegUpdateOutcome, UpdateAction,
};

fn video(id: &str, title: &str, duration: u64) -> VideoData {
    VideoData::try_from_info(VideoInfo {
        id: id.to_string(),
        title: Some(title.to_string()),
        channel: Some("Chan".to_string()),
        duration: Some(duration),
    })
    .unwrap()
}

fn playlist(thumb: &str, titles: &[&str]) -> PlaylistData {
    let entries: Vec<VideoInfo> = titles
        .iter()
        .enumerate()
        .map(|(i, t)| VideoInfo {
            id: format!("v{i}"),
            title: Some(t.to_string()),
            channel: Some("C".to_string()),
            duration: Some(5),
        })
        .collect();
    PlaylistData::try_from_info(PlaylistInfo {
        title: Some("List?".to_string()),
        id: Some("PL".to_string()),
        uploader: Some("Maker".to_string()),
        thumbnails: Some(vec![Some(thumb.to_string())]),
        entries: Some(entries),
    })
    .unwrap()
}

fn video_task(title: &str) -> Task {
    Task::video(PathBuf::from("/out"), video(title, title, 1), VideoExportSettings::new(title.to_string()))
}

fn task_title(t: &Task) -> String {
    match t.data() {
        TaskData::Video(_, s) => s.title.clone(),
        TaskData::Playlist(_, s) => s.title.clone(),
    }
}

// ---------------------------------------------------------------------------
// The single-video page
// ---------------------------------------------------------------------------

#[test]
fn link_submit_trims_and_tries_the_link() {
    let mut page = AppVideoData::new();
    let actions = page.event(AppVideoEvent::LinkSubmit("  https://youtu.be/x  ".to_string()));
    assert_eq!(page.link, "  https://youtu.be/x  ");
    assert_eq!(actions.len(), 1);
    assert!(matches!(&actions[0], VideoModelAction::Emit(AppVideoEvent::TryVideoUrl(u)) if u == "https://youtu.be/x"));
    // the same link again does nothing
    assert!(page.event(AppVideoEvent::LinkSubmit("  https://youtu.be/x  ".to_string())).is_empty());
}

#[test]
fn blank_link_resets_the_page() {
    let mut page = AppVideoData::new();
    page.event(AppVideoEvent::LinkSubmit("a".to_string()));
    let actions = page.event(AppVideoEvent::LinkSubmit("   ".to_string()));
    assert_eq!(page.link, "");
    assert_eq!(page.thumbnail_generation, 1);
    assert!(matches!(actions[..], [VideoModelAction::LoadPlaceholderThumbnail]));
}

#[test]
fn found_video_is_shown_and_its_thumbnail_fetched() {
    let mut page = AppVideoData::new();
    page.event(AppVideoEvent::LinkSubmit("link".to_string()));
    let actions = page.event(AppVideoEvent::TryVideoUrl("link".to_string()));
    assert!(page.searching);
    assert!(matches!(&actions[0], VideoModelAction::FetchVideoData(u) if u == "link"));
    let actions = page.event(AppVideoEvent::UrlSucceeded(video("abc", "A: B", 30), "link".to_string()));
    assert!(!page.searching);
    assert_eq!(page.video.as_ref().unwrap().title(), "A: B");
    assert_eq!(page.export_settings.title, "A_ B");
    assert!(matches!(&actions[0], VideoModelAction::Emit(AppVideoEvent::FetchThumbnail(t)) if t == "https://i.ytimg.com/vi/abc/mqdefault.jpg"));
    // the same video again is not fetched again
    assert!(page.event(AppVideoEvent::UrlSucceeded(video("abc", "A: B", 30), "link".to_string())).is_empty());
    // a video for another link is ignored
    assert!(page.event(AppVideoEvent::UrlSucceeded(video("zzz", "Z", 3), "other".to_string())).is_empty());
    assert_eq!(page.video.as_ref().unwrap().title(), "A: B");
}

#[test]
fn failed_search_notifies_and_resets_a_shown_video() {
    let mut page = AppVideoData::new();
    let actions = page.event(AppVideoEvent::UrlFailed);
    assert_eq!(actions.len(), 1);
    assert!(matches!(&actions[0], VideoModelAction::Notify(n) if n.level == NotificationLevel::Error && n.message == "Invalid URL, please try again"));
    page.event(AppVideoEvent::LinkSubmit("l".to_string()));
    page.event(AppVideoEvent::UrlSucceeded(video("a", "A", 1), "l".to_string()));
    let actions = page.event(AppVideoEvent::UrlFailed);
    assert_eq!(actions.len(), 2);
    assert!(page.video.is_none());
    assert_eq!(page.link, "");
}

#[test]
fn thumbnail_results_for_the_shown_video() {
    let mut page = AppVideoData::new();
    page.event(AppVideoEvent::LinkSubmit("l".to_string()));
    page.event(AppVideoEvent::UrlSucceeded(video("a", "A", 1), "l".to_string()));
    let thumb = "https://i.ytimg.com/vi/a/mqdefault.jpg".to_string();
    assert!(page.event(AppVideoEvent::FinishedThumbnailFetch(thumb.clone(), ThumbnailLoad::Loaded)).is_empty());
    assert_eq!(page.thumbnail_generation, 1);
    page.event(AppVideoEvent::FinishedThumbnailFetch(thumb.clone(), ThumbnailLoad::LoadFailed));
    assert_eq!(page.thumbnail_generation, 2);
    let actions = page.event(AppVideoEvent::FinishedThumbnailFetch(thumb, ThumbnailLoad::BytesFailed("eof".to_string())));
    assert_eq!(page.thumbnail_generation, 2);
    assert!(matches!(&actions[0], VideoModelAction::ShowError(e) if e.code == 202 && e.severity == ErrorSeverity::Warning
        && e.description.as_deref() == Some("Failed convert a response to bytes due to the following error from reqwest: eof")));
    // a stale thumbnail is ignored
    page.event(AppVideoEvent::FinishedThumbnailFetch("old".to_string(), ThumbnailLoad::Loaded));
    assert_eq!(page.thumbnail_generation, 2);
}

#[test]
fn video_page_settings_changes() {
    let mut page = AppVideoData::new();
    page.event(AppVideoEvent::ExportSettingsEvent(VideoExportSettingsEvent::SetToVideo(true)));
    assert_eq!(page.export_settings.export_type, ExportType::Video(VideoExtension::Mp4));
    page.event(AppVideoEvent::ExportSettingsEvent(VideoExportSettingsEvent::ChangeTitle("x*".to_string())));
    assert_eq!(page.export_settings.title, "x_");
}

#[test]
fn submitting_a_video_task() {
    let settings = VideoExportSettings::new("S".to_string());
    let actions = submit_video_task(Some(PathBuf::from("/out")), Some(video("a", "A", 1)), settings);
    assert_eq!(actions.len(), 3);
    assert!(matches!(&actions[0], SubmitAction::SubmitTask(t) if t.is_video() && t.location() == &PathBuf::from("/out")));
    assert!(matches!(&actions[1], SubmitAction::Notify(n) if n.message == "Task Created Successfully"));
    assert!(matches!(actions[2], SubmitAction::ResetPage));
}

#[test]
fn submitting_without_location_or_video() {
    let actions = submit_video_task(None, None, VideoExportSettings::new("S".to_string()));
    assert_eq!(actions.len(), 3);
    assert!(matches!(&actions[0], SubmitAction::ShowError(e) if e.code == 4 && e.title == "Export Location Unexpectedly None"));
    assert!(matches!(&actions[1], SubmitAction::ShowError(e) if e.code == 5 && e.title == "Video Data Unexpectedly None"));
    assert!(matches!(actions[2], SubmitAction::ResetPage));
    let actions = submit_video_task(Some(PathBuf::from("/o")), None, VideoExportSettings::new("S".to_string()));
    assert_eq!(actions.len(), 2);
}

#[test]
fn thumbnail_fetch_errors() {
    let e = thumbnail_fetch_error(ThumbnailFetchFailure::BuildRequest("bad url".to_string()));
    assert_eq!(e.code, 200);
    assert_eq!(e.description.as_deref(), Some("Failed to create a build a Request due to the following error from reqwest: bad url"));
    let e = thumbnail_fetch_error(ThumbnailFetchFailure::ExecuteRequest("timeout".to_string()));
    assert_eq!(e.code, 201);
    assert_eq!(e.title, "Reqwest Request Execution Failed");
    let e = thumbnail_fetch_error(ThumbnailFetchFailure::EmitPlaylistResult);
    assert_eq!(e.code, 3);
    assert_eq!(e.severity, ErrorSeverity::Warning);
    let e = placeholder_load_error();
    assert_eq!(e.code, 0);
    assert_eq!(e.title, "Image Loading Failed");
}

// ---------------------------------------------------------------------------
// The playlist page
// ---------------------------------------------------------------------------

#[test]
fn playlist_page_flow() {
    let mut page = AppPlaylistData::new();
    let actions = page.event(AppPlaylistEvent::LinkSubmit(" pl ".to_string()));
    assert!(matches!(&actions[0], PlaylistModelAction::Emit(AppPlaylistEvent::TryPlaylistUrl(u)) if u == "pl"));
    page.event(AppPlaylistEvent::TryPlaylistUrl("pl".to_string()));
    assert!(page.searching);
    let actions = page.event(AppPlaylistEvent::UrlSucceeded(playlist("thumb", &["a", "b"]), " pl ".to_string()));
    assert!(!page.searching);
    assert_eq!(page.export_settings.title, "List_");
    assert!(matches!(&actions[0], PlaylistModelAction::Emit(AppPlaylistEvent::FetchThumbnail(t)) if t == "thumb"));
    page.event(AppPlaylistEvent::PlaylistVideoSettingsEvent(1, PlaylistVideoSettingsEvent::SetInclusion(false)));
    assert_eq!(page.playlist.as_ref().unwrap().active_video_count(), 1);
    page.event(AppPlaylistEvent::PlaylistVideoSettingsEvent(9, PlaylistVideoSettingsEvent::SetInclusion(false)));
    assert_eq!(page.playlist.as_ref().unwrap().active_video_count(), 1);
    page.event(AppPlaylistEvent::ExportSettingsEvent(PlaylistExportSettingsEvent::SetExtension(ExportType::Audio(AudioExtension::Ogg))));
    assert_eq!(page.export_settings.export_type, ExportType::Audio(AudioExtension::Ogg));
    page.event(AppPlaylistEvent::FinishedThumbnailFetch("thumb".to_string(), ThumbnailLoad::Loaded));
    assert_eq!(page.thumbnail_generation, 1);
    let actions = page.event(AppPlaylistEvent::Reset);
    assert!(matches!(actions[..], [PlaylistModelAction::LoadPlaceholderThumbnail]));
    assert!(page.playlist.is_none());
    assert_eq!(page.thumbnail_generation, 2);
}

#[test]
fn submitting_a_playlist_task() {
    let actions = submit_playlist_task(
        Some(PathBuf::from("/out")),
        Some(playlist("t", &["a"])),
        PlaylistExportSettings::new("L".to_string()),
    );
    assert_eq!(actions.len(), 3);
    assert!(matches!(&actions[0], SubmitAction::SubmitTask(t) if t.is_playlist()));
    let actions = submit_playlist_task(None, Some(playlist("t", &["a"])), PlaylistExportSettings::new("L".to_string()));
    assert_eq!(actions.len(), 2);
    assert!(matches!(&actions[0], SubmitAction::ShowError(e) if e.code == 4));
}

#[test]
fn preview_labels() {
    assert_eq!(video_duration_label(&None), "??:??");
    assert_eq!(video_duration_label(&Some(video("a", "A", 3725))), "01:02:05");
    assert_eq!(video_title_label(&None), "No Video Selected");
    assert_eq!(video_title_label(&Some(video("a", "A", 1))), "A");
    assert_eq!(video_author_label(&None), "");
    assert_eq!(video_author_label(&Some(video("a", "A", 1))), "Chan");
    let p = Some(playlist("t", &["x", "y", "z"]));
    assert_eq!(playlist_count_label(&None), "????");
    assert_eq!(playlist_count_label(&p), "3 Videos");
    assert_eq!(playlist_title_label(&None), "No Playlist Selected");
    assert_eq!(playlist_title_label(&p), "List?");
    assert_eq!(playlist_creator_label(&p), "Maker");
    assert_eq!(playlist_creator_label(&None), "");
    assert_eq!(editing_title(&p, 1), "y");
    assert_eq!(editing_title(&p, 3), "");
    assert_eq!(editing_title(&None, 0), "");
}

// ---------------------------------------------------------------------------
// The application
// ---------------------------------------------------------------------------

fn app() -> AppData {
    AppData::new(PathBuf::from("/deps/ytdlp"), PathBuf::from("/deps/ffmpeg"), None)
}

#[test]
fn app_starts_dark_and_idle() {
    let a = app();
    assert_eq!(a.theme, Theme::dark());
    assert!(a.active_task.is_none());
    assert_eq!(a.ffmpeg_install_state, FfmpegInstallState::Unknown);
    assert!(a.update_settings.auto_update);
}

#[test]
fn submitted_task_starts_when_idle() {
    let mut a = app();
    let actions = a.event(AppDataEvent::App(AppEvent::SubmitTask(video_task("one"))));
    assert_eq!(actions.len(), 1);
    let task = match actions.into_iter().next().unwrap() {
        AppAction::Emit(AppDataEvent::Task(TaskEvent::SetActive(t))) => t,
        _ => panic!("expected SetActive"),
    };
    a.event(AppDataEvent::App(AppEvent::SetFfmpegInstallState(FfmpegInstallState::Installed)));
    let actions = a.event(AppDataEvent::Task(TaskEvent::SetActive(task)));
    assert!(matches!(&actions[..], [AppAction::StartTask(t)] if task_title(t) == "one"));
    assert!(a.active_task.is_some());
}

#[test]
fn tasks_wait_while_one_runs_and_run_in_order() {
    let mut a = app();
    a.event(AppDataEvent::App(AppEvent::SetFfmpegInstallState(FfmpegInstallState::Installed)));
    a.event(AppDataEvent::Task(TaskEvent::SetActive(video_task("running"))));
    assert!(a.event(AppDataEvent::App(AppEvent::SubmitTask(video_task("first")))).is_empty());
    assert!(a.event(AppDataEvent::App(AppEvent::SubmitTask(video_task("second")))).is_empty());
    assert_eq!(a.task_queue.tasks.len(), 2);
    let actions = a.event(AppDataEvent::Task(TaskEvent::FinishActive));
    assert!(matches!(actions[..], [AppAction::ScheduleMoveToNext]));
    let actions = a.event(AppDataEvent::Task(TaskEvent::MoveToNext));
    assert!(matches!(&actions[..], [AppAction::Emit(AppDataEvent::Task(TaskEvent::SetActive(t)))] if task_title(t) == "first"));
    let actions = a.event(AppDataEvent::Task(TaskEvent::MoveToNext));
    assert!(matches!(&actions[..], [AppAction::Emit(AppDataEvent::Task(TaskEvent::SetActive(t)))] if task_title(t) == "second"));
    assert!(a.active_task.is_some());
    assert!(a.event(AppDataEvent::Task(TaskEvent::MoveToNext)).is_empty());
    assert!(a.active_task.is_none());
}

#[test]
fn task_does_not_start_without_ffmpeg() {
    let mut a = app();
    a.event(AppDataEvent::App(AppEvent::SetFfmpegInstallState(FfmpegInstallState::Installing)));
    let actions = a.event(AppDataEvent::Task(TaskEvent::SetActive(video_task("t"))));
    assert!(a.active_task.is_none());
    assert!(matches!(&actions[0], AppAction::Notify(n) if n.level == NotificationLevel::Warning && n.message == "Please wait for ffmpeg to install"));
    assert!(matches!(&actions[1], AppAction::ShowError(e) if e.code == 6 && e.severity == ErrorSeverity::Warning));
    a.event(AppDataEvent::App(AppEvent::SetFfmpegInstallState(FfmpegInstallState::Failed)));
    let actions = a.event(AppDataEvent::Task(TaskEvent::SetActive(video_task("t"))));
    assert!(matches!(&actions[0], AppAction::Notify(n) if n.message == "ffmpeg could not be found"));
    assert!(matches!(&actions[1], AppAction::ShowError(e) if e.code == 7 && e.description.as_deref() == Some("Previously failed to install ffmpeg, cannot be used.")));
}

#[test]
fn queued_task_can_be_removed() {
    let mut a = app();
    a.event(AppDataEvent::App(AppEvent::SetFfmpegInstallState(FfmpegInstallState::Installed)));
    a.event(AppDataEvent::Task(TaskEvent::SetActive(video_task("running"))));
    a.event(AppDataEvent::App(AppEvent::SubmitTask(video_task("a"))));
    a.event(AppDataEvent::App(AppEvent::SubmitTask(video_task("b"))));
    a.event(AppDataEvent::App(AppEvent::RemoveTask(0)));
    assert_eq!(a.task_queue.tasks.len(), 2);
    a.event(AppDataEvent::Task(TaskEvent::Remove(0)));
    assert_eq!(a.task_queue.tasks.len(), 1);
    assert_eq!(task_title(&a.task_queue.tasks[0]), "a");
}

#[test]
fn location_and_popups() {
    let mut a = app();
    let actions = a.event(AppDataEvent::App(AppEvent::RequestLocationChange));
    assert!(matches!(actions[..], [AppAction::PickExportFolder(None)]));
    let actions = a.event(AppDataEvent::App(AppEvent::SetNewLocation(PathBuf::from("/music"))));
    assert_eq!(a.current_location, Some(PathBuf::from("/music")));
    assert!(matches!(&actions[..], [AppAction::Emit(AppDataEvent::Config(ConfigEvent::SetExportPath(p)))] if p == &PathBuf::from("/music")));
    let actions = a.event(AppDataEvent::Toolbar(ToolbarEvent::ShowAbout));
    assert!(matches!(actions[..], [AppAction::Emit(AppDataEvent::App(AppEvent::SetShowAbout(true)))]));
    a.event(AppDataEvent::App(AppEvent::SetShowAbout(true)));
    assert!(a.show_about);
    let actions = a.event(AppDataEvent::Toolbar(ToolbarEvent::OpenIssuesPage));
    assert!(matches!(&actions[..], [AppAction::OpenUrl(u)] if u == "https://github.com/GlitchlessCode/ytconvertv2/issues"));
    let actions = a.event(AppDataEvent::Toolbar(ToolbarEvent::OpenDocumentationPage));
    assert!(matches!(&actions[..], [AppAction::OpenUrl(u)] if u == "https://github.com/GlitchlessCode/ytconvertv2/wiki"));
    a.event(AppDataEvent::App(AppEvent::TogglePlaylist));
    assert!(a.playlist_selected);
    a.event(AppDataEvent::App(AppEvent::ToggleVideo));
    assert!(!a.playlist_selected);
}

#[test]
fn theme_and_update_settings_changes_are_stored() {
    let mut a = app();
    let red = Color::rgb(255, 0, 0);
    let actions = a.event(AppDataEvent::Update(Update::Theme(UpdateTheme::Border(red))));
    assert_eq!(a.theme.border, red);
    assert!(matches!(&actions[..], [AppAction::Emit(AppDataEvent::Config(ConfigEvent::SetTheme(t)))] if t.border == red));
    a.event(AppDataEvent::Update(Update::Theme(UpdateTheme::LightDefault)));
    assert_eq!(a.theme, Theme::light());
    let actions = a.event(AppDataEvent::Update(Update::UpdateSettings(UpdateUpdateSettings::ToggleAutoUpdates)));
    assert!(!a.update_settings.auto_update);
    assert!(matches!(&actions[..], [AppAction::Emit(AppDataEvent::Config(ConfigEvent::SetUpdateSettings(s)))] if !s.auto_update));
}

#[test]
fn stored_configuration_sets_location_theme_and_updates() {
    let mut a = app();
    let actions = a.event(AppDataEvent::Config(ConfigEvent::ConfigSetup {
        location: Some(PathBuf::from("/x")),
        theme: Theme::light(),
        update_settings: UpdateSettings { auto_update: true },
    }));
    assert_eq!(a.current_location, Some(PathBuf::from("/x")));
    assert_eq!(a.theme, Theme::light());
    assert!(matches!(actions[..], [AppAction::CheckForUpdates]));
    // the stored setting decides, not the one held before
    assert!(a.update_settings.auto_update);
    let actions = a.event(AppDataEvent::Config(ConfigEvent::ConfigSetup {
        location: None,
        theme: Theme::dark(),
        update_settings: UpdateSettings { auto_update: false },
    }));
    assert!(actions.is_empty());
    assert!(a.current_location.is_none());
    assert!(!a.update_settings.auto_update);
    assert_eq!(a.theme, Theme::dark());
}

// ---------------------------------------------------------------------------
// The configuration
// ---------------------------------------------------------------------------

#[test]
fn config_without_directory_does_nothing() {
    let mut m = ConfigModel::open_config_path(None, Some(Config::default()));
    assert!(m.inner.is_none());
    assert!(m.handle(ConfigEvent::RequestSetup, false).is_empty());
    assert!(m.handle(ConfigEvent::SetExportPath(PathBuf::from("/x")), true).is_empty());
    assert!(m.inner.is_none());
}

#[test]
fn config_stores_an_existing_location_and_answers_setup() {
    let dir = PathBuf::from("/cfg");
    let mut m = ConfigModel::open_config_path(Some(dir.clone()), Some(Config::default()));
    let actions = m.handle(ConfigEvent::SetExportPath(PathBuf::from("/music")), true);
    assert!(matches!(&actions[..], [ConfigAction::Save(p, c)] if p == &dir && c.location == Some(PathBuf::from("/music"))));
    let actions = m.handle(ConfigEvent::RequestSetup, false);
    assert!(matches!(&actions[..], [ConfigAction::Emit(ConfigEvent::ConfigSetup { location: Some(l), .. }), ConfigAction::Save(_, _)] if l == &PathBuf::from("/music")));
    let actions = m.handle(ConfigEvent::SetExportPath(PathBuf::from("/gone")), false);
    assert!(matches!(&actions[..], [ConfigAction::Save(_, c)] if c.location.is_none()));
    let actions = m.handle(ConfigEvent::SetTheme(Theme::light()), false);
    assert!(matches!(&actions[..], [ConfigAction::Save(_, c)] if c.theme == Theme::light()));
    let actions = m.handle(ConfigEvent::SetUpdateSettings(UpdateSettings { auto_update: false }), false);
    assert!(matches!(&actions[..], [ConfigAction::Save(_, c)] if !c.update_settings.auto_update && c.theme == Theme::light()));
    let actions = m.handle(ConfigEvent::RequestSetup, false);
    assert!(matches!(&actions[0], ConfigAction::Emit(ConfigEvent::ConfigSetup { location: None, theme, update_settings })
        if *theme == Theme::light() && !update_settings.auto_update));
}

#[test]
fn default_config_is_dark_with_updates_on() {
    let c = Config::default();
    assert!(c.location.is_none());
    assert_eq!(c.theme, Theme::dark());
    assert!(c.update_settings.auto_update);
}

#[test]
fn unreadable_config_is_not_answered_until_a_location_is_set() {
    let mut m = ConfigModel::open_config_path(Some(PathBuf::from("/cfg")), None);
    assert!(m.handle(ConfigEvent::RequestSetup, false).is_empty());
    let actions = m.handle(ConfigEvent::SetExportPath(PathBuf::from("/m")), true);
    assert_eq!(actions.len(), 1);
    assert!(m.inner.is_some());
}

// ---------------------------------------------------------------------------
// Updates
// ---------------------------------------------------------------------------

fn is_state(a: &UpdateAction, s: FfmpegInstallState) -> bool {
    matches!(a, UpdateAction::SetFfmpegInstallState(t) if *t == s)
}

#[test]
fn ffmpeg_plan_by_version() {
    let (plan, actions) = plan_ffmpeg(Some(("7.1-static", "7.1")));
    assert_eq!(plan, FfmpegPlan::UpToDate);
    assert!(actions.is_empty());
    let (plan, actions) = plan_ffmpeg(Some(("6.0", "7.1")));
    assert_eq!(plan, FfmpegPlan::Update);
    assert!(matches!(&actions[0], UpdateAction::Notify(n) if n.message == "Updating ffmpeg..."));
    assert!(is_state(&actions[1], FfmpegInstallState::Updating));
    let (plan, actions) = plan_ffmpeg(None);
    assert_eq!(plan, FfmpegPlan::Install);
    assert!(matches!(&actions[0], UpdateAction::Notify(n) if n.message == "Installing ffmpeg..."));
    assert!(is_state(&actions[1], FfmpegInstallState::Installing));
}

#[test]
fn ffmpeg_update_outcomes() {
    let a = finish_ffmpeg_update(FfmpegUpdateOutcome::AlreadyUpToDate);
    assert!(matches!(&a[0], UpdateAction::Notify(n) if n.message == "ffmpeg is already up to date"));
    assert!(is_state(&a[1], FfmpegInstallState::Installed));
    let a = finish_ffmpeg_update(FfmpegUpdateOutcome::Failed("network".to_string()));
    assert!(matches!(&a[0], UpdateAction::ShowError(e) if e.code == 100 && e.description.as_deref() == Some("Failed to install ffmpeg due an error: network")));
    assert!(is_state(&a[1], FfmpegInstallState::Failed));
    let a = finish_ffmpeg_update(FfmpegUpdateOutcome::Downloaded(true));
    assert!(matches!(&a[0], UpdateAction::Notify(n) if n.message == "Updated ffmpeg successfully"));
    let a = finish_ffmpeg_update(FfmpegUpdateOutcome::Downloaded(false));
    assert_eq!(a.len(), 3);
    assert!(matches!(&a[0], UpdateAction::ShowError(e) if e.code == 101));
    assert!(matches!(&a[1], UpdateAction::Notify(n) if n.level == NotificationLevel::Error));
    assert!(is_state(&a[2], FfmpegInstallState::Missing));
}

#[test]
fn yt_dlp_update_outcomes() {
    let a = finish_yt_dlp_update(true, Some(Ok(())));
    assert!(matches!(&a[..], [UpdateAction::Notify(n)] if n.message == "Updated yt-dlp successfully"));
    let a = finish_yt_dlp_update(true, Some(Err("404".to_string())));
    assert!(matches!(&a[..], [UpdateAction::ShowError(e)] if e.code == 300 && e.description.as_deref() == Some("Failed to download yt-dlp due to error: 404")));
    let a = finish_yt_dlp_update(false, None);
    assert!(matches!(&a[..], [UpdateAction::ShowError(e), UpdateAction::ShowError(f)] if e.code == 2 && f.code == 1));
}

#[test]
fn app_update_outcomes() {
    let a = finish_app_update(AppUpdateOutcome::Failed(Some("offline".to_string())));
    assert!(matches!(&a[0], UpdateAction::ShowError(e) if e.code == 999 && e.description.as_deref() == Some("offline")));
    assert!(matches!(&a[1], UpdateAction::Notify(n) if n.message == "Update Failed"));
    let a = finish_app_update(AppUpdateOutcome::Failed(None));
    assert!(matches!(&a[0], UpdateAction::ShowError(e) if e.description.is_none()));
    let a = finish_app_update(AppUpdateOutcome::NoUpdate);
    assert!(matches!(&a[..], [UpdateAction::Notify(n)] if n.message == "No update found for ytconvertv2"));
    assert!(finish_app_update(AppUpdateOutcome::Downloaded).is_empty());
}
