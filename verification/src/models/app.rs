//! The application's own state: theme, tasks, export location, dependencies
//! and popups, and how each request changes it.
use vstd::prelude::*;

use std::path::PathBuf;

use super::notification::{Notification, NotificationLevel};
use crate::config::ConfigEvent;
use crate::data::active_task::is_start_of;
use crate::data::license::License;
use crate::data::task_queue::{queue_after_pull, queue_after_push};
use crate::data::update_settings::UpdateSettings;
use crate::data::{ActiveTask, FfmpegInstallState, Task, TaskQueue};
use crate::error::{error_is, Error, ErrorSeverity};
use crate::events::{Update, UpdateTheme, UpdateUpdateSettings};
use crate::theme::{spec_dark_theme, spec_light_theme, Theme};

verus! {

/// A request about the application's state.
pub enum AppEvent {
    /// Ask the user for a new export location.
    RequestLocationChange,
    SetNewLocation(PathBuf),
    SetFfmpegInstallState(FfmpegInstallState),
    SubmitTask(Task),
    /// Has no effect on the application's state; tasks are removed by
    /// `TaskEvent::Remove`.
    RemoveTask(usize),
    SetShowAbout(bool),
    SetShowSettings(bool),
    SetShowLicense(bool),
    ToggleVideo,
    TogglePlaylist,
}

/// A request about the task queue and the running task.
pub enum TaskEvent {
    /// Remove the waiting task at an index (counted from the newest).
    Remove(usize),
    /// Start a task.
    SetActive(Task),
    /// New progress of the running task.
    UpdateActive(ActiveTask),
    /// The running task is done.
    FinishActive,
    /// Start the next waiting task, if any.
    MoveToNext,
}

/// A press on the toolbar.
pub enum ToolbarEvent {
    ShowAbout,
    ShowSettings,
    ShowLicense,
    OpenDocumentationPage,
    OpenIssuesPage,
}

/// Any request the application's state answers.
pub enum AppDataEvent {
    App(AppEvent),
    Task(TaskEvent),
    Toolbar(ToolbarEvent),
    Update(Update),
    Config(ConfigEvent),
}

/// What the application asks its surroundings to do.
pub enum AppAction {
    /// Hand this request back to the application.
    Emit(AppDataEvent),
    /// Let the user pick a folder, starting at the given one; answer with
    /// `AppEvent::SetNewLocation`.
    PickExportFolder(Option<PathBuf>),
    /// Export the task with the application's yt-dlp and ffmpeg, reporting
    /// with `TaskEvent::UpdateActive` and `TaskEvent::FinishActive`.
    StartTask(Task),
    /// Hand `TaskEvent::MoveToNext` back after one second.
    ScheduleMoveToNext,
    Notify(Notification),
    ShowError(Error),
    /// Open the address in the browser.
    OpenUrl(String),
    /// Look for a new version of the application.
    CheckForUpdates,
}

/// The application's state.
#[derive(Debug)]
pub struct AppData {
    pub theme: Theme,
    pub task_queue: TaskQueue,
    pub active_task: Option<ActiveTask>,
    pub playlist_selected: bool,
    pub current_location: Option<PathBuf>,
    pub yt_dlp_path: PathBuf,
    pub ffmpeg_path: PathBuf,
    pub ffmpeg_install_state: FfmpegInstallState,
    pub show_about: bool,
    pub show_settings: bool,
    pub show_licenses: bool,
    pub licenses: Option<Vec<License>>,
    pub update_settings: UpdateSettings,
}

/// The theme after a change.
pub open spec fn theme_after(t: Theme, u: UpdateTheme) -> Theme {
    match u {
        UpdateTheme::Primary(c) => Theme { primary: c, ..t },
        UpdateTheme::Border(c) => Theme { border: c, ..t },
        UpdateTheme::TextPrimary(c) => Theme { text_primary: c, ..t },
        UpdateTheme::TextSecondary(c) => Theme { text_secondary: c, ..t },
        UpdateTheme::TextLight(c) => Theme { text_light: c, ..t },
        UpdateTheme::Background(c) => Theme { background: c, ..t },
        UpdateTheme::BackgroundDark(c) => Theme { background_dark: c, ..t },
        UpdateTheme::BackgroundLight(c) => Theme { background_light: c, ..t },
        UpdateTheme::DarkDefault => spec_dark_theme(),
        UpdateTheme::LightDefault => spec_light_theme(),
    }
}

/// The update settings after a change.
pub open spec fn update_settings_after(s: UpdateSettings, u: UpdateUpdateSettings) -> UpdateSettings {
    match u {
        UpdateUpdateSettings::ToggleAutoUpdates => UpdateSettings { auto_update: !s.auto_update },
    }
}

/// `a` is a notice with the given level and message.
pub open spec fn is_notice(a: AppAction, level: NotificationLevel, message: Seq<char>) -> bool {
    a matches AppAction::Notify(n) && n.level == level && n.message@ == message
}

/// `a` shows an error with the given code, severity, title and description.
pub open spec fn is_error_action(
    a: AppAction,
    code: u16,
    severity: ErrorSeverity,
    title: Seq<char>,
    description: Seq<char>,
) -> bool {
    a matches AppAction::ShowError(e) && error_is(e, code, severity, title, Some(description))
}

/// `a` opens the address.
pub open spec fn is_open_url(a: AppAction, url: Seq<char>) -> bool {
    a matches AppAction::OpenUrl(u) && u@ == url
}

/// Every part of the state but the waiting tasks and the running task is the
/// same in `a` and `b`.
pub open spec fn same_but_tasks(a: AppData, b: AppData) -> bool {
    &&& a.theme == b.theme
    &&& a.playlist_selected == b.playlist_selected
    &&& a.current_location == b.current_location
    &&& a.yt_dlp_path == b.yt_dlp_path
    &&& a.ffmpeg_path == b.ffmpeg_path
    &&& a.ffmpeg_install_state == b.ffmpeg_install_state
    &&& a.show_about == b.show_about
    &&& a.show_settings == b.show_settings
    &&& a.show_licenses == b.show_licenses
    &&& a.licenses == b.licenses
    &&& a.update_settings == b.update_settings
}

/// What a started task leads to, by the state of the ffmpeg installation:
/// with ffmpeg installed the task becomes the running task and is exported;
/// while ffmpeg installs or updates, the user is asked to wait; otherwise the
/// user is told that ffmpeg is missing. Only a started export changes the
/// state.
pub open spec fn set_active_effect(
    old: AppData,
    new: AppData,
    task: Task,
    actions: Seq<AppAction>,
) -> bool {
    match old.ffmpeg_install_state {
        FfmpegInstallState::Installed => {
            &&& same_but_tasks(new, old)
            &&& new.task_queue == old.task_queue
            &&& new.active_task matches Some(a) && is_start_of(a, task@.data)
            &&& actions.len() == 1
            &&& actions[0] matches AppAction::StartTask(t) && t == task
        },
        FfmpegInstallState::Installing | FfmpegInstallState::Updating => {
            &&& new == old
            &&& actions.len() == 2
            &&& is_notice(actions[0], NotificationLevel::Warning, "Please wait for ffmpeg to install"@)
            &&& is_error_action(
                actions[1],
                6,
                ErrorSeverity::Warning,
                "Installing ffmpeg Warning"@,
                "ffmpeg is still installing, please wait."@,
            )
        },
        _ => {
            &&& new == old
            &&& actions.len() == 2
            &&& is_notice(actions[0], NotificationLevel::Error, "ffmpeg could not be found"@)
            &&& is_error_action(
                actions[1],
                7,
                ErrorSeverity::Error,
                "No Installation of ffmpeg"@,
                "Previously failed to install ffmpeg, cannot be used."@,
            )
        },
    }
}

impl AppData {
    /// The state at start-up: the dark theme, no tasks, the video page, no
    /// export location, ffmpeg's state unknown, no popup, automatic updates
    /// on, with the given dependency locations and licenses.
    pub fn new(yt_dlp_path: PathBuf, ffmpeg_path: PathBuf, licenses: Option<Vec<License>>) -> (s:
        Self)
        ensures
            s.theme == spec_dark_theme(),
            s.task_queue.tasks@.len() == 0,
            s.active_task is None,
            !s.playlist_selected,
            s.current_location is None,
            s.yt_dlp_path == yt_dlp_path,
            s.ffmpeg_path == ffmpeg_path,
            s.ffmpeg_install_state == FfmpegInstallState::Unknown,
            !s.show_about,
            !s.show_settings,
            !s.show_licenses,
            s.licenses == licenses,
            s.update_settings.auto_update,
    {
        AppData {
            theme: Theme::dark(),
            task_queue: TaskQueue::default(),
            active_task: None,
            playlist_selected: false,
            current_location: None,
            yt_dlp_path,
            ffmpeg_path,
            ffmpeg_install_state: FfmpegInstallState::Unknown,
            show_about: false,
            show_settings: false,
            show_licenses: false,
            licenses,
            update_settings: UpdateSettings::default(),
        }
    }

    fn update_theme(&mut self, update: UpdateTheme) -> (actions: Vec<AppAction>)
        ensures
            *final(self) == (AppData { theme: theme_after(old(self).theme, update), ..*old(self) }),
            actions@.len() == 1,
            actions@[0] matches AppAction::Emit(AppDataEvent::Config(ConfigEvent::SetTheme(t)))
                && t == final(self).theme,
    {
        match update {
            UpdateTheme::Primary(color) => self.theme.primary = color,
            UpdateTheme::Border(color) => self.theme.border = color,
            UpdateTheme::TextPrimary(color) => self.theme.text_primary = color,
            UpdateTheme::TextSecondary(color) => self.theme.text_secondary = color,
            UpdateTheme::TextLight(color) => self.theme.text_light = color,
            UpdateTheme::Background(color) => self.theme.background = color,
            UpdateTheme::BackgroundDark(color) => self.theme.background_dark = color,
            UpdateTheme::BackgroundLight(color) => self.theme.background_light = color,
            UpdateTheme::DarkDefault => self.theme = Theme::dark(),
            UpdateTheme::LightDefault => self.theme = Theme::light(),
        }
        vec![AppAction::Emit(AppDataEvent::Config(ConfigEvent::SetTheme(self.theme)))]
    }

    fn update_update_settings(&mut self, update: UpdateUpdateSettings) -> (actions: Vec<AppAction>)
        ensures
            *final(self) == (AppData {
                update_settings: update_settings_after(old(self).update_settings, update),
                ..*old(self)
            }),
            actions@.len() == 1,
            actions@[0] matches AppAction::Emit(
                AppDataEvent::Config(ConfigEvent::SetUpdateSettings(s)),
            ) && s == final(self).update_settings,
    {
        match update {
            UpdateUpdateSettings::ToggleAutoUpdates => {
                self.update_settings.auto_update = !self.update_settings.auto_update;
            },
        }
        vec![
            AppAction::Emit(
                AppDataEvent::Config(ConfigEvent::SetUpdateSettings(self.update_settings)),
            ),
        ]
    }

    fn set_active(&mut self, task: Task) -> (actions: Vec<AppAction>)
        ensures
            set_active_effect(*old(self), *final(self), task, actions@),
    {
        match self.ffmpeg_install_state {
            FfmpegInstallState::Installed => {
                self.active_task = Some(ActiveTask::new(&task));
                vec![AppAction::StartTask(task)]
            },
            FfmpegInstallState::Installing | FfmpegInstallState::Updating => {
                vec![
                    AppAction::Notify(
                        Notification::new(
                            NotificationLevel::Warning,
                            "Please wait for ffmpeg to install",
                        ),
                    ),
                    AppAction::ShowError(
                        Error::from_parts(
                            6,
                            "Installing ffmpeg Warning",
                            ErrorSeverity::Warning,
                            Some("ffmpeg is still installing, please wait."),
                        ),
                    ),
                ]
            },
            _ => {
                vec![
                    AppAction::Notify(
                        Notification::new(NotificationLevel::Error, "ffmpeg could not be found"),
                    ),
                    AppAction::ShowError(
                        Error::from_parts(
                            7,
                            "No Installation of ffmpeg",
                            ErrorSeverity::Error,
                            Some("Previously failed to install ffmpeg, cannot be used."),
                        ),
                    ),
                ]
            },
        }
    }

    /// Handles a request:
    /// - a new export location is kept and stored; a change of location asks
    ///   the user for a folder;
    /// - a submitted task waits in the queue while another runs, and starts
    ///   otherwise;
    /// - a started task runs when ffmpeg is installed, and otherwise the user
    ///   is told why it cannot;
    /// - a finished task leads, one second later, to the next waiting task, or
    ///   to no running task;
    /// - the toolbar opens popups and pages;
    /// - a change of theme or update settings is applied and stored;
    /// - the stored configuration sets the export location, the theme and the
    ///   update settings, and starts a check for updates when its automatic
    ///   updates are on.
    pub fn event(&mut self, event: AppDataEvent) -> (actions: Vec<AppAction>)
        ensures
            match event {
                AppDataEvent::App(e) => match e {
                    AppEvent::RequestLocationChange => {
                        &&& *final(self) == *old(self)
                        &&& actions@.len() == 1
                        &&& actions@[0] matches AppAction::PickExportFolder(l) && l
                            == old(self).current_location
                    },
                    AppEvent::SetNewLocation(p) => {
                        &&& *final(self) == (AppData { current_location: Some(p), ..*old(self) })
                        &&& actions@.len() == 1
                        &&& actions@[0] matches AppAction::Emit(
                            AppDataEvent::Config(ConfigEvent::SetExportPath(q)),
                        ) && q == p
                    },
                    AppEvent::SetFfmpegInstallState(s) => {
                        &&& *final(self) == (AppData { ffmpeg_install_state: s, ..*old(self) })
                        &&& actions@.len() == 0
                    },
                    AppEvent::SubmitTask(t) => if old(self).active_task is Some {
                        &&& same_but_tasks(*final(self), *old(self))
                        &&& final(self).active_task == old(self).active_task
                        &&& final(self).task_queue.tasks@ == queue_after_push(
                            old(self).task_queue.tasks@,
                            t,
                        )
                        &&& actions@.len() == 0
                    } else {
                        &&& *final(self) == *old(self)
                        &&& actions@.len() == 1
                        &&& actions@[0] matches AppAction::Emit(
                            AppDataEvent::Task(TaskEvent::SetActive(u)),
                        ) && u == t
                    },
                    AppEvent::RemoveTask(_) => {
                        &&& *final(self) == *old(self)
                        &&& actions@.len() == 0
                    },
                    AppEvent::SetShowAbout(b) => {
                        &&& *final(self) == (AppData { show_about: b, ..*old(self) })
                        &&& actions@.len() == 0
                    },
                    AppEvent::SetShowSettings(b) => {
                        &&& *final(self) == (AppData { show_settings: b, ..*old(self) })
                        &&& actions@.len() == 0
                    },
                    AppEvent::SetShowLicense(b) => {
                        &&& *final(self) == (AppData { show_licenses: b, ..*old(self) })
                        &&& actions@.len() == 0
                    },
                    AppEvent::ToggleVideo => {
                        &&& *final(self) == (AppData { playlist_selected: false, ..*old(self) })
                        &&& actions@.len() == 0
                    },
                    AppEvent::TogglePlaylist => {
                        &&& *final(self) == (AppData { playlist_selected: true, ..*old(self) })
                        &&& actions@.len() == 0
                    },
                },
                AppDataEvent::Task(e) => match e {
                    TaskEvent::Remove(i) => {
                        &&& same_but_tasks(*final(self), *old(self))
                        &&& final(self).active_task == old(self).active_task
                        &&& final(self).task_queue.tasks@ == if i < old(
                            self,
                        ).task_queue.tasks@.len() {
                            old(self).task_queue.tasks@.remove(i as int)
                        } else {
                            old(self).task_queue.tasks@
                        }
                        &&& actions@.len() == 0
                    },
                    TaskEvent::SetActive(t) => set_active_effect(
                        *old(self),
                        *final(self),
                        t,
                        actions@,
                    ),
                    TaskEvent::UpdateActive(a) => {
                        &&& *final(self) == if old(self).active_task is Some {
                            AppData { active_task: Some(a), ..*old(self) }
                        } else {
                            *old(self)
                        }
                        &&& actions@.len() == 0
                    },
                    TaskEvent::FinishActive => {
                        &&& *final(self) == *old(self)
                        &&& actions@.len() == 1
                        &&& actions@[0] is ScheduleMoveToNext
                    },
                    TaskEvent::MoveToNext => {
                        &&& same_but_tasks(*final(self), *old(self))
                        &&& final(self).task_queue.tasks@ == queue_after_pull(
                            old(self).task_queue.tasks@,
                        ).1
                        &&& match queue_after_pull(old(self).task_queue.tasks@).0 {
                            Some(t) => {
                                &&& final(self).active_task == old(self).active_task
                                &&& actions@.len() == 1
                                &&& actions@[0] matches AppAction::Emit(
                                    AppDataEvent::Task(TaskEvent::SetActive(u)),
                                ) && u == t
                            },
                            None => {
                                &&& final(self).active_task is None
                                &&& actions@.len() == 0
                            },
                        }
                    },
                },
                AppDataEvent::Toolbar(e) => {
                    &&& *final(self) == *old(self)
                    &&& actions@.len() == 1
                    &&& match e {
                        ToolbarEvent::ShowAbout => actions@[0] matches AppAction::Emit(
                            AppDataEvent::App(AppEvent::SetShowAbout(b)),
                        ) && b,
                        ToolbarEvent::ShowSettings => actions@[0] matches AppAction::Emit(
                            AppDataEvent::App(AppEvent::SetShowSettings(b)),
                        ) && b,
                        ToolbarEvent::ShowLicense => actions@[0] matches AppAction::Emit(
                            AppDataEvent::App(AppEvent::SetShowLicense(b)),
                        ) && b,
                        ToolbarEvent::OpenDocumentationPage => is_open_url(
                            actions@[0],
                            "https://github.com/GlitchlessCode/ytconvertv2/wiki"@,
                        ),
                        ToolbarEvent::OpenIssuesPage => is_open_url(
                            actions@[0],
                            "https://github.com/GlitchlessCode/ytconvertv2/issues"@,
                        ),
                    }
                },
                AppDataEvent::Update(u) => match u {
                    Update::Theme(t) => {
                        &&& *final(self) == (AppData {
                            theme: theme_after(old(self).theme, t),
                            ..*old(self)
                        })
                        &&& actions@.len() == 1
                        &&& actions@[0] matches AppAction::Emit(
                            AppDataEvent::Config(ConfigEvent::SetTheme(s)),
                        ) && s == final(self).theme
                    },
                    Update::UpdateSettings(s) => {
                        &&& *final(self) == (AppData {
                            update_settings: update_settings_after(old(self).update_settings, s),
                            ..*old(self)
                        })
                        &&& actions@.len() == 1
                        &&& actions@[0] matches AppAction::Emit(
                            AppDataEvent::Config(ConfigEvent::SetUpdateSettings(n)),
                        ) && n == final(self).update_settings
                    },
                },
                AppDataEvent::Config(c) => match c {
                    ConfigEvent::ConfigSetup { location, theme, update_settings } => {
                        &&& *final(self) == (AppData {
                            current_location: location,
                            theme,
                            update_settings,
                            ..*old(self)
                        })
                        &&& if update_settings.auto_update {
                            actions@.len() == 1 && actions@[0] is CheckForUpdates
                        } else {
                            actions@.len() == 0
                        }
                    },
                    _ => {
                        &&& *final(self) == *old(self)
                        &&& actions@.len() == 0
                    },
                },
            },
    {
        match event {
            AppDataEvent::App(e) => match e {
                AppEvent::RequestLocationChange => {
                    let start = match &self.current_location {
                        Some(p) => Some(p.clone()),
                        None => None,
                    };
                    vec![AppAction::PickExportFolder(start)]
                },
                AppEvent::SetNewLocation(new_path) => {
                    self.current_location = Some(new_path.clone());
                    vec![AppAction::Emit(AppDataEvent::Config(ConfigEvent::SetExportPath(new_path)))]
                },
                AppEvent::SetFfmpegInstallState(state) => {
                    self.ffmpeg_install_state = state;
                    Vec::new()
                },
                AppEvent::SubmitTask(task) => {
                    if self.active_task.is_some() {
                        self.task_queue.push(task);
                        Vec::new()
                    } else {
                        vec![AppAction::Emit(AppDataEvent::Task(TaskEvent::SetActive(task)))]
                    }
                },
                AppEvent::RemoveTask(_) => Vec::new(),
                AppEvent::SetShowAbout(state) => {
                    self.show_about = state;
                    Vec::new()
                },
                AppEvent::SetShowSettings(state) => {
                    self.show_settings = state;
                    Vec::new()
                },
                AppEvent::SetShowLicense(state) => {
                    self.show_licenses = state;
                    Vec::new()
                },
                AppEvent::ToggleVideo => {
                    self.playlist_selected = false;
                    Vec::new()
                },
                AppEvent::TogglePlaylist => {
                    self.playlist_selected = true;
                    Vec::new()
                },
            },
            AppDataEvent::Task(e) => match e {
                TaskEvent::Remove(index) => {
                    self.task_queue.remove(index);
                    Vec::new()
                },
                TaskEvent::SetActive(task) => self.set_active(task),
                TaskEvent::UpdateActive(active_task) => {
                    if self.active_task.is_some() {
                        self.active_task = Some(active_task);
                    }
                    Vec::new()
                },
                TaskEvent::FinishActive => vec![AppAction::ScheduleMoveToNext],
                TaskEvent::MoveToNext => {
                    match self.task_queue.pull() {
                        Some(task) => vec![
                            AppAction::Emit(AppDataEvent::Task(TaskEvent::SetActive(task))),
                        ],
                        None => {
                            self.active_task = None;
                            Vec::new()
                        },
                    }
                },
            },
            AppDataEvent::Toolbar(e) => match e {
                ToolbarEvent::ShowAbout => vec![
                    AppAction::Emit(AppDataEvent::App(AppEvent::SetShowAbout(true))),
                ],
                ToolbarEvent::ShowSettings => vec![
                    AppAction::Emit(AppDataEvent::App(AppEvent::SetShowSettings(true))),
                ],
                ToolbarEvent::ShowLicense => vec![
                    AppAction::Emit(AppDataEvent::App(AppEvent::SetShowLicense(true))),
                ],
                ToolbarEvent::OpenDocumentationPage => vec![
                    AppAction::OpenUrl(
                        String::from_str("https://github.com/GlitchlessCode/ytconvertv2/wiki"),
                    ),
                ],
                ToolbarEvent::OpenIssuesPage => vec![
                    AppAction::OpenUrl(
                        String::from_str("https://github.com/GlitchlessCode/ytconvertv2/issues"),
                    ),
                ],
            },
            AppDataEvent::Update(u) => match u {
                Update::Theme(update) => self.update_theme(update),
                Update::UpdateSettings(update) => self.update_update_settings(update),
            },
            AppDataEvent::Config(c) => match c {
                ConfigEvent::ConfigSetup { location, theme, update_settings } => {
                    self.current_location = location;
                    self.theme = theme;
                    self.update_settings = update_settings;
                    if self.update_settings.auto_update {
                        vec![AppAction::CheckForUpdates]
                    } else {
                        Vec::new()
                    }
                },
                _ => Vec::new(),
            },
        }
    }
}

/// Each preset gives its own theme whatever the theme was (the dark preset
/// has the `#252525` background and the light one `#ececf0`), and a change of
/// one colour sets that colour and leaves the seven others as they were.
pub proof fn law_theme_changes(t: Theme, c: crate::theme::Color)
    ensures
        theme_after(t, UpdateTheme::DarkDefault) == spec_dark_theme(),
        theme_after(t, UpdateTheme::DarkDefault).background == crate::theme::rgb(0x25, 0x25, 0x25),
        theme_after(t, UpdateTheme::LightDefault) == spec_light_theme(),
        theme_after(t, UpdateTheme::LightDefault).background == crate::theme::rgb(0xec, 0xec, 0xf0),
        theme_after(t, UpdateTheme::Primary(c)) == (Theme { primary: c, ..t }),
        theme_after(t, UpdateTheme::Border(c)) == (Theme { border: c, ..t }),
        theme_after(t, UpdateTheme::TextPrimary(c)) == (Theme { text_primary: c, ..t }),
        theme_after(t, UpdateTheme::TextSecondary(c)) == (Theme { text_secondary: c, ..t }),
        theme_after(t, UpdateTheme::TextLight(c)) == (Theme { text_light: c, ..t }),
        theme_after(t, UpdateTheme::Background(c)) == (Theme { background: c, ..t }),
        theme_after(t, UpdateTheme::BackgroundDark(c)) == (Theme { background_dark: c, ..t }),
        theme_after(t, UpdateTheme::BackgroundLight(c)) == (Theme { background_light: c, ..t }),
{
}

} // verus!
