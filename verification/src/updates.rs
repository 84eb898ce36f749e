//! What the user is told, and which install state ffmpeg is given, while the
//! dependencies (ffmpeg, yt-dlp) and the application itself are updated. The
//! downloads and version lookups are done by the caller, which hands their
//! results in.
use vstd::prelude::*;

use crate::data::FfmpegInstallState;
use crate::error::{error_is, Error, ErrorSeverity};
use crate::models::notification::{Notification, NotificationLevel};
use crate::text::{chars_of, push_str_chars};

verus! {

/// What an update asks its surroundings to do.
pub enum UpdateAction {
    Notify(Notification),
    ShowError(Error),
    SetFfmpegInstallState(FfmpegInstallState),
}

/// `a` is a notice with the given level and message.
pub open spec fn is_update_notice(a: UpdateAction, level: NotificationLevel, message: Seq<char>) -> bool {
    a matches UpdateAction::Notify(n) && n.level == level && n.message@ == message
}

/// `a` shows an error with the given code, title and description.
pub open spec fn is_update_error(
    a: UpdateAction,
    code: u16,
    title: Seq<char>,
    description: Seq<char>,
) -> bool {
    a matches UpdateAction::ShowError(e) && error_is(
        e,
        code,
        ErrorSeverity::Error,
        title,
        Some(description),
    )
}

/// `a` sets the install state of ffmpeg.
pub open spec fn is_state(a: UpdateAction, s: FfmpegInstallState) -> bool {
    a matches UpdateAction::SetFfmpegInstallState(t) && t == s
}

/// Whether `s` begins with `prefix`.
pub fn starts_with(s: &str, prefix: &str) -> (r: bool)
    ensures
        r == prefix@.is_prefix_of(s@),
{
    let a = chars_of(s);
    let b = chars_of(prefix);
    if b.len() > a.len() {
        return false;
    }
    let mut i: usize = 0;
    while i < b.len()
        invariant
            a@ == s@,
            b@ == prefix@,
            b@.len() <= a@.len(),
            i <= b@.len(),
            forall|j: int| 0 <= j < i ==> a@[j] == b@[j],
        decreases b@.len() - i,
    {
        if a[i] != b[i] {
            return false;
        }
        i = i + 1;
    }
    true
}

// ---------------------------------------------------------------------------
// ffmpeg
// ---------------------------------------------------------------------------

/// What is done about ffmpeg.
#[derive(Clone, Copy, PartialEq, Eq, Structural, Debug)]
pub enum FfmpegPlan {
    /// The installed version is the latest one.
    UpToDate,
    /// The installed version is older; the latest is downloaded over it.
    Update,
    /// There is no installation; the latest version is downloaded.
    Install,
}

/// The plan for ffmpeg: install it when it is missing, and otherwise update it
/// unless the installed version begins with the latest version's name.
pub open spec fn spec_ffmpeg_plan(versions: Option<(Seq<char>, Seq<char>)>) -> FfmpegPlan {
    match versions {
        None => FfmpegPlan::Install,
        Some((current, latest)) => if latest.is_prefix_of(current) {
            FfmpegPlan::UpToDate
        } else {
            FfmpegPlan::Update
        },
    }
}

/// The notice that an update of ffmpeg is being looked for.
pub fn ffmpeg_check_notice() -> (n: Notification)
    ensures
        n.level == NotificationLevel::Info,
        n.message@ == "Checking ffmpeg for updates"@,
{
    Notification::new(NotificationLevel::Info, "Checking ffmpeg for updates")
}

/// Decides what to do about ffmpeg, given the installed and the latest
/// version's names when ffmpeg is installed (`None` when it is not), and what
/// to tell the user before a download: an update or an install is announced
/// and ffmpeg's state set to updating or installing.
pub fn plan_ffmpeg(versions: Option<(&str, &str)>) -> (r: (FfmpegPlan, Vec<UpdateAction>))
    ensures
        r.0 == spec_ffmpeg_plan(
            match versions {
                Some((c, l)) => Some((c@, l@)),
                None => None,
            },
        ),
        match r.0 {
            FfmpegPlan::UpToDate => r.1@.len() == 0,
            FfmpegPlan::Update => {
                &&& r.1@.len() == 2
                &&& is_update_notice(r.1@[0], NotificationLevel::Info, "Updating ffmpeg..."@)
                &&& is_state(r.1@[1], FfmpegInstallState::Updating)
            },
            FfmpegPlan::Install => {
                &&& r.1@.len() == 2
                &&& is_update_notice(r.1@[0], NotificationLevel::Info, "Installing ffmpeg..."@)
                &&& is_state(r.1@[1], FfmpegInstallState::Installing)
            },
        },
{
    match versions {
        Some((current, latest)) => {
            if starts_with(current, latest) {
                (FfmpegPlan::UpToDate, Vec::new())
            } else {
                (
                    FfmpegPlan::Update,
                    vec![
                        UpdateAction::Notify(
                            Notification::new(NotificationLevel::Info, "Updating ffmpeg..."),
                        ),
                        UpdateAction::SetFfmpegInstallState(FfmpegInstallState::Updating),
                    ],
                )
            }
        },
        None => (
            FfmpegPlan::Install,
            vec![
                UpdateAction::Notify(
                    Notification::new(NotificationLevel::Info, "Installing ffmpeg..."),
                ),
                UpdateAction::SetFfmpegInstallState(FfmpegInstallState::Installing),
            ],
        ),
    }
}

/// How an update of ffmpeg ended.
pub enum FfmpegUpdateOutcome {
    /// Nothing was downloaded: the installed version is the latest.
    AlreadyUpToDate,
    /// A version lookup or the download failed; the message says why.
    Failed(String),
    /// A version was downloaded and unpacked; says whether ffmpeg is found
    /// installed afterwards.
    Downloaded(bool),
}

/// What the user is told, and which state ffmpeg is given, at the end of an
/// update.
pub fn finish_ffmpeg_update(outcome: FfmpegUpdateOutcome) -> (actions: Vec<UpdateAction>)
    ensures
        match outcome {
            FfmpegUpdateOutcome::AlreadyUpToDate => {
                &&& actions@.len() == 2
                &&& is_update_notice(
                    actions@[0],
                    NotificationLevel::Success,
                    "ffmpeg is already up to date"@,
                )
                &&& is_state(actions@[1], FfmpegInstallState::Installed)
            },
            FfmpegUpdateOutcome::Failed(msg) => {
                &&& actions@.len() == 2
                &&& is_update_error(
                    actions@[0],
                    100,
                    "Dependency ffmpeg Installation Failed"@,
                    "Failed to install ffmpeg due an error: "@ + msg@,
                )
                &&& is_state(actions@[1], FfmpegInstallState::Failed)
            },
            FfmpegUpdateOutcome::Downloaded(installed) => if installed {
                &&& actions@.len() == 2
                &&& is_update_notice(
                    actions@[0],
                    NotificationLevel::Success,
                    "Updated ffmpeg successfully"@,
                )
                &&& is_state(actions@[1], FfmpegInstallState::Installed)
            } else {
                &&& actions@.len() == 3
                &&& is_update_error(
                    actions@[0],
                    101,
                    "Dependency ffmpeg Unexpectedly Missing"@,
                    "Cannot detect an ffmpeg installation after completing the installation process."@,
                )
                &&& is_update_notice(
                    actions@[1],
                    NotificationLevel::Error,
                    "Please try installing ffmpeg manually"@,
                )
                &&& is_state(actions@[2], FfmpegInstallState::Missing)
            },
        },
{
    match outcome {
        FfmpegUpdateOutcome::AlreadyUpToDate => vec![
            UpdateAction::Notify(
                Notification::new(NotificationLevel::Success, "ffmpeg is already up to date"),
            ),
            UpdateAction::SetFfmpegInstallState(FfmpegInstallState::Installed),
        ],
        FfmpegUpdateOutcome::Failed(msg) => {
            let mut description = String::from_str("Failed to install ffmpeg due an error: ");
            push_str_chars(&mut description, msg.as_str());
            vec![
                UpdateAction::ShowError(
                    Error::new(
                        100,
                        String::from_str("Dependency ffmpeg Installation Failed"),
                        ErrorSeverity::Error,
                        Some(description),
                    ),
                ),
                UpdateAction::SetFfmpegInstallState(FfmpegInstallState::Failed),
            ]
        },
        FfmpegUpdateOutcome::Downloaded(installed) => {
            if installed {
                vec![
                    UpdateAction::Notify(
                        Notification::new(NotificationLevel::Success, "Updated ffmpeg successfully"),
                    ),
                    UpdateAction::SetFfmpegInstallState(FfmpegInstallState::Installed),
                ]
            } else {
                vec![
                    UpdateAction::ShowError(
                        Error::from_parts(
                            101,
                            "Dependency ffmpeg Unexpectedly Missing",
                            ErrorSeverity::Error,
                            Some(
                                "Cannot detect an ffmpeg installation after completing the installation process.",
                            ),
                        ),
                    ),
                    UpdateAction::Notify(
                        Notification::new(
                            NotificationLevel::Error,
                            "Please try installing ffmpeg manually",
                        ),
                    ),
                    UpdateAction::SetFfmpegInstallState(FfmpegInstallState::Missing),
                ]
            }
        },
    }
}

// ---------------------------------------------------------------------------
// yt-dlp
// ---------------------------------------------------------------------------

/// The notice that yt-dlp is being updated.
pub fn yt_dlp_update_notice() -> (n: Notification)
    ensures
        n.level == NotificationLevel::Info,
        n.message@ == "Updating yt-dlp..."@,
{
    Notification::new(NotificationLevel::Info, "Updating yt-dlp...")
}

/// What the user is told after asking the background downloader for yt-dlp:
/// `sent` says whether the request reached the downloader, `reply` is its
/// answer (`None` when none came, an error message when the download failed).
/// A request that was not sent is reported first, then what the reply was.
pub fn finish_yt_dlp_update(sent: bool, reply: Option<Result<(), String>>) -> (actions: Vec<
    UpdateAction,
>)
    ensures
        actions@.len() == (if sent {
            1int
        } else {
            2int
        }),
        !sent ==> is_update_error(
            actions@[0],
            2,
            "MPSC Channel Send Failure"@,
            "Failed to send yt-dlp download signal to tokio task"@,
        ),
        match reply {
            None => is_update_error(
                actions@.last(),
                1,
                "Oneshot Channel Reciever Failure"@,
                "Failed to recieve from yt-dlp downloader oneshot channel"@,
            ),
            Some(Err(e)) => is_update_error(
                actions@.last(),
                300,
                "yt-dlp Download Failure"@,
                "Failed to download yt-dlp due to error: "@ + e@,
            ),
            Some(Ok(())) => is_update_notice(
                actions@.last(),
                NotificationLevel::Success,
                "Updated yt-dlp successfully"@,
            ),
        },
{
    let mut actions: Vec<UpdateAction> = Vec::new();
    if !sent {
        actions.push(
            UpdateAction::ShowError(
                Error::from_parts(
                    2,
                    "MPSC Channel Send Failure",
                    ErrorSeverity::Error,
                    Some("Failed to send yt-dlp download signal to tokio task"),
                ),
            ),
        );
    }
    match reply {
        None => {
            actions.push(
                UpdateAction::ShowError(
                    Error::from_parts(
                        1,
                        "Oneshot Channel Reciever Failure",
                        ErrorSeverity::Error,
                        Some("Failed to recieve from yt-dlp downloader oneshot channel"),
                    ),
                ),
            );
        },
        Some(Err(e)) => {
            let mut description = String::from_str("Failed to download yt-dlp due to error: ");
            push_str_chars(&mut description, e.as_str());
            actions.push(
                UpdateAction::ShowError(
                    Error::new(
                        300,
                        String::from_str("yt-dlp Download Failure"),
                        ErrorSeverity::Error,
                        Some(description),
                    ),
                ),
            );
        },
        Some(Ok(())) => {
            actions.push(
                UpdateAction::Notify(
                    Notification::new(NotificationLevel::Success, "Updated yt-dlp successfully"),
                ),
            );
        },
    }
    actions
}

// ---------------------------------------------------------------------------
// The application
// ---------------------------------------------------------------------------

/// How a check for a new version of the application ended.
pub enum AppUpdateOutcome {
    /// The check or the download failed, with the error's message if there
    /// was one.
    Failed(Option<String>),
    /// No newer version was found.
    NoUpdate,
    /// A newer version was downloaded; the application restarts into it.
    Downloaded,
}

/// The notice that a new version is being looked for.
pub fn app_update_check_notice() -> (n: Notification)
    ensures
        n.level == NotificationLevel::Info,
        n.message@ == "Checking ytconvertv2 for updates..."@,
{
    Notification::new(NotificationLevel::Info, "Checking ytconvertv2 for updates...")
}

/// What the user is told at the end of a check for a new version; nothing
/// when one was downloaded, since the application then restarts.
pub fn finish_app_update(outcome: AppUpdateOutcome) -> (actions: Vec<UpdateAction>)
    ensures
        match outcome {
            AppUpdateOutcome::Failed(msg) => {
                &&& actions@.len() == 2
                &&& actions@[0] matches UpdateAction::ShowError(e) && error_is(
                    e,
                    999,
                    ErrorSeverity::Error,
                    "Velopack Update Failed"@,
                    match msg {
                        Some(m) => Some(m@),
                        None => None,
                    },
                )
                &&& is_update_notice(actions@[1], NotificationLevel::Error, "Update Failed"@)
            },
            AppUpdateOutcome::NoUpdate => {
                &&& actions@.len() == 1
                &&& is_update_notice(
                    actions@[0],
                    NotificationLevel::Info,
                    "No update found for ytconvertv2"@,
                )
            },
            AppUpdateOutcome::Downloaded => actions@.len() == 0,
        },
{
    match outcome {
        AppUpdateOutcome::Failed(msg) => vec![
            UpdateAction::ShowError(
                Error::new(
                    999,
                    String::from_str("Velopack Update Failed"),
                    ErrorSeverity::Error,
                    msg,
                ),
            ),
            UpdateAction::Notify(Notification::new(NotificationLevel::Error, "Update Failed")),
        ],
        AppUpdateOutcome::NoUpdate => vec![
            UpdateAction::Notify(
                Notification::new(NotificationLevel::Info, "No update found for ytconvertv2"),
            ),
        ],
        AppUpdateOutcome::Downloaded => Vec::new(),
    }
}

/// ffmpeg is installed when it is missing; an installed ffmpeg is left as it
/// is exactly when the latest version's name is, character for character, the
/// start of the installed version's name, and is updated otherwise.
pub proof fn law_ffmpeg_plan(current: Seq<char>, latest: Seq<char>)
    ensures
        spec_ffmpeg_plan(None) == FfmpegPlan::Install,
        spec_ffmpeg_plan(Some((current, latest))) != FfmpegPlan::Install,
        spec_ffmpeg_plan(Some((current, latest))) == FfmpegPlan::UpToDate <==> (latest.len()
            <= current.len() && forall|i: int| 0 <= i < latest.len() ==> current[i] == latest[i]),
        spec_ffmpeg_plan(Some((current, latest))) == FfmpegPlan::Update <==> (latest.len()
            > current.len() || exists|i: int| 0 <= i < latest.len() && current[i] != latest[i]),
{
}

} // verus!
