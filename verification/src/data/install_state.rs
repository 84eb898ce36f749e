//! The state of the ffmpeg installation.
use vstd::prelude::*;

verus! {

/// Where the ffmpeg installation stands.
#[derive(Clone, Copy, PartialEq, Eq, Structural, Debug)]
pub enum FfmpegInstallState {
    Installed,
    Installing,
    Updating,
    Failed,
    Missing,
    Unknown,
}

/// The name shown for an install state.
pub open spec fn install_state_text(s: FfmpegInstallState) -> Seq<char> {
    match s {
        FfmpegInstallState::Installed => "Installed"@,
        FfmpegInstallState::Installing => "Installing"@,
        FfmpegInstallState::Updating => "Updating"@,
        FfmpegInstallState::Failed => "Failed"@,
        FfmpegInstallState::Missing => "Missing"@,
        FfmpegInstallState::Unknown => "Unknown"@,
    }
}

impl FfmpegInstallState {
    /// The name of the state, such as `Installed`.
    pub fn to_string(&self) -> (s: String)
        ensures
            s@ == install_state_text(*self),
    {
        match self {
            Self::Installed => String::from_str("Installed"),
            Self::Installing => String::from_str("Installing"),
            Self::Updating => String::from_str("Updating"),
            Self::Failed => String::from_str("Failed"),
            Self::Missing => String::from_str("Missing"),
            Self::Unknown => String::from_str("Unknown"),
        }
    }
}

} // verus!
