//! Events that change settings and preferences.
use vstd::prelude::*;

use crate::data::ExportType;
use crate::theme::Color;

verus! {

/// A change to a playlist's export settings.
pub enum PlaylistExportSettingsEvent {
    ChangeTitle(String),
    SetToVideo(bool),
    SetExtension(ExportType),
}

/// A change to the settings of one video of a playlist.
pub enum PlaylistVideoSettingsEvent {
    SetInclusion(bool),
    StartEdit,
    EndEdit(String),
}

/// A change to a single video's export settings.
pub enum VideoExportSettingsEvent {
    ChangeTitle(String),
    SetToVideo(bool),
    SetExtension(ExportType),
}

/// A change to one colour of the theme, or a switch to a preset.
#[derive(Clone, Copy, PartialEq, Eq, Structural, Debug)]
pub enum UpdateTheme {
    Primary(Color),
    Border(Color),
    TextPrimary(Color),
    TextSecondary(Color),
    TextLight(Color),
    Background(Color),
    BackgroundDark(Color),
    BackgroundLight(Color),
    DarkDefault,
    LightDefault,
}

/// A change to the update settings.
#[derive(Clone, Copy, PartialEq, Eq, Structural, Debug)]
pub enum UpdateUpdateSettings {
    ToggleAutoUpdates,
}

/// A change to the user's preferences.
#[derive(Clone, Copy, PartialEq, Eq, Structural, Debug)]
pub enum Update {
    Theme(UpdateTheme),
    UpdateSettings(UpdateUpdateSettings),
}

} // verus!
