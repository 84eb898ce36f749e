//! The stored configuration and how requests about it are answered. Reading
//! and writing the configuration file is left to the caller, which hands in
//! what it read and carries out the saves asked for.
use vstd::prelude::*;

use std::path::PathBuf;

use crate::data::update_settings::UpdateSettings;
use crate::theme::{spec_dark_theme, Theme};

verus! {

/// What is stored between runs: the export location, if one was chosen, the
/// theme and the update settings.
#[derive(Debug)]
pub struct Config {
    pub location: Option<PathBuf>,
    pub theme: Theme,
    pub update_settings: UpdateSettings,
}

impl Clone for Config {
    fn clone(&self) -> (r: Self)
        ensures
            r == *self,
    {
        let location = match &self.location {
            Some(p) => Some(p.clone()),
            None => None,
        };
        Config { location, theme: self.theme, update_settings: self.update_settings }
    }
}

/// The configuration before anything is stored: no export location, the dark
/// theme, automatic updates on.
pub open spec fn default_config() -> Config {
    Config {
        location: None,
        theme: spec_dark_theme(),
        update_settings: UpdateSettings { auto_update: true },
    }
}

impl Default for Config {
    /// No export location, the dark theme, automatic updates on.
    fn default() -> (c: Self)
        ensures
            c == default_config(),
    {
        Config { location: None, theme: Theme::dark(), update_settings: UpdateSettings::default() }
    }
}

/// A request about the configuration, or the answer to one.
pub enum ConfigEvent {
    /// Asks for the stored configuration.
    RequestSetup,
    /// The stored configuration.
    ConfigSetup { location: Option<PathBuf>, theme: Theme, update_settings: UpdateSettings },
    /// A new export location to store.
    SetExportPath(PathBuf),
    /// A new theme to store.
    SetTheme(Theme),
    /// New update settings to store.
    SetUpdateSettings(UpdateSettings),
}

/// What the configuration asks its surroundings to do.
pub enum ConfigAction {
    /// Hand this answer to the application.
    Emit(ConfigEvent),
    /// Write the configuration into the directory.
    Save(PathBuf, Config),
}

/// The configuration directory, if there is one, and the configuration read
/// from it (`None` when it could not be read).
#[derive(Debug)]
pub struct ConfigModel {
    pub path: Option<PathBuf>,
    pub inner: Option<Config>,
}

/// The save asked for after a request: the configuration, when the model has
/// one, into the model's directory.
pub open spec fn save_of(path: Option<PathBuf>, inner: Option<Config>) -> Seq<ConfigAction> {
    match (path, inner) {
        (Some(p), Some(c)) => seq![ConfigAction::Save(p, c)],
        _ => Seq::empty(),
    }
}

/// The configuration a change is made to: the one kept, or a new default one
/// when none could be read.
pub open spec fn config_or_default(inner: Option<Config>) -> Config {
    match inner {
        Some(c) => c,
        None => default_config(),
    }
}

/// The answer to a request for the stored configuration.
pub open spec fn setup_of(c: Config) -> ConfigEvent {
    ConfigEvent::ConfigSetup {
        location: c.location,
        theme: c.theme,
        update_settings: c.update_settings,
    }
}

/// The configuration kept after a request, and what is asked for. Without a
/// directory nothing happens. Otherwise a new export location is stored when
/// it exists (`exists`), and cleared when it does not; a new theme or new
/// update settings are stored; a request for the configuration is answered
/// when there is one; and then the configuration, when there is one, is saved.
pub open spec fn config_after(
    path: Option<PathBuf>,
    inner: Option<Config>,
    event: ConfigEvent,
    exists: bool,
) -> (Option<Config>, Seq<ConfigAction>) {
    if path is None {
        (inner, Seq::empty())
    } else {
        match event {
            ConfigEvent::SetExportPath(p) => {
                let c = Some(
                    Config {
                        location: if exists {
                            Some(p)
                        } else {
                            None
                        },
                        ..config_or_default(inner)
                    },
                );
                (c, save_of(path, c))
            },
            ConfigEvent::SetTheme(t) => {
                let c = Some(Config { theme: t, ..config_or_default(inner) });
                (c, save_of(path, c))
            },
            ConfigEvent::SetUpdateSettings(u) => {
                let c = Some(Config { update_settings: u, ..config_or_default(inner) });
                (c, save_of(path, c))
            },
            ConfigEvent::RequestSetup => (
                inner,
                match inner {
                    Some(c) => seq![ConfigAction::Emit(setup_of(c))] + save_of(path, inner),
                    None => Seq::empty(),
                },
            ),
            _ => (inner, save_of(path, inner)),
        }
    }
}

impl ConfigModel {
    /// The model for a configuration directory and what was read from it; with
    /// no directory there is nothing to read and nothing is kept.
    pub fn open_config_path(config_dir: Option<PathBuf>, loaded: Option<Config>) -> (m: Self)
        ensures
            m.path == config_dir,
            m.inner == (if config_dir is Some {
                loaded
            } else {
                None
            }),
    {
        match config_dir {
            None => ConfigModel { path: None, inner: None },
            Some(dir) => ConfigModel { path: Some(dir), inner: loaded },
        }
    }

    /// Handles a request as `config_after` says. `export_path_exists` says
    /// whether the location of a `SetExportPath` exists.
    pub fn handle(&mut self, event: ConfigEvent, export_path_exists: bool) -> (actions: Vec<
        ConfigAction,
    >)
        ensures
            final(self).path == old(self).path,
            (final(self).inner, actions@) == config_after(
                old(self).path,
                old(self).inner,
                event,
                export_path_exists,
            ),
    {
        let mut actions: Vec<ConfigAction> = Vec::new();
        if self.path.is_none() {
            return actions;
        }
        match event {
            ConfigEvent::SetExportPath(path) => {
                let mut c = self.config();
                c.location = if export_path_exists {
                    Some(path)
                } else {
                    None
                };
                self.inner = Some(c);
            },
            ConfigEvent::SetTheme(theme) => {
                let mut c = self.config();
                c.theme = theme;
                self.inner = Some(c);
            },
            ConfigEvent::SetUpdateSettings(settings) => {
                let mut c = self.config();
                c.update_settings = settings;
                self.inner = Some(c);
            },
            ConfigEvent::RequestSetup => {
                match &self.inner {
                    Some(config) => {
                        let c = config.clone();
                        actions.push(
                            ConfigAction::Emit(
                                ConfigEvent::ConfigSetup {
                                    location: c.location,
                                    theme: c.theme,
                                    update_settings: c.update_settings,
                                },
                            ),
                        );
                    },
                    None => {},
                }
            },
            _ => {},
        }
        match (&self.path, &self.inner) {
            (Some(path), Some(config)) => {
                actions.push(ConfigAction::Save(path.clone(), config.clone()));
            },
            _ => {},
        }
        proof {
            let s = save_of(self.path, self.inner);
            assert(actions@ =~= (match event {
                ConfigEvent::RequestSetup => match old(self).inner {
                    Some(c) => seq![ConfigAction::Emit(setup_of(c))] + s,
                    None => s,
                },
                _ => s,
            }));
        }
        actions
    }

    /// The configuration to change: the one kept, or a default one when none
    /// could be read.
    fn config(&self) -> (c: Config)
        ensures
            c == config_or_default(self.inner),
    {
        match &self.inner {
            Some(c) => c.clone(),
            None => Config::default(),
        }
    }
}

/// What is stored is what is read back: once an existing export location, a
/// theme and update settings are stored, a request for the configuration is
/// answered with them, and the configuration saved holds them.
pub proof fn law_config_reads_back(
    dir: PathBuf,
    inner: Option<Config>,
    p: PathBuf,
    t: Theme,
    u: UpdateSettings,
)
    ensures
        ({
            let (a, _) = config_after(Some(dir), inner, ConfigEvent::SetExportPath(p), true);
            let (b, _) = config_after(Some(dir), a, ConfigEvent::SetTheme(t), false);
            let (stored, _) = config_after(Some(dir), b, ConfigEvent::SetUpdateSettings(u), false);
            let (kept, actions) = config_after(Some(dir), stored, ConfigEvent::RequestSetup, false);
            let c = Config { location: Some(p), theme: t, update_settings: u };
            &&& stored == Some(c)
            &&& kept == stored
            &&& actions.len() == 2
            &&& actions[0] == ConfigAction::Emit(
                ConfigEvent::ConfigSetup { location: Some(p), theme: t, update_settings: u },
            )
            &&& actions[1] == ConfigAction::Save(dir, c)
        }),
{
}

/// A location that does not exist is not kept: storing one clears the stored
/// location and leaves the rest of the configuration as it was.
pub proof fn law_missing_location_cleared(dir: PathBuf, inner: Option<Config>, p: PathBuf)
    ensures
        config_after(Some(dir), inner, ConfigEvent::SetExportPath(p), false).0 == Some(
            Config { location: None, ..config_or_default(inner) },
        ),
{
}

} // verus!
