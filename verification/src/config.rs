//! Application settings and their validation.

use vstd::prelude::*;

verus! {

#[derive(Debug, Clone, Copy, PartialEq, Eq, Structural)]
pub enum Theme {
    System,
    Light,
    Dark,
}

/// Settings of the application. The cache directory is held as its path,
/// in the bytes by which the platform encodes it (`OsStr::as_encoded_bytes`),
/// so that no path is altered.
#[derive(Debug, Clone, PartialEq, Eq)]
pub struct AppSettings {
    pub offline_mode: bool,
    pub cache_dir: Vec<u8>,
    pub max_cache_size_mb: u64,
    pub theme: Theme,
    pub gtk_compact_mode: bool,
    pub lan_discovery_enabled: bool,
    pub bluetooth_experimental_enabled: bool,
}

#[derive(Debug, Clone, Copy, PartialEq, Eq, Structural)]
pub enum ConfigError {
    EmptyCacheLimit,
    EmptyCacheDir,
    ProjectDirsUnavailable,
}

/// Settings are usable when the cache may hold something and has a place.
pub open spec fn settings_check(max_cache_size_mb: u64, cache_dir: Seq<u8>) -> Result<(), ConfigError> {
    if max_cache_size_mb == 0 {
        Err(ConfigError::EmptyCacheLimit)
    } else if cache_dir.len() == 0 {
        Err(ConfigError::EmptyCacheDir)
    } else {
        Ok(())
    }
}

#[verifier::external_type_specification]
#[verifier::external_body]
pub struct ExProjectDirs(directories::ProjectDirs);

/// `directories::ProjectDirs::from`: the platform's directories for a
/// project, or none where no home directory can be found. The answer
/// depends on the environment (the home directory and the XDG variables),
/// so no clause states it.
#[verifier::external_body]
fn project_dirs(qualifier: &str, organization: &str, application: &str) -> (r: Option<
    directories::ProjectDirs,
>) {
    directories::ProjectDirs::from(qualifier, organization, application)
}

/// `directories::ProjectDirs::cache_dir`, the project's cache directory, in
/// the bytes by which the platform encodes the path. Trusted: the source
/// joins the project's path onto a base directory, so the path is never
/// empty; nothing more is stated of which directory it is.
#[verifier::external_body]
fn cache_dir_bytes(dirs: &directories::ProjectDirs) -> (r: Vec<u8>)
    ensures
        r@.len() > 0,
{
    dirs.cache_dir().as_os_str().as_encoded_bytes().to_vec()
}

/// The project's default settings, around a cache directory.
pub open spec fn project_defaults(cache_dir: Vec<u8>) -> AppSettings {
    AppSettings {
        offline_mode: false,
        cache_dir,
        max_cache_size_mb: 512,
        theme: Theme::System,
        gtk_compact_mode: false,
        lan_discovery_enabled: false,
        bluetooth_experimental_enabled: false,
    }
}

impl AppSettings {
    /// The project's defaults, with the cache directory that the platform's
    /// project directories name.
    pub fn default_for_project() -> (r: Result<Self, ConfigError>)
        ensures
            r is Err ==> r == Err::<Self, ConfigError>(ConfigError::ProjectDirsUnavailable),
            r matches Ok(s) ==> s == project_defaults(s.cache_dir),
            r matches Ok(s) ==> settings_check(s.max_cache_size_mb, s.cache_dir@) is Ok,
    {
        let cache_dir = match project_dirs("dev", "meowify", "Meowify") {
            Some(dirs) => Some(cache_dir_bytes(&dirs)),
            None => None,
        };
        Self::from_cache_dir(cache_dir)
    }

    /// The project's defaults, given the cache directory that the platform's
    /// project directories name, or none where they are unknown.
    pub fn from_cache_dir(cache_dir: Option<Vec<u8>>) -> (r: Result<Self, ConfigError>)
        ensures
            cache_dir is None ==> r == Err::<Self, ConfigError>(ConfigError::ProjectDirsUnavailable),
            cache_dir matches Some(dir) ==> r == Ok::<Self, ConfigError>(project_defaults(dir)),
    {
        let dir = match cache_dir {
            Some(d) => d,
            None => {
                return Err(ConfigError::ProjectDirsUnavailable);
            },
        };
        Ok(
            AppSettings {
                offline_mode: false,
                cache_dir: dir,
                max_cache_size_mb: 512,
                theme: Theme::System,
                gtk_compact_mode: false,
                lan_discovery_enabled: false,
                bluetooth_experimental_enabled: false,
            },
        )
    }

    pub fn validate(&self) -> (r: Result<(), ConfigError>)
        ensures
            r == settings_check(self.max_cache_size_mb, self.cache_dir@),
    {
        if self.max_cache_size_mb == 0 {
            return Err(ConfigError::EmptyCacheLimit);
        }
        if self.cache_dir.len() == 0 {
            return Err(ConfigError::EmptyCacheDir);
        }
        Ok(())
    }
}

} // verus!
