//! Discovery of the per-user configuration directory and the per-profile
//! credentials file path.

use vstd::prelude::*;

verus! {

/// Errors that can occur when working with configuration directories.
#[derive(Debug, Clone)]
pub enum ConfigError {
    /// No per-user configuration directory could be determined.
    MissingProjectDirs,
    /// The configuration directory could not be created.
    CreateDir(String),
    /// Another filesystem operation failed.
    Io(String),
}

/// The message text for a configuration error.
pub open spec fn spec_config_message(e: &ConfigError) -> Seq<char> {
    match e {
        ConfigError::MissingProjectDirs => "unable to determine configuration directory for linear-rs"@,
        ConfigError::CreateDir(m) => "failed to create configuration directory: "@ + m@,
        ConfigError::Io(m) => "filesystem error: "@ + m@,
    }
}

impl ConfigError {
    /// A human-readable description of the error, distinct for each kind.
    pub fn message(&self) -> (r: String)
        ensures
            r@ == spec_config_message(self),
    {
        match self {
            ConfigError::MissingProjectDirs => String::from_str(
                "unable to determine configuration directory for linear-rs",
            ),
            ConfigError::CreateDir(m) => {
                let mut s = String::from_str("failed to create configuration directory: ");
                s.append(m.as_str());
                s
            },
            ConfigError::Io(m) => {
                let mut s = String::from_str("filesystem error: ");
                s.append(m.as_str());
                s
            },
        }
    }
}

/// Relies on `directories`' `ProjectDirs::from("app", "linear", "linear-rs")`
/// followed by `config_dir`: the per-user configuration directory, which
/// depends on the environment; nothing is promised of the path's text.
#[verifier::external_body]
fn project_config_dir() -> (r: Option<String>)
{
    directories::ProjectDirs::from("app", "linear", "linear-rs").map(
        |dirs| dirs.config_dir().to_string_lossy().into_owned(),
    )
}

/// Locates the persistent configuration directory and the files inside it.
#[derive(Debug, Clone)]
pub struct ConfigLocator {
    root: String,
}

impl ConfigLocator {
    /// The configuration directory's path, for specifications.
    pub closed spec fn root_view(&self) -> Seq<char> {
        self.root@
    }

    /// Discover the per-user configuration directory. The directory itself is
    /// created (with owner-only permissions) by the first save.
    pub fn new() -> (r: Result<ConfigLocator, ConfigError>)
        ensures
            r matches Err(e) ==> e matches ConfigError::MissingProjectDirs,
    {
        match project_config_dir() {
            Some(root) => Ok(ConfigLocator { root }),
            None => Err(ConfigError::MissingProjectDirs),
        }
    }

    /// A locator rooted at a caller-supplied directory, so tests can
    /// substitute an arbitrary one.
    pub fn from_root_for_tests(root: String) -> (r: ConfigLocator)
        ensures
            r.root_view() == root@,
    {
        ConfigLocator { root }
    }

    /// Path to the credentials file for the given profile: the directory,
    /// a separator, and `credentials-<profile>.json`.
    pub fn credentials_file(&self, profile: &str) -> (r: String)
        ensures
            r@ == self.root_view() + "/credentials-"@ + profile@ + ".json"@,
    {
        let mut s = self.root.clone();
        s.append("/credentials-");
        s.append(profile);
        s.append(".json");
        s
    }
}

} // verus!
