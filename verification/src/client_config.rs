//! Connection settings of the daemon client.

use std::path::PathBuf;
use vstd::prelude::*;

verus! {

#[verifier::external_type_specification]
#[verifier::external_body]
pub struct ExPathBuf(PathBuf);

/// Client connection settings.
#[derive(Clone, Debug, PartialEq, Eq)]
pub struct ClientConfig {
    runtime_directory: Option<PathBuf>,
    data_directory: Option<PathBuf>,
    start_daemon: bool,
    daemon_path: Option<PathBuf>,
}

impl ClientConfig {
    /// The isolated runtime directory, if any.
    pub closed spec fn spec_runtime_directory(&self) -> Option<PathBuf> {
        self.runtime_directory
    }

    /// The isolated daemon data directory, if any.
    pub closed spec fn spec_data_directory(&self) -> Option<PathBuf> {
        self.data_directory
    }

    /// Whether the client starts the daemon when it is not running.
    pub closed spec fn spec_start_daemon(&self) -> bool {
        self.start_daemon
    }

    /// The daemon executable override, if any.
    pub closed spec fn spec_daemon_path(&self) -> Option<PathBuf> {
        self.daemon_path
    }

    /// Disables automatic daemon startup.
    pub fn without_daemon_start(self) -> (r: Self)
        ensures
            !r.spec_start_daemon(),
            r.spec_runtime_directory() == self.spec_runtime_directory(),
            r.spec_data_directory() == self.spec_data_directory(),
            r.spec_daemon_path() == self.spec_daemon_path(),
    {
        ClientConfig { start_daemon: false, ..self }
    }

    /// Uses an isolated Unix runtime directory.
    pub fn with_runtime_directory(self, path: PathBuf) -> (r: Self)
        ensures
            r.spec_runtime_directory() == Some(path),
            r.spec_start_daemon() == self.spec_start_daemon(),
            r.spec_data_directory() == self.spec_data_directory(),
            r.spec_daemon_path() == self.spec_daemon_path(),
    {
        ClientConfig { runtime_directory: Some(path), ..self }
    }

    /// Uses an isolated daemon data directory when auto-starting in tests.
    pub fn with_data_directory(self, path: PathBuf) -> (r: Self)
        ensures
            r.spec_data_directory() == Some(path),
            r.spec_start_daemon() == self.spec_start_daemon(),
            r.spec_runtime_directory() == self.spec_runtime_directory(),
            r.spec_daemon_path() == self.spec_daemon_path(),
    {
        ClientConfig { data_directory: Some(path), ..self }
    }

    /// Overrides the daemon executable for an isolated integration test.
    pub fn with_daemon_path(self, path: PathBuf) -> (r: Self)
        ensures
            r.spec_daemon_path() == Some(path),
            r.spec_start_daemon() == self.spec_start_daemon(),
            r.spec_runtime_directory() == self.spec_runtime_directory(),
            r.spec_data_directory() == self.spec_data_directory(),
    {
        ClientConfig { daemon_path: Some(path), ..self }
    }

    /// Whether the client starts the daemon when it is not running.
    pub fn starts_daemon(&self) -> (r: bool)
        ensures
            r == self.spec_start_daemon(),
    {
        self.start_daemon
    }

    /// The isolated runtime directory, if any.
    pub fn runtime_directory(&self) -> (r: &Option<PathBuf>)
        ensures
            *r == self.spec_runtime_directory(),
    {
        &self.runtime_directory
    }

    /// The isolated daemon data directory, if any.
    pub fn data_directory(&self) -> (r: &Option<PathBuf>)
        ensures
            *r == self.spec_data_directory(),
    {
        &self.data_directory
    }

    /// The daemon executable override, if any.
    pub fn daemon_path(&self) -> (r: &Option<PathBuf>)
        ensures
            *r == self.spec_daemon_path(),
    {
        &self.daemon_path
    }
}

impl Default for ClientConfig {
    fn default() -> (r: Self)
        ensures
            r.spec_start_daemon(),
            r.spec_runtime_directory() is None,
            r.spec_data_directory() is None,
            r.spec_daemon_path() is None,
    {
        ClientConfig { runtime_directory: None, data_directory: None, start_daemon: true, daemon_path: None }
    }
}

} // verus!
