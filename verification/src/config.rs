//! How the plugin is set up.
use vstd::prelude::*;

verus! {

/// How the plugin is set up.
#[derive(Debug, PartialEq, Eq)]
pub struct Config {
    /// Volume group where the thin pool lives.
    pub vg_name: String,
    /// Thin pool to use to allocate and de-allocate docker volumes.
    pub thin_pool_name: String,
    /// Import existing LVs in the thin pool as docker volumes. They will be
    /// mounted with no mount options. Note that this means that docker volume
    /// remove will delete these LVs.
    pub import_existing: bool,
}

/// Whether existing LVs are imported where the setup does not say.
pub const IMPORT_EXISTING: bool = true;

/// The socket that the plugin listens on where the setup does not say. Docker
/// names the driver after it.
pub const SOCKET: &'static str = "/run/docker/plugins/lvm_thin_pool.sock";

/// What becomes of the LVs that are in the thin pool when the plugin starts.
#[derive(Debug, Clone, Copy, PartialEq, Eq, Structural)]
pub enum Startup {
    /// They become volumes.
    Import,
    /// They are removed.
    Clean,
}

impl Config {
    /// What becomes of the LVs that are in the thin pool when the plugin starts.
    pub fn startup(&self) -> (startup: Startup)
        ensures
            startup == (if self.import_existing { Startup::Import } else { Startup::Clean }),
    {
        if self.import_existing {
            Startup::Import
        } else {
            Startup::Clean
        }
    }
}

/// The path of the socket to listen on, given the path that the environment
/// sets, if it sets one.
pub fn socket_path(set: Option<String>) -> (path: String)
    ensures
        path@ == (match set {
            Some(p) => p@,
            None => SOCKET@,
        }),
{
    match set {
        Some(path) => path,
        None => SOCKET.to_owned(),
    }
}

/// What the setup says of existing LVs is what becomes of them: they are
/// imported where it says so, and removed where it does not.
pub proof fn law_startup(config: &Config, startup: Startup)
    requires
        call_ensures(Config::startup, (config,), startup),
    ensures
        startup == Startup::Import <==> config.import_existing,
        startup == Startup::Clean <==> !config.import_existing,
{
}

/// The socket is the one that the environment sets, whatever it is, and
/// otherwise the one that gives the driver its name.
pub proof fn law_socket_path(set: Option<String>, path: String)
    requires
        call_ensures(socket_path, (set,), path),
    ensures
        set matches Some(p) ==> path@ == p@,
        set is None ==> path@ == "/run/docker/plugins/lvm_thin_pool.sock"@,
{
}

/// Existing LVs are imported where the setup does not say.
pub proof fn law_import_by_default()
    ensures
        IMPORT_EXISTING,
{
}

} // verus!
