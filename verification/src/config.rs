//! Startup configuration: the spawn decision and the dev-override flag.

use vstd::prelude::*;

verus! {

/// Decides whether the sidecar should be spawned: always, except in a debug
/// build without an explicit development override.
pub fn decide_spawn(is_debug_build: bool, dev_override: bool) -> (spawn: bool)
    ensures
        spawn == (!is_debug_build || dev_override),
{
    !is_debug_build || dev_override
}

/// Interprets the development-override environment value: only the literal
/// string `1` enables the sidecar in a debug build.
pub fn parse_dev_override(value: Option<String>) -> (enabled: bool)
    ensures
        enabled == (value matches Some(s) && s@ == "1"@),
{
    match value {
        Some(s) => {
            let one = String::from_str("1");
            s == one
        },
        None => false,
    }
}

/// The spawn configuration, computed once at startup and immutable afterward.
#[derive(Debug)]
pub struct SpawnConfig {
    /// The resolved application data directory.
    pub data_dir: String,
    /// The database file path handed to the sidecar.
    pub db_path: String,
    /// Whether the supervisor should attempt a spawn at all.
    pub should_spawn: bool,
    /// Whether the data directory came from the fallback location.
    pub used_fallback: bool,
}

impl SpawnConfig {
    /// The database path lies directly beneath the data directory.
    pub open spec fn wf(self) -> bool {
        self.db_path@ == crate::paths::joined(self.data_dir@, "lumo.db"@)
    }
}

/// Builds the spawn configuration from the host's inputs: the data directory
/// the host resolved (if it could), the user's home directory (if any), the
/// build flavor, and the development override.
pub fn build_config(
    host_data_dir: Option<String>,
    home_dir: Option<String>,
    is_debug_build: bool,
    dev_override: bool,
) -> (c: SpawnConfig)
    ensures
        c.wf(),
        c.should_spawn == (!is_debug_build || dev_override),
        c.used_fallback == (host_data_dir is None),
        host_data_dir matches Some(d) ==> c.data_dir@ == d@,
        host_data_dir is None ==> (home_dir matches Some(h) ==> c.data_dir@ == crate::paths::joined(
            h@,
            ".lumo"@,
        )),
        host_data_dir is None && home_dir is None ==> c.data_dir@ == crate::paths::joined(
            "."@,
            ".lumo"@,
        ),
{
    let resolved = crate::paths::resolve_data_dir(host_data_dir, home_dir);
    let db = crate::paths::db_path(resolved.path.as_str());
    SpawnConfig {
        data_dir: resolved.path,
        db_path: db,
        should_spawn: decide_spawn(is_debug_build, dev_override),
        used_fallback: resolved.used_fallback,
    }
}

} // verus!
