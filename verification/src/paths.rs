//! Path computation: joining path segments and resolving the data directory.

use vstd::prelude::*;

verus! {

/// The path a segment `name` has beneath a directory `dir`.
pub open spec fn joined(dir: Seq<char>, name: Seq<char>) -> Seq<char> {
    dir + seq!['/'] + name
}

/// Appends `name` beneath `dir` with a separator in between.
pub fn join_path(dir: &str, name: &str) -> (path: String)
    ensures
        path@ == joined(dir@, name@),
{
    proof {
        reveal_strlit("/");
    }
    let mut path = String::from_str(dir);
    path.append("/");
    path.append(name);
    proof {
        assert(path@ =~= joined(dir@, name@));
    }
    path
}

/// The outcome of resolving the application data directory: the directory
/// itself, and whether the fallback location had to be used.
pub struct ResolvedDataDir {
    pub path: String,
    pub used_fallback: bool,
}

/// Resolves the application data directory.  The host-provided directory wins
/// when it is available; otherwise a dotted directory beneath the user's home
/// is used or, absent a home, one beneath the current directory.  Resolution
/// never fails.
pub fn resolve_data_dir(host_dir: Option<String>, home_dir: Option<String>) -> (r: ResolvedDataDir)
    ensures
        r.used_fallback == (host_dir is None),
        host_dir matches Some(d) ==> r.path@ == d@,
        host_dir is None ==> (home_dir matches Some(h) ==> r.path@ == joined(h@, ".lumo"@)),
        host_dir is None && home_dir is None ==> r.path@ == joined("."@, ".lumo"@),
{
    match host_dir {
        Some(d) => ResolvedDataDir { path: d, used_fallback: false },
        None => {
            let path = match home_dir {
                Some(h) => join_path(h.as_str(), ".lumo"),
                None => join_path(".", ".lumo"),
            };
            ResolvedDataDir { path, used_fallback: true }
        },
    }
}

/// The database file path beneath the resolved data directory; it is handed
/// to the sidecar and never opened by the supervisor itself.
pub fn db_path(data_dir: &str) -> (p: String)
    ensures
        p@ == joined(data_dir@, "lumo.db"@),
{
    join_path(data_dir, "lumo.db")
}

} // verus!
