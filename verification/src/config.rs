use vstd::prelude::*;
use vstd::string::StringExecFns;

verus! {

/// How a store is set up: whether changes are also written to the
/// persistence backend, and the name of the file that backs it.
#[derive(Clone)]
pub struct StateSyncerConfig {
    pub sync_to_disk: bool,
    pub filename: String,
}

/// The file name that a configuration has where none was chosen.
pub open spec fn default_filename() -> Seq<char> {
    "state.json"@
}

impl Default for StateSyncerConfig {
    /// Persistence switched off, and the default file name.
    fn default() -> (cfg: Self)
        ensures
            !cfg.sync_to_disk,
            cfg.filename@ == default_filename(),
    {
        StateSyncerConfig { sync_to_disk: false, filename: String::from_str("state.json") }
    }
}

} // verus!
