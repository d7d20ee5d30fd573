//! The command-line choices a generator run is driven by, as plain data:
//! an optional configuration file path, an optional working directory, and
//! the initialization switch.

use vstd::prelude::*;

verus! {

/// A run's command-line choices. Paths are carried as plain strings; the
/// argument parser that fills them in lives outside the library.
#[derive(Clone, Debug)]
pub struct Args {
    /// Path to the config file, when one was given.
    pub config: Option<String>,
    /// Path to the directory with the site's source files; the current
    /// directory when absent.
    pub dir: Option<String>,
    /// Whether to initialize a directory layout and quit.
    pub init: bool,
}

impl Default for Args {
    /// No paths given and no initialization asked for.
    fn default() -> (r: Args)
        ensures
            r.config is None,
            r.dir is None,
            !r.init,
    {
        Args { config: None, dir: None, init: false }
    }
}

} // verus!
