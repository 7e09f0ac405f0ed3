//! The runtime settings read from the configuration file.  Loading the file
//! and building the runtime are collaborator work outside this crate; these
//! are the plain values handed back.

use vstd::prelude::*;

verus! {

/// Thread-pool sizing for the surrounding runtime.
pub struct TokioConfig {
    pub _flavor: String,
    pub worker_threads: usize,
}

/// The whole configuration file's content.
pub struct RukiniaConfig {
    pub tokio: TokioConfig,
}

} // verus!
