//! One-shot bootstrap of the global data-parallel runtime: fixes its worker
//! count for the remainder of the process. A startup step, not a per-request
//! operation: the first call installs the pool, any later call is refused by
//! the runtime itself and reported as such.
use vstd::prelude::*;

verus! {

/// The data-parallel runtime's worker count in this design.
pub const RUNTIME_WORKERS: usize = 32;

/// Relies on `rayon::ThreadPoolBuilder::build_global`: installs the global
/// pool with the given thread count and returns whether it succeeded; it
/// fails when a global pool was already installed, or when the pool cannot be
/// built. Whether this call succeeds depends on process history, so nothing
/// more is promised of the outcome.
#[verifier::external_body]
fn install_global_pool(threads: usize) -> bool {
    rayon::ThreadPoolBuilder::new().num_threads(threads).build_global().is_ok()
}

/// Configures the global data-parallel runtime once, with this design's
/// worker count. Returns whether this call did the configuring; `false` means
/// the runtime was already configured, which later evaluation simply keeps
/// using.
pub fn init_runtime() -> bool {
    install_global_pool(RUNTIME_WORKERS)
}

} // verus!
