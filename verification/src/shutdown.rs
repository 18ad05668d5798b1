//! A flag that asks the runtime to stop, shared between threads.
use std::sync::atomic::AtomicBool;
use std::sync::atomic::Ordering;
use std::sync::Arc;
use vstd::prelude::*;

verus! {

/// A shared request to shut down. Clones share one flag: a request made
/// through any clone is seen through all of them.
#[derive(Debug, Clone)]
pub struct ShutdownToken {
    is_shutdown: Arc<AtomicBool>,
}

impl ShutdownToken {
    /// A token on which no shutdown has been requested: a fresh flag that is
    /// clear. Nothing about the flag is stated in a contract: it is an atomic
    /// that other threads set through shared references, and Verus is given no
    /// model of an atomic's value that such sharing would keep sound.
    pub fn new() -> Self {
        ShutdownToken { is_shutdown: Arc::new(AtomicBool::new(false)) }
    }

    /// Asks every holder of the token to shut down.
    pub fn request_shutdown(&self) {
        self.is_shutdown.store(true, Ordering::SeqCst);
    }

    /// Whether a shutdown has been requested. Another thread may make the
    /// request at any time, so nothing is promised about the answer.
    pub fn is_shutdown_requested(&self) -> bool {
        self.is_shutdown.load(Ordering::SeqCst)
    }
}

impl Default for ShutdownToken {
    /// Same as [`ShutdownToken::new`].
    fn default() -> Self {
        ShutdownToken::new()
    }
}

} // verus!
