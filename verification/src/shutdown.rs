//! The signal that asks a server to shut down gracefully.

use std::sync::Arc;
use std::sync::atomic::AtomicBool;
use std::sync::atomic::Ordering;
use vstd::prelude::*;
use crate::error::Error;
use crate::error::ErrorView;

verus! {

/// A shutdown signal that is shared by its clones and may be raised from any
/// thread. Once raised it stays raised.
#[derive(Debug)]
pub struct ShutdownSignal {
    inner: Arc<AtomicBool>,
}

/// What a check for shutdown returns once the state of the signal is known:
/// a protocol error where shutdown was requested.
pub open spec fn shutdown_outcome(requested: bool) -> Result<(), ErrorView> {
    if requested {
        Err(ErrorView::ProtocolError("Shutdown requested"@))
    } else {
        Ok(())
    }
}

/// The model of the result of a check.
pub open spec fn check_view(outcome: Result<(), Error>) -> Result<(), ErrorView> {
    match outcome {
        Ok(()) => Ok(()),
        Err(e) => Err(e@),
    }
}

/// Turns the observed state of the signal into the result of a check.
pub fn shutdown_check(requested: bool) -> (out: Result<(), Error>)
    ensures
        check_view(out) == shutdown_outcome(requested),
{
    if requested {
        Err(Error::protocol("Shutdown requested"))
    } else {
        Ok(())
    }
}

impl ShutdownSignal {
    /// A signal that is not raised.
    pub fn new() -> Self {
        ShutdownSignal { inner: Arc::new(AtomicBool::new(false)) }
    }

    /// Fails with a protocol error where shutdown has been requested.
    ///
    /// The signal may be raised by another thread at any time, so the
    /// contract states what holds of either outcome.
    pub fn check_shutdown(&self) -> (out: Result<(), Error>)
        ensures
            exists|requested: bool| check_view(out) == #[trigger] shutdown_outcome(requested),
    {
        shutdown_check(self.is_shutdown_requested())
    }

    /// Whether shutdown has been requested.
    pub fn is_shutdown_requested(&self) -> bool {
        self.inner.load(Ordering::SeqCst)
    }

    /// Requests shutdown. Every clone of the signal sees the request.
    pub fn signal(&self) {
        self.inner.store(true, Ordering::SeqCst);
    }
}

impl Clone for ShutdownSignal {
    /// Another handle to the same signal.
    fn clone(&self) -> Self {
        ShutdownSignal { inner: self.inner.clone() }
    }
}

impl Default for ShutdownSignal {
    fn default() -> Self {
        ShutdownSignal::new()
    }
}

} // verus!
