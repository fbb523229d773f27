//! The token by which a long-running handler learns that it was cancelled.

use std::sync::Arc;
use std::sync::atomic::AtomicBool;
use std::sync::atomic::Ordering;
use vstd::prelude::*;
use crate::error::Error;
use crate::error::ErrorView;

verus! {

/// A cancellation token that is shared by its clones and may be cancelled
/// from any thread. Cancellation is advisory: a handler polls the token and
/// returns promptly once it is cancelled.
#[derive(Debug)]
pub struct CancellationToken {
    inner: Arc<AtomicBool>,
}

/// What a check returns once the state of the token is known: the failure
/// `Cancelled` where the token was cancelled.
pub open spec fn cancellation_outcome(requested: bool) -> Result<(), ErrorView> {
    if requested {
        Err(ErrorView::Cancelled)
    } else {
        Ok(())
    }
}

/// The model of the result of a check.
pub open spec fn check_view(outcome: Result<(), Error>) -> Result<(), ErrorView> {
    match outcome {
        Ok(()) => Ok(()),
        Err(e) => Err(e@),
    }
}

/// Turns the observed state of the token into the result of a check.
pub fn cancellation_check(requested: bool) -> (out: Result<(), Error>)
    ensures
        check_view(out) == cancellation_outcome(requested),
{
    if requested {
        Err(Error::Cancelled)
    } else {
        Ok(())
    }
}

impl CancellationToken {
    /// A token that is not cancelled.
    pub fn new() -> Self {
        CancellationToken { inner: Arc::new(AtomicBool::new(false)) }
    }

    /// Fails with `Cancelled` where the token has been cancelled.
    ///
    /// The token may be cancelled by another thread at any time, so the
    /// contract states what holds of either outcome.
    pub fn check_cancelled(&self) -> (out: Result<(), Error>)
        ensures
            exists|requested: bool| check_view(out) == #[trigger] cancellation_outcome(requested),
    {
        cancellation_check(self.is_cancelled())
    }

    /// Whether the token has been cancelled.
    pub fn is_cancelled(&self) -> bool {
        self.inner.load(Ordering::SeqCst)
    }

    /// Cancels the token. Every clone of the token sees it.
    pub fn cancel(&self) {
        self.inner.store(true, Ordering::SeqCst);
    }
}

impl Clone for CancellationToken {
    /// Another handle to the same token.
    fn clone(&self) -> Self {
        CancellationToken { inner: self.inner.clone() }
    }
}

impl Default for CancellationToken {
    fn default() -> Self {
        CancellationToken::new()
    }
}

} // verus!
