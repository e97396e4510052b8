use vstd::prelude::*;
use std::sync::Arc;
use crate::error::BoundaryError;

verus! {

/// Relies on Arc::clone: the new pointer shares the same value.
#[verifier::external_body]
fn share<P>(a: &Arc<P>) -> (r: Arc<P>)
    ensures
        r == *a,
{
    Arc::clone(a)
}

/// The slot after a pipeline is installed: the new one, whatever was there.
pub open spec fn after_install<P>(s: Option<P>, p: P) -> Option<P> {
    Some(p)
}

/// The slot after it is cleared.
pub open spec fn after_clear<P>(s: Option<P>) -> Option<P> {
    None
}

/// What an acquire on the slot yields.
pub open spec fn acquired<P>(s: Option<P>) -> Result<P, BoundaryError> {
    match s {
        Some(p) => Ok(p),
        None => Err(BoundaryError::NotInitialized),
    }
}

/// Holds at most one pipeline. Each user gets its own counted reference, so
/// replacing or clearing the slot never frees a pipeline that a call is
/// still using.
pub struct PipelineSlot<P> {
    current: Option<Arc<P>>,
}

impl<P> View for PipelineSlot<P> {
    type V = Option<P>;

    closed spec fn view(&self) -> Option<P> {
        match self.current {
            Some(a) => Some(*a),
            None => None,
        }
    }
}

impl<P> PipelineSlot<P> {
    /// An empty slot.
    pub fn new() -> (r: Self)
        ensures
            r@ is None,
    {
        PipelineSlot { current: None }
    }

    /// Whether a pipeline is installed.
    pub fn is_ready(&self) -> (r: bool)
        ensures
            r == self@ is Some,
    {
        self.current.is_some()
    }

    /// Installs `p`, replacing any earlier pipeline. A replaced pipeline
    /// lives on for as long as a call still holds it.
    pub fn install(&mut self, p: P)
        ensures
            final(self)@ == after_install(old(self)@, p),
    {
        self.current = Some(Arc::new(p));
    }

    /// A counted reference to the installed pipeline, or `NotInitialized`.
    pub fn acquire(&self) -> (r: Result<Arc<P>, BoundaryError>)
        ensures
            r matches Ok(a) ==> acquired(self@) == Ok::<P, BoundaryError>(*a),
            r matches Err(e) ==> acquired(self@) == Err::<P, BoundaryError>(e),
    {
        match &self.current {
            Some(a) => Ok(share(a)),
            None => Err(BoundaryError::NotInitialized),
        }
    }

    /// A second slot sharing the installed pipeline, so that a caller can
    /// work on it without holding on to this one.
    pub fn snapshot(&self) -> (r: Self)
        ensures
            r@ == self@,
    {
        match &self.current {
            Some(a) => PipelineSlot { current: Some(share(a)) },
            None => PipelineSlot { current: None },
        }
    }

    /// Empties the slot. Calls already holding the pipeline keep it.
    pub fn clear(&mut self)
        ensures
            final(self)@ == after_clear(old(self)@),
    {
        self.current = None;
    }
}

/// Clearing twice leaves the slot as clearing once does, and clearing a
/// slot that never held a pipeline leaves it empty.
pub proof fn lemma_clear_idempotent<P>(s: Option<P>)
    ensures
        after_clear(after_clear(s)) == after_clear(s),
        after_clear::<P>(None) == None::<P>,
        acquired(after_clear(s)) == Err::<P, BoundaryError>(BoundaryError::NotInitialized),
{
}

/// Replacing the pipeline does not touch what an earlier acquire yielded,
/// and every acquire that starts afterwards yields the new pipeline.
pub proof fn lemma_reinit_keeps_in_flight<P>(s: Option<P>, held: P, q: P)
    requires
        acquired(s) == Ok::<P, BoundaryError>(held),
    ensures
        s == Some(held),
        acquired(after_install(s, q)) == Ok::<P, BoundaryError>(q),
{
}

} // verus!
