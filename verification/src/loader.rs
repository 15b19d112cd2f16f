//! Turning the host's "image loaded" and "image failed" notifications into
//! one outcome per load.
//!
//! The host owns the transport. It is asked to begin loading, and calls
//! [`ImageLoad::on_success`] or [`ImageLoad::on_error`] when it has news; the
//! waiter calls [`ImageLoad::finish`] once it was woken. A load of which the
//! host never reports stays pending: no timeout is imposed here.

use vstd::prelude::*;
use crate::error::LoadError;
use crate::signal::{LoadOutcome, LoadSignal, SignalState, spec_after_take, spec_resolve, spec_taken};

verus! {

/// A loaded image, known by the identifier it was requested under.
#[derive(Debug, PartialEq, Eq)]
pub struct Image {
    pub source: String,
}

impl Clone for Image {
    fn clone(&self) -> (image: Image)
        ensures
            image == *self,
    {
        Image { source: self.source.clone() }
    }
}

/// What a finished load of `source` amounts to.
pub open spec fn spec_translate(source: String, outcome: LoadOutcome) -> Result<Image, LoadError> {
    match outcome {
        LoadOutcome::Ready => Ok(Image { source }),
        LoadOutcome::Failed { reason } => Err(LoadError { path: source, reason }),
    }
}

/// Translates the recorded outcome of a load of `source` into the image or
/// the error that the caller of the load receives.
pub fn translate(source: String, outcome: LoadOutcome) -> (result: Result<Image, LoadError>)
    ensures
        result == spec_translate(source, outcome),
{
    match outcome {
        LoadOutcome::Ready => Ok(Image { source }),
        LoadOutcome::Failed { reason } => Err(LoadError { path: source, reason }),
    }
}

/// One image load in flight.
pub struct ImageLoad {
    source: String,
    signal: LoadSignal,
}

impl ImageLoad {
    /// The identifier the image is loaded from.
    pub closed spec fn source(&self) -> String {
        self.source
    }

    /// Where the load's completion slot stands.
    pub closed spec fn signal(&self) -> SignalState {
        self.signal@
    }

    /// Starts a load of `source`, with nothing reported yet. The caller asks
    /// the host to begin loading and registers the two callbacks.
    pub fn begin(source: String) -> (load: ImageLoad)
        ensures
            load.source() == source,
            load.signal() == SignalState::Pending,
    {
        ImageLoad { source, signal: LoadSignal::create() }
    }

    /// The identifier the image is loaded from.
    pub fn source_path(&self) -> (path: &str)
        ensures
            path@ == self.source()@,
    {
        self.source.as_str()
    }

    /// The success callback: the host finished loading. `true` if this was
    /// the first report, so that the waiter is to be woken.
    pub fn on_success(&mut self) -> (accepted: bool)
        ensures
            final(self).source() == old(self).source(),
            final(self).signal() == spec_resolve(old(self).signal(), LoadOutcome::Ready),
            accepted == (old(self).signal() is Pending),
    {
        self.signal.resolve(LoadOutcome::Ready)
    }

    /// The error callback: the host gave up, for `reason`. `true` if this was
    /// the first report, so that the waiter is to be woken.
    pub fn on_error(&mut self, reason: String) -> (accepted: bool)
        ensures
            final(self).source() == old(self).source(),
            final(self).signal() == spec_resolve(
                old(self).signal(),
                LoadOutcome::Failed { reason },
            ),
            accepted == (old(self).signal() is Pending),
    {
        self.signal.resolve(LoadOutcome::Failed { reason })
    }

    /// Collects the result of the load. `None` while the host has not
    /// reported, and after the result was collected once.
    pub fn finish(&mut self) -> (result: Option<Result<Image, LoadError>>)
        ensures
            final(self).source() == old(self).source(),
            final(self).signal() == spec_after_take(old(self).signal()),
            result == match spec_taken(old(self).signal()) {
                Some(outcome) => Some(spec_translate(old(self).source(), outcome)),
                None => None,
            },
    {
        match self.signal.take_outcome() {
            Some(outcome) => Some(translate(self.source.clone(), outcome)),
            None => None,
        }
    }
}

} // verus!
