use vstd::prelude::*;
use crate::pipeline::Error;

verus! {

/// The leaf event-source capability: a value bound to a context that yields
/// a sequence of source events, or signals end-of-stream with `None`.
///
/// `next_event` suspends (in an embedding that runs listeners on blocking or
/// async tasks) until an event is available; `None` means the source ended
/// for good, which is not expected of infinite sources such as chain log
/// subscriptions.
pub trait EventListener<T, Ctx> where Self: Sized {
    type ProcessorError;

    /// A ghost bound on how many more events this listener will yield: the
    /// event loop's termination measure, which every yielded event must
    /// shrink. A verified listener overrides it; the default bound of zero
    /// belongs to listeners that promise no events of their own.
    open spec fn events_remaining(&self) -> nat {
        0
    }

    /// Builds the listener from its context; fails on malformed connection
    /// parameters.
    fn construct(context: &Ctx) -> Result<Self, Error<Self::ProcessorError>>;

    /// Yields the next event, or `None` at end-of-stream.
    fn next_event(&mut self) -> (r: Option<T>)
        ensures
            r is Some ==> final(self).events_remaining() < old(self).events_remaining(),
    ;
}

/// A chain client capability: a source of chain events with access to the
/// most recent one.
pub trait Client<Event> {
    /// Fetch the next event from the client.
    fn next_event(&self) -> Option<Event>;

    /// Fetch the latest event seen; a client that has fetched none yet
    /// fetches one first.
    fn latest_event(&self) -> Option<Event>;
}

/// The uniform shape of one pipeline stage: a function from the stage's
/// input to its outcome. Stage implementations live with the embedding
/// program; the pipeline only calls through this shape.
pub trait ProcessorFunction<Event, Out> {
    fn call(&mut self, event: Event) -> Out;
}

} // verus!
