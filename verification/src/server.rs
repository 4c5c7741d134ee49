//! Serving the connections that were upgraded.

use crate::accept::{run, AcceptError, AcceptorWithExpiration, PollEvent, PollStep, Polled};
use vstd::prelude::*;

verus! {

/// What becomes of a poll of the stream of upgraded connections.
pub struct ServeStep<S> {
    /// The connection to serve, if one was upgraded.
    pub serve: Option<S>,
    /// What the poll gives once that connection is being served.
    pub result: Polled<Option<Result<(), AcceptError>>>,
}

/// A connection is served, and only that it was is passed on; all else is passed on unchanged.
pub open spec fn serve_step<S>(polled: Polled<Option<Result<S, AcceptError>>>) -> ServeStep<S> {
    match polled {
        Polled::Ready(Some(Ok(connection))) => ServeStep {
            serve: Some(connection),
            result: Polled::Ready(Some(Ok(()))),
        },
        Polled::Ready(Some(Err(error))) => ServeStep {
            serve: None,
            result: Polled::Ready(Some(Err(error))),
        },
        Polled::Ready(None) => ServeStep { serve: None, result: Polled::Ready(None) },
        Polled::Pending => ServeStep { serve: None, result: Polled::Pending },
    }
}

/// The stream of what came of each connection.
pub struct ServerConnErrorStream();

impl ServerConnErrorStream {
    /// Decides what becomes of a poll of the stream of upgraded connections.
    pub fn poll_next<S>(polled: Polled<Option<Result<S, AcceptError>>>) -> (step: ServeStep<S>)
        ensures
            step == serve_step(polled),
    {
        match polled {
            Polled::Ready(Some(Ok(connection))) => ServeStep {
                serve: Some(connection),
                result: Polled::Ready(Some(Ok(()))),
            },
            Polled::Ready(Some(Err(error))) => ServeStep {
                serve: None,
                result: Polled::Ready(Some(Err(error))),
            },
            Polled::Ready(None) => ServeStep { serve: None, result: Polled::Ready(None) },
            Polled::Pending => ServeStep { serve: None, result: Polled::Pending },
        }
    }
}

/// Every connection that a poll gives is served, nothing else is, and the stream of what came of
/// the connections never ends.
pub proof fn every_upgraded_connection_is_served<C, S>(
    latest: Option<AcceptorWithExpiration>,
    events: Seq<PollEvent<C, S>>,
)
    ensures
        run(latest, events).1 matches PollStep::Return(polled) ==> {
            &&& !(serve_step(polled).result matches Polled::Ready(None))
            &&& serve_step(polled).serve == (match events.last() {
                PollEvent::Upgraded(Polled::Ready(Some(Ok(Ok(stream))))) => Some(stream),
                _ => None,
            })
        },
{
}

} // verus!
