//! The server: a router to dispatch against. Binding a listening socket
//! and the blocking accept loop are connection-level I/O and live with the
//! caller that owns the sockets; it hands each accepted connection's
//! request and reply to one handler, in acceptance order.

use vstd::prelude::*;
use crate::router::{Route, Router};

verus! {

/// Holds the router that the registered handler dispatches against. The
/// router is configured before connections are accepted and is read-only
/// afterwards.
pub struct Server<H> {
    pub router: Router<H>,
}

impl<H: Copy> Server<H> {
    /// A server over the given router, or over an empty one.
    pub fn new(router: Option<Router<H>>) -> (r: Server<H>)
        ensures
            match router {
                Some(initial) => r.router.route_stack@ == initial.route_stack@,
                None => r.router.route_stack@ =~= Seq::<Route<H>>::empty(),
            },
    {
        if let Some(initial_router) = router {
            Server { router: initial_router }
        } else {
            Server { router: Router::new(None) }
        }
    }
}

} // verus!
