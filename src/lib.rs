//! A local development server core: runtime configuration, a process
//! registry shared by concurrent requests, the response handoff between a
//! component and its connection, the accept/update loop and TLS material.
use vstd::prelude::*;

pub mod config;
pub mod dev;
pub mod registry;
pub mod rendezvous;
pub mod runtime_config;
pub mod server;
pub mod tls;

verus! {

/// Which transport a connection arrived on.
#[derive(Debug, Clone, Copy, PartialEq, Eq, Structural)]
pub enum Scheme {
    Http,
    Https,
}

/// The scheme a request is tagged with: `Https` exactly when the listener
/// terminates TLS.
pub fn scheme_for(tls_configured: bool) -> (r: Scheme)
    ensures
        r == (if tls_configured { Scheme::Https } else { Scheme::Http }),
{
    if tls_configured {
        Scheme::Https
    } else {
        Scheme::Http
    }
}

} // verus!
