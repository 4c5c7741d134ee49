//! Serving HTTPS with the certificates that cert-manager keeps in a Kubernetes cluster.
//!
//! The crate holds what such a server decides: which certificates can be used, which acceptor
//! upgrades the next connection, what to ask the cluster for, and what to report. Sockets, tasks
//! and the cluster itself are left to the application.

use crate::accept::AcceptError;
use crate::controller::CertControllerError;
use vstd::prelude::*;

pub mod accept;
pub mod controller;
pub mod expiration;
pub mod history;
pub mod laws;
pub mod outside;
pub mod pem;
pub mod secret;
pub mod serve;
pub mod server;
pub mod tls;

verus! {

/// Why serving went wrong.
#[derive(Debug)]
pub enum ControllerOrServerError {
    Controller(CertControllerError),
    Server(AcceptError),
}

} // verus!
