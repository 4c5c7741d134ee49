//! Where to listen, and what to report when serving ends.

use vstd::prelude::*;

verus! {

/// The port of HTTPS.
pub const DEFAULT_PORT: u16 = 443;

/// How many acceptors may wait to be taken in.
pub const ACCEPTOR_CHANNEL_SIZE: usize = 10;

/// An IP address, as a number in network order.
#[derive(Clone, Copy, Debug, PartialEq, Eq, Structural)]
pub enum IpAddress {
    V4(u32),
    V6(u128),
}

/// The address and the port to listen on.
#[derive(Clone, Copy, Debug, PartialEq, Eq, Structural)]
pub struct SocketAddress {
    pub ip: IpAddress,
    pub port: u16,
}

/// The address and the port to listen on: those that are given, else all IPv4 addresses of the
/// machine and the port of HTTPS.
pub fn listen_address(port: Option<u16>, addr: Option<IpAddress>) -> (socket: SocketAddress)
    ensures
        socket.ip == (match addr {
            Some(ip) => ip,
            None => IpAddress::V4(0),
        }),
        socket.port == (match port {
            Some(port) => port,
            None => 443u16,
        }),
{
    SocketAddress { ip: addr.unwrap_or(IpAddress::V4(0)), port: port.unwrap_or(DEFAULT_PORT) }
}

/// A task that did not run to its end.
#[derive(Debug, PartialEq, Eq)]
pub enum TaskFailure<E> {
    Controller(E),
    Server(E),
}

/// Which failure to report once both tasks have ended: that of the controller before that of the
/// server.
pub fn task_failure<E>(controller: Result<(), E>, server: Result<(), E>) -> (failure: Option<
    TaskFailure<E>,
>)
    ensures
        failure == (match (controller, server) {
            (Err(error), _) => Some(TaskFailure::Controller(error)),
            (Ok(()), Err(error)) => Some(TaskFailure::Server(error)),
            (Ok(()), Ok(())) => None,
        }),
{
    match controller {
        Err(error) => Some(TaskFailure::Controller(error)),
        Ok(()) => match server {
            Err(error) => Some(TaskFailure::Server(error)),
            Ok(()) => None,
        },
    }
}

} // verus!
