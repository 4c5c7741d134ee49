use cert_manager_https::accept::{AcceptError, Polled};
use cert_manager_https::serve::{
    listen_address, task_failure, IpAddress, SocketAddress, TaskFailure, ACCEPTOR_CHANNEL_SIZE,
};
use cert_manager_https::server::ServerConnErrorStream;

#[test]
fn the_default_is_https_on_every_address() {
    let all = SocketAddress { ip: IpAddress::V4(0), port: 443 };
    assert_eq!(listen_address(None, None), all);
    assert_eq!(ACCEPTOR_CHANNEL_SIZE, 10);
}

#[test]
fn given_addresses_are_kept() {
    let loopback = IpAddress::V6(1);
    assert_eq!(listen_address(Some(8443), None).port, 8443);
    assert_eq!(
        listen_address(Some(8443), Some(loopback)),
        SocketAddress { ip: loopback, port: 8443 }
    );
    assert_eq!(listen_address(None, Some(IpAddress::V4(0x7f000001))).port, 443);
}

#[test]
fn the_controller_is_reported_before_the_server() {
    assert_eq!(task_failure(Err(1), Err(2)), Some(TaskFailure::Controller(1)));
    assert_eq!(task_failure(Err(1), Ok(())), Some(TaskFailure::Controller(1)));
    assert_eq!(task_failure(Ok(()), Err(2)), Some(TaskFailure::Server(2)));
    assert_eq!(task_failure::<u8>(Ok(()), Ok(())), None);
}

#[test]
fn upgraded_connections_are_served() {
    let step = ServerConnErrorStream::poll_next(Polled::Ready(Some(Ok(7))));
    assert_eq!(step.serve, Some(7));
    assert!(matches!(step.result, Polled::Ready(Some(Ok(())))));
}

#[test]
fn anything_else_is_passed_on() {
    let failed: Polled<Option<Result<u8, AcceptError>>> =
        Polled::Ready(Some(Err(AcceptError::NoAcceptor)));
    let step = ServerConnErrorStream::poll_next(failed);
    assert_eq!(step.serve, None);
    assert!(matches!(step.result, Polled::Ready(Some(Err(AcceptError::NoAcceptor)))));
    let step = ServerConnErrorStream::poll_next::<u8>(Polled::Ready(None));
    assert_eq!(step.serve, None);
    assert!(matches!(step.result, Polled::Ready(None)));
    let step = ServerConnErrorStream::poll_next::<u8>(Polled::Pending);
    assert_eq!(step.serve, None);
    assert!(matches!(step.result, Polled::Pending));
}
