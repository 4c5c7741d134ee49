use cert_manager_https::accept::{
    tls_result, AcceptError, AcceptorStream, AcceptorWithExpiration, PollEvent, PollStep, Polled,
};
use cert_manager_https::controller::CertController;
use cert_manager_https::expiration::Expiration;
use cert_manager_https::secret::SecretData;
use chrono::DateTime;
use std::io::{Error, ErrorKind};
use std::sync::Arc;
use tokio_rustls::TlsAcceptor;

const CERT_ONE: &str = "\
MIIBizCCATGgAwIBAgIUJPmykTHtQjCWtPkmq5pque+vG2gwCgYIKoZIzj0EAwIw\n\
DjEMMAoGA1UEAwwDb25lMCAXDTI2MTExNDIzNDkxMloYDzIxMjYxMDIxMjM0OTEy\n\
WjAOMQwwCgYDVQQDDANvbmUwWTATBgcqhkjOPQIBBggqhkjOPQMBBwNCAARC0XRD\n\
T3NNmwHzD2A6Kdcw6iPoRfJBkgzBk7mYf9WsCJeOODimVvA1hIwgwUKntyTFctKx\n\
6zmelS/UmSDKRiwHo2swaTAdBgNVHQ4EFgQUD1eHcGEnkHjp4vTQ8TraISlxEbYw\n\
HwYDVR0jBBgwFoAUD1eHcGEnkHjp4vTQ8TraISlxEbYwDwYDVR0TAQH/BAUwAwEB\n\
/zAWBgNVHREEDzANggtvbmUuZXhhbXBsZTAKBggqhkjOPQQDAgNIADBFAiBpTbMz\n\
/SveluBTz83nxO68OeA1f0IE5g3mEw1o5NzD+AIhAPFMBp1qaaRDE9wSOalmS3rB\n\
UiW8QP5ZuxbcqB6yGVtJ\n\
";
const KEY_ONE: &str = "\
MIGHAgEAMBMGByqGSM49AgEGCCqGSM49AwEHBG0wawIBAQQg9urqrVuSm5/7CY2x\n\
8CK/GsknjmQVilaZJwTduKW/krKhRANCAARC0XRDT3NNmwHzD2A6Kdcw6iPoRfJB\n\
kgzBk7mYf9WsCJeOODimVvA1hIwgwUKntyTFctKx6zmelS/UmSDKRiwH\n\
";

fn section(label: &str, body: &str) -> String {
    format!("-----BEGIN {label}-----\n{body}-----END {label}-----\n")
}

fn certificate(body: &str) -> String {
    section("CERTIFICATE", body)
}

fn key(form: &str, body: &str) -> String {
    section(&format!("{form} KEY"), body)
}

fn acceptor() -> TlsAcceptor {
    let mut data = SecretData::new();
    data.insert("tls.crt".to_string(), certificate(CERT_ONE).into_bytes());
    data.insert("tls.key".to_string(), key("PRIVATE", KEY_ONE).into_bytes());
    TlsAcceptor::from(Arc::new(CertController::build_server_config(data).unwrap()))
}

fn expiring(acceptor: &TlsAcceptor, secs: i64, offset_secs: i32) -> AcceptorWithExpiration {
    let expiration = Expiration { secs, nanos: 0, offset_secs };
    AcceptorWithExpiration { expiration, acceptor: acceptor.clone() }
}

type Step = PollStep<u8, u16>;
type Event = PollEvent<u8, u16>;

fn receive(stream: &mut AcceptorStream, acceptor: AcceptorWithExpiration) {
    let step: Step = stream.poll_next(PollEvent::Received(Polled::Ready(Some(acceptor))));
    assert!(matches!(step, PollStep::PollReceiver));
}

fn latest(stream: &mut AcceptorStream) -> Option<AcceptorWithExpiration> {
    let step: Step = stream.poll_next(PollEvent::Received(Polled::Pending));
    match step {
        PollStep::PollListener { acceptor } => Some(acceptor),
        PollStep::PollUpgrades => None,
        _ => panic!("another step"),
    }
}

fn at(text: &str) -> Expiration {
    let at = DateTime::parse_from_str(text, "%+").unwrap();
    Expiration {
        secs: at.timestamp(),
        nanos: at.timestamp_subsec_nanos(),
        offset_secs: at.offset().local_minus_utc(),
    }
}

#[test]
fn moments_are_ordered_as_dates_are() {
    let texts = [
        "1969-12-31T23:59:59.5Z",
        "1970-01-01T00:00:00Z",
        "2016-12-31T23:59:59.999Z",
        "2016-12-31T23:59:60Z",
        "2016-12-31T23:59:60.5Z",
        "2017-01-01T00:00:00Z",
        "2030-01-02T03:04:05Z",
        "2030-01-02T05:04:05+02:00",
        "2030-01-02T03:04:05.000000001Z",
        "2030-01-02T03:04:05-08:00",
    ];
    for a in texts {
        for b in texts {
            let dates = DateTime::parse_from_str(a, "%+").unwrap()
                > DateTime::parse_from_str(b, "%+").unwrap();
            assert_eq!(at(a).is_later_than(&at(b)), dates, "{a} and {b}");
        }
    }
}

#[test]
fn the_acceptor_that_expires_last_is_kept() {
    let tls = acceptor();
    let mut stream = AcceptorStream::new();
    assert!(latest(&mut stream).is_none());
    for secs in [20, 40, 30, 10] {
        receive(&mut stream, expiring(&tls, secs, 0));
    }
    assert_eq!(latest(&mut stream).unwrap().expiration.secs, 40);
}

#[test]
fn of_equal_expirations_the_first_is_kept() {
    let tls = acceptor();
    let mut stream = AcceptorStream::new();
    receive(&mut stream, expiring(&tls, 40, 3600));
    let same = expiring(&tls, 40, 7200);
    assert!(!stream.should_replace_acceptor(&same));
    receive(&mut stream, same);
    assert_eq!(latest(&mut stream).unwrap().expiration.offset_secs, 3600);
    assert!(stream.should_replace_acceptor(&expiring(&tls, 41, 0)));
}

#[test]
fn the_order_of_arrival_does_not_matter() {
    let tls = acceptor();
    for order in [[1, 2, 3], [1, 3, 2], [2, 1, 3], [2, 3, 1], [3, 1, 2], [3, 2, 1]] {
        let mut stream = AcceptorStream::new();
        for secs in order {
            receive(&mut stream, expiring(&tls, secs, 0));
        }
        assert_eq!(latest(&mut stream).unwrap().expiration.secs, 3);
    }
}

#[test]
fn a_closed_channel_keeps_the_latest_acceptor() {
    let tls = acceptor();
    let mut stream = AcceptorStream::new();
    receive(&mut stream, expiring(&tls, 5, 0));
    let polled = stream.poll_latest_acceptor(Polled::Ready(None));
    match polled {
        Some(Polled::Ready(acceptor)) => assert_eq!(acceptor.expiration.secs, 5),
        _ => panic!("no acceptor"),
    }
}

#[test]
fn the_latest_acceptor_is_shared() {
    let tls = acceptor();
    let mut stream = AcceptorStream::new();
    receive(&mut stream, expiring(&tls, 5, 0));
    let copy = latest(&mut stream).unwrap();
    assert!(Arc::ptr_eq(copy.acceptor.config(), tls.config()));
}

#[test]
fn without_an_acceptor_upgrades_are_polled_at_once() {
    let mut stream = AcceptorStream::new();
    let step: Step = stream.poll_next(PollEvent::Received(Polled::Pending));
    assert!(matches!(step, PollStep::PollUpgrades));
    let step: Step = stream.poll_next(PollEvent::Received(Polled::Ready(None)));
    assert!(matches!(step, PollStep::PollUpgrades));
}

#[test]
fn connections_are_upgraded_until_none_is_left() {
    let tls = acceptor();
    let mut stream = AcceptorStream::new();
    receive(&mut stream, expiring(&tls, 5, 0));
    let acceptor = latest(&mut stream).unwrap();
    let event: Event = PollEvent::Accepted { acceptor, polled: Polled::Ready(Some(Ok(9))) };
    let acceptor = match stream.poll_next(event) {
        PollStep::StartUpgrade { acceptor, connection } => {
            assert_eq!(connection, 9);
            acceptor
        }
        _ => panic!("no upgrade"),
    };
    assert_eq!(acceptor.expiration.secs, 5);
    let event: Event = PollEvent::Accepted { acceptor, polled: Polled::Pending };
    assert!(matches!(stream.poll_next(event), PollStep::PollUpgrades));
    let acceptor = latest(&mut stream).unwrap();
    let event: Event = PollEvent::Accepted { acceptor, polled: Polled::Ready(None) };
    assert!(matches!(stream.poll_next(event), PollStep::PollUpgrades));
}

#[test]
fn a_failure_of_the_listener_ends_the_poll() {
    let tls = acceptor();
    let mut stream = AcceptorStream::new();
    receive(&mut stream, expiring(&tls, 5, 0));
    let acceptor = latest(&mut stream).unwrap();
    let error = Error::new(ErrorKind::ConnectionAborted, "gone");
    let event: Event = PollEvent::Accepted { acceptor, polled: Polled::Ready(Some(Err(error))) };
    match stream.poll_next(event) {
        PollStep::Return(Polled::Ready(Some(Err(AcceptError::TcpConnectError(error))))) => {
            assert_eq!(error.kind(), ErrorKind::ConnectionAborted);
        }
        _ => panic!("went on"),
    }
}

#[test]
fn the_result_of_an_upgrade_is_given() {
    let mut stream = AcceptorStream::new();
    let event: Event = PollEvent::Upgraded(Polled::Ready(Some(Ok(Ok(3)))));
    assert!(matches!(
        stream.poll_next(event),
        PollStep::Return(Polled::Ready(Some(Ok(3))))
    ));
    let failed = tls_result(Err(Error::new(ErrorKind::InvalidData, "no hello")));
    let event: Event = PollEvent::Upgraded(Polled::Ready(Some(Ok(failed))));
    match stream.poll_next(event) {
        PollStep::Return(Polled::Ready(Some(Err(AcceptError::TlsHandshakeError(error))))) => {
            assert_eq!(error.kind(), ErrorKind::InvalidData);
        }
        _ => panic!("no error"),
    }
    assert!(matches!(tls_result(Ok(4)), Ok(4)));
}

#[test]
fn a_lost_task_is_reported() {
    let runtime = tokio::runtime::Builder::new_current_thread().build().unwrap();
    let lost = runtime.block_on(async {
        let task = tokio::spawn(std::future::pending::<()>());
        task.abort();
        task.await.unwrap_err()
    });
    let mut stream = AcceptorStream::new();
    let event: Event = PollEvent::Upgraded(Polled::Ready(Some(Err(lost))));
    match stream.poll_next(event) {
        PollStep::Return(Polled::Ready(Some(Err(AcceptError::JoinError(error))))) => {
            assert!(error.is_cancelled());
        }
        _ => panic!("no error"),
    }
}

#[test]
fn the_stream_never_ends() {
    let mut stream = AcceptorStream::new();
    let event: Event = PollEvent::Upgraded(Polled::Ready(None));
    assert!(matches!(stream.poll_next(event), PollStep::Return(Polled::Pending)));
    let event: Event = PollEvent::Upgraded(Polled::Pending);
    assert!(matches!(stream.poll_next(event), PollStep::Return(Polled::Pending)));
}

/// A listener, tasks and a channel that are played from lists.
struct Played {
    stream: AcceptorStream,
    acceptors: Vec<AcceptorWithExpiration>,
    connections: Vec<Result<u8, Error>>,
    /// Each upgrade under way: the expiration of its acceptor and the connection.
    under_way: Vec<(i64, u8)>,
    started: Vec<(i64, u8)>,
}

impl Played {
    /// One poll. Connections above 100 fail their handshake; the others are upgraded to ten times
    /// their number.
    fn poll(&mut self) -> Polled<Option<Result<u16, AcceptError>>> {
        let mut step: Step = PollStep::PollReceiver;
        loop {
            let event = match step {
                PollStep::PollReceiver => PollEvent::Received(match self.acceptors.pop() {
                    Some(acceptor) => Polled::Ready(Some(acceptor)),
                    None => Polled::Pending,
                }),
                PollStep::PollListener { acceptor } => self.listen(acceptor),
                PollStep::StartUpgrade { acceptor, connection } => {
                    self.under_way.push((acceptor.expiration.secs, connection));
                    self.started.push((acceptor.expiration.secs, connection));
                    self.listen(acceptor)
                }
                PollStep::PollUpgrades => PollEvent::Upgraded(match self.under_way.pop() {
                    None => Polled::Ready(None),
                    Some((_, connection)) => Polled::Ready(Some(Ok(tls_result(
                        if connection > 100 {
                            Err(Error::new(ErrorKind::InvalidData, "no hello"))
                        } else {
                            Ok(10 * u16::from(connection))
                        },
                    )))),
                }),
                PollStep::Return(result) => return result,
            };
            step = self.stream.poll_next(event);
        }
    }

    fn listen(&mut self, acceptor: AcceptorWithExpiration) -> Event {
        let polled = match self.connections.pop() {
            Some(connection) => Polled::Ready(Some(connection)),
            None => Polled::Pending,
        };
        PollEvent::Accepted { acceptor, polled }
    }
}

#[test]
fn every_connection_gives_one_item_over_many_polls() {
    let tls = acceptor();
    let mut played = Played {
        stream: AcceptorStream::new(),
        acceptors: vec![expiring(&tls, 5, 0)],
        connections: vec![
            Ok(4),
            Ok(103),
            Err(Error::new(ErrorKind::ConnectionAborted, "gone")),
            Ok(2),
            Ok(1),
        ],
        under_way: vec![],
        started: vec![],
    };
    let mut streams = vec![];
    let mut handshakes = 0;
    let mut failures = 0;
    for _ in 0..8 {
        match played.poll() {
            Polled::Ready(Some(Ok(stream))) => streams.push(stream),
            Polled::Ready(Some(Err(AcceptError::TlsHandshakeError(_)))) => handshakes += 1,
            Polled::Ready(Some(Err(AcceptError::TcpConnectError(_)))) => failures += 1,
            Polled::Ready(_) => panic!("another item"),
            Polled::Pending => (),
        }
        assert_eq!(played.started.len(), streams.len() + handshakes + played.under_way.len());
    }
    streams.sort();
    assert_eq!(streams, vec![10, 20, 40]);
    assert_eq!((handshakes, failures), (1, 1));
    assert_eq!(played.started.len(), 4);
    assert!(played.under_way.is_empty());
}

#[test]
fn nothing_is_taken_before_the_first_acceptor() {
    let tls = acceptor();
    let mut played = Played {
        stream: AcceptorStream::new(),
        acceptors: vec![],
        connections: vec![Ok(2), Ok(1)],
        under_way: vec![],
        started: vec![],
    };
    assert!(matches!(played.poll(), Polled::Pending));
    assert_eq!(played.connections.len(), 2);
    played.acceptors = vec![expiring(&tls, 7, 0), expiring(&tls, 5, 0)];
    assert!(matches!(played.poll(), Polled::Ready(Some(Ok(20)))));
    played.acceptors = vec![expiring(&tls, 6, 0)];
    played.connections = vec![Ok(3)];
    assert!(matches!(played.poll(), Polled::Ready(Some(Ok(30)))));
    assert_eq!(played.started, vec![(7, 1), (7, 2), (7, 3)]);
}
