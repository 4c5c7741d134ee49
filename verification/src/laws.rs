//! What callers can rely on, call by call.
//!
//! Each law takes a call of a function, with its arguments and what it returned, and says in terms
//! of those alone what they have to do with each other. Moments are compared by their place on one
//! line: the seconds, each wide enough for any count of nanoseconds.

use crate::accept::{
    tls_result, AcceptError, AcceptorStream, AcceptorWithExpiration, PollEvent, PollStep, Polled,
};
use crate::controller::{
    Action, CertController, Certificate, CertificateStatus, Event, FinalizerFailure, ReconcileStep,
    ServerConfigError,
};
use crate::expiration::{parsed_date_time, Expiration, ParseErrorKind};
use crate::pem::{
    certificate_chain, certificate_sections, chain_is_all_sections_or_first_error, chain_view,
    collect_chain, decode_sections, first_private_key, sections_view, PemError, PemErrorView,
    PrivateKey, PrivateKeyView,
};
use crate::secret::{Secret, SecretData};
use crate::serve::{listen_address, task_failure, IpAddress, SocketAddress, TaskFailure};
use crate::server::{ServeStep, ServerConnErrorStream};
use crate::tls::{
    acceptor_asks_clients, acceptor_identity, can_be_refused, config_asks_clients, config_identity,
    TlsIdentity, TlsIdentityView,
};
use rustls::ServerConfig;
use tokio::sync::mpsc::error::SendError;
use tokio::task::JoinError;
use vstd::prelude::*;

verus! {

/// One moment is later than another exactly when it lies further along the line of time.
pub proof fn later_is_further_along_the_line_of_time(a: Expiration, b: Expiration, r: bool)
    requires
        call_ensures(Expiration::is_later_than, (&a, &b), r),
    ensures
        r <==> a.secs * 0x1_0000_0000 + a.nanos > b.secs * 0x1_0000_0000 + b.nanos,
{
}

/// A later second is later whatever the nanoseconds, and moving both moments by the same number of
/// seconds does not change which is later.
pub proof fn lateness_is_kept_by_moving_both(
    a: Expiration,
    b: Expiration,
    moved_a: Expiration,
    moved_b: Expiration,
    r: bool,
    moved_r: bool,
)
    requires
        call_ensures(Expiration::is_later_than, (&a, &b), r),
        call_ensures(Expiration::is_later_than, (&moved_a, &moved_b), moved_r),
        moved_a.secs - a.secs == moved_b.secs - b.secs,
        moved_a.nanos == a.nanos,
        moved_b.nanos == b.nanos,
    ensures
        r == moved_r,
        a.secs > b.secs ==> r,
        a.secs < b.secs ==> !r,
{
}

/// A stream without an acceptor wants any; one with an acceptor wants those, and only those, that
/// lie further along the line of time.
pub proof fn only_later_acceptors_are_wanted(
    stream: AcceptorStream,
    incoming: AcceptorWithExpiration,
    r: bool,
)
    requires
        call_ensures(AcceptorStream::should_replace_acceptor, (&stream, &incoming), r),
    ensures
        stream@ is None ==> r,
        stream@ matches Some(existing) ==> (r <==> incoming.expiration.secs * 0x1_0000_0000
            + incoming.expiration.nanos > existing.expiration.secs * 0x1_0000_0000
            + existing.expiration.nanos),
{
}

/// Taking in an acceptor leaves the stream with it or with the one it had, whichever lies further
/// along the line of time, and with the one it had if neither does. The channel is polled again
/// exactly after it has yielded an acceptor; otherwise the stream is unchanged and hands out what
/// it has.
pub proof fn taking_in_keeps_what_expires_last()
    ensures
        forall|
            s: &mut AcceptorStream,
            received: Polled<Option<AcceptorWithExpiration>>,
            r: Option<Polled<AcceptorWithExpiration>>,
        |
            #![trigger call_ensures(AcceptorStream::poll_latest_acceptor, (s, received), r)]
            call_ensures(AcceptorStream::poll_latest_acceptor, (s, received), r) ==> {
                &&& r is None <==> (received is Ready && received->Ready_0 is Some)
                &&& r is None ==> {
                    let incoming = received->Ready_0->Some_0;
                    &&& (*final(s))@ is Some
                    &&& (*s)@ is None ==> (*final(s))@ == Some(incoming)
                    &&& (*s)@ is Some ==> {
                        let had = (*s)@->Some_0;
                        let has = (*final(s))@->Some_0;
                        let a = incoming.expiration.secs * 0x1_0000_0000
                            + incoming.expiration.nanos;
                        let b = had.expiration.secs * 0x1_0000_0000 + had.expiration.nanos;
                        &&& a > b ==> has == incoming
                        &&& a <= b ==> has == had
                    }
                }
                &&& r is Some ==> {
                    &&& (*final(s))@ == (*s)@
                    &&& r->Some_0 is Ready <==> (*s)@ is Some
                    &&& r->Some_0 is Ready ==> (*s)@ == Some(r->Some_0->Ready_0)
                }
            },
{
}

/// Once the channel has nothing more to give, a stream that has an acceptor goes on to the
/// listener with exactly that acceptor, and one that has none goes on to the upgrades. Nothing
/// else leads to either.
pub proof fn a_drained_channel_leads_to_the_listener<C, S>()
    ensures
        forall|
            s: &mut AcceptorStream,
            received: Polled<Option<AcceptorWithExpiration>>,
            step: PollStep<C, S>,
        |
            #![trigger call_ensures(AcceptorStream::poll_tls_upgrades::<C, S>, (s, received), step)]
            call_ensures(AcceptorStream::poll_tls_upgrades::<C, S>, (s, received), step) ==> {
                let drained = received is Pending || received->Ready_0 is None;
                &&& step is PollReceiver <==> !drained
                &&& step is PollListener <==> drained && (*s)@ is Some
                &&& step is PollListener ==> (*s)@ == Some(step->PollListener_acceptor)
                &&& step is PollUpgrades <==> drained && (*s)@ is None
                &&& drained ==> (*final(s))@ == (*s)@
                &&& !drained && (*s)@ is None ==> (*final(s))@ == received->Ready_0
                &&& !drained && (*s)@ is Some ==> {
                    let incoming = received->Ready_0->Some_0;
                    let had = (*s)@->Some_0;
                    let a = incoming.expiration.secs * 0x1_0000_0000 + incoming.expiration.nanos;
                    let b = had.expiration.secs * 0x1_0000_0000 + had.expiration.nanos;
                    (*final(s))@ == Some(
                        if a > b {
                            incoming
                        } else {
                            had
                        },
                    )
                }
            },
{
}

/// An upgrade is started for every connection that the listener yields and for nothing else, with
/// that connection and that acceptor. The poll is over exactly when the listener fails, and tells
/// of that failure. When the listener has nothing, the upgrades come next.
pub proof fn every_connection_yielded_is_upgraded<C, S>(
    acceptor: AcceptorWithExpiration,
    polled: Polled<Option<Result<C, std::io::Error>>>,
    step: PollStep<C, S>,
)
    requires
        call_ensures(AcceptorStream::start_tls_upgrades::<C, S>, (acceptor, polled), step),
    ensures
        step is StartUpgrade ==> step->StartUpgrade_acceptor == acceptor && polled
            == Polled::Ready(Some(Ok::<C, std::io::Error>(step->StartUpgrade_connection))),
        step is Return ==> polled is Ready && polled->Ready_0 is Some && polled->Ready_0->Some_0 is Err
            && step->Return_0 == Polled::Ready(
            Some(
                Err::<S, AcceptError>(
                    AcceptError::TcpConnectError(polled->Ready_0->Some_0->Err_0),
                ),
            ),
        ),
        step is PollUpgrades <==> polled is Pending || polled->Ready_0 is None,
        step is StartUpgrade || step is Return || step is PollUpgrades,
{
}

/// What a poll does next, told from the step: the event that led to it, and no other.
pub proof fn each_step_has_its_event<C, S>()
    ensures
        forall|s: &mut AcceptorStream, event: PollEvent<C, S>, step: PollStep<C, S>|
            #![trigger call_ensures(AcceptorStream::poll_next::<C, S>, (s, event), step)]
            call_ensures(AcceptorStream::poll_next::<C, S>, (s, event), step) ==> match step {
                PollStep::PollReceiver => {
                    &&& event is Received
                    &&& event->Received_0 is Ready
                    &&& event->Received_0->Ready_0 is Some
                },
                PollStep::PollListener { acceptor } => {
                    &&& event is Received
                    &&& event->Received_0 is Pending || event->Received_0->Ready_0 is None
                    &&& (*s)@ == Some(acceptor)
                },
                PollStep::StartUpgrade { acceptor, connection } => event == (PollEvent::<
                    C,
                    S,
                >::Accepted { acceptor, polled: Polled::Ready(Some(Ok(connection))) }),
                PollStep::PollUpgrades => {
                    ||| event is Received && (event->Received_0 is Pending
                        || event->Received_0->Ready_0 is None) && (*s)@ is None
                    ||| event is Accepted && (event->Accepted_polled is Pending
                        || event->Accepted_polled->Ready_0 is None)
                },
                PollStep::Return(result) => {
                    ||| event is Upgraded
                    ||| event is Accepted && event->Accepted_polled is Ready
                        && event->Accepted_polled->Ready_0 is Some
                        && event->Accepted_polled->Ready_0->Some_0 is Err && result
                        == Polled::Ready(
                        Some(
                            Err::<S, AcceptError>(
                                AcceptError::TcpConnectError(
                                    event->Accepted_polled->Ready_0->Some_0->Err_0,
                                ),
                            ),
                        ),
                    )
                },
            },
{
}

/// Carrying a poll on from an answer of the channel leaves the stream with the acceptor that came in
/// or with the one it had, whichever lies further along the line of time, and with the one it had if
/// neither does. An answer without an acceptor leaves the stream as it was.
pub proof fn a_poll_keeps_what_expires_last<C, S>()
    ensures
        forall|
            s: &mut AcceptorStream,
            received: Polled<Option<AcceptorWithExpiration>>,
            step: PollStep<C, S>,
        |
            #![trigger call_ensures(AcceptorStream::poll_next::<C, S>, (s, PollEvent::Received(received)), step)]
            call_ensures(
                AcceptorStream::poll_next::<C, S>,
                (s, PollEvent::Received(received)),
                step,
            ) ==> {
                let drained = received is Pending || received->Ready_0 is None;
                &&& drained ==> (*final(s))@ == (*s)@
                &&& !drained && (*s)@ is None ==> (*final(s))@ == received->Ready_0
                &&& !drained && (*s)@ is Some ==> {
                    let incoming = received->Ready_0->Some_0;
                    let had = (*s)@->Some_0;
                    let a = incoming.expiration.secs * 0x1_0000_0000 + incoming.expiration.nanos;
                    let b = had.expiration.secs * 0x1_0000_0000 + had.expiration.nanos;
                    &&& a > b ==> (*final(s))@ == Some(incoming)
                    &&& a <= b ==> (*final(s))@ == Some(had)
                }
            },
{
}

/// The end of a poll at the upgrades tells of the upgrade that ended: its connection, its failure,
/// or that its task was lost. If none ended the poll is pending; it never says that the stream is
/// over. The acceptor is not touched by the listener or the upgrades.
pub proof fn an_ended_upgrade_is_the_item_of_its_poll<C, S>()
    ensures
        forall|
            s: &mut AcceptorStream,
            polled: Polled<Option<Result<Result<S, AcceptError>, JoinError>>>,
            step: PollStep<C, S>,
        |
            #![trigger call_ensures(AcceptorStream::poll_next::<C, S>, (s, PollEvent::Upgraded(polled)), step)]
            call_ensures(AcceptorStream::poll_next::<C, S>, (s, PollEvent::Upgraded(polled)), step)
                ==> {
                &&& step is Return
                &&& step->Return_0 is Pending <==> (polled is Pending || polled->Ready_0 is None)
                &&& step->Return_0 is Ready ==> {
                    let ended = polled->Ready_0->Some_0;
                    let item = step->Return_0->Ready_0;
                    &&& item is Some
                    &&& ended is Ok ==> item->Some_0 == ended->Ok_0
                    &&& ended is Err ==> item->Some_0 == Err::<S, AcceptError>(
                        AcceptError::JoinError(ended->Err_0),
                    )
                }
            },
        forall|s: &mut AcceptorStream, event: PollEvent<C, S>, step: PollStep<C, S>|
            #![trigger call_ensures(AcceptorStream::poll_next::<C, S>, (s, event), step)]
            call_ensures(AcceptorStream::poll_next::<C, S>, (s, event), step) && !(
            event is Received) ==> (*final(s))@ == (*s)@,
{
}

/// An acceptor that comes in is put to use: when the channel then has nothing more, the listener is
/// polled with it, unless the stream had one that does not lie before it on the line of time.
pub proof fn an_acceptor_that_comes_in_is_put_to_use<C, S>(
    acceptor: AcceptorWithExpiration,
    polled: Polled<Option<AcceptorWithExpiration>>,
)
    requires
        polled is Pending || polled->Ready_0 is None,
    ensures
        forall|
            s: &mut AcceptorStream,
            t: &mut AcceptorStream,
            first: PollStep<C, S>,
            second: PollStep<C, S>,
        |
            #![trigger call_ensures(AcceptorStream::poll_next::<C, S>, (s, PollEvent::Received(Polled::Ready(Some(acceptor)))), first), call_ensures(AcceptorStream::poll_next::<C, S>, (t, PollEvent::Received(polled)), second)]
            call_ensures(
                AcceptorStream::poll_next::<C, S>,
                (s, PollEvent::Received(Polled::Ready(Some(acceptor)))),
                first,
            ) && *final(s) == *t && call_ensures(
                AcceptorStream::poll_next::<C, S>,
                (t, PollEvent::Received(polled)),
                second,
            ) ==> {
                &&& first is PollReceiver
                &&& second is PollListener
                &&& {
                    let used = second->PollListener_acceptor;
                    &&& used == acceptor || (*s)@ == Some(used)
                    &&& used.expiration.secs * 0x1_0000_0000 + used.expiration.nanos
                        >= acceptor.expiration.secs * 0x1_0000_0000 + acceptor.expiration.nanos
                    &&& (*s)@ is Some ==> used.expiration.secs * 0x1_0000_0000
                        + used.expiration.nanos >= (*s)@->Some_0.expiration.secs * 0x1_0000_0000
                        + (*s)@->Some_0.expiration.nanos
                    &&& (*s)@ is None ==> used == acceptor
                }
            },
{
}

/// A new stream takes no connection before an acceptor has come in, and takes the first acceptor
/// that comes in, whenever that expires.
pub proof fn a_new_stream_takes_the_first_acceptor<C, S>(new: AcceptorStream)
    requires
        call_ensures(AcceptorStream::new, (), new),
    ensures
        forall|
            s: &mut AcceptorStream,
            received: Polled<Option<AcceptorWithExpiration>>,
            step: PollStep<C, S>,
        |
            #![trigger call_ensures(AcceptorStream::poll_next::<C, S>, (s, PollEvent::Received(received)), step)]
            call_ensures(
                AcceptorStream::poll_next::<C, S>,
                (s, PollEvent::Received(received)),
                step,
            ) && *s == new ==> {
                &&& step is PollReceiver || step is PollUpgrades
                &&& step is PollReceiver <==> (*final(s))@ is Some
                &&& step is PollReceiver ==> received == Polled::Ready((*final(s))@)
            },
        forall|incoming: AcceptorWithExpiration, r: bool|
            #![trigger call_ensures(AcceptorStream::should_replace_acceptor, (&new, &incoming), r)]
            call_ensures(AcceptorStream::should_replace_acceptor, (&new, &incoming), r) ==> r,
{
}

/// A task gives the connection it upgraded, or the failure of its handshake, and loses neither.
pub proof fn a_task_gives_what_its_handshake_gave<S>(
    handshake: Result<S, std::io::Error>,
    r: Result<S, AcceptError>,
)
    requires
        call_ensures(tls_result::<S>, (handshake,), r),
    ensures
        r is Ok <==> handshake is Ok,
        r is Ok ==> r->Ok_0 == handshake->Ok_0,
        r is Err ==> r->Err_0 == AcceptError::TlsHandshakeError(handshake->Err_0),
{
}

/// A copy of an acceptor expires when the acceptor does and presents what it presents.
pub proof fn a_copy_is_as_good(one: AcceptorWithExpiration, copy: AcceptorWithExpiration)
    requires
        call_ensures(AcceptorWithExpiration::clone, (&one,), copy),
    ensures
        copy.expiration == one.expiration,
        copy.acceptor == one.acceptor,
{
}

/// Every item of the stream of connections gives one item of the stream of the server: a
/// connection is served and gives `Ok`, a failure is passed on as it is. The server's poll is
/// pending, or over, only if the other one is.
pub proof fn every_item_gives_an_item<S>(
    polled: Polled<Option<Result<S, AcceptError>>>,
    step: ServeStep<S>,
)
    requires
        call_ensures(ServerConnErrorStream::poll_next::<S>, (polled,), step),
    ensures
        step.result is Pending <==> polled is Pending,
        polled is Ready ==> (step.result->Ready_0 is None <==> polled->Ready_0 is None),
        polled is Ready && polled->Ready_0 is Some ==> {
            let item = polled->Ready_0->Some_0;
            let given = step.result->Ready_0->Some_0;
            &&& item is Err ==> given == Err::<(), AcceptError>(item->Err_0)
            &&& item is Ok ==> given == Ok::<(), AcceptError>(()) && step.serve == Some(item->Ok_0)
        },
        step.serve is Some <==> step.result == Polled::Ready(Some(Ok::<(), AcceptError>(()))),
{
}

/// The address and the port that are given are used; what is not given is filled in, the address
/// without regard to the port and the port without regard to the address.
pub proof fn what_is_given_is_listened_on(
    port: Option<u16>,
    addr: Option<IpAddress>,
    socket: SocketAddress,
)
    requires
        call_ensures(listen_address, (port, addr), socket),
    ensures
        port is Some ==> port == Some(socket.port),
        port is None ==> socket.port == 443,
        addr is Some ==> addr == Some(socket.ip),
        addr is None ==> socket.ip == IpAddress::V4(0),
{
}

/// Something is reported exactly when a task failed, it is the failure of a task, and that of the
/// server only if the controller did not fail.
pub proof fn a_failed_task_is_reported<E>(
    controller: Result<(), E>,
    server: Result<(), E>,
    failure: Option<TaskFailure<E>>,
)
    requires
        call_ensures(task_failure::<E>, (controller, server), failure),
    ensures
        failure is None <==> controller is Ok && server is Ok,
        failure is Some ==> (failure->Some_0 is Controller <==> controller is Err),
        failure is Some && failure->Some_0 is Controller ==> controller == Err::<(), E>(
            failure->Some_0->Controller_0,
        ),
        failure is Some && failure->Some_0 is Server ==> server == Err::<(), E>(
            failure->Some_0->Server_0,
        ),
{
}

/// A status expires at the moment that its `notAfter` spells, and is refused only if it has none
/// or if what it has does not parse, for that reason.
pub proof fn a_status_expires_at_its_not_after(
    status: CertificateStatus,
    r: Result<Expiration, ServerConfigError>,
)
    requires
        call_ensures(CertController::try_parse_cert_expiration, (&status,), r),
    ensures
        r is Ok ==> status.not_after is Some && parsed_date_time(
            status.not_after->Some_0@,
            "%+"@,
        ) == Ok::<Expiration, ParseErrorKind>(r->Ok_0),
        r is Err ==> match r->Err_0 {
            ServerConfigError::NoExpiration => status.not_after is None,
            ServerConfigError::ExpirationParseError(kind) => status.not_after is Some
                && parsed_date_time(status.not_after->Some_0@, "%+"@) == Err::<
                Expiration,
                ParseErrorKind,
            >(kind),
            _ => false,
        },
{
}

/// A moment that was parsed is kept, and a failure keeps its reason.
pub proof fn what_was_parsed_is_kept(
    parsed: Result<Expiration, ParseErrorKind>,
    r: Result<Expiration, ServerConfigError>,
)
    requires
        call_ensures(CertController::parsed_expiration, (parsed,), r),
    ensures
        r is Ok <==> parsed is Ok,
        r is Ok ==> r->Ok_0 == parsed->Ok_0,
        r is Err ==> r->Err_0 == ServerConfigError::ExpirationParseError(parsed->Err_0),
{
}

/// The secret is asked for exactly when it is known when the certificate expires, under the name
/// and with the moment given; otherwise reconciling ends with the very error.
pub proof fn a_known_expiration_leads_to_the_secret(
    expiration: Result<Expiration, ServerConfigError>,
    secret_name: String,
    step: ReconcileStep,
)
    requires
        call_ensures(CertController::request_secret, (expiration, &secret_name), step),
    ensures
        step is FetchSecret <==> expiration is Ok,
        step is FetchSecret ==> step->secret_name@ == secret_name@ && expiration == Ok::<
            Expiration,
            ServerConfigError,
        >(step->FetchSecret_expiration),
        expiration is Err ==> step == ReconcileStep::Finish(Err(expiration->Err_0)),
{
}

/// For every certificate whose `notAfter` parses, applying it begins by fetching the secret that
/// the certificate names, with the moment that was parsed. It is refused at this point only if its
/// status, the `notAfter` of its status, or a parse of that is not there.
pub proof fn a_certificate_that_expires_is_applied(cert: Certificate, step: ReconcileStep)
    requires
        call_ensures(CertController::apply_cert, (&cert,), step),
    ensures
        step is FetchSecret <==> cert.status is Some && cert.status->Some_0.not_after is Some
            && parsed_date_time(cert.status->Some_0.not_after->Some_0@, "%+"@) is Ok,
        step is FetchSecret ==> step->secret_name@ == cert.spec.secret_name@ && parsed_date_time(
            cert.status->Some_0.not_after->Some_0@,
            "%+"@,
        ) == Ok::<Expiration, ParseErrorKind>(step->FetchSecret_expiration),
        !(step is SendAcceptor),
        step is Finish ==> step->Finish_0 is Err && match step->Finish_0->Err_0 {
            ServerConfigError::NoStatus => cert.status is None,
            ServerConfigError::NoExpiration => cert.status is Some
                && cert.status->Some_0.not_after is None,
            ServerConfigError::ExpirationParseError(kind) => cert.status is Some
                && cert.status->Some_0.not_after is Some && parsed_date_time(
                cert.status->Some_0.not_after->Some_0@,
                "%+"@,
            ) == Err::<Expiration, ParseErrorKind>(kind),
            _ => false,
        },
{
}

/// Reconciling a certificate that was created or changed begins by fetching its secret, whenever
/// its `notAfter` parses; one that is about to go is left alone.
pub proof fn reconciling_makes_progress(event: Event, step: ReconcileStep)
    requires
        call_ensures(CertController::reconcile, (event,), step),
    ensures
        event is Cleanup ==> step == ReconcileStep::Finish(Ok(Action::AwaitChange)),
        event is Apply ==> {
            let cert = event->Apply_0;
            let text = cert.status->Some_0.not_after->Some_0@;
            let spelled = cert.status is Some && cert.status->Some_0.not_after is Some;
            &&& step is FetchSecret <==> spelled && parsed_date_time(text, "%+"@) is Ok
            &&& step is FetchSecret ==> step->secret_name@ == cert.spec.secret_name@
                && parsed_date_time(text, "%+"@) == Ok::<Expiration, ParseErrorKind>(
                step->FetchSecret_expiration,
            )
            &&& !(step is SendAcceptor)
            &&& step is Finish ==> step->Finish_0 is Err && match step->Finish_0->Err_0 {
                ServerConfigError::NoStatus => cert.status is None,
                ServerConfigError::NoExpiration => cert.status is Some
                    && cert.status->Some_0.not_after is None,
                ServerConfigError::ExpirationParseError(kind) => spelled && parsed_date_time(
                    text,
                    "%+"@,
                ) == Err::<Expiration, ParseErrorKind>(kind),
                _ => false,
            }
        },
{
}

/// The secret that the cluster has is the one that is used; a failure of the cluster is told from
/// a secret that it does not have.
pub proof fn the_reply_of_the_cluster_is_kept(
    reply: Result<Option<Secret>, kube::Error>,
    r: Result<Secret, ServerConfigError>,
)
    requires
        call_ensures(CertController::get_secret, (reply,), r),
    ensures
        r is Ok <==> reply is Ok && reply->Ok_0 is Some,
        r is Ok ==> reply->Ok_0 == Some(r->Ok_0),
        r is Err && reply is Err ==> r->Err_0 == ServerConfigError::Kube(reply->Err_0),
        r is Err && reply is Ok ==> r->Err_0 is DataNotFound,
{
}

/// Applying ends well exactly when the acceptor was sent; otherwise the acceptor comes back in the
/// error.
pub proof fn an_acceptor_that_is_not_sent_comes_back(
    reply: Result<(), SendError<AcceptorWithExpiration>>,
    r: Result<Action, ServerConfigError>,
)
    requires
        call_ensures(CertController::acceptor_sent, (reply,), r),
    ensures
        r is Ok <==> reply is Ok,
        r is Ok ==> r->Ok_0 == Action::AwaitChange,
        r is Err ==> r->Err_0 == ServerConfigError::Send(reply->Err_0),
{
}

/// Cleaning up never fails, and a failure of any kind is retried after half a minute.
pub proof fn failures_are_retried(
    cert: Certificate,
    cleaned: Result<Action, ServerConfigError>,
    failure: FinalizerFailure,
    action: Action,
)
    requires
        call_ensures(CertController::cleanup_cert, (&cert,), cleaned),
        call_ensures(CertController::error_policy, (failure,), action),
    ensures
        cleaned is Ok && cleaned->Ok_0 == Action::AwaitChange,
        action == (Action::RequeueAfter { secs: 30 }),
{
}

/// A config that was built is used as it is, and a refusal keeps its reason.
pub proof fn what_was_built_is_kept(
    built: Result<ServerConfig, rustls::Error>,
    config: Result<ServerConfig, ServerConfigError>,
)
    requires
        call_ensures(CertController::built_config, (built,), config),
    ensures
        config is Ok <==> built is Ok,
        config is Ok ==> config->Ok_0 == built->Ok_0,
        config is Err ==> config->Err_0 == ServerConfigError::Rustls(built->Err_0),
{
}

/// Every config that was built is offered, with the moment given and presenting all that it holds.
pub proof fn every_config_is_offered(
    expiration: Expiration,
    config: Result<ServerConfig, ServerConfigError>,
    step: ReconcileStep,
)
    requires
        call_ensures(CertController::offer_acceptor, (expiration, config), step),
    ensures
        step is SendAcceptor <==> config is Ok,
        step is SendAcceptor ==> {
            let offered = step->SendAcceptor_0;
            &&& offered.expiration == expiration
            &&& acceptor_identity(offered.acceptor).chain == config_identity(config->Ok_0).chain
            &&& acceptor_identity(offered.acceptor).key == config_identity(config->Ok_0).key
            &&& acceptor_asks_clients(offered.acceptor) == config_asks_clients(config->Ok_0)
        },
        config is Err ==> step == ReconcileStep::Finish(Err(config->Err_0)),
{
}

/// A chain and a key that were decoded are used whole, whatever the form of the key; a failure of
/// the chain comes before one of the key.
pub proof fn a_decoded_chain_and_key_are_used_whole(
    chain: Result<Vec<Vec<u8>>, PemError>,
    key: Result<PrivateKey, PemError>,
    identity: Result<TlsIdentity, ServerConfigError>,
)
    requires
        call_ensures(CertController::decoded_identity, (chain, key), identity),
    ensures
        identity is Ok <==> chain is Ok && key is Ok,
        identity is Ok ==> {
            let read = identity->Ok_0;
            &&& read.chain@.len() == chain->Ok_0@.len()
            &&& forall|i: int|
                0 <= i < read.chain@.len() ==> (#[trigger] read.chain@[i])@ == chain->Ok_0@[i]@
            &&& read.key.form == key->Ok_0.form
            &&& read.key.der@ == key->Ok_0.der@
        },
        chain is Err ==> identity == Err::<TlsIdentity, ServerConfigError>(
            ServerConfigError::Pem(chain->Err_0),
        ),
        chain is Ok && key is Err ==> identity == Err::<TlsIdentity, ServerConfigError>(
            ServerConfigError::Pem(key->Err_0),
        ),
{
}

/// Each section of the text is decoded, in its place.
pub proof fn each_section_is_decoded_in_its_place(
    pem: Vec<u8>,
    items: Vec<Result<Vec<u8>, PemError>>,
)
    requires
        call_ensures(decode_sections, (pem,), items),
    ensures
        items@.len() == certificate_sections(pem@).len(),
        forall|i: int|
            0 <= i < items@.len() ==> match #[trigger] items@[i] {
                Ok(der) => certificate_sections(pem@)[i] == Ok::<Seq<u8>, PemErrorView>(der@),
                Err(error) => certificate_sections(pem@)[i] == Err::<Seq<u8>, PemErrorView>(error@),
            },
{
    let views = sections_view(items@);
    assert(views == certificate_sections(pem@));
    assert forall|i: int| 0 <= i < items@.len() implies match #[trigger] items@[i] {
        Ok(der) => certificate_sections(pem@)[i] == Ok::<Seq<u8>, PemErrorView>(der@),
        Err(error) => certificate_sections(pem@)[i] == Err::<Seq<u8>, PemErrorView>(error@),
    } by {
        assert(views[i] == certificate_sections(pem@)[i]);
    }
}

/// A chain that is gathered has every certificate in its place; if a section failed, the failure
/// of the first one that did is given.
pub proof fn a_gathered_chain_leaves_nothing_out(
    items: Vec<Result<Vec<u8>, PemError>>,
    chain: Result<Vec<Vec<u8>>, PemError>,
)
    requires
        call_ensures(collect_chain, (items,), chain),
    ensures
        match chain {
            Ok(ders) => ders@.len() == items@.len() && forall|i: int|
                0 <= i < items@.len() ==> (#[trigger] items@[i]) is Ok && items@[i]->Ok_0@
                    == ders@[i]@,
            Err(error) => exists|i: int|
                {
                    &&& 0 <= i < items@.len()
                    &&& (#[trigger] items@[i]) is Err
                    &&& items@[i]->Err_0@ == error@
                    &&& forall|j: int| 0 <= j < i ==> (#[trigger] items@[j]) is Ok
                },
        },
{
    let views = sections_view(items@);
    chain_is_all_sections_or_first_error(views);
    match chain {
        Ok(ders) => {
            assert forall|i: int| 0 <= i < items@.len() implies (#[trigger] items@[i]) is Ok
                && items@[i]->Ok_0@ == ders@[i]@ by {
                assert(views[i] == Ok::<Seq<u8>, PemErrorView>(chain_view(ders@)[i]));
            }
        },
        Err(error) => {
            let i = choose|i: int|
                {
                    &&& 0 <= i < views.len()
                    &&& #[trigger] views[i] == Err::<Seq<u8>, PemErrorView>(error@)
                    &&& forall|j: int| 0 <= j < i ==> (#[trigger] views[j]) is Ok
                };
            assert(items@[i] is Err);
            assert forall|j: int| 0 <= j < i implies (#[trigger] items@[j]) is Ok by {
                assert(views[j] is Ok);
            }
        },
    }
}

/// The chain in a text has a certificate for each section, in order; if a section fails, the first
/// failure is given.
pub proof fn the_chain_of_a_text_is_whole(pem: Vec<u8>, chain: Result<Vec<Vec<u8>>, PemError>)
    requires
        call_ensures(certificate_chain, (pem,), chain),
    ensures
        match chain {
            Ok(ders) => ders@.len() == certificate_sections(pem@).len() && forall|i: int|
                0 <= i < ders@.len() ==> certificate_sections(pem@)[i] == Ok::<
                    Seq<u8>,
                    PemErrorView,
                >((#[trigger] ders@[i])@),
            Err(error) => exists|i: int|
                {
                    &&& 0 <= i < certificate_sections(pem@).len()
                    &&& #[trigger] certificate_sections(pem@)[i] == Err::<Seq<u8>, PemErrorView>(
                        error@,
                    )
                    &&& forall|j: int|
                        0 <= j < i ==> (#[trigger] certificate_sections(pem@)[j]) is Ok
                },
        },
{
    let sections = certificate_sections(pem@);
    chain_is_all_sections_or_first_error(sections);
    if let Ok(ders) = chain {
        assert forall|i: int| 0 <= i < ders@.len() implies sections[i] == Ok::<
            Seq<u8>,
            PemErrorView,
        >((#[trigger] ders@[i])@) by {
            assert(sections[i] == Ok::<Seq<u8>, PemErrorView>(chain_view(ders@)[i]));
        }
    }
}

/// A secret is read whole: the chain has as many certificates as `tls.crt` has sections, each in
/// its place, and the key is the first one of `tls.key`, whatever its form. It is read whenever
/// both entries are there and all of that decodes. Otherwise the reason is the entry that is
/// missing, or the first section that fails, or else the key.
pub proof fn a_secret_is_read_whole(
    data: SecretData,
    identity: Result<TlsIdentity, ServerConfigError>,
)
    requires
        call_ensures(CertController::read_identity, (data,), identity),
    ensures
        ({
            let there = data@.contains_key("tls.crt"@) && data@.contains_key("tls.key"@);
            let sections = certificate_sections(data@["tls.crt"@]);
            let key = first_private_key(data@["tls.key"@]);
            match identity {
                Ok(read) => {
                    &&& there
                    &&& read.chain@.len() == sections.len()
                    &&& forall|i: int|
                        0 <= i < sections.len() ==> #[trigger] sections[i] == Ok::<
                            Seq<u8>,
                            PemErrorView,
                        >(read.chain@[i]@)
                    &&& key is Ok && key->Ok_0.form == read.key.form && key->Ok_0.der
                        == read.key.der@
                },
                Err(ServerConfigError::DataNotFound) => !there,
                Err(ServerConfigError::Pem(error)) => there && {
                    ||| exists|i: int|
                        {
                            &&& 0 <= i < sections.len()
                            &&& #[trigger] sections[i] == Err::<Seq<u8>, PemErrorView>(error@)
                            &&& forall|j: int| 0 <= j < i ==> (#[trigger] sections[j]) is Ok
                        }
                    ||| (forall|i: int| 0 <= i < sections.len() ==> (#[trigger] sections[i]) is Ok)
                        && key == Err::<PrivateKeyView, PemErrorView>(error@)
                },
                Err(_) => false,
            }
        }),
        ({
            let sections = certificate_sections(data@["tls.crt"@]);
            let decodes = forall|i: int|
                0 <= i < sections.len() ==> (#[trigger] sections[i]) is Ok;
            identity is Ok <==> data@.contains_key("tls.crt"@) && data@.contains_key("tls.key"@)
                && decodes && first_private_key(data@["tls.key"@]) is Ok
        }),
{
    let sections = certificate_sections(data@["tls.crt"@]);
    chain_is_all_sections_or_first_error(sections);
    if let Ok(read) = identity {
        assert forall|i: int| 0 <= i < sections.len() implies #[trigger] sections[i] == Ok::<
            Seq<u8>,
            PemErrorView,
        >(read.chain@[i]@) by {
            assert(chain_view(read.chain@)[i] == read.chain@[i]@);
        }
    }
}

/// A config holds the whole chain and the first key of the secret, asks clients for nothing, and
/// is built unless rustls refuses just that chain and key.
pub proof fn a_config_holds_the_whole_secret(
    data: SecretData,
    config: Result<ServerConfig, ServerConfigError>,
)
    requires
        call_ensures(CertController::build_server_config, (data,), config),
    ensures
        ({
            let there = data@.contains_key("tls.crt"@) && data@.contains_key("tls.key"@);
            let sections = certificate_sections(data@["tls.crt"@]);
            let key = first_private_key(data@["tls.key"@]);
            let whole = |identity: TlsIdentityView|
                {
                    &&& there
                    &&& identity.chain.len() == sections.len()
                    &&& forall|i: int|
                        0 <= i < sections.len() ==> #[trigger] sections[i] == Ok::<
                            Seq<u8>,
                            PemErrorView,
                        >(identity.chain[i])
                    &&& key == Ok::<PrivateKeyView, PemErrorView>(identity.key)
                };
            match config {
                Ok(built) => whole(config_identity(built)) && !config_asks_clients(built),
                Err(ServerConfigError::Rustls(error)) => exists|identity: TlsIdentityView|
                    whole(identity) && #[trigger] can_be_refused(identity, error),
                Err(ServerConfigError::DataNotFound) => !there,
                Err(ServerConfigError::Pem(error)) => there && {
                    ||| exists|i: int|
                        {
                            &&& 0 <= i < sections.len()
                            &&& #[trigger] sections[i] == Err::<Seq<u8>, PemErrorView>(error@)
                            &&& forall|j: int| 0 <= j < i ==> (#[trigger] sections[j]) is Ok
                        }
                    ||| (forall|i: int| 0 <= i < sections.len() ==> (#[trigger] sections[i]) is Ok)
                        && key == Err::<PrivateKeyView, PemErrorView>(error@)
                },
                Err(_) => false,
            }
        }),
{
    chain_is_all_sections_or_first_error(certificate_sections(data@["tls.crt"@]));
}

/// The acceptor that comes of a secret expires at the moment asked for, holds the whole chain and
/// the first key of that secret and asks clients for nothing. It comes unless the cluster failed
/// or has no such secret, the secret lacks data or an entry or does not decode, or rustls refuses
/// just that chain and key; and each of these is told as what it is.
pub proof fn an_acceptor_comes_of_a_whole_secret(
    expiration: Expiration,
    reply: Result<Option<Secret>, kube::Error>,
    step: ReconcileStep,
)
    requires
        call_ensures(CertController::apply_secret, (expiration, reply), step),
    ensures
        ({
            let data = reply->Ok_0->Some_0.data->Some_0@;
            let given = reply is Ok && reply->Ok_0 is Some && reply->Ok_0->Some_0.data is Some;
            let there = given && data.contains_key("tls.crt"@) && data.contains_key("tls.key"@);
            let sections = certificate_sections(data["tls.crt"@]);
            let key = first_private_key(data["tls.key"@]);
            let whole = |identity: TlsIdentityView|
                {
                    &&& there
                    &&& identity.chain.len() == sections.len()
                    &&& forall|i: int|
                        0 <= i < sections.len() ==> #[trigger] sections[i] == Ok::<
                            Seq<u8>,
                            PemErrorView,
                        >(identity.chain[i])
                    &&& key == Ok::<PrivateKeyView, PemErrorView>(identity.key)
                };
            match step {
                ReconcileStep::SendAcceptor(acceptor) => {
                    &&& acceptor.expiration == expiration
                    &&& whole(acceptor_identity(acceptor.acceptor))
                    &&& !acceptor_asks_clients(acceptor.acceptor)
                },
                ReconcileStep::FetchSecret { .. } => false,
                ReconcileStep::Finish(Ok(_)) => false,
                ReconcileStep::Finish(Err(error)) => match error {
                    ServerConfigError::Kube(failed) => reply == Err::<Option<Secret>, kube::Error>(
                        failed,
                    ),
                    ServerConfigError::NoSecretData => reply is Ok && reply->Ok_0 is Some && !given,
                    ServerConfigError::DataNotFound => reply is Ok && (reply->Ok_0 is None || given
                        && !there),
                    ServerConfigError::Rustls(refusal) => exists|identity: TlsIdentityView|
                        whole(identity) && #[trigger] can_be_refused(identity, refusal),
                    ServerConfigError::Pem(failed) => there && {
                        ||| exists|i: int|
                            {
                                &&& 0 <= i < sections.len()
                                &&& #[trigger] sections[i] == Err::<Seq<u8>, PemErrorView>(failed@)
                                &&& forall|j: int| 0 <= j < i ==> (#[trigger] sections[j]) is Ok
                            }
                        ||| (forall|i: int|
                            0 <= i < sections.len() ==> (#[trigger] sections[i]) is Ok) && key
                            == Err::<PrivateKeyView, PemErrorView>(failed@)
                    },
                    _ => false,
                },
            }
        }),
{
    chain_is_all_sections_or_first_error(
        certificate_sections(reply->Ok_0->Some_0.data->Some_0@["tls.crt"@]),
    );
}

/// Taking out an entry gives what is under its name, if anything is, and leaves nothing there; what
/// is under other names stays.
pub proof fn taking_out_gives_what_is_there(name: &str)
    ensures
        forall|s: &mut SecretData, found: Option<Vec<u8>>|
            #![trigger call_ensures(SecretData::remove, (s, name), found)]
            call_ensures(SecretData::remove, (s, name), found) ==> {
                &&& found is Some <==> (*s)@.contains_key(name@)
                &&& found is Some ==> found->Some_0@ == (*s)@[name@]
                &&& !(*final(s))@.contains_key(name@)
                &&& forall|other: Seq<char>|
                    #![trigger (*s)@.contains_key(other)]
                    #![trigger (*final(s))@.contains_key(other)]
                    other != name@ ==> {
                        &&& (*final(s))@.contains_key(other) <==> (*s)@.contains_key(other)
                        &&& (*s)@.contains_key(other) ==> (*final(s))@[other] == (*s)@[other]
                    }
            },
{
}

/// Putting in an entry gives what was under its name, if anything was, and leaves the new value
/// there; what is under other names stays.
pub proof fn putting_in_gives_what_was_there(name: String, value: Vec<u8>)
    ensures
        forall|s: &mut SecretData, before: Option<Vec<u8>>|
            #![trigger call_ensures(SecretData::insert, (s, name, value), before)]
            call_ensures(SecretData::insert, (s, name, value), before) ==> {
                &&& before is Some <==> (*s)@.contains_key(name@)
                &&& before is Some ==> before->Some_0@ == (*s)@[name@]
                &&& (*final(s))@.contains_key(name@)
                &&& (*final(s))@[name@] == value@
                &&& forall|other: Seq<char>|
                    #![trigger (*s)@.contains_key(other)]
                    #![trigger (*final(s))@.contains_key(other)]
                    other != name@ ==> {
                        &&& (*final(s))@.contains_key(other) <==> (*s)@.contains_key(other)
                        &&& (*s)@.contains_key(other) ==> (*final(s))@[other] == (*s)@[other]
                    }
            },
{
}

/// What was put under a name is what is taken out from there, whatever was there before; and in new
/// data nothing is found under any name.
pub proof fn what_is_put_in_is_taken_out(new: SecretData, name: String, value: Vec<u8>, wanted: &str)
    requires
        call_ensures(SecretData::new, (), new),
    ensures
        forall|
            s: &mut SecretData,
            t: &mut SecretData,
            before: Option<Vec<u8>>,
            found: Option<Vec<u8>>,
        |
            #![trigger call_ensures(SecretData::insert, (s, name, value), before), call_ensures(SecretData::remove, (t, wanted), found)]
            call_ensures(SecretData::insert, (s, name, value), before) && *final(s) == *t
                && call_ensures(SecretData::remove, (t, wanted), found) ==> {
                &&& wanted@ == name@ ==> found is Some && found->Some_0@ == value@
                &&& wanted@ != name@ && found is Some ==> found->Some_0@ == (*s)@[wanted@]
            },
        forall|s: &mut SecretData, found: Option<Vec<u8>>|
            #![trigger call_ensures(SecretData::remove, (s, wanted), found)]
            call_ensures(SecretData::remove, (s, wanted), found) && *s == new ==> found is None,
{
}

/// From the cluster to the listener: an acceptor that comes of applying a certificate expires when
/// the certificate's own `notAfter` says and presents the whole chain and the first key of the
/// secret that was fetched under the certificate's own name for it. A stream that has none, or only
/// one that expires earlier, goes on to the listener with it.
pub proof fn a_certificate_comes_to_the_listener<C, S>(
    cert: Certificate,
    secret: Secret,
    first: ReconcileStep,
    second: ReconcileStep,
)
    requires
        call_ensures(CertController::reconcile, (Event::Apply(cert),), first),
        first is FetchSecret,
        call_ensures(
            CertController::apply_secret,
            (first->FetchSecret_expiration, Ok(Some(secret))),
            second,
        ),
        second is SendAcceptor,
    ensures
        ({
            let sent = second->SendAcceptor_0;
            let data = secret.data->Some_0@;
            let presented = acceptor_identity(sent.acceptor);
            let sections = certificate_sections(data["tls.crt"@]);
            &&& first->secret_name@ == cert.spec.secret_name@
            &&& parsed_date_time(cert.status->Some_0.not_after->Some_0@, "%+"@) == Ok::<
                Expiration,
                ParseErrorKind,
            >(sent.expiration)
            &&& presented.chain.len() == sections.len()
            &&& forall|i: int|
                0 <= i < sections.len() ==> #[trigger] sections[i] == Ok::<Seq<u8>, PemErrorView>(
                    presented.chain[i],
                )
            &&& first_private_key(data["tls.key"@]) == Ok::<PrivateKeyView, PemErrorView>(
                presented.key,
            )
            &&& !acceptor_asks_clients(sent.acceptor)
        }),
        forall|
            s: &mut AcceptorStream,
            t: &mut AcceptorStream,
            third: PollStep<C, S>,
            fourth: PollStep<C, S>,
        |
            #![trigger call_ensures(AcceptorStream::poll_next::<C, S>, (s, PollEvent::Received(Polled::Ready(Some(second->SendAcceptor_0)))), third), call_ensures(AcceptorStream::poll_next::<C, S>, (t, PollEvent::Received(Polled::Pending)), fourth)]
            call_ensures(
                AcceptorStream::poll_next::<C, S>,
                (s, PollEvent::Received(Polled::Ready(Some(second->SendAcceptor_0)))),
                third,
            ) && *final(s) == *t && call_ensures(
                AcceptorStream::poll_next::<C, S>,
                (t, PollEvent::Received(Polled::Pending)),
                fourth,
            ) && ((*s)@ is None || (*s)@->Some_0.expiration.secs
                < second->SendAcceptor_0.expiration.secs) ==> fourth == (PollStep::<
                C,
                S,
            >::PollListener { acceptor: second->SendAcceptor_0 }),
{
    an_acceptor_comes_of_a_whole_secret(
        first->FetchSecret_expiration,
        Ok(Some(secret)),
        second,
    );
}

/// Certificates are always reconciled under the same finalizer.
pub proof fn the_finalizer_has_one_name(name: &'static str)
    requires
        call_ensures(CertController::finalizer_name, (), name),
    ensures
        name@ == "challenge_server"@,
{
}

/// Failures of the decoder with the same content are of the same kind and say the same.
pub proof fn decoding_failures_are_told_apart(a: PemError, b: PemError)
    requires
        a@ == b@,
    ensures
        match (a, b) {
            (
                PemError::MissingSectionEnd { end_marker: x },
                PemError::MissingSectionEnd { end_marker: y },
            ) => x@ == y@,
            (
                PemError::IllegalSectionStart { line: x },
                PemError::IllegalSectionStart { line: y },
            ) => x@ == y@,
            (PemError::Base64Decode(x), PemError::Base64Decode(y)) => x@ == y@,
            (PemError::NoItemsFound, PemError::NoItemsFound) => true,
            (PemError::SectionTooLarge, PemError::SectionTooLarge) => true,
            (PemError::Other, PemError::Other) => true,
            _ => false,
        },
{
}

/// Reasons with the same content are of the same kind and say the same.
pub proof fn reasons_are_told_apart(a: ServerConfigError, b: ServerConfigError)
    requires
        a@ == b@,
    ensures
        match (a, b) {
            (ServerConfigError::Pem(x), ServerConfigError::Pem(y)) => x@ == y@,
            _ => a == b,
        },
{
}

/// Identities with the same content have the same certificates in the same places and the same key.
pub proof fn identities_are_told_apart(a: TlsIdentity, b: TlsIdentity)
    requires
        a@ == b@,
    ensures
        a.chain@.len() == b.chain@.len(),
        forall|i: int| 0 <= i < a.chain@.len() ==> (#[trigger] a.chain@[i])@ == b.chain@[i]@,
        a.key.form == b.key.form,
        a.key.der@ == b.key.der@,
{
    assert(chain_view(a.chain@) == chain_view(b.chain@));
    assert(chain_view(a.chain@).len() == a.chain@.len());
    assert(chain_view(b.chain@).len() == b.chain@.len());
    assert forall|i: int| 0 <= i < a.chain@.len() implies (#[trigger] a.chain@[i])@
        == b.chain@[i]@ by {
        assert(chain_view(a.chain@)[i] == chain_view(b.chain@)[i]);
    }
}

} // verus!
