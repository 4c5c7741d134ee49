//! What holds over many polls of one stream, from its creation on.
//!
//! A poll begins with [`PollStep::PollReceiver`] and ends with [`PollStep::Return`]; the next one
//! goes on with the same stream. A history is what all the polls so far have met, in order. It
//! also says which upgrade each result belongs to, which the stream itself does not know.

use crate::accept::{
    answers, first_to_expire_last, latest_acceptor_expires_last, latest_after, next, run,
    AcceptError, AcceptorWithExpiration, PollEvent, PollStep, Polled,
};
use crate::controller::{
    cert_expiration, follows_secret, secret_identity, wants_secret, Certificate, ReconcileStep,
    ServerConfigErrorView,
};
use crate::expiration::Expiration;
use crate::secret::Secret;
use crate::server::serve_step;
use crate::tls::{acceptor_asks_clients, acceptor_identity, TlsIdentityView};
use vstd::multiset::Multiset;
use vstd::prelude::*;

verus! {

/// The upgrade of a connection with an acceptor.
pub struct Upgrade<C> {
    pub acceptor: AcceptorWithExpiration,
    pub connection: C,
}

/// What a step of a poll met.
pub struct Met<C, S> {
    pub event: PollEvent<C, S>,
    /// The upgrade that has ended, if the event is the end of one.
    pub ended: Option<Upgrade<C>>,
}

/// A stream in the course of its polls.
pub struct Standing<C, S> {
    /// The latest acceptor.
    pub latest: Option<AcceptorWithExpiration>,
    /// The step to carry out next.
    pub step: PollStep<C, S>,
    /// The upgrades that were started and have not ended.
    pub under_way: Multiset<Upgrade<C>>,
}

/// The event is the end of an upgrade.
pub open spec fn ends_upgrade<C, S>(event: PollEvent<C, S>) -> bool {
    event matches PollEvent::Upgraded(Polled::Ready(Some(_)))
}

/// The step that comes after what was met: the next poll begins once one has returned.
pub open spec fn pending_step<C, S>(step: PollStep<C, S>) -> PollStep<C, S> {
    if step is Return {
        PollStep::PollReceiver
    } else {
        step
    }
}

/// The upgrade that is started by `step`, if it starts one.
pub open spec fn started_by<C, S>(step: PollStep<C, S>) -> Multiset<Upgrade<C>> {
    match step {
        PollStep::StartUpgrade { acceptor, connection } => Multiset::singleton(
            Upgrade { acceptor, connection },
        ),
        _ => Multiset::empty(),
    }
}

/// The upgrade that has ended, if one has.
pub open spec fn ended_by<C, S>(met: Met<C, S>) -> Multiset<Upgrade<C>> {
    match met.ended {
        Some(upgrade) => Multiset::singleton(upgrade),
        None => Multiset::empty(),
    }
}

/// How a stream stands after `history`.
pub open spec fn standing<C, S>(history: Seq<Met<C, S>>) -> Standing<C, S>
    decreases history.len(),
{
    if history.len() == 0 {
        Standing { latest: None, step: PollStep::PollReceiver, under_way: Multiset::empty() }
    } else {
        let before = standing(history.drop_last());
        let met = history.last();
        let (latest, step) = next(before.latest, met.event);
        Standing {
            latest,
            step,
            under_way: before.under_way.sub(ended_by(met)).add(started_by(step)),
        }
    }
}

/// `met` can come next: it answers the step, what ends is an upgrade under way, and a task that
/// upgrades a connection fails with nothing but its handshake.
pub open spec fn can_meet<C, S>(before: Standing<C, S>, met: Met<C, S>) -> bool {
    &&& answers(pending_step(before.step), met.event)
    &&& met.ended is Some <==> ends_upgrade(met.event)
    &&& met.ended is Some ==> before.under_way.count(met.ended->Some_0) > 0
    &&& met.event matches PollEvent::Upgraded(Polled::Ready(Some(Ok(Err(error)))))
        ==> error is TlsHandshakeError
}

/// `history` is what polls of a new stream can have met.
pub open spec fn possible<C, S>(history: Seq<Met<C, S>>) -> bool
    decreases history.len(),
{
    history.len() == 0 || {
        &&& possible(history.drop_last())
        &&& can_meet(standing(history.drop_last()), history.last())
    }
}

/// The events among what was met.
pub open spec fn events_of<C, S>(met: Seq<Met<C, S>>) -> Seq<PollEvent<C, S>> {
    met.map_values(|met: Met<C, S>| met.event)
}

/// A history goes poll by poll: what a poll meets takes the stream from where the polls before it
/// left it to where that poll alone would take it.
pub proof fn a_history_goes_poll_by_poll<C, S>(earlier: Seq<Met<C, S>>, poll: Seq<Met<C, S>>)
    requires
        poll.len() > 0,
    ensures
        standing(earlier + poll).latest == run(standing(earlier).latest, events_of(poll)).0,
        standing(earlier + poll).step == run(standing(earlier).latest, events_of(poll)).1,
    decreases poll.len(),
{
    let begun = poll.drop_last();
    assert((earlier + poll).drop_last() =~= earlier + begun);
    assert((earlier + poll).last() == poll.last());
    assert(events_of(poll).drop_last() =~= events_of(begun));
    assert(events_of(poll).last() == poll.last().event);
    if begun.len() == 0 {
        assert(earlier + begun =~= earlier);
        assert(run(standing(earlier).latest, events_of(begun)).0 == standing(earlier).latest);
    } else {
        a_history_goes_poll_by_poll(earlier, begun);
    }
}

/// All the acceptors that have come in on the channel, in order.
pub open spec fn received<C, S>(history: Seq<Met<C, S>>) -> Seq<AcceptorWithExpiration>
    decreases history.len(),
{
    if history.len() == 0 {
        Seq::empty()
    } else {
        match history.last().event {
            PollEvent::Received(Polled::Ready(Some(acceptor))) => received(
                history.drop_last(),
            ).push(acceptor),
            _ => received(history.drop_last()),
        }
    }
}

/// All the connections that the listener has yielded, in order.
pub open spec fn accepted<C, S>(history: Seq<Met<C, S>>) -> Seq<C>
    decreases history.len(),
{
    if history.len() == 0 {
        Seq::empty()
    } else {
        match history.last().event {
            PollEvent::Accepted { polled: Polled::Ready(Some(Ok(connection))), .. } => accepted(
                history.drop_last(),
            ).push(connection),
            _ => accepted(history.drop_last()),
        }
    }
}

/// All the upgrades that were started.
pub open spec fn started<C, S>(history: Seq<Met<C, S>>) -> Multiset<Upgrade<C>>
    decreases history.len(),
{
    if history.len() == 0 {
        Multiset::empty()
    } else {
        started(history.drop_last()).add(started_by(standing(history).step))
    }
}

/// All the upgrades that have ended.
pub open spec fn ended<C, S>(history: Seq<Met<C, S>>) -> Multiset<Upgrade<C>>
    decreases history.len(),
{
    if history.len() == 0 {
        Multiset::empty()
    } else {
        ended(history.drop_last()).add(ended_by(history.last()))
    }
}

/// All the items that the stream has given, in order.
pub open spec fn given<C, S>(history: Seq<Met<C, S>>) -> Seq<Result<S, AcceptError>>
    decreases history.len(),
{
    if history.len() == 0 {
        Seq::empty()
    } else {
        match standing(history).step {
            PollStep::Return(Polled::Ready(Some(item))) => given(history.drop_last()).push(item),
            _ => given(history.drop_last()),
        }
    }
}

/// The item tells of a failure of the listener.
pub open spec fn is_tcp_error<S>(item: Result<S, AcceptError>) -> bool {
    item matches Err(error) && error is TcpConnectError
}

/// How many of `items` do not tell of a failure of the listener.
pub open spec fn count_besides_tcp_errors<S>(items: Seq<Result<S, AcceptError>>) -> nat
    decreases items.len(),
{
    if items.len() == 0 {
        0
    } else {
        count_besides_tcp_errors(items.drop_last()) + if is_tcp_error(items.last()) {
            0nat
        } else {
            1nat
        }
    }
}

/// Every upgrade that was started has either ended or is under way, and none ends twice. So over
/// any number of polls the connections that were accepted are as many as the items given, other
/// than failures of the listener, and the upgrades under way together.
pub proof fn every_accepted_connection_is_accounted_for<C, S>(history: Seq<Met<C, S>>)
    requires
        possible(history),
    ensures
        started(history) == ended(history).add(standing(history).under_way),
        started(history).len() == accepted(history).len(),
        ended(history).len() == count_besides_tcp_errors(given(history)),
        accepted(history).len() == count_besides_tcp_errors(given(history)) + standing(
            history,
        ).under_way.len(),
    decreases history.len(),
{
    broadcast use vstd::multiset::group_multiset_axioms;

    if history.len() > 0 {
        let earlier = history.drop_last();
        let before = standing(earlier);
        let after = standing(history);
        let met = history.last();
        every_accepted_connection_is_accounted_for(earlier);
        assert(ended_by(met).subset_of(before.under_way)) by {
            if met.ended is Some {
                assert(before.under_way.count(met.ended->Some_0) > 0);
            }
        }
        assert(started(history) =~= ended(history).add(after.under_way));
        if let PollStep::Return(Polled::Ready(Some(item))) = after.step {
            assert(given(history) == given(earlier).push(item));
            assert(given(history).drop_last() =~= given(earlier));
        }
    }
}

/// In one poll at most one upgrade ends, and it is the last thing that the poll meets: what
/// follows the end of an upgrade is a new poll.
pub proof fn a_poll_ends_with_the_upgrade_it_gives<C, S>(history: Seq<Met<C, S>>, i: int)
    requires
        possible(history),
        0 <= i < history.len(),
        ends_upgrade(history[i].event),
    ensures
        standing(history.take(i + 1)).step is Return,
        i + 1 < history.len() ==> history[i + 1].event is Received,
    decreases history.len(),
{
    assert(history.take(i + 1).last() == history[i]);
    if i + 1 < history.len() {
        if i + 1 == history.len() - 1 {
            assert(history.drop_last() =~= history.take(i + 1));
        } else {
            a_poll_ends_with_the_upgrade_it_gives(history.drop_last(), i);
        }
    }
}

/// After any number of polls the latest acceptor is that of all that have come in, and the
/// acceptor with which a connection is taken is the latest one.
proof fn latest_of_all_received<C, S>(history: Seq<Met<C, S>>)
    requires
        possible(history),
    ensures
        standing(history).latest == latest_after(None, received(history)),
        standing(history).step matches PollStep::PollListener { acceptor } ==> standing(
            history,
        ).latest == Some(acceptor),
        standing(history).step matches PollStep::StartUpgrade { acceptor, .. } ==> standing(
            history,
        ).latest == Some(acceptor),
    decreases history.len(),
{
    if history.len() > 0 {
        let earlier = history.drop_last();
        latest_of_all_received(earlier);
        if let PollEvent::Received(Polled::Ready(Some(acceptor))) = history.last().event {
            assert(received(earlier).push(acceptor).drop_last() =~= received(earlier));
        }
    }
}

/// What was possible up to some point was possible.
proof fn prefix_is_possible<C, S>(history: Seq<Met<C, S>>, n: int)
    requires
        possible(history),
        0 <= n <= history.len(),
    ensures
        possible(history.take(n)),
    decreases history.len(),
{
    if n == history.len() {
        assert(history.take(n) =~= history);
    } else {
        prefix_is_possible(history.drop_last(), n);
        assert(history.drop_last().take(n) =~= history.take(n));
    }
}

/// `upgrade` is started after the first `n` things met.
pub open spec fn starts_at<C, S>(history: Seq<Met<C, S>>, upgrade: Upgrade<C>, n: int) -> bool {
    &&& 0 <= n <= history.len()
    &&& standing(history.take(n)).step == (PollStep::<C, S>::StartUpgrade {
        acceptor: upgrade.acceptor,
        connection: upgrade.connection,
    })
}

/// An upgrade that was started was started at some point.
proof fn started_at_some_point<C, S>(history: Seq<Met<C, S>>, upgrade: Upgrade<C>)
    requires
        started(history).count(upgrade) > 0,
    ensures
        exists|n: int| #[trigger] starts_at(history, upgrade, n),
    decreases history.len(),
{
    broadcast use vstd::multiset::group_multiset_axioms;

    if history.len() > 0 {
        let earlier = history.drop_last();
        if started(earlier).count(upgrade) > 0 {
            started_at_some_point(earlier, upgrade);
            let n = choose|n: int| #[trigger] starts_at(earlier, upgrade, n);
            assert(earlier.take(n) =~= history.take(n));
            assert(starts_at(history, upgrade, n));
        } else {
            assert(started_by(standing(history).step).count(upgrade) > 0);
            assert(history.take(history.len() as int) =~= history);
            assert(starts_at(history, upgrade, history.len() as int));
        }
    }
}

/// The acceptor is the one that expires last of `acceptors`.
pub open spec fn expires_last_of(
    acceptors: Seq<AcceptorWithExpiration>,
    acceptor: AcceptorWithExpiration,
) -> bool {
    exists|k: int| #[trigger] first_to_expire_last(acceptors, k) && acceptors[k] == acceptor
}

/// Over any number of polls of a new stream: a connection is served only at the end of an upgrade
/// whose handshake succeeded. That upgrade was started earlier, on a connection that the listener
/// had yielded, with the acceptor that expired last of those that had come in on the channel by
/// then.
pub proof fn served_connections_were_upgraded<C, S>(history: Seq<Met<C, S>>)
    requires
        possible(history),
        history.len() > 0,
    ensures
        standing(history).step matches PollStep::Return(polled) ==> (serve_step(
            polled,
        ).serve matches Some(stream) ==> {
            &&& history.last().event == PollEvent::<C, S>::Upgraded(
                Polled::Ready(Some(Ok(Ok(stream)))),
            )
            &&& history.last().ended is Some
            &&& exists|n: int|
                {
                    &&& #[trigger] starts_at(
                        history.drop_last(),
                        history.last().ended->Some_0,
                        n,
                    )
                    &&& expires_last_of(
                        received(history.take(n)),
                        history.last().ended->Some_0.acceptor,
                    )
                }
        }),
{
    broadcast use vstd::multiset::group_multiset_axioms;

    let earlier = history.drop_last();
    if ends_upgrade(history.last().event) {
        let upgrade = history.last().ended->Some_0;
        every_accepted_connection_is_accounted_for(earlier);
        assert(started(earlier).count(upgrade) > 0);
        started_at_some_point(earlier, upgrade);
        let n = choose|n: int| #[trigger] starts_at(earlier, upgrade, n);
        assert(earlier.take(n) =~= history.take(n));
        prefix_is_possible(history, n);
        latest_of_all_received(history.take(n));
        let acceptors = received(history.take(n));
        assert(acceptors.len() > 0);
        latest_acceptor_expires_last(acceptors);
        assert(expires_last_of(acceptors, upgrade.acceptor));
    }
}

/// The controller sends `acceptor` for `cert`, whose secret is `secret`.
pub open spec fn sent_for(
    cert: Certificate,
    secret: Secret,
    acceptor: AcceptorWithExpiration,
) -> bool {
    exists|step: ReconcileStep|
        {
            &&& #[trigger] wants_secret(cert_expiration(cert), cert.spec.secret_name@, step)
            &&& step is FetchSecret
            &&& follows_secret(
                step->FetchSecret_expiration,
                Ok(Some(secret)),
                ReconcileStep::SendAcceptor(acceptor),
            )
        }
}

/// The controller sends `acceptor` for some certificate.
pub open spec fn sent_by_controller(acceptor: AcceptorWithExpiration) -> bool {
    exists|cert: Certificate, secret: Secret| #[trigger] sent_for(cert, secret, acceptor)
}

/// `acceptor` presents the chain and the key in `secret`, asks clients for no certificate, and
/// expires when `cert` does.
pub open spec fn is_acceptor_of(
    acceptor: AcceptorWithExpiration,
    cert: Certificate,
    secret: Secret,
) -> bool {
    &&& cert_expiration(cert) == Ok::<Expiration, ServerConfigErrorView>(acceptor.expiration)
    &&& secret.data is Some
    &&& secret_identity(secret.data->Some_0@) == Ok::<TlsIdentityView, ServerConfigErrorView>(
        acceptor_identity(acceptor.acceptor),
    )
    &&& !acceptor_asks_clients(acceptor.acceptor)
}

/// From the cluster to the router: where only the controller sends acceptors, every connection
/// that is served has completed a handshake with the acceptor of a usable certificate, one that
/// the controller had sent before the handshake was started.
pub proof fn connections_are_served_with_usable_certificates<C, S>(history: Seq<Met<C, S>>)
    requires
        possible(history),
        history.len() > 0,
        forall|i: int|
            0 <= i < received(history).len() ==> sent_by_controller(
                #[trigger] received(history)[i],
            ),
    ensures
        standing(history).step matches PollStep::Return(polled) ==> (serve_step(
            polled,
        ).serve matches Some(stream) ==> {
            &&& history.last().event == PollEvent::<C, S>::Upgraded(
                Polled::Ready(Some(Ok(Ok(stream)))),
            )
            &&& history.last().ended is Some
            &&& received(history).contains(history.last().ended->Some_0.acceptor)
            &&& exists|cert: Certificate, secret: Secret| #[trigger]
                is_acceptor_of(history.last().ended->Some_0.acceptor, cert, secret)
        }),
{
    served_connections_were_upgraded(history);
    if let PollStep::Return(polled) = standing(history).step {
        if serve_step(polled).serve is Some {
            let upgrade = history.last().ended->Some_0;
            let n = choose|n: int|
                {
                    &&& #[trigger] starts_at(history.drop_last(), upgrade, n)
                    &&& expires_last_of(received(history.take(n)), upgrade.acceptor)
                };
            let acceptors = received(history.take(n));
            let k = choose|k: int| #[trigger]
                first_to_expire_last(acceptors, k) && acceptors[k] == upgrade.acceptor;
            received_only_grows(history, n);
            assert(received(history)[k] == upgrade.acceptor);
            let (cert, secret) = choose|cert: Certificate, secret: Secret| #[trigger]
                sent_for(cert, secret, upgrade.acceptor);
            assert(is_acceptor_of(upgrade.acceptor, cert, secret));
        }
    }
}

/// What has come in stays first among what comes in.
proof fn received_only_grows<C, S>(history: Seq<Met<C, S>>, n: int)
    requires
        0 <= n <= history.len(),
    ensures
        received(history.take(n)).len() <= received(history).len(),
        forall|i: int|
            0 <= i < received(history.take(n)).len() ==> received(history.take(n))[i]
                == #[trigger] received(history)[i],
    decreases history.len(),
{
    if n == history.len() {
        assert(history.take(n) =~= history);
    } else {
        received_only_grows(history.drop_last(), n);
        assert(history.drop_last().take(n) =~= history.take(n));
    }
}

/// Before the first acceptor has come in, no connection is accepted and none is served.
pub proof fn nothing_is_served_before_the_first_acceptor<C, S>(history: Seq<Met<C, S>>)
    requires
        possible(history),
        received(history).len() == 0,
    ensures
        accepted(history).len() == 0,
        standing(history).step matches PollStep::Return(polled) ==> serve_step(
            polled,
        ).serve is None,
    decreases history.len(),
{
    broadcast use vstd::multiset::group_multiset_axioms;

    if history.len() > 0 {
        let earlier = history.drop_last();
        received_only_grows(history, history.len() - 1);
        assert(history.take(history.len() - 1) =~= earlier);
        nothing_is_served_before_the_first_acceptor(earlier);
        latest_of_all_received(earlier);
        every_accepted_connection_is_accounted_for(earlier);
        if history.last().ended is Some {
            assert(standing(earlier).under_way.count(history.last().ended->Some_0) > 0);
            assert(standing(earlier).under_way.len() == 0);
        }
    }
}

} // verus!
