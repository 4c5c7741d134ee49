//! Upgrading incoming connections to TLS with the acceptor that expires last.
//!
//! A poll of the stream of upgraded connections alternates between asking the outside world and
//! deciding what to ask next. The decisions are here: [`AcceptorStream::poll_next`] takes an
//! answer and gives the next step. The first step of every poll is [`PollStep::PollReceiver`].

use crate::expiration::{later, same_moment, Expiration};
use tokio::task::JoinError;
use tokio_rustls::TlsAcceptor;
use vstd::prelude::*;

verus! {

/// An acceptor and the moment at which its certificate expires.
pub struct AcceptorWithExpiration {
    pub expiration: Expiration,
    pub acceptor: TlsAcceptor,
}

impl Clone for AcceptorWithExpiration {
    fn clone(&self) -> (copy: Self)
        ensures
            copy == *self,
    {
        AcceptorWithExpiration { expiration: self.expiration, acceptor: self.acceptor.clone() }
    }
}

/// Why a connection could not be accepted.
#[derive(Debug)]
pub enum AcceptError {
    /// The TCP connection could not be established.
    TcpConnectError(std::io::Error),
    /// The TLS handshake failed.
    TlsHandshakeError(std::io::Error),
    /// There is no acceptor, probably because the certificate or its secret is not ready.
    NoAcceptor,
    /// The task that upgraded the connection did not run to its end.
    JoinError(JoinError),
    /// The listener has no more connections.
    TcpListenerStreamNone,
}

/// What polling a source gave.
pub enum Polled<T> {
    Ready(T),
    Pending,
}

/// What to do next in a poll of the stream. `C` is a TCP connection, `S` an upgraded one.
pub enum PollStep<C, S> {
    /// Poll the channel on which new acceptors come.
    PollReceiver,
    /// Poll the listener for a connection to upgrade with `acceptor`.
    PollListener { acceptor: AcceptorWithExpiration },
    /// Start upgrading `connection` with `acceptor`, then poll the listener again.
    StartUpgrade { acceptor: AcceptorWithExpiration, connection: C },
    /// Poll the upgrades that are under way.
    PollUpgrades,
    /// The poll is over.
    Return(Polled<Option<Result<S, AcceptError>>>),
}

/// What came of a step.
pub enum PollEvent<C, S> {
    /// The channel of acceptors was polled.
    Received(Polled<Option<AcceptorWithExpiration>>),
    /// The listener was polled for a connection to upgrade with `acceptor`.
    Accepted {
        acceptor: AcceptorWithExpiration,
        polled: Polled<Option<Result<C, std::io::Error>>>,
    },
    /// The upgrades were polled.
    Upgraded(Polled<Option<Result<Result<S, AcceptError>, JoinError>>>),
}

/// An acceptor that comes in takes the place of the latest one if it expires later.
pub open spec fn replaces(
    latest: Option<AcceptorWithExpiration>,
    incoming: AcceptorWithExpiration,
) -> bool {
    match latest {
        None => true,
        Some(existing) => later(incoming.expiration, existing.expiration),
    }
}

/// The latest acceptor once `incoming` has come in.
pub open spec fn offered(
    latest: Option<AcceptorWithExpiration>,
    incoming: AcceptorWithExpiration,
) -> Option<AcceptorWithExpiration> {
    if replaces(latest, incoming) {
        Some(incoming)
    } else {
        latest
    }
}

/// The latest acceptor, ready if there is one.
pub open spec fn available(latest: Option<AcceptorWithExpiration>) -> Polled<
    AcceptorWithExpiration,
> {
    match latest {
        Some(acceptor) => Polled::Ready(acceptor),
        None => Polled::Pending,
    }
}

/// The latest acceptor and the next step after the channel was polled: as long as it yields
/// acceptors it is polled again; then connections are accepted, if there is an acceptor.
pub open spec fn after_receiving<C, S>(
    latest: Option<AcceptorWithExpiration>,
    received: Polled<Option<AcceptorWithExpiration>>,
) -> (Option<AcceptorWithExpiration>, PollStep<C, S>) {
    match received {
        Polled::Ready(Some(incoming)) => (offered(latest, incoming), PollStep::PollReceiver),
        _ => match latest {
            Some(acceptor) => (latest, PollStep::PollListener { acceptor }),
            None => (latest, PollStep::PollUpgrades),
        },
    }
}

/// The next step after the listener was polled: a connection is upgraded, a failure ends the
/// poll, and when nothing is there the upgrades are polled.
pub open spec fn after_accepting<C, S>(
    acceptor: AcceptorWithExpiration,
    polled: Polled<Option<Result<C, std::io::Error>>>,
) -> PollStep<C, S> {
    match polled {
        Polled::Ready(Some(Ok(connection))) => PollStep::StartUpgrade { acceptor, connection },
        Polled::Ready(Some(Err(error))) => PollStep::Return(
            Polled::Ready(Some(Err(AcceptError::TcpConnectError(error)))),
        ),
        _ => PollStep::PollUpgrades,
    }
}

/// What a poll gives once the upgrades were polled. That none is under way does not end the
/// stream.
pub open spec fn upgrade_result<S>(
    polled: Polled<Option<Result<Result<S, AcceptError>, JoinError>>>,
) -> Polled<Option<Result<S, AcceptError>>> {
    match polled {
        Polled::Pending => Polled::Pending,
        Polled::Ready(None) => Polled::Pending,
        Polled::Ready(Some(Err(error))) => Polled::Ready(Some(Err(AcceptError::JoinError(error)))),
        Polled::Ready(Some(Ok(upgraded))) => Polled::Ready(Some(upgraded)),
    }
}

/// The latest acceptor and the next step after `event`.
pub open spec fn next<C, S>(
    latest: Option<AcceptorWithExpiration>,
    event: PollEvent<C, S>,
) -> (Option<AcceptorWithExpiration>, PollStep<C, S>) {
    match event {
        PollEvent::Received(received) => after_receiving(latest, received),
        PollEvent::Accepted { acceptor, polled } => (latest, after_accepting(acceptor, polled)),
        PollEvent::Upgraded(polled) => (latest, PollStep::Return(upgrade_result(polled))),
    }
}

/// The stream of upgraded connections: it keeps the acceptor that expires last.
pub struct AcceptorStream {
    latest_acceptor: Option<AcceptorWithExpiration>,
}

impl View for AcceptorStream {
    type V = Option<AcceptorWithExpiration>;

    /// The latest acceptor.
    closed spec fn view(&self) -> Option<AcceptorWithExpiration> {
        self.latest_acceptor
    }
}

impl AcceptorStream {
    /// A stream that has no acceptor yet.
    pub fn new() -> (stream: AcceptorStream)
        ensures
            stream@ is None,
    {
        AcceptorStream { latest_acceptor: None }
    }

    /// Carries a poll on from `event`.
    pub fn poll_next<C, S>(&mut self, event: PollEvent<C, S>) -> (step: PollStep<C, S>)
        ensures
            (final(self)@, step) == next(old(self)@, event),
    {
        match event {
            PollEvent::Received(received) => self.poll_tls_upgrades(received),
            PollEvent::Accepted { acceptor, polled } => Self::start_tls_upgrades(acceptor, polled),
            PollEvent::Upgraded(polled) => PollStep::Return(
                match polled {
                    Polled::Pending => Polled::Pending,
                    Polled::Ready(None) => Polled::Pending,
                    Polled::Ready(Some(Err(error))) => Polled::Ready(
                        Some(Err(AcceptError::JoinError(error))),
                    ),
                    Polled::Ready(Some(Ok(upgraded))) => Polled::Ready(Some(upgraded)),
                },
            ),
        }
    }

    /// Goes on to the listener once the channel is drained and there is an acceptor.
    pub fn poll_tls_upgrades<C, S>(
        &mut self,
        received: Polled<Option<AcceptorWithExpiration>>,
    ) -> (step: PollStep<C, S>)
        ensures
            (final(self)@, step) == after_receiving::<C, S>(old(self)@, received),
    {
        match self.poll_latest_acceptor(received) {
            None => PollStep::PollReceiver,
            Some(Polled::Pending) => PollStep::PollUpgrades,
            Some(Polled::Ready(acceptor)) => PollStep::PollListener { acceptor },
        }
    }

    /// Decides what becomes of a poll of the listener.
    pub fn start_tls_upgrades<C, S>(
        acceptor: AcceptorWithExpiration,
        polled: Polled<Option<Result<C, std::io::Error>>>,
    ) -> (step: PollStep<C, S>)
        ensures
            step == after_accepting::<C, S>(acceptor, polled),
    {
        match polled {
            Polled::Ready(Some(Err(error))) => PollStep::Return(
                Polled::Ready(Some(Err(AcceptError::TcpConnectError(error)))),
            ),
            Polled::Ready(Some(Ok(connection))) => PollStep::StartUpgrade { acceptor, connection },
            _ => PollStep::PollUpgrades,
        }
    }

    /// Takes in an acceptor from the channel, and then wants the channel polled again (`None`);
    /// once the channel has no more, gives the latest acceptor.
    pub fn poll_latest_acceptor(&mut self, received: Polled<Option<AcceptorWithExpiration>>) -> (r:
        Option<Polled<AcceptorWithExpiration>>)
        ensures
            match received {
                Polled::Ready(Some(incoming)) => {
                    &&& final(self)@ == offered(old(self)@, incoming)
                    &&& r is None
                },
                _ => {
                    &&& final(self)@ == old(self)@
                    &&& r == Some(available(old(self)@))
                },
            },
    {
        if let Polled::Ready(Some(acceptor)) = received {
            if self.should_replace_acceptor(&acceptor) {
                self.latest_acceptor = Some(acceptor);
            }
            return None;
        }
        match &self.latest_acceptor {
            Some(acceptor) => Some(Polled::Ready(acceptor.clone())),
            None => Some(Polled::Pending),
        }
    }

    /// Whether `incoming_acceptor` expires later than the latest acceptor.
    pub fn should_replace_acceptor(&self, incoming_acceptor: &AcceptorWithExpiration) -> (r: bool)
        ensures
            r == replaces(self@, *incoming_acceptor),
    {
        match &self.latest_acceptor {
            None => true,
            Some(existing_acceptor) => incoming_acceptor.expiration.is_later_than(
                &existing_acceptor.expiration,
            ),
        }
    }
}

/// What the task that upgrades a connection ends with.
pub fn tls_result<S>(handshake: Result<S, std::io::Error>) -> (r: Result<S, AcceptError>)
    ensures
        r == (match handshake {
            Ok(stream) => Ok::<S, AcceptError>(stream),
            Err(error) => Err(AcceptError::TlsHandshakeError(error)),
        }),
{
    match handshake {
        Ok(stream) => Ok(stream),
        Err(error) => Err(AcceptError::TlsHandshakeError(error)),
    }
}

/// The latest acceptor once all of `received` have come in, in order.
pub open spec fn latest_after(
    latest: Option<AcceptorWithExpiration>,
    received: Seq<AcceptorWithExpiration>,
) -> Option<AcceptorWithExpiration>
    decreases received.len(),
{
    if received.len() == 0 {
        latest
    } else {
        offered(latest_after(latest, received.drop_last()), received.last())
    }
}

/// The acceptor at `k` expires last: later than all before it and no earlier than all after it.
pub open spec fn first_to_expire_last(received: Seq<AcceptorWithExpiration>, k: int) -> bool {
    &&& 0 <= k < received.len()
    &&& forall|j: int|
        0 <= j < k ==> later(received[k].expiration, (#[trigger] received[j]).expiration)
    &&& forall|j: int|
        k < j < received.len() ==> !later(
            (#[trigger] received[j]).expiration,
            received[k].expiration,
        )
}

/// Of all the acceptors that came in, the latest one is the one that expires last; of those that
/// expire at the same moment, the one that came first.
pub proof fn latest_acceptor_expires_last(received: Seq<AcceptorWithExpiration>)
    requires
        received.len() > 0,
    ensures
        exists|k: int|
            #[trigger] first_to_expire_last(received, k) && latest_after(None, received) == Some(
                received[k],
            ),
    decreases received.len(),
{
    let earlier = received.drop_last();
    let last = received.len() - 1;
    if earlier.len() == 0 {
        assert(latest_after(None, earlier) is None);
        assert(first_to_expire_last(received, 0));
    } else {
        latest_acceptor_expires_last(earlier);
        let k = choose|k: int|
            #[trigger] first_to_expire_last(earlier, k) && latest_after(None, earlier) == Some(
                earlier[k],
            );
        assert forall|j: int| 0 <= j < earlier.len() implies #[trigger] received[j]
            == earlier[j] by {}
        if later(received[last].expiration, received[k].expiration) {
            assert(first_to_expire_last(received, last));
        } else {
            assert(first_to_expire_last(received, k));
        }
    }
}

/// Once there is an acceptor there always is one, and its expiration never moves to an earlier
/// moment: it is kept, or replaced by one of `received` that expires later.
pub proof fn latest_acceptor_never_moves_back(
    existing: AcceptorWithExpiration,
    received: Seq<AcceptorWithExpiration>,
)
    ensures
        latest_after(Some(existing), received) matches Some(acceptor) && {
            ||| acceptor == existing
            ||| received.contains(acceptor) && later(acceptor.expiration, existing.expiration)
        },
    decreases received.len(),
{
    if received.len() > 0 {
        let earlier = received.drop_last();
        latest_acceptor_never_moves_back(existing, earlier);
        let before = latest_after(Some(existing), earlier)->Some_0;
        assert(received[received.len() - 1] == received.last());
        if !replaces(Some(before), received.last()) && before != existing {
            let i = choose|i: int| 0 <= i < earlier.len() && earlier[i] == before;
            assert(received[i] == before);
        }
    }
}

/// The moment at which the latest acceptor expires does not depend on the order in which the
/// acceptors came in.
pub proof fn order_of_arrival_does_not_matter(
    one: Seq<AcceptorWithExpiration>,
    other: Seq<AcceptorWithExpiration>,
)
    requires
        one.to_multiset() == other.to_multiset(),
    ensures
        match (latest_after(None, one), latest_after(None, other)) {
            (Some(a), Some(b)) => same_moment(a.expiration, b.expiration),
            (None, None) => true,
            _ => false,
        },
{
    one.to_multiset_ensures();
    other.to_multiset_ensures();
    if one.len() > 0 {
        latest_acceptor_expires_last(one);
        latest_acceptor_expires_last(other);
        let k = choose|k: int|
            #[trigger] first_to_expire_last(one, k) && latest_after(None, one) == Some(one[k]);
        let l = choose|l: int|
            #[trigger] first_to_expire_last(other, l) && latest_after(None, other) == Some(
                other[l],
            );
        assert(one.contains(one[k]) && other.contains(other[l]));
        assert(one.to_multiset().count(one[k]) > 0);
        assert(other.to_multiset().count(other[l]) > 0);
        assert(other.contains(one[k]) && one.contains(other[l]));
        let i = choose|i: int| 0 <= i < other.len() && other[i] == one[k];
        let j = choose|j: int| 0 <= j < one.len() && one[j] == other[l];
        assert(!later(other[i].expiration, other[l].expiration));
        assert(!later(one[j].expiration, one[k].expiration));
    }
}

/// `event` is an answer to `step`.
pub open spec fn answers<C, S>(step: PollStep<C, S>, event: PollEvent<C, S>) -> bool {
    match step {
        PollStep::PollReceiver => event is Received,
        PollStep::PollListener { acceptor } => event matches PollEvent::Accepted {
            acceptor: with,
            ..
        } && with == acceptor,
        PollStep::StartUpgrade { acceptor, .. } => event matches PollEvent::Accepted {
            acceptor: with,
            ..
        } && with == acceptor,
        PollStep::PollUpgrades => event is Upgraded,
        PollStep::Return(_) => false,
    }
}

/// The latest acceptor and the next step of a poll after `events`.
pub open spec fn run<C, S>(
    latest: Option<AcceptorWithExpiration>,
    events: Seq<PollEvent<C, S>>,
) -> (Option<AcceptorWithExpiration>, PollStep<C, S>)
    decreases events.len(),
{
    if events.len() == 0 {
        (latest, PollStep::PollReceiver)
    } else {
        next(run(latest, events.drop_last()).0, events.last())
    }
}

/// Each of `events` answers the step that comes before it in a poll.
pub open spec fn answered<C, S>(
    latest: Option<AcceptorWithExpiration>,
    events: Seq<PollEvent<C, S>>,
) -> bool
    decreases events.len(),
{
    events.len() == 0 || {
        &&& answered(latest, events.drop_last())
        &&& answers(run(latest, events.drop_last()).1, events.last())
    }
}

/// The acceptors that came in during `events`, in order.
pub open spec fn acceptors_in<C, S>(events: Seq<PollEvent<C, S>>) -> Seq<AcceptorWithExpiration>
    decreases events.len(),
{
    if events.len() == 0 {
        Seq::empty()
    } else {
        match events.last() {
            PollEvent::Received(Polled::Ready(Some(acceptor))) => acceptors_in(
                events.drop_last(),
            ).push(acceptor),
            _ => acceptors_in(events.drop_last()),
        }
    }
}

/// A poll takes in every acceptor that the channel yields, and nothing else changes the latest
/// acceptor.
pub proof fn poll_takes_in_all_acceptors<C, S>(
    latest: Option<AcceptorWithExpiration>,
    events: Seq<PollEvent<C, S>>,
)
    ensures
        run(latest, events).0 == latest_after(latest, acceptors_in(events)),
    decreases events.len(),
{
    if events.len() > 0 {
        poll_takes_in_all_acceptors(latest, events.drop_last());
        if let PollEvent::Received(Polled::Ready(Some(acceptor))) = events.last() {
            let before = acceptors_in(events.drop_last());
            assert(before.push(acceptor).drop_last() =~= before);
        }
    }
}

/// Connections are taken, and upgraded, with no other acceptor than the latest one.
pub proof fn upgrades_use_the_latest_acceptor<C, S>(
    latest: Option<AcceptorWithExpiration>,
    events: Seq<PollEvent<C, S>>,
)
    requires
        answered(latest, events),
    ensures
        run(latest, events).1 matches PollStep::PollListener { acceptor } ==> run(
            latest,
            events,
        ).0 == Some(acceptor),
        run(latest, events).1 matches PollStep::StartUpgrade { acceptor, .. } ==> run(
            latest,
            events,
        ).0 == Some(acceptor),
    decreases events.len(),
{
    if events.len() > 0 {
        upgrades_use_the_latest_acceptor(latest, events.drop_last());
    }
}

/// As long as no acceptor has come in, no connection is taken.
pub proof fn no_connection_without_an_acceptor<C, S>(events: Seq<PollEvent<C, S>>)
    requires
        answered(None, events),
        acceptors_in(events).len() == 0,
    ensures
        !(run(None, events).1 is PollListener),
        !(run(None, events).1 is StartUpgrade),
{
    upgrades_use_the_latest_acceptor(None, events);
    poll_takes_in_all_acceptors(None, events);
}

/// A poll never says that the stream has ended.
pub proof fn stream_never_ends<C, S>(
    latest: Option<AcceptorWithExpiration>,
    events: Seq<PollEvent<C, S>>,
)
    ensures
        run(latest, events).1 matches PollStep::Return(result) ==> !(result matches Polled::Ready(
            None,
        )),
{
}

/// A poll gives an upgraded connection only when its upgrade has succeeded, and fails only with
/// what its last step met: a failure of the listener, of a task, or of an upgrade.
pub proof fn poll_gives_what_its_last_step_met<C, S>(
    latest: Option<AcceptorWithExpiration>,
    events: Seq<PollEvent<C, S>>,
)
    ensures
        run(latest, events).1 matches PollStep::Return(
            Polled::Ready(Some(Ok(stream))),
        ) ==> events.len() > 0 && events.last() == PollEvent::<C, S>::Upgraded(
            Polled::Ready(Some(Ok(Ok(stream)))),
        ),
        run(latest, events).1 matches PollStep::Return(
            Polled::Ready(Some(Err(error))),
        ) ==> events.len() > 0 && match events.last() {
            PollEvent::Received(_) => false,
            PollEvent::Accepted { polled, .. } => polled matches Polled::Ready(Some(Err(met)))
                && error == AcceptError::TcpConnectError(met),
            PollEvent::Upgraded(Polled::Ready(Some(Err(met)))) => error == AcceptError::JoinError(
                met,
            ),
            PollEvent::Upgraded(Polled::Ready(Some(Ok(Err(met))))) => error == met,
            PollEvent::Upgraded(_) => false,
        },
{
}

/// Unless the listener fails, a poll looks at the upgrades before it returns, so that those it has
/// started wake the task.
pub proof fn poll_looks_at_the_upgrades<C, S>(
    latest: Option<AcceptorWithExpiration>,
    events: Seq<PollEvent<C, S>>,
)
    ensures
        run(latest, events).1 is Return ==> events.len() > 0 && match events.last() {
            PollEvent::Received(_) => false,
            PollEvent::Accepted { polled, .. } => polled matches Polled::Ready(Some(Err(_))),
            PollEvent::Upgraded(_) => true,
        },
{
}

/// Every connection that the listener yields is upgraded, with the acceptor it was taken for.
pub proof fn every_connection_is_upgraded<C, S>(
    latest: Option<AcceptorWithExpiration>,
    events: Seq<PollEvent<C, S>>,
    i: int,
)
    requires
        0 <= i < events.len(),
    ensures
        events[i] matches PollEvent::Accepted {
            acceptor,
            polled: Polled::Ready(Some(Ok(connection))),
        } ==> run(latest, events.take(i + 1)).1 == (PollStep::<C, S>::StartUpgrade {
            acceptor,
            connection,
        }),
{
    assert(events.take(i + 1).last() == events[i]);
}

/// Before a poll goes on from the channel it has found the channel without a further acceptor.
pub proof fn poll_drains_the_channel<C, S>(
    latest: Option<AcceptorWithExpiration>,
    events: Seq<PollEvent<C, S>>,
)
    requires
        answered(latest, events),
        !(run(latest, events).1 is PollReceiver),
    ensures
        exists|i: int|
            {
                &&& 0 <= i < events.len()
                &&& (#[trigger] events[i]) is Received
                &&& events[i]->Received_0 is Pending || events[i]->Received_0->Ready_0 is None
            },
    decreases events.len(),
{
    let earlier = events.drop_last();
    if events.last() is Received {
        assert(events[events.len() - 1] is Received);
    } else {
        poll_drains_the_channel(latest, earlier);
        let i = choose|i: int|
            {
                &&& 0 <= i < earlier.len()
                &&& (#[trigger] earlier[i]) is Received
                &&& earlier[i]->Received_0 is Pending || earlier[i]->Received_0->Ready_0 is None
            };
        assert(events[i] == earlier[i]);
    }
}

/// A poll of a stream that has an acceptor does not return before it has polled the listener until
/// that has no further connection.
pub proof fn poll_drains_the_listener<C, S>(
    latest: Option<AcceptorWithExpiration>,
    events: Seq<PollEvent<C, S>>,
)
    requires
        answered(latest, events),
        run(latest, events).1 is Return,
        run(latest, events).0 is Some,
    ensures
        exists|i: int|
            {
                &&& 0 <= i < events.len()
                &&& (#[trigger] events[i]) is Accepted
                &&& {
                    ||| events[i]->Accepted_polled is Pending
                    ||| events[i]->Accepted_polled->Ready_0 is None
                    ||| events[i]->Accepted_polled->Ready_0->Some_0 is Err
                }
            },
{
    let n = events.len() - 1;
    if events.last() is Accepted {
        assert(events[n] is Accepted);
    } else {
        let earlier = events.drop_last();
        assert(run(latest, earlier).1 is PollUpgrades);
        assert(earlier.last() == events[n - 1]);
        assert(events[n - 1] is Accepted);
    }
}

/// Taking in some acceptors and then others is taking in all of them.
pub proof fn acceptors_are_taken_in_one_after_another(
    latest: Option<AcceptorWithExpiration>,
    first: Seq<AcceptorWithExpiration>,
    second: Seq<AcceptorWithExpiration>,
)
    ensures
        latest_after(latest_after(latest, first), second) == latest_after(latest, first + second),
    decreases second.len(),
{
    if second.len() == 0 {
        assert(first + second =~= first);
    } else {
        acceptors_are_taken_in_one_after_another(latest, first, second.drop_last());
        assert((first + second).drop_last() =~= first + second.drop_last());
        assert((first + second).last() == second.last());
    }
}

/// A connection is upgraded with the acceptor that expires last of all that have come in so far:
/// `earlier` before this poll and the others during it.
pub proof fn connections_are_upgraded_with_the_acceptor_that_expires_last<C, S>(
    earlier: Seq<AcceptorWithExpiration>,
    events: Seq<PollEvent<C, S>>,
)
    requires
        answered(latest_after(None, earlier), events),
    ensures
        run(latest_after(None, earlier), events).1 matches PollStep::StartUpgrade { acceptor, .. }
            ==> exists|k: int|
            {
                &&& #[trigger] first_to_expire_last(earlier + acceptors_in(events), k)
                &&& acceptor == (earlier + acceptors_in(events))[k]
            },
{
    let latest = latest_after(None, earlier);
    let all = earlier + acceptors_in(events);
    upgrades_use_the_latest_acceptor(latest, events);
    poll_takes_in_all_acceptors(latest, events);
    acceptors_are_taken_in_one_after_another(None, earlier, acceptors_in(events));
    if run(latest, events).1 is StartUpgrade {
        assert(latest_after(None, all) is Some);
        assert(all.len() > 0);
        latest_acceptor_expires_last(all);
    }
}

} // verus!
