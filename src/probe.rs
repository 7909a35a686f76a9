//! The decisions of an external-address probe: bind the local endpoint, send
//! one binding-discovery request to the rendezvous server, and report what
//! came back. The caller performs each action and hands back what happened.
use vstd::prelude::*;

use crate::address::{IpAddress, Ipv4Address, SocketEndpoint};

verus! {

/// Seconds to wait for the rendezvous server's reply.
pub const DEFAULT_TIMEOUT_SECS: u64 = 5;

/// Port of the testnet rendezvous server.
pub const TESTNET_SERVER_PORT: u16 = 3478;

/// Where binding-discovery requests go, and how long to wait for a reply.
#[derive(Clone, Copy, Debug, PartialEq, Eq, Structural)]
pub struct RendezvousConfig {
    pub server: SocketEndpoint,
    pub timeout_secs: u64,
}

/// The rendezvous server of the testnet infrastructure, 159.223.0.83:3478.
pub open spec fn spec_testnet_server() -> SocketEndpoint {
    SocketEndpoint { ip: IpAddress::V4(Ipv4Address(159, 223, 0, 83)), port: TESTNET_SERVER_PORT }
}

impl RendezvousConfig {
    pub fn new(server: SocketEndpoint, timeout_secs: u64) -> (r: RendezvousConfig)
        ensures
            r.server == server,
            r.timeout_secs == timeout_secs,
    {
        RendezvousConfig { server, timeout_secs }
    }

    /// The testnet rendezvous server with the default timeout.
    pub fn testnet() -> (r: RendezvousConfig)
        ensures
            r.server == spec_testnet_server(),
            r.timeout_secs == DEFAULT_TIMEOUT_SECS,
    {
        RendezvousConfig {
            server: SocketEndpoint::new(
                IpAddress::V4(Ipv4Address(159, 223, 0, 83)),
                TESTNET_SERVER_PORT,
            ),
            timeout_secs: DEFAULT_TIMEOUT_SECS,
        }
    }
}

/// A structural failure of a probe: the local endpoint could not be bound.
#[derive(Clone, Copy, Debug, PartialEq, Eq, Structural)]
pub enum ProbeError {
    BindFailed,
}

/// What a probe reports: `Err` on a structural failure, otherwise the
/// external endpoint if one was learned.
pub type ProbeOutcome = Result<Option<SocketEndpoint>, ProbeError>;

/// Where a probe stands.
#[derive(Clone, Copy, Debug)]
pub enum ProbeState {
    /// The local endpoint is not bound yet.
    Unbound,
    /// The socket is bound; the query is outstanding.
    Querying,
    /// The probe is over.
    Finished(ProbeOutcome),
}

/// What the caller is to do next.
#[derive(Clone, Copy, Debug)]
pub enum ProbeAction {
    /// Bind a datagram socket exclusively to this endpoint.
    Bind(SocketEndpoint),
    /// From the bound socket, send one binding request to `server` and wait
    /// at most `timeout_secs` for the reply.
    Query { server: SocketEndpoint, timeout_secs: u64 },
    /// Hand this outcome to whoever asked for the probe.
    Report(ProbeOutcome),
}

/// What happened when the caller performed an action.
#[derive(Clone, Copy, Debug, PartialEq, Eq, Structural)]
pub enum ProbeEvent {
    /// The socket was bound.
    Bound,
    /// The socket could not be bound (the port is taken, say).
    BindFailed,
    /// The server replied with the endpoint it saw the request come from.
    Replied(SocketEndpoint),
    /// No usable reply: timeout, unreachable server, malformed reply.
    QueryFailed,
}

/// The state after `event` in `state`. An event that does not belong to the
/// state leaves it as it is; a finished probe stays finished.
pub open spec fn next_state(state: ProbeState, event: ProbeEvent) -> ProbeState {
    match (state, event) {
        (ProbeState::Unbound, ProbeEvent::Bound) => ProbeState::Querying,
        (ProbeState::Unbound, ProbeEvent::BindFailed) => ProbeState::Finished(
            Err(ProbeError::BindFailed),
        ),
        (ProbeState::Querying, ProbeEvent::Replied(e)) => ProbeState::Finished(Ok(Some(e))),
        (ProbeState::Querying, ProbeEvent::QueryFailed) => ProbeState::Finished(Ok(None)),
        _ => state,
    }
}

/// A probe of the endpoint `local`, asking the server of `config`.
#[derive(Clone, Copy, Debug)]
pub struct ExternalProbe {
    pub local: SocketEndpoint,
    pub config: RendezvousConfig,
    pub state: ProbeState,
}

/// The action that a probe in `p`'s state asks for.
pub open spec fn action_of(p: ExternalProbe) -> ProbeAction {
    match p.state {
        ProbeState::Unbound => ProbeAction::Bind(p.local),
        ProbeState::Querying => ProbeAction::Query {
            server: p.config.server,
            timeout_secs: p.config.timeout_secs,
        },
        ProbeState::Finished(outcome) => ProbeAction::Report(outcome),
    }
}

/// The probe after a sequence of events, from `p`.
pub open spec fn run_events(p: ExternalProbe, events: Seq<ProbeEvent>) -> ExternalProbe
    decreases events.len(),
{
    if events.len() == 0 {
        p
    } else {
        run_events(
            ExternalProbe { state: next_state(p.state, events[0]), ..p },
            events.drop_first(),
        )
    }
}

/// A probe that has not started yet.
pub open spec fn fresh_probe(local: SocketEndpoint, config: RendezvousConfig) -> ExternalProbe {
    ExternalProbe { local, config, state: ProbeState::Unbound }
}

impl ExternalProbe {
    /// A probe of `local`, not bound yet.
    pub fn new(local: SocketEndpoint, config: RendezvousConfig) -> (r: ExternalProbe)
        ensures
            r == fresh_probe(local, config),
    {
        ExternalProbe { local, config, state: ProbeState::Unbound }
    }

    /// What the caller is to do next.
    pub fn next_action(&self) -> (r: ProbeAction)
        ensures
            r == action_of(*self),
    {
        match self.state {
            ProbeState::Unbound => ProbeAction::Bind(self.local),
            ProbeState::Querying => ProbeAction::Query {
                server: self.config.server,
                timeout_secs: self.config.timeout_secs,
            },
            ProbeState::Finished(outcome) => ProbeAction::Report(outcome),
        }
    }

    /// Takes in what happened when the last action was performed.
    pub fn on_event(&mut self, event: ProbeEvent)
        ensures
            final(self).local == old(self).local,
            final(self).config == old(self).config,
            final(self).state == next_state(old(self).state, event),
    {
        let next = match (self.state, event) {
            (ProbeState::Unbound, ProbeEvent::Bound) => ProbeState::Querying,
            (ProbeState::Unbound, ProbeEvent::BindFailed) => ProbeState::Finished(
                Err(ProbeError::BindFailed),
            ),
            (ProbeState::Querying, ProbeEvent::Replied(e)) => ProbeState::Finished(Ok(Some(e))),
            (ProbeState::Querying, ProbeEvent::QueryFailed) => ProbeState::Finished(Ok(None)),
            (state, _) => state,
        };
        self.state = next;
    }

    /// The outcome, once the probe is over.
    pub fn outcome(&self) -> (r: Option<ProbeOutcome>)
        ensures
            r == (match self.state {
                ProbeState::Finished(o) => Some(o),
                _ => None,
            }),
    {
        match self.state {
            ProbeState::Finished(o) => Some(o),
            _ => None,
        }
    }
}

/// A probe starts by binding exactly the endpoint it was given.
pub proof fn lemma_probe_binds_given_endpoint(local: SocketEndpoint, config: RendezvousConfig)
    ensures
        action_of(fresh_probe(local, config)) == ProbeAction::Bind(local),
{
}

/// A failed bind is reported as a structural error, never as an absent
/// endpoint, and nothing that happens afterwards changes that.
pub proof fn lemma_bind_failure_is_structural(
    local: SocketEndpoint,
    config: RendezvousConfig,
    later: Seq<ProbeEvent>,
)
    ensures
        action_of(run_events(fresh_probe(local, config), seq![ProbeEvent::BindFailed] + later))
            == ProbeAction::Report(Err(ProbeError::BindFailed)),
{
    let p = fresh_probe(local, config);
    let events = seq![ProbeEvent::BindFailed] + later;
    assert(events.drop_first() =~= later);
    lemma_finished_stays(
        ExternalProbe { state: ProbeState::Finished(Err(ProbeError::BindFailed)), ..p },
        later,
    );
}

/// Once finished, a probe keeps its outcome whatever events follow.
pub proof fn lemma_finished_stays(p: ExternalProbe, events: Seq<ProbeEvent>)
    requires
        p.state is Finished,
    ensures
        run_events(p, events) == p,
    decreases events.len(),
{
    if events.len() > 0 {
        assert(next_state(p.state, events[0]) == p.state);
        assert((ExternalProbe { state: next_state(p.state, events[0]), ..p }) == p);
        lemma_finished_stays(p, events.drop_first());
    }
}

/// After a successful bind, the query goes to the configured server with the
/// configured timeout; the endpoint in the server's reply is reported as it
/// came.
pub proof fn lemma_reply_is_reported(
    local: SocketEndpoint,
    config: RendezvousConfig,
    observed: SocketEndpoint,
)
    ensures
        action_of(run_events(fresh_probe(local, config), seq![ProbeEvent::Bound]))
            == (ProbeAction::Query { server: config.server, timeout_secs: config.timeout_secs }),
        action_of(
            run_events(
                fresh_probe(local, config),
                seq![ProbeEvent::Bound, ProbeEvent::Replied(observed)],
            ),
        ) == ProbeAction::Report(Ok(Some(observed))),
{
    reveal_with_fuel(run_events, 3);
    let one = seq![ProbeEvent::Bound];
    let two = seq![ProbeEvent::Bound, ProbeEvent::Replied(observed)];
    assert(one.drop_first() =~= Seq::<ProbeEvent>::empty());
    assert(two.drop_first() =~= seq![ProbeEvent::Replied(observed)]);
    assert(two.drop_first().drop_first() =~= Seq::<ProbeEvent>::empty());
}

/// After a successful bind, a query that gets no usable reply is reported as
/// an absent endpoint, not as an error.
pub proof fn lemma_no_reply_is_absent(local: SocketEndpoint, config: RendezvousConfig)
    ensures
        action_of(
            run_events(fresh_probe(local, config), seq![ProbeEvent::Bound, ProbeEvent::QueryFailed]),
        ) == ProbeAction::Report(Ok(None)),
{
    reveal_with_fuel(run_events, 3);
    let two = seq![ProbeEvent::Bound, ProbeEvent::QueryFailed];
    assert(two.drop_first() =~= seq![ProbeEvent::QueryFailed]);
    assert(two.drop_first().drop_first() =~= Seq::<ProbeEvent>::empty());
}

} // verus!
