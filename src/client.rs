use vstd::prelude::*;

use crate::actions::{method_name, reply_outcome, counter_action_result, CallerAction, CallerResult};
use crate::config::{
    lemma_fixed_endpoints_bootstrap, requires_trust_bootstrap, url_requires_trust_bootstrap,
    LOCAL_URL, MAINNET_URL,
};
use crate::error::{ClientError, Target};
use crate::identity::{
    lemma_parse_print_parse, parsed_identity, principal_text, Identity, MAX_IDENTITY_BYTES,
};
use crate::reply::{candid_counter_reply, candid_principal_arg, encode_principal_arg, read_reply};

verus! {

#[verifier::external_type_specification]
#[verifier::external_body]
pub struct ExAgent(ic_agent::Agent);

/// Relies on `ic_agent::Agent::get_principal`: the principal the agent sends as, given as
/// its bytes (a principal holds at most 29).
#[verifier::external_body]
fn agent_principal(agent: &ic_agent::Agent) -> (r: Result<Vec<u8>, String>)
    ensures
        r matches Ok(b) ==> b@.len() <= MAX_IDENTITY_BYTES,
{
    agent.get_principal().map(|p| p.as_slice().to_vec())
}

/// The number of trust-bootstrap round trips that a client of the network at `url` makes
/// before it is ready.
pub open spec fn bootstrap_round_trips_for(url: Seq<char>) -> nat {
    if url_requires_trust_bootstrap(url) {
        1
    } else {
        0
    }
}

/// A client of the local network makes exactly one trust-bootstrap round trip before it is
/// ready, and a client of the production network none.
pub proof fn lemma_endpoint_round_trips()
    ensures
        bootstrap_round_trips_for(LOCAL_URL@) == 1,
        bootstrap_round_trips_for(MAINNET_URL@) == 0,
{
    lemma_fixed_endpoints_bootstrap();
}

/// The client's answer for the connection's identity lookup: the identity (a principal's
/// bytes) that it gave, or the reason it failed.
pub fn identity_result(looked_up: Result<Vec<u8>, String>) -> (r: Result<Identity, ClientError>)
    requires
        looked_up matches Ok(b) ==> b@.len() <= MAX_IDENTITY_BYTES,
    ensures
        looked_up matches Ok(b) ==> (r matches Ok(id) && id@ == b@),
        looked_up matches Err(e) ==> (r matches Err(ClientError::IdentityUnavailable(x)) && x@
            == e@),
{
    match looked_up {
        Ok(bytes) => Ok(Identity::from_bytes(bytes).unwrap()),
        Err(e) => Err(ClientError::IdentityUnavailable(e)),
    }
}

/// A client being built: its connection is open, and the root key of a development
/// network may still have to be fetched.
pub struct ClientBuilder {
    endpoint_url: String,
    agent: ic_agent::Agent,
    bootstrap_pending: bool,
    round_trips: Ghost<nat>,
}

impl ClientBuilder {
    #[verifier::type_invariant]
    spec fn protocol(&self) -> bool {
        &&& self.bootstrap_pending ==> url_requires_trust_bootstrap(self.endpoint_url@)
        &&& self.round_trips@ == if self.bootstrap_pending {
            0
        } else {
            bootstrap_round_trips_for(self.endpoint_url@)
        }
    }

    /// The address of the endpoint.
    pub closed spec fn url(&self) -> Seq<char> {
        self.endpoint_url@
    }

    /// Whether the trust bootstrap is still owed.
    pub closed spec fn pending(&self) -> bool {
        self.bootstrap_pending
    }

    /// The trust-bootstrap round trips made so far.
    pub closed spec fn bootstrap_round_trips(&self) -> nat {
        self.round_trips@
    }

    /// Starts a client of the endpoint at `endpoint_url` from the outcome of opening a
    /// connection to it.
    pub fn connect(endpoint_url: &str, connection: Result<ic_agent::Agent, String>) -> (r: Result<
        ClientBuilder,
        ClientError,
    >)
        ensures
            connection matches Err(m) ==> r matches Err(ClientError::AgentCreationFailed(x))
                && x@ == m@,
            connection is Ok ==> r is Ok,
            r matches Ok(b) ==> {
                &&& b.url() == endpoint_url@
                &&& b.pending() == url_requires_trust_bootstrap(endpoint_url@)
                &&& b.bootstrap_round_trips() == 0
            },
    {
        match connection {
            Ok(agent) => {
                let pending = requires_trust_bootstrap(endpoint_url);
                Ok(
                    ClientBuilder {
                        endpoint_url: endpoint_url.to_owned(),
                        agent,
                        bootstrap_pending: pending,
                        round_trips: Ghost(0),
                    },
                )
            },
            Err(m) => Err(ClientError::AgentCreationFailed(m)),
        }
    }

    /// The open connection.
    pub fn agent(&self) -> &ic_agent::Agent {
        &self.agent
    }

    /// Whether the root key still has to be fetched before the client is ready.
    pub fn needs_trust_bootstrap(&self) -> (r: bool)
        ensures
            r == self.pending(),
    {
        self.bootstrap_pending
    }

    /// Records the outcome of the one trust-bootstrap round trip. A failure ends the
    /// construction; it is not retried.
    pub fn trust_bootstrapped(self, outcome: Result<(), String>) -> (r: Result<
        ClientBuilder,
        ClientError,
    >)
        requires
            self.pending(),
        ensures
            outcome matches Err(m) ==> r matches Err(ClientError::TrustBootstrapFailed(x))
                && x@ == m@,
            outcome is Ok ==> r is Ok,
            r matches Ok(b) ==> {
                &&& b.url() == self.url()
                &&& !b.pending()
                &&& b.bootstrap_round_trips() == self.bootstrap_round_trips() + 1
            },
    {
        proof {
            use_type_invariant(&self);
        }
        match outcome {
            Ok(()) => Ok(
                ClientBuilder {
                    endpoint_url: self.endpoint_url,
                    agent: self.agent,
                    bootstrap_pending: false,
                    round_trips: Ghost(self.round_trips@ + 1),
                },
            ),
            Err(m) => Err(ClientError::TrustBootstrapFailed(m)),
        }
    }

    /// Parses the two canisters' identifiers and gives the ready client; a development
    /// network's client has made its one trust-bootstrap round trip by then, and any other
    /// client none.
    pub fn finish(self, counter_canister_id: &str, caller_canister_id: &str) -> (r: Result<
        ICClient,
        ClientError,
    >)
        requires
            !self.pending(),
        ensures
            parsed_identity(counter_canister_id@) is None ==> r matches Err(
                ClientError::InvalidIdentity(Target::Counter, _),
            ),
            parsed_identity(counter_canister_id@) is Some && parsed_identity(
                caller_canister_id@,
            ) is None ==> r matches Err(ClientError::InvalidIdentity(Target::Caller, _)),
            r is Ok <==> parsed_identity(counter_canister_id@) is Some && parsed_identity(
                caller_canister_id@,
            ) is Some,
            r matches Ok(c) ==> {
                &&& c.is_connected()
                &&& Some(c.counter_id()) == parsed_identity(counter_canister_id@)
                &&& Some(c.caller_id()) == parsed_identity(caller_canister_id@)
                &&& c.trust_bootstrap_round_trips() == bootstrap_round_trips_for(self.url())
            },
    {
        proof {
            use_type_invariant(&self);
        }
        let counter = match Identity::from_text(counter_canister_id) {
            Ok(id) => id,
            Err(e) => return Err(ClientError::InvalidIdentity(Target::Counter, e)),
        };
        let caller = match Identity::from_text(caller_canister_id) {
            Ok(id) => id,
            Err(e) => return Err(ClientError::InvalidIdentity(Target::Caller, e)),
        };
        Ok(
            ICClient {
                agent: Some(self.agent),
                counter_canister_id: counter,
                caller_canister_id: caller,
                round_trips: self.round_trips,
            },
        )
    }
}

/// A call to make through the relay: the relay's identity, the method's name and the
/// encoded argument.
pub struct CounterCall {
    pub canister: Identity,
    pub method: String,
    pub arg: Vec<u8>,
}

/// A client of the counter: a connection and the identities of the counter and of the
/// relay. Its operations change only the remote counter, never the client.
pub struct ICClient {
    agent: Option<ic_agent::Agent>,
    counter_canister_id: Identity,
    caller_canister_id: Identity,
    round_trips: Ghost<nat>,
}

impl ICClient {
    /// The identity of the canister that holds the counter.
    pub closed spec fn counter_id(&self) -> Seq<u8> {
        self.counter_canister_id@
    }

    /// The identity of the relay canister.
    pub closed spec fn caller_id(&self) -> Seq<u8> {
        self.caller_canister_id@
    }

    /// Whether the client holds a connection.
    pub closed spec fn is_connected(&self) -> bool {
        self.agent is Some
    }

    /// The trust-bootstrap round trips made while building the client's connection.
    pub closed spec fn trust_bootstrap_round_trips(&self) -> nat {
        self.round_trips@
    }

    /// Builds a client of the endpoint at `replica_url` from the outcome of opening a
    /// connection to it and, for a development network, the outcome of the one
    /// trust-bootstrap round trip, made once the connection was open; then parses the two
    /// canisters' identifiers. The steps fail in that order.
    pub fn new(
        replica_url: &str,
        counter_canister_id: &str,
        caller_canister_id: &str,
        connection: Result<ic_agent::Agent, String>,
        root_key: Option<Result<(), String>>,
    ) -> (r: Result<ICClient, ClientError>)
        requires
            connection is Ok ==> (root_key is Some <==> url_requires_trust_bootstrap(replica_url@)),
        ensures
            connection matches Err(m) ==> (r matches Err(ClientError::AgentCreationFailed(x))
                && x@ == m@),
            connection is Ok ==> (root_key matches Some(Err(m)) ==> (r matches Err(
                ClientError::TrustBootstrapFailed(x),
            ) && x@ == m@)),
            connection is Ok && !(root_key matches Some(Err(_))) ==> {
                &&& (parsed_identity(counter_canister_id@) is None ==> (r matches Err(
                    ClientError::InvalidIdentity(Target::Counter, _),
                )))
                &&& (parsed_identity(counter_canister_id@) is Some && parsed_identity(
                    caller_canister_id@,
                ) is None ==> (r matches Err(ClientError::InvalidIdentity(Target::Caller, _))))
                &&& (r is Ok <==> parsed_identity(counter_canister_id@) is Some
                    && parsed_identity(caller_canister_id@) is Some)
            },
            r matches Ok(c) ==> {
                &&& c.is_connected()
                &&& Some(c.counter_id()) == parsed_identity(counter_canister_id@)
                &&& Some(c.caller_id()) == parsed_identity(caller_canister_id@)
                &&& parsed_identity(principal_text(c.counter_id())) == Some(c.counter_id())
                &&& parsed_identity(principal_text(c.caller_id())) == Some(c.caller_id())
                &&& c.trust_bootstrap_round_trips() == bootstrap_round_trips_for(replica_url@)
                &&& c.trust_bootstrap_round_trips() == if root_key is Some {
                    1nat
                } else {
                    0nat
                }
            },
    {
        let mut builder = ClientBuilder::connect(replica_url, connection)?;
        if builder.needs_trust_bootstrap() {
            builder = builder.trust_bootstrapped(root_key.unwrap())?;
        }
        let r = builder.finish(counter_canister_id, caller_canister_id);
        proof {
            if r is Ok {
                lemma_parse_print_parse(counter_canister_id@);
                lemma_parse_print_parse(caller_canister_id@);
            }
        }
        r
    }

    /// A client restored from its stored form, which keeps the identities only: it holds
    /// no connection until it is rehydrated.
    pub fn detached(counter_canister_id: Identity, caller_canister_id: Identity) -> (r: ICClient)
        ensures
            !r.is_connected(),
            r.counter_id() == counter_canister_id@,
            r.caller_id() == caller_canister_id@,
    {
        ICClient { agent: None, counter_canister_id, caller_canister_id, round_trips: Ghost(0) }
    }

    /// Gives the client the connection of a finished builder, keeping its identities.
    pub fn rehydrate(&mut self, connection: ClientBuilder)
        requires
            !connection.pending(),
        ensures
            final(self).is_connected(),
            final(self).counter_id() == old(self).counter_id(),
            final(self).caller_id() == old(self).caller_id(),
            final(self).trust_bootstrap_round_trips() == bootstrap_round_trips_for(
                connection.url(),
            ),
    {
        proof {
            use_type_invariant(&connection);
        }
        self.agent = Some(connection.agent);
        self.round_trips = connection.round_trips;
    }

    /// The connection, where the client holds one.
    pub fn agent(&self) -> (r: Option<&ic_agent::Agent>)
        ensures
            r is Some <==> self.is_connected(),
    {
        self.agent.as_ref()
    }

    /// The identities of the counter and of the relay, in that order.
    pub fn get_canister_ids(&self) -> (r: (Identity, Identity))
        ensures
            r.0@ == self.counter_id(),
            r.1@ == self.caller_id(),
    {
        (self.counter_canister_id.duplicate(), self.caller_canister_id.duplicate())
    }

    /// The identity that the client's connection acts as.
    pub fn get_principal(&self) -> (r: Result<Identity, ClientError>)
        ensures
            !self.is_connected() ==> r matches Err(ClientError::Unrehydrated),
            self.is_connected() ==> !(r matches Err(ClientError::Unrehydrated)),
            r matches Err(e) ==> e matches ClientError::Unrehydrated
                || e matches ClientError::IdentityUnavailable(_),
    {
        match &self.agent {
            Some(agent) => identity_result(agent_principal(agent)),
            None => Err(ClientError::Unrehydrated),
        }
    }

    /// The call that carries out an action: addressed to the relay, naming the action's
    /// method, with the counter's identity as its one argument. Every action, reading ones
    /// included, goes through the same state-changing call.
    pub fn call_request(&self, action: CallerAction) -> (r: Result<CounterCall, ClientError>)
        ensures
            !self.is_connected() ==> r matches Err(ClientError::Unrehydrated),
            self.is_connected() ==> r is Ok,
            r matches Ok(call) ==> {
                &&& call.canister@ == self.caller_id()
                &&& call.method@ == method_name(action)
                &&& call.arg@ == candid_principal_arg(self.counter_id())
            },
    {
        if self.agent.is_none() {
            return Err(ClientError::Unrehydrated);
        }
        let counter = self.counter_canister_id.as_bytes();
        match encode_principal_arg(counter) {
            Ok(arg) => Ok(
                CounterCall {
                    canister: self.caller_canister_id.duplicate(),
                    method: action.method(),
                    arg,
                },
            ),
            Err(e) => Err(ClientError::EncodeFailed(e)),
        }
    }

    /// The outcome of an action from the outcome of its call's round trip: a value or a
    /// failure reported by the relay gives an outcome; a failed round trip or a reply that
    /// cannot be decoded gives an error.
    pub fn complete_action(action: CallerAction, reply: Result<Vec<u8>, String>) -> (r: Result<
        CallerResult,
        ClientError,
    >)
        ensures
            reply matches Err(m) ==> r matches Err(ClientError::RemoteCallFailed(x)) && x@ == m@,
            reply matches Ok(b) ==> match reply_outcome(action, candid_counter_reply(b@)) {
                Some(o) => r matches Ok(res) && res@ == o,
                None => r matches Err(ClientError::DecodeFailed(_)),
            },
            r matches Ok(o) ==> o@.consistent(),
    {
        counter_action_result(action, read_reply(reply))
    }
}

} // verus!
