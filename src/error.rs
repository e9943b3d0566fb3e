use vstd::prelude::*;

verus! {

/// One of the two canisters that a client talks to.
#[derive(Clone, Copy, Debug, PartialEq, Eq, Structural)]
pub enum Target {
    /// The canister that holds the counter.
    Counter,
    /// The relay canister that receives the calls and forwards them to the counter.
    Caller,
}

/// Why a client could not be configured or built, or why one of its calls failed.
#[derive(Clone, Debug)]
pub enum ClientError {
    /// The environment tag is neither `local` nor `prod`; the message names the tag.
    InvalidEnvironment(String),
    /// The identifier of a canister was not supplied.
    MissingTarget(Target),
    /// The connection to the endpoint could not be opened.
    AgentCreationFailed(String),
    /// Fetching the root key of a development network failed.
    TrustBootstrapFailed(String),
    /// The textual identifier of a canister is not a valid identity.
    InvalidIdentity(Target, String),
    /// The client was restored from its stored form and holds no connection yet.
    Unrehydrated,
    /// The connection could not tell the identity it acts as.
    IdentityUnavailable(String),
    /// The argument of a call could not be encoded.
    EncodeFailed(String),
    /// The call did not complete its round trip.
    RemoteCallFailed(String),
    /// The reply did not have the expected binary shape.
    DecodeFailed(String),
    /// The relay canister reported a failure.
    RemoteError(String),
}

} // verus!
