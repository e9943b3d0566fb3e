//! A typed client for a counter held by a remote canister and reached through a relay
//! canister: configuration, endpoint selection, identities, the encoding of the calls and
//! the decoding of their replies. Opening connections and waiting for calls is left to the
//! caller, which hands the outcomes back to the client.
pub mod actions;
pub mod client;
pub mod config;
pub mod error;
pub mod identity;
pub mod reply;
pub mod text;

pub use actions::{counter_action_result, CallerAction, CallerResult};
pub use client::{identity_result, ClientBuilder, CounterCall, ICClient};
pub use config::{requires_trust_bootstrap, select_endpoint, Endpoint, ICConfig, LOCAL_URL, MAINNET_URL};
pub use error::{ClientError, Target};
pub use identity::{Identity, MAX_IDENTITY_BYTES};
pub use reply::{interpret_reply, read_reply};
