use vstd::prelude::*;
use vstd::string::StringExecFns;

use crate::error::{ClientError, Target};
use crate::text::{same_text, seq_contains, str_contains};

verus! {

/// The address of the local development network.
pub const LOCAL_URL: &'static str = "http://127.0.0.1:4943";

/// The address of the production network.
pub const MAINNET_URL: &'static str = "https://ic0.app";

/// Where a client runs and which canisters it talks to, as text.
#[derive(Clone, Debug)]
pub struct ICConfig {
    pub deployment_env: String,
    pub counter_canister_id: String,
    pub caller_canister_id: String,
}

impl ICConfig {
    /// A configuration holding the three values as given.
    pub fn new(deployment_env: String, counter_canister_id: String, caller_canister_id: String) -> (r: Self)
        ensures
            r.deployment_env@ == deployment_env@,
            r.counter_canister_id@ == counter_canister_id@,
            r.caller_canister_id@ == caller_canister_id@,
    {
        ICConfig { deployment_env, counter_canister_id, caller_canister_id }
    }

    /// The canisters of a local deployment.
    pub fn default_local() -> (r: Self)
        ensures
            r.deployment_env@ == "local"@,
            r.counter_canister_id@ == "u6s2n-gx777-77774-qaaba-cai"@,
            r.caller_canister_id@ == "uxrrr-q7777-77774-qaaaq-cai"@,
    {
        ICConfig {
            deployment_env: String::from_str("local"),
            counter_canister_id: String::from_str("u6s2n-gx777-77774-qaaba-cai"),
            caller_canister_id: String::from_str("uxrrr-q7777-77774-qaaaq-cai"),
        }
    }

    /// The canisters of the production deployment.
    pub fn default_mainnet() -> (r: Self)
        ensures
            r.deployment_env@ == "prod"@,
            r.counter_canister_id@ == "qmgff-sqaaa-aaaad-qhowa-cai"@,
            r.caller_canister_id@ == "qzbui-tyaaa-aaaad-qhovq-cai"@,
    {
        ICConfig {
            deployment_env: String::from_str("prod"),
            counter_canister_id: String::from_str("qmgff-sqaaa-aaaad-qhowa-cai"),
            caller_canister_id: String::from_str("qzbui-tyaaa-aaaad-qhovq-cai"),
        }
    }

    /// The configuration from looked-up settings (`DEPLOYMENT_ENV`, `COUNTER_CANISTER_ID`,
    /// `CALLER_CANISTER_ID`): a missing canister identifier is an error, checked for the
    /// counter first; a missing environment tag means `local`.
    pub fn from_lookup(
        deployment_env: Option<String>,
        counter_canister_id: Option<String>,
        caller_canister_id: Option<String>,
    ) -> (r: Result<Self, ClientError>)
        ensures
            counter_canister_id is None ==> r matches Err(ClientError::MissingTarget(Target::Counter)),
            counter_canister_id is Some && caller_canister_id is None ==> r matches Err(
                ClientError::MissingTarget(Target::Caller),
            ),
            r is Ok <==> counter_canister_id is Some && caller_canister_id is Some,
            r matches Ok(c) ==> {
                &&& c.counter_canister_id@ == counter_canister_id->Some_0@
                &&& c.caller_canister_id@ == caller_canister_id->Some_0@
                &&& c.deployment_env@ == match deployment_env {
                    Some(e) => e@,
                    None => "local"@,
                }
            },
    {
        let counter = match counter_canister_id {
            Some(c) => c,
            None => return Err(ClientError::MissingTarget(Target::Counter)),
        };
        let caller = match caller_canister_id {
            Some(c) => c,
            None => return Err(ClientError::MissingTarget(Target::Caller)),
        };
        let env = match deployment_env {
            Some(e) => e,
            None => String::from_str("local"),
        };
        Ok(ICConfig::new(env, counter, caller))
    }
}

impl ICConfig {
    /// The endpoint that the configuration's environment tag names (see `select_endpoint`).
    pub fn endpoint(&self) -> (r: Result<Endpoint, ClientError>)
        ensures
            self.deployment_env@ == "local"@ ==> (r matches Ok(e) && e.url@ == LOCAL_URL@
                && e.requires_trust_bootstrap),
            self.deployment_env@ == "prod"@ ==> (r matches Ok(e) && e.url@ == MAINNET_URL@
                && !e.requires_trust_bootstrap),
            self.deployment_env@ != "local"@ && self.deployment_env@ != "prod"@ ==> (r matches Err(
                ClientError::InvalidEnvironment(m),
            ) && m@ == invalid_environment_message(self.deployment_env@)),
    {
        select_endpoint(self.deployment_env.as_str())
    }
}

/// A network to talk to: its address, and whether its root key has to be fetched before
/// any call can be verified.
#[derive(Clone, Debug)]
pub struct Endpoint {
    pub url: String,
    pub requires_trust_bootstrap: bool,
}

/// A development network is recognised by a loopback address or `localhost` in its URL.
pub open spec fn url_requires_trust_bootstrap(url: Seq<char>) -> bool {
    seq_contains(url, "127.0.0.1"@) || seq_contains(url, "localhost"@)
}

/// Whether a client of the network at `url` has to fetch its root key first.
pub fn requires_trust_bootstrap(url: &str) -> (r: bool)
    ensures
        r == url_requires_trust_bootstrap(url@),
{
    str_contains(url, "127.0.0.1") || str_contains(url, "localhost")
}

/// The message of an environment tag that names no network.
pub open spec fn invalid_environment_message(tag: Seq<char>) -> Seq<char> {
    "Invalid DEPLOYMENT_ENV: "@ + tag + ". Must be 'local' or 'prod'"@
}

/// The message of an unknown environment tag names the tag.
pub proof fn lemma_invalid_environment_message_names_tag(tag: Seq<char>)
    ensures
        seq_contains(invalid_environment_message(tag), tag),
{
    let prefix = "Invalid DEPLOYMENT_ENV: "@;
    let m = invalid_environment_message(tag);
    assert(m.subrange(prefix.len() as int, (prefix.len() + tag.len()) as int) =~= tag);
}

/// The local network is a development network and the production network is not.
pub proof fn lemma_fixed_endpoints_bootstrap()
    ensures
        url_requires_trust_bootstrap(LOCAL_URL@),
        !url_requires_trust_bootstrap(MAINNET_URL@),
{
    reveal_strlit("http://127.0.0.1:4943");
    reveal_strlit("https://ic0.app");
    reveal_strlit("127.0.0.1");
    reveal_strlit("localhost");
    let local = LOCAL_URL@;
    assert(local.subrange(7, (7 + "127.0.0.1"@.len()) as int) =~= "127.0.0.1"@);
    assert(seq_contains(local, "127.0.0.1"@));
    let main = MAINNET_URL@;
    assert forall|i: int| 0 <= i && i + 9 <= main.len() implies #[trigger] main.subrange(i, i + 9)
        != "127.0.0.1"@ && main.subrange(i, i + 9) != "localhost"@ by {
        assert(main.subrange(i, i + 9)[0] == main[i]);
    }
}

/// The endpoint that an environment tag names: `local` the local network, `prod` the
/// production network; any other tag is refused, with a message that names it.
pub fn select_endpoint(deployment_env: &str) -> (r: Result<Endpoint, ClientError>)
    ensures
        deployment_env@ == "local"@ ==> (r matches Ok(e) && e.url@ == LOCAL_URL@
            && e.requires_trust_bootstrap),
        deployment_env@ == "prod"@ ==> (r matches Ok(e) && e.url@ == MAINNET_URL@
            && !e.requires_trust_bootstrap),
        deployment_env@ != "local"@ && deployment_env@ != "prod"@ ==> (r matches Err(
            ClientError::InvalidEnvironment(m),
        ) && m@ == invalid_environment_message(deployment_env@)),
        r matches Ok(e) ==> e.requires_trust_bootstrap == url_requires_trust_bootstrap(e.url@),
{
    proof {
        lemma_fixed_endpoints_bootstrap();
        reveal_strlit("local");
        reveal_strlit("prod");
        assert("local"@.len() != "prod"@.len());
    }
    if same_text(deployment_env, "local") {
        Ok(Endpoint { url: String::from_str(LOCAL_URL), requires_trust_bootstrap: true })
    } else if same_text(deployment_env, "prod") {
        Ok(Endpoint { url: String::from_str(MAINNET_URL), requires_trust_bootstrap: false })
    } else {
        let mut m = String::from_str("Invalid DEPLOYMENT_ENV: ");
        m.append(deployment_env);
        m.append(". Must be 'local' or 'prod'");
        Err(ClientError::InvalidEnvironment(m))
    }
}

} // verus!
