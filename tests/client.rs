use candid::{Nat, Principal};
use onboarding_counter::{
    counter_action_result, identity_result, interpret_reply, read_reply, CallerAction, ClientBuilder, ClientError,
    CounterCall, ICClient, Identity, Target, LOCAL_URL, MAINNET_URL,
};

const COUNTER: &str = "u6s2n-gx777-77774-qaaba-cai";
const RELAY: &str = "uxrrr-q7777-77774-qaaaq-cai";

fn agent(url: &str) -> Result<ic_agent::Agent, String> {
    ic_agent::Agent::builder().with_url(url).build().map_err(|e| e.to_string())
}

fn ready_client(url: &str) -> ICClient {
    let mut builder = ClientBuilder::connect(url, agent(url)).unwrap();
    if builder.needs_trust_bootstrap() {
        builder = builder.trust_bootstrapped(Ok(())).unwrap();
    }
    builder.finish(COUNTER, RELAY).unwrap()
}

fn reply_value(n: u64) -> Vec<u8> {
    candid::encode_one(Ok::<Nat, String>(Nat::from(n))).unwrap()
}

fn reply_failure(m: &str) -> Vec<u8> {
    candid::encode_one(Err::<Nat, String>(m.to_string())).unwrap()
}

/// A relay that holds a counter and answers calls as the remote one does.
struct SimulatedRelay {
    relay: Principal,
    counter: Principal,
    value: u64,
}

impl SimulatedRelay {
    fn handle(&mut self, call: &CounterCall) -> Result<Vec<u8>, String> {
        if call.canister.as_bytes() != self.relay.as_slice() {
            return Err("no such canister".to_string());
        }
        let target: Principal = candid::decode_one(&call.arg).map_err(|e| e.to_string())?;
        if target != self.counter {
            return Ok(reply_failure("unknown counter"));
        }
        match call.method.as_str() {
            "call_get" => {}
            "call_increment" => self.value += 1,
            "call_decrement" => {
                if self.value == 0 {
                    return Ok(reply_failure("counter is already zero"));
                }
                self.value -= 1
            }
            _ => return Err("no such method".to_string()),
        }
        Ok(reply_value(self.value))
    }
}

fn perform(client: &ICClient, relay: &mut SimulatedRelay, action: CallerAction) -> Result<String, ClientError> {
    let call = client.call_request(action)?;
    read_reply(relay.handle(&call))
}

#[test]
fn local_construction_makes_one_bootstrap() {
    let builder = ClientBuilder::connect(LOCAL_URL, agent(LOCAL_URL)).unwrap();
    assert!(builder.needs_trust_bootstrap());
    let builder = builder.trust_bootstrapped(Ok(())).unwrap();
    assert!(!builder.needs_trust_bootstrap());
    let client = builder.finish(COUNTER, RELAY).unwrap();
    assert!(client.agent().is_some());
}

#[test]
fn production_construction_makes_no_bootstrap() {
    let builder = ClientBuilder::connect(MAINNET_URL, agent(MAINNET_URL)).unwrap();
    assert!(!builder.needs_trust_bootstrap());
    assert!(builder.finish(COUNTER, RELAY).is_ok());
}

#[test]
fn failed_connection_is_agent_creation_failed() {
    let r = ClientBuilder::connect(LOCAL_URL, Err("refused".to_string()));
    assert!(matches!(r, Err(ClientError::AgentCreationFailed(m)) if m == "refused"));
}

#[test]
fn failed_bootstrap_ends_construction() {
    let builder = ClientBuilder::connect(LOCAL_URL, agent(LOCAL_URL)).unwrap();
    let r = builder.trust_bootstrapped(Err("no status".to_string()));
    assert!(matches!(r, Err(ClientError::TrustBootstrapFailed(m)) if m == "no status"));
}

#[test]
fn invalid_identities_are_named() {
    let builder = ClientBuilder::connect(MAINNET_URL, agent(MAINNET_URL)).unwrap();
    let r = builder.finish("bad", RELAY);
    assert!(matches!(r, Err(ClientError::InvalidIdentity(Target::Counter, _))));
    let builder = ClientBuilder::connect(MAINNET_URL, agent(MAINNET_URL)).unwrap();
    let r = builder.finish(COUNTER, "bad");
    assert!(matches!(r, Err(ClientError::InvalidIdentity(Target::Caller, _))));
}

#[test]
fn local_scenario_reaches_ready_and_knows_its_principal() {
    let client = ready_client(LOCAL_URL);
    let me = client.get_principal().unwrap();
    let text = me.to_text();
    let again = Identity::from_text(&text).unwrap();
    assert!(again.same_as(&me));
    assert_eq!(text, "2vxsx-fae");
}

#[test]
fn canister_ids_are_kept() {
    let client = ready_client(MAINNET_URL);
    let (counter, relay) = client.get_canister_ids();
    assert_eq!(counter.to_text(), COUNTER);
    assert_eq!(relay.to_text(), RELAY);
}

#[test]
fn calls_go_to_the_relay_with_the_counter_as_argument() {
    let client = ready_client(MAINNET_URL);
    let expected_arg = candid::encode_args((Principal::from_text(COUNTER).unwrap(),)).unwrap();
    for (action, method) in [
        (CallerAction::Get, "call_get"),
        (CallerAction::Increment, "call_increment"),
        (CallerAction::Decrement, "call_decrement"),
    ] {
        let call = client.call_request(action).unwrap();
        assert_eq!(call.canister.to_text(), RELAY);
        assert_eq!(call.method, method);
        assert_eq!(call.arg, expected_arg);
        assert_ne!(call.arg, Principal::from_text(COUNTER).unwrap().as_slice().to_vec());
    }
}

#[test]
fn detached_client_is_unrehydrated() {
    let counter = Identity::from_text(COUNTER).unwrap();
    let relay = Identity::from_text(RELAY).unwrap();
    let mut client = ICClient::detached(counter, relay);
    assert!(client.agent().is_none());
    assert!(matches!(client.call_request(CallerAction::Get), Err(ClientError::Unrehydrated)));
    assert!(matches!(client.get_principal(), Err(ClientError::Unrehydrated)));
    let builder = ClientBuilder::connect(MAINNET_URL, agent(MAINNET_URL)).unwrap();
    client.rehydrate(builder);
    assert!(client.agent().is_some());
    assert_eq!(client.call_request(CallerAction::Get).unwrap().method, "call_get");
    assert_eq!(client.get_canister_ids().0.to_text(), COUNTER);
}

#[test]
fn value_reply_is_read_as_decimal() {
    assert_eq!(read_reply(Ok(reply_value(5))).unwrap(), "5");
    assert_eq!(read_reply(Ok(reply_value(0))).unwrap(), "0");
    assert_eq!(read_reply(Ok(reply_value(1_000_000))).unwrap(), "1_000_000");
    let big = Nat::parse(b"123456789012345678901234567890").unwrap();
    let bytes = candid::encode_one(Ok::<Nat, String>(big)).unwrap();
    assert_eq!(read_reply(Ok(bytes)).unwrap(), "123_456_789_012_345_678_901_234_567_890");
}

#[test]
fn remote_failure_is_remote_error() {
    let r = read_reply(Ok(reply_failure("boom")));
    assert!(matches!(r, Err(ClientError::RemoteError(m)) if m == "boom"));
}

#[test]
fn malformed_reply_is_decode_failed() {
    let mut bytes = reply_value(42);
    bytes.truncate(bytes.len() - 1);
    assert!(matches!(read_reply(Ok(bytes)), Err(ClientError::DecodeFailed(_))));
    assert!(matches!(read_reply(Ok(vec![1, 2, 3])), Err(ClientError::DecodeFailed(_))));
    let wrong_shape = candid::encode_one(7u8).unwrap();
    assert!(matches!(read_reply(Ok(wrong_shape)), Err(ClientError::DecodeFailed(_))));
}

#[test]
fn failed_round_trip_is_remote_call_failed() {
    let r = read_reply(Err("timeout".to_string()));
    assert!(matches!(r, Err(ClientError::RemoteCallFailed(m)) if m == "timeout"));
}

#[test]
fn interpret_reply_maps_each_arm() {
    assert_eq!(interpret_reply(Ok(Ok("3".to_string()))).unwrap(), "3");
    assert!(matches!(interpret_reply(Ok(Err("x".to_string()))), Err(ClientError::RemoteError(m)) if m == "x"));
    assert!(matches!(interpret_reply(Err("bad".to_string())), Err(ClientError::DecodeFailed(m)) if m == "bad"));
}

#[test]
fn remote_failure_becomes_unsuccessful_outcome() {
    let o = ICClient::complete_action(CallerAction::Decrement, Ok(reply_failure("underflow"))).unwrap();
    assert!(!o.success);
    assert_eq!(o.error, Some("underflow".to_string()));
    assert_eq!(o.value, "");
    assert_eq!(o.action, CallerAction::Decrement);
}

#[test]
fn malformed_reply_has_no_outcome() {
    let r = ICClient::complete_action(CallerAction::Get, Ok(vec![0x44, 0x49]));
    assert!(matches!(r, Err(ClientError::DecodeFailed(_))));
    let r = ICClient::complete_action(CallerAction::Get, Err("down".to_string()));
    assert!(matches!(r, Err(ClientError::RemoteCallFailed(_))));
}

#[test]
fn value_becomes_successful_outcome() {
    let o = ICClient::complete_action(CallerAction::Increment, Ok(reply_value(8))).unwrap();
    assert!(o.success);
    assert_eq!(o.value, "8");
    assert_eq!(o.error, None);
    assert_eq!(o.action, CallerAction::Increment);
}

#[test]
fn action_result_passes_other_errors_on() {
    let r = counter_action_result(CallerAction::Get, Err(ClientError::Unrehydrated));
    assert!(matches!(r, Err(ClientError::Unrehydrated)));
    let o = counter_action_result(CallerAction::Get, Ok("1".to_string())).unwrap();
    assert!(o.success && o.error.is_none() && o.value == "1");
}

#[test]
fn get_increment_get_observes_one_more() {
    let client = ready_client(LOCAL_URL);
    let mut relay = SimulatedRelay {
        relay: Principal::from_text(RELAY).unwrap(),
        counter: Principal::from_text(COUNTER).unwrap(),
        value: 41,
    };
    let before = perform(&client, &mut relay, CallerAction::Get).unwrap();
    let during = perform(&client, &mut relay, CallerAction::Increment).unwrap();
    let after = perform(&client, &mut relay, CallerAction::Get).unwrap();
    assert_eq!(before, "41");
    assert_eq!(during, "42");
    assert_eq!(after, "42");
    let down = perform(&client, &mut relay, CallerAction::Decrement).unwrap();
    assert_eq!(down, "41");
}

#[test]
fn relay_failure_reaches_the_caller() {
    let client = ready_client(LOCAL_URL);
    let mut relay = SimulatedRelay {
        relay: Principal::from_text(RELAY).unwrap(),
        counter: Principal::from_text(COUNTER).unwrap(),
        value: 0,
    };
    let r = perform(&client, &mut relay, CallerAction::Decrement);
    assert!(matches!(r, Err(ClientError::RemoteError(m)) if m == "counter is already zero"));
}

#[test]
fn new_local_client_takes_one_bootstrap() {
    let c = ICClient::new(LOCAL_URL, COUNTER, RELAY, agent(LOCAL_URL), Some(Ok(()))).unwrap();
    assert!(c.agent().is_some());
    let (counter, relay) = c.get_canister_ids();
    assert_eq!(counter.to_text(), COUNTER);
    assert_eq!(relay.to_text(), RELAY);
    assert!(Identity::from_text(&counter.to_text()).unwrap().same_as(&counter));
}

#[test]
fn new_production_client_takes_none() {
    let c = ICClient::new(MAINNET_URL, COUNTER, RELAY, agent(MAINNET_URL), None).unwrap();
    assert!(c.agent().is_some());
}

#[test]
fn new_client_fails_in_step_order() {
    let r = ICClient::new(LOCAL_URL, "bad", RELAY, Err("no agent".to_string()), None);
    assert!(matches!(r, Err(ClientError::AgentCreationFailed(m)) if m == "no agent"));
    let r = ICClient::new(LOCAL_URL, "bad", RELAY, agent(LOCAL_URL), Some(Err("down".to_string())));
    assert!(matches!(r, Err(ClientError::TrustBootstrapFailed(m)) if m == "down"));
    let r = ICClient::new(LOCAL_URL, "bad", "bad", agent(LOCAL_URL), Some(Ok(())));
    assert!(matches!(r, Err(ClientError::InvalidIdentity(Target::Counter, _))));
    let r = ICClient::new(MAINNET_URL, COUNTER, "bad", agent(MAINNET_URL), None);
    assert!(matches!(r, Err(ClientError::InvalidIdentity(Target::Caller, _))));
}

#[test]
fn identity_lookup_result_is_passed_on() {
    let id = identity_result(Ok(vec![4u8])).unwrap();
    assert_eq!(id.to_text(), "2vxsx-fae");
    let r = identity_result(Err("no identity".to_string()));
    assert!(matches!(r, Err(ClientError::IdentityUnavailable(m)) if m == "no identity"));
}

#[test]
fn call_argument_has_the_candid_layout() {
    let client = ready_client(MAINNET_URL);
    let call = client.call_request(CallerAction::Increment).unwrap();
    let counter = Principal::from_text(COUNTER).unwrap();
    let mut expected = vec![0x44, 0x49, 0x44, 0x4c, 0x00, 0x01, 0x68, 0x01, counter.as_slice().len() as u8];
    expected.extend_from_slice(counter.as_slice());
    assert_eq!(call.arg, expected);
}
