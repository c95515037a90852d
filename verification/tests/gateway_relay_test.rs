use soroban_sdk::xdr::ToXdr;
use soroban_sdk::{Bytes, Env, IntoVal, Symbol, Val};
use quorum_credit::attributes::{remove_attribute, set_attribute, AttributeEntry};
use quorum_credit::errors::ContractError;
use quorum_credit::gateway::{max_requests_for, RateLimitTier, UserRole, IDEMPOTENCY_TTL_SECS, RATE_WINDOW_SECS};
use quorum_credit::relay::{acknowledge_relay, relay_emit, relay_message, set_relay_key, RelayMarks};
use quorum_credit::QuorumCreditContract;

#[test]
fn role_tiers_and_allowances() {
    let (tiers, enabled) = QuorumCreditContract::setup_role_based_rate_limits();
    assert!(enabled);
    assert_eq!(tiers.len(), 3);
    assert_eq!(max_requests_for(&tiers, UserRole::Admin), u32::MAX);
    assert_eq!(max_requests_for(&tiers, UserRole::User), 1000);
    assert_eq!(max_requests_for(&tiers, UserRole::Guest), 100);
    // A role no tier names gets the default allowance.
    let only_users = vec![RateLimitTier { role: UserRole::User, max_requests_per_hour: 5 }];
    assert_eq!(max_requests_for(&only_users, UserRole::Guest), 100);
}

#[test]
fn rate_limit_counts_within_the_window_and_refuses_at_the_allowance() {
    let tiers = vec![RateLimitTier { role: UserRole::Guest, max_requests_per_hour: 2 }];
    let (ok, w) = QuorumCreditContract::check_rate_limit(true, &tiers, UserRole::Guest, 100, None);
    assert!(ok);
    assert_eq!(w, Some((100, 1)));
    let (ok, w) = QuorumCreditContract::check_rate_limit(true, &tiers, UserRole::Guest, 200, w);
    assert!(ok);
    assert_eq!(w, Some((100, 2)));
    // The allowance is reached: refused, and the window is left unchanged.
    let (ok, w2) = QuorumCreditContract::check_rate_limit(true, &tiers, UserRole::Guest, 300, w);
    assert!(!ok);
    assert_eq!(w2, None);
    // A new window opens after an hour.
    let (ok, w3) = QuorumCreditContract::check_rate_limit(true, &tiers, UserRole::Guest, 100 + RATE_WINDOW_SECS, w);
    assert!(ok);
    assert_eq!(w3, Some((100 + RATE_WINDOW_SECS, 1)));
}

#[test]
fn rate_limit_off_or_admin_admits_without_recording() {
    let tiers = vec![RateLimitTier { role: UserRole::Guest, max_requests_per_hour: 0 }];
    assert_eq!(QuorumCreditContract::check_rate_limit(false, &tiers, UserRole::Guest, 5, Some((0, 9))), (true, None));
    assert_eq!(QuorumCreditContract::check_rate_limit(true, &tiers, UserRole::Admin, 5, Some((0, 9))), (true, None));
}

#[test]
fn idempotency_key_refuses_repeats_for_a_day() {
    let (fresh, recorded) = QuorumCreditContract::check_idempotency_key(None, 1_000);
    assert!(fresh);
    assert_eq!(recorded, Some(1_000));
    assert_eq!(QuorumCreditContract::check_idempotency_key(recorded, 1_000 + IDEMPOTENCY_TTL_SECS - 1), (false, None));
    assert_eq!(
        QuorumCreditContract::check_idempotency_key(recorded, 1_000 + IDEMPOTENCY_TTL_SECS),
        (true, Some(1_000 + IDEMPOTENCY_TTL_SECS))
    );
}

#[test]
fn relay_numbering_and_keys() {
    assert_eq!(set_relay_key(0), Err(ContractError::InvalidRelayChain));
    assert_eq!(set_relay_key(7), Ok(()));
    assert_eq!(relay_emit(0, 3), Err(ContractError::InvalidRelayChain));
    assert_eq!(relay_emit(7, 3), Ok(4));
    assert_eq!(relay_emit(7, u64::MAX), Err(ContractError::ArithmeticError));
}

#[test]
fn relay_admission_checks_in_order() {
    assert_eq!(relay_message(0, 9, 4, true, false, false, 100, 100), Err(ContractError::InvalidRelayChain));
    assert_eq!(relay_message(2, 9, 4, false, false, false, 100, 100), Err(ContractError::RelayKeyNotConfigured));
    assert_eq!(relay_message(2, 9, 4, true, true, false, 100, 100), Err(ContractError::RelayEventAlreadyProcessed));
    assert_eq!(relay_message(2, 9, 4, true, false, true, 100, 100), Err(ContractError::RelayReplayDetected));
    assert_eq!(relay_message(2, 9, 4, true, false, false, 161, 100), Err(ContractError::RelayEventFromFuture));
    assert_eq!(relay_message(2, 9, 4, true, false, false, 160, 100), Ok(RelayMarks { chain: 2, seq: 9, nonce: 4 }));
    assert_eq!(relay_message(2, 9, 4, true, false, false, 100, 701), Err(ContractError::RelayEventExpired));
    assert_eq!(relay_message(2, 9, 4, true, false, false, 100, 700), Ok(RelayMarks { chain: 2, seq: 9, nonce: 4 }));
}

#[test]
fn relayed_event_is_admitted_once() {
    assert_eq!(relay_message(2, 9, 4, true, false, false, 100, 100), Ok(RelayMarks { chain: 2, seq: 9, nonce: 4 }));
    // Once marked processed (and its nonce used), the same event is refused.
    assert_eq!(relay_message(2, 9, 4, true, true, false, 100, 120), Err(ContractError::RelayEventAlreadyProcessed));
    assert_eq!(relay_message(2, 9, 4, true, false, true, 100, 120), Err(ContractError::RelayReplayDetected));
}

#[test]
fn acknowledgements_never_go_back() {
    assert_eq!(acknowledge_relay(0, 0, 5), Err(ContractError::InvalidRelayChain));
    assert_eq!(acknowledge_relay(3, 5, 4), Err(ContractError::RelayAckRegression));
    assert_eq!(acknowledge_relay(3, 5, 5), Ok(5));
    assert_eq!(acknowledge_relay(3, 5, 9), Ok(9));
}

fn entry(k: &str, v: &str) -> AttributeEntry {
    AttributeEntry { key: k.as_bytes().to_vec(), value: v.as_bytes().to_vec() }
}

fn keys(attrs: &[AttributeEntry]) -> Vec<(String, String)> {
    attrs
        .iter()
        .map(|e| (String::from_utf8(e.key.clone()).unwrap(), String::from_utf8(e.value.clone()).unwrap()))
        .collect()
}

#[test]
fn attributes_overwrite_append_and_remove() {
    let attrs = set_attribute(&Vec::new(), &b"city".to_vec(), &b"Lagos".to_vec()).unwrap();
    let attrs = set_attribute(&attrs, &b"job".to_vec(), &b"baker".to_vec()).unwrap();
    let attrs = set_attribute(&attrs, &b"city".to_vec(), &b"Accra".to_vec()).unwrap();
    assert_eq!(
        keys(&attrs),
        vec![("city".to_string(), "Accra".to_string()), ("job".to_string(), "baker".to_string())]
    );
    let attrs = remove_attribute(&attrs, &b"city".to_vec());
    assert_eq!(keys(&attrs), vec![("job".to_string(), "baker".to_string())]);
    let attrs = remove_attribute(&attrs, &b"missing".to_vec());
    assert_eq!(attrs.len(), 1);
}

#[test]
fn attribute_limits() {
    assert_eq!(set_attribute(&Vec::new(), &Vec::new(), &b"v".to_vec()).err(), Some(ContractError::InvalidAmount));
    assert_eq!(set_attribute(&Vec::new(), &vec![b'k'; 257], &b"v".to_vec()).err(), Some(ContractError::InvalidAmount));
    assert_eq!(set_attribute(&Vec::new(), &b"k".to_vec(), &vec![0u8; 257]).err(), Some(ContractError::InvalidAmount));
    let full: Vec<AttributeEntry> = (0..50).map(|i| entry(&format!("k{}", i), "v")).collect();
    assert_eq!(set_attribute(&full, &b"new".to_vec(), &b"v".to_vec()).err(), Some(ContractError::InvalidAmount));
    // An existing key can still be overwritten when 50 are kept.
    let full = set_attribute(&full, &b"k3".to_vec(), &b"w".to_vec()).unwrap();
    assert_eq!(full.len(), 50);
    assert_eq!(full[3].value, b"w".to_vec());
}

#[test]
fn attestation_digest_is_the_sha256_of_the_event_xdr() {
    let env = Env::default();
    let event = quorum_credit::relay::RelayEvent {
        source_chain: 2,
        dest_chain: 0,
        event_type: "repaid".to_string(),
        payload: vec![1, 2, 3],
        seq: 9,
    };
    let h = quorum_credit::relay::relay_attestation_message(&env, &event, 5, 100);
    let fields: soroban_sdk::Map<Symbol, Val> = soroban_sdk::Map::from_array(
        &env,
        [
            (Symbol::new(&env, "dest_chain"), 0u32.into_val(&env)),
            (Symbol::new(&env, "event_type"), Symbol::new(&env, "repaid").into_val(&env)),
            (Symbol::new(&env, "payload"), Bytes::from_slice(&env, &[1, 2, 3]).into_val(&env)),
            (Symbol::new(&env, "seq"), 9u64.into_val(&env)),
            (Symbol::new(&env, "source_chain"), 2u32.into_val(&env)),
        ],
    );
    let expected: [u8; 32] = env.crypto().sha256(&(fields, 5u64, 100u64).to_xdr(&env)).into();
    let mut got = [0u8; 32];
    got[..16].copy_from_slice(&h.hi.to_be_bytes());
    got[16..].copy_from_slice(&h.lo.to_be_bytes());
    assert_eq!(got, expected);
    // Another nonce gives another digest.
    assert_ne!(quorum_credit::relay::relay_attestation_message(&env, &event, 6, 100), h);
}

#[test]
fn removing_an_attribute_twice_is_removing_it_once() {
    let attrs = set_attribute(&Vec::new(), &b"a".to_vec(), &b"1".to_vec()).unwrap();
    let attrs = set_attribute(&attrs, &b"b".to_vec(), &b"2".to_vec()).unwrap();
    let once = remove_attribute(&attrs, &b"a".to_vec());
    let twice = remove_attribute(&once, &b"a".to_vec());
    assert_eq!(keys(&once), keys(&twice));
    assert_eq!(keys(&twice), vec![("b".to_string(), "2".to_string())]);
}
