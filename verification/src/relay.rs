//! Cross-chain event relay: numbering outbound events, acknowledging them,
//! and admitting inbound events once (per sequence number and per nonce)
//! within their freshness window, and the digest a relayer signs.
use vstd::prelude::*;
use crate::errors::ContractError;
use crate::sdk::{is_symbol, relay_xdr, sha256, spec_relay_xdr, spec_sha256};
use crate::types::Hash32;
use soroban_sdk::Env;

verus! {

/// Register a relay key for `source_chain` (approved by the admins): chain
/// 0 is this chain and is refused.
pub fn set_relay_key(source_chain: u32) -> (r: Result<(), ContractError>)
    ensures
        source_chain == 0 <==> r == Err::<(), ContractError>(ContractError::InvalidRelayChain),
        source_chain != 0 <==> r is Ok,
{
    if source_chain == 0 {
        Err(ContractError::InvalidRelayChain)
    } else {
        Ok(())
    }
}

/// Number the next outbound event to `dest_chain` (approved by the admins)
/// after `current_seq`: chain 0 is refused, and so is a sequence number
/// that would overflow.
pub fn relay_emit(dest_chain: u32, current_seq: u64) -> (r: Result<u64, ContractError>)
    ensures
        dest_chain == 0 ==> r == Err::<u64, ContractError>(ContractError::InvalidRelayChain),
        dest_chain != 0 && current_seq == u64::MAX ==> r == Err::<u64, ContractError>(ContractError::ArithmeticError),
        dest_chain != 0 && current_seq < u64::MAX ==> r == Ok::<u64, ContractError>((current_seq + 1) as u64),
{
    if dest_chain == 0 {
        return Err(ContractError::InvalidRelayChain);
    }
    match current_seq.checked_add(1) {
        Some(s) => Ok(s),
        None => Err(ContractError::ArithmeticError),
    }
}

/// An event carried between chains: where it comes from and goes to, its
/// type (a symbol), its payload and its sequence number.
pub struct RelayEvent {
    pub source_chain: u32,
    pub dest_chain: u32,
    pub event_type: String,
    pub payload: Vec<u8>,
    pub seq: u64,
}

/// The digest a relayer signs for `event` attested with `nonce` at
/// `timestamp`: the SHA-256 of the XDR of `(event, nonce, timestamp)`.
pub fn relay_attestation_message(env: &Env, event: &RelayEvent, nonce: u64, timestamp: u64) -> (h: Hash32)
    requires
        is_symbol(event.event_type@),
    ensures
        h == spec_sha256(
            spec_relay_xdr(
                event.source_chain,
                event.dest_chain,
                event.event_type@,
                event.payload@,
                event.seq,
                nonce,
                timestamp,
            ),
        ),
{
    let encoded = relay_xdr(
        env,
        event.source_chain,
        event.dest_chain,
        &event.event_type,
        &event.payload,
        event.seq,
        nonce,
        timestamp,
    );
    sha256(env, &encoded)
}

/// Most seconds an attestation may be dated ahead of the ledger.
pub const MAX_FUTURE_SKEW_SECS: u64 = 60;

/// Most seconds an attestation may be dated behind the ledger.
pub const MAX_ATTESTATION_AGE_SECS: u64 = 600;

/// The first check an inbound event fails, if any, before its signature
/// is checked.
pub open spec fn relay_error(
    source_chain: u32,
    key_configured: bool,
    processed: bool,
    nonce_used: bool,
    attested_at: u64,
    now: u64,
) -> Option<ContractError> {
    if source_chain == 0 {
        Some(ContractError::InvalidRelayChain)
    } else if !key_configured {
        Some(ContractError::RelayKeyNotConfigured)
    } else if processed {
        Some(ContractError::RelayEventAlreadyProcessed)
    } else if nonce_used {
        Some(ContractError::RelayReplayDetected)
    } else if attested_at > now && attested_at - now > 60 {
        Some(ContractError::RelayEventFromFuture)
    } else if attested_at <= now && now - attested_at > 600 {
        Some(ContractError::RelayEventExpired)
    } else {
        None
    }
}

/// What an admitted inbound event marks under its source `chain`: the
/// sequence number `seq` as processed and the `nonce` as used.
#[derive(Clone, Copy, Debug, PartialEq, Eq, Structural)]
pub struct RelayMarks {
    pub chain: u32,
    pub seq: u64,
    pub nonce: u64,
}

/// Admit an inbound event from `source_chain`: refused from chain 0,
/// without a key for the chain, when its sequence number was processed or
/// its nonce used, or when the attestation is dated more than 60 seconds
/// ahead or 600 seconds behind `now`. An admitted event returns what to
/// mark once its signature is checked: its sequence number as processed and
/// its nonce as used, both under `source_chain`.
pub fn relay_message(
    source_chain: u32,
    seq: u64,
    nonce: u64,
    key_configured: bool,
    processed: bool,
    nonce_used: bool,
    attested_at: u64,
    now: u64,
) -> (r: Result<RelayMarks, ContractError>)
    ensures
        r is Err <==> relay_error(source_chain, key_configured, processed, nonce_used, attested_at, now) is Some,
        r is Err ==> r == Err::<RelayMarks, ContractError>(
            relay_error(source_chain, key_configured, processed, nonce_used, attested_at, now)->0,
        ),
        r is Ok ==> r->Ok_0 == (RelayMarks { chain: source_chain, seq, nonce }),
{
    if source_chain == 0 {
        return Err(ContractError::InvalidRelayChain);
    }
    if !key_configured {
        return Err(ContractError::RelayKeyNotConfigured);
    }
    if processed {
        return Err(ContractError::RelayEventAlreadyProcessed);
    }
    if nonce_used {
        return Err(ContractError::RelayReplayDetected);
    }
    if attested_at > now {
        if attested_at.saturating_sub(now) > MAX_FUTURE_SKEW_SECS {
            return Err(ContractError::RelayEventFromFuture);
        }
    } else if now.saturating_sub(attested_at) > MAX_ATTESTATION_AGE_SECS {
        return Err(ContractError::RelayEventExpired);
    }
    Ok(RelayMarks { chain: source_chain, seq, nonce })
}

/// An event admitted once is refused when relayed again, whether under the
/// same sequence number or the same nonce.
pub proof fn lemma_relay_admits_once(source_chain: u32, key_configured: bool, attested_at: u64, now: u64, later: u64)
    requires
        relay_error(source_chain, key_configured, false, false, attested_at, now) is None,
    ensures
        relay_error(source_chain, key_configured, true, false, attested_at, later) == Some(
            ContractError::RelayEventAlreadyProcessed,
        ),
        relay_error(source_chain, key_configured, false, true, attested_at, later) == Some(
            ContractError::RelayReplayDetected,
        ),
{
}

/// Acknowledge the outbound events to `dest_chain` up to `up_to_seq`
/// (approved by the admins): chain 0 and going back below `last_acked` are
/// refused; otherwise the new acknowledged sequence number.
pub fn acknowledge_relay(dest_chain: u32, last_acked: u64, up_to_seq: u64) -> (r: Result<u64, ContractError>)
    ensures
        dest_chain == 0 ==> r == Err::<u64, ContractError>(ContractError::InvalidRelayChain),
        dest_chain != 0 && up_to_seq < last_acked ==> r == Err::<u64, ContractError>(ContractError::RelayAckRegression),
        dest_chain != 0 && up_to_seq >= last_acked ==> r == Ok::<u64, ContractError>(up_to_seq),
        r matches Ok(v) ==> v >= last_acked,
{
    if dest_chain == 0 {
        return Err(ContractError::InvalidRelayChain);
    }
    if up_to_seq < last_acked {
        return Err(ContractError::RelayAckRegression);
    }
    Ok(up_to_seq)
}

} // verus!
