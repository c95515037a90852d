//! Quorum-slice self-healing: detecting failed attestors and replacing a
//! failed validator of a slice, with the attestors' failure bookkeeping.
use vstd::prelude::*;
use crate::errors::ContractError;
use crate::types::Address;

verus! {

/// A quorum slice: its validators and how many must agree.
pub struct QuorumSlice {
    pub id: u64,
    pub validators: Vec<Address>,
    pub threshold: u32,
    pub self_healing_enabled: bool,
    pub created_at: u64,
    pub last_healed_at: u64,
    pub failed_count: u32,
}

/// An attestor and its failure record.
#[derive(Clone, Copy, Debug, PartialEq, Eq, Structural)]
pub struct Attestor {
    pub address: Address,
    pub is_active: bool,
    pub failure_count: u32,
    pub last_failure_at: u64,
    pub joined_at: u64,
}

/// A replacement made by self-healing.
#[derive(Clone, Copy, Debug, PartialEq, Eq, Structural)]
pub struct HealingEvent {
    pub slice_id: u64,
    pub failed_attestor: Address,
    pub replacement_attestor: Address,
    pub executed_at: u64,
    pub executed_by: Address,
}

/// The failed attestors of a slice at a point in time.
pub struct FailureDetection {
    pub slice_id: u64,
    pub failed_attestors: Vec<Address>,
    pub detection_time: u64,
    pub is_critical: bool,
}

/// Seconds after a failure during which an attestor still counts as failed.
pub const RECENT_FAILURE_SECS: u64 = 3_600;

/// Failures after which an attestor is deactivated.
pub const MAX_ATTESTOR_FAILURES: u32 = 3;

/// Create a slice of `validators` needing `threshold` of them (at least one
/// and at most all) at `now`.
pub fn create_quorum_slice(slice_id: u64, validators: Vec<Address>, threshold: u32, now: u64) -> (r: Result<
    QuorumSlice,
    ContractError,
>)
    ensures
        threshold == 0 || threshold > validators@.len() ==> r is Err && r->Err_0 == ContractError::InvalidThreshold,
        !(threshold == 0 || threshold > validators@.len()) ==> r is Ok && {
            let s = r->Ok_0;
            &&& s.id == slice_id
            &&& s.validators@ == validators@
            &&& s.threshold == threshold
            &&& !s.self_healing_enabled
            &&& s.created_at == now
            &&& s.last_healed_at == 0
            &&& s.failed_count == 0
        },
{
    if threshold == 0 || threshold as usize > validators.len() {
        return Err(ContractError::InvalidThreshold);
    }
    Ok(QuorumSlice {
        id: slice_id,
        validators,
        threshold,
        self_healing_enabled: false,
        created_at: now,
        last_healed_at: 0,
        failed_count: 0,
    })
}

/// Turn self-healing on for a slice (by an admin) at `now`.
pub fn enable_slice_self_healing(slice: &mut QuorumSlice, now: u64)
    ensures
        final(slice).self_healing_enabled,
        final(slice).last_healed_at == now,
        final(slice).id == old(slice).id,
        final(slice).validators@ == old(slice).validators@,
        final(slice).threshold == old(slice).threshold,
        final(slice).created_at == old(slice).created_at,
        final(slice).failed_count == old(slice).failed_count,
{
    slice.self_healing_enabled = true;
    slice.last_healed_at = now;
}

/// An attestor counts as failed when inactive, failed three times or more,
/// or failed within the last hour.
pub open spec fn attestor_failed(a: Attestor, now: u64) -> bool {
    !a.is_active || a.failure_count >= 3 || (if now > a.last_failure_at { now - a.last_failure_at } else { 0 }) < 3600
}

/// The addresses of the failed attestors, in order.
pub open spec fn failed_addresses(attestors: Seq<Attestor>, now: u64) -> Seq<Address>
    decreases attestors.len(),
{
    if attestors.len() == 0 {
        Seq::empty()
    } else {
        let rest = failed_addresses(attestors.drop_last(), now);
        if attestor_failed(attestors.last(), now) { rest.push(attestors.last().address) } else { rest }
    }
}

/// Detect the failed attestors of a slice at `now`; the failure is
/// critical when at least the slice's threshold of them failed.
pub fn detect_automatic_failure(slice: &QuorumSlice, attestors: &Vec<Attestor>, now: u64) -> (r: Result<
    FailureDetection,
    ContractError,
>)
    requires
        attestors@.len() <= u32::MAX,
    ensures
        r is Ok && {
            let d = r->Ok_0;
            &&& d.slice_id == slice.id
            &&& d.failed_attestors@ == failed_addresses(attestors@, now)
            &&& d.detection_time == now
            &&& d.is_critical == (failed_addresses(attestors@, now).len() >= slice.threshold)
        },
{
    let mut failed: Vec<Address> = Vec::new();
    let mut count: u32 = 0;
    let mut i: usize = 0;
    while i < attestors.len()
        invariant
            i <= attestors@.len() <= u32::MAX,
            failed@ == failed_addresses(attestors@.subrange(0, i as int), now),
            count == failed@.len(),
            count <= i,
        decreases attestors@.len() - i,
    {
        assert(attestors@.subrange(0, i + 1).drop_last() == attestors@.subrange(0, i as int));
        assert(attestors@.subrange(0, i + 1).last() == attestors@[i as int]);
        let a = attestors[i];
        if !a.is_active || a.failure_count >= MAX_ATTESTOR_FAILURES || now.saturating_sub(a.last_failure_at)
            < RECENT_FAILURE_SECS {
            failed.push(a.address);
            count = count + 1;
        }
        i = i + 1;
    }
    assert(attestors@.subrange(0, attestors@.len() as int) == attestors@);
    Ok(FailureDetection { slice_id: slice.id, failed_attestors: failed, detection_time: now, is_critical: count >= slice.threshold })
}

/// Position of the first occurrence of `x` in `s` (meaningful when `s`
/// contains it).
pub open spec fn first_index(s: Seq<Address>, x: Address) -> int {
    choose|i: int| 0 <= i < s.len() && s[i] == x && forall|j: int| 0 <= j < i ==> #[trigger] s[j] != x
}

/// Replace the first validator of a self-healing slice equal to
/// `failed_attestor` with `replacement_attestor` at `now`; the slice's heal
/// time and failure count (saturating) are updated. `contract` is the
/// address the replacement is made by.
pub fn replace_failed_attestor(
    slice: &mut QuorumSlice,
    failed_attestor: Address,
    replacement_attestor: Address,
    now: u64,
    contract: Address,
) -> (r: Result<HealingEvent, ContractError>)
    ensures
        !old(slice).self_healing_enabled ==> r is Err && r->Err_0 == ContractError::SelfHealingDisabled
            && final(slice).validators@ == old(slice).validators@,
        old(slice).self_healing_enabled && !old(slice).validators@.contains(failed_attestor) ==> r is Err && r->Err_0
            == ContractError::NotFound && final(slice).validators@ == old(slice).validators@,
        old(slice).self_healing_enabled && old(slice).validators@.contains(failed_attestor) ==> r is Ok && {
            let i = first_index(old(slice).validators@, failed_attestor);
            &&& final(slice).validators@ == old(slice).validators@.update(i, replacement_attestor)
            &&& final(slice).last_healed_at == now
            &&& final(slice).failed_count == (if old(slice).failed_count == u32::MAX {
                u32::MAX as int
            } else {
                old(slice).failed_count + 1
            })
            &&& r->Ok_0 == (HealingEvent {
                slice_id: old(slice).id,
                failed_attestor,
                replacement_attestor,
                executed_at: now,
                executed_by: contract,
            })
        },
        final(slice).id == old(slice).id,
        final(slice).threshold == old(slice).threshold,
        final(slice).self_healing_enabled == old(slice).self_healing_enabled,
{
    if !slice.self_healing_enabled {
        return Err(ContractError::SelfHealingDisabled);
    }
    let mut i: usize = 0;
    while i < slice.validators.len()
        invariant
            i <= slice.validators@.len(),
            slice.validators@ == old(slice).validators@,
            slice.id == old(slice).id,
            slice.threshold == old(slice).threshold,
            slice.failed_count == old(slice).failed_count,
            slice.self_healing_enabled == old(slice).self_healing_enabled,
            slice.self_healing_enabled,
            forall|j: int| 0 <= j < i ==> slice.validators@[j] != failed_attestor,
        decreases slice.validators@.len() - i,
    {
        if slice.validators[i] == failed_attestor {
            proof {
                let s = slice.validators@;
                assert(s[i as int] == failed_attestor);
                assert(s.contains(failed_attestor));
                assert(0 <= i < s.len() && s[i as int] == failed_attestor && forall|j: int| 0 <= j < i ==> #[trigger] s[j]
                    != failed_attestor);
                let k = first_index(s, failed_attestor);
                if k > i {
                    assert(s[i as int] == failed_attestor);
                }
                assert(k == i);
            }
            slice.validators.set(i, replacement_attestor);
            slice.last_healed_at = now;
            slice.failed_count = slice.failed_count.saturating_add(1);
            return Ok(HealingEvent {
                slice_id: slice.id,
                failed_attestor,
                replacement_attestor,
                executed_at: now,
                executed_by: contract,
            });
        }
        i = i + 1;
    }
    Err(ContractError::NotFound)
}

/// A healing event is tracked while recent: within an hour of `now`.
pub fn track_healing_event(event: &HealingEvent, now: u64) -> (r: Result<(), ContractError>)
    ensures
        r is Ok <==> !(now > event.executed_at && now - event.executed_at > 3600),
        r is Err ==> r->Err_0 == ContractError::NotFound,
{
    if now.saturating_sub(event.executed_at) > RECENT_FAILURE_SECS {
        return Err(ContractError::NotFound);
    }
    Ok(())
}

/// A new active attestor that joined at `now`.
pub fn initialize_attestor(address: Address, now: u64) -> (a: Attestor)
    ensures
        a == (Attestor { address, is_active: true, failure_count: 0, last_failure_at: 0, joined_at: now }),
{
    Attestor { address, is_active: true, failure_count: 0, last_failure_at: 0, joined_at: now }
}

/// Record a failure of an attestor at `now`: its failure count grows
/// (saturating), and from three failures on it is deactivated.
pub fn mark_attestor_failed(attestor: &mut Attestor, now: u64)
    ensures
        final(attestor).failure_count == (if old(attestor).failure_count == u32::MAX {
            u32::MAX as int
        } else {
            old(attestor).failure_count + 1
        }),
        final(attestor).last_failure_at == now,
        final(attestor).is_active == (old(attestor).is_active && final(attestor).failure_count < 3),
        final(attestor).address == old(attestor).address,
        final(attestor).joined_at == old(attestor).joined_at,
{
    attestor.failure_count = attestor.failure_count.saturating_add(1);
    attestor.last_failure_at = now;
    if attestor.failure_count >= MAX_ATTESTOR_FAILURES {
        attestor.is_active = false;
    }
}

/// Clear an attestor's failures and reactivate it.
pub fn reset_attestor_failures(attestor: &mut Attestor)
    ensures
        *final(attestor) == (Attestor { failure_count: 0, is_active: true, last_failure_at: 0, ..*old(attestor) }),
{
    attestor.failure_count = 0;
    attestor.is_active = true;
    attestor.last_failure_at = 0;
}

/// Number of active attestors.
pub open spec fn active_count(attestors: Seq<Attestor>) -> nat
    decreases attestors.len(),
{
    if attestors.len() == 0 {
        0
    } else {
        active_count(attestors.drop_last()) + if attestors.last().is_active { 1nat } else { 0nat }
    }
}

/// Whether the slice has quorum: at least its threshold of attestors
/// active; otherwise refused.
pub fn get_quorum_status(slice: &QuorumSlice, attestors: &Vec<Attestor>) -> (r: Result<bool, ContractError>)
    requires
        attestors@.len() <= u32::MAX,
    ensures
        active_count(attestors@) >= slice.threshold ==> r == Ok::<bool, ContractError>(true),
        active_count(attestors@) < slice.threshold ==> r == Err::<bool, ContractError>(ContractError::InsufficientQuorum),
{
    let mut count: u32 = 0;
    let mut i: usize = 0;
    while i < attestors.len()
        invariant
            i <= attestors@.len() <= u32::MAX,
            count == active_count(attestors@.subrange(0, i as int)),
            count <= i,
        decreases attestors@.len() - i,
    {
        assert(attestors@.subrange(0, i + 1).drop_last() == attestors@.subrange(0, i as int));
        assert(attestors@.subrange(0, i + 1).last() == attestors@[i as int]);
        if attestors[i].is_active {
            count = count + 1;
        }
        i = i + 1;
    }
    assert(attestors@.subrange(0, attestors@.len() as int) == attestors@);
    if count >= slice.threshold {
        Ok(true)
    } else {
        Err(ContractError::InsufficientQuorum)
    }
}

} // verus!
