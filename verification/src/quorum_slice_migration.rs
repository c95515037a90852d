//! Migrating a credential from one quorum slice to another, allowed only
//! into slices marked compatible (all are, unless marked otherwise).
use vstd::prelude::*;
use crate::types::Address;

verus! {

/// Why a slice operation was refused.
#[derive(Clone, Copy, Debug, PartialEq, Eq, Structural)]
pub enum SliceError {
    InvalidOperation,
}

/// Whether a slice accepts migrations: as marked, compatible by default.
pub fn verify_slice_compatibility(stored: Option<bool>) -> (b: bool)
    ensures
        b == stored.unwrap_or(true),
{
    match stored {
        Some(b) => b,
        None => true,
    }
}

/// Move a credential to `new_slice`, whose migrations so far are
/// `history`: returns the slice to record and the new migration count.
pub fn migrate_credential_slice(new_slice: Address, history: u64) -> (r: (Address, u64))
    requires
        history < u64::MAX,
    ensures
        r == (new_slice, (history + 1) as u64),
{
    (new_slice, history + 1)
}

/// Migrate a credential to `new_slice` when that slice is compatible
/// (`compatibility` as stored for it); refused otherwise.
pub fn implement_slice_migration_protocol(new_slice: Address, compatibility: Option<bool>, history: u64) -> (r: Result<
    (Address, u64),
    SliceError,
>)
    requires
        compatibility.unwrap_or(true) ==> history < u64::MAX,
    ensures
        !compatibility.unwrap_or(true) ==> r == Err::<(Address, u64), SliceError>(SliceError::InvalidOperation),
        compatibility.unwrap_or(true) ==> r == Ok::<(Address, u64), SliceError>((new_slice, (history + 1) as u64)),
{
    if !verify_slice_compatibility(compatibility) {
        return Err(SliceError::InvalidOperation);
    }
    Ok(migrate_credential_slice(new_slice, history))
}

} // verus!
