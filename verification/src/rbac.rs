//! Role-based access control for admin actions.
//!
//! Every admin action needs one permission; every admin role grants a fixed
//! set of permissions. A multi-signer approval succeeds only when every
//! signer holds a role that grants the action's permission.
use vstd::prelude::*;
use crate::errors::ContractError;

verus! {

/// A role held by an admin.
#[derive(Clone, Copy, Debug, PartialEq, Eq, Structural)]
pub enum AdminRole {
    SuperAdmin,
    Treasurer,
    Monitor,
    Slasher,
    GovernanceOperator,
}

/// A capability that admin actions require.
#[derive(Clone, Copy, Debug, PartialEq, Eq, Structural)]
pub enum AdminPermission {
    Slash,
    Pause,
    UpdateConfig,
    ManageFees,
    ReadAnalytics,
}

/// An admin action gated by a permission.
#[derive(Clone, Copy, Debug, PartialEq, Eq, Structural)]
pub enum AdminAction {
    Pause,
    AddAdmin,
    RemoveAdmin,
    SetAdminThreshold,
    UpdateFees,
    UpdateConfig,
    Slash,
}

/// The permission an action requires.
pub open spec fn required_permission(action: AdminAction) -> AdminPermission {
    match action {
        AdminAction::Pause => AdminPermission::Pause,
        AdminAction::Slash => AdminPermission::Slash,
        AdminAction::UpdateFees => AdminPermission::ManageFees,
        AdminAction::AddAdmin => AdminPermission::UpdateConfig,
        AdminAction::RemoveAdmin => AdminPermission::UpdateConfig,
        AdminAction::SetAdminThreshold => AdminPermission::UpdateConfig,
        AdminAction::UpdateConfig => AdminPermission::UpdateConfig,
    }
}

/// Whether `role` grants `perm`: SuperAdmin everything; Treasurer config and
/// fees; Monitor analytics; Slasher slashing and analytics; GovernanceOperator config.
pub open spec fn role_grants(role: AdminRole, perm: AdminPermission) -> bool {
    match role {
        AdminRole::SuperAdmin => true,
        AdminRole::Treasurer => perm == AdminPermission::UpdateConfig || perm == AdminPermission::ManageFees,
        AdminRole::Monitor => perm == AdminPermission::ReadAnalytics,
        AdminRole::Slasher => perm == AdminPermission::Slash || perm == AdminPermission::ReadAnalytics,
        AdminRole::GovernanceOperator => perm == AdminPermission::UpdateConfig,
    }
}

/// The permission an action requires.
pub fn get_required_permission(action: AdminAction) -> (p: AdminPermission)
    ensures
        p == required_permission(action),
{
    match action {
        AdminAction::Pause => AdminPermission::Pause,
        AdminAction::Slash => AdminPermission::Slash,
        AdminAction::UpdateFees => AdminPermission::ManageFees,
        AdminAction::AddAdmin => AdminPermission::UpdateConfig,
        AdminAction::RemoveAdmin => AdminPermission::UpdateConfig,
        AdminAction::SetAdminThreshold => AdminPermission::UpdateConfig,
        AdminAction::UpdateConfig => AdminPermission::UpdateConfig,
    }
}

/// Whether `role` grants `perm`.
pub fn check_admin_permission(role: &AdminRole, perm: &AdminPermission) -> (b: bool)
    ensures
        b == role_grants(*role, *perm),
{
    match role {
        AdminRole::SuperAdmin => true,
        AdminRole::Treasurer => match perm {
            AdminPermission::UpdateConfig | AdminPermission::ManageFees => true,
            _ => false,
        },
        AdminRole::Monitor => match perm {
            AdminPermission::ReadAnalytics => true,
            _ => false,
        },
        AdminRole::Slasher => match perm {
            AdminPermission::Slash | AdminPermission::ReadAnalytics => true,
            _ => false,
        },
        AdminRole::GovernanceOperator => match perm {
            AdminPermission::UpdateConfig => true,
            _ => false,
        },
    }
}

/// Role check of a multi-signer approval for a permission: `signer_roles[i]`
/// is the role of the i-th signer (`None` when the signer holds no role).
/// Succeeds exactly when every signer holds a role granting `perm`.
pub fn check_signers_for_permission(signer_roles: &Vec<Option<AdminRole>>, perm: AdminPermission) -> (r: Result<
    (),
    ContractError,
>)
    ensures
        r is Ok <==> forall|i: int| 0 <= i < signer_roles@.len()
            ==> (#[trigger] signer_roles@[i] matches Some(role) && role_grants(role, perm)),
        r is Err ==> r == Err::<(), ContractError>(ContractError::PermissionDenied),
{
    let mut i: usize = 0;
    while i < signer_roles.len()
        invariant
            i <= signer_roles@.len(),
            forall|j: int| 0 <= j < i
                ==> (#[trigger] signer_roles@[j] matches Some(role) && role_grants(role, perm)),
        decreases signer_roles@.len() - i,
    {
        match &signer_roles[i] {
            Some(role) => {
                if !check_admin_permission(role, &perm) {
                    return Err(ContractError::PermissionDenied);
                }
            },
            None => {
                return Err(ContractError::PermissionDenied);
            },
        }
        i = i + 1;
    }
    Ok(())
}

/// Role check of a multi-signer approval for an action: every signer must
/// hold a role granting the permission the action requires.
pub fn check_signers_for_action(signer_roles: &Vec<Option<AdminRole>>, action: AdminAction) -> (r: Result<
    (),
    ContractError,
>)
    ensures
        r is Ok <==> forall|i: int| 0 <= i < signer_roles@.len()
            ==> (#[trigger] signer_roles@[i] matches Some(role) && role_grants(role, required_permission(action))),
        r is Err ==> r == Err::<(), ContractError>(ContractError::PermissionDenied),
{
    let perm = get_required_permission(action);
    check_signers_for_permission(signer_roles, perm)
}

/// Roles after granting SuperAdmin to every admin that holds no role yet;
/// admins that already hold a role keep it.
pub fn migrate_legacy_admins_to_superadmin(roles: &Vec<Option<AdminRole>>) -> (r: Vec<AdminRole>)
    ensures
        r@.len() == roles@.len(),
        forall|i: int| 0 <= i < roles@.len() ==> #[trigger] r@[i] == match roles@[i] {
            Some(role) => role,
            None => AdminRole::SuperAdmin,
        },
{
    let mut out: Vec<AdminRole> = Vec::new();
    let mut i: usize = 0;
    while i < roles.len()
        invariant
            i <= roles@.len(),
            out@.len() == i,
            forall|j: int| 0 <= j < i ==> #[trigger] out@[j] == match roles@[j] {
                Some(role) => role,
                None => AdminRole::SuperAdmin,
            },
        decreases roles@.len() - i,
    {
        let role = match &roles[i] {
            Some(role) => *role,
            None => AdminRole::SuperAdmin,
        };
        out.push(role);
        i = i + 1;
    }
    out
}

} // verus!
