use quorum_credit::errors::ContractError;
use quorum_credit::rbac::{
    check_admin_permission, check_signers_for_action, check_signers_for_permission, get_required_permission,
    migrate_legacy_admins_to_superadmin, AdminAction, AdminPermission, AdminRole,
};

#[test]
fn test_permission_matrix_superadmin_all_actions() {
    let test_actions = [
        AdminAction::Pause,
        AdminAction::AddAdmin,
        AdminAction::RemoveAdmin,
        AdminAction::SetAdminThreshold,
        AdminAction::UpdateFees,
        AdminAction::UpdateConfig,
        AdminAction::Slash,
    ];

    for action in test_actions {
        let required_perm = get_required_permission(action);
        assert!(
            check_admin_permission(&AdminRole::SuperAdmin, &required_perm),
            "SuperAdmin should have permission for action: {:?}",
            action
        );
    }
}

#[test]
fn test_permission_matrix_treasurer_limited_actions() {
    let treasurer = AdminRole::Treasurer;

    assert!(check_admin_permission(&treasurer, &AdminPermission::UpdateConfig));
    assert!(check_admin_permission(&treasurer, &AdminPermission::ManageFees));

    assert!(!check_admin_permission(&treasurer, &AdminPermission::Slash));
    assert!(!check_admin_permission(&treasurer, &AdminPermission::Pause));
    assert!(!check_admin_permission(&treasurer, &AdminPermission::ReadAnalytics));
}

#[test]
fn test_permission_matrix_monitor_read_only() {
    let monitor = AdminRole::Monitor;

    assert!(check_admin_permission(&monitor, &AdminPermission::ReadAnalytics));

    assert!(!check_admin_permission(&monitor, &AdminPermission::Slash));
    assert!(!check_admin_permission(&monitor, &AdminPermission::Pause));
    assert!(!check_admin_permission(&monitor, &AdminPermission::UpdateConfig));
    assert!(!check_admin_permission(&monitor, &AdminPermission::ManageFees));
}

#[test]
fn test_action_permission_mapping() {
    assert_eq!(get_required_permission(AdminAction::Pause), AdminPermission::Pause);
    assert_eq!(get_required_permission(AdminAction::Slash), AdminPermission::Slash);
    assert_eq!(get_required_permission(AdminAction::AddAdmin), AdminPermission::UpdateConfig);
    assert_eq!(get_required_permission(AdminAction::UpdateFees), AdminPermission::ManageFees);
    assert_eq!(get_required_permission(AdminAction::UpdateConfig), AdminPermission::UpdateConfig);
}

#[test]
fn test_monitor_cannot_pause_even_with_threshold() {
    let result = check_signers_for_action(&vec![Some(AdminRole::Monitor)], AdminAction::Pause);
    assert_eq!(result, Err(ContractError::PermissionDenied));
}

#[test]
fn test_treasurer_can_set_protocol_fee() {
    let result = check_signers_for_action(&vec![Some(AdminRole::Treasurer)], AdminAction::UpdateFees);
    assert!(result.is_ok(), "Treasurer should be able to update fees");
}

#[test]
fn test_treasurer_cannot_slash() {
    let result = check_signers_for_action(&vec![Some(AdminRole::Treasurer)], AdminAction::Slash);
    assert_eq!(result, Err(ContractError::PermissionDenied));
}

#[test]
fn test_monitor_can_read_analytics() {
    let result = check_signers_for_permission(&vec![Some(AdminRole::Monitor)], AdminPermission::ReadAnalytics);
    assert!(result.is_ok(), "Monitor should be able to read analytics");
}

#[test]
fn test_all_signers_must_have_permission() {
    let result =
        check_signers_for_action(&vec![Some(AdminRole::SuperAdmin), Some(AdminRole::Monitor)], AdminAction::Pause);
    assert!(result.is_err(), "All signers must have the required permission");
}

#[test]
fn test_superadmin_with_treasurer_can_manage_fees() {
    let result = check_signers_for_action(
        &vec![Some(AdminRole::SuperAdmin), Some(AdminRole::Treasurer)],
        AdminAction::UpdateFees,
    );
    assert!(result.is_ok(), "SuperAdmin + Treasurer should be able to update fees");
}

#[test]
fn test_backward_compatibility_superadmin_has_all_permissions() {
    let critical_actions = [
        AdminAction::Pause,
        AdminAction::Slash,
        AdminAction::UpdateConfig,
        AdminAction::UpdateFees,
        AdminAction::AddAdmin,
    ];

    for action in critical_actions {
        let required_perm = get_required_permission(action);
        let has_perm = check_admin_permission(&AdminRole::SuperAdmin, &required_perm);
        assert!(has_perm, "SuperAdmin should have permission for: {:?}", action);
    }
}

#[test]
fn test_unknown_admin_cannot_act() {
    let result = check_signers_for_permission(&vec![None], AdminPermission::UpdateConfig);
    assert!(result.is_err(), "Unknown admin should not be able to act");
}

#[test]
fn test_permission_hierarchy_is_monotonic() {
    let permissions = [
        AdminPermission::ReadAnalytics,
        AdminPermission::ManageFees,
        AdminPermission::UpdateConfig,
        AdminPermission::Pause,
        AdminPermission::Slash,
    ];

    let roles = [
        AdminRole::Monitor,
        AdminRole::Treasurer,
        AdminRole::Slasher,
        AdminRole::GovernanceOperator,
        AdminRole::SuperAdmin,
    ];

    for perm in &permissions {
        let mut can_access = Vec::new();

        for role in &roles {
            if check_admin_permission(role, perm) {
                can_access.push(role);
            }
        }

        if !can_access.is_empty() {
            assert_eq!(
                *can_access.last().unwrap(),
                &AdminRole::SuperAdmin,
                "SuperAdmin should be able to do everything: {:?}",
                perm
            );
        }
    }
}

#[test]
fn test_every_admin_action_has_defined_permission() {
    let test_actions = [
        AdminAction::Pause,
        AdminAction::Slash,
        AdminAction::UpdateConfig,
        AdminAction::UpdateFees,
        AdminAction::AddAdmin,
        AdminAction::RemoveAdmin,
        AdminAction::SetAdminThreshold,
    ];

    for action in test_actions {
        let perm = get_required_permission(action);

        assert!(
            matches!(
                perm,
                AdminPermission::Slash
                    | AdminPermission::Pause
                    | AdminPermission::UpdateConfig
                    | AdminPermission::ManageFees
                    | AdminPermission::ReadAnalytics
            ),
            "Action {:?} has undefined permission: {:?}",
            action,
            perm
        );
    }
}

#[test]
fn test_migrate_legacy_admins_assigns_superadmin() {
    let roles = migrate_legacy_admins_to_superadmin(&vec![None, None, None]);
    assert_eq!(roles, vec![AdminRole::SuperAdmin, AdminRole::SuperAdmin, AdminRole::SuperAdmin]);
}

#[test]
fn test_migrate_does_not_override_existing_roles() {
    let roles = migrate_legacy_admins_to_superadmin(&vec![Some(AdminRole::Treasurer), None]);
    assert_eq!(roles[0], AdminRole::Treasurer, "Migration should not override existing Treasurer role");
    assert_eq!(roles[1], AdminRole::SuperAdmin, "Migration should assign SuperAdmin to admin without a role");
}

#[test]
fn test_permission_matrix_slasher() {
    let slasher = AdminRole::Slasher;

    assert!(check_admin_permission(&slasher, &AdminPermission::Slash));
    assert!(check_admin_permission(&slasher, &AdminPermission::ReadAnalytics));

    assert!(!check_admin_permission(&slasher, &AdminPermission::Pause));
    assert!(!check_admin_permission(&slasher, &AdminPermission::UpdateConfig));
    assert!(!check_admin_permission(&slasher, &AdminPermission::ManageFees));
}

#[test]
fn test_permission_matrix_governance_operator() {
    let gov_op = AdminRole::GovernanceOperator;

    assert!(check_admin_permission(&gov_op, &AdminPermission::UpdateConfig));

    assert!(!check_admin_permission(&gov_op, &AdminPermission::Slash));
    assert!(!check_admin_permission(&gov_op, &AdminPermission::Pause));
    assert!(!check_admin_permission(&gov_op, &AdminPermission::ManageFees));
    assert!(!check_admin_permission(&gov_op, &AdminPermission::ReadAnalytics));
}

#[test]
fn test_slasher_role_enforcement_on_slashing() {
    let signers = vec![Some(AdminRole::Slasher)];
    assert!(check_signers_for_action(&signers, AdminAction::Slash).is_ok());
    assert_eq!(check_signers_for_action(&signers, AdminAction::Pause), Err(ContractError::PermissionDenied));
    assert_eq!(check_signers_for_action(&signers, AdminAction::UpdateFees), Err(ContractError::PermissionDenied));
}

#[test]
fn test_governance_operator_role_enforcement() {
    let signers = vec![Some(AdminRole::GovernanceOperator)];
    assert!(check_signers_for_action(&signers, AdminAction::UpdateConfig).is_ok());
    assert!(check_signers_for_action(&signers, AdminAction::SetAdminThreshold).is_ok());
    assert_eq!(check_signers_for_action(&signers, AdminAction::Slash), Err(ContractError::PermissionDenied));
    assert_eq!(check_signers_for_action(&signers, AdminAction::Pause), Err(ContractError::PermissionDenied));
}

#[test]
fn test_both_threshold_and_role_required() {
    let result = check_signers_for_action(&vec![Some(AdminRole::SuperAdmin), Some(AdminRole::Monitor)], AdminAction::Pause);
    assert!(result.is_err(), "Should fail because Monitor lacks Pause permission");
    match result {
        Err(ContractError::PermissionDenied) => {}
        _ => panic!("Expected PermissionDenied error"),
    }
}
