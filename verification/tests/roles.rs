use grafter::session::{Flash, FlashKind, Role};

#[test]
fn admin_role_wins_when_both_present() {
    let roles = vec!["iam-operator".to_string(), "iam-admin".to_string()];
    assert_eq!(Role::from_claims(&roles, "iam-admin", "iam-operator"), Some(Role::Admin));
}

#[test]
fn operator_role_alone() {
    let roles = vec!["iam-operator".to_string()];
    assert_eq!(Role::from_claims(&roles, "iam-admin", "iam-operator"), Some(Role::Operator));
}

#[test]
fn no_matching_role_is_none() {
    let roles = vec!["some-other-role".to_string()];
    assert_eq!(Role::from_claims(&roles, "iam-admin", "iam-operator"), None);
}

#[test]
fn empty_roles_is_none() {
    assert_eq!(Role::from_claims(&[], "iam-admin", "iam-operator"), None);
}

#[test]
fn only_admins_are_admins() {
    assert!(Role::Admin.is_admin());
    assert!(!Role::Operator.is_admin());
}

#[test]
fn messages_have_a_kind() {
    assert_eq!(
        Flash::success("Saved.".to_string()),
        Flash { text: "Saved.".to_string(), kind: FlashKind::Success }
    );
    assert_eq!(
        Flash::warning("Wait.".to_string()),
        Flash { text: "Wait.".to_string(), kind: FlashKind::Warning }
    );
}
