use auth_core::errors::{ErrorKind, GenericError};
use auth_core::grants::{derive_grants, enforce, has_any_permission, holds_grant, role_grant};
use auth_core::users::models::Role;

fn strings(items: &[&str]) -> Vec<String> {
    items.iter().map(|s| s.to_string()).collect()
}

#[test]
fn role_names() {
    assert_eq!(Role::User.to_string(), "User");
    assert_eq!(Role::Admin.to_string(), "Admin");
}

#[test]
fn grant_is_prefix_and_upper_case_name() {
    assert_eq!(role_grant(Role::User), "ROLE_USER");
    assert_eq!(role_grant(Role::Admin), "ROLE_ADMIN");
    assert_eq!(role_grant(Role::Admin), format!("ROLE_{}", Role::Admin.to_string().to_uppercase()));
    assert_eq!(role_grant(Role::User), format!("ROLE_{}", Role::User.to_string().to_uppercase()));
}

#[test]
fn admin_derives_the_admin_grant() {
    assert_eq!(derive_grants(&vec![Role::Admin]), strings(&["ROLE_ADMIN"]));
}

#[test]
fn user_and_admin_derive_both_grants() {
    assert_eq!(derive_grants(&vec![Role::User, Role::Admin]), strings(&["ROLE_USER", "ROLE_ADMIN"]));
    assert_eq!(derive_grants(&vec![Role::Admin, Role::User]), strings(&["ROLE_ADMIN", "ROLE_USER"]));
}

#[test]
fn no_roles_derive_no_grants() {
    assert_eq!(derive_grants(&vec![]), Vec::<String>::new());
}

#[test]
fn derivation_is_deterministic() {
    let roles = vec![Role::User, Role::Admin, Role::User];
    assert_eq!(derive_grants(&roles), derive_grants(&roles));
    assert_eq!(derive_grants(&roles), strings(&["ROLE_USER", "ROLE_ADMIN", "ROLE_USER"]));
}

#[test]
fn holds_grant_compares_whole_strings() {
    let grants = strings(&["ROLE_USER", "ROLE_ADMIN"]);
    assert!(holds_grant(&grants, &"ROLE_ADMIN".to_string()));
    assert!(holds_grant(&grants, &"ROLE_USER".to_string()));
    assert!(!holds_grant(&grants, &"ROLE_".to_string()));
    assert!(!holds_grant(&grants, &"role_admin".to_string()));
    assert!(!holds_grant(&strings(&[]), &"ROLE_ADMIN".to_string()));
}

#[test]
fn empty_requirement_admits_everybody() {
    assert!(has_any_permission(&strings(&[]), &strings(&[])));
    assert!(has_any_permission(&strings(&[]), &strings(&["ROLE_USER"])));
}

#[test]
fn requirement_is_met_by_any_common_grant() {
    let any_role = strings(&["ROLE_USER", "ROLE_ADMIN"]);
    let admin_only = strings(&["ROLE_ADMIN"]);
    assert!(has_any_permission(&any_role, &strings(&["ROLE_USER"])));
    assert!(has_any_permission(&any_role, &strings(&["ROLE_ADMIN"])));
    assert!(has_any_permission(&admin_only, &strings(&["ROLE_USER", "ROLE_ADMIN"])));
    assert!(!has_any_permission(&admin_only, &strings(&["ROLE_USER"])));
    assert!(!has_any_permission(&admin_only, &strings(&[])));
    assert!(!has_any_permission(&any_role, &strings(&[])));
}

#[test]
fn access_does_not_depend_on_the_order_of_roles() {
    let admin_only = strings(&["ROLE_ADMIN"]);
    let one = derive_grants(&vec![Role::User, Role::Admin]);
    let other = derive_grants(&vec![Role::Admin, Role::User]);
    assert_eq!(has_any_permission(&admin_only, &one), has_any_permission(&admin_only, &other));
    assert!(has_any_permission(&admin_only, &one));
    let user_only = strings(&["ROLE_USER"]);
    assert_eq!(has_any_permission(&user_only, &one), has_any_permission(&user_only, &other));
}

#[test]
fn anonymous_request_is_forbidden_on_a_protected_route() {
    let result = enforce(&strings(&["ROLE_ADMIN"]), &strings(&[]));
    assert_eq!(result, Err(GenericError::forbidden()));
    assert_eq!(result.unwrap_err().kind, ErrorKind::Forbidden);
}

#[test]
fn holder_of_a_required_grant_is_admitted() {
    assert_eq!(enforce(&strings(&["ROLE_ADMIN"]), &derive_grants(&vec![Role::Admin])), Ok(()));
    assert_eq!(enforce(&strings(&[]), &strings(&[])), Ok(()));
}
