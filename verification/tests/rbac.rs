use backend::domain::error::DomainError;
use backend::domain::user::{ResourceAction, ResourceType, Role, UserAction};
use backend::infrastructure::auth::idp_user::IdpUser;
use backend::infrastructure::auth::rbac::rbac_authorizer::{AuthorizedResource, PermissionRow, RbacAuthorizer};

const PRODUCT: i32 = 1;
const ORDER: i32 = 2;

fn row(resource_id: i32, action: &str) -> PermissionRow {
    PermissionRow { resource_id, action: action.to_string() }
}

/// The permission rows that the seeded permission table holds for a role.
fn rows_of(role: Role) -> Vec<PermissionRow> {
    match role {
        Role::Admin => vec![row(PRODUCT, "all"), row(ORDER, "all"), row(3, "all"), row(4, "all"), row(5, "all")],
        Role::Operator => vec![row(PRODUCT, "all_read"), row(PRODUCT, "all_write"), row(PRODUCT, "own_delete")],
        Role::Customer => vec![row(PRODUCT, "all_read"), row(ORDER, "own_read"), row(ORDER, "own_delete")],
        Role::NotLogin => vec![row(PRODUCT, "all_read")],
    }
}

fn user_with_role(user_id: &str, role: Role) -> IdpUser {
    let authorizer = RbacAuthorizer::new();
    let (roles, permissions) = authorizer
        .get_user_authorization(&vec![role.role_id()], &rows_of(role))
        .expect("Failed to get user authorization");
    IdpUser::new(user_id.to_string(), "example@example.com".to_string(), roles, permissions)
}

fn product(owner_user_id: Option<&str>) -> AuthorizedResource {
    AuthorizedResource { resource_type: ResourceType::Product, owner_user_id: owner_user_id.map(|s| s.to_string()) }
}

fn order(owner_user_id: Option<&str>) -> AuthorizedResource {
    AuthorizedResource { resource_type: ResourceType::Order, owner_user_id: owner_user_id.map(|s| s.to_string()) }
}

#[test]
fn test_authorize_with_admin_user_success() {
    let user = user_with_role("u1", Role::Admin);
    let result = RbacAuthorizer::new().authorize(&user, &vec![product(None)], &ResourceAction::Read);
    assert!(result.is_ok());
}

#[test]
fn test_authorize_with_admin_user_with_multiple_resources_success() {
    let user = user_with_role("u1", Role::Admin);
    let result = RbacAuthorizer::new().authorize(&user, &vec![product(None), product(Some("u1"))], &ResourceAction::Read);
    assert!(result.is_ok());
}

#[test]
fn test_authorize_with_non_admin_user_success() {
    let user = user_with_role("u2", Role::Operator);
    let result = RbacAuthorizer::new().authorize(&user, &vec![product(None)], &ResourceAction::Read);
    assert!(result.is_ok());
}

#[test]
fn test_authorize_with_owner_user_id_success() {
    let user = user_with_role("u2", Role::Operator);
    let result = RbacAuthorizer::new().authorize(&user, &vec![product(Some("u2"))], &ResourceAction::Delete);
    assert!(result.is_ok());
}

#[test]
fn test_authorize_with_no_permission() {
    let user = user_with_role("u3", Role::Customer);
    let result = RbacAuthorizer::new().authorize(&user, &vec![product(None)], &ResourceAction::Delete);
    assert!(matches!(result, Err(DomainError::AuthorizationError)));
}

#[test]
fn test_authorize_with_different_owner_user_id() {
    let user = user_with_role("u3", Role::Customer);
    let result = RbacAuthorizer::new().authorize(&user, &vec![order(Some("another_user_id"))], &ResourceAction::Delete);
    assert!(matches!(result, Err(DomainError::AuthorizationError)));
}

#[test]
fn test_authorize_with_multiple_resources_failed() {
    let user = user_with_role("u3", Role::Customer);
    let result = RbacAuthorizer::new().authorize(
        &user,
        &vec![order(Some("u3")), order(Some("another_user_id"))],
        &ResourceAction::Delete,
    );
    assert!(matches!(result, Err(DomainError::AuthorizationError)));
}

#[test]
fn own_actions_apply_to_resources_without_owner() {
    let user = user_with_role("u3", Role::Customer);
    assert!(RbacAuthorizer::new().authorize(&user, &vec![order(None)], &ResourceAction::Read).is_ok());
    assert!(RbacAuthorizer::new().authorize(&user, &vec![order(Some("u3"))], &ResourceAction::Delete).is_ok());
    assert!(RbacAuthorizer::new().authorize(&user, &vec![order(Some("u3"))], &ResourceAction::Write).is_err());
}

#[test]
fn no_resources_are_always_authorized() {
    let user = user_with_role("u4", Role::NotLogin);
    assert!(RbacAuthorizer::new().authorize(&user, &vec![], &ResourceAction::Delete).is_ok());
}

#[test]
fn a_user_without_permissions_is_refused() {
    let user = IdpUser::empty();
    let result = RbacAuthorizer::new().authorize(&user, &vec![product(None)], &ResourceAction::Read);
    assert!(matches!(result, Err(DomainError::AuthorizationError)));
}

#[test]
fn permissions_are_grouped_by_resource_type() {
    let permissions = RbacAuthorizer::new()
        .get_user_permissions(&vec![row(ORDER, "own_read"), row(PRODUCT, "all_read"), row(ORDER, "own_read"), row(ORDER, "all")])
        .unwrap();
    assert_eq!(permissions.len(), 2);
    assert_eq!(permissions[0].resource_type, ResourceType::Order);
    assert_eq!(permissions[0].actions, vec![UserAction::OwnRead, UserAction::All]);
    assert_eq!(permissions[1].resource_type, ResourceType::Product);
    assert_eq!(permissions[1].actions, vec![UserAction::AllRead]);
}

#[test]
fn unknown_rows_and_roles_are_conversion_errors() {
    let authorizer = RbacAuthorizer::new();
    assert!(matches!(authorizer.get_user_permissions(&vec![row(9, "all")]), Err(DomainError::ConversionError)));
    assert!(matches!(authorizer.get_user_permissions(&vec![row(PRODUCT, "everything")]), Err(DomainError::ConversionError)));
    assert!(matches!(authorizer.get_user_authorization(&vec![7], &vec![]), Err(DomainError::ConversionError)));
}

#[test]
fn a_user_who_has_not_logged_in_has_the_not_login_role() {
    let authorizer = RbacAuthorizer::new();
    assert_eq!(authorizer.not_login_role_ids(), vec![4]);
    let (roles, permissions) = authorizer.get_not_login_user_authorization(&rows_of(Role::NotLogin)).unwrap();
    assert_eq!(roles, vec![Role::NotLogin]);
    assert_eq!(permissions.len(), 1);
}

#[test]
fn role_ids_and_action_names_round_trip() {
    for role in [Role::Admin, Role::Operator, Role::Customer, Role::NotLogin] {
        assert_eq!(Role::try_from(role.role_id()).unwrap(), role);
    }
    assert!(Role::try_from(0).is_err());
    assert_eq!(ResourceType::try_from(5).unwrap(), ResourceType::DraftOrder);
    assert!(ResourceType::try_from(6).is_err());
    assert_eq!("own_delete".parse::<UserAction>().unwrap(), UserAction::OwnDelete);
    assert!("OWN_DELETE".parse::<UserAction>().is_err());
    assert_eq!(UserAction::parse_name("all").unwrap(), UserAction::All);
}
