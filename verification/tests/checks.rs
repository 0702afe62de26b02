use authctx::checks::{admin_only, has_at_least_role, has_role, is_admin, is_authenticated, is_event, is_user, Forbidden};
use authctx::{AuthenticatedUser, EventScope, Scope, User, UserRole};

fn authenticated(role: Option<UserRole>, admin: bool) -> User {
    User::Authenticated(AuthenticatedUser {
        id: 55,
        given_name: String::from("John"),
        family_name: String::from("Doe"),
        email: String::from("john.doe@example.com"),
        role,
        is_admin: admin,
    })
}

fn event_scope() -> Scope {
    Scope::Event(EventScope {
        event: String::from("wafflehacks"),
        organization_id: 5,
    })
}

#[test]
fn user_role_ordering() {
    assert!(UserRole::Director > UserRole::Manager);
    assert!(UserRole::Director > UserRole::Organizer);
    assert!(UserRole::Director > UserRole::Participant);
    assert!(UserRole::Manager > UserRole::Organizer);
    assert!(UserRole::Manager > UserRole::Participant);
    assert!(UserRole::Organizer > UserRole::Participant);
}

#[test]
fn user_role_reflexive_equality() {
    assert_eq!(UserRole::Participant, UserRole::Participant);
    assert_eq!(UserRole::Organizer, UserRole::Organizer);
    assert_eq!(UserRole::Manager, UserRole::Manager);
    assert_eq!(UserRole::Director, UserRole::Director);
    assert!(UserRole::Manager >= UserRole::Manager);
    assert!(UserRole::Manager <= UserRole::Manager);
}

#[test]
fn is_authenticated_requires_authenticated_variant() {
    assert!(is_authenticated(&User::Unauthenticated).is_err());
    assert!(is_authenticated(&User::OAuth).is_err());

    let user = authenticated(None, false);
    let context = is_authenticated(&user).unwrap();
    assert_eq!(context.id, 55);
}

#[test]
fn is_user_requires_user_scope() {
    assert!(is_user(&Scope::User).is_ok());
    assert!(is_user(&Scope::Admin).is_err());
    assert!(is_user(&event_scope()).is_err());
}

#[test]
fn is_event_requires_event_scope_and_returns_payload() {
    assert!(is_event(&Scope::User).is_err());
    assert!(is_event(&Scope::Admin).is_err());

    let scope = event_scope();
    let context = is_event(&scope).unwrap();
    assert_eq!(context.event, "wafflehacks");
    assert_eq!(context.organization_id, 5);
}

#[test]
fn is_admin_requires_authentication_and_flag() {
    assert!(is_admin(&User::Unauthenticated).is_err());
    assert!(is_admin(&authenticated(None, false)).is_err());
    assert!(is_admin(&authenticated(None, true)).is_ok());
}

#[test]
fn admin_only_requires_admin_flag_and_admin_scope() {
    let admin_user = authenticated(None, true);
    let plain_user = authenticated(None, false);

    assert!(admin_only(&admin_user, &Scope::Admin).is_ok());
    assert!(admin_only(&admin_user, &Scope::User).is_err());
    assert!(admin_only(&admin_user, &event_scope()).is_err());
    assert!(admin_only(&plain_user, &Scope::Admin).is_err());
    assert!(admin_only(&User::Unauthenticated, &Scope::Admin).is_err());
}

#[test]
fn has_role_requires_exact_role() {
    let scope = event_scope();

    let manager = authenticated(Some(UserRole::Manager), false);
    assert!(has_role(UserRole::Manager, &manager, &scope).is_ok());
    assert!(has_role(UserRole::Director, &manager, &scope).is_err());
    assert!(has_role(UserRole::Organizer, &manager, &scope).is_err());

    let no_role = authenticated(None, false);
    assert!(has_role(UserRole::Participant, &no_role, &scope).is_err());

    assert!(has_role(UserRole::Manager, &manager, &Scope::User).is_err());
    assert!(has_role(UserRole::Manager, &User::Unauthenticated, &scope).is_err());
}

#[test]
fn has_role_fails_without_role_in_example_state() {
    let scope = event_scope();
    let user = authenticated(None, true);
    assert!(has_role(UserRole::Manager, &user, &scope).is_err());
}

#[test]
fn has_at_least_role_orders_roles() {
    let scope = event_scope();

    for role in [UserRole::Organizer, UserRole::Manager, UserRole::Director] {
        let user = authenticated(Some(role), false);
        assert!(has_at_least_role(UserRole::Organizer, &user, &scope).is_ok());
    }

    let participant = authenticated(Some(UserRole::Participant), false);
    assert!(has_at_least_role(UserRole::Organizer, &participant, &scope).is_err());

    let no_role = authenticated(None, false);
    assert!(has_at_least_role(UserRole::Organizer, &no_role, &scope).is_err());
}

#[test]
fn has_at_least_role_requires_event_scope_and_authentication() {
    let director = authenticated(Some(UserRole::Director), true);
    assert!(has_at_least_role(UserRole::Participant, &director, &Scope::Admin).is_err());
    assert!(has_at_least_role(UserRole::Participant, &director, &Scope::User).is_err());
    assert!(has_at_least_role(UserRole::Participant, &User::OAuth, &event_scope()).is_err());
}

#[test]
fn forbidden_carries_stable_code() {
    assert_eq!(Forbidden.code(), "FORBIDDEN");
}

#[test]
fn decoded_user_without_role_fails_has_role() {
    let mut headers = http::header::HeaderMap::new();
    for (name, value) in [
        ("user-session", "authenticated"),
        ("user-id", "55"),
        ("user-given-name", "John"),
        ("user-family-name", "Doe"),
        ("user-email", "john.doe@example.com"),
        ("user-is-admin", "true"),
    ] {
        let name = http::header::HeaderName::from_bytes(name.as_bytes()).unwrap();
        headers.insert(name, http::header::HeaderValue::from_str(value).unwrap());
    }

    let user = User::try_from(&headers).unwrap();
    let User::Authenticated(context) = &user else {
        panic!("expected an authenticated user, got {user:?}");
    };
    assert_eq!(context.role, None);
    assert!(context.is_admin);

    let scope = event_scope();
    assert!(has_role(UserRole::Manager, &user, &scope).is_err());
}
