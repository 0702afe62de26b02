//! Access guards: pure predicates over the caller's identity and the
//! request's scope that either pass or produce a uniform denial.

use vstd::prelude::*;

verus! {

use crate::scope::{EventScope, Scope};
use crate::user::{AuthenticatedUser, User, UserRole};

/// The uniform denial a guard produces when the requester has invalid
/// permissions; it carries no further detail by design.
#[derive(Clone, Copy, Debug, PartialEq, Eq, Structural)]
pub struct Forbidden;

impl Forbidden {
    /// The stable machine-readable code the denial is surfaced under.
    pub fn code(&self) -> (r: &'static str)
        ensures
            r@ == "FORBIDDEN"@,
    {
        "FORBIDDEN"
    }
}

/// Check that the requester is authenticated, and hand out the profile.
pub fn is_authenticated<'c>(user: &'c User) -> (r: Result<&'c AuthenticatedUser, Forbidden>)
    ensures
        r is Ok <==> *user is Authenticated,
        r matches Ok(a) ==> *user == User::Authenticated(*a),
{
    match user {
        User::Authenticated(context) => Ok(context),
        _ => Err(Forbidden),
    }
}

/// Check that the request was scoped to a user.
pub fn is_user(scope: &Scope) -> (r: Result<(), Forbidden>)
    ensures
        r is Ok <==> *scope is User,
{
    match scope {
        Scope::User => Ok(()),
        _ => Err(Forbidden),
    }
}

/// Check that the request was scoped to an event, and hand out the event
/// context.
pub fn is_event<'c>(scope: &'c Scope) -> (r: Result<&'c EventScope, Forbidden>)
    ensures
        r is Ok <==> *scope is Event,
        r matches Ok(e) ==> *scope == Scope::Event(*e),
{
    match scope {
        Scope::Event(context) => Ok(context),
        _ => Err(Forbidden),
    }
}

/// Check that the requester is an administrator: authenticated, with the
/// admin flag set.
pub fn is_admin(user: &User) -> (r: Result<(), Forbidden>)
    ensures
        r is Ok <==> (*user matches User::Authenticated(a) && a.is_admin),
{
    match is_authenticated(user) {
        Ok(context) => {
            if context.is_admin {
                Ok(())
            } else {
                Err(Forbidden)
            }
        },
        Err(e) => Err(e),
    }
}

/// Check that only admins on an admin-scoped request pass: an admin
/// requester under any other scope is still denied.
pub fn admin_only(user: &User, scope: &Scope) -> (r: Result<(), Forbidden>)
    ensures
        r is Ok <==> ((*user matches User::Authenticated(a) && a.is_admin) && *scope is Admin),
{
    match is_admin(user) {
        Ok(()) => {
            match scope {
                Scope::Admin => Ok(()),
                _ => Err(Forbidden),
            }
        },
        Err(e) => Err(e),
    }
}

/// Check that the request is event-scoped, the requester authenticated,
/// and their role exactly the required one; an absent role is denied.
pub fn has_role(role: UserRole, user: &User, scope: &Scope) -> (r: Result<(), Forbidden>)
    ensures
        r is Ok <==> (*scope is Event && (*user matches User::Authenticated(a) && a.role == Some(
            role,
        ))),
{
    if is_event(scope).is_err() {
        return Err(Forbidden);
    }
    match is_authenticated(user) {
        Ok(context) => {
            match context.role {
                Some(user_role) => {
                    if user_role == role {
                        Ok(())
                    } else {
                        Err(Forbidden)
                    }
                },
                None => Err(Forbidden),
            }
        },
        Err(e) => Err(e),
    }
}

/// Check that the request is event-scoped, the requester authenticated,
/// and their role at least the required one in the role order; an absent
/// role is denied, never treated as the lowest rank.
pub fn has_at_least_role(role: UserRole, user: &User, scope: &Scope) -> (r: Result<(), Forbidden>)
    ensures
        r is Ok <==> (*scope is Event && (*user matches User::Authenticated(a) && (a.role
            matches Some(ur) && ur.rank() >= role.rank()))),
{
    if is_event(scope).is_err() {
        return Err(Forbidden);
    }
    match is_authenticated(user) {
        Ok(context) => {
            match context.role {
                Some(user_role) => {
                    if user_role.rank_val() >= role.rank_val() {
                        Ok(())
                    } else {
                        Err(Forbidden)
                    }
                },
                None => Err(Forbidden),
            }
        },
        Err(e) => Err(e),
    }
}

} // verus!
