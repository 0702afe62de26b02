//! Authentication and authorization context passed between cooperating services.
//!
//! A request's context is carried in a fixed set of transport fields (HTTP
//! headers). [`scope::Scope`] describes the authorization boundary of the
//! request and [`user::User`] the caller's authentication stage; both decode
//! from and encode to a header map, and the guards in [`checks`] are pure
//! predicates over the two.

pub mod checks;
pub mod codec;
pub mod event;
pub mod headers;
pub mod scope;
pub mod user;

pub use checks::Forbidden;
pub use headers::{Error, ErrorKind};
pub use scope::{EventScope, Scope, ScopeParams};
pub use user::{AuthenticatedUser, User, UserParams, UserRegistrationNeeded, UserRole};
