//! Interfaces for authentication and authorization: users, sessions bound to a
//! user, permissions named by namespace and name, and providers that turn a
//! token or an identifier into a session.
//!
//! The crate holds no storage and no credential handling. Applications
//! implement the traits against their own stores; the contracts on the trait
//! methods say what every implementation owes its callers.

pub mod error;
pub mod permission;
pub mod provider;
pub mod session;
pub mod user;

pub use error::AuthError;
pub use permission::{Permission, PermissionView};
pub use provider::{AuthProvider, ProviderView};
pub use session::{AuthSession, SessionView};
pub use user::AuthUser;
