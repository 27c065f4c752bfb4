//! Request-scoped transaction and identity-propagation core of a multi-tenant
//! REST backend.
//!
//! A single logical unit of work (for example: sign up a user, create the row,
//! attach a default role) spans multiple repository calls while sharing one
//! transaction on the credential store, and the authenticated caller's
//! identity is made available to business logic through an ambient context
//! rather than threaded through every signature.

pub mod auth_model;
pub mod auth_service;
pub mod cache;
pub mod config;
pub mod context;
pub mod crypto;
pub mod error;
pub mod identity;
pub mod middleware;
pub mod repository;
pub mod role_service;
pub mod store;
pub mod token;
pub mod uow;
pub mod user_service;
pub mod validate;
pub mod web;

pub use auth_model::{AuthResponse, RefreshTokenRequest, SignInRequest, SignUpRequest};
pub use auth_service::{access_token_error, lemma_refresh_after_sign_out, refresh_token_error, refresh_token_key};
pub use cache::{CacheStore, CacheValue};
pub use config::Config;
pub use context::{Ctx, Tx};
pub use error::Error;
pub use identity::{get_current_identity, Identity};
pub use middleware::{auth, bearer_or_cookie_token, clearing_cookies, session_cookies, CookieSpec};
pub use role_service::{CreateRoleRequest, RoleResponse};
pub use repository::{execute, lemma_repository_transparency, lemma_units_of_work_isolated, RoleRepository, UserRepository};
pub use uow::{complete_unit_of_work, run_unit_of_work, TransactionManager, Uow};
pub use user_service::{AddRolesRequest, UserResponse};
pub use web::{json_error, json_success, ApiResponse, PageRequest, PageResponse};
pub use store::{Db, DbState, DbView, Role, Statement, User, UserRole};
pub use token::{Claim, TokenError};
