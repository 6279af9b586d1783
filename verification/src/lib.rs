//! A small account/user backend core: password hashing, cookie-session
//! authentication (sign-up, login, logout, session resolution), per-entity
//! CRUD stores, and the route-level request/response logic, all with
//! verified contracts. The HTTP and persistence plumbing lives outside
//! this crate and calls in with plain values.

pub mod account_routes;
pub mod account_store;
pub mod auth_repo;
pub mod auth_routes;
pub mod error;
pub mod hashing;
pub mod session_store;
pub mod user_routes;
pub mod user_store;
