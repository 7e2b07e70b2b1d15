//! A minimal authenticated user API: create, fetch and delete a user record,
//! and log in with credentials to receive a signed, time-bounded token.
//!
//! The storage layer is modelled by [`store::UserStore`]; token issuance and
//! verification live in [`token`]; the request-level outcomes (error
//! collapsing, best-effort mail) live in [`handlers`].

pub mod handlers;
pub mod models;
pub mod store;
pub mod token;

pub use models::User;
pub use models::UniqueUser;
