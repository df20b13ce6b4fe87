//! Authentication, authorization and ownership rules of a small blogging
//! backend.
//!
//! Users register and log in; a login yields a signed token that is good
//! for an hour; whoever presents a valid token may create posts, and may
//! change and delete the posts that are their own. The storage service
//! stays outside: a handler says what is to be asked of it ([`storage`]),
//! waits in a state of its own ([`steps`]), and goes on when it is handed
//! the answer ([`routes`]). What each handler decides is written down in
//! [`rules`]; what follows for whole requests, served by a storage
//! service that keeps email addresses unique ([`store`]), is proved in
//! [`laws`].

pub mod auth;
pub mod error;
pub mod laws;
pub mod models;
pub mod oid;
pub mod password;
pub mod routes;
pub mod rules;
pub mod steps;
pub mod storage;
pub mod store;
