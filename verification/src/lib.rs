//! Session authentication and request flows for a small multi-user
//! publishing service.
//!
//! The library decides; it never performs storage or network work itself.
//! Every flow is a short chain of steps: each step either names the one
//! store operation to perform next, together with the state that takes its
//! answer, or reports how the flow ended.  A caller performs each operation in
//! one exclusive acquisition of its store handle and hands the answer back.

pub mod application;
pub mod cookie;
pub mod database;
pub mod index;
pub mod login;
pub mod logout;
pub mod models;
pub mod new_post;
pub mod password;
pub mod post;
pub mod register;
pub mod store;
pub mod timestamp;
