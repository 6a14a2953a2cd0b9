//! The web view of the queues, and who may see it.

pub mod auth;
pub mod cookies;
pub mod pages;

pub use auth::{Auth, AuthRef};
