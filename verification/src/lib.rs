//! The core of a command gateway: sessions, permissions, the entity catalog
//! and the router that turns one authenticated command into one store call
//! and one response envelope.

pub mod auth;
pub mod dbo;
pub mod error;
pub mod laws;
pub mod messages;
pub mod model;
pub mod services;
pub mod store;
pub mod text;
pub mod users;
pub mod views;
