//! A DAO registry: members, projects, tasks, reviews, stakes and
//! governance tokens, kept as verified state transitions.
pub mod account;
pub mod base58;
pub mod table;
pub mod text;
pub mod ownership;
pub mod types;
pub mod events;
pub mod model;
pub mod dao;
pub mod laws;
pub mod effects;

pub use account::AccountId;
