//! The logic of a small blog engine: posts and their stored rows, the posts
//! table and the queries run on it, tag lists, the admin handlers' decisions
//! and the admin credential check.

pub mod admin;
pub mod auth;
pub mod datatypes;
pub mod blog;
pub mod date;
pub mod ids;
pub mod laws;
pub mod model;
pub mod table;
pub mod tags;
