//! Request validation, query construction and record lifecycle rules for a
//! small service that keeps companies and users in a document database.

pub mod company;
pub mod controllers;
pub mod document;
pub mod errors;
pub mod laws;
pub mod query;
pub mod routes;
pub mod store;
pub mod text;
pub mod time;
pub mod upload;
pub mod user;
pub mod validation;
