//! Companies: the stored record and the operations on it.

pub mod controllers;
pub mod routes;
pub mod models;
