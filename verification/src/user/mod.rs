//! Users: the forms that create and change them, the stored record and the
//! record as it is shown.

pub mod controllers;
pub mod models;
pub mod routes;
