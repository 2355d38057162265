pub mod config;
pub mod context;
pub mod login;
pub mod models;
pub mod numeral;
pub mod routes;
pub mod session;
pub mod signup;
pub mod store;
pub mod text;
