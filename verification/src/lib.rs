//! Account, login-token and administrator logic of the Potassium Shot API.
//!
//! The database and the web server are driven from outside; this crate holds
//! the decisions that the request handlers and the database layer take, as
//! state machines whose every transition is stated exactly.
pub mod types;
pub mod constants;
pub mod time;
pub mod env;
pub mod pswd;
pub mod error;
pub mod db;
pub mod api;
pub mod plugins;
pub mod com;
pub mod laws;
