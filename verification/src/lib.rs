//! The decisions of a BPMN process portal, verified: how engine states are
//! stored, what loads and saves make of table rows, who a session names,
//! and what each page and failure is answered.
pub mod adapters;
pub mod auth;
pub mod codec;
pub mod config;
pub mod definition;
pub mod errors;
pub mod model;
pub mod nav;
pub mod processes;
pub mod reply;
pub mod store;
pub mod text;
pub mod variables;
