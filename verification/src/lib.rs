//! Runtime pieces for a Symphony remote target provider: the shared data
//! model, the plugin-host checks, and the uProtocol and Ankaios providers.


pub mod agent;
pub mod ankaios;
pub mod catalog;
pub mod host;
pub mod json;
pub mod kvlist;
pub mod mock;
pub mod models;
pub mod provider;
pub mod validation;
pub mod state;
pub mod strutil;
pub mod uprotocol;
pub mod uri;

pub use state::State;
