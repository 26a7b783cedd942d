//! The Matrix side of the client: what it knows of rooms and messages, and how it talks to a
//! homeserver.

pub mod attachment;
pub mod attachment_laws;
pub mod client;
pub mod client_laws;
pub mod event_laws;
pub mod history;
pub mod identifier_laws;
pub mod identifiers;
pub mod log_laws;
pub mod login;
pub mod login_laws;
pub mod message_laws;
pub mod protocol;
pub mod room_laws;
pub mod rooms;
pub mod saved_session_laws;
pub mod session;
pub mod session_laws;
pub mod step_laws;
pub mod store;
pub mod task_laws;
pub mod task_log;
pub mod tasks;
pub mod timeline;
pub mod types;
pub mod verification;
pub mod verification_laws;

pub use client::MatrixBackend;
