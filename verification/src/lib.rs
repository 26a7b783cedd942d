//! State, rules and protocol steps of the Avernus Matrix client.

pub mod app_layout;
pub mod matrix;
pub mod screen;
pub mod text;
pub mod text_laws;
pub mod window_laws;
