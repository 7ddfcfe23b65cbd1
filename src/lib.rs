//! Engine of a timed examination: questions and their grading, the question
//! bank, the shared mode, the answer handshake and the session.

pub mod action;
pub mod alert;
pub mod bank;
pub mod category;
pub mod error;
pub mod examination;
pub mod handshake;
pub mod mode;
pub mod question;
pub mod render;
pub mod session;
pub mod text;
pub mod timer;
pub mod user_input;
