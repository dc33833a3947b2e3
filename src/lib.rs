//! Receives multipart uploads: decides, field by field, where each file goes,
//! which save steps it needs, and what the request answers.

pub mod path;
pub mod mode;
pub mod saver;
pub mod upload;
pub mod body;
pub mod laws;
