//! The decisions behind the HTTP API: request shapes, validation and derived values.

pub mod describe;
pub mod prompt;
pub mod media;
pub mod presets;
pub mod jobs;
