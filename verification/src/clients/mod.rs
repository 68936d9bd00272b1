//! What the library decides for the model servers it talks to.

pub mod comfyui;
pub mod lmstudio;
pub mod faceswap;
