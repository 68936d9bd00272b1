//! Verified core of the faces.guru backend: prompt construction, job planning,
//! media naming, the ComfyUI graph builder and polling decisions.

pub mod text;
pub mod json;
pub mod error;
pub mod models;
pub mod clients;
pub mod config;
pub mod imageutil;
pub mod api;
pub mod worker;
pub mod db;
