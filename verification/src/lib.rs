//! Contributor incentive platform: the verified core.
pub mod text;
pub mod auth;
pub mod models;
pub mod order;
pub mod scoring;
pub mod rows;
pub mod queries;
pub mod ranking;
pub mod github_types;
pub mod sync;
pub mod errors;
pub mod config;
pub mod api;
pub mod frontend;
pub mod github;
