//! Management core of an F-Droid package repository: configuration merging,
//! package index mapping, package-inspection scraping, repository layout and
//! the decisions taken by every repository operation.

pub mod aapt;
pub mod app;
pub mod app_config;
pub mod app_metadata;
pub mod auth_guard;
pub mod config;
pub mod decimal;
pub mod error;
pub mod general;
pub mod json;
pub mod repository;
