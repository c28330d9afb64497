//! The state model behind a two-repository release dashboard.

pub mod app;
pub mod changelog;
pub mod deployment;
pub mod fetch;
pub mod theorems;
