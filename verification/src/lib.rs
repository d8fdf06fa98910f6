pub mod calculation;
pub mod calculator_launch;
pub mod config;
pub mod cosmos;
pub mod cost;
pub mod decimal;
pub mod digest;
pub mod engine;
pub mod health;
pub mod ids;
pub mod instant;
pub mod pricing;
pub mod pricing_cache;
pub mod privacy_consent;
pub mod project;
pub mod project_share;
pub mod repository;
pub mod resource;
pub mod sql_payg;
pub mod store_protocol;
pub mod target_selector;
pub mod text;
pub mod warnings;
pub mod workflow;
