//! A cloud cost estimator for Terraform configurations.
//!
//! The library holds the estimator's logic: exact decimal money, the
//! Terraform resource model, the HCL block interpretation, module variable
//! resolution, the pricing lookups that need no network, the per-resource cost
//! models, the engine's decisions, and the contents of the report tables.
//! Reading files, talking to pricing APIs and drawing tables is left to the
//! program that uses it.

pub mod text;

pub mod decimal;
pub mod money;
pub mod resource;
pub mod cost;
pub mod state;
pub mod error;
pub mod pricing;
pub mod usage;
pub mod models;
pub mod registry;
pub mod engine;
pub mod tf;
pub mod report;
pub mod cache;
