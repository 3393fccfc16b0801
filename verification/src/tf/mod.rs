//! Terraform configurations: the interpretation of HCL blocks, and the
//! loading of a root module with its local child modules.

pub mod parser;
pub mod loader;
pub mod tree;
