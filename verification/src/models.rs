//! Model catalog: registry, alias resolution, and pricing overrides.

pub mod pricing;
pub mod registry;

pub use pricing::PricingConfig;
pub use registry::{ModelInfo, ModelRegistry};
