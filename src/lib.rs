//! Layered application settings: a baseline document, an optional runtime
//! document, environment variables and caller overrides are merged key by
//! key, from lowest to highest priority, and the merged layer is turned into
//! typed `Settings`.
pub mod convert;
pub mod laws;
pub mod model;
pub mod resolve;
pub mod settings;
pub mod sources;
pub mod text;
