//! Client-side service discovery and endpoint selection for an in-vehicle
//! digital-twin system: the decisions taken on what a registry or a directory
//! answered, capability matching, and address normalization.
//!
//! The library makes no network call and reads no environment. Its callers
//! perform the round trip and hand in how it ended; the library decides what
//! that means for the request.

pub mod address;
pub mod matching;
pub mod messages;
pub mod model;
pub mod provider;
pub mod registry;

pub use crate::address::get_uri;
pub use crate::matching::is_subset;
pub use crate::provider::discover_digital_twin_provider_using_ibeji;
pub use crate::registry::discover_service_using_chariott;
