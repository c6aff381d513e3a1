//! Static transit data for the NY area: the registry of GTFS feeds, the rules
//! that keep a local cache of their archives fresh, and the reduction of a
//! parsed feed to one line feature per route shape.

pub mod color;
pub mod features;
pub mod gtfs;
pub mod json;
pub mod properties;
pub mod static_data;

pub use features::{OMNYGeoJson, Route};
pub use properties::RouteProperties;
