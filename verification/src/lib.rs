//! A typed data model for the JSON Hypertext Application Language (HAL),
//! a convention that augments JSON resource representations with
//! standardized link and embedded-resource sections.
//!
//! The model is three record types — [`Link`], [`HalLinks`] and the generic
//! envelope [`HalResource`] — together with serializers that render them in
//! the HAL wire format: optional fields absent from a value are omitted from
//! the output entirely (never emitted as `null`), the mandatory self link is
//! rendered under the literal key `"self"`, the payload's own fields are
//! flattened into the enclosing resource object, and embedded sub-resources
//! are nested in full under their relation names.
//!
//! Reference: draft-kelly-json-hal.

pub mod laws;
pub mod model;
pub mod payload;
pub mod render;
pub mod ser;
pub mod text;

pub use model::get_default_response;
pub use model::HalLinks;
pub use model::HalResource;
pub use model::Link;
pub use payload::render_resource;
pub use payload::serialize_resource;
pub use payload::SerializeError;
pub use render::serialize_rendered;
pub use ser::serialize_link;
pub use ser::serialize_links;
