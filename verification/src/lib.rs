//! Extraction of OpenGraph metadata from HTML pages.
//!
//! The library models an HTML page as the ordered list of its `meta`
//! elements, resolves a fixed catalog of OpenGraph fields against that
//! model by attribute selectors with a defined fallback order, and
//! assembles the resolved values into a wire-named response.

pub mod document;
pub mod error;
pub mod extract;
pub mod fields;
pub mod response;

pub use document::Attr;
pub use document::Document;
pub use document::MetaTag;
pub use extract::AttrSelector;
pub use fields::FieldSpec;
pub use fields::field_spec;
pub use fields::field_specs;
pub use fields::wire_field_names;
pub use response::ExtractionResult;
pub use response::OpenGraphQuery;
pub use response::OpenGraphResponse;
pub use response::WireEntry;
pub use response::assemble;
pub use response::extract_all;
pub use response::extract_opengraph;
pub use error::ErrorResponse;
pub use error::FetchError;
pub use error::make_error_response;
