//! Callsign lookup: gathers what three independent directories know of an
//! amateur-radio callsign and renders it as a one-row HTML table.
//!
//! The network calls themselves are made by the caller; this library holds
//! the decisions around them: how a callsign is normalised, how a name is cut
//! out of a callbook page, how an image becomes a data URI, which DMR record
//! is kept, how failed sources degrade to empty values, and the page itself.
pub mod decimal;
pub mod dmr;
pub mod image;
pub mod lookup;
pub mod name;
pub mod page;
pub mod text;

pub use decimal::push_decimal;
pub use dmr::{first_result, DmrRecord};
pub use image::{data_uri, image_data_uri, ImageReply, DEFAULT_IMAGE_TYPE};
pub use lookup::{assemble, LookupResult};
pub use name::{extract_name, name_from_capture, NAME_PATTERN};
pub use page::{entry_form, render, ENTRY_FORM, HTML_CONTENT_TYPE};
pub use text::{normalize_callsign, text_after_marker};
