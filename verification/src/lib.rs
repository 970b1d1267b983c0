//! A DICOM attribute editor: decode a file into an index of data elements
//! addressed by tag, look attributes up, set or remove them, and encode the
//! edited index again.

pub mod tag;
pub mod vr;
pub mod element;
pub mod error;
pub mod codec;
pub mod dictionary;
pub mod index;
pub mod operation;
pub mod engine;
pub mod edit;

pub use crate::dictionary::Selector;
pub use crate::edit::{
    apply_batch, get_tag_value, modify_tag_value, read_attributes, remove_attribute, remove_tag,
    remove_update_tag, set_attribute, AttributeReading, TagValue,
};
pub use crate::element::Element;
pub use crate::error::{AttributeError, EditError, ParseError};
pub use crate::index::ElementIndex;
pub use crate::operation::{Modification, Operation};
pub use crate::tag::Tag;
pub use crate::vr::Vr;
