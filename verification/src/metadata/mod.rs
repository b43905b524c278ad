//! Metadata of images: the model, reading it from EXIF, plans that change it,
//! and what an edit of the file has to do.

pub mod editor;
pub mod exif;
pub mod image;
pub mod parsers;
pub mod plan;
pub mod reader;
pub mod tag_edit;
pub mod types;
pub mod writer;

pub use image::ImageMetadata;
pub use reader::read_metadata;
pub use types::{MetadataField, MetadataStatus};
