use vstd::prelude::*;
use crate::metadata::exif::{decode_exif, exif_fields, ExifEntry};
use crate::metadata::image::{empty_metadata, ImageMetadata};
use crate::metadata::parsers::{parse_all, parsed_from};

verus! {

/// The metadata read from the bytes of an image file: empty when the EXIF
/// block cannot be decoded, otherwise filled from its fields.
pub fn read_metadata(bytes: &[u8]) -> (res: ImageMetadata)
    ensures
        match exif_fields(bytes@) {
            Some(es) => parsed_from(empty_metadata(), res, es),
            None => res == empty_metadata(),
        },
{
    match decode_exif(bytes) {
        Some(entries) => {
            let mut metadata = ImageMetadata::default();
            parse_all(&entries, &mut metadata);
            metadata
        },
        None => ImageMetadata::default(),
    }
}

} // verus!
