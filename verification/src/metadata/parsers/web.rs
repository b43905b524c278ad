use vstd::prelude::*;
use crate::metadata::exif::{ExifEntry, ExifEntryView, ExifTagKind};
use crate::metadata::image::ImageMetadata;
use crate::metadata::parsers::{last_clean_text, store_tag_text, stores_text};

verus! {

/// The description is the last non-empty image description.
pub open spec fn parsed_web(old: ImageMetadata, new: ImageMetadata, es: Seq<ExifEntryView>) -> bool {
    stores_text(
        old.web.description,
        new.web.description,
        last_clean_text(es, ExifTagKind::ImageDescription),
    )
}

/// Reads the description from the image description fields.
pub fn parse(entries: &Vec<ExifEntry>, metadata: &mut ImageMetadata)
    ensures
        parsed_web(*old(metadata), *final(metadata), entries@.map_values(|e: ExifEntry| e@)),
        *final(metadata) == (ImageMetadata {
            web: crate::metadata::image::WebMetadata {
                description: final(metadata).web.description,
                ..old(metadata).web
            },
            ..*old(metadata)
        }),
{
    store_tag_text(entries, ExifTagKind::ImageDescription, &mut metadata.web.description);
}

} // verus!
