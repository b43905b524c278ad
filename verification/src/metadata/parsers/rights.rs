use vstd::prelude::*;
use crate::metadata::exif::{ExifEntry, ExifEntryView, ExifTagKind};
use crate::metadata::image::{ImageMetadata, RightsMetadata};
use crate::metadata::parsers::{last_clean_text, store_tag_text, stores_text};

verus! {

/// Author and copyright are the last non-empty artist and copyright fields.
pub open spec fn parsed_rights(old: ImageMetadata, new: ImageMetadata, es: Seq<ExifEntryView>) -> bool {
    &&& stores_text(old.rights.author, new.rights.author, last_clean_text(es, ExifTagKind::Artist))
    &&& stores_text(
        old.rights.copyright,
        new.rights.copyright,
        last_clean_text(es, ExifTagKind::Copyright),
    )
}

/// Reads author and copyright.
pub fn parse(entries: &Vec<ExifEntry>, metadata: &mut ImageMetadata)
    ensures
        parsed_rights(*old(metadata), *final(metadata), entries@.map_values(|e: ExifEntry| e@)),
        *final(metadata) == (ImageMetadata {
            rights: RightsMetadata {
                author: final(metadata).rights.author,
                copyright: final(metadata).rights.copyright,
                ..old(metadata).rights
            },
            ..*old(metadata)
        }),
{
    store_tag_text(entries, ExifTagKind::Artist, &mut metadata.rights.author);
    store_tag_text(entries, ExifTagKind::Copyright, &mut metadata.rights.copyright);
}

} // verus!
