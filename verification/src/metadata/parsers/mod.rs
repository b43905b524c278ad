//! Filling the metadata model from the EXIF fields of an image.

pub mod ai;
pub mod rights;
pub mod seo;
pub mod web;

use vstd::prelude::*;
use crate::metadata::exif::{entry_is, ExifEntry, ExifEntryView, ExifTagKind};
use crate::metadata::image::ImageMetadata;
use crate::metadata::types::{MetadataField, MetadataStatus};
use crate::text::{normalize_chars, normalized, string_of};

verus! {

/// `new` is `old` after storing the text `found`, if any: the value becomes
/// `found` and the field is present; with nothing found the field is unchanged.
pub open spec fn stores_text(
    old: MetadataField<String>,
    new: MetadataField<String>,
    found: Option<Seq<char>>,
) -> bool {
    match found {
        Some(t) => new.value matches Some(v) && v@ == t && new.status == MetadataStatus::Present,
        None => new == old,
    }
}

/// The clean text to store for `value`: none when it cleans to nothing.
pub open spec fn clean_text(value: Seq<char>) -> Option<Seq<char>> {
    if normalized(value).len() == 0 {
        None
    } else {
        Some(normalized(value))
    }
}

/// Stores the clean form of `value` in `field`, unless it cleans to nothing.
pub fn set_string_field(field: &mut MetadataField<String>, value: String)
    ensures
        stores_text(*old(field), *final(field), clean_text(value@)),
{
    let clean = normalize_string(value.as_str());
    if clean.as_str().is_empty() {
        return;
    }
    field.value = Some(clean);
    field.status = MetadataStatus::Present;
}

/// The clean form of a text read from the metadata (see `normalized`).
pub fn normalize_string(value: &str) -> (res: String)
    ensures
        res@ == normalized(value@),
{
    string_of(&normalize_chars(value))
}

/// Clean text of the last field with tag `kind` whose text does not clean to
/// nothing.
pub open spec fn last_clean_text(es: Seq<ExifEntryView>, kind: ExifTagKind) -> Option<Seq<char>>
    decreases es.len(),
{
    if es.len() == 0 {
        None
    } else if entry_is(es.last(), kind) && clean_text(es.last().text) is Some {
        clean_text(es.last().text)
    } else {
        last_clean_text(es.drop_last(), kind)
    }
}

/// Stores, in order, the text of every field with tag `kind`.
pub fn store_tag_text(entries: &Vec<ExifEntry>, kind: ExifTagKind, field: &mut MetadataField<String>)
    ensures
        stores_text(
            *old(field),
            *final(field),
            last_clean_text(entries@.map_values(|e: ExifEntry| e@), kind),
        ),
{
    let ghost es = entries@.map_values(|e: ExifEntry| e@);
    let mut i: usize = 0;
    while i < entries.len()
        invariant
            i <= entries.len(),
            es == entries@.map_values(|e: ExifEntry| e@),
            stores_text(*old(field), *field, last_clean_text(es.take(i as int), kind)),
        decreases entries.len() - i,
    {
        proof {
            assert(es.take(i + 1).drop_last() =~= es.take(i as int));
            assert(es.take(i + 1).last() == entries@[i as int]@);
        }
        if entries[i].is(kind) {
            set_string_field(field, entries[i].text.clone());
        }
        i += 1;
    }
    assert(es.take(entries.len() as int) =~= es);
}

/// `new` is `old` after reading all the EXIF fields `es`.
pub open spec fn parsed_from(old: ImageMetadata, new: ImageMetadata, es: Seq<ExifEntryView>) -> bool {
    &&& web::parsed_web(old, new, es)
    &&& rights::parsed_rights(old, new, es)
    &&& ai::parsed_ai(old, new, es)
    &&& seo::parsed_seo(old, new, es)
    &&& new.web.alt_text == old.web.alt_text
    &&& new.web.keywords == old.web.keywords
    &&& new.social == old.social
    &&& new.technical == old.technical
    &&& new.rights.license == old.rights.license
    &&& new.rights.source_url == old.rights.source_url
    &&& new.ai.model == old.ai.model
    &&& new.ai.license == old.ai.license
    &&& new.ai.source_url == old.ai.source_url
    &&& new.seo.business_name == old.seo.business_name
    &&& new.seo.location_name == old.seo.location_name
    &&& new.seo.service_name == old.seo.service_name
    &&& new.seo.ai_generated_alt == old.seo.ai_generated_alt
    &&& new.privacy.has_camera_serial == old.privacy.has_camera_serial
    &&& new.privacy.has_personal_data == old.privacy.has_personal_data
}

/// Reads the web, rights, AI and location fields from the EXIF fields.
pub fn parse_all(entries: &Vec<ExifEntry>, metadata: &mut ImageMetadata)
    ensures
        parsed_from(*old(metadata), *final(metadata), entries@.map_values(|e: ExifEntry| e@)),
{
    web::parse(entries, metadata);
    rights::parse(entries, metadata);
    ai::parse(entries, metadata);
    seo::parse(entries, metadata);
}


/// Reading the fields flags the image as made with AI when some software
/// field names, in any case, a known image generator: Midjourney, Stable
/// Diffusion, ComfyUI, Flux, DALL·E or Fooocus.
pub proof fn software_naming_a_generator_flags_ai(
    old: ImageMetadata,
    new: ImageMetadata,
    es: Seq<ExifEntryView>,
    i: int,
)
    requires
        parsed_from(old, new, es),
        0 <= i < es.len(),
        entry_is(es[i], ExifTagKind::Software),
        ({
            let l = crate::text::lowercase(es[i].text);
            ||| crate::text::contains_text(l, "midjourney"@)
            ||| crate::text::contains_text(l, "stable diffusion"@)
            ||| crate::text::contains_text(l, "comfyui"@)
            ||| crate::text::contains_text(l, "flux"@)
            ||| crate::text::contains_text(l, "dall"@)
            ||| crate::text::contains_text(l, "fooocus"@)
        }),
    ensures
        new.ai.detected,
{
    assert(entry_is(es[i], ExifTagKind::Software) && ai::mentions_ai_tool(crate::text::lowercase(es[i].text)));
}

/// Without a software field naming a known image generator, reading the
/// fields leaves the AI flag as it was.
pub proof fn no_generator_keeps_the_ai_flag(old: ImageMetadata, new: ImageMetadata, es: Seq<ExifEntryView>)
    requires
        parsed_from(old, new, es),
        forall|i: int|
            0 <= i < es.len() && entry_is(#[trigger] es[i], ExifTagKind::Software) ==> {
                let l = crate::text::lowercase(es[i].text);
                &&& !crate::text::contains_text(l, "midjourney"@)
                &&& !crate::text::contains_text(l, "stable diffusion"@)
                &&& !crate::text::contains_text(l, "comfyui"@)
                &&& !crate::text::contains_text(l, "flux"@)
                &&& !crate::text::contains_text(l, "dall"@)
                &&& !crate::text::contains_text(l, "fooocus"@)
            },
    ensures
        new.ai.detected == old.ai.detected,
{
}

} // verus!
