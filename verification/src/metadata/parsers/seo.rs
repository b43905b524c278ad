use vstd::prelude::*;
use crate::metadata::exif::{entry_is, ExifEntry, ExifEntryView, ExifTagKind};
use crate::metadata::image::{GpsCoordinate, ImageMetadata, PrivacyMetadata, SeoMetadata};
use crate::metadata::types::{MetadataField, MetadataStatus};
use crate::text::{chars_of, to_uppercase, trim, trim_str, uppercase};

verus! {

/// The last field with tag `kind` in the primary image, as the lookup of a
/// tag in the primary image finds it.
pub open spec fn last_primary(es: Seq<ExifEntryView>, kind: ExifTagKind) -> Option<ExifEntryView>
    decreases es.len(),
{
    if es.len() == 0 {
        None
    } else if entry_is(es.last(), kind) && es.last().ifd == 0 {
        Some(es.last())
    } else {
        last_primary(es.drop_last(), kind)
    }
}

/// The coordinate stored under `coord`: its first three rationals, negative
/// when the `reference` field, trimmed and in upper case, starts with
/// `negative_ref`. None without at least three rationals.
pub open spec fn coordinate_in(
    es: Seq<ExifEntryView>,
    coord: ExifTagKind,
    reference: ExifTagKind,
    negative_ref: char,
) -> Option<GpsCoordinate> {
    match last_primary(es, coord) {
        Some(f) => if f.rationals.len() >= 3 {
            Some(
                GpsCoordinate {
                    degrees: f.rationals[0],
                    minutes: f.rationals[1],
                    seconds: f.rationals[2],
                    negative: match last_primary(es, reference) {
                        Some(r) => {
                            let u = uppercase(trim(r.text));
                            u.len() > 0 && u[0] == negative_ref
                        },
                        None => false,
                    },
                },
            )
        } else {
            None
        },
        None => None,
    }
}

/// The latitude (south is negative) in the fields.
pub open spec fn latitude_in(es: Seq<ExifEntryView>) -> Option<GpsCoordinate> {
    coordinate_in(es, ExifTagKind::GpsLatitude, ExifTagKind::GpsLatitudeRef, 'S')
}

/// The longitude (west is negative) in the fields.
pub open spec fn longitude_in(es: Seq<ExifEntryView>) -> Option<GpsCoordinate> {
    coordinate_in(es, ExifTagKind::GpsLongitude, ExifTagKind::GpsLongitudeRef, 'W')
}

/// `new` holds `found` as a present value, or is `old` when nothing was found.
pub open spec fn stores_coordinate(
    old: MetadataField<GpsCoordinate>,
    new: MetadataField<GpsCoordinate>,
    found: Option<GpsCoordinate>,
) -> bool {
    match found {
        Some(c) => new == MetadataField { value: Some(c), status: MetadataStatus::Present },
        None => new == old,
    }
}

/// Coordinates found are stored, and any of them marks the image as located.
pub open spec fn parsed_seo(old: ImageMetadata, new: ImageMetadata, es: Seq<ExifEntryView>) -> bool {
    &&& stores_coordinate(old.seo.latitude, new.seo.latitude, latitude_in(es))
    &&& stores_coordinate(old.seo.longitude, new.seo.longitude, longitude_in(es))
    &&& new.privacy.has_gps == (old.privacy.has_gps || latitude_in(es) is Some || longitude_in(
        es,
    ) is Some)
}

/// Index of the last field with tag `kind` in the primary image.
fn find_last_primary(entries: &Vec<ExifEntry>, kind: ExifTagKind) -> (res: Option<usize>)
    ensures
        match res {
            Some(i) => i < entries.len() && last_primary(
                entries@.map_values(|e: ExifEntry| e@),
                kind,
            ) == Some(entries@[i as int]@),
            None => last_primary(entries@.map_values(|e: ExifEntry| e@), kind) is None,
        },
{
    let ghost es = entries@.map_values(|e: ExifEntry| e@);
    let mut j = entries.len();
    assert(es.take(j as int) =~= es);
    while j > 0
        invariant
            j <= entries.len(),
            es == entries@.map_values(|e: ExifEntry| e@),
            last_primary(es, kind) == last_primary(es.take(j as int), kind),
        decreases j,
    {
        assert(es.take(j as int).last() == entries@[j - 1]@);
        assert(es.take(j as int).drop_last() =~= es.take(j - 1));
        if entries[j - 1].is(kind) && entries[j - 1].ifd == 0 {
            return Some(j - 1);
        }
        j -= 1;
    }
    None
}

/// Reads the coordinate stored under `coord`, signed by the `reference` field.
fn read_coordinate(
    entries: &Vec<ExifEntry>,
    coord: ExifTagKind,
    reference: ExifTagKind,
    negative_ref: char,
) -> (res: Option<GpsCoordinate>)
    ensures
        res == coordinate_in(entries@.map_values(|e: ExifEntry| e@), coord, reference, negative_ref),
{
    let field = match find_last_primary(entries, coord) {
        Some(i) => &entries[i],
        None => {
            return None;
        },
    };
    if field.rationals.len() < 3 {
        return None;
    }
    let negative = match find_last_primary(entries, reference) {
        Some(r) => {
            let trimmed = trim_str(entries[r].text.as_str());
            let upper = to_uppercase(trimmed.as_str());
            let chars = chars_of(upper.as_str());
            chars.len() > 0 && chars[0] == negative_ref
        },
        None => false,
    };
    Some(
        GpsCoordinate {
            degrees: field.rationals[0],
            minutes: field.rationals[1],
            seconds: field.rationals[2],
            negative,
        },
    )
}

/// Reads latitude and longitude and marks the image as located when either is
/// present.
pub fn parse(entries: &Vec<ExifEntry>, metadata: &mut ImageMetadata)
    ensures
        parsed_seo(*old(metadata), *final(metadata), entries@.map_values(|e: ExifEntry| e@)),
        *final(metadata) == (ImageMetadata {
            seo: SeoMetadata {
                latitude: final(metadata).seo.latitude,
                longitude: final(metadata).seo.longitude,
                ..old(metadata).seo
            },
            privacy: PrivacyMetadata { has_gps: final(metadata).privacy.has_gps, ..old(metadata).privacy },
            ..*old(metadata)
        }),
{
    let latitude = read_coordinate(entries, ExifTagKind::GpsLatitude, ExifTagKind::GpsLatitudeRef, 'S');
    let longitude = read_coordinate(entries, ExifTagKind::GpsLongitude, ExifTagKind::GpsLongitudeRef, 'W');
    if let Some(value) = latitude {
        metadata.seo.latitude.value = Some(value);
        metadata.seo.latitude.status = MetadataStatus::Present;
        metadata.privacy.has_gps = true;
    }
    if let Some(value) = longitude {
        metadata.seo.longitude.value = Some(value);
        metadata.seo.longitude.status = MetadataStatus::Present;
        metadata.privacy.has_gps = true;
    }
}

} // verus!
