//! EXIF fields of an image file, decoded by the `kamadak-exif` crate into
//! plain values.

use vstd::prelude::*;
use crate::metadata::image::Rational;

verus! {

/// One EXIF field: its tag (number and whether it belongs to the TIFF or the
/// GPS tag space), the IFD it is in, its value as displayed, and its
/// rationals when the value is a list of unsigned rationals.
#[derive(Debug, Clone)]
pub struct ExifEntry {
    pub number: u16,
    pub tiff: bool,
    pub gps: bool,
    pub ifd: u16,
    pub text: String,
    pub rationals: Vec<Rational>,
}

/// An EXIF field as plain values.
pub struct ExifEntryView {
    pub number: u16,
    pub tiff: bool,
    pub gps: bool,
    pub ifd: u16,
    pub text: Seq<char>,
    pub rationals: Seq<Rational>,
}

impl View for ExifEntry {
    type V = ExifEntryView;

    open spec fn view(&self) -> ExifEntryView {
        ExifEntryView {
            number: self.number,
            tiff: self.tiff,
            gps: self.gps,
            ifd: self.ifd,
            text: self.text@,
            rationals: self.rationals@,
        }
    }
}

/// The fields of a decoded EXIF block, each by its view.
pub open spec fn entries_view(entries: Option<Vec<ExifEntry>>) -> Option<Seq<ExifEntryView>> {
    match entries {
        Some(v) => Some(v@.map_values(|e: ExifEntry| e@)),
        None => None,
    }
}

/// Name for what `exif::Reader::read_from_container` finds in the bytes of an
/// image file: `None` when it reports an error, else its fields in order.
pub uninterp spec fn exif_fields(bytes: Seq<u8>) -> Option<Seq<ExifEntryView>>;

/// Decodes the EXIF block of an image file (JPEG, TIFF, PNG, WebP, HEIF) with
/// `exif::Reader::read_from_container`. Each field's text is
/// `display_value().with_unit(..)`. The result is named `exif_fields`: this
/// contract claims only that it depends on the bytes alone.
#[verifier::external_body]
pub(crate) fn decode_exif(bytes: &[u8]) -> (res: Option<Vec<ExifEntry>>)
    ensures
        entries_view(res) == exif_fields(bytes@),
{
    let exif = match exif::Reader::new().read_from_container(&mut std::io::Cursor::new(bytes)) {
        Ok(exif) => exif,
        Err(_) => return None,
    };
    Some(exif.fields().map(|f| ExifEntry {
        number: f.tag.number(),
        tiff: f.tag.context() == exif::Context::Tiff,
        gps: f.tag.context() == exif::Context::Gps,
        ifd: f.ifd_num.index(),
        text: f.display_value().with_unit(&exif).to_string(),
        rationals: match &f.value {
            exif::Value::Rational(v) => v.iter().map(|r| Rational { num: r.num, denom: r.denom }).collect(),
            _ => Vec::new(),
        },
    }).collect())
}

/// The EXIF tags that the metadata model reads.
#[derive(Debug, Clone, Copy, PartialEq, Eq, Structural)]
pub enum ExifTagKind {
    ImageDescription,
    Software,
    Artist,
    Copyright,
    GpsLatitudeRef,
    GpsLatitude,
    GpsLongitudeRef,
    GpsLongitude,
}

/// Whether a field carries the tag `kind` (tag numbers as `kamadak-exif`
/// defines them).
pub open spec fn entry_is(e: ExifEntryView, kind: ExifTagKind) -> bool {
    match kind {
        ExifTagKind::ImageDescription => e.tiff && e.number == 0x10e,
        ExifTagKind::Software => e.tiff && e.number == 0x131,
        ExifTagKind::Artist => e.tiff && e.number == 0x13b,
        ExifTagKind::Copyright => e.tiff && e.number == 0x8298,
        ExifTagKind::GpsLatitudeRef => e.gps && e.number == 0x1,
        ExifTagKind::GpsLatitude => e.gps && e.number == 0x2,
        ExifTagKind::GpsLongitudeRef => e.gps && e.number == 0x3,
        ExifTagKind::GpsLongitude => e.gps && e.number == 0x4,
    }
}

impl ExifEntry {
    pub fn is(&self, kind: ExifTagKind) -> (res: bool)
        ensures
            res == entry_is(self@, kind),
    {
        match kind {
            ExifTagKind::ImageDescription => self.tiff && self.number == 0x10e,
            ExifTagKind::Software => self.tiff && self.number == 0x131,
            ExifTagKind::Artist => self.tiff && self.number == 0x13b,
            ExifTagKind::Copyright => self.tiff && self.number == 0x8298,
            ExifTagKind::GpsLatitudeRef => self.gps && self.number == 0x1,
            ExifTagKind::GpsLatitude => self.gps && self.number == 0x2,
            ExifTagKind::GpsLongitudeRef => self.gps && self.number == 0x3,
            ExifTagKind::GpsLongitude => self.gps && self.number == 0x4,
        }
    }
}

} // verus!
