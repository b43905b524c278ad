use lazarobox_img::metadata::editor::{plan, GpsPosition, MetadataEdit};
use lazarobox_img::metadata::image::{GpsCoordinate, Rational};
use lazarobox_img::metadata::tag_edit::apply_steps;
use lazarobox_img::metadata::{read_metadata, ImageMetadata, MetadataStatus};
use little_exif::exif_tag::ExifTag;
use little_exif::filetype::FileExtension;
use little_exif::metadata::Metadata;
use little_exif::rational::uR64;

/// A red 1x1 JPEG image without metadata.
fn jpeg() -> Vec<u8> {
    let image = image::DynamicImage::ImageRgb8(image::RgbImage::from_pixel(1, 1, image::Rgb([255, 0, 0])));
    let mut bytes = Vec::new();
    image
        .write_to(&mut std::io::Cursor::new(&mut bytes), image::ImageFormat::Jpeg)
        .expect("encode jpeg");
    bytes
}

fn tags_of(bytes: &[u8]) -> Metadata {
    Metadata::new_from_vec(&bytes.to_vec(), FileExtension::JPEG).unwrap_or_else(|_| Metadata::new())
}

/// Writes `edit` into the JPEG `bytes` as the editor does with a file.
fn apply(bytes: &mut Vec<u8>, edit: &MetadataEdit) {
    let steps = plan("image.jpg", edit).expect("jpg is writable");
    let mut meta = tags_of(bytes);
    apply_steps(&mut meta, &steps);
    meta.write_to_vec(bytes, FileExtension::JPEG).expect("write tags");
}

fn coordinate(decimal: f64) -> GpsCoordinate {
    let value = decimal.abs();
    let degrees = value.floor();
    let minutes_full = (value - degrees) * 60.0;
    let minutes = minutes_full.floor();
    let seconds = (minutes_full - minutes) * 60.0;
    GpsCoordinate {
        degrees: Rational { num: degrees as u32, denom: 1 },
        minutes: Rational { num: minutes as u32, denom: 1 },
        seconds: Rational { num: (seconds * 1000.0).round() as u32, denom: 1000 },
        negative: !(decimal >= 0.0),
    }
}

fn position(lat: f64, lon: f64) -> Option<GpsPosition> {
    Some(GpsPosition { latitude: coordinate(lat), longitude: coordinate(lon) })
}

fn decimal(c: GpsCoordinate) -> f64 {
    let part = |r: Rational| r.num as f64 / r.denom as f64;
    let value = part(c.degrees) + part(c.minutes) / 60.0 + part(c.seconds) / 3600.0;
    if c.negative { -value } else { value }
}

fn assert_close(actual: f64, expected: f64) {
    let diff = (actual - expected).abs();
    assert!(diff < 0.000001, "expected {actual} to be within tolerance of {expected}, diff {diff}");
}

fn read(bytes: &[u8]) -> ImageMetadata {
    read_metadata(bytes)
}

#[test]
fn sets_ascii_alt_text_and_reader_can_reread_it() {
    let mut image = jpeg();
    apply(&mut image, &MetadataEdit { alt_text: Some("Simple ASCII alt text".to_string()), ..Default::default() });

    let metadata = read(&image);

    assert_eq!(metadata.web.description.value.as_deref(), Some("Simple ASCII alt text"));
    assert!(matches!(metadata.web.description.status, MetadataStatus::Present));
}

#[test]
fn clears_alt_text() {
    let mut image = jpeg();
    apply(&mut image, &MetadataEdit { alt_text: Some("Text to clear".to_string()), ..Default::default() });
    apply(&mut image, &MetadataEdit { alt_text: Some(String::new()), ..Default::default() });

    let metadata = read(&image);

    assert_eq!(metadata.web.description.value, None);
    assert!(matches!(metadata.web.description.status, MetadataStatus::Missing));
}

#[test]
fn sets_valid_gps_and_reader_can_reread_it() {
    let mut image = jpeg();
    apply(&mut image, &MetadataEdit { gps: position(40.416775, -3.703790), ..Default::default() });

    let metadata = read(&image);

    assert_close(decimal(metadata.seo.latitude.value.expect("latitude")), 40.416775);
    assert_close(decimal(metadata.seo.longitude.value.expect("longitude")), -3.703790);
    assert!(metadata.privacy.has_gps);
}

#[test]
fn changes_existing_gps_and_reader_sees_new_coordinates() {
    let mut image = jpeg();
    apply(&mut image, &MetadataEdit { gps: position(40.416775, -3.703790), ..Default::default() });
    apply(&mut image, &MetadataEdit { gps: position(41.387397, 2.168568), ..Default::default() });

    let metadata = read(&image);

    let latitude = decimal(metadata.seo.latitude.value.expect("latitude"));
    let longitude = decimal(metadata.seo.longitude.value.expect("longitude"));
    assert_close(latitude, 41.387397);
    assert_close(longitude, 2.168568);
    assert!((latitude - 40.416775).abs() > 0.000001);
    assert!((longitude - -3.703790).abs() > 0.000001);
    assert!(metadata.privacy.has_gps);
}

#[test]
fn removes_gps_and_reader_reports_no_gps() {
    let mut image = jpeg();
    apply(&mut image, &MetadataEdit { gps: position(40.416775, -3.703790), ..Default::default() });
    apply(&mut image, &MetadataEdit { remove_gps: true, ..Default::default() });

    let metadata = read(&image);

    assert_eq!(metadata.seo.latitude.value, None);
    assert_eq!(metadata.seo.longitude.value, None);
    assert!(!metadata.privacy.has_gps);
}

#[test]
fn removes_extra_gps_tags_beyond_coordinates() {
    let mut image = jpeg();
    apply(&mut image, &MetadataEdit { gps: position(40.416775, -3.703790), ..Default::default() });
    let mut seeded = tags_of(&image);
    seeded.set_tag(ExifTag::GPSAltitudeRef(vec![0]));
    seeded.set_tag(ExifTag::GPSAltitude(vec![uR64 { nominator: 650, denominator: 1 }]));
    seeded.write_to_vec(&mut image, FileExtension::JPEG).expect("seed altitude");

    let before = tags_of(&image);
    assert_eq!(before.get_tag(&ExifTag::GPSAltitude(Vec::new())).count(), 1);

    apply(&mut image, &MetadataEdit { remove_gps: true, ..Default::default() });

    let after = tags_of(&image);
    assert_eq!(after.get_tag(&ExifTag::GPSAltitude(Vec::new())).count(), 0);
    assert_eq!(after.get_tag(&ExifTag::GPSAltitudeRef(Vec::new())).count(), 0);
}

#[test]
fn removes_software_ai_marker() {
    let mut image = jpeg();
    let mut seeded = tags_of(&image);
    seeded.set_tag(ExifTag::Software("Stable Diffusion".to_string()));
    seeded.write_to_vec(&mut image, FileExtension::JPEG).expect("seed software");

    let before = read(&image);
    assert_eq!(before.ai.software.value.as_deref(), Some("Stable Diffusion"));
    assert!(before.ai.detected);

    apply(&mut image, &MetadataEdit { remove_ai: true, ..Default::default() });

    let after = read(&image);
    assert_eq!(after.ai.software.value, None);
    assert!(!after.ai.detected);
}

#[test]
fn an_edit_keeps_the_tags_it_does_not_name() {
    let mut image = jpeg();
    let mut seeded = tags_of(&image);
    seeded.set_tag(ExifTag::Artist("Ana".to_string()));
    seeded.set_tag(ExifTag::Copyright("CC BY".to_string()));
    seeded.write_to_vec(&mut image, FileExtension::JPEG).expect("seed rights");

    apply(
        &mut image,
        &MetadataEdit {
            alt_text: Some("Playa".to_string()),
            gps: position(-33.8688, 151.2093),
            remove_gps: false,
            remove_ai: true,
        },
    );

    let metadata = read(&image);
    assert_eq!(metadata.rights.author.value.as_deref(), Some("Ana"));
    assert_eq!(metadata.rights.copyright.value.as_deref(), Some("CC BY"));
    assert_eq!(metadata.web.description.value.as_deref(), Some("Playa"));
    let latitude = metadata.seo.latitude.value.expect("latitude");
    assert!(latitude.negative);
    assert_close(decimal(latitude), -33.8688);
    assert_close(decimal(metadata.seo.longitude.value.expect("longitude")), 151.2093);
}
