use lazarobox_img::metadata::editor::{
    backup_file_name, ensure_supported, plan, EditError, EditStep, GpsPosition, MetadataEdit,
};
use lazarobox_img::metadata::exif::{ExifEntry, ExifTagKind};
use lazarobox_img::metadata::image::{GpsCoordinate, Rational};
use lazarobox_img::metadata::parsers::{normalize_string, parse_all, set_string_field};
use lazarobox_img::metadata::plan::{build_remove_ai_plan, MetadataAction};
use lazarobox_img::metadata::writer::apply;
use lazarobox_img::metadata::{read_metadata, ImageMetadata, MetadataField, MetadataStatus};

struct RawTag {
    number: u16,
    kind: u16,
    count: u32,
    data: Vec<u8>,
}

fn ascii_tag(number: u16, text: &str) -> RawTag {
    let mut data = text.as_bytes().to_vec();
    data.push(0);
    RawTag { number, kind: 2, count: data.len() as u32, data }
}

fn rational_tag(number: u16, values: &[(u32, u32)]) -> RawTag {
    let mut data = Vec::new();
    for (num, denom) in values {
        data.extend_from_slice(&num.to_le_bytes());
        data.extend_from_slice(&denom.to_le_bytes());
    }
    RawTag { number, kind: 5, count: values.len() as u32, data }
}

fn long_tag(number: u16, value: u32) -> RawTag {
    RawTag { number, kind: 4, count: 1, data: value.to_le_bytes().to_vec() }
}

fn padded(len: usize) -> usize {
    len + len % 2
}

fn ifd_size(tags: &[RawTag]) -> usize {
    let data: usize = tags.iter().filter(|t| t.data.len() > 4).map(|t| padded(t.data.len())).sum();
    2 + 12 * tags.len() + 4 + data
}

fn write_ifd(out: &mut Vec<u8>, tags: &[RawTag]) {
    let start = out.len();
    let mut data_offset = start + 2 + 12 * tags.len() + 4;
    let mut data = Vec::new();
    out.extend_from_slice(&(tags.len() as u16).to_le_bytes());
    for tag in tags {
        out.extend_from_slice(&tag.number.to_le_bytes());
        out.extend_from_slice(&tag.kind.to_le_bytes());
        out.extend_from_slice(&tag.count.to_le_bytes());
        if tag.data.len() <= 4 {
            let mut inline = tag.data.clone();
            inline.resize(4, 0);
            out.extend_from_slice(&inline);
        } else {
            out.extend_from_slice(&(data_offset as u32).to_le_bytes());
            data.extend_from_slice(&tag.data);
            if tag.data.len() % 2 == 1 {
                data.push(0);
            }
            data_offset += padded(tag.data.len());
        }
    }
    out.extend_from_slice(&0u32.to_le_bytes());
    out.extend_from_slice(&data);
}

/// A JPEG whose only segment is an EXIF block with the given primary and GPS tags.
fn jpeg_with_exif(primary: Vec<RawTag>, gps: Vec<RawTag>) -> Vec<u8> {
    let mut primary = primary;
    if !gps.is_empty() {
        let size_with_pointer = ifd_size(&primary) + 12;
        primary.push(long_tag(0x8825, (8 + size_with_pointer) as u32));
    }
    let mut tiff = vec![b'I', b'I', 42, 0, 8, 0, 0, 0];
    write_ifd(&mut tiff, &primary);
    if !gps.is_empty() {
        write_ifd(&mut tiff, &gps);
    }
    let mut jpeg = vec![0xff, 0xd8, 0xff, 0xe1];
    let length = (2 + 6 + tiff.len()) as u16;
    jpeg.extend_from_slice(&length.to_be_bytes());
    jpeg.extend_from_slice(b"Exif\0\0");
    jpeg.extend_from_slice(&tiff);
    jpeg.extend_from_slice(&[0xff, 0xd9]);
    jpeg
}

fn text_entry(number: u16, text: &str) -> ExifEntry {
    ExifEntry { number, tiff: true, gps: false, ifd: 0, text: text.to_string(), rationals: Vec::new() }
}

fn gps_entry(number: u16, text: &str, rationals: Vec<Rational>) -> ExifEntry {
    ExifEntry { number, tiff: false, gps: true, ifd: 0, text: text.to_string(), rationals }
}

fn r(num: u32, denom: u32) -> Rational {
    Rational { num, denom }
}

fn value(field: &MetadataField<String>) -> Option<&str> {
    field.value.as_deref()
}

#[test]
fn rejects_unsupported_extension_with_clear_error() {
    let error = plan("image.png", &MetadataEdit::default()).expect_err("png should be rejected");

    assert!(error.message().contains("Escritura de metadatos no soportada en .png"));
}

#[test]
fn creates_unique_backup_names_for_same_original() {
    let first = backup_file_name("image.jpg", 4242, 1_700_000_000_123_456_789, 0);
    let second = backup_file_name("image.jpg", 4242, 1_700_000_000_123_456_789, 1);

    assert_ne!(first, second);
    assert!(first.starts_with(".image.jpg.lazarobox-backup-"));
    assert_eq!(first, ".image.jpg.lazarobox-backup-4242-1700000000123456789-0");
    assert_eq!(second, ".image.jpg.lazarobox-backup-4242-1700000000123456789-1");
}

#[test]
fn backup_name_of_zero_values() {
    assert_eq!(backup_file_name("a.webp", 0, 0, 0), ".a.webp.lazarobox-backup-0-0-0");
}

#[test]
fn supported_extensions_in_any_case() {
    assert!(ensure_supported("foto.jpg").is_ok());
    assert!(ensure_supported("foto.JPEG").is_ok());
    assert!(ensure_supported("dir/foto.WebP").is_ok());
    match ensure_supported("foto.PNG") {
        Err(EditError::Unsupported(ext)) => assert_eq!(ext, "png"),
        other => panic!("unexpected {:?}", other),
    }
    assert!(matches!(ensure_supported("sin_extension"), Err(EditError::UnknownFormat)));
    assert_eq!(
        EditError::UnknownFormat.message(),
        "No se pudo determinar el formato de la imagen"
    );
    assert_eq!(
        EditError::Unsupported("gif".to_string()).message(),
        "Escritura de metadatos no soportada en .gif (usá JPEG o WebP)"
    );
}

#[test]
fn plan_lists_the_steps_of_an_edit_in_order() {
    let north = GpsCoordinate { degrees: r(40, 1), minutes: r(0, 1), seconds: r(0, 1), negative: false };
    let edit = MetadataEdit {
        alt_text: Some("Perro en la playa".to_string()),
        gps: Some(GpsPosition { latitude: north, longitude: north }),
        remove_gps: false,
        remove_ai: true,
    };
    let steps = plan("foto.jpg", &edit).expect("jpg is writable");
    assert_eq!(steps.len(), 3);
    assert!(matches!(&steps[0], EditStep::SetDescription(t) if t == "Perro en la playa"));
    assert!(matches!(steps[1], EditStep::SetGps(p) if p.latitude == north));
    assert!(matches!(steps[2], EditStep::RemoveSoftware));
}

#[test]
fn blank_alt_text_removes_the_description_and_remove_gps_wins() {
    let south = GpsCoordinate { degrees: r(3, 1), minutes: r(0, 1), seconds: r(0, 1), negative: true };
    let edit = MetadataEdit {
        alt_text: Some("   \t ".to_string()),
        gps: Some(GpsPosition { latitude: south, longitude: south }),
        remove_gps: true,
        remove_ai: false,
    };
    let steps = plan("foto.webp", &edit).expect("webp is writable");
    assert_eq!(steps.len(), 2);
    assert!(matches!(steps[0], EditStep::RemoveDescription));
    assert!(matches!(steps[1], EditStep::RemoveGps));
    let none = plan("foto.jpeg", &MetadataEdit::default()).expect("jpeg is writable");
    assert!(none.is_empty());
}

#[test]
fn set_string_field_stores_the_clean_text() {
    let mut field: MetadataField<String> = MetadataField::missing();
    set_string_field(&mut field, "  \"Hola\\x0a   mundo\r\"  ".to_string());
    assert_eq!(value(&field), Some("Hola mundo"));
    assert_eq!(field.status, MetadataStatus::Present);

    set_string_field(&mut field, "  \"\"  ".to_string());
    assert_eq!(value(&field), Some("Hola mundo"));
    assert_eq!(normalize_string("  \"a \t\n b\"  "), "a b");
    assert_eq!(normalize_string("\"  \"x"), "\"x");
}

#[test]
fn parse_all_fills_text_fields_and_flags_ai() {
    let entries = vec![
        text_entry(0x10e, "\"  Perro   en la playa \""),
        text_entry(0x131, "\"Stable Diffusion XL\""),
        text_entry(0x13b, "\"Ana\""),
        text_entry(0x8298, "\"(c) Ana\""),
    ];
    let mut metadata = ImageMetadata::default();
    parse_all(&entries, &mut metadata);

    assert_eq!(value(&metadata.web.description), Some("Perro en la playa"));
    assert_eq!(value(&metadata.ai.software), Some("Stable Diffusion XL"));
    assert!(metadata.ai.detected);
    assert_eq!(value(&metadata.rights.author), Some("Ana"));
    assert_eq!(value(&metadata.rights.copyright), Some("(c) Ana"));
    assert!(!metadata.privacy.has_gps);
    assert_eq!(metadata.seo.latitude.status, MetadataStatus::Missing);
}

#[test]
fn ordinary_software_is_not_ai() {
    let entries = vec![text_entry(0x131, "\"GIMP 2.10\"")];
    let mut metadata = ImageMetadata::default();
    parse_all(&entries, &mut metadata);
    assert!(!metadata.ai.detected);
    assert_eq!(value(&metadata.ai.software), Some("GIMP 2.10"));
}

#[test]
fn parse_all_reads_signed_coordinates() {
    let dms = vec![r(40, 1), r(25, 1), r(0, 1)];
    let entries = vec![
        gps_entry(0x1, "S", Vec::new()),
        gps_entry(0x2, "40 deg 25 min 0 sec", dms.clone()),
        gps_entry(0x3, "E", Vec::new()),
        gps_entry(0x4, "3 deg 42 min 0 sec", vec![r(3, 1), r(42, 1), r(0, 1)]),
    ];
    let mut metadata = ImageMetadata::default();
    parse_all(&entries, &mut metadata);

    assert!(metadata.privacy.has_gps);
    assert_eq!(
        metadata.seo.latitude.value,
        Some(GpsCoordinate { degrees: r(40, 1), minutes: r(25, 1), seconds: r(0, 1), negative: true })
    );
    assert_eq!(metadata.seo.latitude.status, MetadataStatus::Present);
    assert_eq!(
        metadata.seo.longitude.value,
        Some(GpsCoordinate { degrees: r(3, 1), minutes: r(42, 1), seconds: r(0, 1), negative: false })
    );
}

#[test]
fn coordinates_need_three_rationals() {
    let entries = vec![gps_entry(0x2, "40", vec![r(40, 1), r(25, 1)])];
    let mut metadata = ImageMetadata::default();
    parse_all(&entries, &mut metadata);
    assert!(!metadata.privacy.has_gps);
    assert!(metadata.seo.latitude.value.is_none());
}

#[test]
fn tag_kinds_match_their_context() {
    let description = text_entry(0x10e, "x");
    assert!(description.is(ExifTagKind::ImageDescription));
    assert!(!description.is(ExifTagKind::Software));
    let not_gps = text_entry(0x2, "x");
    assert!(!not_gps.is(ExifTagKind::GpsLatitude));
}

#[test]
fn reads_metadata_from_jpeg_bytes() {
    let bytes = jpeg_with_exif(
        vec![
            ascii_tag(0x10e, "  Simple ASCII alt text "),
            ascii_tag(0x131, "Midjourney v6"),
            ascii_tag(0x13b, "Ana"),
            ascii_tag(0x8298, "CC BY 4.0"),
        ],
        vec![
            ascii_tag(0x1, "N"),
            rational_tag(0x2, &[(40, 1), (24, 1), (3003, 100)]),
            ascii_tag(0x3, "W"),
            rational_tag(0x4, &[(3, 1), (42, 1), (1336, 100)]),
        ],
    );
    let metadata = read_metadata(&bytes);

    assert_eq!(value(&metadata.web.description), Some("Simple ASCII alt text"));
    assert_eq!(value(&metadata.ai.software), Some("Midjourney v6"));
    assert!(metadata.ai.detected);
    assert_eq!(value(&metadata.rights.author), Some("Ana"));
    assert_eq!(value(&metadata.rights.copyright), Some("CC BY 4.0"));
    assert!(metadata.privacy.has_gps);
    assert_eq!(
        metadata.seo.latitude.value,
        Some(GpsCoordinate { degrees: r(40, 1), minutes: r(24, 1), seconds: r(3003, 100), negative: false })
    );
    assert_eq!(
        metadata.seo.longitude.value,
        Some(GpsCoordinate { degrees: r(3, 1), minutes: r(42, 1), seconds: r(1336, 100), negative: true })
    );
}

#[test]
fn unreadable_bytes_give_empty_metadata() {
    let metadata = read_metadata(b"not an image at all");
    assert!(metadata.web.description.value.is_none());
    assert_eq!(metadata.web.description.status, MetadataStatus::Missing);
    assert!(!metadata.ai.detected);
    assert!(!metadata.privacy.has_gps);
    assert_eq!(metadata.technical.width, 0);
}

#[test]
fn remove_ai_plan_clears_only_ai_fields() {
    let mut metadata = ImageMetadata::default();
    metadata.ai.detected = true;
    metadata.ai.software = MetadataField { value: Some("Flux".to_string()), status: MetadataStatus::Present };
    metadata.rights.author = MetadataField { value: Some("Ana".to_string()), status: MetadataStatus::Present };
    let plan = build_remove_ai_plan(&metadata);
    assert_eq!(plan.ai_software, MetadataAction::Remove);
    assert_eq!(plan.gps, MetadataAction::Preserve);

    apply(&mut metadata, &plan);
    assert!(metadata.ai.software.value.is_none());
    assert_eq!(metadata.ai.software.status, MetadataStatus::Removed);
    assert_eq!(metadata.ai.model.status, MetadataStatus::Removed);
    assert!(metadata.ai.detected);
    assert_eq!(value(&metadata.rights.author), Some("Ana"));
    assert_eq!(metadata.rights.author.status, MetadataStatus::Present);

    apply(&mut metadata, &plan);
    assert_eq!(metadata.ai.software.status, MetadataStatus::Removed);
    assert_eq!(value(&metadata.rights.author), Some("Ana"));
}
