use chronolens::bus::{message_media_id, Reply};
use chronolens::catalog::DbManager;
use chronolens::metadata::{
    coordinate, extract_image_width, extract_latitude, extract_longitude, extract_make,
    extract_metadata, extract_orientation, handle_request, read_exif, to_signed,
    Rational,
};
use chronolens::preview::{
    after_heif, after_storing, create_preview, decode_general, encode_preview,
    is_heif, preview_key, preview_width, Fetched, PreviewStep, PREVIEW_HEIGHT,
};

fn exif_bytes(west: bool) -> Vec<u8> {
    let rational = |n: u32, d: u32| exif::Rational { num: n, denom: d };
    let fields = vec![
        exif::Field {
            tag: exif::Tag::Make,
            ifd_num: exif::In::PRIMARY,
            value: exif::Value::Ascii(vec![b"Canon".to_vec()]),
        },
        exif::Field {
            tag: exif::Tag::Orientation,
            ifd_num: exif::In::PRIMARY,
            value: exif::Value::Short(vec![6]),
        },
        exif::Field {
            tag: exif::Tag::ImageWidth,
            ifd_num: exif::In::PRIMARY,
            value: exif::Value::Long(vec![4000]),
        },
        exif::Field {
            tag: exif::Tag::FNumber,
            ifd_num: exif::In::PRIMARY,
            value: exif::Value::Rational(vec![rational(28, 10)]),
        },
        exif::Field {
            tag: exif::Tag::GPSLongitude,
            ifd_num: exif::In::PRIMARY,
            value: exif::Value::Rational(vec![rational(8, 1), rational(30, 1), rational(15, 2)]),
        },
        exif::Field {
            tag: exif::Tag::GPSLongitudeRef,
            ifd_num: exif::In::PRIMARY,
            value: exif::Value::Ascii(vec![if west { b"W".to_vec() } else { b"E".to_vec() }]),
        },
        exif::Field {
            tag: exif::Tag::GPSLatitude,
            ifd_num: exif::In::PRIMARY,
            value: exif::Value::Rational(vec![rational(47, 1), rational(0, 1)]),
        },
    ];
    let mut writer = exif::experimental::Writer::new();
    for f in &fields {
        writer.push_field(f);
    }
    let mut out = std::io::Cursor::new(Vec::new());
    writer.write(&mut out, false).expect("attributes are written");
    out.into_inner()
}

fn png(width: u32, height: u32, alpha: bool) -> Vec<u8> {
    let img = if alpha {
        image::DynamicImage::ImageRgba8(image::RgbaImage::from_pixel(width, height, image::Rgba([255, 0, 0, 128])))
    } else {
        image::DynamicImage::ImageRgb8(image::RgbImage::from_pixel(width, height, image::Rgb([255, 0, 0])))
    };
    let mut bytes = Vec::new();
    img.write_to(&mut std::io::Cursor::new(&mut bytes), image::ImageFormat::Png).expect("png is written");
    bytes
}

fn size_of(bytes: &[u8]) -> (u32, u32, bool) {
    let img = image::load_from_memory(bytes).expect("preview decodes");
    (img.width(), img.height(), img.color().has_alpha())
}

#[test]
fn exif_attributes_are_extracted() {
    let exif = read_exif(&exif_bytes(true)).expect("attributes are readable");
    assert_eq!(extract_make(&exif).as_deref(), Some("Canon"));
    assert_eq!(extract_orientation(&exif), Some(6));
    assert_eq!(extract_image_width(&exif), Some(4000));
    let lon = extract_longitude(&exif).expect("there is a longitude");
    assert_eq!((lon.degrees.num, lon.degrees.denom), (8, 1));
    assert_eq!((lon.minutes.num, lon.seconds.num, lon.seconds.denom), (30, 15, 2));
    assert!(lon.negative);
    assert!(extract_latitude(&exif).is_none());
    let md = extract_metadata(&exif);
    assert_eq!(md.make.as_deref(), Some("Canon"));
    assert_eq!(md.fnumber.as_deref(), Some("2.8"));
    assert!(md.model.is_none() && md.exposure_time.is_none() && md.image_length.is_none());
    assert_eq!(md.orientation, Some(6));
}

#[test]
fn east_is_positive() {
    let exif = read_exif(&exif_bytes(false)).expect("attributes are readable");
    assert!(!extract_longitude(&exif).expect("there is a longitude").negative);
}

#[test]
fn coordinate_needs_three_rationals() {
    let r = |n| Rational { num: n, denom: 1 };
    let c = coordinate(Some(vec![r(1), r(2), r(3)]), Some(b"S".to_vec()), b'S').expect("three rationals");
    assert_eq!((c.degrees.num, c.minutes.num, c.seconds.num, c.negative), (1, 2, 3, true));
    assert!(!coordinate(Some(vec![r(1), r(2), r(3)]), Some(b"N".to_vec()), b'S').expect("three").negative);
    assert!(!coordinate(Some(vec![r(1), r(2), r(3)]), Some(b"SS".to_vec()), b'S').expect("three").negative);
    assert!(!coordinate(Some(vec![r(1), r(2), r(3)]), None, b'S').expect("three").negative);
    assert!(coordinate(Some(vec![r(1), r(2)]), Some(b"S".to_vec()), b'S').is_none());
    assert!(coordinate(Some(vec![r(1), r(2), r(3), r(4)]), None, b'S').is_none());
    assert!(coordinate(None, Some(b"S".to_vec()), b'S').is_none());
}

#[test]
fn unsigned_is_read_as_signed() {
    assert_eq!(to_signed(0), 0);
    assert_eq!(to_signed(4000), 4000);
    assert_eq!(to_signed(2147483647), i32::MAX);
    assert_eq!(to_signed(2147483648), i32::MIN);
    assert_eq!(to_signed(u32::MAX), -1);
}

#[test]
fn message_names_a_media() {
    assert_eq!(message_media_id(b"m1"), Some("m1".to_string()));
    assert_eq!(message_media_id(&[0xff]), None);
}

#[test]
fn metadata_worker_files_the_attributes() {
    let mut c = DbManager::new();
    assert_eq!(c.add_media("alice".into(), "m1".into(), "h".into(), 1, 1, "f".into(), 10), Ok(()));
    let bytes = exif_bytes(true);
    assert_eq!(handle_request(&mut c, b"m1", Some(&bytes), 50), Reply::Ack);
    let m = c.get_media("m1").expect("m1 exists");
    assert_eq!(m.metadata.make.as_deref(), Some("Canon"));
    assert_eq!(m.last_modified_at, 50);
    assert!(m.preview_id.is_none());
    assert_eq!(handle_request(&mut c, b"m1", Some(&bytes), 60), Reply::Ack);
    assert_eq!(c.media.len(), 1);
}

#[test]
fn metadata_worker_gives_up_on_poison() {
    let mut c = DbManager::new();
    assert_eq!(c.add_media("alice".into(), "m1".into(), "h".into(), 1, 1, "f".into(), 10), Ok(()));
    assert_eq!(handle_request(&mut c, b"m1", Some(b"no attributes here"), 50), Reply::Term);
    assert_eq!(handle_request(&mut c, &[0xff], Some(&exif_bytes(true)), 50), Reply::Term);
    assert_eq!(handle_request(&mut c, b"m1", None, 50), Reply::Nak);
    assert_eq!(c.media[0].last_modified_at, 10);
}

#[test]
fn preview_width_keeps_the_aspect() {
    assert_eq!(PREVIEW_HEIGHT, 200);
    assert_eq!(preview_width(3, 3, 200), Some(200));
    assert_eq!(preview_width(4000, 3000, 200), Some(267));
    assert_eq!(preview_width(3000, 4000, 200), Some(150));
    assert_eq!(preview_width(1, 400, 200), Some(1));
    assert_eq!(preview_width(1, 401, 200), Some(1));
    assert_eq!(preview_width(1, 100000, 200), Some(1));
    assert_eq!(preview_width(3, 400, 200), Some(2));
    assert_eq!(preview_width(u32::MAX, 1, 200), Some(u32::MAX));
    assert_eq!(preview_width(10, 0, 200), None);
}

#[test]
fn preview_key_is_derived_from_the_media_id() {
    assert_eq!(preview_key("m1"), "prev/m1");
    assert_eq!(preview_key("m1"), preview_key("m1"));
    assert!(is_heif("image/heic") && is_heif("image/heif"));
    assert!(!is_heif("image/png") && !is_heif(""));
}

#[test]
fn preview_is_200_pixels_high() {
    let orig = decode_general(&png(30, 10, false)).expect("png decodes");
    let p = create_preview(&orig, 200).expect("a preview can be made");
    let rendered = encode_preview(&p).expect("the preview is encoded");
    assert_eq!(rendered.content_type, "image/jpeg");
    assert_eq!(size_of(&rendered.bytes), (600, 200, false));
    assert_eq!(&rendered.bytes[..2], &[0xff, 0xd8]);
}

#[test]
fn preview_of_an_original_with_alpha_is_a_png() {
    let step = chronolens::preview::handle_request(
        b"m1",
        Fetched::Found { content_type: Some("image/png".into()), bytes: png(3, 3, true) },
    );
    match step {
        PreviewStep::Store { key, preview } => {
            assert_eq!(key, "prev/m1");
            assert_eq!(preview.content_type, "image/png");
            assert_eq!(size_of(&preview.bytes), (200, 200, true));
        }
        _ => panic!("the preview is to be stored"),
    }
}

#[test]
fn preview_worker_decides_by_what_was_fetched() {
    assert!(matches!(chronolens::preview::handle_request(b"m1", Fetched::Missing), PreviewStep::Answer(Reply::Term)));
    assert!(matches!(chronolens::preview::handle_request(b"m1", Fetched::Failed), PreviewStep::Answer(Reply::Nak)));
    assert!(matches!(chronolens::preview::handle_request(&[0xff], Fetched::Failed), PreviewStep::Answer(Reply::Term)));
    let heic = Fetched::Found { content_type: Some("image/heic".into()), bytes: vec![1, 2, 3] };
    assert!(matches!(chronolens::preview::handle_request(b"m1", heic), PreviewStep::DecodeHeif));
    let junk = Fetched::Found { content_type: None, bytes: vec![1, 2, 3] };
    assert!(matches!(chronolens::preview::handle_request(b"m1", junk), PreviewStep::Answer(Reply::Term)));
    let plain = Fetched::Found { content_type: None, bytes: png(4, 2, false) };
    match chronolens::preview::handle_request(b"m1", plain) {
        PreviewStep::Store { key, preview } => {
            assert_eq!(key, "prev/m1");
            assert_eq!(preview.content_type, "image/jpeg");
            assert_eq!(size_of(&preview.bytes), (400, 200, false));
        }
        _ => panic!("the preview is to be stored"),
    }
}

#[test]
fn heif_pixels_are_rendered_as_jpeg() {
    match after_heif(b"m1", Some((2, 4, vec![9u8; 24]))) {
        PreviewStep::Store { key, preview } => {
            assert_eq!(key, "prev/m1");
            assert_eq!(preview.content_type, "image/jpeg");
            assert_eq!(size_of(&preview.bytes), (100, 200, false));
        }
        _ => panic!("the preview is to be stored"),
    }
    assert!(matches!(after_heif(b"m1", Some((2, 4, vec![9u8; 23]))), PreviewStep::Answer(Reply::Term)));
    assert!(matches!(after_heif(b"m1", None), PreviewStep::Answer(Reply::Term)));
}

#[test]
fn replayed_preview_message_leaves_the_same_state() {
    let mut c = DbManager::new();
    assert_eq!(c.add_media("alice".into(), "m1".into(), "h".into(), 1, 1, "f".into(), 10), Ok(()));
    assert_eq!(after_storing(&mut c, b"m1", Some(200), 20), Reply::Ack);
    let first = c.get_media("m1").and_then(|m| m.preview_id.clone());
    assert_eq!(first.as_deref(), Some("prev/m1"));
    assert_eq!(after_storing(&mut c, b"m1", Some(200), 30), Reply::Ack);
    let second = c.get_media("m1").and_then(|m| m.preview_id.clone());
    assert_eq!(first, second);
    assert_eq!(c.media.len(), 1);
    assert!(!c.media[0].deleted);
}

#[test]
fn preview_is_filed_only_after_a_200() {
    let mut c = DbManager::new();
    assert_eq!(c.add_media("alice".into(), "m1".into(), "h".into(), 1, 1, "f".into(), 10), Ok(()));
    assert_eq!(after_storing(&mut c, b"m1", Some(500), 20), Reply::Nak);
    assert_eq!(after_storing(&mut c, b"m1", Some(201), 20), Reply::Nak);
    assert_eq!(after_storing(&mut c, b"m1", None, 20), Reply::Nak);
    assert!(c.media[0].preview_id.is_none());
    assert_eq!(c.media[0].last_modified_at, 10);
    assert_eq!(after_storing(&mut c, b"m2", Some(200), 20), Reply::Nak);
    assert_eq!(after_storing(&mut c, &[0xff], Some(200), 20), Reply::Term);
}

fn jpeg_with_orientation(width: u32, height: u32, orientation: u16) -> Vec<u8> {
    let img = image::DynamicImage::ImageRgb8(image::RgbImage::from_pixel(
        width,
        height,
        image::Rgb([255, 0, 0]),
    ));
    let mut jpeg = Vec::new();
    img.write_to(&mut std::io::Cursor::new(&mut jpeg), image::ImageFormat::Jpeg).expect("jpeg is written");
    let field = exif::Field {
        tag: exif::Tag::Orientation,
        ifd_num: exif::In::PRIMARY,
        value: exif::Value::Short(vec![orientation]),
    };
    let mut writer = exif::experimental::Writer::new();
    writer.push_field(&field);
    let mut tiff = std::io::Cursor::new(Vec::new());
    writer.write(&mut tiff, false).expect("attributes are written");
    let tiff = tiff.into_inner();
    let mut out = vec![0xff, 0xd8, 0xff, 0xe1];
    out.extend_from_slice(&((2 + 6 + tiff.len()) as u16).to_be_bytes());
    out.extend_from_slice(b"Exif\0\0");
    out.extend_from_slice(&tiff);
    out.extend_from_slice(&jpeg[2..]);
    out
}

fn preview_size(bytes: &[u8]) -> (u32, u32, bool) {
    let orig = decode_general(bytes).expect("the original decodes");
    let p = create_preview(&orig, 200).expect("a preview can be made");
    size_of(&encode_preview(&p).expect("the preview is encoded").bytes)
}

#[test]
fn original_is_turned_as_its_orientation_asks() {
    assert_eq!(preview_size(&jpeg_with_orientation(30, 10, 1)), (600, 200, false));
    assert_eq!(preview_size(&jpeg_with_orientation(30, 10, 3)), (600, 200, false));
    assert_eq!(preview_size(&jpeg_with_orientation(30, 10, 6)), (67, 200, false));
    assert_eq!(preview_size(&jpeg_with_orientation(30, 10, 8)), (67, 200, false));
    assert_eq!(preview_size(&jpeg_with_orientation(30, 10, 9)), (600, 200, false));
    assert_eq!(preview_size(&jpeg_with_orientation(30, 10, 0)), (600, 200, false));
}

#[test]
fn same_original_gives_the_same_preview() {
    let fetch = || Fetched::Found { content_type: Some("image/png".into()), bytes: png(5, 7, true) };
    let stored = |step: PreviewStep| match step {
        PreviewStep::Store { key, preview } => (key, preview.content_type, preview.bytes),
        _ => panic!("the preview is to be stored"),
    };
    assert_eq!(stored(chronolens::preview::handle_request(b"m1", fetch())), stored(chronolens::preview::handle_request(b"m1", fetch())));
}

#[test]
fn metadata_of_an_unknown_media_is_dropped() {
    let mut c = DbManager::new();
    assert_eq!(c.add_media("alice".into(), "m1".into(), "h".into(), 1, 1, "f".into(), 10), Ok(()));
    assert_eq!(handle_request(&mut c, b"m2", Some(&exif_bytes(true)), 50), Reply::Ack);
    assert_eq!(c.media.len(), 1);
    assert_eq!(c.media[0].last_modified_at, 10);
    assert!(c.media[0].metadata.make.is_none());
}

#[test]
fn quotes_are_dropped_from_make_and_model() {
    let field = exif::Field {
        tag: exif::Tag::Model,
        ifd_num: exif::In::PRIMARY,
        value: exif::Value::Ascii(vec![b"EOS \"R\" 5".to_vec()]),
    };
    let mut writer = exif::experimental::Writer::new();
    writer.push_field(&field);
    let mut out = std::io::Cursor::new(Vec::new());
    writer.write(&mut out, false).expect("attributes are written");
    let exif = read_exif(&out.into_inner()).expect("attributes are readable");
    let model = chronolens::metadata::extract_model(&exif).expect("there is a model");
    assert!(!model.contains('"'));
    assert!(model.starts_with("EOS"));
}

#[test]
fn every_attribute_is_read_under_its_number() {
    let rational = |n: u32, d: u32| exif::Rational { num: n, denom: d };
    let field = |tag: exif::Tag, value: exif::Value| exif::Field { tag, ifd_num: exif::In::PRIMARY, value };
    let fields = vec![
        field(exif::Tag::ImageWidth, exif::Value::Long(vec![640])),
        field(exif::Tag::ImageLength, exif::Value::Long(vec![480])),
        field(exif::Tag::Make, exif::Value::Ascii(vec![b"Nikon".to_vec()])),
        field(exif::Tag::Model, exif::Value::Ascii(vec![b"D5".to_vec()])),
        field(exif::Tag::Orientation, exif::Value::Short(vec![3])),
        field(exif::Tag::ExposureTime, exif::Value::Rational(vec![rational(1, 250)])),
        field(exif::Tag::FNumber, exif::Value::Rational(vec![rational(4, 1)])),
        field(exif::Tag::PhotographicSensitivity, exif::Value::Short(vec![800])),
        field(exif::Tag::GPSLatitudeRef, exif::Value::Ascii(vec![b"S".to_vec()])),
        field(
            exif::Tag::GPSLatitude,
            exif::Value::Rational(vec![rational(33, 1), rational(51, 1), rational(30, 1)]),
        ),
        field(exif::Tag::GPSLongitudeRef, exif::Value::Ascii(vec![b"E".to_vec()])),
        field(
            exif::Tag::GPSLongitude,
            exif::Value::Rational(vec![rational(151, 1), rational(12, 1), rational(0, 1)]),
        ),
    ];
    let mut writer = exif::experimental::Writer::new();
    for f in &fields {
        writer.push_field(f);
    }
    let mut out = std::io::Cursor::new(Vec::new());
    writer.write(&mut out, false).expect("attributes are written");
    let exif = read_exif(&out.into_inner()).expect("attributes are readable");
    let md = extract_metadata(&exif);
    assert_eq!(md.image_width, Some(640));
    assert_eq!(md.image_length, Some(480));
    assert_eq!(md.make.as_deref(), Some("Nikon"));
    assert_eq!(md.model.as_deref(), Some("D5"));
    assert_eq!(md.orientation, Some(3));
    assert_eq!(md.exposure_time.as_deref(), Some("1/250"));
    assert_eq!(md.fnumber.as_deref(), Some("4"));
    assert_eq!(md.photographic_sensitivity.as_deref(), Some("800"));
    let lat = md.latitude.expect("there is a latitude");
    assert_eq!((lat.degrees.num, lat.minutes.num, lat.seconds.num, lat.negative), (33, 51, 30, true));
    let lon = md.longitude.expect("there is a longitude");
    assert_eq!((lon.degrees.num, lon.minutes.num, lon.seconds.num, lon.negative), (151, 12, 0, false));
}
