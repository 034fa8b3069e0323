use exif::experimental::Writer;
use exif::{Field, In, Rational, Tag, Value};

use dji_photo_coords::batch::collect_rows;
use dji_photo_coords::exif_io::extract_record;
use dji_photo_coords::parse::{ExtractError, GpsTag};

fn rational_field(tag: Tag, components: Vec<(u32, u32)>) -> Field {
    Field {
        tag,
        ifd_num: In::PRIMARY,
        value: Value::Rational(
            components.into_iter().map(|(num, denom)| Rational { num, denom }).collect(),
        ),
    }
}

fn ascii_field(tag: Tag, letter: &str) -> Field {
    Field { tag, ifd_num: In::PRIMARY, value: Value::Ascii(vec![letter.as_bytes().to_vec()]) }
}

fn exif_bytes(fields: &[Field]) -> Vec<u8> {
    let mut writer = Writer::new();
    for f in fields {
        writer.push_field(f);
    }
    let mut buf = std::io::Cursor::new(Vec::new());
    writer.write(&mut buf, false).unwrap();
    buf.into_inner()
}

fn all_five_fields() -> Vec<Field> {
    vec![
        rational_field(Tag::GPSLatitude, vec![(34, 1), (5, 1), (1234, 100)]),
        ascii_field(Tag::GPSLatitudeRef, "N"),
        rational_field(Tag::GPSLongitude, vec![(118, 1), (14, 1), (5678, 100)]),
        ascii_field(Tag::GPSLongitudeRef, "W"),
        rational_field(Tag::GPSAltitude, vec![(12345, 100)]),
    ]
}

#[test]
fn decoded_image_with_all_tags_yields_exact_row() {
    let bytes = exif_bytes(&all_five_fields());
    let rec = extract_record(&bytes, "DJI_0001.jpg".to_string()).unwrap();
    assert_eq!(rec.file_name, "DJI_0001.jpg");
    assert_eq!(rec.lat_dms, "34° 5' 12.34\" N");
    assert_eq!(rec.lon_dms, "118° 14' 56.78\" W");
    assert_eq!(rec.lat_dd, "34.086761");
    assert_eq!(rec.lon_dd, "-118.249106");
    assert_eq!(rec.alt_m, "123.45");
    assert_eq!(rec.alt_ft, "405.02");
}

#[test]
fn image_without_altitude_is_skipped_but_batch_continues() {
    let four = vec![
        rational_field(Tag::GPSLatitude, vec![(34, 1), (5, 1), (1234, 100)]),
        ascii_field(Tag::GPSLatitudeRef, "N"),
        rational_field(Tag::GPSLongitude, vec![(118, 1), (14, 1), (5678, 100)]),
        ascii_field(Tag::GPSLongitudeRef, "W"),
    ];
    let incomplete = extract_record(&exif_bytes(&four), "bad.jpg".to_string());
    assert_eq!(
        incomplete.as_ref().unwrap_err(),
        &ExtractError::MissingTag(GpsTag::Altitude)
    );
    let complete = extract_record(&exif_bytes(&all_five_fields()), "good.jpg".to_string());
    assert!(complete.is_ok());
    let (rows, count) = collect_rows(vec![incomplete, complete]);
    assert_eq!(count, 1);
    assert_eq!(rows[0].file_name, "good.jpg");
}

#[test]
fn undecodable_bytes_fail_with_decode_error() {
    let r = extract_record(b"not an image at all", "noise.jpg".to_string());
    assert_eq!(r.unwrap_err(), ExtractError::ExifDecode);
}

#[test]
fn southern_and_eastern_hemispheres_flip_signs() {
    let fields = vec![
        rational_field(Tag::GPSLatitude, vec![(34, 1), (5, 1), (1234, 100)]),
        ascii_field(Tag::GPSLatitudeRef, "S"),
        rational_field(Tag::GPSLongitude, vec![(118, 1), (14, 1), (5678, 100)]),
        ascii_field(Tag::GPSLongitudeRef, "E"),
        rational_field(Tag::GPSAltitude, vec![(12345, 100)]),
    ];
    let rec = extract_record(&exif_bytes(&fields), "s.jpg".to_string()).unwrap();
    assert_eq!(rec.lat_dd, "-34.086761");
    assert_eq!(rec.lon_dd, "118.249106");
    assert_eq!(rec.lat_dms, "34° 5' 12.34\" S");
    assert_eq!(rec.lon_dms, "118° 14' 56.78\" E");
}
