use dji_photo_coords::batch::collect_rows;
use dji_photo_coords::parse::{
    parse_altitude, parse_lat_ref, parse_lon_ref, parse_triple, ExtractError, GpsTag,
    HemisphereRef, RationalPair, RawField,
};
use dji_photo_coords::record::{build_record, csv_header, PhotoRecord};

fn pair(num: u32, den: u32) -> RationalPair {
    RationalPair { num, den }
}

fn lat_field() -> RawField {
    RawField::Rationals(vec![pair(34, 1), pair(5, 1), pair(1234, 100)])
}

fn lon_field() -> RawField {
    RawField::Rationals(vec![pair(118, 1), pair(14, 1), pair(5678, 100)])
}

fn ascii(s: &str) -> RawField {
    RawField::Ascii(vec![s.as_bytes().to_vec()])
}

fn alt_field() -> RawField {
    RawField::Rationals(vec![pair(12345, 100)])
}

fn full_record() -> Result<PhotoRecord, ExtractError> {
    build_record(
        "DJI_0001.jpg".to_string(),
        Some(lat_field()),
        Some(ascii("N")),
        Some(lon_field()),
        Some(ascii("W")),
        Some(alt_field()),
    )
}

#[test]
fn all_five_tags_produce_one_exact_row() {
    let rec = full_record().unwrap();
    assert_eq!(rec.file_name, "DJI_0001.jpg");
    assert_eq!(rec.lat_dms, "34° 5' 12.34\" N");
    assert_eq!(rec.lon_dms, "118° 14' 56.78\" W");
    assert_eq!(rec.lat_dd, "34.086761");
    assert_eq!(rec.lon_dd, "-118.249106");
    assert_eq!(rec.alt_m, "123.45");
    assert_eq!(rec.alt_ft, "405.02");
    // six decimal places on coordinates, two on altitudes
    assert_eq!(rec.lat_dd.split('.').nth(1).unwrap().len(), 6);
    assert_eq!(rec.lon_dd.split('.').nth(1).unwrap().len(), 6);
    assert_eq!(rec.alt_m.split('.').nth(1).unwrap().len(), 2);
    assert_eq!(rec.alt_ft.split('.').nth(1).unwrap().len(), 2);
}

#[test]
fn record_to_row_keeps_column_order() {
    let rec = full_record().unwrap();
    let row = rec.to_row();
    assert_eq!(
        row,
        vec![
            "DJI_0001.jpg",
            "34° 5' 12.34\" N",
            "118° 14' 56.78\" W",
            "34.086761",
            "-118.249106",
            "123.45",
            "405.02",
        ]
    );
}

#[test]
fn missing_altitude_rejects_file_only() {
    let r = build_record(
        "a.jpg".to_string(),
        Some(lat_field()),
        Some(ascii("N")),
        Some(lon_field()),
        Some(ascii("W")),
        None,
    );
    assert_eq!(r.unwrap_err(), ExtractError::MissingTag(GpsTag::Altitude));
}

#[test]
fn missing_latitude_named_first() {
    let r = build_record("a.jpg".to_string(), None, None, None, None, None);
    assert_eq!(r.unwrap_err(), ExtractError::MissingTag(GpsTag::Latitude));
}

#[test]
fn failed_file_skipped_and_next_file_still_lands() {
    let bad = build_record(
        "bad.jpg".to_string(),
        Some(lat_field()),
        Some(ascii("N")),
        Some(lon_field()),
        Some(ascii("W")),
        None,
    );
    let good = full_record();
    let (rows, count) = collect_rows(vec![bad, good]);
    assert_eq!(count, 1);
    assert_eq!(rows.len(), 1);
    assert_eq!(rows[0].file_name, "DJI_0001.jpg");
}

#[test]
fn empty_batch_yields_zero_rows() {
    let (rows, count) = collect_rows(vec![]);
    assert_eq!(count, 0);
    assert!(rows.is_empty());
}

#[test]
fn header_row_has_the_seven_columns() {
    assert_eq!(
        csv_header(),
        vec![
            "FileName",
            "Latitude_DMS",
            "Longitude_DMS",
            "Latitude_DD",
            "Longitude_DD",
            "Altitude_m",
            "Altitude_ft",
        ]
    );
}

#[test]
fn triple_needs_three_rational_components() {
    let short = RawField::Rationals(vec![pair(34, 1), pair(5, 1)]);
    assert_eq!(parse_triple(&short).unwrap_err(), ExtractError::InvalidRational);
}

#[test]
fn triple_rejects_zero_denominator() {
    let broken = RawField::Rationals(vec![pair(34, 1), pair(5, 0), pair(1, 1)]);
    assert_eq!(parse_triple(&broken).unwrap_err(), ExtractError::InvalidRational);
}

#[test]
fn triple_rejects_wrong_shape() {
    assert_eq!(parse_triple(&ascii("34")).unwrap_err(), ExtractError::InvalidFieldShape);
    assert_eq!(parse_triple(&RawField::Other).unwrap_err(), ExtractError::InvalidFieldShape);
}

#[test]
fn triple_takes_first_three_components() {
    let t = parse_triple(&lat_field()).unwrap();
    assert_eq!(t, (pair(34, 1), pair(5, 1), pair(1234, 100)));
}

#[test]
fn latitude_ref_accepts_only_n_and_s() {
    assert_eq!(parse_lat_ref(&ascii("N")).unwrap(), HemisphereRef::North);
    assert_eq!(parse_lat_ref(&ascii("S")).unwrap(), HemisphereRef::South);
    assert_eq!(parse_lat_ref(&ascii("E")).unwrap_err(), ExtractError::InvalidReference);
    assert_eq!(parse_lat_ref(&ascii("")).unwrap_err(), ExtractError::InvalidReference);
    assert_eq!(
        parse_lat_ref(&RawField::Ascii(vec![])).unwrap_err(),
        ExtractError::InvalidReference
    );
    assert_eq!(parse_lat_ref(&RawField::Other).unwrap_err(), ExtractError::InvalidReference);
}

#[test]
fn longitude_ref_accepts_only_e_and_w() {
    assert_eq!(parse_lon_ref(&ascii("E")).unwrap(), HemisphereRef::East);
    assert_eq!(parse_lon_ref(&ascii("W")).unwrap(), HemisphereRef::West);
    assert_eq!(parse_lon_ref(&ascii("N")).unwrap_err(), ExtractError::InvalidReference);
}

#[test]
fn altitude_takes_first_component() {
    assert_eq!(parse_altitude(&alt_field()).unwrap(), pair(12345, 100));
    let multi = RawField::Rationals(vec![pair(7, 2), pair(9, 1)]);
    assert_eq!(parse_altitude(&multi).unwrap(), pair(7, 2));
}

#[test]
fn altitude_rejects_empty_or_wrong_shape() {
    let empty = RawField::Rationals(vec![]);
    assert_eq!(parse_altitude(&empty).unwrap_err(), ExtractError::InvalidAltitude);
    assert_eq!(parse_altitude(&ascii("12")).unwrap_err(), ExtractError::InvalidAltitude);
    let zero_den = RawField::Rationals(vec![pair(1, 0)]);
    assert_eq!(parse_altitude(&zero_den).unwrap_err(), ExtractError::InvalidAltitude);
}

#[test]
fn bad_reference_letter_rejects_whole_file() {
    let r = build_record(
        "a.jpg".to_string(),
        Some(lat_field()),
        Some(ascii("X")),
        Some(lon_field()),
        Some(ascii("W")),
        Some(alt_field()),
    );
    assert_eq!(r.unwrap_err(), ExtractError::InvalidReference);
}
