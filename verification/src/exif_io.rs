//! The trusted boundary to the `exif` crate, and the per-file extractor
//! built on it: one image's bytes in, one record or one per-file error out.
//!
//! Decoding an EXIF block and looking a tag up in it are functions of the
//! image bytes alone, so both results carry names (`spec_exif_decodes`,
//! `spec_gps_field`) that the extractor's contract is stated over: which
//! files are owed a record, and what that record holds, is pinned down to
//! those names and nothing else.

use vstd::prelude::*;

use crate::parse::{ExtractError, GpsTag, RationalPair, RawField};
use crate::record::{build_record, spec_outcome, spec_record_ok, PhotoRecord};

verus! {

#[verifier::external_type_specification]
#[verifier::external_body]
pub struct ExExif(exif::Exif);

#[verifier::external_type_specification]
#[verifier::external_body]
pub struct ExExifError(exif::Error);

#[verifier::external_type_specification]
#[verifier::external_body]
pub struct ExValue(exif::Value);

/// Whether these bytes hold a parseable EXIF attribute block. The decoder
/// reads nothing but the bytes, so this is a function of them alone.
pub uninterp spec fn spec_exif_decodes(bytes: Seq<u8>) -> bool;

/// The value of one GPS tag of the primary image in these bytes, reduced
/// to its `RawField` shape, or `None` when the tag is absent. Meaningful
/// only for bytes on which `spec_exif_decodes` holds; the lookup too reads
/// nothing but the bytes and the tag.
pub uninterp spec fn spec_gps_field(bytes: Seq<u8>, tag: GpsTag) -> Option<RawField>;

/// Relies on `exif::Value`: its `Rational` and `Ascii` variants carry the
/// typed component lists, which move over one arm each; every other
/// variant is outside the shapes the GPS tags can take.
#[verifier::external_body]
fn raw_of_value(v: &exif::Value) -> RawField {
    match v {
        exif::Value::Rational(rs) => RawField::Rationals(
            rs.iter().map(|c| RationalPair { num: c.num, den: c.denom }).collect(),
        ),
        exif::Value::Ascii(cs) => RawField::Ascii(cs.clone()),
        _ => RawField::Other,
    }
}

/// Relies on `exif::Reader::read_from_container`: decodes the EXIF
/// attribute block of an in-memory image (JPEG, TIFF and kin), failing
/// exactly when the bytes hold no parseable EXIF container. The decoder is
/// deterministic over the bytes, which the name `spec_exif_decodes` states.
#[verifier::external_body]
fn read_exif(bytes: &[u8]) -> (r: Result<exif::Exif, exif::Error>)
    ensures
        r is Ok <==> spec_exif_decodes(bytes@),
{
    exif::Reader::new().read_from_container(&mut std::io::Cursor::new(bytes))
}

/// Relies on `exif::Exif::get_field` after a fresh decode of the bytes:
/// decode and lookup read only the bytes and the tag, so on decodable
/// bytes the handed-over field value is exactly `spec_gps_field`.
#[verifier::external_body]
fn fetch_gps_field(bytes: &[u8], tag: GpsTag) -> (r: Option<RawField>)
    ensures
        spec_exif_decodes(bytes@) ==> r == spec_gps_field(bytes@, tag),
{
    let t = match tag {
        GpsTag::Latitude => exif::Tag::GPSLatitude,
        GpsTag::LatitudeRef => exif::Tag::GPSLatitudeRef,
        GpsTag::Longitude => exif::Tag::GPSLongitude,
        GpsTag::LongitudeRef => exif::Tag::GPSLongitudeRef,
        GpsTag::Altitude => exif::Tag::GPSAltitude,
    };
    match read_exif(bytes) {
        Ok(e) => match e.get_field(t, exif::In::PRIMARY) {
            Some(f) => Some(raw_of_value(&f.value)),
            None => None,
        },
        Err(_) => None,
    }
}

/// Extracts one photo record from the raw bytes of one image file:
/// undecodable bytes fail with `ExifDecode` and nothing else does; on
/// decodable bytes the result is exactly the verdict of `build_record`
/// over the five named GPS field values, record or per-file error.
pub fn extract_record(bytes: &[u8], file_name: String) -> (r: Result<PhotoRecord, ExtractError>)
    ensures
        r == Err::<PhotoRecord, ExtractError>(ExtractError::ExifDecode) <==> !spec_exif_decodes(
            bytes@,
        ),
        spec_exif_decodes(bytes@) ==> (r is Ok <==> spec_outcome(
            spec_gps_field(bytes@, GpsTag::Latitude),
            spec_gps_field(bytes@, GpsTag::LatitudeRef),
            spec_gps_field(bytes@, GpsTag::Longitude),
            spec_gps_field(bytes@, GpsTag::LongitudeRef),
            spec_gps_field(bytes@, GpsTag::Altitude),
        ) is None),
        spec_exif_decodes(bytes@) ==> (r matches Err(e) ==> spec_outcome(
            spec_gps_field(bytes@, GpsTag::Latitude),
            spec_gps_field(bytes@, GpsTag::LatitudeRef),
            spec_gps_field(bytes@, GpsTag::Longitude),
            spec_gps_field(bytes@, GpsTag::LongitudeRef),
            spec_gps_field(bytes@, GpsTag::Altitude),
        ) == Some(e)),
        spec_exif_decodes(bytes@) ==> (r matches Ok(rec) ==> spec_record_ok(
            rec,
            file_name@,
            spec_gps_field(bytes@, GpsTag::Latitude),
            spec_gps_field(bytes@, GpsTag::LatitudeRef),
            spec_gps_field(bytes@, GpsTag::Longitude),
            spec_gps_field(bytes@, GpsTag::LongitudeRef),
            spec_gps_field(bytes@, GpsTag::Altitude),
        )),
        r matches Ok(rec) ==> rec.file_name@ == file_name@,
{
    if read_exif(bytes).is_err() {
        return Err(ExtractError::ExifDecode);
    }
    let lat = fetch_gps_field(bytes, GpsTag::Latitude);
    let lat_ref = fetch_gps_field(bytes, GpsTag::LatitudeRef);
    let lon = fetch_gps_field(bytes, GpsTag::Longitude);
    let lon_ref = fetch_gps_field(bytes, GpsTag::LongitudeRef);
    let alt = fetch_gps_field(bytes, GpsTag::Altitude);
    let r = build_record(file_name, lat, lat_ref, lon, lon_ref, alt);
    proof {
        // A decodable file's verdict never reads `ExifDecode`: every error
        // of the field verdict names a missing tag or a malformed value.
        if let Err(err) = r {
            assert(err != ExtractError::ExifDecode);
        }
    }
    r
}

} // verus!
