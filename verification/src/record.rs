//! The photo record extractor's pure half: assembling one CSV row from the
//! five raw GPS fields of one image, or rejecting the image with a
//! per-file error.

use vstd::prelude::*;

use crate::coord::{
    meters_to_feet, rational_triple_to_degrees, spec_dms, spec_meters_to_feet,
    spec_to_decimal_degrees, spec_triple_to_degrees, to_decimal_degrees, to_dms_string,
};
use crate::parse::{
    parse_altitude, parse_lat_ref, parse_lon_ref, parse_triple, spec_parse_altitude,
    spec_parse_lat_ref, spec_parse_lon_ref, spec_parse_triple, ExtractError, GpsTag,
    HemisphereRef, RationalPair, RawField,
};
use crate::rational::Rational;
use crate::render::{fixed2_string, fixed6_string, spec_signed_decimal};

verus! {

/// One output row: a file name, both coordinates as DMS strings, both as
/// six-decimal signed degree strings, and the altitude in meters and feet
/// with two decimals each. Immutable once built.
#[derive(Debug)]
pub struct PhotoRecord {
    pub file_name: String,
    pub lat_dms: String,
    pub lon_dms: String,
    pub lat_dd: String,
    pub lon_dd: String,
    pub alt_m: String,
    pub alt_ft: String,
}

/// The six-decimal signed degree rendering of a parsed coordinate.
pub open spec fn spec_dd_chars(
    t: (RationalPair, RationalPair, RationalPair),
    h: HemisphereRef,
) -> Seq<char> {
    let dd = spec_to_decimal_degrees(spec_triple_to_degrees(t.0, t.1, t.2), h);
    spec_signed_decimal(dd.neg, dd.num as int, dd.den as int, 6)
}

/// The DMS rendering of a parsed coordinate.
pub open spec fn spec_dms_chars(
    t: (RationalPair, RationalPair, RationalPair),
    h: HemisphereRef,
) -> Seq<char> {
    let mag = spec_triple_to_degrees(t.0, t.1, t.2);
    spec_dms(mag.num as int, mag.den as int, h.spec_letter())
}

/// The two-decimal rendering of the metric altitude.
pub open spec fn spec_alt_m_chars(a: RationalPair) -> Seq<char> {
    spec_signed_decimal(false, a.num as int, a.den as int, 2)
}

/// The two-decimal rendering of the altitude converted to feet.
pub open spec fn spec_alt_ft_chars(a: RationalPair) -> Seq<char> {
    let ft = spec_meters_to_feet(Rational { neg: false, num: a.num as u128, den: a.den as u128 });
    spec_signed_decimal(ft.neg, ft.num as int, ft.den as int, 2)
}

/// The per-file verdict over the five fetched GPS fields: the error that
/// rejects the file, or `None` when a record is owed. Missing tags are
/// reported first, in tag order; then malformed values, coordinates before
/// references before altitude.
pub open spec fn spec_outcome(
    lat: Option<RawField>,
    lat_ref: Option<RawField>,
    lon: Option<RawField>,
    lon_ref: Option<RawField>,
    alt: Option<RawField>,
) -> Option<ExtractError> {
    match (lat, lat_ref, lon, lon_ref, alt) {
        (None, _, _, _, _) => Some(ExtractError::MissingTag(GpsTag::Latitude)),
        (Some(_), None, _, _, _) => Some(ExtractError::MissingTag(GpsTag::LatitudeRef)),
        (Some(_), Some(_), None, _, _) => Some(ExtractError::MissingTag(GpsTag::Longitude)),
        (Some(_), Some(_), Some(_), None, _) => Some(
            ExtractError::MissingTag(GpsTag::LongitudeRef),
        ),
        (Some(_), Some(_), Some(_), Some(_), None) => Some(
            ExtractError::MissingTag(GpsTag::Altitude),
        ),
        (Some(laf), Some(larf), Some(lof), Some(lorf), Some(alf)) => match spec_parse_triple(
            laf,
        ) {
            Err(e) => Some(e),
            Ok(_) => match spec_parse_triple(lof) {
                Err(e) => Some(e),
                Ok(_) => match spec_parse_lat_ref(larf) {
                    Err(e) => Some(e),
                    Ok(_) => match spec_parse_lon_ref(lorf) {
                        Err(e) => Some(e),
                        Ok(_) => match spec_parse_altitude(alf) {
                            Err(e) => Some(e),
                            Ok(_) => None,
                        },
                    },
                },
            },
        },
    }
}

/// What a returned record must hold when no error rejected the file: every
/// column is the exact rendering of the parsed fields.
pub open spec fn spec_record_ok(
    rec: PhotoRecord,
    name: Seq<char>,
    lat: Option<RawField>,
    lat_ref: Option<RawField>,
    lon: Option<RawField>,
    lon_ref: Option<RawField>,
    alt: Option<RawField>,
) -> bool
    recommends
        spec_outcome(lat, lat_ref, lon, lon_ref, alt) is None,
{
    match (lat, lat_ref, lon, lon_ref, alt) {
        (Some(laf), Some(larf), Some(lof), Some(lorf), Some(alf)) => match (
            spec_parse_triple(laf),
            spec_parse_lat_ref(larf),
            spec_parse_triple(lof),
            spec_parse_lon_ref(lorf),
            spec_parse_altitude(alf),
        ) {
            (Ok(t), Ok(lath), Ok(lot), Ok(lonh), Ok(a)) => {
                &&& rec.file_name@ == name
                &&& rec.lat_dms@ == spec_dms_chars(t, lath)
                &&& rec.lon_dms@ == spec_dms_chars(lot, lonh)
                &&& rec.lat_dd@ == spec_dd_chars(t, lath)
                &&& rec.lon_dd@ == spec_dd_chars(lot, lonh)
                &&& rec.alt_m@ == spec_alt_m_chars(a)
                &&& rec.alt_ft@ == spec_alt_ft_chars(a)
            },
            _ => false,
        },
        _ => false,
    }
}

/// Builds one photo record from the five fetched GPS fields, or rejects
/// the file. All five tags are mandatory; a file missing even one yields a
/// whole-file error, never a partial row. Exactly the files on which
/// `spec_outcome` is `None` produce a record.
pub fn build_record(
    file_name: String,
    lat: Option<RawField>,
    lat_ref: Option<RawField>,
    lon: Option<RawField>,
    lon_ref: Option<RawField>,
    alt: Option<RawField>,
) -> (r: Result<PhotoRecord, ExtractError>)
    ensures
        r is Ok <==> spec_outcome(lat, lat_ref, lon, lon_ref, alt) is None,
        r matches Err(e) ==> spec_outcome(lat, lat_ref, lon, lon_ref, alt) == Some(e),
        r matches Ok(rec) ==> spec_record_ok(rec, file_name@, lat, lat_ref, lon, lon_ref, alt),
{
    let laf = match lat {
        Some(f) => f,
        None => {
            return Err(ExtractError::MissingTag(GpsTag::Latitude));
        },
    };
    let larf = match lat_ref {
        Some(f) => f,
        None => {
            return Err(ExtractError::MissingTag(GpsTag::LatitudeRef));
        },
    };
    let lof = match lon {
        Some(f) => f,
        None => {
            return Err(ExtractError::MissingTag(GpsTag::Longitude));
        },
    };
    let lorf = match lon_ref {
        Some(f) => f,
        None => {
            return Err(ExtractError::MissingTag(GpsTag::LongitudeRef));
        },
    };
    let alf = match alt {
        Some(f) => f,
        None => {
            return Err(ExtractError::MissingTag(GpsTag::Altitude));
        },
    };
    let lat_triple = match parse_triple(&laf) {
        Ok(t) => t,
        Err(e) => {
            return Err(e);
        },
    };
    let lon_triple = match parse_triple(&lof) {
        Ok(t) => t,
        Err(e) => {
            return Err(e);
        },
    };
    let lath = match parse_lat_ref(&larf) {
        Ok(h) => h,
        Err(e) => {
            return Err(e);
        },
    };
    let lonh = match parse_lon_ref(&lorf) {
        Ok(h) => h,
        Err(e) => {
            return Err(e);
        },
    };
    let alt_pair = match parse_altitude(&alf) {
        Ok(a) => a,
        Err(e) => {
            return Err(e);
        },
    };
    let (d0, d1, d2) = lat_triple;
    let (o0, o1, o2) = lon_triple;
    let lat_mag = rational_triple_to_degrees(d0, d1, d2);
    let lon_mag = rational_triple_to_degrees(o0, o1, o2);
    let lat_ddv = to_decimal_degrees(lat_mag, lath);
    let lon_ddv = to_decimal_degrees(lon_mag, lonh);
    let alt_meters = Rational::from_u32_pair(alt_pair.num, alt_pair.den);
    let alt_feet = meters_to_feet(alt_meters);
    Ok(
        PhotoRecord {
            file_name,
            lat_dms: to_dms_string(&lat_ddv, lath),
            lon_dms: to_dms_string(&lon_ddv, lonh),
            lat_dd: fixed6_string(&lat_ddv),
            lon_dd: fixed6_string(&lon_ddv),
            alt_m: fixed2_string(&alt_meters),
            alt_ft: fixed2_string(&alt_feet),
        },
    )
}

impl PhotoRecord {
    /// The record as the seven CSV cells, in column order.
    pub fn to_row(self) -> (r: Vec<String>)
        ensures
            r@.len() == 7,
            r@[0]@ == self.file_name@,
            r@[1]@ == self.lat_dms@,
            r@[2]@ == self.lon_dms@,
            r@[3]@ == self.lat_dd@,
            r@[4]@ == self.lon_dd@,
            r@[5]@ == self.alt_m@,
            r@[6]@ == self.alt_ft@,
    {
        let mut v: Vec<String> = Vec::new();
        v.push(self.file_name);
        v.push(self.lat_dms);
        v.push(self.lon_dms);
        v.push(self.lat_dd);
        v.push(self.lon_dd);
        v.push(self.alt_m);
        v.push(self.alt_ft);
        v
    }
}

/// The fixed CSV header row.
pub fn csv_header() -> (r: Vec<String>)
    ensures
        r@.len() == 7,
        r@[0]@ == "FileName"@,
        r@[1]@ == "Latitude_DMS"@,
        r@[2]@ == "Longitude_DMS"@,
        r@[3]@ == "Latitude_DD"@,
        r@[4]@ == "Longitude_DD"@,
        r@[5]@ == "Altitude_m"@,
        r@[6]@ == "Altitude_ft"@,
{
    let mut v: Vec<String> = Vec::new();
    v.push("FileName".to_owned());
    v.push("Latitude_DMS".to_owned());
    v.push("Longitude_DMS".to_owned());
    v.push("Latitude_DD".to_owned());
    v.push("Longitude_DD".to_owned());
    v.push("Altitude_m".to_owned());
    v.push("Altitude_ft".to_owned());
    v
}

} // verus!
