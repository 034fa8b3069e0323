//! The GPS value parser: interprets raw EXIF field values (rational
//! triples, rational singletons, ASCII reference strings) as typed
//! quantities, or rejects them with a shape error.

use vstd::prelude::*;

verus! {

/// One EXIF rational component: a numerator/denominator pair of 32-bit
/// integers.
#[derive(Clone, Copy, Debug, PartialEq, Eq, Structural)]
pub struct RationalPair {
    pub num: u32,
    pub den: u32,
}

/// A raw EXIF field value, reduced to the shapes the GPS tags can take:
/// a list of rational components, a list of ASCII byte sequences, or
/// anything else.
#[derive(Debug)]
pub enum RawField {
    Rationals(Vec<RationalPair>),
    Ascii(Vec<Vec<u8>>),
    Other,
}

/// The five GPS tags a photo record requires.
#[derive(Clone, Copy, Debug, PartialEq, Eq, Structural)]
pub enum GpsTag {
    Latitude,
    LatitudeRef,
    Longitude,
    LongitudeRef,
    Altitude,
}

/// Why one file produced no record. Every variant is local to a single
/// file; none aborts a batch.
#[derive(Clone, Copy, Debug, PartialEq, Eq, Structural)]
pub enum ExtractError {
    /// The file has no parseable EXIF block.
    ExifDecode,
    /// One of the five required GPS tags is absent.
    MissingTag(GpsTag),
    /// A coordinate tag is present but not a list of rationals.
    InvalidFieldShape,
    /// A coordinate tag has fewer than three rational components, or a
    /// component with a zero denominator (no rational number at all).
    InvalidRational,
    /// A reference tag is not a recognized single-letter hemisphere.
    InvalidReference,
    /// The altitude tag is absent a usable first rational component.
    InvalidAltitude,
}

/// A hemisphere reference: "N" or "S" for latitude, "E" or "W" for
/// longitude. Any other raw value is rejected while parsing.
#[derive(Clone, Copy, Debug, PartialEq, Eq, Structural)]
pub enum HemisphereRef {
    North,
    South,
    East,
    West,
}

impl HemisphereRef {
    /// The letter that renders this hemisphere in a DMS string.
    pub open spec fn spec_letter(self) -> char {
        match self {
            HemisphereRef::North => 'N',
            HemisphereRef::South => 'S',
            HemisphereRef::East => 'E',
            HemisphereRef::West => 'W',
        }
    }

    /// Southern and western hemispheres carry a negative sign.
    pub open spec fn negates(self) -> bool {
        self is South || self is West
    }

    pub fn letter(self) -> (c: char)
        ensures
            c == self.spec_letter(),
    {
        match self {
            HemisphereRef::North => 'N',
            HemisphereRef::South => 'S',
            HemisphereRef::East => 'E',
            HemisphereRef::West => 'W',
        }
    }
}

/// What parsing a coordinate triple yields: the first three rational
/// components, or the error naming what was wrong with the field.
pub open spec fn spec_parse_triple(f: RawField) -> Result<
    (RationalPair, RationalPair, RationalPair),
    ExtractError,
> {
    match f {
        RawField::Rationals(v) => if v@.len() < 3 {
            Err(ExtractError::InvalidRational)
        } else if v@[0].den == 0 || v@[1].den == 0 || v@[2].den == 0 {
            Err(ExtractError::InvalidRational)
        } else {
            Ok((v@[0], v@[1], v@[2]))
        },
        _ => Err(ExtractError::InvalidFieldShape),
    }
}

/// Parses a coordinate tag: at least three rational components are
/// required, and each of the first three must be a rational number
/// (non-zero denominator).
pub fn parse_triple(f: &RawField) -> (r: Result<
    (RationalPair, RationalPair, RationalPair),
    ExtractError,
>)
    ensures
        r == spec_parse_triple(*f),
{
    match f {
        RawField::Rationals(v) => {
            if v.len() < 3 {
                Err(ExtractError::InvalidRational)
            } else if v[0].den == 0 || v[1].den == 0 || v[2].den == 0 {
                Err(ExtractError::InvalidRational)
            } else {
                Ok((v[0], v[1], v[2]))
            }
        },
        _ => Err(ExtractError::InvalidFieldShape),
    }
}

/// True when the byte sequence is exactly the single ASCII letter `c`.
pub open spec fn spec_is_letter(bytes: Seq<u8>, c: u8) -> bool {
    bytes =~= seq![c]
}

/// What parsing a latitude reference yields: "N" or "S", or a rejection.
pub open spec fn spec_parse_lat_ref(f: RawField) -> Result<HemisphereRef, ExtractError> {
    match f {
        RawField::Ascii(v) => if v@.len() == 0 {
            Err(ExtractError::InvalidReference)
        } else if spec_is_letter(v@[0]@, 78) {
            Ok(HemisphereRef::North)
        } else if spec_is_letter(v@[0]@, 83) {
            Ok(HemisphereRef::South)
        } else {
            Err(ExtractError::InvalidReference)
        },
        _ => Err(ExtractError::InvalidReference),
    }
}

/// What parsing a longitude reference yields: "E" or "W", or a rejection.
pub open spec fn spec_parse_lon_ref(f: RawField) -> Result<HemisphereRef, ExtractError> {
    match f {
        RawField::Ascii(v) => if v@.len() == 0 {
            Err(ExtractError::InvalidReference)
        } else if spec_is_letter(v@[0]@, 69) {
            Ok(HemisphereRef::East)
        } else if spec_is_letter(v@[0]@, 87) {
            Ok(HemisphereRef::West)
        } else {
            Err(ExtractError::InvalidReference)
        },
        _ => Err(ExtractError::InvalidReference),
    }
}

fn is_letter(bytes: &Vec<u8>, c: u8) -> (r: bool)
    ensures
        r == spec_is_letter(bytes@, c),
{
    bytes.len() == 1 && bytes[0] == c
}

/// Parses a latitude reference tag: the first ASCII component must be
/// exactly "N" or "S".
pub fn parse_lat_ref(f: &RawField) -> (r: Result<HemisphereRef, ExtractError>)
    ensures
        r == spec_parse_lat_ref(*f),
{
    match f {
        RawField::Ascii(v) => {
            if v.len() == 0 {
                Err(ExtractError::InvalidReference)
            } else if is_letter(&v[0], 78) {
                Ok(HemisphereRef::North)
            } else if is_letter(&v[0], 83) {
                Ok(HemisphereRef::South)
            } else {
                Err(ExtractError::InvalidReference)
            }
        },
        _ => Err(ExtractError::InvalidReference),
    }
}

/// Parses a longitude reference tag: the first ASCII component must be
/// exactly "E" or "W".
pub fn parse_lon_ref(f: &RawField) -> (r: Result<HemisphereRef, ExtractError>)
    ensures
        r == spec_parse_lon_ref(*f),
{
    match f {
        RawField::Ascii(v) => {
            if v.len() == 0 {
                Err(ExtractError::InvalidReference)
            } else if is_letter(&v[0], 69) {
                Ok(HemisphereRef::East)
            } else if is_letter(&v[0], 87) {
                Ok(HemisphereRef::West)
            } else {
                Err(ExtractError::InvalidReference)
            }
        },
        _ => Err(ExtractError::InvalidReference),
    }
}

/// What parsing the altitude tag yields: its first rational component, or
/// a rejection when the field is not a non-empty rational list headed by a
/// rational number.
pub open spec fn spec_parse_altitude(f: RawField) -> Result<RationalPair, ExtractError> {
    match f {
        RawField::Rationals(v) => if v@.len() == 0 {
            Err(ExtractError::InvalidAltitude)
        } else if v@[0].den == 0 {
            Err(ExtractError::InvalidAltitude)
        } else {
            Ok(v@[0])
        },
        _ => Err(ExtractError::InvalidAltitude),
    }
}

/// Parses the altitude tag: at least one rational component is required
/// and the first one is taken, in meters.
pub fn parse_altitude(f: &RawField) -> (r: Result<RationalPair, ExtractError>)
    ensures
        r == spec_parse_altitude(*f),
{
    match f {
        RawField::Rationals(v) => {
            if v.len() == 0 {
                Err(ExtractError::InvalidAltitude)
            } else if v[0].den == 0 {
                Err(ExtractError::InvalidAltitude)
            } else {
                Ok(v[0])
            }
        },
        _ => Err(ExtractError::InvalidAltitude),
    }
}

} // verus!
