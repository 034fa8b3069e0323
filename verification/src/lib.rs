//! Extraction of GPS geolocation metadata from the EXIF tags of JPEG
//! photographs, producing normalized CSV report rows.
//!
//! The numeric core works on exact rationals: EXIF stores every GPS
//! quantity as a pair of 32-bit integers (numerator and denominator), so
//! sexagesimal-to-decimal conversion, altitude unit conversion and all
//! fixed-point rendering are carried out with integer arithmetic and are
//! verified to match the stated conversion rules exactly.

pub mod batch;
pub mod coord;
pub mod exif_io;
pub mod parse;
pub mod rational;
pub mod record;
pub mod render;
