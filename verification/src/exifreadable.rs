//! Readable texts of typed values: one function for each way in which a tag's
//! value is put into words. A function applied to a value of another stored
//! representation than it is made for, or with too few elements, returns
//! `FormatMismatch`.
//!
//! A reading that tells a ratio as a decimal number returns no text: it
//! returns the layout of the text and the ratios whose quotients the text
//! tells, for the caller to divide and write.

use vstd::prelude::*;
use vstd::slice::slice_subrange;
use vstd::string::StringExecFns;
use crate::exif::Readable;
use crate::ifdformat::{
    from_utf16_lossy, is_seven_bit, lossy_text, numarray_to_string, seven_bit_text, spec_numarray,
    utf16_lossy, utf8_lossy, Numeric,
};
use crate::lowlevel::{element, read_u16, spec_u16_array};
use crate::text::{push_unsigned, spec_decimal};
use crate::rational::{IRational, URational};
use crate::types::{
    Decimal, DecimalView, Layout, Ratio, ReadableError, TagValue, TagValueView,
};

verus! {

/// The text of a result, or its error.
pub open spec fn text_of(r: Result<String, ReadableError>) -> Result<Seq<char>, ReadableError> {
    match r {
        Ok(s) => Ok(s@),
        Err(e) => Err(e),
    }
}

/// Whether a string holds exactly the given text.
fn text_is(v: &String, word: &str) -> (r: bool)
    ensures
        r == (v@ == word@),
{
    let other = word.to_owned();
    *v == other
}

/// A text without a reading, in brackets.
fn unknown_text(v: &String) -> (s: String)
    ensures
        s@ == "Unknown ("@ + v@ + ")"@,
{
    let mut out = "Unknown (".to_owned();
    out.append(v.as_str());
    out.append(")");
    out
}

/// The plain text, whatever the value: the reading of tags that are not
/// recognised.
pub fn nop(_e: &TagValue, s: &String) -> (r: String)
    ensures
        r@ == s@,
{
    s.clone()
}

/// The plain text, whatever the value: the reading of text tags, and of
/// tags whose plain text reads well enough.
pub fn strpass(_e: &TagValue, s: &String) -> (r: String)
    ensures
        r@ == s@,
{
    s.clone()
}

/// The word for an orientation code, where it has one.
pub open spec fn spec_orientation_word(n: u16) -> Option<Seq<char>> {
    match n {
        1 => Some("Straight"@),
        3 => Some("Upside down"@),
        6 => Some("Rotated to left"@),
        8 => Some("Rotated to right"@),
        9 => Some("Undefined"@),
        _ => None,
    }
}

/// How the image is turned. A code without a word is written as a number in
/// brackets.
pub open spec fn spec_orientation(e: TagValueView) -> Result<Seq<char>, ReadableError> {
    match e {
        TagValueView::U16(v) if v.len() >= 1 => Ok(
            match spec_orientation_word(v[0]) {
                Some(word) => word,
                None => "Unknown ("@ + spec_decimal(v[0] as int) + ")"@,
            },
        ),
        _ => Err(ReadableError::FormatMismatch),
    }
}

/// How the image is turned.
pub fn orientation(e: &TagValue, _s: &String) -> (r: Result<String, ReadableError>)
    ensures
        text_of(r) == spec_orientation(e@),
{
    match e {
        TagValue::U16(v) => {
            if v.len() < 1 {
                return Err(ReadableError::FormatMismatch);
            }
            let n = v[0];
            let word = match n {
                1 => "Straight",
                3 => "Upside down",
                6 => "Rotated to left",
                8 => "Rotated to right",
                9 => "Undefined",
                _ => {
                    let mut out = "Unknown (".to_owned();
                    push_unsigned(&mut out, n as u64);
                    out.append(")");
                    return Ok(out);
                },
            };
            Ok(word.to_owned())
        },
        _ => Err(ReadableError::FormatMismatch),
    }
}

/// The word for a resolution unit code, where it has one.
pub open spec fn spec_resolution_unit_word(n: u16) -> Option<Seq<char>> {
    match n {
        1 => Some("Unitless"@),
        2 => Some("in"@),
        3 => Some("cm"@),
        _ => None,
    }
}

/// The unit that resolutions are given in. A code without a word is written as a number in
/// brackets.
pub open spec fn spec_resolution_unit(e: TagValueView) -> Result<Seq<char>, ReadableError> {
    match e {
        TagValueView::U16(v) if v.len() >= 1 => Ok(
            match spec_resolution_unit_word(v[0]) {
                Some(word) => word,
                None => "Unknown ("@ + spec_decimal(v[0] as int) + ")"@,
            },
        ),
        _ => Err(ReadableError::FormatMismatch),
    }
}

/// The unit that resolutions are given in.
pub fn resolution_unit(e: &TagValue, _s: &String) -> (r: Result<String, ReadableError>)
    ensures
        text_of(r) == spec_resolution_unit(e@),
{
    match e {
        TagValue::U16(v) => {
            if v.len() < 1 {
                return Err(ReadableError::FormatMismatch);
            }
            let n = v[0];
            let word = match n {
                1 => "Unitless",
                2 => "in",
                3 => "cm",
                _ => {
                    let mut out = "Unknown (".to_owned();
                    push_unsigned(&mut out, n as u64);
                    out.append(")");
                    return Ok(out);
                },
            };
            Ok(word.to_owned())
        },
        _ => Err(ReadableError::FormatMismatch),
    }
}

/// The word for an exposure program code, where it has one.
pub open spec fn spec_exposure_program_word(n: u16) -> Option<Seq<char>> {
    match n {
        1 => Some("Manual control"@),
        2 => Some("Program control"@),
        3 => Some("Aperture priority"@),
        4 => Some("Shutter priority"@),
        5 => Some("Program creative (slow program)"@),
        6 => Some("Program creative (high-speed program)"@),
        7 => Some("Portrait mode"@),
        8 => Some("Landscape mode"@),
        _ => None,
    }
}

/// The program that set the exposure. A code without a word is written as a number in
/// brackets.
pub open spec fn spec_exposure_program(e: TagValueView) -> Result<Seq<char>, ReadableError> {
    match e {
        TagValueView::U16(v) if v.len() >= 1 => Ok(
            match spec_exposure_program_word(v[0]) {
                Some(word) => word,
                None => "Unknown ("@ + spec_decimal(v[0] as int) + ")"@,
            },
        ),
        _ => Err(ReadableError::FormatMismatch),
    }
}

/// The program that set the exposure.
pub fn exposure_program(e: &TagValue, _s: &String) -> (r: Result<String, ReadableError>)
    ensures
        text_of(r) == spec_exposure_program(e@),
{
    match e {
        TagValue::U16(v) => {
            if v.len() < 1 {
                return Err(ReadableError::FormatMismatch);
            }
            let n = v[0];
            let word = match n {
                1 => "Manual control",
                2 => "Program control",
                3 => "Aperture priority",
                4 => "Shutter priority",
                5 => "Program creative (slow program)",
                6 => "Program creative (high-speed program)",
                7 => "Portrait mode",
                8 => "Landscape mode",
                _ => {
                    let mut out = "Unknown (".to_owned();
                    push_unsigned(&mut out, n as u64);
                    out.append(")");
                    return Ok(out);
                },
            };
            Ok(word.to_owned())
        },
        _ => Err(ReadableError::FormatMismatch),
    }
}

/// The word for an altitude reference code, where it has one.
pub open spec fn spec_gps_alt_ref_word(n: u8) -> Option<Seq<char>> {
    match n {
        0 => Some("Above sea level"@),
        1 => Some("Below sea level"@),
        _ => None,
    }
}

/// Whether an altitude is above or below sea level. A code without a word is written as a number in
/// brackets.
pub open spec fn spec_gps_alt_ref(e: TagValueView) -> Result<Seq<char>, ReadableError> {
    match e {
        TagValueView::U8(v) if v.len() >= 1 => Ok(
            match spec_gps_alt_ref_word(v[0]) {
                Some(word) => word,
                None => "Unknown, assumed below sea level ("@ + spec_decimal(v[0] as int) + ")"@,
            },
        ),
        _ => Err(ReadableError::FormatMismatch),
    }
}

/// Whether an altitude is above or below sea level.
pub fn gps_alt_ref(e: &TagValue, _s: &String) -> (r: Result<String, ReadableError>)
    ensures
        text_of(r) == spec_gps_alt_ref(e@),
{
    match e {
        TagValue::U8(v) => {
            if v.len() < 1 {
                return Err(ReadableError::FormatMismatch);
            }
            let n = v[0];
            let word = match n {
                0 => "Above sea level",
                1 => "Below sea level",
                _ => {
                    let mut out = "Unknown, assumed below sea level (".to_owned();
                    push_unsigned(&mut out, n as u64);
                    out.append(")");
                    return Ok(out);
                },
            };
            Ok(word.to_owned())
        },
        _ => Err(ReadableError::FormatMismatch),
    }
}

/// The unit of a distance to the destination. A letter without a word is written in brackets.
pub open spec fn spec_gpsdestdistanceref(e: TagValueView) -> Result<Seq<char>, ReadableError> {
    match e {
        TagValueView::Ascii(v) => Ok(
            if v == "N"@ {
                "kn"@
            } else if v == "K"@ {
                "km"@
            } else if v == "M"@ {
                "mi"@
            } else {
                "Unknown ("@ + v + ")"@
            },
        ),
        _ => Err(ReadableError::FormatMismatch),
    }
}

/// The unit of a distance to the destination.
pub fn gpsdestdistanceref(e: &TagValue, _s: &String) -> (r: Result<String, ReadableError>)
    ensures
        text_of(r) == spec_gpsdestdistanceref(e@),
{
    match e {
        TagValue::Ascii(v) => {
            if text_is(v, "N") {
                Ok("kn".to_owned())
            } else if text_is(v, "K") {
                Ok("km".to_owned())
            } else if text_is(v, "M") {
                Ok("mi".to_owned())
            } else {
                Ok(unknown_text(v))
            }
        },
        _ => Err(ReadableError::FormatMismatch),
    }
}

/// The unit of a speed. A letter without a word is written in brackets.
pub open spec fn spec_gpsspeedref(e: TagValueView) -> Result<Seq<char>, ReadableError> {
    match e {
        TagValueView::Ascii(v) => Ok(
            if v == "N"@ {
                "kn"@
            } else if v == "K"@ {
                "km/h"@
            } else if v == "M"@ {
                "mi/h"@
            } else {
                "Unknown ("@ + v + ")"@
            },
        ),
        _ => Err(ReadableError::FormatMismatch),
    }
}

/// The unit of a speed.
pub fn gpsspeedref(e: &TagValue, _s: &String) -> (r: Result<String, ReadableError>)
    ensures
        text_of(r) == spec_gpsspeedref(e@),
{
    match e {
        TagValue::Ascii(v) => {
            if text_is(v, "N") {
                Ok("kn".to_owned())
            } else if text_is(v, "K") {
                Ok("km/h".to_owned())
            } else if text_is(v, "M") {
                Ok("mi/h".to_owned())
            } else {
                Ok(unknown_text(v))
            }
        },
        _ => Err(ReadableError::FormatMismatch),
    }
}

/// The reference of a bearing. A letter without a word is written in brackets.
pub open spec fn spec_gpsbearingref(e: TagValueView) -> Result<Seq<char>, ReadableError> {
    match e {
        TagValueView::Ascii(v) => Ok(
            if v == "T"@ {
                "True bearing"@
            } else if v == "M"@ {
                "Magnetic bearing"@
            } else {
                "Unknown ("@ + v + ")"@
            },
        ),
        _ => Err(ReadableError::FormatMismatch),
    }
}

/// The reference of a bearing.
pub fn gpsbearingref(e: &TagValue, _s: &String) -> (r: Result<String, ReadableError>)
    ensures
        text_of(r) == spec_gpsbearingref(e@),
{
    match e {
        TagValue::Ascii(v) => {
            if text_is(v, "T") {
                Ok("True bearing".to_owned())
            } else if text_is(v, "M") {
                Ok("Magnetic bearing".to_owned())
            } else {
                Ok(unknown_text(v))
            }
        },
        _ => Err(ReadableError::FormatMismatch),
    }
}

/// The word for a differential correction code, where it has one.
pub open spec fn spec_gpsdiff_word(n: u16) -> Option<Seq<char>> {
    match n {
        0 => Some("Measurement without differential correction"@),
        1 => Some("Differential correction applied"@),
        _ => None,
    }
}

/// Whether differential correction was applied. A code without a word is written as a number in
/// brackets.
pub open spec fn spec_gpsdiff(e: TagValueView) -> Result<Seq<char>, ReadableError> {
    match e {
        TagValueView::U16(v) if v.len() >= 1 => Ok(
            match spec_gpsdiff_word(v[0]) {
                Some(word) => word,
                None => "Unknown ("@ + spec_decimal(v[0] as int) + ")"@,
            },
        ),
        _ => Err(ReadableError::FormatMismatch),
    }
}

/// Whether differential correction was applied.
pub fn gpsdiff(e: &TagValue, _s: &String) -> (r: Result<String, ReadableError>)
    ensures
        text_of(r) == spec_gpsdiff(e@),
{
    match e {
        TagValue::U16(v) => {
            if v.len() < 1 {
                return Err(ReadableError::FormatMismatch);
            }
            let n = v[0];
            let word = match n {
                0 => "Measurement without differential correction",
                1 => "Differential correction applied",
                _ => {
                    let mut out = "Unknown (".to_owned();
                    push_unsigned(&mut out, n as u64);
                    out.append(")");
                    return Ok(out);
                },
            };
            Ok(word.to_owned())
        },
        _ => Err(ReadableError::FormatMismatch),
    }
}

/// The status of the receiver. A letter without a word is written in brackets.
pub open spec fn spec_gpsstatus(e: TagValueView) -> Result<Seq<char>, ReadableError> {
    match e {
        TagValueView::Ascii(v) => Ok(
            if v == "A"@ {
                "Measurement in progress"@
            } else if v == "V"@ {
                "Measurement is interoperability"@
            } else {
                "Unknown ("@ + v + ")"@
            },
        ),
        _ => Err(ReadableError::FormatMismatch),
    }
}

/// The status of the receiver.
pub fn gpsstatus(e: &TagValue, _s: &String) -> (r: Result<String, ReadableError>)
    ensures
        text_of(r) == spec_gpsstatus(e@),
{
    match e {
        TagValue::Ascii(v) => {
            if text_is(v, "A") {
                Ok("Measurement in progress".to_owned())
            } else if text_is(v, "V") {
                Ok("Measurement is interoperability".to_owned())
            } else {
                Ok(unknown_text(v))
            }
        },
        _ => Err(ReadableError::FormatMismatch),
    }
}

/// The measurement mode of the receiver. A letter without a word is written in brackets.
pub open spec fn spec_gpsmeasuremode(e: TagValueView) -> Result<Seq<char>, ReadableError> {
    match e {
        TagValueView::Ascii(v) => Ok(
            if v == "2"@ {
                "2-dimension"@
            } else if v == "3"@ {
                "3-dimension"@
            } else {
                "Unknown ("@ + v + ")"@
            },
        ),
        _ => Err(ReadableError::FormatMismatch),
    }
}

/// The measurement mode of the receiver.
pub fn gpsmeasuremode(e: &TagValue, _s: &String) -> (r: Result<String, ReadableError>)
    ensures
        text_of(r) == spec_gpsmeasuremode(e@),
{
    match e {
        TagValue::Ascii(v) => {
            if text_is(v, "2") {
                Ok("2-dimension".to_owned())
            } else if text_is(v, "3") {
                Ok("3-dimension".to_owned())
            } else {
                Ok(unknown_text(v))
            }
        },
        _ => Err(ReadableError::FormatMismatch),
    }
}

/// The word for a metering mode code, where it has one.
pub open spec fn spec_metering_mode_word(n: u16) -> Option<Seq<char>> {
    match n {
        0 => Some("Unknown"@),
        1 => Some("Average"@),
        2 => Some("Center-weighted average"@),
        3 => Some("Spot"@),
        4 => Some("Multi-spot"@),
        5 => Some("Pattern"@),
        6 => Some("Partial"@),
        255 => Some("Other"@),
        _ => None,
    }
}

/// How the light was metered. A code without a word is written as a number in
/// brackets.
pub open spec fn spec_metering_mode(e: TagValueView) -> Result<Seq<char>, ReadableError> {
    match e {
        TagValueView::U16(v) if v.len() >= 1 => Ok(
            match spec_metering_mode_word(v[0]) {
                Some(word) => word,
                None => "Unknown ("@ + spec_decimal(v[0] as int) + ")"@,
            },
        ),
        _ => Err(ReadableError::FormatMismatch),
    }
}

/// How the light was metered.
pub fn metering_mode(e: &TagValue, _s: &String) -> (r: Result<String, ReadableError>)
    ensures
        text_of(r) == spec_metering_mode(e@),
{
    match e {
        TagValue::U16(v) => {
            if v.len() < 1 {
                return Err(ReadableError::FormatMismatch);
            }
            let n = v[0];
            let word = match n {
                0 => "Unknown",
                1 => "Average",
                2 => "Center-weighted average",
                3 => "Spot",
                4 => "Multi-spot",
                5 => "Pattern",
                6 => "Partial",
                255 => "Other",
                _ => {
                    let mut out = "Unknown (".to_owned();
                    push_unsigned(&mut out, n as u64);
                    out.append(")");
                    return Ok(out);
                },
            };
            Ok(word.to_owned())
        },
        _ => Err(ReadableError::FormatMismatch),
    }
}

/// The word for a light source code, where it has one.
pub open spec fn spec_light_source_word(n: u16) -> Option<Seq<char>> {
    match n {
        0 => Some("Unknown"@),
        1 => Some("Daylight"@),
        2 => Some("Fluorescent"@),
        3 => Some("Tungsten"@),
        4 => Some("Flash"@),
        9 => Some("Fine weather"@),
        10 => Some("Cloudy weather"@),
        11 => Some("Shade"@),
        12 => Some("Daylight fluorescent (D)"@),
        13 => Some("Day white fluorescent (N)"@),
        14 => Some("Cool white fluorescent (W)"@),
        15 => Some("White fluorescent (WW)"@),
        17 => Some("Standard light A"@),
        18 => Some("Standard light B"@),
        19 => Some("Standard light C"@),
        20 => Some("D55"@),
        21 => Some("D65"@),
        22 => Some("D75"@),
        23 => Some("D50"@),
        24 => Some("ISO studio tungsten"@),
        255 => Some("Other"@),
        _ => None,
    }
}

/// The kind of light source. A code without a word is written as a number in
/// brackets.
pub open spec fn spec_light_source(e: TagValueView) -> Result<Seq<char>, ReadableError> {
    match e {
        TagValueView::U16(v) if v.len() >= 1 => Ok(
            match spec_light_source_word(v[0]) {
                Some(word) => word,
                None => "Unknown ("@ + spec_decimal(v[0] as int) + ")"@,
            },
        ),
        _ => Err(ReadableError::FormatMismatch),
    }
}

/// The kind of light source.
pub fn light_source(e: &TagValue, _s: &String) -> (r: Result<String, ReadableError>)
    ensures
        text_of(r) == spec_light_source(e@),
{
    match e {
        TagValue::U16(v) => {
            if v.len() < 1 {
                return Err(ReadableError::FormatMismatch);
            }
            let n = v[0];
            let word = match n {
                0 => "Unknown",
                1 => "Daylight",
                2 => "Fluorescent",
                3 => "Tungsten",
                4 => "Flash",
                9 => "Fine weather",
                10 => "Cloudy weather",
                11 => "Shade",
                12 => "Daylight fluorescent (D)",
                13 => "Day white fluorescent (N)",
                14 => "Cool white fluorescent (W)",
                15 => "White fluorescent (WW)",
                17 => "Standard light A",
                18 => "Standard light B",
                19 => "Standard light C",
                20 => "D55",
                21 => "D65",
                22 => "D75",
                23 => "D50",
                24 => "ISO studio tungsten",
                255 => "Other",
                _ => {
                    let mut out = "Unknown (".to_owned();
                    push_unsigned(&mut out, n as u64);
                    out.append(")");
                    return Ok(out);
                },
            };
            Ok(word.to_owned())
        },
        _ => Err(ReadableError::FormatMismatch),
    }
}

/// The word for a colour space code, where it has one.
pub open spec fn spec_color_space_word(n: u16) -> Option<Seq<char>> {
    match n {
        1 => Some("sRGB"@),
        65535 => Some("Uncalibrated"@),
        _ => None,
    }
}

/// The colour space. A code without a word is written as a number in
/// brackets.
pub open spec fn spec_color_space(e: TagValueView) -> Result<Seq<char>, ReadableError> {
    match e {
        TagValueView::U16(v) if v.len() >= 1 => Ok(
            match spec_color_space_word(v[0]) {
                Some(word) => word,
                None => "Unknown ("@ + spec_decimal(v[0] as int) + ")"@,
            },
        ),
        _ => Err(ReadableError::FormatMismatch),
    }
}

/// The colour space.
pub fn color_space(e: &TagValue, _s: &String) -> (r: Result<String, ReadableError>)
    ensures
        text_of(r) == spec_color_space(e@),
{
    match e {
        TagValue::U16(v) => {
            if v.len() < 1 {
                return Err(ReadableError::FormatMismatch);
            }
            let n = v[0];
            let word = match n {
                1 => "sRGB",
                65535 => "Uncalibrated",
                _ => {
                    let mut out = "Unknown (".to_owned();
                    push_unsigned(&mut out, n as u64);
                    out.append(")");
                    return Ok(out);
                },
            };
            Ok(word.to_owned())
        },
        _ => Err(ReadableError::FormatMismatch),
    }
}

/// An exposure time: the fraction of a second, as it is stored.
pub open spec fn spec_exposure_time(e: TagValueView) -> Result<Seq<char>, ReadableError> {
    match e {
        TagValueView::URational(v) if v.len() >= 1 => Ok(v[0].spec_text() + " s"@),
        _ => Err(ReadableError::FormatMismatch),
    }
}

/// An exposure time: the fraction of a second, as it is stored.
pub fn exposure_time(e: &TagValue, _s: &String) -> (r: Result<String, ReadableError>)
    ensures
        text_of(r) == spec_exposure_time(e@),
{
    match e {
        TagValue::URational(v) => {
            if v.len() < 1 {
                return Err(ReadableError::FormatMismatch);
            }
            let mut out = String::new();
            v[0].push_text(&mut out);
            out.append(" s");
            assert(out@ =~= v@[0].spec_text() + " s"@);
            Ok(out)
        },
        _ => Err(ReadableError::FormatMismatch),
    }
}

/// A focal length for 35 mm film, in millimetres.
pub open spec fn spec_focal_length_35(e: TagValueView) -> Result<Seq<char>, ReadableError> {
    match e {
        TagValueView::U16(v) if v.len() >= 1 => Ok(spec_decimal(v[0] as int) + " mm"@),
        _ => Err(ReadableError::FormatMismatch),
    }
}

/// A focal length for 35 mm film, in millimetres.
pub fn focal_length_35(e: &TagValue, _s: &String) -> (r: Result<String, ReadableError>)
    ensures
        text_of(r) == spec_focal_length_35(e@),
{
    match e {
        TagValue::U16(v) => {
            if v.len() < 1 {
                return Err(ReadableError::FormatMismatch);
            }
            let mut out = String::new();
            push_unsigned(&mut out, v[0] as u64);
            out.append(" mm");
            assert(out@ =~= spec_decimal(v@[0] as int) + " mm"@);
            Ok(out)
        },
        _ => Err(ReadableError::FormatMismatch),
    }
}

/// ISO speed ratings: the speed, then the latitude where there is one.
pub open spec fn spec_iso_speeds(e: TagValueView) -> Result<Seq<char>, ReadableError> {
    match e {
        TagValueView::U16(v) => Ok(
            if v.len() == 1 {
                "ISO "@ + spec_decimal(v[0] as int)
            } else if v.len() == 2 {
                "ISO "@ + spec_decimal(v[0] as int) + " latitude "@ + spec_decimal(v[1] as int)
            } else {
                "Unknown ("@ + spec_numarray(v) + ")"@
            },
        ),
        _ => Err(ReadableError::FormatMismatch),
    }
}

/// ISO speed ratings: the speed, then the latitude where there is one.
pub fn iso_speeds(e: &TagValue, _s: &String) -> (r: Result<String, ReadableError>)
    ensures
        text_of(r) == spec_iso_speeds(e@),
{
    match e {
        TagValue::U16(v) => {
            if v.len() == 1 {
                let mut out = "ISO ".to_owned();
                push_unsigned(&mut out, v[0] as u64);
                Ok(out)
            } else if v.len() == 2 {
                let mut out = "ISO ".to_owned();
                push_unsigned(&mut out, v[0] as u64);
                out.append(" latitude ");
                push_unsigned(&mut out, v[1] as u64);
                Ok(out)
            } else {
                let mut out = "Unknown (".to_owned();
                out.append(numarray_to_string(v.as_slice()).as_str());
                out.append(")");
                Ok(out)
            }
        },
        _ => Err(ReadableError::FormatMismatch),
    }
}

/// Opaque bytes read as text.
pub open spec fn spec_undefined_as_ascii(e: TagValueView) -> Result<Seq<char>, ReadableError> {
    match e {
        TagValueView::Undefined(v, _) => Ok(utf8_lossy(v)),
        _ => Err(ReadableError::FormatMismatch),
    }
}

/// Opaque bytes read as text.
pub fn undefined_as_ascii(e: &TagValue, _s: &String) -> (r: Result<String, ReadableError>)
    ensures
        text_of(r) == spec_undefined_as_ascii(e@),
        e@ is Undefined && is_seven_bit(e@->Undefined_0) ==> text_of(r) == Ok::<
            Seq<char>,
            ReadableError,
        >(seven_bit_text(e@->Undefined_0)),
{
    match e {
        TagValue::Undefined(v, _) => Ok(lossy_text(v.as_slice())),
        _ => Err(ReadableError::FormatMismatch),
    }
}

/// Opaque bytes as a list of numbers.
pub open spec fn spec_undefined_as_u8(e: TagValueView) -> Result<Seq<char>, ReadableError> {
    match e {
        TagValueView::Undefined(v, _) => Ok(spec_numarray(v)),
        _ => Err(ReadableError::FormatMismatch),
    }
}

/// Opaque bytes as a list of numbers.
pub fn undefined_as_u8(e: &TagValue, _s: &String) -> (r: Result<String, ReadableError>)
    ensures
        text_of(r) == spec_undefined_as_u8(e@),
{
    match e {
        TagValue::Undefined(v, _) => Ok(numarray_to_string(v.as_slice())),
        _ => Err(ReadableError::FormatMismatch),
    }
}

/// The eight bytes that announce ASCII text.
pub open spec fn preamble_ascii() -> Seq<u8> {
    seq![0x41u8, 0x53u8, 0x43u8, 0x49u8, 0x49u8, 0u8, 0u8, 0u8]
}

/// The eight bytes that announce JIS text.
pub open spec fn preamble_jis() -> Seq<u8> {
    seq![0x4au8, 0x49u8, 0x53u8, 0u8, 0u8, 0u8, 0u8, 0u8]
}

/// The eight bytes that announce Unicode text.
pub open spec fn preamble_unicode() -> Seq<u8> {
    seq![0x55u8, 0x4eu8, 0x49u8, 0x43u8, 0x4fu8, 0x44u8, 0x45u8, 0u8]
}

/// Opaque bytes that hold text after an eight-byte preamble naming its
/// encoding: ASCII is read as text, Unicode as 16-bit code units in the
/// entry's byte order, and JIS is left as a list of numbers.
pub open spec fn spec_undefined_as_encoded_string(e: TagValueView) -> Result<
    Seq<char>,
    ReadableError,
> {
    match e {
        TagValueView::Undefined(v, le) => Ok(
            if v.len() < 8 {
                "String w/ truncated preamble "@ + spec_numarray(v)
            } else if v.subrange(0, 8) == preamble_ascii() {
                utf8_lossy(v.subrange(8, v.len() as int))
            } else if v.subrange(0, 8) == preamble_jis() {
                "JIS string "@ + spec_numarray(v.subrange(8, v.len() as int))
            } else if v.subrange(0, 8) == preamble_unicode() {
                utf16_lossy(
                    spec_u16_array(
                        le,
                        ((v.len() - 8) / 2) as nat,
                        v.subrange(8, v.len() as int),
                    ),
                )
            } else {
                "String w/ undefined encoding "@ + spec_numarray(v)
            },
        ),
        _ => Err(ReadableError::FormatMismatch),
    }
}

/// Whether the first eight bytes of `v` are those of `preamble`.
fn has_preamble(v: &[u8], preamble: &[u8; 8]) -> (r: bool)
    requires
        v@.len() >= 8,
    ensures
        r == (v@.subrange(0, 8) == preamble@),
{
    let mut i: usize = 0;
    while i < 8
        invariant
            i <= 8,
            v@.len() >= 8,
            v@.subrange(0, i as int) == preamble@.subrange(0, i as int),
        decreases 8 - i,
    {
        if v[i] != preamble[i] {
            assert(v@.subrange(0, 8)[i as int] != preamble@[i as int]);
            return false;
        }
        i += 1;
        assert(v@.subrange(0, i as int) =~= preamble@.subrange(0, i as int));
    }
    assert(preamble@.subrange(0, 8) =~= preamble@);
    true
}

/// The 16-bit code units of `raw`, as many as it holds whole.
fn code_units(le: bool, raw: &[u8]) -> (r: Vec<u16>)
    ensures
        r@ == spec_u16_array(le, (raw@.len() / 2) as nat, raw@),
{
    let count = raw.len() / 2;
    let mut out: Vec<u16> = Vec::new();
    let mut i: usize = 0;
    while i < count
        invariant
            i <= count,
            count == raw@.len() / 2,
            raw@.len() <= usize::MAX,
            out@ == spec_u16_array(le, i as nat, raw@),
        decreases count - i,
    {
        let unit = read_u16(le, slice_subrange(raw, 2 * i, 2 * i + 2));
        assert(raw@.subrange(2 * i, 2 * i + 2) == element(raw@, 2, i as int));
        out.push(unit);
        i += 1;
        assert(out@ =~= spec_u16_array(le, i as nat, raw@));
    }
    out
}

/// Opaque bytes that hold text after a preamble naming its encoding.
pub fn undefined_as_encoded_string(e: &TagValue, _s: &String) -> (r: Result<
    String,
    ReadableError,
>)
    ensures
        text_of(r) == spec_undefined_as_encoded_string(e@),
{
    let ascii: [u8; 8] = [0x41, 0x53, 0x43, 0x49, 0x49, 0, 0, 0];
    let jis: [u8; 8] = [0x4a, 0x49, 0x53, 0, 0, 0, 0, 0];
    let unicode: [u8; 8] = [0x55, 0x4e, 0x49, 0x43, 0x4f, 0x44, 0x45, 0];
    assert(ascii@ =~= preamble_ascii());
    assert(jis@ =~= preamble_jis());
    assert(unicode@ =~= preamble_unicode());
    match e {
        TagValue::Undefined(v, le) => {
            let bytes = v.as_slice();
            if bytes.len() < 8 {
                let mut out = "String w/ truncated preamble ".to_owned();
                out.append(numarray_to_string(bytes).as_str());
                Ok(out)
            } else if has_preamble(bytes, &ascii) {
                Ok(lossy_text(slice_subrange(bytes, 8, bytes.len())))
            } else if has_preamble(bytes, &jis) {
                let mut out = "JIS string ".to_owned();
                out.append(numarray_to_string(slice_subrange(bytes, 8, bytes.len())).as_str());
                Ok(out)
            } else if has_preamble(bytes, &unicode) {
                let units = code_units(*le, slice_subrange(bytes, 8, bytes.len()));
                Ok(from_utf16_lossy(units.as_slice()))
            } else {
                let mut out = "String w/ undefined encoding ".to_owned();
                out.append(numarray_to_string(bytes).as_str());
                Ok(out)
            }
        },
        _ => Err(ReadableError::FormatMismatch),
    }
}

/// Opaque bytes, told by their number only.
pub open spec fn spec_undefined_as_blob(e: TagValueView) -> Result<Seq<char>, ReadableError> {
    match e {
        TagValueView::Undefined(v, _) => Ok(
            "Blob of "@ + spec_decimal(v.len() as int) + " bytes"@,
        ),
        _ => Err(ReadableError::FormatMismatch),
    }
}

/// Opaque bytes, told by their number only.
pub fn undefined_as_blob(e: &TagValue, _s: &String) -> (r: Result<String, ReadableError>)
    ensures
        text_of(r) == spec_undefined_as_blob(e@),
{
    match e {
        TagValue::Undefined(v, _) => {
            let mut out = "Blob of ".to_owned();
            push_unsigned(&mut out, v.len() as u64);
            out.append(" bytes");
            Ok(out)
        },
        _ => Err(ReadableError::FormatMismatch),
    }
}

/// An exposure bias: the fraction as it is stored, or a plain zero.
pub open spec fn spec_apex_ev(e: TagValueView) -> Result<Seq<char>, ReadableError> {
    match e {
        TagValueView::IRational(v) if v.len() >= 1 => Ok(
            if v[0].numerator == 0 {
                "0 EV APEX"@
            } else {
                v[0].spec_text() + " EV APEX"@
            },
        ),
        _ => Err(ReadableError::FormatMismatch),
    }
}

/// An exposure bias: the fraction as it is stored, or a plain zero.
pub fn apex_ev(e: &TagValue, _s: &String) -> (r: Result<String, ReadableError>)
    ensures
        text_of(r) == spec_apex_ev(e@),
{
    match e {
        TagValue::IRational(v) => {
            if v.len() < 1 {
                return Err(ReadableError::FormatMismatch);
            }
            if v[0].numerator == 0 {
                Ok("0 EV APEX".to_owned())
            } else {
                let mut out = String::new();
                v[0].push_text(&mut out);
                out.append(" EV APEX");
                assert(out@ =~= v@[0].spec_text() + " EV APEX"@);
                Ok(out)
            }
        },
        _ => Err(ReadableError::FormatMismatch),
    }
}

/// Where the image came from: a digital still camera, or unknown.
pub open spec fn spec_file_source(e: TagValueView) -> Result<Seq<char>, ReadableError> {
    match e {
        TagValueView::Undefined(v, _) => Ok(
            if v.len() > 0 && v[0] == 3 {
                "DSC"@
            } else {
                "Unknown"@
            },
        ),
        _ => Err(ReadableError::FormatMismatch),
    }
}

/// Where the image came from: a digital still camera, or unknown.
pub fn file_source(e: &TagValue, _s: &String) -> (r: Result<String, ReadableError>)
    ensures
        text_of(r) == spec_file_source(e@),
{
    match e {
        TagValue::Undefined(v, _) => {
            if v.len() > 0 && v[0] == 3 {
                Ok("DSC".to_owned())
            } else {
                Ok("Unknown".to_owned())
            }
        },
        _ => Err(ReadableError::FormatMismatch),
    }
}

/// Whether bit `bit` of `n` is set.
pub open spec fn bit_set(n: u16, bit: u16) -> bool
    recommends
        bit < 16,
{
    (n >> bit) & 1 == 1
}

/// The two-bit field of `n` that starts at bit `bit`.
pub open spec fn two_bits(n: u16, bit: u16) -> u16
    recommends
        bit < 15,
{
    (n >> bit) & 3
}

/// The state of the flash, from the bits of its code. Bit 5 tells that there
/// is no flash at all. Else: bit 0 whether it fired; when it fired, bit 6
/// the red-eye reduction and bits 1 and 2 the strobe return; bits 3 and 4
/// the mode, of which the automatic one is told in place of the strobe
/// return.
pub open spec fn spec_flash_text(n: u16) -> Seq<char> {
    if bit_set(n, 5) {
        "Does not have a flash."@
    } else {
        let fired = bit_set(n, 0);
        let b0 = if fired {
            "Fired. "@
        } else {
            "Did not fire. "@
        };
        let b6 = if !fired {
            ""@
        } else if bit_set(n, 6) {
            "Redeye reduction. "@
        } else {
            "No redeye reduction. "@
        };
        let strobe = if fired && two_bits(n, 1) == 2 {
            "Strobe ret not detected. "@
        } else if fired && two_bits(n, 1) == 3 {
            "Strobe ret detected. "@
        } else {
            ""@
        };
        let b12 = if two_bits(n, 3) == 3 {
            "Auto mode. "@
        } else {
            strobe
        };
        let b34 = if two_bits(n, 3) == 1 {
            "Forced fire. "@
        } else if two_bits(n, 3) == 2 {
            "Forced suppresion. "@
        } else {
            ""@
        };
        b0 + b12 + b34 + b6
    }
}

/// The state of the flash.
pub open spec fn spec_flash(e: TagValueView) -> Result<Seq<char>, ReadableError> {
    match e {
        TagValueView::U16(v) if v.len() >= 1 => Ok(spec_flash_text(v[0])),
        _ => Err(ReadableError::FormatMismatch),
    }
}

/// The state of the flash.
pub fn flash(e: &TagValue, _s: &String) -> (r: Result<String, ReadableError>)
    ensures
        text_of(r) == spec_flash(e@),
{
    match e {
        TagValue::U16(v) => {
            if v.len() < 1 {
                return Err(ReadableError::FormatMismatch);
            }
            let n = v[0];
            let mut b0 = "Did not fire. ";
            let mut b12 = "";
            let mut b34 = "";
            let mut b6 = "";

            if (n >> 5) & 1 == 1 {
                return Ok("Does not have a flash.".to_owned());
            }
            if (n >> 0) & 1 == 1 {
                b0 = "Fired. ";
                if (n >> 6) & 1 == 1 {
                    b6 = "Redeye reduction. ";
                } else {
                    b6 = "No redeye reduction. ";
                }
                let m = (n >> 1) & 3;
                if m == 2 {
                    b12 = "Strobe ret not detected. ";
                } else if m == 3 {
                    b12 = "Strobe ret detected. ";
                }
            }
            let m = (n >> 3) & 3;
            if m == 1 {
                b34 = "Forced fire. ";
            } else if m == 2 {
                b34 = "Forced suppresion. ";
            } else if m == 3 {
                b12 = "Auto mode. ";
            }
            let mut out = b0.to_owned();
            out.append(b12);
            out.append(b34);
            out.append(b6);
            Ok(out)
        },
        _ => Err(ReadableError::FormatMismatch),
    }
}

/// The area of the subject: a point, a circle or a rectangle, by the
/// number of its coordinates.
pub open spec fn spec_subject_area(e: TagValueView) -> Result<Seq<char>, ReadableError> {
    match e {
        TagValueView::U16(v) => Ok(
            if v.len() == 2 {
                "at pixel "@ + spec_decimal(v[0] as int) + ","@ + spec_decimal(v[1] as int)
            } else if v.len() == 3 {
                "at center "@ + spec_decimal(v[0] as int) + ","@ + spec_decimal(v[1] as int)
                    + " radius "@ + spec_decimal(v[2] as int)
            } else if v.len() == 4 {
                "at rectangle "@ + spec_decimal(v[0] as int) + ","@ + spec_decimal(v[1] as int)
                    + " width "@ + spec_decimal(v[2] as int) + " height "@ + spec_decimal(
                    v[3] as int,
                )
            } else {
                "Unknown ("@ + spec_numarray(v) + ") "@
            },
        ),
        _ => Err(ReadableError::FormatMismatch),
    }
}

/// The area of the subject.
pub fn subject_area(e: &TagValue, _s: &String) -> (r: Result<String, ReadableError>)
    ensures
        text_of(r) == spec_subject_area(e@),
{
    match e {
        TagValue::U16(v) => {
            if v.len() == 2 {
                let mut out = "at pixel ".to_owned();
                push_unsigned(&mut out, v[0] as u64);
                out.append(",");
                push_unsigned(&mut out, v[1] as u64);
                Ok(out)
            } else if v.len() == 3 {
                let mut out = "at center ".to_owned();
                push_unsigned(&mut out, v[0] as u64);
                out.append(",");
                push_unsigned(&mut out, v[1] as u64);
                out.append(" radius ");
                push_unsigned(&mut out, v[2] as u64);
                Ok(out)
            } else if v.len() == 4 {
                let mut out = "at rectangle ".to_owned();
                push_unsigned(&mut out, v[0] as u64);
                out.append(",");
                push_unsigned(&mut out, v[1] as u64);
                out.append(" width ");
                push_unsigned(&mut out, v[2] as u64);
                out.append(" height ");
                push_unsigned(&mut out, v[3] as u64);
                Ok(out)
            } else {
                let mut out = "Unknown (".to_owned();
                out.append(numarray_to_string(v.as_slice()).as_str());
                out.append(") ");
                Ok(out)
            }
        },
        _ => Err(ReadableError::FormatMismatch),
    }
}

/// The place of the subject: a point.
pub open spec fn spec_subject_location(e: TagValueView) -> Result<Seq<char>, ReadableError> {
    match e {
        TagValueView::U16(v) if v.len() >= 2 => Ok(
            "at pixel "@ + spec_decimal(v[0] as int) + ","@ + spec_decimal(v[1] as int),
        ),
        _ => Err(ReadableError::FormatMismatch),
    }
}

/// The place of the subject: a point.
pub fn subject_location(e: &TagValue, _s: &String) -> (r: Result<String, ReadableError>)
    ensures
        text_of(r) == spec_subject_location(e@),
{
    match e {
        TagValue::U16(v) => {
            if v.len() < 2 {
                return Err(ReadableError::FormatMismatch);
            }
            let mut out = "at pixel ".to_owned();
            push_unsigned(&mut out, v[0] as u64);
            out.append(",");
            push_unsigned(&mut out, v[1] as u64);
            Ok(out)
        },
        _ => Err(ReadableError::FormatMismatch),
    }
}

/// The decimal reading of a result, or its error.
pub open spec fn decimal_of(r: Result<Decimal, ReadableError>) -> Result<
    DecimalView,
    ReadableError,
> {
    match r {
        Ok(d) => Ok(d@),
        Err(e) => Err(e),
    }
}

/// An unsigned rational as a ratio.
pub open spec fn spec_unsigned_ratio(r: URational) -> Ratio {
    Ratio { numerator: r.numerator as i64, denominator: r.denominator as i64 }
}

/// A signed rational as a ratio.
pub open spec fn spec_signed_ratio(r: IRational) -> Ratio {
    Ratio { numerator: r.numerator as i64, denominator: r.denominator as i64 }
}

/// The reading of the first element of an array of unsigned rationals in
/// the given layout.
pub open spec fn spec_first_unsigned(e: TagValueView, layout: Layout) -> Result<
    DecimalView,
    ReadableError,
> {
    match e {
        TagValueView::URational(v) if v.len() >= 1 => Ok(
            DecimalView { layout, ratios: seq![spec_unsigned_ratio(v[0])] },
        ),
        _ => Err(ReadableError::FormatMismatch),
    }
}

/// The reading of the first element of an array of signed rationals in the
/// given layout.
pub open spec fn spec_first_signed(e: TagValueView, layout: Layout) -> Result<
    DecimalView,
    ReadableError,
> {
    match e {
        TagValueView::IRational(v) if v.len() >= 1 => Ok(
            DecimalView { layout, ratios: seq![spec_signed_ratio(v[0])] },
        ),
        _ => Err(ReadableError::FormatMismatch),
    }
}

/// The reading of the first three elements of an array of unsigned
/// rationals in the given layout.
pub open spec fn spec_first_three(e: TagValueView, layout: Layout) -> Result<
    DecimalView,
    ReadableError,
> {
    match e {
        TagValueView::URational(v) if v.len() >= 3 => Ok(
            DecimalView {
                layout,
                ratios: seq![
                    spec_unsigned_ratio(v[0]),
                    spec_unsigned_ratio(v[1]),
                    spec_unsigned_ratio(v[2]),
                ],
            },
        ),
        _ => Err(ReadableError::FormatMismatch),
    }
}

/// An unsigned rational as a ratio.
fn unsigned_ratio(r: &URational) -> (ratio: Ratio)
    ensures
        ratio == spec_unsigned_ratio(*r),
{
    Ratio { numerator: r.numerator as i64, denominator: r.denominator as i64 }
}

/// A signed rational as a ratio.
fn signed_ratio(r: &IRational) -> (ratio: Ratio)
    ensures
        ratio == spec_signed_ratio(*r),
{
    Ratio { numerator: r.numerator as i64, denominator: r.denominator as i64 }
}

/// Reads the first element of an array of unsigned rationals.
fn first_unsigned(e: &TagValue, layout: Layout) -> (r: Result<Decimal, ReadableError>)
    ensures
        decimal_of(r) == spec_first_unsigned(e@, layout),
{
    match e {
        TagValue::URational(v) => {
            if v.len() < 1 {
                return Err(ReadableError::FormatMismatch);
            }
            let mut ratios: Vec<Ratio> = Vec::new();
            ratios.push(unsigned_ratio(&v[0]));
            assert(ratios@ =~= seq![spec_unsigned_ratio(v@[0])]);
            Ok(Decimal { layout, ratios })
        },
        _ => Err(ReadableError::FormatMismatch),
    }
}

/// Reads the first element of an array of signed rationals.
fn first_signed(e: &TagValue, layout: Layout) -> (r: Result<Decimal, ReadableError>)
    ensures
        decimal_of(r) == spec_first_signed(e@, layout),
{
    match e {
        TagValue::IRational(v) => {
            if v.len() < 1 {
                return Err(ReadableError::FormatMismatch);
            }
            let mut ratios: Vec<Ratio> = Vec::new();
            ratios.push(signed_ratio(&v[0]));
            assert(ratios@ =~= seq![spec_signed_ratio(v@[0])]);
            Ok(Decimal { layout, ratios })
        },
        _ => Err(ReadableError::FormatMismatch),
    }
}

/// Reads the first three elements of an array of unsigned rationals.
fn first_three(e: &TagValue, layout: Layout) -> (r: Result<Decimal, ReadableError>)
    ensures
        decimal_of(r) == spec_first_three(e@, layout),
{
    match e {
        TagValue::URational(v) => {
            if v.len() < 3 {
                return Err(ReadableError::FormatMismatch);
            }
            let mut ratios: Vec<Ratio> = Vec::new();
            ratios.push(unsigned_ratio(&v[0]));
            ratios.push(unsigned_ratio(&v[1]));
            ratios.push(unsigned_ratio(&v[2]));
            assert(ratios@ =~= seq![
                spec_unsigned_ratio(v@[0]),
                spec_unsigned_ratio(v@[1]),
                spec_unsigned_ratio(v@[2]),
            ]);
            Ok(Decimal { layout, ratios })
        },
        _ => Err(ReadableError::FormatMismatch),
    }
}

/// The first ratio of an array of rationals, unsigned or signed, as a plain
/// number.
pub open spec fn spec_rational_value(e: TagValueView) -> Result<DecimalView, ReadableError> {
    match e {
        TagValueView::IRational(_) => spec_first_signed(e, Layout::Plain),
        _ => spec_first_unsigned(e, Layout::Plain),
    }
}

/// The first ratio of an array of rationals, unsigned or signed, as a plain
/// number.
pub fn rational_value(e: &TagValue, _s: &String) -> (r: Result<Decimal, ReadableError>)
    ensures
        decimal_of(r) == spec_rational_value(e@),
{
    match e {
        TagValue::IRational(_) => first_signed(e, Layout::Plain),
        _ => first_unsigned(e, Layout::Plain),
    }
}

/// All ratios of an array of unsigned rationals, as a list of numbers.
pub open spec fn spec_rational_values(e: TagValueView) -> Result<DecimalView, ReadableError> {
    match e {
        TagValueView::URational(v) => Ok(
            DecimalView {
                layout: Layout::List,
                ratios: v.map_values(|r: URational| spec_unsigned_ratio(r)),
            },
        ),
        _ => Err(ReadableError::FormatMismatch),
    }
}

/// All ratios of an array of unsigned rationals, as a list of numbers.
pub fn rational_values(e: &TagValue, _s: &String) -> (r: Result<Decimal, ReadableError>)
    ensures
        decimal_of(r) == spec_rational_values(e@),
{
    match e {
        TagValue::URational(v) => {
            let mut ratios: Vec<Ratio> = Vec::new();
            let mut i: usize = 0;
            while i < v.len()
                invariant
                    i <= v@.len(),
                    ratios@ == v@.take(i as int).map_values(|r: URational| spec_unsigned_ratio(r)),
                decreases v@.len() - i,
            {
                ratios.push(unsigned_ratio(&v[i]));
                i += 1;
                assert(ratios@ =~= v@.take(i as int).map_values(
                    |r: URational| spec_unsigned_ratio(r),
                ));
            }
            assert(v@.take(i as int) =~= v@);
            Ok(Decimal { layout: Layout::List, ratios })
        },
        _ => Err(ReadableError::FormatMismatch),
    }
}

/// An aperture as an f-number.
pub fn f_number(e: &TagValue, _s: &String) -> (r: Result<Decimal, ReadableError>)
    ensures
        decimal_of(r) == spec_first_unsigned(e@, Layout::FNumber),
{
    first_unsigned(e, Layout::FNumber)
}

/// A focal length in millimetres.
pub fn focal_length(e: &TagValue, _s: &String) -> (r: Result<Decimal, ReadableError>)
    ensures
        decimal_of(r) == spec_first_unsigned(e@, Layout::Millimetres),
{
    first_unsigned(e, Layout::Millimetres)
}

/// A length in metres.
pub fn meters(e: &TagValue, _s: &String) -> (r: Result<Decimal, ReadableError>)
    ensures
        decimal_of(r) == spec_first_unsigned(e@, Layout::Metres),
{
    first_unsigned(e, Layout::Metres)
}

/// The layout of an angle given as degrees, minutes and seconds: all three
/// apart where degrees and minutes are whole, minutes with a fraction where
/// only the degrees are whole, else degrees with a fraction.
pub open spec fn spec_dms_layout(degrees: URational, minutes: URational) -> Layout {
    if degrees.denominator == 1 && minutes.denominator == 1 {
        Layout::DegMinSec
    } else if degrees.denominator == 1 {
        Layout::DegMin
    } else {
        Layout::Deg
    }
}

/// An angle given as degrees, minutes and seconds.
pub open spec fn spec_dms(e: TagValueView) -> Result<DecimalView, ReadableError> {
    match e {
        TagValueView::URational(v) if v.len() >= 3 => spec_first_three(
            e,
            spec_dms_layout(v[0], v[1]),
        ),
        _ => Err(ReadableError::FormatMismatch),
    }
}

/// An angle given as degrees, minutes and seconds.
pub fn dms(e: &TagValue, _s: &String) -> (r: Result<Decimal, ReadableError>)
    ensures
        decimal_of(r) == spec_dms(e@),
{
    match e {
        TagValue::URational(v) => {
            if v.len() < 3 {
                return Err(ReadableError::FormatMismatch);
            }
            let layout = if v[0].denominator == 1 && v[1].denominator == 1 {
                Layout::DegMinSec
            } else if v[0].denominator == 1 {
                Layout::DegMin
            } else {
                Layout::Deg
            };
            first_three(e, layout)
        },
        _ => Err(ReadableError::FormatMismatch),
    }
}

/// A distance to the destination.
pub fn gpsdestdistance(e: &TagValue, _s: &String) -> (r: Result<Decimal, ReadableError>)
    ensures
        decimal_of(r) == spec_first_unsigned(e@, Layout::Thousandths),
{
    first_unsigned(e, Layout::Thousandths)
}

/// A speed.
pub fn gpsspeed(e: &TagValue, _s: &String) -> (r: Result<Decimal, ReadableError>)
    ensures
        decimal_of(r) == spec_first_unsigned(e@, Layout::Tenths),
{
    first_unsigned(e, Layout::Tenths)
}

/// A bearing in degrees.
pub fn gpsbearing(e: &TagValue, _s: &String) -> (r: Result<Decimal, ReadableError>)
    ensures
        decimal_of(r) == spec_first_unsigned(e@, Layout::Bearing),
{
    first_unsigned(e, Layout::Bearing)
}

/// A time of day given as hours, minutes and seconds.
pub fn gpstimestamp(e: &TagValue, _s: &String) -> (r: Result<Decimal, ReadableError>)
    ensures
        decimal_of(r) == spec_first_three(e@, Layout::TimeStamp),
{
    first_three(e, Layout::TimeStamp)
}

/// A shutter speed in APEX units.
pub fn apex_tv(e: &TagValue, _s: &String) -> (r: Result<Decimal, ReadableError>)
    ensures
        decimal_of(r) == spec_first_signed(e@, Layout::ApexTv),
{
    first_signed(e, Layout::ApexTv)
}

/// An aperture in APEX units.
pub fn apex_av(e: &TagValue, _s: &String) -> (r: Result<Decimal, ReadableError>)
    ensures
        decimal_of(r) == spec_first_unsigned(e@, Layout::ApexAv),
{
    first_unsigned(e, Layout::ApexAv)
}

/// A brightness in APEX units; a numerator of -1 tells that it is not
/// known.
pub open spec fn spec_apex_brightness(e: TagValueView) -> Result<DecimalView, ReadableError> {
    match e {
        TagValueView::IRational(v) if v.len() >= 1 => if v[0].numerator == -1 {
            Ok(DecimalView { layout: Layout::BrightnessUnknown, ratios: Seq::empty() })
        } else {
            spec_first_signed(e, Layout::ApexBrightness)
        },
        _ => Err(ReadableError::FormatMismatch),
    }
}

/// A brightness in APEX units.
pub fn apex_brightness(e: &TagValue, _s: &String) -> (r: Result<Decimal, ReadableError>)
    ensures
        decimal_of(r) == spec_apex_brightness(e@),
{
    match e {
        TagValue::IRational(v) => {
            if v.len() < 1 {
                return Err(ReadableError::FormatMismatch);
            }
            if v[0].numerator == -1 {
                Ok(Decimal { layout: Layout::BrightnessUnknown, ratios: Vec::new() })
            } else {
                first_signed(e, Layout::ApexBrightness)
            }
        },
        _ => Err(ReadableError::FormatMismatch),
    }
}

/// A flash energy in beam candle power seconds.
pub fn flash_energy(e: &TagValue, _s: &String) -> (r: Result<Decimal, ReadableError>)
    ensures
        decimal_of(r) == spec_first_unsigned(e@, Layout::FlashEnergy),
{
    first_unsigned(e, Layout::FlashEnergy)
}

impl Readable {
    /// Whether this reading tells a ratio as a decimal number. The text of
    /// such a reading is left to the caller, and the value keeps its plain
    /// text here.
    pub open spec fn spec_is_decimal(self) -> bool {
        match self {
            Readable::RationalValue => true,
            Readable::RationalValues => true,
            Readable::FNumber => true,
            Readable::FocalLength => true,
            Readable::Meters => true,
            Readable::Dms => true,
            Readable::GpsDestDistance => true,
            Readable::GpsSpeed => true,
            Readable::GpsBearing => true,
            Readable::GpsTimeStamp => true,
            Readable::ApexTv => true,
            Readable::ApexAv => true,
            Readable::ApexBrightness => true,
            Readable::FlashEnergy => true,
            _ => false,
        }
    }

    /// Whether this reading tells a ratio as a decimal number.
    pub fn is_decimal(self) -> (r: bool)
        ensures
            r == self.spec_is_decimal(),
    {
        match self {
            Readable::RationalValue => true,
            Readable::RationalValues => true,
            Readable::FNumber => true,
            Readable::FocalLength => true,
            Readable::Meters => true,
            Readable::Dms => true,
            Readable::GpsDestDistance => true,
            Readable::GpsSpeed => true,
            Readable::GpsBearing => true,
            Readable::GpsTimeStamp => true,
            Readable::ApexTv => true,
            Readable::ApexAv => true,
            Readable::ApexBrightness => true,
            Readable::FlashEnergy => true,
            _ => false,
        }
    }

    /// The decimal reading of a value in this way; `None` for a way that is
    /// no decimal reading.
    pub open spec fn spec_decimal(self, e: TagValueView) -> Option<
        Result<DecimalView, ReadableError>,
    > {
        match self {
            Readable::RationalValue => Some(spec_rational_value(e)),
            Readable::RationalValues => Some(spec_rational_values(e)),
            Readable::FNumber => Some(spec_first_unsigned(e, Layout::FNumber)),
            Readable::FocalLength => Some(spec_first_unsigned(e, Layout::Millimetres)),
            Readable::Meters => Some(spec_first_unsigned(e, Layout::Metres)),
            Readable::Dms => Some(spec_dms(e)),
            Readable::GpsDestDistance => Some(spec_first_unsigned(e, Layout::Thousandths)),
            Readable::GpsSpeed => Some(spec_first_unsigned(e, Layout::Tenths)),
            Readable::GpsBearing => Some(spec_first_unsigned(e, Layout::Bearing)),
            Readable::GpsTimeStamp => Some(spec_first_three(e, Layout::TimeStamp)),
            Readable::ApexTv => Some(spec_first_signed(e, Layout::ApexTv)),
            Readable::ApexAv => Some(spec_first_unsigned(e, Layout::ApexAv)),
            Readable::ApexBrightness => Some(spec_apex_brightness(e)),
            Readable::FlashEnergy => Some(spec_first_unsigned(e, Layout::FlashEnergy)),
            _ => None,
        }
    }

    /// The decimal reading of a value in this way: the layout and the
    /// ratios whose quotients it tells. `None` for a way that is no decimal
    /// reading.
    pub fn decimal(self, e: &TagValue) -> (r: Option<Result<Decimal, ReadableError>>)
        ensures
            match self.spec_decimal(e@) {
                Some(d) => r is Some && decimal_of(r->Some_0) == d,
                None => r is None,
            },
            r is Some <==> self.spec_is_decimal(),
    {
        let plain = String::new();
        match self {
            Readable::RationalValue => Some(rational_value(e, &plain)),
            Readable::RationalValues => Some(rational_values(e, &plain)),
            Readable::FNumber => Some(f_number(e, &plain)),
            Readable::FocalLength => Some(focal_length(e, &plain)),
            Readable::Meters => Some(meters(e, &plain)),
            Readable::Dms => Some(dms(e, &plain)),
            Readable::GpsDestDistance => Some(gpsdestdistance(e, &plain)),
            Readable::GpsSpeed => Some(gpsspeed(e, &plain)),
            Readable::GpsBearing => Some(gpsbearing(e, &plain)),
            Readable::GpsTimeStamp => Some(gpstimestamp(e, &plain)),
            Readable::ApexTv => Some(apex_tv(e, &plain)),
            Readable::ApexAv => Some(apex_av(e, &plain)),
            Readable::ApexBrightness => Some(apex_brightness(e, &plain)),
            Readable::FlashEnergy => Some(flash_energy(e, &plain)),
            _ => None,
        }
    }

    /// The readable text of a value whose plain text is `plain`.
    pub open spec fn spec_apply(self, e: TagValueView, plain: Seq<char>) -> Result<
        Seq<char>,
        ReadableError,
    > {
        match self {
            Readable::Orientation => spec_orientation(e),
            Readable::ResolutionUnit => spec_resolution_unit(e),
            Readable::ExposureTime => spec_exposure_time(e),
            Readable::ExposureProgram => spec_exposure_program(e),
            Readable::FocalLength35 => spec_focal_length_35(e),
            Readable::IsoSpeeds => spec_iso_speeds(e),
            Readable::GpsAltRef => spec_gps_alt_ref(e),
            Readable::GpsDestDistanceRef => spec_gpsdestdistanceref(e),
            Readable::GpsSpeedRef => spec_gpsspeedref(e),
            Readable::GpsBearingRef => spec_gpsbearingref(e),
            Readable::GpsDiff => spec_gpsdiff(e),
            Readable::GpsStatus => spec_gpsstatus(e),
            Readable::GpsMeasureMode => spec_gpsmeasuremode(e),
            Readable::UndefinedAsAscii => spec_undefined_as_ascii(e),
            Readable::UndefinedAsU8 => spec_undefined_as_u8(e),
            Readable::UndefinedAsEncodedString => spec_undefined_as_encoded_string(e),
            Readable::UndefinedAsBlob => spec_undefined_as_blob(e),
            Readable::ApexEv => spec_apex_ev(e),
            Readable::FileSource => spec_file_source(e),
            Readable::MeteringMode => spec_metering_mode(e),
            Readable::LightSource => spec_light_source(e),
            Readable::ColorSpace => spec_color_space(e),
            Readable::Flash => spec_flash(e),
            Readable::SubjectArea => spec_subject_area(e),
            Readable::SubjectLocation => spec_subject_location(e),
            _ => Ok(plain),
        }
    }

    /// Puts a value into words in this way. `plain` is the value's plain
    /// text, which the plain readings and the decimal ones return.
    pub fn apply(self, e: &TagValue, plain: &String) -> (r: Result<String, ReadableError>)
        ensures
            text_of(r) == self.spec_apply(e@, plain@),
    {
        match self {
            Readable::Orientation => orientation(e, plain),
            Readable::ResolutionUnit => resolution_unit(e, plain),
            Readable::ExposureTime => exposure_time(e, plain),
            Readable::ExposureProgram => exposure_program(e, plain),
            Readable::FocalLength35 => focal_length_35(e, plain),
            Readable::IsoSpeeds => iso_speeds(e, plain),
            Readable::GpsAltRef => gps_alt_ref(e, plain),
            Readable::GpsDestDistanceRef => gpsdestdistanceref(e, plain),
            Readable::GpsSpeedRef => gpsspeedref(e, plain),
            Readable::GpsBearingRef => gpsbearingref(e, plain),
            Readable::GpsDiff => gpsdiff(e, plain),
            Readable::GpsStatus => gpsstatus(e, plain),
            Readable::GpsMeasureMode => gpsmeasuremode(e, plain),
            Readable::UndefinedAsAscii => undefined_as_ascii(e, plain),
            Readable::UndefinedAsU8 => undefined_as_u8(e, plain),
            Readable::UndefinedAsEncodedString => undefined_as_encoded_string(e, plain),
            Readable::UndefinedAsBlob => undefined_as_blob(e, plain),
            Readable::ApexEv => apex_ev(e, plain),
            Readable::FileSource => file_source(e, plain),
            Readable::MeteringMode => metering_mode(e, plain),
            Readable::LightSource => light_source(e, plain),
            Readable::ColorSpace => color_space(e, plain),
            Readable::Flash => flash(e, plain),
            Readable::SubjectArea => subject_area(e, plain),
            Readable::SubjectLocation => subject_location(e, plain),
            Readable::Nop => Ok(nop(e, plain)),
            _ => Ok(strpass(e, plain)),
        }
    }
}

} // verus!
