use rexif::exif::{tag_to_exif, Readable};
use rexif::exifpost::{exif_postprocessing, postprocess_all, postprocessed_text};
use rexif::exifreadable::{
    apex_av, apex_brightness, apex_ev, apex_tv, color_space, dms, exposure_program,
    exposure_time, f_number, file_source, flash, flash_energy, focal_length, focal_length_35,
    gps_alt_ref, gpsbearing, gpsbearingref, gpsdestdistance, gpsdestdistanceref, gpsdiff,
    gpsmeasuremode, gpsspeed, gpsspeedref, gpsstatus, gpstimestamp, iso_speeds, light_source,
    meters, metering_mode, nop, orientation, rational_value, rational_values, resolution_unit,
    strpass, subject_area, subject_location, undefined_as_ascii, undefined_as_blob,
    undefined_as_encoded_string, undefined_as_u8,
};
use rexif::rational::{IRational, URational};
use rexif::tiff::parse_exif_entry;
use rexif::types::{
    ExifEntry, ExifError, ExifTag, IfdEntry, IfdFormat, Layout, Namespace, Ratio, ReadableError,
    TagValue,
};

fn none() -> String {
    String::new()
}

fn u16s(v: &[u16]) -> TagValue {
    TagValue::U16(v.to_vec())
}

fn ascii(s: &str) -> TagValue {
    TagValue::Ascii(s.to_string())
}

fn undefined(v: &[u8]) -> TagValue {
    TagValue::Undefined(v.to_vec(), true)
}

fn raw(tag: u16, format: IfdFormat, count: u32, data: &[u8]) -> IfdEntry {
    IfdEntry {
        namespace: Namespace::Standard,
        tag,
        format,
        count,
        data: data.to_vec(),
        ifd_data: vec![0, 0, 0, 0],
        ext_data: Vec::new(),
        le: true,
    }
}

fn decoded(tag: ExifTag, value: TagValue, text: &str) -> ExifEntry {
    ExifEntry {
        namespace: Namespace::Standard,
        ifd: raw(tag.code() as u16, IfdFormat::Unknown, 0, &[]),
        tag,
        value,
        unit: "unit".to_string(),
        value_more_readable: text.to_string(),
    }
}

#[test]
fn plain_readings_return_the_plain_text() {
    let plain = "plain".to_string();
    assert_eq!(nop(&u16s(&[1]), &plain), "plain");
    assert_eq!(strpass(&ascii("other"), &plain), "plain");
}

#[test]
fn orientation_words() {
    assert_eq!(orientation(&u16s(&[1]), &none()).unwrap(), "Straight");
    assert_eq!(orientation(&u16s(&[3]), &none()).unwrap(), "Upside down");
    assert_eq!(orientation(&u16s(&[6]), &none()).unwrap(), "Rotated to left");
    assert_eq!(orientation(&u16s(&[8]), &none()).unwrap(), "Rotated to right");
    assert_eq!(orientation(&u16s(&[9]), &none()).unwrap(), "Undefined");
    assert_eq!(orientation(&u16s(&[2]), &none()).unwrap(), "Unknown (2)");
    assert_eq!(orientation(&u16s(&[65535, 1]), &none()).unwrap(), "Unknown (65535)");
}

#[test]
fn wrong_representation_is_a_format_mismatch() {
    assert_eq!(orientation(&ascii("6"), &none()), Err(ReadableError::FormatMismatch));
    assert_eq!(orientation(&u16s(&[]), &none()), Err(ReadableError::FormatMismatch));
    assert_eq!(
        orientation(&TagValue::Invalid(vec![6], true, 3, 1), &none()),
        Err(ReadableError::FormatMismatch)
    );
    assert_eq!(
        resolution_unit(&TagValue::U8(vec![2]), &none()),
        Err(ReadableError::FormatMismatch)
    );
    assert_eq!(exposure_time(&u16s(&[1]), &none()), Err(ReadableError::FormatMismatch));
    assert_eq!(
        exposure_time(&TagValue::URational(vec![]), &none()),
        Err(ReadableError::FormatMismatch)
    );
    assert_eq!(gps_alt_ref(&u16s(&[0]), &none()), Err(ReadableError::FormatMismatch));
    assert_eq!(gpsstatus(&u16s(&[0]), &none()), Err(ReadableError::FormatMismatch));
    assert_eq!(undefined_as_blob(&ascii("x"), &none()), Err(ReadableError::FormatMismatch));
    assert_eq!(undefined_as_ascii(&ascii("x"), &none()), Err(ReadableError::FormatMismatch));
    assert_eq!(undefined_as_u8(&ascii("x"), &none()), Err(ReadableError::FormatMismatch));
    assert_eq!(
        undefined_as_encoded_string(&ascii("x"), &none()),
        Err(ReadableError::FormatMismatch)
    );
    assert_eq!(apex_ev(&TagValue::IRational(vec![]), &none()), Err(ReadableError::FormatMismatch));
    assert_eq!(file_source(&u16s(&[3]), &none()), Err(ReadableError::FormatMismatch));
    assert_eq!(flash(&u16s(&[]), &none()), Err(ReadableError::FormatMismatch));
    assert_eq!(subject_area(&ascii(""), &none()), Err(ReadableError::FormatMismatch));
    assert_eq!(subject_location(&u16s(&[1]), &none()), Err(ReadableError::FormatMismatch));
    assert_eq!(iso_speeds(&ascii(""), &none()), Err(ReadableError::FormatMismatch));
    assert_eq!(focal_length_35(&u16s(&[]), &none()), Err(ReadableError::FormatMismatch));
}

#[test]
fn resolution_unit_words() {
    assert_eq!(resolution_unit(&u16s(&[1]), &none()).unwrap(), "Unitless");
    assert_eq!(resolution_unit(&u16s(&[2]), &none()).unwrap(), "in");
    assert_eq!(resolution_unit(&u16s(&[3]), &none()).unwrap(), "cm");
    assert_eq!(resolution_unit(&u16s(&[0]), &none()).unwrap(), "Unknown (0)");
}

#[test]
fn exposure_time_is_the_fraction() {
    let v = TagValue::URational(vec![URational { numerator: 1, denominator: 200 }]);
    assert_eq!(exposure_time(&v, &none()).unwrap(), "1/200 s");
}

#[test]
fn exposure_program_words() {
    assert_eq!(exposure_program(&u16s(&[1]), &none()).unwrap(), "Manual control");
    assert_eq!(exposure_program(&u16s(&[2]), &none()).unwrap(), "Program control");
    assert_eq!(exposure_program(&u16s(&[3]), &none()).unwrap(), "Aperture priority");
    assert_eq!(exposure_program(&u16s(&[4]), &none()).unwrap(), "Shutter priority");
    assert_eq!(
        exposure_program(&u16s(&[5]), &none()).unwrap(),
        "Program creative (slow program)"
    );
    assert_eq!(
        exposure_program(&u16s(&[6]), &none()).unwrap(),
        "Program creative (high-speed program)"
    );
    assert_eq!(exposure_program(&u16s(&[7]), &none()).unwrap(), "Portrait mode");
    assert_eq!(exposure_program(&u16s(&[8]), &none()).unwrap(), "Landscape mode");
    assert_eq!(exposure_program(&u16s(&[0]), &none()).unwrap(), "Unknown (0)");
}

#[test]
fn focal_length_35_in_millimetres() {
    assert_eq!(focal_length_35(&u16s(&[35]), &none()).unwrap(), "35 mm");
}

#[test]
fn iso_speeds_by_count() {
    assert_eq!(iso_speeds(&u16s(&[100]), &none()).unwrap(), "ISO 100");
    assert_eq!(iso_speeds(&u16s(&[100, 3]), &none()).unwrap(), "ISO 100 latitude 3");
    assert_eq!(iso_speeds(&u16s(&[1, 2, 3]), &none()).unwrap(), "Unknown (1, 2, 3)");
    assert_eq!(iso_speeds(&u16s(&[]), &none()).unwrap(), "Unknown ()");
}

#[test]
fn gps_words() {
    assert_eq!(gps_alt_ref(&TagValue::U8(vec![0]), &none()).unwrap(), "Above sea level");
    assert_eq!(gps_alt_ref(&TagValue::U8(vec![1]), &none()).unwrap(), "Below sea level");
    assert_eq!(
        gps_alt_ref(&TagValue::U8(vec![7]), &none()).unwrap(),
        "Unknown, assumed below sea level (7)"
    );
    assert_eq!(gpsdestdistanceref(&ascii("N"), &none()).unwrap(), "kn");
    assert_eq!(gpsdestdistanceref(&ascii("K"), &none()).unwrap(), "km");
    assert_eq!(gpsdestdistanceref(&ascii("M"), &none()).unwrap(), "mi");
    assert_eq!(gpsdestdistanceref(&ascii("x"), &none()).unwrap(), "Unknown (x)");
    assert_eq!(gpsspeedref(&ascii("N"), &none()).unwrap(), "kn");
    assert_eq!(gpsspeedref(&ascii("K"), &none()).unwrap(), "km/h");
    assert_eq!(gpsspeedref(&ascii("M"), &none()).unwrap(), "mi/h");
    assert_eq!(gpsspeedref(&ascii(""), &none()).unwrap(), "Unknown ()");
    assert_eq!(gpsbearingref(&ascii("T"), &none()).unwrap(), "True bearing");
    assert_eq!(gpsbearingref(&ascii("M"), &none()).unwrap(), "Magnetic bearing");
    assert_eq!(gpsbearingref(&ascii("TT"), &none()).unwrap(), "Unknown (TT)");
    assert_eq!(
        gpsdiff(&u16s(&[0]), &none()).unwrap(),
        "Measurement without differential correction"
    );
    assert_eq!(gpsdiff(&u16s(&[1]), &none()).unwrap(), "Differential correction applied");
    assert_eq!(gpsdiff(&u16s(&[2]), &none()).unwrap(), "Unknown (2)");
    assert_eq!(gpsstatus(&ascii("A"), &none()).unwrap(), "Measurement in progress");
    assert_eq!(gpsstatus(&ascii("V"), &none()).unwrap(), "Measurement is interoperability");
    assert_eq!(gpsstatus(&ascii("a"), &none()).unwrap(), "Unknown (a)");
    assert_eq!(gpsmeasuremode(&ascii("2"), &none()).unwrap(), "2-dimension");
    assert_eq!(gpsmeasuremode(&ascii("3"), &none()).unwrap(), "3-dimension");
    assert_eq!(gpsmeasuremode(&ascii("4"), &none()).unwrap(), "Unknown (4)");
}

#[test]
fn undefined_readings() {
    assert_eq!(undefined_as_ascii(&undefined(b"0230"), &none()).unwrap(), "0230");
    assert_eq!(undefined_as_ascii(&undefined(&[b'a', 0xff]), &none()).unwrap(), "a\u{fffd}");
    assert_eq!(undefined_as_u8(&undefined(&[0, 1, 2]), &none()).unwrap(), "0, 1, 2");
    assert_eq!(undefined_as_blob(&undefined(&[0; 300]), &none()).unwrap(), "Blob of 300 bytes");
    assert_eq!(undefined_as_blob(&undefined(&[]), &none()).unwrap(), "Blob of 0 bytes");
}

#[test]
fn encoded_strings() {
    assert_eq!(
        undefined_as_encoded_string(&undefined(&[1, 2, 3]), &none()).unwrap(),
        "String w/ truncated preamble 1, 2, 3"
    );
    let mut v = b"ASCII\0\0\0".to_vec();
    v.extend_from_slice(b"hello");
    assert_eq!(undefined_as_encoded_string(&undefined(&v), &none()).unwrap(), "hello");
    assert_eq!(undefined_as_encoded_string(&undefined(b"ASCII\0\0\0"), &none()).unwrap(), "");
    let mut v = b"JIS\0\0\0\0\0".to_vec();
    v.extend_from_slice(&[1, 2]);
    assert_eq!(undefined_as_encoded_string(&undefined(&v), &none()).unwrap(), "JIS string 1, 2");
    let mut v = b"UNICODE\0".to_vec();
    v.extend_from_slice(&[b'h', 0, b'i', 0, 0x21]);
    assert_eq!(undefined_as_encoded_string(&undefined(&v), &none()).unwrap(), "hi");
    let be = TagValue::Undefined(
        [&b"UNICODE\0"[..], &[0, b'h', 0, b'i', 0xd8, 0x00]].concat(),
        false,
    );
    assert_eq!(undefined_as_encoded_string(&be, &none()).unwrap(), "hi\u{fffd}");
    assert_eq!(
        undefined_as_encoded_string(&undefined(&[9, 9, 9, 9, 9, 9, 9, 9]), &none()).unwrap(),
        "String w/ undefined encoding 9, 9, 9, 9, 9, 9, 9, 9"
    );
}

#[test]
fn apex_ev_is_the_fraction_or_zero() {
    let v = TagValue::IRational(vec![IRational { numerator: 0, denominator: 3 }]);
    assert_eq!(apex_ev(&v, &none()).unwrap(), "0 EV APEX");
    let v = TagValue::IRational(vec![IRational { numerator: -2, denominator: 3 }]);
    assert_eq!(apex_ev(&v, &none()).unwrap(), "-2/3 EV APEX");
}

#[test]
fn file_source_words() {
    assert_eq!(file_source(&undefined(&[3]), &none()).unwrap(), "DSC");
    assert_eq!(file_source(&undefined(&[2]), &none()).unwrap(), "Unknown");
    assert_eq!(file_source(&undefined(&[]), &none()).unwrap(), "Unknown");
}

#[test]
fn metering_mode_words() {
    let words = [
        (0, "Unknown"),
        (1, "Average"),
        (2, "Center-weighted average"),
        (3, "Spot"),
        (4, "Multi-spot"),
        (5, "Pattern"),
        (6, "Partial"),
        (255, "Other"),
        (7, "Unknown (7)"),
    ];
    for (n, word) in words {
        assert_eq!(metering_mode(&u16s(&[n]), &none()).unwrap(), word);
    }
}

#[test]
fn light_source_words() {
    let words = [
        (0, "Unknown"),
        (1, "Daylight"),
        (2, "Fluorescent"),
        (3, "Tungsten"),
        (4, "Flash"),
        (9, "Fine weather"),
        (10, "Cloudy weather"),
        (11, "Shade"),
        (12, "Daylight fluorescent (D)"),
        (13, "Day white fluorescent (N)"),
        (14, "Cool white fluorescent (W)"),
        (15, "White fluorescent (WW)"),
        (17, "Standard light A"),
        (18, "Standard light B"),
        (19, "Standard light C"),
        (20, "D55"),
        (21, "D65"),
        (22, "D75"),
        (23, "D50"),
        (24, "ISO studio tungsten"),
        (255, "Other"),
        (5, "Unknown (5)"),
        (16, "Unknown (16)"),
    ];
    for (n, word) in words {
        assert_eq!(light_source(&u16s(&[n]), &none()).unwrap(), word);
    }
}

#[test]
fn color_space_words() {
    assert_eq!(color_space(&u16s(&[1]), &none()).unwrap(), "sRGB");
    assert_eq!(color_space(&u16s(&[65535]), &none()).unwrap(), "Uncalibrated");
    assert_eq!(color_space(&u16s(&[2]), &none()).unwrap(), "Unknown (2)");
}

#[test]
fn flash_bits() {
    let text = |n: u16| flash(&u16s(&[n]), &none()).unwrap();
    assert_eq!(text(0x00), "Did not fire. ");
    assert_eq!(text(0x01), "Fired. No redeye reduction. ");
    assert_eq!(text(0x05), "Fired. Strobe ret not detected. No redeye reduction. ");
    assert_eq!(text(0x07), "Fired. Strobe ret detected. No redeye reduction. ");
    assert_eq!(text(0x09), "Fired. Forced fire. No redeye reduction. ");
    assert_eq!(text(0x10), "Did not fire. Forced suppresion. ");
    assert_eq!(text(0x18), "Did not fire. Auto mode. ");
    assert_eq!(text(0x19), "Fired. Auto mode. No redeye reduction. ");
    assert_eq!(text(0x1f), "Fired. Auto mode. No redeye reduction. ");
    assert_eq!(text(0x20), "Does not have a flash.");
    assert_eq!(text(0x21), "Does not have a flash.");
    assert_eq!(text(0x41), "Fired. Redeye reduction. ");
    assert_eq!(text(0x40), "Did not fire. ");
    assert_eq!(text(0x4f), "Fired. Strobe ret detected. Forced fire. Redeye reduction. ");
    assert_eq!(text(0x06), "Did not fire. ");
    assert_eq!(text(0xff80), "Did not fire. ");
}

#[test]
fn subject_area_by_count() {
    assert_eq!(subject_area(&u16s(&[1, 2]), &none()).unwrap(), "at pixel 1,2");
    assert_eq!(subject_area(&u16s(&[1, 2, 3]), &none()).unwrap(), "at center 1,2 radius 3");
    assert_eq!(
        subject_area(&u16s(&[1, 2, 3, 4]), &none()).unwrap(),
        "at rectangle 1,2 width 3 height 4"
    );
    assert_eq!(subject_area(&u16s(&[1]), &none()).unwrap(), "Unknown (1) ");
    assert_eq!(subject_location(&u16s(&[10, 20]), &none()).unwrap(), "at pixel 10,20");
}

#[test]
fn decimal_readings_keep_the_plain_text() {
    let v = TagValue::URational(vec![URational { numerator: 28, denominator: 10 }]);
    let plain = v.to_string();
    assert!(Readable::FNumber.is_decimal());
    assert!(Readable::Dms.is_decimal());
    assert!(!Readable::Orientation.is_decimal());
    assert!(!Readable::Strpass.is_decimal());
    assert_eq!(Readable::FNumber.apply(&v, &plain).unwrap(), "28/10");
    assert_eq!(Readable::Nop.apply(&v, &plain).unwrap(), "28/10");
    assert_eq!(Readable::ExposureTime.apply(&v, &plain).unwrap(), "28/10 s");
    assert_eq!(Readable::Orientation.apply(&v, &plain), Err(ReadableError::FormatMismatch));
    assert_eq!(Readable::Flash.apply(&u16s(&[0x20]), &plain).unwrap(), "Does not have a flash.");
}

#[test]
fn descriptors_of_the_table() {
    let d = tag_to_exif(0x0112);
    assert_eq!(d.tag, ExifTag::Orientation);
    assert_eq!(d.unit, "none");
    assert_eq!(d.format, IfdFormat::U16);
    assert_eq!((d.min_count, d.max_count), (1, 1));
    assert_eq!(d.readable, Readable::Orientation);
    let d = tag_to_exif(0x010f);
    assert_eq!(d.tag, ExifTag::Make);
    assert_eq!(d.format, IfdFormat::Ascii);
    assert_eq!((d.min_count, d.max_count), (-1, -1));
    let d = tag_to_exif(0x9214);
    assert_eq!(d.tag, ExifTag::SubjectArea);
    assert_eq!((d.min_count, d.max_count), (2, 4));
    assert_eq!(d.unit, "px");
    let d = tag_to_exif(0x0002);
    assert_eq!(d.tag, ExifTag::GPSLatitude);
    assert_eq!(d.unit, "D/M/S");
    let d = tag_to_exif(0x4242);
    assert_eq!(d.tag, ExifTag::UnknownToMe);
    assert_eq!(d.format, IfdFormat::Unknown);
    assert_eq!(d.readable, Readable::Nop);
    assert_eq!(tag_to_exif(0xffff).tag, ExifTag::UnknownToMe);
}

#[test]
fn every_recognised_code_leads_to_its_tag() {
    let mut recognised = 0;
    for code in 0..=0xffffu16 {
        let d = tag_to_exif(code);
        if d.tag != ExifTag::UnknownToMe {
            recognised += 1;
            assert_eq!(d.tag.code() & 0xffff, code as u32);
            if d.format == IfdFormat::Ascii {
                assert_eq!(d.min_count, -1);
            }
            if d.min_count != -1 {
                assert!(0 <= d.min_count && d.min_count <= d.max_count);
            }
        }
    }
    assert_eq!(recognised, 101);
}

#[test]
fn tag_names() {
    assert_eq!(ExifTag::Make.to_string(), "Manufacturer");
    assert_eq!(ExifTag::MeteringMode.to_string(), "Meteting mode");
    assert_eq!(ExifTag::GPSDOP.to_string(), "GPS Data Degree of Precision (DOP)");
    assert_eq!(
        ExifTag::UnknownToMe.to_string(),
        "Unknown to this library, or manufacturer-specific"
    );
    assert_eq!(ExifTag::ExifOffset.label(), "This image has an Exif SubIFD");
    assert_eq!(ExifTag::ISOSpeedRatings.variant_name(), "ISOSpeedRatings");
    assert_eq!(ExifTag::UnknownToMe.code(), 0xffff);
    assert_eq!(ExifTag::Gamma.code(), 0xa500);
    assert_eq!(ExifTag::GPSVersionID.code(), 0);
    assert_eq!(ExifTag::GPSDifferential.code(), 0x1e);
    assert_eq!(Namespace::Standard.code(), 0);
    assert_eq!(Namespace::Nikon.code(), 1);
    assert_eq!(Namespace::Canon.code(), 2);
}

#[test]
fn error_messages() {
    assert_eq!(ExifError::FileTypeUnknown.to_string(), "File type unknown");
    assert_eq!(
        ExifError::JpegWithoutExif("no marker".to_string()).to_string(),
        "JPEG without EXIF section: no marker"
    );
    assert_eq!(ExifError::TiffTruncated.to_string(), "TIFF truncated at start");
    assert_eq!(
        ExifError::TiffBadPreamble("xy".to_string()).to_string(),
        "TIFF with bad preamble: xy"
    );
    assert_eq!(ExifError::IfdTruncated.to_string(), "TIFF IFD truncated");
    assert_eq!(
        ExifError::ExifIfdTruncated("here".to_string()).to_string(),
        "TIFF Exif IFD truncated: here"
    );
    assert_eq!(ExifError::ExifIfdEntryNotFound.to_string(), "TIFF Exif IFD not found");
    assert_eq!(
        ExifError::JpegWithoutExif("x".to_string()).description(),
        "JPEG without EXIF section"
    );
    assert_eq!(
        ExifError::ExifIfdTruncated("x".to_string()).description(),
        "TIFF Exif IFD truncated"
    );
    assert_eq!(ExifError::ExifIfdEntryNotFound.description(), "TIFF Exif IFD not found");
}

#[test]
fn entry_of_a_recognised_tag() {
    let mut warnings: Vec<String> = Vec::new();
    let f = raw(0x8827, IfdFormat::U16, 2, &[100, 0, 2, 0]);
    let e = parse_exif_entry(&f, &mut warnings);
    assert_eq!(e.tag, ExifTag::ISOSpeedRatings);
    assert_eq!(e.unit, "ISO");
    assert_eq!(e.value_more_readable, "ISO 100 latitude 2");
    assert_eq!(e.ifd.data, f.data);
    assert_eq!(e.ifd.tag, 0x8827);
    assert!(warnings.is_empty());
}

#[test]
fn entry_of_a_decimal_reading_keeps_the_fraction() {
    let mut warnings: Vec<String> = Vec::new();
    let f = raw(0x829d, IfdFormat::URational, 1, &[28, 0, 0, 0, 10, 0, 0, 0]);
    let e = parse_exif_entry(&f, &mut warnings);
    assert_eq!(e.tag, ExifTag::FNumber);
    assert_eq!(e.unit, "f-number");
    assert_eq!(e.value_more_readable, "28/10");
    assert!(warnings.is_empty());
}

#[test]
fn entry_with_invalid_value_keeps_its_tag_and_plain_text() {
    let mut warnings: Vec<String> = Vec::new();
    let f = raw(0x0112, IfdFormat::U16, 1, &[6]);
    let e = parse_exif_entry(&f, &mut warnings);
    assert_eq!(e.tag, ExifTag::Orientation);
    assert!(matches!(e.value, TagValue::Invalid(..)));
    assert_eq!(e.value_more_readable, "Invalid");
    assert!(warnings.is_empty());
}

#[test]
fn entry_of_an_unknown_tag() {
    let mut warnings: Vec<String> = Vec::new();
    let f = raw(0xc4a5, IfdFormat::Undefined, 3, &[1, 2, 3]);
    let e = parse_exif_entry(&f, &mut warnings);
    assert_eq!(e.tag, ExifTag::UnknownToMe);
    assert_eq!(e.unit, "");
    assert_eq!(e.value_more_readable, "1, 2, 3");
    assert_eq!(e.value_more_readable, e.value.to_string());
    assert_eq!(e.ifd.data, vec![1, 2, 3]);
    assert!(warnings.is_empty());
}

#[test]
fn entry_outside_the_count_range() {
    let mut warnings: Vec<String> = Vec::new();
    let f = raw(0x9214, IfdFormat::U16, 1, &[5, 0]);
    let e = parse_exif_entry(&f, &mut warnings);
    assert_eq!(e.tag, ExifTag::UnknownToMe);
    assert_eq!(e.value_more_readable, "5");
    assert_eq!(
        warnings,
        vec!["EXIF tag 9214 37396 (SubjectArea), format 3, expected count 2..4 found 1".to_string()]
    );
    let f = raw(0x0112, IfdFormat::U16, u32::MAX, &[]);
    parse_exif_entry(&f, &mut warnings);
    assert_eq!(
        warnings[1],
        "EXIF tag 112 274 (Orientation), format 3, expected count 1..1 found 4294967295"
    );
}

#[test]
fn postprocessing_joins_a_magnitude_with_its_reference() {
    let entries = vec![
        decoded(ExifTag::GPSLatitude, TagValue::URational(vec![]), "10/1, 20/1, 30/1"),
        decoded(ExifTag::GPSLatitudeRef, ascii("S"), "S"),
        decoded(ExifTag::GPSLatitudeRef, ascii("N"), "N"),
        decoded(ExifTag::GPSSpeed, TagValue::URational(vec![]), "5/1"),
        decoded(ExifTag::Make, ascii("x"), "x"),
    ];
    assert_eq!(postprocessed_text(&entries[0], &entries), "10/1, 20/1, 30/1 S");
    assert_eq!(postprocessed_text(&entries[1], &entries), "S");
    assert_eq!(postprocessed_text(&entries[3], &entries), "5/1");
    assert_eq!(postprocessed_text(&entries[4], &entries), "x");
    let mut first = entries[0].clone();
    exif_postprocessing(&mut first, &entries);
    assert_eq!(first.value_more_readable, "10/1, 20/1, 30/1 S");
    assert_eq!(first.unit, "unit");
    assert_eq!(first.tag, ExifTag::GPSLatitude);
}

#[test]
fn postprocessing_of_altitude_and_resolution() {
    let mut entries = vec![
        decoded(ExifTag::GPSAltitude, TagValue::URational(vec![]), "100/1"),
        decoded(ExifTag::GPSAltitudeRef, TagValue::U8(vec![1]), "Below sea level"),
        decoded(ExifTag::FocalPlaneXResolution, TagValue::URational(vec![]), "300/1"),
        decoded(ExifTag::FocalPlaneResolutionUnit, u16s(&[3]), "cm"),
        decoded(ExifTag::YResolution, TagValue::URational(vec![]), "72/1"),
    ];
    postprocess_all(&mut entries);
    assert_eq!(entries.len(), 5);
    assert_eq!(entries[0].value_more_readable, "100/1 below sea level");
    assert_eq!(entries[1].value_more_readable, "Below sea level");
    assert_eq!(entries[2].value_more_readable, "300/1 pixels per cm");
    assert_eq!(entries[3].value_more_readable, "cm");
    assert_eq!(entries[4].value_more_readable, "72/1");
    assert_eq!(entries[2].tag, ExifTag::FocalPlaneXResolution);
    assert!(matches!(entries[1].value, TagValue::U8(_)));
    let mut above = vec![
        decoded(ExifTag::GPSAltitude, TagValue::URational(vec![]), "100/1"),
        decoded(ExifTag::GPSAltitudeRef, TagValue::U8(vec![0]), "Above sea level"),
    ];
    postprocess_all(&mut above);
    assert_eq!(above[0].value_more_readable, "100/1");
    let mut odd = vec![
        decoded(ExifTag::GPSAltitude, TagValue::URational(vec![]), "100/1"),
        decoded(ExifTag::GPSAltitudeRef, ascii("1"), "1"),
    ];
    postprocess_all(&mut odd);
    assert_eq!(odd[0].value_more_readable, "100/1");
}

#[test]
fn decimal_readings_give_layout_and_ratios() {
    let u = |n: u32, d: u32| URational { numerator: n, denominator: d };
    let i = |n: i32, d: i32| IRational { numerator: n, denominator: d };
    let r = |n: i64, d: i64| Ratio { numerator: n, denominator: d };
    let one = TagValue::URational(vec![u(28, 10), u(1, 2)]);
    let signed = TagValue::IRational(vec![i(-5, 2)]);

    let d = f_number(&one, &none()).unwrap();
    assert_eq!((d.layout, d.ratios), (Layout::FNumber, vec![r(28, 10)]));
    let d = rational_value(&one, &none()).unwrap();
    assert_eq!((d.layout, d.ratios), (Layout::Plain, vec![r(28, 10)]));
    let d = rational_value(&signed, &none()).unwrap();
    assert_eq!((d.layout, d.ratios), (Layout::Plain, vec![r(-5, 2)]));
    let d = rational_values(&one, &none()).unwrap();
    assert_eq!((d.layout, d.ratios), (Layout::List, vec![r(28, 10), r(1, 2)]));
    let d = rational_values(&TagValue::URational(vec![]), &none()).unwrap();
    assert_eq!((d.layout, d.ratios), (Layout::List, vec![]));
    assert_eq!(focal_length(&one, &none()).unwrap().layout, Layout::Millimetres);
    assert_eq!(meters(&one, &none()).unwrap().layout, Layout::Metres);
    assert_eq!(gpsdestdistance(&one, &none()).unwrap().layout, Layout::Thousandths);
    assert_eq!(gpsspeed(&one, &none()).unwrap().layout, Layout::Tenths);
    assert_eq!(gpsbearing(&one, &none()).unwrap().layout, Layout::Bearing);
    assert_eq!(apex_av(&one, &none()).unwrap().layout, Layout::ApexAv);
    assert_eq!(flash_energy(&one, &none()).unwrap().layout, Layout::FlashEnergy);
    let d = apex_tv(&signed, &none()).unwrap();
    assert_eq!((d.layout, d.ratios), (Layout::ApexTv, vec![r(-5, 2)]));
    let d = apex_brightness(&signed, &none()).unwrap();
    assert_eq!((d.layout, d.ratios), (Layout::ApexBrightness, vec![r(-5, 2)]));
    let d = apex_brightness(&TagValue::IRational(vec![i(-1, 1)]), &none()).unwrap();
    assert_eq!((d.layout, d.ratios), (Layout::BrightnessUnknown, vec![]));
    let max = TagValue::URational(vec![u(u32::MAX, u32::MAX)]);
    assert_eq!(f_number(&max, &none()).unwrap().ratios, vec![r(4294967295, 4294967295)]);

    let whole = TagValue::URational(vec![u(10, 1), u(20, 1), u(3050, 100), u(9, 9)]);
    let d = dms(&whole, &none()).unwrap();
    assert_eq!((d.layout, d.ratios), (Layout::DegMinSec, vec![r(10, 1), r(20, 1), r(3050, 100)]));
    let minutes = TagValue::URational(vec![u(10, 1), u(2050, 100), u(0, 1)]);
    assert_eq!(dms(&minutes, &none()).unwrap().layout, Layout::DegMin);
    let degrees = TagValue::URational(vec![u(1050, 100), u(0, 1), u(0, 1)]);
    assert_eq!(dms(&degrees, &none()).unwrap().layout, Layout::Deg);
    let d = gpstimestamp(&whole, &none()).unwrap();
    assert_eq!((d.layout, d.ratios.len()), (Layout::TimeStamp, 3));

    let mismatch = Err(ReadableError::FormatMismatch);
    assert_eq!(f_number(&signed, &none()).map(|d| d.layout), mismatch);
    assert_eq!(f_number(&TagValue::URational(vec![]), &none()).map(|d| d.layout), mismatch);
    assert_eq!(rational_value(&u16s(&[1]), &none()).map(|d| d.layout), mismatch);
    assert_eq!(rational_values(&signed, &none()).map(|d| d.layout), mismatch);
    assert_eq!(dms(&one, &none()).map(|d| d.layout), mismatch);
    assert_eq!(gpstimestamp(&one, &none()).map(|d| d.layout), mismatch);
    assert_eq!(apex_tv(&one, &none()).map(|d| d.layout), mismatch);
    assert_eq!(apex_brightness(&one, &none()).map(|d| d.layout), mismatch);
    assert_eq!(apex_brightness(&TagValue::IRational(vec![]), &none()).map(|d| d.layout), mismatch);

    assert_eq!(Readable::FNumber.decimal(&one).unwrap().unwrap().layout, Layout::FNumber);
    assert_eq!(Readable::Dms.decimal(&one).unwrap().map(|d| d.layout), mismatch);
    assert!(Readable::Orientation.decimal(&one).is_none());
    assert!(Readable::Strpass.decimal(&one).is_none());
}
