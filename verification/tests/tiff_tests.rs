use rexif::exifpost::postprocess_all;
use rexif::tiff::{collect_ifds, parse_ifd, parse_ifds, parse_tiff, tiff_byte_order};
use rexif::types::{ExifEntry, ExifError, ExifTag, IfdFormat, Namespace, TagValue};

/// One 12-byte record in little-endian order.
fn record_le(tag: u16, format: u16, count: u32, slot: [u8; 4]) -> Vec<u8> {
    let mut out = Vec::new();
    out.extend_from_slice(&tag.to_le_bytes());
    out.extend_from_slice(&format.to_le_bytes());
    out.extend_from_slice(&count.to_le_bytes());
    out.extend_from_slice(&slot);
    out
}

/// One 12-byte record in big-endian order.
fn record_be(tag: u16, format: u16, count: u32, slot: [u8; 4]) -> Vec<u8> {
    let mut out = Vec::new();
    out.extend_from_slice(&tag.to_be_bytes());
    out.extend_from_slice(&format.to_be_bytes());
    out.extend_from_slice(&count.to_be_bytes());
    out.extend_from_slice(&slot);
    out
}

/// A little-endian buffer: preamble, root directory at offset 8 with its
/// trailing next-directory offset, then `tail`.
fn tiff_le(records: &[Vec<u8>], tail: &[u8]) -> Vec<u8> {
    let mut out = vec![b'I', b'I', 42, 0, 8, 0, 0, 0];
    out.extend_from_slice(&(records.len() as u16).to_le_bytes());
    for r in records {
        out.extend_from_slice(r);
    }
    out.extend_from_slice(&[0, 0, 0, 0]);
    out.extend_from_slice(tail);
    out
}

/// A sub-directory in little-endian order: count and records, no trailer.
fn subdir_le(records: &[Vec<u8>]) -> Vec<u8> {
    let mut out = Vec::new();
    out.extend_from_slice(&(records.len() as u16).to_le_bytes());
    for r in records {
        out.extend_from_slice(r);
    }
    out
}

fn tags(entries: &[ExifEntry]) -> Vec<u16> {
    entries.iter().map(|e| e.ifd.tag).collect()
}

#[test]
fn seven_byte_buffer_is_truncated() {
    let mut warnings: Vec<String> = Vec::new();
    let r = parse_tiff(&[b'I', b'I', 42, 0, 8, 0, 0], &mut warnings);
    assert!(matches!(r, Err(ExifError::TiffTruncated)));
    assert!(warnings.is_empty());
}

#[test]
fn empty_buffer_is_truncated() {
    let mut warnings: Vec<String> = Vec::new();
    assert!(matches!(parse_tiff(&[], &mut warnings), Err(ExifError::TiffTruncated)));
}

#[test]
fn bad_preamble_carries_its_bytes() {
    let mut warnings: Vec<String> = Vec::new();
    let r = parse_tiff(&[b'M', b'M', 42, 0, 0, 0, 0, 8, 0, 0], &mut warnings);
    match r {
        Err(ExifError::TiffBadPreamble(s)) => assert_eq!(s, "Preamble is 4d 4d 2a 0"),
        _ => panic!("expected a bad preamble"),
    }
}

#[test]
fn bad_preamble_message() {
    let e = tiff_byte_order(&[0xff, 0x10, 0, 1, 0, 0, 0, 0]).unwrap_err();
    assert_eq!(e.to_string(), "TIFF with bad preamble: Preamble is ff 10 0 1");
    assert_eq!(e.description(), "TIFF with bad preamble");
}

#[test]
fn byte_order_of_both_markers() {
    assert_eq!(tiff_byte_order(&[b'I', b'I', 42, 0, 8, 0, 0, 0]).unwrap(), true);
    assert_eq!(tiff_byte_order(&[b'M', b'M', 0, 42, 0, 0, 0, 8]).unwrap(), false);
}

#[test]
fn root_offset_past_end_is_fatal() {
    let mut warnings: Vec<String> = Vec::new();
    let r = parse_tiff(&[b'I', b'I', b'*', 0, 100, 0, 0, 0], &mut warnings);
    match r {
        Err(ExifError::ExifIfdTruncated(s)) => assert_eq!(s, "Truncated at dir entry count"),
        _ => panic!("expected a truncated directory"),
    }
}

#[test]
fn root_offset_at_end_is_fatal() {
    let mut warnings: Vec<String> = Vec::new();
    let r = parse_tiff(&[b'I', b'I', b'*', 0, 8, 0, 0, 0], &mut warnings);
    match r {
        Err(ExifError::ExifIfdTruncated(s)) => assert_eq!(s, "Truncated at dir entry count"),
        _ => panic!("expected a truncated directory"),
    }
}

#[test]
fn five_entries_declared_three_present_is_fatal() {
    let mut buf = vec![b'I', b'I', 42, 0, 8, 0, 0, 0, 5, 0];
    for i in 0..3u16 {
        buf.extend_from_slice(&record_le(0x010f + i, 2, 1, [b'a', 0, 0, 0]));
    }
    let mut warnings: Vec<String> = Vec::new();
    match parse_tiff(&buf, &mut warnings) {
        Err(ExifError::ExifIfdTruncated(s)) => assert_eq!(s, "Truncated at dir listing"),
        _ => panic!("expected a truncated listing"),
    }
    assert!(warnings.is_empty());
}

#[test]
fn root_without_next_offset_is_fatal() {
    let mut buf = vec![b'I', b'I', 42, 0, 8, 0, 0, 0, 1, 0];
    buf.extend_from_slice(&record_le(0x0112, 3, 1, [6, 0, 0, 0]));
    let mut warnings: Vec<String> = Vec::new();
    let r = parse_tiff(&buf, &mut warnings);
    assert!(matches!(r, Err(ExifError::IfdTruncated)));
    assert_eq!(r.unwrap_err().to_string(), "TIFF IFD truncated");
}

#[test]
fn empty_root_directory() {
    let buf = tiff_le(&[], &[]);
    let mut warnings: Vec<String> = Vec::new();
    let entries = parse_tiff(&buf, &mut warnings).unwrap();
    assert!(entries.is_empty());
    assert!(warnings.is_empty());
}

#[test]
fn orientation_little_endian() {
    let buf = tiff_le(&[record_le(0x0112, 3, 1, [6, 0, 0, 0])], &[]);
    let mut warnings: Vec<String> = Vec::new();
    let entries = parse_tiff(&buf, &mut warnings).unwrap();
    assert_eq!(entries.len(), 1);
    let e = &entries[0];
    assert_eq!(e.tag, ExifTag::Orientation);
    assert_eq!(e.namespace, Namespace::Standard);
    assert_eq!(e.unit, "none");
    assert_eq!(e.value_more_readable, "Rotated to left");
    assert!(matches!(&e.value, TagValue::U16(v) if v == &vec![6u16]));
    assert_eq!(e.ifd.data, vec![6, 0]);
    assert_eq!(e.ifd.ifd_data, vec![6, 0, 0, 0]);
    assert_eq!(e.ifd.count, 1);
    assert_eq!(e.ifd.format, IfdFormat::U16);
    assert!(e.ifd.le);
    assert!(warnings.is_empty());
}

#[test]
fn orientation_big_endian() {
    let mut buf = vec![b'M', b'M', 0, 42, 0, 0, 0, 8, 0, 1];
    buf.extend_from_slice(&record_be(0x0112, 3, 1, [0, 8, 0, 0]));
    buf.extend_from_slice(&[0, 0, 0, 0]);
    let mut warnings: Vec<String> = Vec::new();
    let entries = parse_tiff(&buf, &mut warnings).unwrap();
    assert_eq!(entries.len(), 1);
    assert_eq!(entries[0].tag, ExifTag::Orientation);
    assert_eq!(entries[0].value_more_readable, "Rotated to right");
    assert!(!entries[0].ifd.le);
}

#[test]
fn schema_mismatch_gives_one_warning() {
    let buf = tiff_le(&[record_le(0x0112, 2, 2, [b'6', 0, 0, 0])], &[]);
    let mut warnings: Vec<String> = Vec::new();
    let entries = parse_tiff(&buf, &mut warnings).unwrap();
    assert_eq!(entries.len(), 1);
    let e = &entries[0];
    assert_eq!(e.tag, ExifTag::UnknownToMe);
    assert_eq!(e.unit, "");
    assert_eq!(e.value_more_readable, "6");
    assert!(matches!(&e.value, TagValue::Ascii(s) if s == "6"));
    assert_eq!(e.ifd.tag, 0x0112);
    assert_eq!(
        warnings,
        vec!["EXIF tag 112 274 (Orientation), expected format 3 (U16), found 2 (Ascii)".to_string()]
    );
}

#[test]
fn count_mismatch_gives_one_warning() {
    let mut tail = Vec::new();
    for n in [100u16, 200, 300, 400] {
        tail.extend_from_slice(&n.to_le_bytes());
    }
    let offset = (8 + 2 + 12 + 4) as u32;
    let buf = tiff_le(&[record_le(0x8827, 3, 4, offset.to_le_bytes())], &tail);
    let mut warnings: Vec<String> = Vec::new();
    let entries = parse_tiff(&buf, &mut warnings).unwrap();
    assert_eq!(entries.len(), 1);
    assert_eq!(entries[0].tag, ExifTag::UnknownToMe);
    assert_eq!(entries[0].value_more_readable, "100, 200, 300, 400");
    assert_eq!(
        warnings,
        vec!["EXIF tag 8827 34855 (ISOSpeedRatings), format 3, expected count 1..3 found 4"
            .to_string()]
    );
}

#[test]
fn warnings_are_appended_after_earlier_ones() {
    let buf = tiff_le(&[record_le(0x0112, 2, 2, [b'6', 0, 0, 0])], &[]);
    let mut warnings: Vec<String> = vec!["earlier".to_string()];
    parse_tiff(&buf, &mut warnings).unwrap();
    assert_eq!(warnings.len(), 2);
    assert_eq!(warnings[0], "earlier");
}

#[test]
fn unknown_tag_passes_through() {
    let buf = tiff_le(&[record_le(0x1234, 4, 1, [0x78, 0x56, 0x34, 0x12])], &[]);
    let mut warnings: Vec<String> = Vec::new();
    let entries = parse_tiff(&buf, &mut warnings).unwrap();
    assert_eq!(entries.len(), 1);
    let e = &entries[0];
    assert_eq!(e.tag, ExifTag::UnknownToMe);
    assert_eq!(e.ifd.tag, 0x1234);
    assert_eq!(e.ifd.data, vec![0x78, 0x56, 0x34, 0x12]);
    assert!(matches!(&e.value, TagValue::U32(v) if v == &vec![0x12345678u32]));
    assert_eq!(e.unit, "");
    assert_eq!(e.value_more_readable, e.value.to_string());
    assert_eq!(e.value_more_readable, "305419896");
    assert!(warnings.is_empty());
}

#[test]
fn payload_outside_buffer_drops_the_entry_only() {
    let buf = tiff_le(
        &[
            record_le(0x010f, 2, 20, [0xff, 0xff, 0, 0]),
            record_le(0x0112, 3, 1, [1, 0, 0, 0]),
        ],
        &[],
    );
    let mut warnings: Vec<String> = Vec::new();
    let entries = parse_tiff(&buf, &mut warnings).unwrap();
    assert_eq!(tags(&entries), vec![0x0112]);
    assert_eq!(entries[0].value_more_readable, "Straight");
    assert!(warnings.is_empty());
}

#[test]
fn offset_payload_is_the_window() {
    let text = b"Canon EOS\0";
    let offset = (8 + 2 + 12 + 4) as u32;
    let buf = tiff_le(&[record_le(0x0110, 2, text.len() as u32, offset.to_le_bytes())], text);
    let mut warnings: Vec<String> = Vec::new();
    let entries = parse_tiff(&buf, &mut warnings).unwrap();
    assert_eq!(entries.len(), 1);
    assert_eq!(entries[0].tag, ExifTag::Model);
    assert_eq!(entries[0].ifd.data, text.to_vec());
    assert_eq!(entries[0].ifd.ext_data, text.to_vec());
    assert_eq!(entries[0].value_more_readable, "Canon EOS");
}

#[test]
fn exif_subdirectory_entries_follow_the_root() {
    // root: Make, ExifOffset, Orientation; sub-directory: ColorSpace, Flash
    let sub_offset = (8 + 2 + 3 * 12 + 4) as u32;
    let sub = subdir_le(&[
        record_le(0xa001, 3, 1, [1, 0, 0, 0]),
        record_le(0x9209, 3, 1, [0x01, 0, 0, 0]),
    ]);
    let buf = tiff_le(
        &[
            record_le(0x010f, 2, 4, [b'A', b'B', b'C', 0]),
            record_le(0x8769, 4, 1, sub_offset.to_le_bytes()),
            record_le(0x0112, 3, 1, [3, 0, 0, 0]),
        ],
        &sub,
    );
    let mut warnings: Vec<String> = Vec::new();
    let entries = parse_tiff(&buf, &mut warnings).unwrap();
    assert_eq!(tags(&entries), vec![0x010f, 0x8769, 0x0112, 0xa001, 0x9209]);
    assert_eq!(entries[0].value_more_readable, "ABC");
    assert_eq!(entries[1].tag, ExifTag::ExifOffset);
    assert_eq!(entries[1].unit, "byte offset");
    assert_eq!(entries[1].value_more_readable, sub_offset.to_string());
    assert_eq!(entries[2].value_more_readable, "Upside down");
    assert_eq!(entries[3].tag, ExifTag::ColorSpace);
    assert_eq!(entries[3].value_more_readable, "sRGB");
    assert_eq!(entries[4].tag, ExifTag::Flash);
    assert_eq!(entries[4].value_more_readable, "Fired. No redeye reduction. ");
    assert!(warnings.is_empty());
}

#[test]
fn every_pointer_is_followed_in_order() {
    // GPS pointer first, then two Exif pointers at the same sub-directory
    let gps_offset = (8 + 2 + 3 * 12 + 4) as u32;
    let gps = subdir_le(&[record_le(0x0005, 1, 1, [1, 0, 0, 0])]);
    let exif_offset = gps_offset + gps.len() as u32;
    let exif = subdir_le(&[record_le(0xa405, 3, 1, [50, 0, 0, 0])]);
    let mut tail = gps.clone();
    tail.extend_from_slice(&exif);
    let buf = tiff_le(
        &[
            record_le(0x8825, 4, 1, gps_offset.to_le_bytes()),
            record_le(0x8769, 4, 1, exif_offset.to_le_bytes()),
            record_le(0x8769, 4, 1, exif_offset.to_le_bytes()),
        ],
        &tail,
    );
    let mut warnings: Vec<String> = Vec::new();
    let entries = parse_tiff(&buf, &mut warnings).unwrap();
    assert_eq!(tags(&entries), vec![0x8825, 0x8769, 0x8769, 0x0005, 0xa405, 0xa405]);
    assert_eq!(entries[3].tag, ExifTag::GPSAltitudeRef);
    assert_eq!(entries[3].value_more_readable, "Below sea level");
    assert_eq!(entries[4].value_more_readable, "50 mm");
}

#[test]
fn subdirectory_pointer_past_end_is_fatal() {
    let buf = tiff_le(&[record_le(0x8769, 4, 1, [0xff, 0xff, 0, 0])], &[]);
    let mut warnings: Vec<String> = Vec::new();
    match parse_tiff(&buf, &mut warnings) {
        Err(ExifError::ExifIfdTruncated(s)) => assert_eq!(s, "Exif SubIFD goes past EOF"),
        _ => panic!("expected a truncated sub-directory"),
    }
}

#[test]
fn subdirectory_pointer_at_end_is_fatal() {
    let end = (8 + 2 + 12 + 4) as u32;
    let buf = tiff_le(&[record_le(0x8825, 4, 1, end.to_le_bytes())], &[]);
    let mut warnings: Vec<String> = Vec::new();
    match parse_tiff(&buf, &mut warnings) {
        Err(ExifError::ExifIfdTruncated(s)) => assert_eq!(s, "Truncated at dir entry count"),
        _ => panic!("expected a truncated sub-directory"),
    }
}

#[test]
fn truncated_subdirectory_listing_is_fatal_and_keeps_warnings() {
    let sub_offset = (8 + 2 + 2 * 12 + 4) as u32;
    let buf = tiff_le(
        &[
            record_le(0x0112, 2, 2, [b'6', 0, 0, 0]),
            record_le(0x8769, 4, 1, sub_offset.to_le_bytes()),
        ],
        &[2, 0, 1, 2, 3],
    );
    let mut warnings: Vec<String> = Vec::new();
    match parse_tiff(&buf, &mut warnings) {
        Err(ExifError::ExifIfdTruncated(s)) => assert_eq!(s, "Truncated at dir listing"),
        _ => panic!("expected a truncated listing"),
    }
    assert_eq!(warnings.len(), 1);
}

#[test]
fn gps_latitude_is_completed_from_its_reference() {
    let sub_offset = (8 + 2 + 12 + 4) as u32;
    let sub = subdir_le(&[
        record_le(0x0001, 2, 2, [b'N', 0, 0, 0]),
        record_le(0x0005, 1, 1, [1, 0, 0, 0]),
        record_le(0x000c, 2, 2, [b'K', 0, 0, 0]),
    ]);
    let buf = tiff_le(&[record_le(0x8825, 4, 1, sub_offset.to_le_bytes())], &sub);
    let mut warnings: Vec<String> = Vec::new();
    let entries = parse_tiff(&buf, &mut warnings).unwrap();
    assert_eq!(tags(&entries), vec![0x8825, 1, 5, 0xc]);
    assert_eq!(entries[1].tag, ExifTag::GPSLatitudeRef);
    assert_eq!(entries[1].value_more_readable, "N");
    assert_eq!(entries[3].tag, ExifTag::GPSSpeedRef);
    assert_eq!(entries[3].value_more_readable, "km/h");
}

#[test]
fn parse_ifds_is_collect_then_postprocess() {
    let tail = [72u32.to_le_bytes(), 1u32.to_le_bytes()].concat();
    let offset = (8 + 2 + 2 * 12 + 4) as u32;
    let buf = tiff_le(
        &[
            record_le(0x011a, 5, 1, offset.to_le_bytes()),
            record_le(0x0128, 3, 1, [2, 0, 0, 0]),
        ],
        &tail,
    );
    let mut w1: Vec<String> = Vec::new();
    let mut collected = collect_ifds(true, 8, &buf, &mut w1).unwrap();
    assert_eq!(collected[0].tag, ExifTag::XResolution);
    assert_eq!(collected[0].value_more_readable, "72/1");
    assert_eq!(collected[0].unit, "pixels per res unit");
    postprocess_all(&mut collected);
    let mut w2: Vec<String> = Vec::new();
    let parsed = parse_ifds(true, 8, &buf, &mut w2).unwrap();
    assert_eq!(parsed.len(), 2);
    assert_eq!(parsed[0].value_more_readable, "72/1 pixels per in");
    assert_eq!(parsed[0].value_more_readable, collected[0].value_more_readable);
    assert_eq!(parsed[0].unit, "pixels per res unit");
    assert_eq!(parsed[1].value_more_readable, "in");
}

#[test]
fn parse_ifd_reads_records_in_order() {
    let mut listing = Vec::new();
    listing.extend_from_slice(&record_le(0x0112, 3, 1, [6, 0, 0, 0]));
    listing.extend_from_slice(&record_le(0x9999, 77, 5, [1, 2, 3, 4]));
    listing.extend_from_slice(&[0x44, 0x33, 0x22, 0x11]);
    let (entries, next) = parse_ifd(false, true, 2, &listing).unwrap();
    assert_eq!(next, 0x11223344);
    assert_eq!(entries.len(), 2);
    assert_eq!(entries[0].tag, 0x0112);
    assert_eq!(entries[0].format, IfdFormat::U16);
    assert_eq!(entries[0].count, 1);
    assert_eq!(entries[0].ifd_data, vec![6, 0, 0, 0]);
    assert!(entries[0].data.is_empty());
    assert!(entries[0].ext_data.is_empty());
    assert_eq!(entries[0].namespace, Namespace::Standard);
    assert_eq!(entries[1].tag, 0x9999);
    assert_eq!(entries[1].format, IfdFormat::Unknown);
    assert_eq!(entries[1].count, 5);
    assert_eq!(entries[1].ifd_data, vec![1, 2, 3, 4]);
}

#[test]
fn parse_ifd_subdirectory_has_no_next_offset() {
    let listing = record_be(0x0112, 3, 1, [0, 6, 0, 0]);
    let (entries, next) = parse_ifd(true, false, 1, &listing).unwrap();
    assert_eq!(next, 0);
    assert_eq!(entries.len(), 1);
    assert_eq!(entries[0].tag, 0x0112);
    assert!(!entries[0].le);
}

#[test]
fn parse_ifd_short_listing_is_unavailable() {
    let listing = record_le(0x0112, 3, 1, [6, 0, 0, 0]);
    assert!(parse_ifd(true, true, 2, &listing).is_none());
    assert!(parse_ifd(false, true, 1, &listing).is_none());
    assert!(parse_ifd(true, true, 1, &listing[..11]).is_none());
    assert!(parse_ifd(true, true, 0, &[]).is_some());
    assert!(parse_ifd(false, true, 0, &[]).is_none());
}
