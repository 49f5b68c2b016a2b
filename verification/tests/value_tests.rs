use rexif::ifdformat::{numarray_to_string, tag_value_new};
use rexif::lowlevel::{
    read_i16, read_i32, read_i8_array, read_irational, read_u16, read_u16_array, read_u32,
    read_u32_array, read_u64, read_urational,
};
use rexif::rational::{IRational, URational};
use rexif::text::{decimal, hex};
use rexif::types::{F32Bits, F64Bits, IfdEntry, IfdFormat, Namespace, TagValue};
use rexif::types_impl::ifdformat_new;

fn entry(format: IfdFormat, count: u32, le: bool, data: &[u8]) -> IfdEntry {
    IfdEntry {
        namespace: Namespace::Standard,
        tag: 0x1234,
        format,
        count,
        data: data.to_vec(),
        ifd_data: vec![0, 0, 0, 0],
        ext_data: Vec::new(),
        le,
    }
}

#[test]
fn read_u16_both_orders() {
    assert_eq!(read_u16(true, &[0x34, 0x12]), 0x1234);
    assert_eq!(read_u16(false, &[0x34, 0x12]), 0x3412);
    assert_eq!(read_u16(true, &[0xff, 0xff, 0x01]), 0xffff);
}

#[test]
fn read_u32_both_orders() {
    assert_eq!(read_u32(true, &[0x78, 0x56, 0x34, 0x12]), 0x12345678);
    assert_eq!(read_u32(false, &[0x78, 0x56, 0x34, 0x12]), 0x78563412);
    assert_eq!(read_u32(false, &[0xff, 0xff, 0xff, 0xff]), u32::MAX);
}

#[test]
fn read_u64_both_orders() {
    let raw = [1, 2, 3, 4, 5, 6, 7, 8];
    assert_eq!(read_u64(true, &raw), 0x0807060504030201);
    assert_eq!(read_u64(false, &raw), 0x0102030405060708);
}

#[test]
fn read_signed_integers() {
    assert_eq!(read_i16(true, &[0xff, 0xff]), -1);
    assert_eq!(read_i16(false, &[0x80, 0x00]), i16::MIN);
    assert_eq!(read_i16(true, &[0xff, 0x7f]), i16::MAX);
    assert_eq!(read_i32(true, &[0xfe, 0xff, 0xff, 0xff]), -2);
    assert_eq!(read_i32(false, &[0x80, 0, 0, 0]), i32::MIN);
    assert_eq!(read_i32(false, &[0x7f, 0xff, 0xff, 0xff]), i32::MAX);
}

#[test]
fn read_rationals() {
    let raw = [1, 0, 0, 0, 0xc8, 0, 0, 0];
    assert_eq!(read_urational(true, &raw), URational { numerator: 1, denominator: 200 });
    let raw = [0xff, 0xff, 0xff, 0xfd, 0, 0, 0, 3];
    assert_eq!(read_irational(false, &raw), IRational { numerator: -3, denominator: 3 });
}

#[test]
fn read_arrays() {
    assert_eq!(read_u16_array(true, 2, &[1, 0, 2, 0, 9]), vec![1, 2]);
    assert_eq!(read_u16_array(false, 0, &[]), Vec::<u16>::new());
    assert_eq!(read_u32_array(false, 2, &[0, 0, 0, 1, 0, 0, 1, 0]), vec![1, 256]);
    assert_eq!(read_i8_array(3, &[0, 0x7f, 0x80]), vec![0, 127, -128]);
}

#[test]
fn endianness_reverses_a_four_byte_payload() {
    let payload = [0x12, 0x34, 0x56, 0x78];
    let le = tag_value_new(&entry(IfdFormat::U32, 1, true, &payload));
    let be = tag_value_new(&entry(IfdFormat::U32, 1, false, &payload));
    assert!(matches!(&le, TagValue::U32(v) if v == &vec![0x78563412u32]));
    assert!(matches!(&be, TagValue::U32(v) if v == &vec![0x12345678u32]));
    assert_eq!(le.to_i64(0).unwrap() as u32, (be.to_i64(0).unwrap() as u32).swap_bytes());
    let le = tag_value_new(&entry(IfdFormat::U16, 2, true, &payload));
    let be = tag_value_new(&entry(IfdFormat::U16, 2, false, &payload));
    assert!(matches!(&le, TagValue::U16(v) if v == &vec![0x3412u16, 0x7856]));
    assert!(matches!(&be, TagValue::U16(v) if v == &vec![0x1234u16, 0x5678]));
}

#[test]
fn format_codes() {
    assert_eq!(ifdformat_new(0), IfdFormat::Unknown);
    assert_eq!(ifdformat_new(1), IfdFormat::U8);
    assert_eq!(ifdformat_new(2), IfdFormat::Ascii);
    assert_eq!(ifdformat_new(3), IfdFormat::U16);
    assert_eq!(ifdformat_new(4), IfdFormat::U32);
    assert_eq!(ifdformat_new(5), IfdFormat::URational);
    assert_eq!(ifdformat_new(6), IfdFormat::I8);
    assert_eq!(ifdformat_new(7), IfdFormat::Undefined);
    assert_eq!(ifdformat_new(8), IfdFormat::I16);
    assert_eq!(ifdformat_new(9), IfdFormat::I32);
    assert_eq!(ifdformat_new(10), IfdFormat::IRational);
    assert_eq!(ifdformat_new(11), IfdFormat::F32);
    assert_eq!(ifdformat_new(12), IfdFormat::F64);
    assert_eq!(ifdformat_new(13), IfdFormat::Unknown);
    assert_eq!(ifdformat_new(0xffff), IfdFormat::Unknown);
    for n in 0..13u16 {
        assert_eq!(ifdformat_new(n).code(), n);
    }
    assert_eq!(IfdFormat::URational.name(), "URational");
    assert_eq!(IfdFormat::Unknown.name(), "Unknown");
}

#[test]
fn element_sizes_and_lengths() {
    let sizes = [
        (IfdFormat::U8, 1),
        (IfdFormat::Ascii, 1),
        (IfdFormat::U16, 2),
        (IfdFormat::U32, 4),
        (IfdFormat::URational, 8),
        (IfdFormat::I8, 1),
        (IfdFormat::Undefined, 1),
        (IfdFormat::I16, 2),
        (IfdFormat::I32, 4),
        (IfdFormat::IRational, 8),
        (IfdFormat::F32, 4),
        (IfdFormat::F64, 8),
        (IfdFormat::Unknown, 1),
    ];
    for (format, size) in sizes {
        let e = entry(format, 3, true, &[]);
        assert_eq!(e.size(), size);
        assert_eq!(e.length(), 3 * size as usize);
        assert_eq!(e.in_ifd(), 3 * size <= 4);
    }
    assert!(entry(IfdFormat::U16, 2, true, &[]).in_ifd());
    assert!(!entry(IfdFormat::U8, 5, true, &[]).in_ifd());
    assert!(entry(IfdFormat::F64, 0, true, &[]).in_ifd());
    assert!(!entry(IfdFormat::F64, u32::MAX, true, &[]).in_ifd());
}

#[test]
fn data_as_offset_follows_the_entry_order() {
    let mut e = entry(IfdFormat::U32, 1, true, &[]);
    e.ifd_data = vec![0x10, 0x20, 0, 0];
    assert_eq!(e.data_as_offset(), 0x2010);
    e.le = false;
    assert_eq!(e.data_as_offset(), 0x10200000);
}

#[test]
fn copy_data_inline_takes_the_head_of_the_slot() {
    let mut e = entry(IfdFormat::U16, 1, true, &[]);
    e.ifd_data = vec![7, 1, 0xaa, 0xbb];
    assert!(e.copy_data(&[9, 9, 9]));
    assert_eq!(e.data, vec![7, 1]);
    assert_eq!(e.data.len(), e.length());
    assert!(e.ext_data.is_empty());
    assert_eq!(e.ifd_data, vec![7, 1, 0xaa, 0xbb]);
}

#[test]
fn copy_data_offset_takes_the_window() {
    let contents: Vec<u8> = (0..32u8).collect();
    let mut e = entry(IfdFormat::U8, 6, true, &[]);
    e.ifd_data = vec![10, 0, 0, 0];
    assert!(e.copy_data(&contents));
    assert_eq!(e.data, vec![10, 11, 12, 13, 14, 15]);
    assert_eq!(e.ext_data, vec![10, 11, 12, 13, 14, 15]);
    // the window may end exactly at the end of the buffer
    e.ifd_data = vec![26, 0, 0, 0];
    assert!(e.copy_data(&contents));
    assert_eq!(e.data, vec![26, 27, 28, 29, 30, 31]);
}

#[test]
fn copy_data_outside_buffer_leaves_the_entry() {
    let contents: Vec<u8> = (0..32u8).collect();
    let mut e = entry(IfdFormat::U8, 6, true, &[1, 2]);
    e.ifd_data = vec![27, 0, 0, 0];
    assert!(!e.copy_data(&contents));
    assert_eq!(e.data, vec![1, 2]);
    assert!(e.ext_data.is_empty());
    e.ifd_data = vec![0xff, 0xff, 0xff, 0xff];
    assert!(!e.copy_data(&contents));
    let mut huge = entry(IfdFormat::F64, u32::MAX, true, &[]);
    huge.ifd_data = vec![0, 0, 0, 0];
    assert!(!huge.copy_data(&contents));
    let mut short_slot = entry(IfdFormat::U32, 1, true, &[]);
    short_slot.ifd_data = vec![1, 2];
    assert!(!short_slot.copy_data(&contents));
}

#[test]
fn inline_and_offset_payloads_agree() {
    // the same five 16-bit numbers: two of them in a slot, five in a window
    let numbers = [0x11u8, 0x22, 0x33, 0x44, 0x55, 0x66, 0x77, 0x88, 0x99, 0xaa];
    let mut contents = vec![0u8; 20];
    contents.extend_from_slice(&numbers);
    let mut inline = entry(IfdFormat::U16, 2, false, &[]);
    inline.ifd_data = numbers[..4].to_vec();
    assert!(inline.copy_data(&contents));
    let mut outside = entry(IfdFormat::U16, 5, false, &[]);
    outside.ifd_data = vec![0, 0, 0, 20];
    assert!(outside.copy_data(&contents));
    assert_eq!(inline.data[..], outside.data[..4]);
    let a = tag_value_new(&inline);
    let b = tag_value_new(&outside);
    assert_eq!(a.to_i64(0), b.to_i64(0));
    assert_eq!(a.to_i64(1), b.to_i64(1));
    assert_eq!(a.to_i64(0), Some(0x1122));
    assert_eq!(a.to_i64(2), None);
    assert_eq!(b.to_i64(4), Some(0x99aa));
}

#[test]
fn length_mismatch_is_invalid() {
    let v = tag_value_new(&entry(IfdFormat::U16, 3, true, &[1, 0, 2, 0]));
    match v {
        TagValue::Invalid(data, le, format, count) => {
            assert_eq!(data, vec![1, 0, 2, 0]);
            assert!(le);
            assert_eq!(format, 3);
            assert_eq!(count, 3);
        },
        _ => panic!("expected an invalid value"),
    }
    assert!(matches!(
        tag_value_new(&entry(IfdFormat::U16, 1, true, &[1, 0, 2, 0])),
        TagValue::Invalid(..)
    ));
    assert!(matches!(
        tag_value_new(&entry(IfdFormat::Ascii, 2, false, &[b'a'])),
        TagValue::Invalid(_, false, 2, 2)
    ));
    assert!(matches!(
        tag_value_new(&entry(IfdFormat::URational, u32::MAX, true, &[])),
        TagValue::Invalid(_, true, 5, u32::MAX)
    ));
    assert_eq!(tag_value_new(&entry(IfdFormat::U32, 1, true, &[])).to_string(), "Invalid");
}

#[test]
fn values_of_each_format() {
    assert!(matches!(
        tag_value_new(&entry(IfdFormat::U8, 3, true, &[1, 2, 255])),
        TagValue::U8(v) if v == vec![1, 2, 255]
    ));
    assert!(matches!(
        tag_value_new(&entry(IfdFormat::I8, 2, true, &[1, 255])),
        TagValue::I8(v) if v == vec![1, -1]
    ));
    assert!(matches!(
        tag_value_new(&entry(IfdFormat::I16, 1, false, &[0xff, 0xfe])),
        TagValue::I16(v) if v == vec![-2]
    ));
    assert!(matches!(
        tag_value_new(&entry(IfdFormat::I32, 1, true, &[0xfd, 0xff, 0xff, 0xff])),
        TagValue::I32(v) if v == vec![-3]
    ));
    assert!(matches!(
        tag_value_new(&entry(IfdFormat::URational, 1, true, &[1, 0, 0, 0, 2, 0, 0, 0])),
        TagValue::URational(v) if v == vec![URational { numerator: 1, denominator: 2 }]
    ));
    assert!(matches!(
        tag_value_new(&entry(
            IfdFormat::IRational,
            1,
            false,
            &[0xff, 0xff, 0xff, 0xff, 0, 0, 0, 2]
        )),
        TagValue::IRational(v) if v == vec![IRational { numerator: -1, denominator: 2 }]
    ));
    assert!(matches!(
        tag_value_new(&entry(IfdFormat::Undefined, 2, false, &[9, 8])),
        TagValue::Undefined(v, false) if v == vec![9, 8]
    ));
    assert!(matches!(
        tag_value_new(&entry(IfdFormat::Unknown, 2, true, &[9, 8])),
        TagValue::Unknown(v, true) if v == vec![9, 8]
    ));
    assert!(matches!(
        tag_value_new(&entry(IfdFormat::U16, 0, true, &[])),
        TagValue::U16(v) if v.is_empty()
    ));
}

#[test]
fn float_values_keep_their_bit_patterns() {
    let one = 1.0f32.to_bits().to_le_bytes();
    match tag_value_new(&entry(IfdFormat::F32, 1, true, &one)) {
        TagValue::F32(v) => {
            assert_eq!(v, vec![F32Bits { bits: 0x3f80_0000 }]);
            assert_eq!(f32::from_bits(v[0].bits), 1.0);
        },
        _ => panic!("expected single-precision bits"),
    }
    let half = 0.5f64.to_bits().to_be_bytes();
    let value = tag_value_new(&entry(IfdFormat::F64, 1, false, &half));
    match &value {
        TagValue::F64(v) => {
            assert_eq!(v, &vec![F64Bits { bits: 0x3fe0_0000_0000_0000 }]);
            assert_eq!(f64::from_bits(v[0].bits), 0.5);
        },
        _ => panic!("expected double-precision bits"),
    }
    assert_eq!(value.to_string(), "0x3fe0000000000000");
    assert_eq!(value.to_i64(0), None);
}

#[test]
fn ascii_is_decoded_permissively() {
    let v = tag_value_new(&entry(IfdFormat::Ascii, 6, true, b"Canon\0"));
    assert!(matches!(&v, TagValue::Ascii(s) if s == "Canon"));
    let v = tag_value_new(&entry(IfdFormat::Ascii, 4, true, b"a\0\0\0"));
    assert!(matches!(&v, TagValue::Ascii(s) if s == "a"));
    let v = tag_value_new(&entry(IfdFormat::Ascii, 3, true, b"a\0b"));
    assert!(matches!(&v, TagValue::Ascii(s) if s == "a\0b"));
    let v = tag_value_new(&entry(IfdFormat::Ascii, 0, true, b""));
    assert!(matches!(&v, TagValue::Ascii(s) if s.is_empty()));
    let v = tag_value_new(&entry(IfdFormat::Ascii, 2, true, &[0, 0]));
    assert!(matches!(&v, TagValue::Ascii(s) if s.is_empty()));
    // UTF-8 is accepted, and bytes that are no UTF-8 are replaced
    let v = tag_value_new(&entry(IfdFormat::Ascii, 3, true, &[0xc3, 0xa9, 0]));
    assert!(matches!(&v, TagValue::Ascii(s) if s == "\u{e9}"));
    let v = tag_value_new(&entry(IfdFormat::Ascii, 3, true, &[b'a', 0xff, b'b']));
    assert!(matches!(&v, TagValue::Ascii(s) if s == "a\u{fffd}b"));
}

#[test]
fn to_i64_by_variant_and_index() {
    assert_eq!(TagValue::U8(vec![1, 200]).to_i64(1), Some(200));
    assert_eq!(TagValue::U8(vec![1, 200]).to_i64(2), None);
    assert_eq!(TagValue::U16(vec![65535]).to_i64(0), Some(65535));
    assert_eq!(TagValue::U32(vec![u32::MAX]).to_i64(0), Some(4294967295));
    assert_eq!(TagValue::I8(vec![-128]).to_i64(0), Some(-128));
    assert_eq!(TagValue::I16(vec![-5]).to_i64(0), Some(-5));
    assert_eq!(TagValue::I32(vec![i32::MIN]).to_i64(0), Some(-2147483648));
    assert_eq!(TagValue::I32(vec![]).to_i64(0), None);
    assert_eq!(TagValue::Ascii("12".to_string()).to_i64(0), None);
    assert_eq!(
        TagValue::URational(vec![URational { numerator: 1, denominator: 1 }]).to_i64(0),
        None
    );
    assert_eq!(TagValue::Undefined(vec![1], true).to_i64(0), None);
    assert_eq!(TagValue::Unknown(vec![1], true).to_i64(0), None);
    assert_eq!(TagValue::Invalid(vec![1], true, 3, 1).to_i64(0), None);
    assert_eq!(TagValue::U16(vec![1]).to_i64(usize::MAX), None);
}

#[test]
fn plain_text_of_values() {
    assert_eq!(TagValue::U8(vec![]).to_string(), "");
    assert_eq!(TagValue::U8(vec![7]).to_string(), "7");
    assert_eq!(TagValue::U16(vec![1, 20, 300]).to_string(), "1, 20, 300");
    assert_eq!(TagValue::U32(vec![0, u32::MAX]).to_string(), "0, 4294967295");
    assert_eq!(TagValue::I8(vec![-1, 1]).to_string(), "-1, 1");
    assert_eq!(TagValue::I16(vec![i16::MIN]).to_string(), "-32768");
    assert_eq!(TagValue::I32(vec![i32::MIN, i32::MAX]).to_string(), "-2147483648, 2147483647");
    assert_eq!(TagValue::Ascii("as it is".to_string()).to_string(), "as it is");
    assert_eq!(
        TagValue::URational(vec![
            URational { numerator: 1, denominator: 200 },
            URational { numerator: 0, denominator: 0 }
        ])
        .to_string(),
        "1/200, 0/0"
    );
    assert_eq!(
        TagValue::IRational(vec![IRational { numerator: -1, denominator: -3 }]).to_string(),
        "-1/-3"
    );
    assert_eq!(TagValue::Undefined(vec![48, 50], true).to_string(), "48, 50");
    assert_eq!(TagValue::F32(vec![F32Bits { bits: 0 }]).to_string(), "0x0");
    assert_eq!(TagValue::Unknown(vec![1, 2], false).to_string(), "<unknown blob>");
    assert_eq!(TagValue::Invalid(vec![1, 2], false, 3, 9).to_string(), "Invalid");
}

#[test]
fn numbers_as_text() {
    assert_eq!(decimal(0), "0");
    assert_eq!(decimal(9), "9");
    assert_eq!(decimal(10), "10");
    assert_eq!(decimal(-1), "-1");
    assert_eq!(decimal(1234567890), "1234567890");
    assert_eq!(decimal(i64::MAX), "9223372036854775807");
    assert_eq!(decimal(i64::MIN), "-9223372036854775808");
    assert_eq!(hex(0), "0");
    assert_eq!(hex(15), "f");
    assert_eq!(hex(16), "10");
    assert_eq!(hex(0x8769), "8769");
    assert_eq!(hex(0xabcdef), "abcdef");
    assert_eq!(hex(u64::MAX), "ffffffffffffffff");
    assert_eq!(numarray_to_string::<u16>(&[]), "");
    assert_eq!(numarray_to_string(&[5u8]), "5");
    assert_eq!(numarray_to_string(&[5i32, -6, 7]), "5, -6, 7");
}

#[test]
fn clones_are_equal_in_every_field() {
    let mut e = entry(IfdFormat::U16, 2, false, &[1, 2, 3, 4]);
    e.ext_data = vec![9];
    let c = e.clone();
    assert_eq!(c.namespace, e.namespace);
    assert_eq!(c.tag, e.tag);
    assert_eq!(c.format, e.format);
    assert_eq!(c.count, e.count);
    assert_eq!(c.data, e.data);
    assert_eq!(c.ifd_data, e.ifd_data);
    assert_eq!(c.ext_data, e.ext_data);
    assert_eq!(c.le, e.le);
    let v = TagValue::Invalid(vec![1], true, 3, 4).clone();
    assert!(matches!(v, TagValue::Invalid(d, true, 3, 4) if d == vec![1]));
}
