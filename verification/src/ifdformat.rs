//! Decoding of a resolved payload into a typed value, and the plain text of
//! typed values.

use vstd::prelude::*;
use vstd::slice::slice_subrange;
use vstd::string::StringExecFns;
use vstd::utf8::{
    decode_utf8, encode_utf8, encode_utf8_decode_utf8, encode_utf8_valid_utf8, is_ascii_chars,
    is_ascii_chars_encode_utf8, valid_utf8,
};
use crate::lowlevel::{
    element, lemma_u16_array_reversed, lemma_u32_array_reversed, read_f32_array, read_f64_array,
    read_i16_array, read_i32_array, read_i8_array, read_irational_array, read_u16_array,
    read_u32_array, read_urational_array, spec_as_i16, spec_as_i32, spec_f32_array,
    spec_f64_array, spec_i16_array, spec_i32_array, spec_i8_array, spec_irational_array,
    spec_u16_array, spec_u32_array, spec_urational_array, swap_u16, swap_u32,
};
use crate::rational::{IRational, URational};
use crate::text::{push_decimal, push_hex, push_unsigned, spec_decimal, spec_hex, spec_join};
use crate::types::{F32Bits, F64Bits, IfdEntry, IfdEntryView, IfdFormat, TagValue, TagValueView};

verus! {

/// The text that `String::from_utf8_lossy` makes of a byte sequence: the
/// text that the bytes encode in UTF-8, with a replacement character for
/// each part that is not valid.
pub uninterp spec fn utf8_lossy(bytes: Seq<u8>) -> Seq<char>;

/// The text that `String::from_utf16_lossy` makes of a sequence of code
/// units: the text that they encode in UTF-16, with a replacement character
/// for each unpaired surrogate.
pub uninterp spec fn utf16_lossy(units: Seq<u16>) -> Seq<char>;

/// Calls `String::from_utf8_lossy` and takes the result as an owned string.
/// The result is a function of the bytes alone, named [`utf8_lossy`]. Bytes
/// that are valid UTF-8 give the text that they encode, with nothing
/// replaced.
#[verifier::external_body]
pub(crate) fn from_utf8_lossy(bytes: &[u8]) -> (s: String)
    ensures
        s@ == utf8_lossy(bytes@),
        valid_utf8(bytes@) ==> s@ == decode_utf8(bytes@),
{
    String::from_utf8_lossy(bytes).into_owned()
}

/// Calls `String::from_utf16_lossy`. The result is a function of the code
/// units alone, named [`utf16_lossy`].
#[verifier::external_body]
pub(crate) fn from_utf16_lossy(units: &[u16]) -> (s: String)
    ensures
        s@ == utf16_lossy(units@),
{
    String::from_utf16_lossy(units)
}

/// Whether every byte is below 128.
pub open spec fn is_seven_bit(bytes: Seq<u8>) -> bool {
    forall|i: int| 0 <= i < bytes.len() ==> #[trigger] bytes[i] < 0x80
}

/// The characters that have the bytes as their codes.
pub open spec fn seven_bit_text(bytes: Seq<u8>) -> Seq<char> {
    Seq::new(bytes.len(), |i: int| bytes[i] as char)
}

/// Bytes below 128 are valid UTF-8, and encode the characters that have
/// them as their codes.
pub proof fn lemma_seven_bit_is_utf8(bytes: Seq<u8>)
    requires
        is_seven_bit(bytes),
    ensures
        valid_utf8(bytes),
        decode_utf8(bytes) == seven_bit_text(bytes),
{
    let chars = seven_bit_text(bytes);
    assert(is_ascii_chars(chars)) by {
        assert forall|i: int| 0 <= i < chars.len() implies '\0' <= #[trigger] chars[i]
            <= '\u{7f}' by {
            assert(bytes[i] < 0x80);
        }
    }
    is_ascii_chars_encode_utf8(chars);
    assert(encode_utf8(chars) =~= bytes) by {
        assert forall|i: int| 0 <= i < bytes.len() implies encode_utf8(chars)[i] == bytes[i] by {
            assert(chars[i] as u8 == encode_utf8(chars)[i]);
            assert(bytes[i] < 0x80);
        }
    }
    encode_utf8_valid_utf8(chars);
    encode_utf8_decode_utf8(chars);
}

/// The text of bytes, with a replacement character for each part that is
/// not valid UTF-8. Bytes below 128 give the characters that have them as
/// their codes.
pub fn lossy_text(bytes: &[u8]) -> (s: String)
    ensures
        s@ == utf8_lossy(bytes@),
        is_seven_bit(bytes@) ==> s@ == seven_bit_text(bytes@),
{
    proof {
        if is_seven_bit(bytes@) {
            lemma_seven_bit_is_utf8(bytes@);
        }
    }
    from_utf8_lossy(bytes)
}

/// An element of a typed value that has a plain text.
pub trait Numeric {
    /// The element's plain text.
    spec fn spec_text(&self) -> Seq<char>;

    /// Appends the element's plain text to `out`.
    fn push_text(&self, out: &mut String)
        ensures
            final(out)@ == old(out)@ + self.spec_text(),
    ;
}

impl Numeric for u8 {
    open spec fn spec_text(&self) -> Seq<char> {
        spec_decimal(*self as int)
    }

    fn push_text(&self, out: &mut String) {
        push_unsigned(out, *self as u64);
    }
}

impl Numeric for u16 {
    open spec fn spec_text(&self) -> Seq<char> {
        spec_decimal(*self as int)
    }

    fn push_text(&self, out: &mut String) {
        push_unsigned(out, *self as u64);
    }
}

impl Numeric for u32 {
    open spec fn spec_text(&self) -> Seq<char> {
        spec_decimal(*self as int)
    }

    fn push_text(&self, out: &mut String) {
        push_unsigned(out, *self as u64);
    }
}

impl Numeric for i8 {
    open spec fn spec_text(&self) -> Seq<char> {
        spec_decimal(*self as int)
    }

    fn push_text(&self, out: &mut String) {
        push_decimal(out, *self as i64);
    }
}

impl Numeric for i16 {
    open spec fn spec_text(&self) -> Seq<char> {
        spec_decimal(*self as int)
    }

    fn push_text(&self, out: &mut String) {
        push_decimal(out, *self as i64);
    }
}

impl Numeric for i32 {
    open spec fn spec_text(&self) -> Seq<char> {
        spec_decimal(*self as int)
    }

    fn push_text(&self, out: &mut String) {
        push_decimal(out, *self as i64);
    }
}

/// A rational is written as numerator, slash, denominator.
impl Numeric for URational {
    open spec fn spec_text(&self) -> Seq<char> {
        spec_decimal(self.numerator as int) + seq!['/'] + spec_decimal(self.denominator as int)
    }

    fn push_text(&self, out: &mut String) {
        proof {
            reveal_strlit("/");
        }
        push_unsigned(out, self.numerator as u64);
        out.append("/");
        push_unsigned(out, self.denominator as u64);
        assert(out@ =~= old(out)@ + self.spec_text());
    }
}

/// A rational is written as numerator, slash, denominator.
impl Numeric for IRational {
    open spec fn spec_text(&self) -> Seq<char> {
        spec_decimal(self.numerator as int) + seq!['/'] + spec_decimal(self.denominator as int)
    }

    fn push_text(&self, out: &mut String) {
        proof {
            reveal_strlit("/");
        }
        push_decimal(out, self.numerator as i64);
        out.append("/");
        push_decimal(out, self.denominator as i64);
        assert(out@ =~= old(out)@ + self.spec_text());
    }
}

/// A bit pattern is written in hexadecimal after `0x`.
impl Numeric for F32Bits {
    open spec fn spec_text(&self) -> Seq<char> {
        seq!['0', 'x'] + spec_hex(self.bits as nat)
    }

    fn push_text(&self, out: &mut String) {
        proof {
            reveal_strlit("0x");
        }
        out.append("0x");
        push_hex(out, self.bits as u64);
        assert(out@ =~= old(out)@ + self.spec_text());
    }
}

/// A bit pattern is written in hexadecimal after `0x`.
impl Numeric for F64Bits {
    open spec fn spec_text(&self) -> Seq<char> {
        seq!['0', 'x'] + spec_hex(self.bits as nat)
    }

    fn push_text(&self, out: &mut String) {
        proof {
            reveal_strlit("0x");
        }
        out.append("0x");
        push_hex(out, self.bits as u64);
        assert(out@ =~= old(out)@ + self.spec_text());
    }
}

/// The plain text of an array: the texts of its elements, separated by a
/// comma and a space.
pub open spec fn spec_numarray<T: Numeric>(numbers: Seq<T>) -> Seq<char> {
    spec_join(numbers.map_values(|x: T| x.spec_text()))
}

/// The plain text of an array.
pub fn numarray_to_string<T: Numeric>(numbers: &[T]) -> (s: String)
    ensures
        s@ == spec_numarray(numbers@),
{
    let mut out = String::new();
    let ghost parts = numbers@.map_values(|x: T| x.spec_text());
    let mut i: usize = 0;
    while i < numbers.len()
        invariant
            i <= numbers@.len(),
            parts == numbers@.map_values(|x: T| x.spec_text()),
            out@ == spec_join(parts.take(i as int)),
        decreases numbers@.len() - i,
    {
        proof {
            reveal_strlit(", ");
            assert(parts.take(i as int + 1).drop_last() =~= parts.take(i as int));
        }
        if i > 0 {
            out.append(", ");
        }
        numbers[i].push_text(&mut out);
        i += 1;
        assert(out@ =~= spec_join(parts.take(i as int)));
    }
    assert(parts.take(i as int) =~= parts);
    out
}

/// The bytes of `data` without the zero bytes at its end.
pub open spec fn strip_trailing_nuls(data: Seq<u8>) -> Seq<u8>
    decreases data.len(),
{
    if data.len() > 0 && data.last() == 0 {
        strip_trailing_nuls(data.drop_last())
    } else {
        data
    }
}

/// The typed value of an entry whose payload is resolved. It depends on the
/// format, the count, the payload and the entry's own byte order, and on
/// nothing else. A payload whose length is not the element size times the
/// count gives `Invalid`, which keeps the bytes, the byte order, the format
/// code and the count.
pub open spec fn spec_tag_value(f: IfdEntryView) -> TagValueView {
    if f.data.len() != f.length() {
        TagValueView::Invalid(f.data, f.le, f.format.spec_code(), f.count)
    } else {
        match f.format {
            IfdFormat::U8 => TagValueView::U8(f.data),
            IfdFormat::Ascii => TagValueView::Ascii(utf8_lossy(strip_trailing_nuls(f.data))),
            IfdFormat::U16 => TagValueView::U16(spec_u16_array(f.le, f.count as nat, f.data)),
            IfdFormat::U32 => TagValueView::U32(spec_u32_array(f.le, f.count as nat, f.data)),
            IfdFormat::URational => TagValueView::URational(
                spec_urational_array(f.le, f.count as nat, f.data),
            ),
            IfdFormat::I8 => TagValueView::I8(spec_i8_array(f.count as nat, f.data)),
            IfdFormat::Undefined => TagValueView::Undefined(f.data, f.le),
            IfdFormat::I16 => TagValueView::I16(spec_i16_array(f.le, f.count as nat, f.data)),
            IfdFormat::I32 => TagValueView::I32(spec_i32_array(f.le, f.count as nat, f.data)),
            IfdFormat::IRational => TagValueView::IRational(
                spec_irational_array(f.le, f.count as nat, f.data),
            ),
            IfdFormat::F32 => TagValueView::F32(spec_f32_array(f.le, f.count as nat, f.data)),
            IfdFormat::F64 => TagValueView::F64(spec_f64_array(f.le, f.count as nat, f.data)),
            IfdFormat::Unknown => TagValueView::Unknown(f.data, f.le),
        }
    }
}

/// The typed value is `Invalid` exactly where the length of the payload is
/// not the element size times the count; `Invalid` keeps what it was made
/// from. A payload that was resolved against a buffer never gives it.
pub proof fn lemma_invalid_iff_length_mismatch(f: IfdEntryView, contents: Seq<u8>)
    ensures
        spec_tag_value(f) is Invalid <==> f.data.len() != f.length(),
        f.data.len() != f.length() ==> spec_tag_value(f) == TagValueView::Invalid(
            f.data,
            f.le,
            f.format.spec_code(),
            f.count,
        ),
        f.payload(contents) is Some ==> !(spec_tag_value(f.resolved(contents)) is Invalid),
{
}

/// The typed value depends on the format, the count, the byte order and
/// the payload of an entry, and not on where the payload was taken from.
pub proof fn lemma_value_from_payload(a: IfdEntryView, b: IfdEntryView)
    requires
        a.format == b.format,
        a.count == b.count,
        a.le == b.le,
        a.data == b.data,
    ensures
        spec_tag_value(a) == spec_tag_value(b),
{
}

/// Element `i` of a value decoded from a payload in the slot and element
/// `i` of a value decoded from a payload in a window of a buffer are equal
/// where the format and the byte order are the same and the bytes under the
/// two elements are.
pub proof fn lemma_inline_offset_elements_agree(
    a: IfdEntryView,
    b: IfdEntryView,
    a_contents: Seq<u8>,
    b_contents: Seq<u8>,
    i: int,
)
    requires
        a.in_ifd(),
        !b.in_ifd(),
        a.payload(a_contents) is Some,
        b.payload(b_contents) is Some,
        a.format == b.format,
        a.le == b.le,
        0 <= i < a.count,
        forall|k: int|
            0 <= k < a.length() && i * a.size() <= k < (i + 1) * a.size() ==> a.ifd_data[k]
                == b_contents[b.data_as_offset() + k],
    ensures
        i < b.count,
        ({
            let x = spec_tag_value(a.resolved(a_contents));
            let y = spec_tag_value(b.resolved(b_contents));
            match a.format {
                IfdFormat::U8 => x->U8_0[i] == y->U8_0[i],
                IfdFormat::Ascii => true,
                IfdFormat::U16 => x->U16_0[i] == y->U16_0[i],
                IfdFormat::U32 => x->U32_0[i] == y->U32_0[i],
                IfdFormat::URational => x->URational_0[i] == y->URational_0[i],
                IfdFormat::I8 => x->I8_0[i] == y->I8_0[i],
                IfdFormat::Undefined => x->Undefined_0[i] == y->Undefined_0[i],
                IfdFormat::I16 => x->I16_0[i] == y->I16_0[i],
                IfdFormat::I32 => x->I32_0[i] == y->I32_0[i],
                IfdFormat::IRational => x->IRational_0[i] == y->IRational_0[i],
                IfdFormat::F32 => x->F32_0[i] == y->F32_0[i],
                IfdFormat::F64 => x->F64_0[i] == y->F64_0[i],
                IfdFormat::Unknown => x->Unknown_0[i] == y->Unknown_0[i],
            }
        }),
{
    let size = a.size() as int;
    let x = a.resolved(a_contents).data;
    let y = b.resolved(b_contents).data;
    let a_len = a.length() as int;
    let b_len = b.length() as int;
    assert(a.count < b.count && 0 <= i * size && (i + 1) * size == i * size + size && (i + 1)
        * size <= a_len) by (nonlinear_arith)
        requires
            a_len == size * a.count,
            b_len == size * b.count,
            a_len < b_len,
            0 <= i < a.count,
            size > 0,
    ;
    assert(x.len() == a_len && y.len() == b_len);
    assert forall|j: int| 0 <= j < size implies element(x, size, i)[j] == element(
        y,
        size,
        i,
    )[j] by {
        let k = i * size + j;
        assert(x[k] == a.ifd_data[k]);
        assert(y[k] == b_contents[b.data_as_offset() + k]);
    }
    assert(element(x, size, i) =~= element(y, size, i));
    if size == 1 {
        assert(element(x, 1, i)[0] == x[i]);
        assert(element(y, 1, i)[0] == y[i]);
    }
}

/// An entry of 16-bit or 32-bit integers decoded in its own byte order and
/// in the other one: each element of the one value is the byte-reversed
/// number of its element in the other. Only the entry's own flag counts;
/// the decode knows no other byte order.
pub proof fn lemma_value_byte_order(f: IfdEntryView, i: int)
    requires
        f.data.len() == f.length(),
        0 <= i < f.count,
    ensures
        ({
            let here = spec_tag_value(f);
            let there = spec_tag_value(IfdEntryView { le: !f.le, ..f });
            &&& f.format == IfdFormat::U16 ==> here->U16_0[i] == swap_u16(there->U16_0[i])
            &&& f.format == IfdFormat::U32 ==> here->U32_0[i] == swap_u32(there->U32_0[i])
            &&& f.format == IfdFormat::I16 ==> here->I16_0[i] == spec_as_i16(
                swap_u16(spec_u16_array(!f.le, f.count as nat, f.data)[i]),
            )
            &&& f.format == IfdFormat::I32 ==> here->I32_0[i] == spec_as_i32(
                swap_u32(spec_u32_array(!f.le, f.count as nat, f.data)[i]),
            )
        }),
{
    if f.format == IfdFormat::U16 || f.format == IfdFormat::I16 {
        lemma_u16_array_reversed(f.le, f.count as nat, f.data, i);
    }
    if f.format == IfdFormat::U32 || f.format == IfdFormat::I32 {
        lemma_u32_array_reversed(f.le, f.count as nat, f.data, i);
    }
}

/// The length of `data` without the zero bytes at its end.
fn stripped_len(data: &[u8]) -> (n: usize)
    ensures
        n <= data@.len(),
        data@.subrange(0, n as int) == strip_trailing_nuls(data@),
{
    let mut n = data.len();
    assert(data@.subrange(0, n as int) =~= data@);
    while n > 0 && data[n - 1] == 0
        invariant
            n <= data@.len(),
            strip_trailing_nuls(data@.subrange(0, n as int)) == strip_trailing_nuls(data@),
        decreases n,
    {
        assert(data@.subrange(0, n as int).drop_last() =~= data@.subrange(0, n as int - 1));
        n -= 1;
    }
    n
}

/// Decodes the payload of an entry into a typed value.
pub fn tag_value_new(f: &IfdEntry) -> (v: TagValue)
    ensures
        v@ == spec_tag_value(f@),
        v@ is Invalid <==> f.data@.len() != f@.length(),
        f.format == IfdFormat::Ascii && f.data@.len() == f@.length() && is_seven_bit(
            strip_trailing_nuls(f.data@),
        ) ==> v@ == TagValueView::Ascii(seven_bit_text(strip_trailing_nuls(f.data@))),
{
    let size = f.size() as u64;
    assert(size * f.count as u64 <= 8 * 0xffff_ffff) by (nonlinear_arith)
        requires
            size <= 8,
            f.count <= 0xffff_ffff,
    ;
    if f.data.len() as u64 != size * (f.count as u64) {
        return TagValue::Invalid(f.data.clone(), f.le, f.format.code(), f.count);
    }
    let data = f.data.as_slice();
    match f.format {
        IfdFormat::U8 => TagValue::U8(f.data.clone()),
        IfdFormat::Ascii => {
            let n = stripped_len(data);
            TagValue::Ascii(lossy_text(slice_subrange(data, 0, n)))
        },
        IfdFormat::U16 => TagValue::U16(read_u16_array(f.le, f.count, data)),
        IfdFormat::U32 => TagValue::U32(read_u32_array(f.le, f.count, data)),
        IfdFormat::URational => TagValue::URational(read_urational_array(f.le, f.count, data)),
        IfdFormat::I8 => TagValue::I8(read_i8_array(f.count, data)),
        IfdFormat::Undefined => TagValue::Undefined(f.data.clone(), f.le),
        IfdFormat::I16 => TagValue::I16(read_i16_array(f.le, f.count, data)),
        IfdFormat::I32 => TagValue::I32(read_i32_array(f.le, f.count, data)),
        IfdFormat::IRational => TagValue::IRational(read_irational_array(f.le, f.count, data)),
        IfdFormat::F32 => TagValue::F32(read_f32_array(f.le, f.count, data)),
        IfdFormat::F64 => TagValue::F64(read_f64_array(f.le, f.count, data)),
        IfdFormat::Unknown => TagValue::Unknown(f.data.clone(), f.le),
    }
}

impl TagValueView {
    /// The value's plain text: the text itself, the elements of an array
    /// separated by commas, or a fixed word for bytes that have no reading.
    pub open spec fn text(self) -> Seq<char> {
        match self {
            TagValueView::U8(a) => spec_numarray(a),
            TagValueView::Ascii(s) => s,
            TagValueView::U16(a) => spec_numarray(a),
            TagValueView::U32(a) => spec_numarray(a),
            TagValueView::URational(a) => spec_numarray(a),
            TagValueView::I8(a) => spec_numarray(a),
            TagValueView::Undefined(a, _) => spec_numarray(a),
            TagValueView::I16(a) => spec_numarray(a),
            TagValueView::I32(a) => spec_numarray(a),
            TagValueView::IRational(a) => spec_numarray(a),
            TagValueView::F32(a) => spec_numarray(a),
            TagValueView::F64(a) => spec_numarray(a),
            TagValueView::Unknown(_, _) => "<unknown blob>"@,
            TagValueView::Invalid(_, _, _, _) => "Invalid"@,
        }
    }

    /// Element `index` as an integer: `None` when the index is out of bounds
    /// or the value is not an array of integers.
    pub open spec fn to_i64(self, index: int) -> Option<i64> {
        match self {
            TagValueView::U8(a) => if 0 <= index < a.len() {
                Some(a[index] as i64)
            } else {
                None
            },
            TagValueView::U16(a) => if 0 <= index < a.len() {
                Some(a[index] as i64)
            } else {
                None
            },
            TagValueView::U32(a) => if 0 <= index < a.len() {
                Some(a[index] as i64)
            } else {
                None
            },
            TagValueView::I8(a) => if 0 <= index < a.len() {
                Some(a[index] as i64)
            } else {
                None
            },
            TagValueView::I16(a) => if 0 <= index < a.len() {
                Some(a[index] as i64)
            } else {
                None
            },
            TagValueView::I32(a) => if 0 <= index < a.len() {
                Some(a[index] as i64)
            } else {
                None
            },
            _ => None,
        }
    }
}

impl TagValue {
    /// Element `index` as an integer: `None` when the index is out of bounds
    /// or the value is not an array of integers.
    pub fn to_i64(&self, index: usize) -> (r: Option<i64>)
        ensures
            r == self@.to_i64(index as int),
    {
        match self {
            TagValue::U8(v) => if index < v.len() {
                Some(v[index] as i64)
            } else {
                None
            },
            TagValue::U16(v) => if index < v.len() {
                Some(v[index] as i64)
            } else {
                None
            },
            TagValue::U32(v) => if index < v.len() {
                Some(v[index] as i64)
            } else {
                None
            },
            TagValue::I8(v) => if index < v.len() {
                Some(v[index] as i64)
            } else {
                None
            },
            TagValue::I16(v) => if index < v.len() {
                Some(v[index] as i64)
            } else {
                None
            },
            TagValue::I32(v) => if index < v.len() {
                Some(v[index] as i64)
            } else {
                None
            },
            _ => None,
        }
    }

    /// The value's plain text.
    pub fn to_string(&self) -> (s: String)
        ensures
            s@ == self@.text(),
    {
        match self {
            TagValue::U8(a) => numarray_to_string(a.as_slice()),
            TagValue::Ascii(s) => s.clone(),
            TagValue::U16(a) => numarray_to_string(a.as_slice()),
            TagValue::U32(a) => numarray_to_string(a.as_slice()),
            TagValue::URational(a) => numarray_to_string(a.as_slice()),
            TagValue::I8(a) => numarray_to_string(a.as_slice()),
            TagValue::Undefined(a, _) => numarray_to_string(a.as_slice()),
            TagValue::I16(a) => numarray_to_string(a.as_slice()),
            TagValue::I32(a) => numarray_to_string(a.as_slice()),
            TagValue::IRational(a) => numarray_to_string(a.as_slice()),
            TagValue::F32(a) => numarray_to_string(a.as_slice()),
            TagValue::F64(a) => numarray_to_string(a.as_slice()),
            TagValue::Unknown(_, _) => "<unknown blob>".to_owned(),
            TagValue::Invalid(_, _, _, _) => "Invalid".to_owned(),
        }
    }
}

} // verus!
