//! The data model: raw directory entries, typed values and decoded entries,
//! each with the mathematical view that the contracts speak of.

use vstd::prelude::*;
use crate::rational::{IRational, URational};

verus! {

/// All metadata decoded from one image.
#[derive(Debug)]
pub struct ExifData {
    /// MIME type of the image: "image/jpeg", "image/tiff", or empty.
    pub mime: String,
    /// The decoded entries, in directory order.
    pub entries: Vec<ExifEntry>,
}

/// Fatal errors: each aborts the whole decode.
#[derive(Debug)]
pub enum ExifError {
    FileTypeUnknown,
    JpegWithoutExif(String),
    /// The buffer is shorter than the 8-byte preamble.
    TiffTruncated,
    /// The preamble matches neither byte-order marker; carries its bytes.
    TiffBadPreamble(String),
    /// The root directory listing runs past the end of the buffer.
    IfdTruncated,
    /// A directory's entry count or listing runs past the end of the buffer.
    ExifIfdTruncated(String),
    ExifIfdEntryNotFound,
}

/// What an [`ExifError`] is in contracts: its variant and message text.
pub enum ExifErrorView {
    FileTypeUnknown,
    JpegWithoutExif(Seq<char>),
    TiffTruncated,
    TiffBadPreamble(Seq<char>),
    IfdTruncated,
    ExifIfdTruncated(Seq<char>),
    ExifIfdEntryNotFound,
}

impl View for ExifError {
    type V = ExifErrorView;

    open spec fn view(&self) -> ExifErrorView {
        match self {
            ExifError::FileTypeUnknown => ExifErrorView::FileTypeUnknown,
            ExifError::JpegWithoutExif(s) => ExifErrorView::JpegWithoutExif(s@),
            ExifError::TiffTruncated => ExifErrorView::TiffTruncated,
            ExifError::TiffBadPreamble(s) => ExifErrorView::TiffBadPreamble(s@),
            ExifError::IfdTruncated => ExifErrorView::IfdTruncated,
            ExifError::ExifIfdTruncated(s) => ExifErrorView::ExifIfdTruncated(s@),
            ExifError::ExifIfdEntryNotFound => ExifErrorView::ExifIfdEntryNotFound,
        }
    }
}

/// The error of a readable-text function applied to a value of another
/// stored representation, or with too few elements, than it is made for.
#[derive(Copy, Clone, Debug, PartialEq, Eq, Structural)]
pub enum ReadableError {
    FormatMismatch,
}

/// Tag namespaces: the standard one, and vendor spaces kept for tags found
/// inside maker notes.
#[derive(Copy, Clone, Debug, PartialEq, Eq, Structural)]
pub enum Namespace {
    Standard,
    Nikon,
    Canon,
}

/// The data format of a directory entry.
#[derive(Copy, Clone, Debug, PartialEq, Eq, Structural)]
pub enum IfdFormat {
    Unknown,
    U8,
    Ascii,
    U16,
    U32,
    URational,
    I8,
    Undefined,
    I16,
    I32,
    IRational,
    F32,
    F64,
}

/// An IEEE 754 single-precision number, held as its 32-bit pattern.
#[derive(Copy, Clone, Debug, PartialEq, Eq, Structural)]
pub struct F32Bits {
    pub bits: u32,
}

/// An IEEE 754 double-precision number, held as its 64-bit pattern.
#[derive(Copy, Clone, Debug, PartialEq, Eq, Structural)]
pub struct F64Bits {
    pub bits: u64,
}

/// A ratio as it is stored, with parts wide enough for both the unsigned
/// and the signed rationals.
#[derive(Copy, Clone, Debug, PartialEq, Eq, Structural)]
pub struct Ratio {
    pub numerator: i64,
    pub denominator: i64,
}

/// How a decimal reading lays out the quotients of its ratios. A number
/// without a count of places is written with as many as it needs.
#[derive(Copy, Clone, Debug, PartialEq, Eq, Structural)]
pub enum Layout {
    /// One number.
    Plain,
    /// All numbers, separated by a comma and a space.
    List,
    /// `f/`, then the number with one decimal place.
    FNumber,
    /// The number, then ` mm`.
    Millimetres,
    /// The number with one decimal place, then ` m`.
    Metres,
    /// Degrees, `°`, minutes, `'`, seconds with two places, `"`.
    DegMinSec,
    /// Degrees, `°`, then minutes plus seconds over 60 with four places, `'`.
    DegMin,
    /// Degrees plus minutes over 60 plus seconds over 3600 with seven places,
    /// `°`.
    Deg,
    /// The number with three decimal places.
    Thousandths,
    /// The number with one decimal place.
    Tenths,
    /// The number with two decimal places, then `°`.
    Bearing,
    /// Hours, minutes and seconds, separated by colons, then ` UTC`.
    TimeStamp,
    /// The number with one decimal place, then ` Tv APEX`.
    ApexTv,
    /// The number with one decimal place, then ` Av APEX`.
    ApexAv,
    /// The number with one decimal place, then ` APEX`.
    ApexBrightness,
    /// The word `Unknown`, for a brightness that is not known; no number.
    BrightnessUnknown,
    /// The number, then ` BCPS`.
    FlashEnergy,
}

/// A reading that tells ratios as decimal numbers: the layout, and the
/// ratios in the order in which the layout takes them.
#[derive(Clone, Debug)]
pub struct Decimal {
    pub layout: Layout,
    pub ratios: Vec<Ratio>,
}

/// What a [`Decimal`] is in contracts.
pub struct DecimalView {
    pub layout: Layout,
    pub ratios: Seq<Ratio>,
}

impl View for Decimal {
    type V = DecimalView;

    open spec fn view(&self) -> DecimalView {
        DecimalView { layout: self.layout, ratios: self.ratios@ }
    }
}

/// One 12-byte directory record, with its payload once resolved.
#[derive(Debug)]
pub struct IfdEntry {
    /// Namespace of the entry.
    pub namespace: Namespace,
    /// Tag code as found in the directory.
    pub tag: u16,
    /// Data format of the elements.
    pub format: IfdFormat,
    /// Number of elements.
    pub count: u32,
    /// The resolved payload: element size times `count` bytes.
    pub data: Vec<u8>,
    /// The record's 4-byte slot: the payload itself when it fits, else the
    /// offset of the payload within the whole buffer.
    pub ifd_data: Vec<u8>,
    /// The payload as copied from outside the directory, when it did not fit.
    pub ext_data: Vec<u8>,
    /// Byte order of this entry: little-endian when set. It is kept per
    /// entry because it may differ from the container's.
    pub le: bool,
}

/// What an [`IfdEntry`] is in contracts.
pub struct IfdEntryView {
    pub namespace: Namespace,
    pub tag: u16,
    pub format: IfdFormat,
    pub count: u32,
    pub data: Seq<u8>,
    pub ifd_data: Seq<u8>,
    pub ext_data: Seq<u8>,
    pub le: bool,
}

impl View for IfdEntry {
    type V = IfdEntryView;

    open spec fn view(&self) -> IfdEntryView {
        IfdEntryView {
            namespace: self.namespace,
            tag: self.tag,
            format: self.format,
            count: self.count,
            data: self.data@,
            ifd_data: self.ifd_data@,
            ext_data: self.ext_data@,
            le: self.le,
        }
    }
}

impl Clone for IfdEntry {
    fn clone(&self) -> (r: Self)
        ensures
            r@ == self@,
    {
        IfdEntry {
            namespace: self.namespace,
            tag: self.tag,
            format: self.format,
            count: self.count,
            data: self.data.clone(),
            ifd_data: self.ifd_data.clone(),
            ext_data: self.ext_data.clone(),
            le: self.le,
        }
    }
}

/// The value of an entry: one case per stored representation. Most cases
/// are arrays, since many tags hold several elements.
#[derive(Debug)]
pub enum TagValue {
    /// Array of unsigned bytes.
    U8(Vec<u8>),
    /// Text. The format asks for 7-bit ASCII; UTF-8 is accepted.
    Ascii(String),
    U16(Vec<u16>),
    U32(Vec<u32>),
    URational(Vec<URational>),
    I8(Vec<i8>),
    /// Bytes of a defined format whose structure is left uninterpreted,
    /// with the byte order of the entry.
    Undefined(Vec<u8>, bool),
    I16(Vec<i16>),
    I32(Vec<i32>),
    IRational(Vec<IRational>),
    F32(Vec<F32Bits>),
    F64(Vec<F64Bits>),
    /// Bytes of an unexpected format code, with the byte order of the entry.
    Unknown(Vec<u8>, bool),
    /// A payload whose length disagrees with the declared format and count:
    /// the raw bytes, the byte order, the format code and the count.
    Invalid(Vec<u8>, bool, u16, u32),
}

/// What a [`TagValue`] is in contracts.
pub enum TagValueView {
    U8(Seq<u8>),
    Ascii(Seq<char>),
    U16(Seq<u16>),
    U32(Seq<u32>),
    URational(Seq<URational>),
    I8(Seq<i8>),
    Undefined(Seq<u8>, bool),
    I16(Seq<i16>),
    I32(Seq<i32>),
    IRational(Seq<IRational>),
    F32(Seq<F32Bits>),
    F64(Seq<F64Bits>),
    Unknown(Seq<u8>, bool),
    Invalid(Seq<u8>, bool, u16, u32),
}

impl View for TagValue {
    type V = TagValueView;

    open spec fn view(&self) -> TagValueView {
        match self {
            TagValue::U8(v) => TagValueView::U8(v@),
            TagValue::Ascii(s) => TagValueView::Ascii(s@),
            TagValue::U16(v) => TagValueView::U16(v@),
            TagValue::U32(v) => TagValueView::U32(v@),
            TagValue::URational(v) => TagValueView::URational(v@),
            TagValue::I8(v) => TagValueView::I8(v@),
            TagValue::Undefined(v, le) => TagValueView::Undefined(v@, *le),
            TagValue::I16(v) => TagValueView::I16(v@),
            TagValue::I32(v) => TagValueView::I32(v@),
            TagValue::IRational(v) => TagValueView::IRational(v@),
            TagValue::F32(v) => TagValueView::F32(v@),
            TagValue::F64(v) => TagValueView::F64(v@),
            TagValue::Unknown(v, le) => TagValueView::Unknown(v@, *le),
            TagValue::Invalid(v, le, format, count) => TagValueView::Invalid(
                v@,
                *le,
                *format,
                *count,
            ),
        }
    }
}

impl Clone for TagValue {
    fn clone(&self) -> (r: Self)
        ensures
            r@ == self@,
    {
        match self {
            TagValue::U8(v) => TagValue::U8(v.clone()),
            TagValue::Ascii(s) => TagValue::Ascii(s.clone()),
            TagValue::U16(v) => TagValue::U16(v.clone()),
            TagValue::U32(v) => TagValue::U32(v.clone()),
            TagValue::URational(v) => TagValue::URational(v.clone()),
            TagValue::I8(v) => TagValue::I8(v.clone()),
            TagValue::Undefined(v, le) => TagValue::Undefined(v.clone(), *le),
            TagValue::I16(v) => TagValue::I16(v.clone()),
            TagValue::I32(v) => TagValue::I32(v.clone()),
            TagValue::IRational(v) => TagValue::IRational(v.clone()),
            TagValue::F32(v) => TagValue::F32(v.clone()),
            TagValue::F64(v) => TagValue::F64(v.clone()),
            TagValue::Unknown(v, le) => TagValue::Unknown(v.clone(), *le),
            TagValue::Invalid(v, le, format, count) => TagValue::Invalid(
                v.clone(),
                *le,
                *format,
                *count,
            ),
        }
    }
}

/// A decoded entry.
#[derive(Debug)]
pub struct ExifEntry {
    /// Namespace of the tag.
    pub namespace: Namespace,
    /// The raw entry that this one was decoded from.
    pub ifd: IfdEntry,
    /// The tag's identity, or `UnknownToMe`.
    pub tag: ExifTag,
    /// The typed value.
    pub value: TagValue,
    /// Unit of the value: empty when the tag is `UnknownToMe`, `"none"` when
    /// a recognised tag has no unit.
    pub unit: String,
    /// Human-readable text of the value. When the tag is `UnknownToMe` it is
    /// the value's plain text.
    pub value_more_readable: String,
}

/// What an [`ExifEntry`] is in contracts.
pub struct ExifEntryView {
    pub namespace: Namespace,
    pub ifd: IfdEntryView,
    pub tag: ExifTag,
    pub value: TagValueView,
    pub unit: Seq<char>,
    pub value_more_readable: Seq<char>,
}

impl View for ExifEntry {
    type V = ExifEntryView;

    open spec fn view(&self) -> ExifEntryView {
        ExifEntryView {
            namespace: self.namespace,
            ifd: self.ifd@,
            tag: self.tag,
            value: self.value@,
            unit: self.unit@,
            value_more_readable: self.value_more_readable@,
        }
    }
}

impl Clone for ExifEntry {
    fn clone(&self) -> (r: Self)
        ensures
            r@ == self@,
    {
        ExifEntry {
            namespace: self.namespace,
            ifd: self.ifd.clone(),
            tag: self.tag,
            value: self.value.clone(),
            unit: self.unit.clone(),
            value_more_readable: self.value_more_readable.clone(),
        }
    }
}

/// The views of a sequence of decoded entries.
pub open spec fn entry_views(entries: Seq<ExifEntry>) -> Seq<ExifEntryView> {
    entries.map_values(|e: ExifEntry| e@)
}

/// The views of a sequence of raw entries.
pub open spec fn ifd_views(entries: Seq<IfdEntry>) -> Seq<IfdEntryView> {
    entries.map_values(|e: IfdEntry| e@)
}

/// The texts of a sequence of strings.
pub open spec fn texts(lines: Seq<String>) -> Seq<Seq<char>> {
    lines.map_values(|s: String| s@)
}

/// The views of a sequence with one more entry.
pub proof fn lemma_entry_views_push(entries: Seq<ExifEntry>, e: ExifEntry)
    ensures
        entry_views(entries.push(e)) == entry_views(entries).push(e@),
{
    assert(entry_views(entries.push(e)) =~= entry_views(entries).push(e@));
}

/// The views of a sequence with one more raw entry.
pub proof fn lemma_ifd_views_push(entries: Seq<IfdEntry>, e: IfdEntry)
    ensures
        ifd_views(entries.push(e)) == ifd_views(entries).push(e@),
{
    assert(ifd_views(entries.push(e)) =~= ifd_views(entries).push(e@));
}

/// What the decode of a whole image returns.
pub type ExifResult = Result<ExifData, ExifError>;

/// What the directory-level decode functions return.
pub type ExifEntryResult = Result<Vec<ExifEntry>, ExifError>;

/// The tags that this library recognises.
#[derive(Copy, Clone, Debug, PartialEq, Eq, Hash, Structural)]
pub enum ExifTag {
    /// A tag that is not recognised. Its value is still decoded, and the raw
    /// entry is kept for the caller to interpret.
    UnknownToMe,
    ImageDescription,
    Make,
    Model,
    Orientation,
    XResolution,
    YResolution,
    ResolutionUnit,
    Software,
    DateTime,
    HostComputer,
    WhitePoint,
    PrimaryChromaticities,
    YCbCrCoefficients,
    ReferenceBlackWhite,
    Copyright,
    ExifOffset,
    GPSOffset,
    ExposureTime,
    FNumber,
    ExposureProgram,
    SpectralSensitivity,
    ISOSpeedRatings,
    OECF,
    SensitivityType,
    ExifVersion,
    DateTimeOriginal,
    DateTimeDigitized,
    ShutterSpeedValue,
    ApertureValue,
    BrightnessValue,
    ExposureBiasValue,
    MaxApertureValue,
    SubjectDistance,
    MeteringMode,
    LightSource,
    Flash,
    FocalLength,
    SubjectArea,
    MakerNote,
    UserComment,
    FlashPixVersion,
    ColorSpace,
    RelatedSoundFile,
    FlashEnergy,
    FocalPlaneXResolution,
    FocalPlaneYResolution,
    FocalPlaneResolutionUnit,
    SubjectLocation,
    ExposureIndex,
    SensingMethod,
    FileSource,
    SceneType,
    CFAPattern,
    CustomRendered,
    ExposureMode,
    WhiteBalanceMode,
    DigitalZoomRatio,
    FocalLengthIn35mmFilm,
    SceneCaptureType,
    GainControl,
    Contrast,
    Saturation,
    Sharpness,
    DeviceSettingDescription,
    SubjectDistanceRange,
    ImageUniqueID,
    LensSpecification,
    LensMake,
    LensModel,
    Gamma,
    GPSVersionID,
    GPSLatitudeRef,
    GPSLatitude,
    GPSLongitudeRef,
    GPSLongitude,
    GPSAltitudeRef,
    GPSAltitude,
    GPSTimeStamp,
    GPSSatellites,
    GPSStatus,
    GPSMeasureMode,
    GPSDOP,
    GPSSpeedRef,
    GPSSpeed,
    GPSTrackRef,
    GPSTrack,
    GPSImgDirectionRef,
    GPSImgDirection,
    GPSMapDatum,
    GPSDestLatitudeRef,
    GPSDestLatitude,
    GPSDestLongitudeRef,
    GPSDestLongitude,
    GPSDestBearingRef,
    GPSDestBearing,
    GPSDestDistanceRef,
    GPSDestDistance,
    GPSProcessingMethod,
    GPSAreaInformation,
    GPSDateStamp,
    GPSDifferential,
}

impl ExifTag {
    /// The tag's number: the namespace in the upper 16 bits, the tag code of
    /// that namespace in the lower 16.
    pub open spec fn spec_code(self) -> u32 {
        match self {
            ExifTag::UnknownToMe => 0xffff,
            ExifTag::ImageDescription => 0x010e,
            ExifTag::Make => 0x010f,
            ExifTag::Model => 0x0110,
            ExifTag::Orientation => 0x0112,
            ExifTag::XResolution => 0x011a,
            ExifTag::YResolution => 0x011b,
            ExifTag::ResolutionUnit => 0x0128,
            ExifTag::Software => 0x0131,
            ExifTag::DateTime => 0x0132,
            ExifTag::HostComputer => 0x013c,
            ExifTag::WhitePoint => 0x013e,
            ExifTag::PrimaryChromaticities => 0x013f,
            ExifTag::YCbCrCoefficients => 0x0211,
            ExifTag::ReferenceBlackWhite => 0x0214,
            ExifTag::Copyright => 0x8298,
            ExifTag::ExifOffset => 0x8769,
            ExifTag::GPSOffset => 0x8825,
            ExifTag::ExposureTime => 0x829a,
            ExifTag::FNumber => 0x829d,
            ExifTag::ExposureProgram => 0x8822,
            ExifTag::SpectralSensitivity => 0x8824,
            ExifTag::ISOSpeedRatings => 0x8827,
            ExifTag::OECF => 0x8828,
            ExifTag::SensitivityType => 0x8830,
            ExifTag::ExifVersion => 0x9000,
            ExifTag::DateTimeOriginal => 0x9003,
            ExifTag::DateTimeDigitized => 0x9004,
            ExifTag::ShutterSpeedValue => 0x9201,
            ExifTag::ApertureValue => 0x9202,
            ExifTag::BrightnessValue => 0x9203,
            ExifTag::ExposureBiasValue => 0x9204,
            ExifTag::MaxApertureValue => 0x9205,
            ExifTag::SubjectDistance => 0x9206,
            ExifTag::MeteringMode => 0x9207,
            ExifTag::LightSource => 0x9208,
            ExifTag::Flash => 0x9209,
            ExifTag::FocalLength => 0x920a,
            ExifTag::SubjectArea => 0x9214,
            ExifTag::MakerNote => 0x927c,
            ExifTag::UserComment => 0x9286,
            ExifTag::FlashPixVersion => 0xa000,
            ExifTag::ColorSpace => 0xa001,
            ExifTag::RelatedSoundFile => 0xa004,
            ExifTag::FlashEnergy => 0xa20b,
            ExifTag::FocalPlaneXResolution => 0xa20e,
            ExifTag::FocalPlaneYResolution => 0xa20f,
            ExifTag::FocalPlaneResolutionUnit => 0xa210,
            ExifTag::SubjectLocation => 0xa214,
            ExifTag::ExposureIndex => 0xa215,
            ExifTag::SensingMethod => 0xa217,
            ExifTag::FileSource => 0xa300,
            ExifTag::SceneType => 0xa301,
            ExifTag::CFAPattern => 0xa302,
            ExifTag::CustomRendered => 0xa401,
            ExifTag::ExposureMode => 0xa402,
            ExifTag::WhiteBalanceMode => 0xa403,
            ExifTag::DigitalZoomRatio => 0xa404,
            ExifTag::FocalLengthIn35mmFilm => 0xa405,
            ExifTag::SceneCaptureType => 0xa406,
            ExifTag::GainControl => 0xa407,
            ExifTag::Contrast => 0xa408,
            ExifTag::Saturation => 0xa409,
            ExifTag::Sharpness => 0xa40a,
            ExifTag::DeviceSettingDescription => 0xa40b,
            ExifTag::SubjectDistanceRange => 0xa40c,
            ExifTag::ImageUniqueID => 0xa420,
            ExifTag::LensSpecification => 0xa432,
            ExifTag::LensMake => 0xa433,
            ExifTag::LensModel => 0xa434,
            ExifTag::Gamma => 0xa500,
            ExifTag::GPSVersionID => 0x0000,
            ExifTag::GPSLatitudeRef => 0x0001,
            ExifTag::GPSLatitude => 0x0002,
            ExifTag::GPSLongitudeRef => 0x0003,
            ExifTag::GPSLongitude => 0x0004,
            ExifTag::GPSAltitudeRef => 0x0005,
            ExifTag::GPSAltitude => 0x0006,
            ExifTag::GPSTimeStamp => 0x0007,
            ExifTag::GPSSatellites => 0x0008,
            ExifTag::GPSStatus => 0x0009,
            ExifTag::GPSMeasureMode => 0x000a,
            ExifTag::GPSDOP => 0x000b,
            ExifTag::GPSSpeedRef => 0x000c,
            ExifTag::GPSSpeed => 0x000d,
            ExifTag::GPSTrackRef => 0x000e,
            ExifTag::GPSTrack => 0x000f,
            ExifTag::GPSImgDirectionRef => 0x0010,
            ExifTag::GPSImgDirection => 0x0011,
            ExifTag::GPSMapDatum => 0x0012,
            ExifTag::GPSDestLatitudeRef => 0x0013,
            ExifTag::GPSDestLatitude => 0x0014,
            ExifTag::GPSDestLongitudeRef => 0x0015,
            ExifTag::GPSDestLongitude => 0x0016,
            ExifTag::GPSDestBearingRef => 0x0017,
            ExifTag::GPSDestBearing => 0x0018,
            ExifTag::GPSDestDistanceRef => 0x0019,
            ExifTag::GPSDestDistance => 0x001a,
            ExifTag::GPSProcessingMethod => 0x001b,
            ExifTag::GPSAreaInformation => 0x001c,
            ExifTag::GPSDateStamp => 0x001d,
            ExifTag::GPSDifferential => 0x001e,
        }
    }

    /// The tag's number: the namespace in the upper 16 bits, the tag code of
    /// that namespace in the lower 16.
    pub fn code(self) -> (r: u32)
        ensures
            r == self.spec_code(),
    {
        match self {
            ExifTag::UnknownToMe => 0xffff,
            ExifTag::ImageDescription => 0x010e,
            ExifTag::Make => 0x010f,
            ExifTag::Model => 0x0110,
            ExifTag::Orientation => 0x0112,
            ExifTag::XResolution => 0x011a,
            ExifTag::YResolution => 0x011b,
            ExifTag::ResolutionUnit => 0x0128,
            ExifTag::Software => 0x0131,
            ExifTag::DateTime => 0x0132,
            ExifTag::HostComputer => 0x013c,
            ExifTag::WhitePoint => 0x013e,
            ExifTag::PrimaryChromaticities => 0x013f,
            ExifTag::YCbCrCoefficients => 0x0211,
            ExifTag::ReferenceBlackWhite => 0x0214,
            ExifTag::Copyright => 0x8298,
            ExifTag::ExifOffset => 0x8769,
            ExifTag::GPSOffset => 0x8825,
            ExifTag::ExposureTime => 0x829a,
            ExifTag::FNumber => 0x829d,
            ExifTag::ExposureProgram => 0x8822,
            ExifTag::SpectralSensitivity => 0x8824,
            ExifTag::ISOSpeedRatings => 0x8827,
            ExifTag::OECF => 0x8828,
            ExifTag::SensitivityType => 0x8830,
            ExifTag::ExifVersion => 0x9000,
            ExifTag::DateTimeOriginal => 0x9003,
            ExifTag::DateTimeDigitized => 0x9004,
            ExifTag::ShutterSpeedValue => 0x9201,
            ExifTag::ApertureValue => 0x9202,
            ExifTag::BrightnessValue => 0x9203,
            ExifTag::ExposureBiasValue => 0x9204,
            ExifTag::MaxApertureValue => 0x9205,
            ExifTag::SubjectDistance => 0x9206,
            ExifTag::MeteringMode => 0x9207,
            ExifTag::LightSource => 0x9208,
            ExifTag::Flash => 0x9209,
            ExifTag::FocalLength => 0x920a,
            ExifTag::SubjectArea => 0x9214,
            ExifTag::MakerNote => 0x927c,
            ExifTag::UserComment => 0x9286,
            ExifTag::FlashPixVersion => 0xa000,
            ExifTag::ColorSpace => 0xa001,
            ExifTag::RelatedSoundFile => 0xa004,
            ExifTag::FlashEnergy => 0xa20b,
            ExifTag::FocalPlaneXResolution => 0xa20e,
            ExifTag::FocalPlaneYResolution => 0xa20f,
            ExifTag::FocalPlaneResolutionUnit => 0xa210,
            ExifTag::SubjectLocation => 0xa214,
            ExifTag::ExposureIndex => 0xa215,
            ExifTag::SensingMethod => 0xa217,
            ExifTag::FileSource => 0xa300,
            ExifTag::SceneType => 0xa301,
            ExifTag::CFAPattern => 0xa302,
            ExifTag::CustomRendered => 0xa401,
            ExifTag::ExposureMode => 0xa402,
            ExifTag::WhiteBalanceMode => 0xa403,
            ExifTag::DigitalZoomRatio => 0xa404,
            ExifTag::FocalLengthIn35mmFilm => 0xa405,
            ExifTag::SceneCaptureType => 0xa406,
            ExifTag::GainControl => 0xa407,
            ExifTag::Contrast => 0xa408,
            ExifTag::Saturation => 0xa409,
            ExifTag::Sharpness => 0xa40a,
            ExifTag::DeviceSettingDescription => 0xa40b,
            ExifTag::SubjectDistanceRange => 0xa40c,
            ExifTag::ImageUniqueID => 0xa420,
            ExifTag::LensSpecification => 0xa432,
            ExifTag::LensMake => 0xa433,
            ExifTag::LensModel => 0xa434,
            ExifTag::Gamma => 0xa500,
            ExifTag::GPSVersionID => 0x0000,
            ExifTag::GPSLatitudeRef => 0x0001,
            ExifTag::GPSLatitude => 0x0002,
            ExifTag::GPSLongitudeRef => 0x0003,
            ExifTag::GPSLongitude => 0x0004,
            ExifTag::GPSAltitudeRef => 0x0005,
            ExifTag::GPSAltitude => 0x0006,
            ExifTag::GPSTimeStamp => 0x0007,
            ExifTag::GPSSatellites => 0x0008,
            ExifTag::GPSStatus => 0x0009,
            ExifTag::GPSMeasureMode => 0x000a,
            ExifTag::GPSDOP => 0x000b,
            ExifTag::GPSSpeedRef => 0x000c,
            ExifTag::GPSSpeed => 0x000d,
            ExifTag::GPSTrackRef => 0x000e,
            ExifTag::GPSTrack => 0x000f,
            ExifTag::GPSImgDirectionRef => 0x0010,
            ExifTag::GPSImgDirection => 0x0011,
            ExifTag::GPSMapDatum => 0x0012,
            ExifTag::GPSDestLatitudeRef => 0x0013,
            ExifTag::GPSDestLatitude => 0x0014,
            ExifTag::GPSDestLongitudeRef => 0x0015,
            ExifTag::GPSDestLongitude => 0x0016,
            ExifTag::GPSDestBearingRef => 0x0017,
            ExifTag::GPSDestBearing => 0x0018,
            ExifTag::GPSDestDistanceRef => 0x0019,
            ExifTag::GPSDestDistance => 0x001a,
            ExifTag::GPSProcessingMethod => 0x001b,
            ExifTag::GPSAreaInformation => 0x001c,
            ExifTag::GPSDateStamp => 0x001d,
            ExifTag::GPSDifferential => 0x001e,
        }
    }
}

} // verus!
