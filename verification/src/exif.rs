//! The descriptor table: what each recognised tag code is expected to hold,
//! and how its value is put into words.

use vstd::prelude::*;
use crate::types::{ExifTag, IfdFormat};

verus! {

/// The ways in which a value is put into words, one for each readable-text
/// function of this library.
#[derive(Copy, Clone, Debug, PartialEq, Eq, Structural)]
pub enum Readable {
    Nop,
    Strpass,
    Orientation,
    RationalValue,
    RationalValues,
    ResolutionUnit,
    ExposureTime,
    FNumber,
    ExposureProgram,
    FocalLength,
    FocalLength35,
    Meters,
    IsoSpeeds,
    Dms,
    GpsAltRef,
    GpsDestDistanceRef,
    GpsDestDistance,
    GpsSpeedRef,
    GpsSpeed,
    GpsBearingRef,
    GpsBearing,
    GpsTimeStamp,
    GpsDiff,
    GpsStatus,
    GpsMeasureMode,
    UndefinedAsAscii,
    UndefinedAsU8,
    UndefinedAsEncodedString,
    UndefinedAsBlob,
    ApexTv,
    ApexAv,
    ApexBrightness,
    ApexEv,
    FileSource,
    FlashEnergy,
    MeteringMode,
    LightSource,
    ColorSpace,
    Flash,
    SubjectArea,
    SubjectLocation,
}

/// The schema of one tag code.
#[derive(Copy, Clone, Debug)]
pub struct TagDescriptor {
    /// The tag's identity, or `UnknownToMe`.
    pub tag: ExifTag,
    /// The unit of the value; `"none"` where it has none.
    pub unit: &'static str,
    /// The format that the entry must have.
    pub format: IfdFormat,
    /// The least count that the entry may have; -1 where the count is free,
    /// as for text.
    pub min_count: i32,
    /// The greatest count that the entry may have.
    pub max_count: i32,
    /// How the value is put into words.
    pub readable: Readable,
}

impl TagDescriptor {
    /// Whether a format and a count meet this schema: the format is the
    /// expected one, and the count lies in the expected range where there is
    /// one.
    pub open spec fn admits(self, format: IfdFormat, count: u32) -> bool {
        &&& format == self.format
        &&& (self.min_count != -1 ==> self.min_count <= count <= self.max_count)
    }

    /// Whether the schema is one that a table may hold: a recognised tag
    /// has the code that it was looked up by, a free count goes with text or
    /// opaque bytes, and text has a free count.
    pub open spec fn consistent(self, code: u16) -> bool {
        self.tag != ExifTag::UnknownToMe ==> {
            &&& self.tag.spec_code() % 0x1_0000 == code
            &&& (self.min_count == -1 ==> self.format == IfdFormat::Ascii || self.format
                == IfdFormat::Undefined || self.format == IfdFormat::Unknown)
            &&& (self.format == IfdFormat::Ascii ==> self.min_count == -1)
            &&& (self.min_count != -1 ==> 0 <= self.min_count <= self.max_count)
        }
    }
}

/// The schema of a tag code; that of `UnknownToMe` for a code that the
/// table does not hold.
pub open spec fn spec_tag_to_exif(f: u16) -> TagDescriptor {
    match f {
        0x010e => TagDescriptor {
            tag: ExifTag::ImageDescription,
            unit: "none",
            format: IfdFormat::Ascii,
            min_count: -1i32,
            max_count: -1i32,
            readable: Readable::Strpass,
        },
        0x010f => TagDescriptor {
            tag: ExifTag::Make,
            unit: "none",
            format: IfdFormat::Ascii,
            min_count: -1i32,
            max_count: -1i32,
            readable: Readable::Strpass,
        },
        0x0110 => TagDescriptor {
            tag: ExifTag::Model,
            unit: "none",
            format: IfdFormat::Ascii,
            min_count: -1i32,
            max_count: -1i32,
            readable: Readable::Strpass,
        },
        0x0112 => TagDescriptor {
            tag: ExifTag::Orientation,
            unit: "none",
            format: IfdFormat::U16,
            min_count: 1i32,
            max_count: 1i32,
            readable: Readable::Orientation,
        },
        0x011a => TagDescriptor {
            tag: ExifTag::XResolution,
            unit: "pixels per res unit",
            format: IfdFormat::URational,
            min_count: 1i32,
            max_count: 1i32,
            readable: Readable::RationalValue,
        },
        0x011b => TagDescriptor {
            tag: ExifTag::YResolution,
            unit: "pixels per res unit",
            format: IfdFormat::URational,
            min_count: 1i32,
            max_count: 1i32,
            readable: Readable::RationalValue,
        },
        0x0128 => TagDescriptor {
            tag: ExifTag::ResolutionUnit,
            unit: "none",
            format: IfdFormat::U16,
            min_count: 1i32,
            max_count: 1i32,
            readable: Readable::ResolutionUnit,
        },
        0x0131 => TagDescriptor {
            tag: ExifTag::Software,
            unit: "none",
            format: IfdFormat::Ascii,
            min_count: -1i32,
            max_count: -1i32,
            readable: Readable::Strpass,
        },
        0x0132 => TagDescriptor {
            tag: ExifTag::DateTime,
            unit: "none",
            format: IfdFormat::Ascii,
            min_count: -1i32,
            max_count: -1i32,
            readable: Readable::Strpass,
        },
        0x013c => TagDescriptor {
            tag: ExifTag::HostComputer,
            unit: "none",
            format: IfdFormat::Ascii,
            min_count: -1i32,
            max_count: -1i32,
            readable: Readable::Strpass,
        },
        0x013e => TagDescriptor {
            tag: ExifTag::WhitePoint,
            unit: "CIE 1931 coordinates",
            format: IfdFormat::URational,
            min_count: 2i32,
            max_count: 2i32,
            readable: Readable::RationalValues,
        },
        0x013f => TagDescriptor {
            tag: ExifTag::PrimaryChromaticities,
            unit: "CIE 1931 coordinates",
            format: IfdFormat::URational,
            min_count: 6i32,
            max_count: 6i32,
            readable: Readable::RationalValues,
        },
        0x0211 => TagDescriptor {
            tag: ExifTag::YCbCrCoefficients,
            unit: "none",
            format: IfdFormat::URational,
            min_count: 3i32,
            max_count: 3i32,
            readable: Readable::RationalValues,
        },
        0x0214 => TagDescriptor {
            tag: ExifTag::ReferenceBlackWhite,
            unit: "RGB or YCbCr",
            format: IfdFormat::URational,
            min_count: 6i32,
            max_count: 6i32,
            readable: Readable::RationalValues,
        },
        0x8298 => TagDescriptor {
            tag: ExifTag::Copyright,
            unit: "none",
            format: IfdFormat::Ascii,
            min_count: -1i32,
            max_count: -1i32,
            readable: Readable::Strpass,
        },
        0x8769 => TagDescriptor {
            tag: ExifTag::ExifOffset,
            unit: "byte offset",
            format: IfdFormat::U32,
            min_count: 1i32,
            max_count: 1i32,
            readable: Readable::Strpass,
        },
        0x8825 => TagDescriptor {
            tag: ExifTag::GPSOffset,
            unit: "byte offset",
            format: IfdFormat::U32,
            min_count: 1i32,
            max_count: 1i32,
            readable: Readable::Strpass,
        },
        0x829a => TagDescriptor {
            tag: ExifTag::ExposureTime,
            unit: "s",
            format: IfdFormat::URational,
            min_count: 1i32,
            max_count: 1i32,
            readable: Readable::ExposureTime,
        },
        0x829d => TagDescriptor {
            tag: ExifTag::FNumber,
            unit: "f-number",
            format: IfdFormat::URational,
            min_count: 1i32,
            max_count: 1i32,
            readable: Readable::FNumber,
        },
        0x8822 => TagDescriptor {
            tag: ExifTag::ExposureProgram,
            unit: "none",
            format: IfdFormat::U16,
            min_count: 1i32,
            max_count: 1i32,
            readable: Readable::ExposureProgram,
        },
        0x8824 => TagDescriptor {
            tag: ExifTag::SpectralSensitivity,
            unit: "ASTM string",
            format: IfdFormat::Ascii,
            min_count: -1i32,
            max_count: -1i32,
            readable: Readable::Strpass,
        },
        0x8827 => TagDescriptor {
            tag: ExifTag::ISOSpeedRatings,
            unit: "ISO",
            format: IfdFormat::U16,
            min_count: 1i32,
            max_count: 3i32,
            readable: Readable::IsoSpeeds,
        },
        0x8828 => TagDescriptor {
            tag: ExifTag::OECF,
            unit: "none",
            format: IfdFormat::Undefined,
            min_count: -1i32,
            max_count: -1i32,
            readable: Readable::UndefinedAsBlob,
        },
        0x8830 => TagDescriptor {
            tag: ExifTag::SensitivityType,
            unit: "none",
            format: IfdFormat::U16,
            min_count: 1i32,
            max_count: 1i32,
            readable: Readable::Strpass,
        },
        0x9000 => TagDescriptor {
            tag: ExifTag::ExifVersion,
            unit: "none",
            format: IfdFormat::Undefined,
            min_count: -1i32,
            max_count: -1i32,
            readable: Readable::UndefinedAsAscii,
        },
        0x9003 => TagDescriptor {
            tag: ExifTag::DateTimeOriginal,
            unit: "none",
            format: IfdFormat::Ascii,
            min_count: -1i32,
            max_count: -1i32,
            readable: Readable::Strpass,
        },
        0x9004 => TagDescriptor {
            tag: ExifTag::DateTimeDigitized,
            unit: "none",
            format: IfdFormat::Ascii,
            min_count: -1i32,
            max_count: -1i32,
            readable: Readable::Strpass,
        },
        0x9201 => TagDescriptor {
            tag: ExifTag::ShutterSpeedValue,
            unit: "APEX",
            format: IfdFormat::IRational,
            min_count: 1i32,
            max_count: 1i32,
            readable: Readable::ApexTv,
        },
        0x9202 => TagDescriptor {
            tag: ExifTag::ApertureValue,
            unit: "APEX",
            format: IfdFormat::URational,
            min_count: 1i32,
            max_count: 1i32,
            readable: Readable::ApexAv,
        },
        0x9203 => TagDescriptor {
            tag: ExifTag::BrightnessValue,
            unit: "APEX",
            format: IfdFormat::IRational,
            min_count: 1i32,
            max_count: 1i32,
            readable: Readable::ApexBrightness,
        },
        0x9204 => TagDescriptor {
            tag: ExifTag::ExposureBiasValue,
            unit: "APEX",
            format: IfdFormat::IRational,
            min_count: 1i32,
            max_count: 1i32,
            readable: Readable::ApexEv,
        },
        0x9205 => TagDescriptor {
            tag: ExifTag::MaxApertureValue,
            unit: "APEX",
            format: IfdFormat::URational,
            min_count: 1i32,
            max_count: 1i32,
            readable: Readable::ApexAv,
        },
        0x9206 => TagDescriptor {
            tag: ExifTag::SubjectDistance,
            unit: "m",
            format: IfdFormat::URational,
            min_count: 1i32,
            max_count: 1i32,
            readable: Readable::Meters,
        },
        0x9207 => TagDescriptor {
            tag: ExifTag::MeteringMode,
            unit: "none",
            format: IfdFormat::U16,
            min_count: 1i32,
            max_count: 1i32,
            readable: Readable::MeteringMode,
        },
        0x9208 => TagDescriptor {
            tag: ExifTag::LightSource,
            unit: "none",
            format: IfdFormat::U16,
            min_count: 1i32,
            max_count: 1i32,
            readable: Readable::LightSource,
        },
        0x9209 => TagDescriptor {
            tag: ExifTag::Flash,
            unit: "none",
            format: IfdFormat::U16,
            min_count: 1i32,
            max_count: 2i32,
            readable: Readable::Flash,
        },
        0x920a => TagDescriptor {
            tag: ExifTag::FocalLength,
            unit: "mm",
            format: IfdFormat::URational,
            min_count: 1i32,
            max_count: 1i32,
            readable: Readable::FocalLength,
        },
        0x9214 => TagDescriptor {
            tag: ExifTag::SubjectArea,
            unit: "px",
            format: IfdFormat::U16,
            min_count: 2i32,
            max_count: 4i32,
            readable: Readable::SubjectArea,
        },
        0x927c => TagDescriptor {
            tag: ExifTag::MakerNote,
            unit: "none",
            format: IfdFormat::Undefined,
            min_count: -1i32,
            max_count: -1i32,
            readable: Readable::UndefinedAsBlob,
        },
        0x9286 => TagDescriptor {
            tag: ExifTag::UserComment,
            unit: "none",
            format: IfdFormat::Undefined,
            min_count: -1i32,
            max_count: -1i32,
            readable: Readable::UndefinedAsEncodedString,
        },
        0xa000 => TagDescriptor {
            tag: ExifTag::FlashPixVersion,
            unit: "none",
            format: IfdFormat::Undefined,
            min_count: -1i32,
            max_count: -1i32,
            readable: Readable::UndefinedAsAscii,
        },
        0xa001 => TagDescriptor {
            tag: ExifTag::ColorSpace,
            unit: "none",
            format: IfdFormat::U16,
            min_count: 1i32,
            max_count: 1i32,
            readable: Readable::ColorSpace,
        },
        0xa004 => TagDescriptor {
            tag: ExifTag::RelatedSoundFile,
            unit: "none",
            format: IfdFormat::Ascii,
            min_count: -1i32,
            max_count: -1i32,
            readable: Readable::Strpass,
        },
        0xa20b => TagDescriptor {
            tag: ExifTag::FlashEnergy,
            unit: "BCPS",
            format: IfdFormat::URational,
            min_count: 1i32,
            max_count: 1i32,
            readable: Readable::FlashEnergy,
        },
        0xa20e => TagDescriptor {
            tag: ExifTag::FocalPlaneXResolution,
            unit: "@FocalPlaneResolutionUnit",
            format: IfdFormat::URational,
            min_count: 1i32,
            max_count: 1i32,
            readable: Readable::RationalValue,
        },
        0xa20f => TagDescriptor {
            tag: ExifTag::FocalPlaneYResolution,
            unit: "@FocalPlaneResolutionUnit",
            format: IfdFormat::URational,
            min_count: 1i32,
            max_count: 1i32,
            readable: Readable::RationalValue,
        },
        0xa210 => TagDescriptor {
            tag: ExifTag::FocalPlaneResolutionUnit,
            unit: "none",
            format: IfdFormat::U16,
            min_count: 1i32,
            max_count: 1i32,
            readable: Readable::ResolutionUnit,
        },
        0xa214 => TagDescriptor {
            tag: ExifTag::SubjectLocation,
            unit: "X,Y",
            format: IfdFormat::U16,
            min_count: 2i32,
            max_count: 2i32,
            readable: Readable::SubjectLocation,
        },
        0xa215 => TagDescriptor {
            tag: ExifTag::ExposureIndex,
            unit: "EI",
            format: IfdFormat::URational,
            min_count: 1i32,
            max_count: 1i32,
            readable: Readable::RationalValue,
        },
        0xa217 => TagDescriptor {
            tag: ExifTag::SensingMethod,
            unit: "none",
            format: IfdFormat::U16,
            min_count: 1i32,
            max_count: 1i32,
            readable: Readable::Strpass,
        },
        0xa300 => TagDescriptor {
            tag: ExifTag::FileSource,
            unit: "none",
            format: IfdFormat::Undefined,
            min_count: 1i32,
            max_count: 1i32,
            readable: Readable::FileSource,
        },
        0xa301 => TagDescriptor {
            tag: ExifTag::SceneType,
            unit: "none",
            format: IfdFormat::Undefined,
            min_count: 1i32,
            max_count: 1i32,
            readable: Readable::UndefinedAsU8,
        },
        0xa302 => TagDescriptor {
            tag: ExifTag::CFAPattern,
            unit: "none",
            format: IfdFormat::Undefined,
            min_count: -1i32,
            max_count: -1i32,
            readable: Readable::UndefinedAsU8,
        },
        0xa401 => TagDescriptor {
            tag: ExifTag::CustomRendered,
            unit: "none",
            format: IfdFormat::U16,
            min_count: 1i32,
            max_count: 1i32,
            readable: Readable::Strpass,
        },
        0xa402 => TagDescriptor {
            tag: ExifTag::ExposureMode,
            unit: "none",
            format: IfdFormat::U16,
            min_count: 1i32,
            max_count: 1i32,
            readable: Readable::Strpass,
        },
        0xa403 => TagDescriptor {
            tag: ExifTag::WhiteBalanceMode,
            unit: "none",
            format: IfdFormat::U16,
            min_count: 1i32,
            max_count: 1i32,
            readable: Readable::Strpass,
        },
        0xa404 => TagDescriptor {
            tag: ExifTag::DigitalZoomRatio,
            unit: "none",
            format: IfdFormat::URational,
            min_count: 1i32,
            max_count: 1i32,
            readable: Readable::RationalValue,
        },
        0xa405 => TagDescriptor {
            tag: ExifTag::FocalLengthIn35mmFilm,
            unit: "mm",
            format: IfdFormat::U16,
            min_count: 1i32,
            max_count: 1i32,
            readable: Readable::FocalLength35,
        },
        0xa406 => TagDescriptor {
            tag: ExifTag::SceneCaptureType,
            unit: "none",
            format: IfdFormat::U16,
            min_count: 1i32,
            max_count: 1i32,
            readable: Readable::Strpass,
        },
        0xa407 => TagDescriptor {
            tag: ExifTag::GainControl,
            unit: "none",
            format: IfdFormat::U16,
            min_count: 1i32,
            max_count: 1i32,
            readable: Readable::Strpass,
        },
        0xa408 => TagDescriptor {
            tag: ExifTag::Contrast,
            unit: "none",
            format: IfdFormat::U16,
            min_count: 1i32,
            max_count: 1i32,
            readable: Readable::Strpass,
        },
        0xa409 => TagDescriptor {
            tag: ExifTag::Saturation,
            unit: "none",
            format: IfdFormat::U16,
            min_count: 1i32,
            max_count: 1i32,
            readable: Readable::Strpass,
        },
        0xa40a => TagDescriptor {
            tag: ExifTag::Sharpness,
            unit: "none",
            format: IfdFormat::U16,
            min_count: 1i32,
            max_count: 1i32,
            readable: Readable::Strpass,
        },
        0xa40b => TagDescriptor {
            tag: ExifTag::DeviceSettingDescription,
            unit: "none",
            format: IfdFormat::Undefined,
            min_count: -1i32,
            max_count: -1i32,
            readable: Readable::UndefinedAsBlob,
        },
        0xa40c => TagDescriptor {
            tag: ExifTag::SubjectDistanceRange,
            unit: "none",
            format: IfdFormat::U16,
            min_count: 1i32,
            max_count: 1i32,
            readable: Readable::Strpass,
        },
        0xa420 => TagDescriptor {
            tag: ExifTag::ImageUniqueID,
            unit: "none",
            format: IfdFormat::Ascii,
            min_count: -1i32,
            max_count: -1i32,
            readable: Readable::Strpass,
        },
        0xa432 => TagDescriptor {
            tag: ExifTag::LensSpecification,
            unit: "none",
            format: IfdFormat::URational,
            min_count: 4i32,
            max_count: 4i32,
            readable: Readable::RationalValues,
        },
        0xa433 => TagDescriptor {
            tag: ExifTag::LensMake,
            unit: "none",
            format: IfdFormat::Ascii,
            min_count: -1i32,
            max_count: -1i32,
            readable: Readable::Strpass,
        },
        0xa434 => TagDescriptor {
            tag: ExifTag::LensModel,
            unit: "none",
            format: IfdFormat::Ascii,
            min_count: -1i32,
            max_count: -1i32,
            readable: Readable::Strpass,
        },
        0xa500 => TagDescriptor {
            tag: ExifTag::Gamma,
            unit: "none",
            format: IfdFormat::URational,
            min_count: 1i32,
            max_count: 1i32,
            readable: Readable::RationalValue,
        },
        0x0000 => TagDescriptor {
            tag: ExifTag::GPSVersionID,
            unit: "none",
            format: IfdFormat::U8,
            min_count: 4i32,
            max_count: 4i32,
            readable: Readable::Strpass,
        },
        0x0001 => TagDescriptor {
            tag: ExifTag::GPSLatitudeRef,
            unit: "none",
            format: IfdFormat::Ascii,
            min_count: -1i32,
            max_count: -1i32,
            readable: Readable::Strpass,
        },
        0x0002 => TagDescriptor {
            tag: ExifTag::GPSLatitude,
            unit: "D/M/S",
            format: IfdFormat::URational,
            min_count: 3i32,
            max_count: 3i32,
            readable: Readable::Dms,
        },
        0x0003 => TagDescriptor {
            tag: ExifTag::GPSLongitudeRef,
            unit: "none",
            format: IfdFormat::Ascii,
            min_count: -1i32,
            max_count: -1i32,
            readable: Readable::Strpass,
        },
        0x0004 => TagDescriptor {
            tag: ExifTag::GPSLongitude,
            unit: "D/M/S",
            format: IfdFormat::URational,
            min_count: 3i32,
            max_count: 3i32,
            readable: Readable::Dms,
        },
        0x0005 => TagDescriptor {
            tag: ExifTag::GPSAltitudeRef,
            unit: "none",
            format: IfdFormat::U8,
            min_count: 1i32,
            max_count: 1i32,
            readable: Readable::GpsAltRef,
        },
        0x0006 => TagDescriptor {
            tag: ExifTag::GPSAltitude,
            unit: "m",
            format: IfdFormat::URational,
            min_count: 1i32,
            max_count: 1i32,
            readable: Readable::Meters,
        },
        0x0007 => TagDescriptor {
            tag: ExifTag::GPSTimeStamp,
            unit: "UTC time",
            format: IfdFormat::URational,
            min_count: 3i32,
            max_count: 3i32,
            readable: Readable::GpsTimeStamp,
        },
        0x0008 => TagDescriptor {
            tag: ExifTag::GPSSatellites,
            unit: "none",
            format: IfdFormat::Ascii,
            min_count: -1i32,
            max_count: -1i32,
            readable: Readable::Strpass,
        },
        0x0009 => TagDescriptor {
            tag: ExifTag::GPSStatus,
            unit: "none",
            format: IfdFormat::Ascii,
            min_count: -1i32,
            max_count: -1i32,
            readable: Readable::GpsStatus,
        },
        0x000a => TagDescriptor {
            tag: ExifTag::GPSMeasureMode,
            unit: "none",
            format: IfdFormat::Ascii,
            min_count: -1i32,
            max_count: -1i32,
            readable: Readable::GpsMeasureMode,
        },
        0x000b => TagDescriptor {
            tag: ExifTag::GPSDOP,
            unit: "none",
            format: IfdFormat::URational,
            min_count: 1i32,
            max_count: 1i32,
            readable: Readable::RationalValue,
        },
        0x000c => TagDescriptor {
            tag: ExifTag::GPSSpeedRef,
            unit: "none",
            format: IfdFormat::Ascii,
            min_count: -1i32,
            max_count: -1i32,
            readable: Readable::GpsSpeedRef,
        },
        0x000d => TagDescriptor {
            tag: ExifTag::GPSSpeed,
            unit: "@GPSSpeedRef",
            format: IfdFormat::URational,
            min_count: 1i32,
            max_count: 1i32,
            readable: Readable::GpsSpeed,
        },
        0x000e => TagDescriptor {
            tag: ExifTag::GPSTrackRef,
            unit: "none",
            format: IfdFormat::Ascii,
            min_count: -1i32,
            max_count: -1i32,
            readable: Readable::GpsBearingRef,
        },
        0x000f => TagDescriptor {
            tag: ExifTag::GPSTrack,
            unit: "deg",
            format: IfdFormat::URational,
            min_count: 1i32,
            max_count: 1i32,
            readable: Readable::GpsBearing,
        },
        0x0010 => TagDescriptor {
            tag: ExifTag::GPSImgDirectionRef,
            unit: "none",
            format: IfdFormat::Ascii,
            min_count: -1i32,
            max_count: -1i32,
            readable: Readable::GpsBearingRef,
        },
        0x0011 => TagDescriptor {
            tag: ExifTag::GPSImgDirection,
            unit: "deg",
            format: IfdFormat::URational,
            min_count: 1i32,
            max_count: 1i32,
            readable: Readable::GpsBearing,
        },
        0x0012 => TagDescriptor {
            tag: ExifTag::GPSMapDatum,
            unit: "none",
            format: IfdFormat::Ascii,
            min_count: -1i32,
            max_count: -1i32,
            readable: Readable::Strpass,
        },
        0x0013 => TagDescriptor {
            tag: ExifTag::GPSDestLatitudeRef,
            unit: "none",
            format: IfdFormat::Ascii,
            min_count: -1i32,
            max_count: -1i32,
            readable: Readable::Strpass,
        },
        0x0014 => TagDescriptor {
            tag: ExifTag::GPSDestLatitude,
            unit: "D/M/S",
            format: IfdFormat::URational,
            min_count: 3i32,
            max_count: 3i32,
            readable: Readable::Dms,
        },
        0x0015 => TagDescriptor {
            tag: ExifTag::GPSDestLongitudeRef,
            unit: "none",
            format: IfdFormat::Ascii,
            min_count: -1i32,
            max_count: -1i32,
            readable: Readable::Strpass,
        },
        0x0016 => TagDescriptor {
            tag: ExifTag::GPSDestLongitude,
            unit: "D/M/S",
            format: IfdFormat::URational,
            min_count: 3i32,
            max_count: 3i32,
            readable: Readable::Dms,
        },
        0x0017 => TagDescriptor {
            tag: ExifTag::GPSDestBearingRef,
            unit: "none",
            format: IfdFormat::Ascii,
            min_count: -1i32,
            max_count: -1i32,
            readable: Readable::GpsBearingRef,
        },
        0x0018 => TagDescriptor {
            tag: ExifTag::GPSDestBearing,
            unit: "deg",
            format: IfdFormat::URational,
            min_count: 1i32,
            max_count: 1i32,
            readable: Readable::GpsBearing,
        },
        0x0019 => TagDescriptor {
            tag: ExifTag::GPSDestDistanceRef,
            unit: "none",
            format: IfdFormat::Ascii,
            min_count: -1i32,
            max_count: -1i32,
            readable: Readable::GpsDestDistanceRef,
        },
        0x001a => TagDescriptor {
            tag: ExifTag::GPSDestDistance,
            unit: "@GPSDestDistanceRef",
            format: IfdFormat::URational,
            min_count: 1i32,
            max_count: 1i32,
            readable: Readable::GpsDestDistance,
        },
        0x001b => TagDescriptor {
            tag: ExifTag::GPSProcessingMethod,
            unit: "none",
            format: IfdFormat::Undefined,
            min_count: -1i32,
            max_count: -1i32,
            readable: Readable::UndefinedAsEncodedString,
        },
        0x001c => TagDescriptor {
            tag: ExifTag::GPSAreaInformation,
            unit: "none",
            format: IfdFormat::Undefined,
            min_count: -1i32,
            max_count: -1i32,
            readable: Readable::UndefinedAsEncodedString,
        },
        0x001d => TagDescriptor {
            tag: ExifTag::GPSDateStamp,
            unit: "none",
            format: IfdFormat::Ascii,
            min_count: -1i32,
            max_count: -1i32,
            readable: Readable::Strpass,
        },
        0x001e => TagDescriptor {
            tag: ExifTag::GPSDifferential,
            unit: "none",
            format: IfdFormat::U16,
            min_count: 1i32,
            max_count: 1i32,
            readable: Readable::GpsDiff,
        },
        _ => TagDescriptor {
            tag: ExifTag::UnknownToMe,
            unit: "Unknown unit",
            format: IfdFormat::Unknown,
            min_count: -1i32,
            max_count: -1i32,
            readable: Readable::Nop,
        },
    }
}

/// Looks up the schema of a tag code.
pub fn tag_to_exif(f: u16) -> (d: TagDescriptor)
    ensures
        d == spec_tag_to_exif(f),
        d.consistent(f),
{
    match f {
        0x010e => TagDescriptor {
            tag: ExifTag::ImageDescription,
            unit: "none",
            format: IfdFormat::Ascii,
            min_count: -1i32,
            max_count: -1i32,
            readable: Readable::Strpass,
        },
        0x010f => TagDescriptor {
            tag: ExifTag::Make,
            unit: "none",
            format: IfdFormat::Ascii,
            min_count: -1i32,
            max_count: -1i32,
            readable: Readable::Strpass,
        },
        0x0110 => TagDescriptor {
            tag: ExifTag::Model,
            unit: "none",
            format: IfdFormat::Ascii,
            min_count: -1i32,
            max_count: -1i32,
            readable: Readable::Strpass,
        },
        0x0112 => TagDescriptor {
            tag: ExifTag::Orientation,
            unit: "none",
            format: IfdFormat::U16,
            min_count: 1i32,
            max_count: 1i32,
            readable: Readable::Orientation,
        },
        0x011a => TagDescriptor {
            tag: ExifTag::XResolution,
            unit: "pixels per res unit",
            format: IfdFormat::URational,
            min_count: 1i32,
            max_count: 1i32,
            readable: Readable::RationalValue,
        },
        0x011b => TagDescriptor {
            tag: ExifTag::YResolution,
            unit: "pixels per res unit",
            format: IfdFormat::URational,
            min_count: 1i32,
            max_count: 1i32,
            readable: Readable::RationalValue,
        },
        0x0128 => TagDescriptor {
            tag: ExifTag::ResolutionUnit,
            unit: "none",
            format: IfdFormat::U16,
            min_count: 1i32,
            max_count: 1i32,
            readable: Readable::ResolutionUnit,
        },
        0x0131 => TagDescriptor {
            tag: ExifTag::Software,
            unit: "none",
            format: IfdFormat::Ascii,
            min_count: -1i32,
            max_count: -1i32,
            readable: Readable::Strpass,
        },
        0x0132 => TagDescriptor {
            tag: ExifTag::DateTime,
            unit: "none",
            format: IfdFormat::Ascii,
            min_count: -1i32,
            max_count: -1i32,
            readable: Readable::Strpass,
        },
        0x013c => TagDescriptor {
            tag: ExifTag::HostComputer,
            unit: "none",
            format: IfdFormat::Ascii,
            min_count: -1i32,
            max_count: -1i32,
            readable: Readable::Strpass,
        },
        0x013e => TagDescriptor {
            tag: ExifTag::WhitePoint,
            unit: "CIE 1931 coordinates",
            format: IfdFormat::URational,
            min_count: 2i32,
            max_count: 2i32,
            readable: Readable::RationalValues,
        },
        0x013f => TagDescriptor {
            tag: ExifTag::PrimaryChromaticities,
            unit: "CIE 1931 coordinates",
            format: IfdFormat::URational,
            min_count: 6i32,
            max_count: 6i32,
            readable: Readable::RationalValues,
        },
        0x0211 => TagDescriptor {
            tag: ExifTag::YCbCrCoefficients,
            unit: "none",
            format: IfdFormat::URational,
            min_count: 3i32,
            max_count: 3i32,
            readable: Readable::RationalValues,
        },
        0x0214 => TagDescriptor {
            tag: ExifTag::ReferenceBlackWhite,
            unit: "RGB or YCbCr",
            format: IfdFormat::URational,
            min_count: 6i32,
            max_count: 6i32,
            readable: Readable::RationalValues,
        },
        0x8298 => TagDescriptor {
            tag: ExifTag::Copyright,
            unit: "none",
            format: IfdFormat::Ascii,
            min_count: -1i32,
            max_count: -1i32,
            readable: Readable::Strpass,
        },
        0x8769 => TagDescriptor {
            tag: ExifTag::ExifOffset,
            unit: "byte offset",
            format: IfdFormat::U32,
            min_count: 1i32,
            max_count: 1i32,
            readable: Readable::Strpass,
        },
        0x8825 => TagDescriptor {
            tag: ExifTag::GPSOffset,
            unit: "byte offset",
            format: IfdFormat::U32,
            min_count: 1i32,
            max_count: 1i32,
            readable: Readable::Strpass,
        },
        0x829a => TagDescriptor {
            tag: ExifTag::ExposureTime,
            unit: "s",
            format: IfdFormat::URational,
            min_count: 1i32,
            max_count: 1i32,
            readable: Readable::ExposureTime,
        },
        0x829d => TagDescriptor {
            tag: ExifTag::FNumber,
            unit: "f-number",
            format: IfdFormat::URational,
            min_count: 1i32,
            max_count: 1i32,
            readable: Readable::FNumber,
        },
        0x8822 => TagDescriptor {
            tag: ExifTag::ExposureProgram,
            unit: "none",
            format: IfdFormat::U16,
            min_count: 1i32,
            max_count: 1i32,
            readable: Readable::ExposureProgram,
        },
        0x8824 => TagDescriptor {
            tag: ExifTag::SpectralSensitivity,
            unit: "ASTM string",
            format: IfdFormat::Ascii,
            min_count: -1i32,
            max_count: -1i32,
            readable: Readable::Strpass,
        },
        0x8827 => TagDescriptor {
            tag: ExifTag::ISOSpeedRatings,
            unit: "ISO",
            format: IfdFormat::U16,
            min_count: 1i32,
            max_count: 3i32,
            readable: Readable::IsoSpeeds,
        },
        0x8828 => TagDescriptor {
            tag: ExifTag::OECF,
            unit: "none",
            format: IfdFormat::Undefined,
            min_count: -1i32,
            max_count: -1i32,
            readable: Readable::UndefinedAsBlob,
        },
        0x8830 => TagDescriptor {
            tag: ExifTag::SensitivityType,
            unit: "none",
            format: IfdFormat::U16,
            min_count: 1i32,
            max_count: 1i32,
            readable: Readable::Strpass,
        },
        0x9000 => TagDescriptor {
            tag: ExifTag::ExifVersion,
            unit: "none",
            format: IfdFormat::Undefined,
            min_count: -1i32,
            max_count: -1i32,
            readable: Readable::UndefinedAsAscii,
        },
        0x9003 => TagDescriptor {
            tag: ExifTag::DateTimeOriginal,
            unit: "none",
            format: IfdFormat::Ascii,
            min_count: -1i32,
            max_count: -1i32,
            readable: Readable::Strpass,
        },
        0x9004 => TagDescriptor {
            tag: ExifTag::DateTimeDigitized,
            unit: "none",
            format: IfdFormat::Ascii,
            min_count: -1i32,
            max_count: -1i32,
            readable: Readable::Strpass,
        },
        0x9201 => TagDescriptor {
            tag: ExifTag::ShutterSpeedValue,
            unit: "APEX",
            format: IfdFormat::IRational,
            min_count: 1i32,
            max_count: 1i32,
            readable: Readable::ApexTv,
        },
        0x9202 => TagDescriptor {
            tag: ExifTag::ApertureValue,
            unit: "APEX",
            format: IfdFormat::URational,
            min_count: 1i32,
            max_count: 1i32,
            readable: Readable::ApexAv,
        },
        0x9203 => TagDescriptor {
            tag: ExifTag::BrightnessValue,
            unit: "APEX",
            format: IfdFormat::IRational,
            min_count: 1i32,
            max_count: 1i32,
            readable: Readable::ApexBrightness,
        },
        0x9204 => TagDescriptor {
            tag: ExifTag::ExposureBiasValue,
            unit: "APEX",
            format: IfdFormat::IRational,
            min_count: 1i32,
            max_count: 1i32,
            readable: Readable::ApexEv,
        },
        0x9205 => TagDescriptor {
            tag: ExifTag::MaxApertureValue,
            unit: "APEX",
            format: IfdFormat::URational,
            min_count: 1i32,
            max_count: 1i32,
            readable: Readable::ApexAv,
        },
        0x9206 => TagDescriptor {
            tag: ExifTag::SubjectDistance,
            unit: "m",
            format: IfdFormat::URational,
            min_count: 1i32,
            max_count: 1i32,
            readable: Readable::Meters,
        },
        0x9207 => TagDescriptor {
            tag: ExifTag::MeteringMode,
            unit: "none",
            format: IfdFormat::U16,
            min_count: 1i32,
            max_count: 1i32,
            readable: Readable::MeteringMode,
        },
        0x9208 => TagDescriptor {
            tag: ExifTag::LightSource,
            unit: "none",
            format: IfdFormat::U16,
            min_count: 1i32,
            max_count: 1i32,
            readable: Readable::LightSource,
        },
        0x9209 => TagDescriptor {
            tag: ExifTag::Flash,
            unit: "none",
            format: IfdFormat::U16,
            min_count: 1i32,
            max_count: 2i32,
            readable: Readable::Flash,
        },
        0x920a => TagDescriptor {
            tag: ExifTag::FocalLength,
            unit: "mm",
            format: IfdFormat::URational,
            min_count: 1i32,
            max_count: 1i32,
            readable: Readable::FocalLength,
        },
        0x9214 => TagDescriptor {
            tag: ExifTag::SubjectArea,
            unit: "px",
            format: IfdFormat::U16,
            min_count: 2i32,
            max_count: 4i32,
            readable: Readable::SubjectArea,
        },
        0x927c => TagDescriptor {
            tag: ExifTag::MakerNote,
            unit: "none",
            format: IfdFormat::Undefined,
            min_count: -1i32,
            max_count: -1i32,
            readable: Readable::UndefinedAsBlob,
        },
        0x9286 => TagDescriptor {
            tag: ExifTag::UserComment,
            unit: "none",
            format: IfdFormat::Undefined,
            min_count: -1i32,
            max_count: -1i32,
            readable: Readable::UndefinedAsEncodedString,
        },
        0xa000 => TagDescriptor {
            tag: ExifTag::FlashPixVersion,
            unit: "none",
            format: IfdFormat::Undefined,
            min_count: -1i32,
            max_count: -1i32,
            readable: Readable::UndefinedAsAscii,
        },
        0xa001 => TagDescriptor {
            tag: ExifTag::ColorSpace,
            unit: "none",
            format: IfdFormat::U16,
            min_count: 1i32,
            max_count: 1i32,
            readable: Readable::ColorSpace,
        },
        0xa004 => TagDescriptor {
            tag: ExifTag::RelatedSoundFile,
            unit: "none",
            format: IfdFormat::Ascii,
            min_count: -1i32,
            max_count: -1i32,
            readable: Readable::Strpass,
        },
        0xa20b => TagDescriptor {
            tag: ExifTag::FlashEnergy,
            unit: "BCPS",
            format: IfdFormat::URational,
            min_count: 1i32,
            max_count: 1i32,
            readable: Readable::FlashEnergy,
        },
        0xa20e => TagDescriptor {
            tag: ExifTag::FocalPlaneXResolution,
            unit: "@FocalPlaneResolutionUnit",
            format: IfdFormat::URational,
            min_count: 1i32,
            max_count: 1i32,
            readable: Readable::RationalValue,
        },
        0xa20f => TagDescriptor {
            tag: ExifTag::FocalPlaneYResolution,
            unit: "@FocalPlaneResolutionUnit",
            format: IfdFormat::URational,
            min_count: 1i32,
            max_count: 1i32,
            readable: Readable::RationalValue,
        },
        0xa210 => TagDescriptor {
            tag: ExifTag::FocalPlaneResolutionUnit,
            unit: "none",
            format: IfdFormat::U16,
            min_count: 1i32,
            max_count: 1i32,
            readable: Readable::ResolutionUnit,
        },
        0xa214 => TagDescriptor {
            tag: ExifTag::SubjectLocation,
            unit: "X,Y",
            format: IfdFormat::U16,
            min_count: 2i32,
            max_count: 2i32,
            readable: Readable::SubjectLocation,
        },
        0xa215 => TagDescriptor {
            tag: ExifTag::ExposureIndex,
            unit: "EI",
            format: IfdFormat::URational,
            min_count: 1i32,
            max_count: 1i32,
            readable: Readable::RationalValue,
        },
        0xa217 => TagDescriptor {
            tag: ExifTag::SensingMethod,
            unit: "none",
            format: IfdFormat::U16,
            min_count: 1i32,
            max_count: 1i32,
            readable: Readable::Strpass,
        },
        0xa300 => TagDescriptor {
            tag: ExifTag::FileSource,
            unit: "none",
            format: IfdFormat::Undefined,
            min_count: 1i32,
            max_count: 1i32,
            readable: Readable::FileSource,
        },
        0xa301 => TagDescriptor {
            tag: ExifTag::SceneType,
            unit: "none",
            format: IfdFormat::Undefined,
            min_count: 1i32,
            max_count: 1i32,
            readable: Readable::UndefinedAsU8,
        },
        0xa302 => TagDescriptor {
            tag: ExifTag::CFAPattern,
            unit: "none",
            format: IfdFormat::Undefined,
            min_count: -1i32,
            max_count: -1i32,
            readable: Readable::UndefinedAsU8,
        },
        0xa401 => TagDescriptor {
            tag: ExifTag::CustomRendered,
            unit: "none",
            format: IfdFormat::U16,
            min_count: 1i32,
            max_count: 1i32,
            readable: Readable::Strpass,
        },
        0xa402 => TagDescriptor {
            tag: ExifTag::ExposureMode,
            unit: "none",
            format: IfdFormat::U16,
            min_count: 1i32,
            max_count: 1i32,
            readable: Readable::Strpass,
        },
        0xa403 => TagDescriptor {
            tag: ExifTag::WhiteBalanceMode,
            unit: "none",
            format: IfdFormat::U16,
            min_count: 1i32,
            max_count: 1i32,
            readable: Readable::Strpass,
        },
        0xa404 => TagDescriptor {
            tag: ExifTag::DigitalZoomRatio,
            unit: "none",
            format: IfdFormat::URational,
            min_count: 1i32,
            max_count: 1i32,
            readable: Readable::RationalValue,
        },
        0xa405 => TagDescriptor {
            tag: ExifTag::FocalLengthIn35mmFilm,
            unit: "mm",
            format: IfdFormat::U16,
            min_count: 1i32,
            max_count: 1i32,
            readable: Readable::FocalLength35,
        },
        0xa406 => TagDescriptor {
            tag: ExifTag::SceneCaptureType,
            unit: "none",
            format: IfdFormat::U16,
            min_count: 1i32,
            max_count: 1i32,
            readable: Readable::Strpass,
        },
        0xa407 => TagDescriptor {
            tag: ExifTag::GainControl,
            unit: "none",
            format: IfdFormat::U16,
            min_count: 1i32,
            max_count: 1i32,
            readable: Readable::Strpass,
        },
        0xa408 => TagDescriptor {
            tag: ExifTag::Contrast,
            unit: "none",
            format: IfdFormat::U16,
            min_count: 1i32,
            max_count: 1i32,
            readable: Readable::Strpass,
        },
        0xa409 => TagDescriptor {
            tag: ExifTag::Saturation,
            unit: "none",
            format: IfdFormat::U16,
            min_count: 1i32,
            max_count: 1i32,
            readable: Readable::Strpass,
        },
        0xa40a => TagDescriptor {
            tag: ExifTag::Sharpness,
            unit: "none",
            format: IfdFormat::U16,
            min_count: 1i32,
            max_count: 1i32,
            readable: Readable::Strpass,
        },
        0xa40b => TagDescriptor {
            tag: ExifTag::DeviceSettingDescription,
            unit: "none",
            format: IfdFormat::Undefined,
            min_count: -1i32,
            max_count: -1i32,
            readable: Readable::UndefinedAsBlob,
        },
        0xa40c => TagDescriptor {
            tag: ExifTag::SubjectDistanceRange,
            unit: "none",
            format: IfdFormat::U16,
            min_count: 1i32,
            max_count: 1i32,
            readable: Readable::Strpass,
        },
        0xa420 => TagDescriptor {
            tag: ExifTag::ImageUniqueID,
            unit: "none",
            format: IfdFormat::Ascii,
            min_count: -1i32,
            max_count: -1i32,
            readable: Readable::Strpass,
        },
        0xa432 => TagDescriptor {
            tag: ExifTag::LensSpecification,
            unit: "none",
            format: IfdFormat::URational,
            min_count: 4i32,
            max_count: 4i32,
            readable: Readable::RationalValues,
        },
        0xa433 => TagDescriptor {
            tag: ExifTag::LensMake,
            unit: "none",
            format: IfdFormat::Ascii,
            min_count: -1i32,
            max_count: -1i32,
            readable: Readable::Strpass,
        },
        0xa434 => TagDescriptor {
            tag: ExifTag::LensModel,
            unit: "none",
            format: IfdFormat::Ascii,
            min_count: -1i32,
            max_count: -1i32,
            readable: Readable::Strpass,
        },
        0xa500 => TagDescriptor {
            tag: ExifTag::Gamma,
            unit: "none",
            format: IfdFormat::URational,
            min_count: 1i32,
            max_count: 1i32,
            readable: Readable::RationalValue,
        },
        0x0000 => TagDescriptor {
            tag: ExifTag::GPSVersionID,
            unit: "none",
            format: IfdFormat::U8,
            min_count: 4i32,
            max_count: 4i32,
            readable: Readable::Strpass,
        },
        0x0001 => TagDescriptor {
            tag: ExifTag::GPSLatitudeRef,
            unit: "none",
            format: IfdFormat::Ascii,
            min_count: -1i32,
            max_count: -1i32,
            readable: Readable::Strpass,
        },
        0x0002 => TagDescriptor {
            tag: ExifTag::GPSLatitude,
            unit: "D/M/S",
            format: IfdFormat::URational,
            min_count: 3i32,
            max_count: 3i32,
            readable: Readable::Dms,
        },
        0x0003 => TagDescriptor {
            tag: ExifTag::GPSLongitudeRef,
            unit: "none",
            format: IfdFormat::Ascii,
            min_count: -1i32,
            max_count: -1i32,
            readable: Readable::Strpass,
        },
        0x0004 => TagDescriptor {
            tag: ExifTag::GPSLongitude,
            unit: "D/M/S",
            format: IfdFormat::URational,
            min_count: 3i32,
            max_count: 3i32,
            readable: Readable::Dms,
        },
        0x0005 => TagDescriptor {
            tag: ExifTag::GPSAltitudeRef,
            unit: "none",
            format: IfdFormat::U8,
            min_count: 1i32,
            max_count: 1i32,
            readable: Readable::GpsAltRef,
        },
        0x0006 => TagDescriptor {
            tag: ExifTag::GPSAltitude,
            unit: "m",
            format: IfdFormat::URational,
            min_count: 1i32,
            max_count: 1i32,
            readable: Readable::Meters,
        },
        0x0007 => TagDescriptor {
            tag: ExifTag::GPSTimeStamp,
            unit: "UTC time",
            format: IfdFormat::URational,
            min_count: 3i32,
            max_count: 3i32,
            readable: Readable::GpsTimeStamp,
        },
        0x0008 => TagDescriptor {
            tag: ExifTag::GPSSatellites,
            unit: "none",
            format: IfdFormat::Ascii,
            min_count: -1i32,
            max_count: -1i32,
            readable: Readable::Strpass,
        },
        0x0009 => TagDescriptor {
            tag: ExifTag::GPSStatus,
            unit: "none",
            format: IfdFormat::Ascii,
            min_count: -1i32,
            max_count: -1i32,
            readable: Readable::GpsStatus,
        },
        0x000a => TagDescriptor {
            tag: ExifTag::GPSMeasureMode,
            unit: "none",
            format: IfdFormat::Ascii,
            min_count: -1i32,
            max_count: -1i32,
            readable: Readable::GpsMeasureMode,
        },
        0x000b => TagDescriptor {
            tag: ExifTag::GPSDOP,
            unit: "none",
            format: IfdFormat::URational,
            min_count: 1i32,
            max_count: 1i32,
            readable: Readable::RationalValue,
        },
        0x000c => TagDescriptor {
            tag: ExifTag::GPSSpeedRef,
            unit: "none",
            format: IfdFormat::Ascii,
            min_count: -1i32,
            max_count: -1i32,
            readable: Readable::GpsSpeedRef,
        },
        0x000d => TagDescriptor {
            tag: ExifTag::GPSSpeed,
            unit: "@GPSSpeedRef",
            format: IfdFormat::URational,
            min_count: 1i32,
            max_count: 1i32,
            readable: Readable::GpsSpeed,
        },
        0x000e => TagDescriptor {
            tag: ExifTag::GPSTrackRef,
            unit: "none",
            format: IfdFormat::Ascii,
            min_count: -1i32,
            max_count: -1i32,
            readable: Readable::GpsBearingRef,
        },
        0x000f => TagDescriptor {
            tag: ExifTag::GPSTrack,
            unit: "deg",
            format: IfdFormat::URational,
            min_count: 1i32,
            max_count: 1i32,
            readable: Readable::GpsBearing,
        },
        0x0010 => TagDescriptor {
            tag: ExifTag::GPSImgDirectionRef,
            unit: "none",
            format: IfdFormat::Ascii,
            min_count: -1i32,
            max_count: -1i32,
            readable: Readable::GpsBearingRef,
        },
        0x0011 => TagDescriptor {
            tag: ExifTag::GPSImgDirection,
            unit: "deg",
            format: IfdFormat::URational,
            min_count: 1i32,
            max_count: 1i32,
            readable: Readable::GpsBearing,
        },
        0x0012 => TagDescriptor {
            tag: ExifTag::GPSMapDatum,
            unit: "none",
            format: IfdFormat::Ascii,
            min_count: -1i32,
            max_count: -1i32,
            readable: Readable::Strpass,
        },
        0x0013 => TagDescriptor {
            tag: ExifTag::GPSDestLatitudeRef,
            unit: "none",
            format: IfdFormat::Ascii,
            min_count: -1i32,
            max_count: -1i32,
            readable: Readable::Strpass,
        },
        0x0014 => TagDescriptor {
            tag: ExifTag::GPSDestLatitude,
            unit: "D/M/S",
            format: IfdFormat::URational,
            min_count: 3i32,
            max_count: 3i32,
            readable: Readable::Dms,
        },
        0x0015 => TagDescriptor {
            tag: ExifTag::GPSDestLongitudeRef,
            unit: "none",
            format: IfdFormat::Ascii,
            min_count: -1i32,
            max_count: -1i32,
            readable: Readable::Strpass,
        },
        0x0016 => TagDescriptor {
            tag: ExifTag::GPSDestLongitude,
            unit: "D/M/S",
            format: IfdFormat::URational,
            min_count: 3i32,
            max_count: 3i32,
            readable: Readable::Dms,
        },
        0x0017 => TagDescriptor {
            tag: ExifTag::GPSDestBearingRef,
            unit: "none",
            format: IfdFormat::Ascii,
            min_count: -1i32,
            max_count: -1i32,
            readable: Readable::GpsBearingRef,
        },
        0x0018 => TagDescriptor {
            tag: ExifTag::GPSDestBearing,
            unit: "deg",
            format: IfdFormat::URational,
            min_count: 1i32,
            max_count: 1i32,
            readable: Readable::GpsBearing,
        },
        0x0019 => TagDescriptor {
            tag: ExifTag::GPSDestDistanceRef,
            unit: "none",
            format: IfdFormat::Ascii,
            min_count: -1i32,
            max_count: -1i32,
            readable: Readable::GpsDestDistanceRef,
        },
        0x001a => TagDescriptor {
            tag: ExifTag::GPSDestDistance,
            unit: "@GPSDestDistanceRef",
            format: IfdFormat::URational,
            min_count: 1i32,
            max_count: 1i32,
            readable: Readable::GpsDestDistance,
        },
        0x001b => TagDescriptor {
            tag: ExifTag::GPSProcessingMethod,
            unit: "none",
            format: IfdFormat::Undefined,
            min_count: -1i32,
            max_count: -1i32,
            readable: Readable::UndefinedAsEncodedString,
        },
        0x001c => TagDescriptor {
            tag: ExifTag::GPSAreaInformation,
            unit: "none",
            format: IfdFormat::Undefined,
            min_count: -1i32,
            max_count: -1i32,
            readable: Readable::UndefinedAsEncodedString,
        },
        0x001d => TagDescriptor {
            tag: ExifTag::GPSDateStamp,
            unit: "none",
            format: IfdFormat::Ascii,
            min_count: -1i32,
            max_count: -1i32,
            readable: Readable::Strpass,
        },
        0x001e => TagDescriptor {
            tag: ExifTag::GPSDifferential,
            unit: "none",
            format: IfdFormat::U16,
            min_count: 1i32,
            max_count: 1i32,
            readable: Readable::GpsDiff,
        },
        _ => TagDescriptor {
            tag: ExifTag::UnknownToMe,
            unit: "Unknown unit",
            format: IfdFormat::Unknown,
            min_count: -1i32,
            max_count: -1i32,
            readable: Readable::Nop,
        },
    }
}

/// Every schema of the table is consistent with the code it stands under.
pub proof fn lemma_table_consistent(f: u16)
    ensures
        spec_tag_to_exif(f).consistent(f),
{
}

} // verus!
