//! Methods of the data model: format codes and element sizes, payload
//! resolution of a raw entry, and the names and messages of tags and errors.

use vstd::prelude::*;
use vstd::slice::{slice_subrange, slice_to_vec};
use vstd::string::StringExecFns;
use crate::lowlevel::{read_u32, spec_read_u32};
use crate::types::{ExifError, ExifErrorView, ExifTag, IfdEntry, IfdEntryView, IfdFormat, Namespace};

verus! {

/// The format that a format code stands for; `Unknown` for a code that is
/// not one of the twelve defined ones.
pub open spec fn spec_ifdformat_new(n: u16) -> IfdFormat {
    match n {
        1 => IfdFormat::U8,
        2 => IfdFormat::Ascii,
        3 => IfdFormat::U16,
        4 => IfdFormat::U32,
        5 => IfdFormat::URational,
        6 => IfdFormat::I8,
        7 => IfdFormat::Undefined,
        8 => IfdFormat::I16,
        9 => IfdFormat::I32,
        10 => IfdFormat::IRational,
        11 => IfdFormat::F32,
        12 => IfdFormat::F64,
        _ => IfdFormat::Unknown,
    }
}

/// Converts a format code to the format it stands for.
pub fn ifdformat_new(n: u16) -> (r: IfdFormat)
    ensures
        r == spec_ifdformat_new(n),
{
    match n {
        1 => IfdFormat::U8,
        2 => IfdFormat::Ascii,
        3 => IfdFormat::U16,
        4 => IfdFormat::U32,
        5 => IfdFormat::URational,
        6 => IfdFormat::I8,
        7 => IfdFormat::Undefined,
        8 => IfdFormat::I16,
        9 => IfdFormat::I32,
        10 => IfdFormat::IRational,
        11 => IfdFormat::F32,
        12 => IfdFormat::F64,
        _ => IfdFormat::Unknown,
    }
}

/// The size in bytes of one element of the given format.
pub open spec fn element_size(format: IfdFormat) -> nat {
    match format {
        IfdFormat::U8 => 1,
        IfdFormat::Ascii => 1,
        IfdFormat::U16 => 2,
        IfdFormat::U32 => 4,
        IfdFormat::URational => 8,
        IfdFormat::I8 => 1,
        IfdFormat::Undefined => 1,
        IfdFormat::I16 => 2,
        IfdFormat::I32 => 4,
        IfdFormat::IRational => 8,
        IfdFormat::F32 => 4,
        IfdFormat::F64 => 8,
        IfdFormat::Unknown => 1,
    }
}

impl IfdFormat {
    /// The format's code in a directory record; 0 for `Unknown`.
    pub open spec fn spec_code(self) -> u16 {
        match self {
            IfdFormat::Unknown => 0,
            IfdFormat::U8 => 1,
            IfdFormat::Ascii => 2,
            IfdFormat::U16 => 3,
            IfdFormat::U32 => 4,
            IfdFormat::URational => 5,
            IfdFormat::I8 => 6,
            IfdFormat::Undefined => 7,
            IfdFormat::I16 => 8,
            IfdFormat::I32 => 9,
            IfdFormat::IRational => 10,
            IfdFormat::F32 => 11,
            IfdFormat::F64 => 12,
        }
    }

    /// The format's code in a directory record; 0 for `Unknown`.
    pub fn code(self) -> (r: u16)
        ensures
            r == self.spec_code(),
    {
        match self {
            IfdFormat::Unknown => 0,
            IfdFormat::U8 => 1,
            IfdFormat::Ascii => 2,
            IfdFormat::U16 => 3,
            IfdFormat::U32 => 4,
            IfdFormat::URational => 5,
            IfdFormat::I8 => 6,
            IfdFormat::Undefined => 7,
            IfdFormat::I16 => 8,
            IfdFormat::I32 => 9,
            IfdFormat::IRational => 10,
            IfdFormat::F32 => 11,
            IfdFormat::F64 => 12,
        }
    }

    /// The format's name.
    pub open spec fn spec_name(self) -> Seq<char> {
        match self {
            IfdFormat::Unknown => "Unknown"@,
            IfdFormat::U8 => "U8"@,
            IfdFormat::Ascii => "Ascii"@,
            IfdFormat::U16 => "U16"@,
            IfdFormat::U32 => "U32"@,
            IfdFormat::URational => "URational"@,
            IfdFormat::I8 => "I8"@,
            IfdFormat::Undefined => "Undefined"@,
            IfdFormat::I16 => "I16"@,
            IfdFormat::I32 => "I32"@,
            IfdFormat::IRational => "IRational"@,
            IfdFormat::F32 => "F32"@,
            IfdFormat::F64 => "F64"@,
        }
    }

    /// The format's name.
    pub fn name(self) -> (r: &'static str)
        ensures
            r@ == self.spec_name(),
    {
        match self {
            IfdFormat::Unknown => "Unknown",
            IfdFormat::U8 => "U8",
            IfdFormat::Ascii => "Ascii",
            IfdFormat::U16 => "U16",
            IfdFormat::U32 => "U32",
            IfdFormat::URational => "URational",
            IfdFormat::I8 => "I8",
            IfdFormat::Undefined => "Undefined",
            IfdFormat::I16 => "I16",
            IfdFormat::I32 => "I32",
            IfdFormat::IRational => "IRational",
            IfdFormat::F32 => "F32",
            IfdFormat::F64 => "F64",
        }
    }
}

impl Namespace {
    /// The namespace's number: the upper 16 bits of the numbers of its tags.
    pub open spec fn spec_code(self) -> u16 {
        match self {
            Namespace::Standard => 0,
            Namespace::Nikon => 1,
            Namespace::Canon => 2,
        }
    }

    /// The namespace's number: the upper 16 bits of the numbers of its tags.
    pub fn code(self) -> (r: u16)
        ensures
            r == self.spec_code(),
    {
        match self {
            Namespace::Standard => 0,
            Namespace::Nikon => 1,
            Namespace::Canon => 2,
        }
    }
}

impl IfdEntryView {
    /// The size in bytes of one element.
    pub open spec fn size(self) -> nat {
        element_size(self.format)
    }

    /// The length in bytes of the payload: element size times element count.
    pub open spec fn length(self) -> nat {
        self.size() * self.count as nat
    }

    /// Whether the payload fits the record's 4-byte slot.
    pub open spec fn in_ifd(self) -> bool {
        self.length() <= 4
    }

    /// The slot read as an offset into the whole buffer.
    pub open spec fn data_as_offset(self) -> nat
        recommends
            self.ifd_data.len() >= 4,
    {
        spec_read_u32(self.le, self.ifd_data) as nat
    }

    /// The bytes of the payload: the head of the slot when the payload fits
    /// it, else the window of `contents` that the slot points at. `None`
    /// when those bytes are not all there.
    pub open spec fn payload(self, contents: Seq<u8>) -> Option<Seq<u8>> {
        if self.in_ifd() {
            if self.length() <= self.ifd_data.len() {
                Some(self.ifd_data.subrange(0, self.length() as int))
            } else {
                None
            }
        } else if self.ifd_data.len() >= 4 && self.data_as_offset() + self.length()
            <= contents.len() {
            Some(
                contents.subrange(
                    self.data_as_offset() as int,
                    (self.data_as_offset() + self.length()) as int,
                ),
            )
        } else {
            None
        }
    }

    /// The entry with its payload resolved against `contents`.
    pub open spec fn resolved(self, contents: Seq<u8>) -> IfdEntryView
        recommends
            self.payload(contents) is Some,
    {
        IfdEntryView {
            data: self.payload(contents)->Some_0,
            ext_data: if self.in_ifd() {
                self.ext_data
            } else {
                self.payload(contents)->Some_0
            },
            ..self
        }
    }
}

impl IfdEntry {
    /// The slot read as an offset into the whole buffer. This is what the
    /// slot means for a sub-directory pointer, and for a payload that does
    /// not fit the slot.
    pub fn data_as_offset(&self) -> (r: usize)
        requires
            self.ifd_data@.len() >= 4,
        ensures
            r == self@.data_as_offset(),
    {
        read_u32(self.le, self.ifd_data.as_slice()) as usize
    }

    /// The size in bytes of one element; not that of the whole payload.
    pub fn size(&self) -> (r: u8)
        ensures
            r == self@.size(),
    {
        match self.format {
            IfdFormat::U8 => 1,
            IfdFormat::Ascii => 1,
            IfdFormat::U16 => 2,
            IfdFormat::U32 => 4,
            IfdFormat::URational => 8,
            IfdFormat::I8 => 1,
            IfdFormat::Undefined => 1,
            IfdFormat::I16 => 2,
            IfdFormat::I32 => 4,
            IfdFormat::IRational => 8,
            IfdFormat::F32 => 4,
            IfdFormat::F64 => 8,
            IfdFormat::Unknown => 1,
        }
    }

    /// The length in bytes of the payload, where the machine's `usize` can
    /// hold it.
    pub fn length(&self) -> (r: usize)
        requires
            self@.length() <= usize::MAX,
        ensures
            r == self@.length(),
    {
        (self.size() as usize) * (self.count as usize)
    }

    /// The length in bytes of the payload.
    fn wide_length(&self) -> (r: u64)
        ensures
            r == self@.length(),
    {
        assert(self@.size() * self.count as nat <= 8 * 0xffff_ffff) by (nonlinear_arith)
            requires
                self@.size() <= 8,
                self.count <= 0xffff_ffff,
        ;
        (self.size() as u64) * (self.count as u64)
    }

    /// Whether the payload fits the record's slot, rather than lying
    /// elsewhere in the buffer at the offset that the slot holds.
    pub fn in_ifd(&self) -> (r: bool)
        ensures
            r == self@.in_ifd(),
    {
        self.wide_length() <= 4
    }

    /// Resolves the payload: copies it into `data` from the slot, or from
    /// the window of `contents` that the slot points at. Returns whether the
    /// bytes were all there; when they were not, the entry is left as it was.
    pub fn copy_data(&mut self, contents: &[u8]) -> (ok: bool)
        ensures
            ok == (old(self)@.payload(contents@) is Some),
            ok ==> final(self)@ == old(self)@.resolved(contents@),
            ok ==> final(self).data@.len() == final(self)@.length(),
            !ok ==> final(self)@ == old(self)@,
    {
        let length = self.wide_length();
        if length <= 4 {
            if self.ifd_data.len() < length as usize {
                return false;
            }
            self.data = slice_to_vec(slice_subrange(self.ifd_data.as_slice(), 0, length as usize));
            return true;
        }
        if self.ifd_data.len() < 4 {
            return false;
        }
        let offset = self.data_as_offset();
        let total = contents.len();
        if offset > total || ((total - offset) as u64) < length {
            return false;
        }
        let window = slice_to_vec(slice_subrange(contents, offset, offset + length as usize));
        self.ext_data = window.clone();
        self.data = window;
        true
    }
}

/// A resolved payload is, byte for byte, the head of its source: the slot
/// where the payload fits it, else the window of the buffer at the offset
/// that the slot holds. Its length is the element size times the count.
pub proof fn lemma_payload_is_source(f: IfdEntryView, contents: Seq<u8>, i: int)
    requires
        f.payload(contents) is Some,
        0 <= i < f.length(),
    ensures
        f.payload(contents)->Some_0.len() == f.length(),
        f.resolved(contents).data.len() == f.resolved(contents).length(),
        f.payload(contents)->Some_0[i] == if f.in_ifd() {
            f.ifd_data[i]
        } else {
            contents[f.data_as_offset() + i]
        },
{
}

/// A payload read from the slot and a payload read from a window of a
/// buffer agree, byte for byte, as far as the bytes under them agree.
pub proof fn lemma_inline_offset_agree(
    a: IfdEntryView,
    b: IfdEntryView,
    a_contents: Seq<u8>,
    b_contents: Seq<u8>,
    n: nat,
)
    requires
        a.in_ifd(),
        !b.in_ifd(),
        a.payload(a_contents) is Some,
        b.payload(b_contents) is Some,
        n <= a.length(),
        forall|i: int| 0 <= i < n ==> a.ifd_data[i] == b_contents[b.data_as_offset() + i],
    ensures
        a.payload(a_contents)->Some_0.subrange(0, n as int) == b.payload(
            b_contents,
        )->Some_0.subrange(0, n as int),
{
    assert(a.payload(a_contents)->Some_0.subrange(0, n as int) =~= b.payload(
        b_contents,
    )->Some_0.subrange(0, n as int));
}

impl ExifErrorView {
    /// What kind of error this is, in a few words.
    pub open spec fn description(self) -> Seq<char> {
        match self {
            ExifErrorView::FileTypeUnknown => "File type unknown"@,
            ExifErrorView::JpegWithoutExif(_) => "JPEG without EXIF section"@,
            ExifErrorView::TiffTruncated => "TIFF truncated at start"@,
            ExifErrorView::TiffBadPreamble(_) => "TIFF with bad preamble"@,
            ExifErrorView::IfdTruncated => "TIFF IFD truncated"@,
            ExifErrorView::ExifIfdTruncated(_) => "TIFF Exif IFD truncated"@,
            ExifErrorView::ExifIfdEntryNotFound => "TIFF Exif IFD not found"@,
        }
    }

    /// The error's message: its description, then a colon, a space and the
    /// detail where it carries one.
    pub open spec fn message(self) -> Seq<char> {
        match self {
            ExifErrorView::JpegWithoutExif(s) => self.description() + ": "@ + s,
            ExifErrorView::TiffBadPreamble(s) => self.description() + ": "@ + s,
            ExifErrorView::ExifIfdTruncated(s) => self.description() + ": "@ + s,
            _ => self.description(),
        }
    }
}

impl ExifError {
    /// What kind of error this is, in a few words.
    pub fn description(&self) -> (r: &'static str)
        ensures
            r@ == self@.description(),
    {
        match self {
            ExifError::FileTypeUnknown => "File type unknown",
            ExifError::JpegWithoutExif(_) => "JPEG without EXIF section",
            ExifError::TiffTruncated => "TIFF truncated at start",
            ExifError::TiffBadPreamble(_) => "TIFF with bad preamble",
            ExifError::IfdTruncated => "TIFF IFD truncated",
            ExifError::ExifIfdTruncated(_) => "TIFF Exif IFD truncated",
            ExifError::ExifIfdEntryNotFound => "TIFF Exif IFD not found",
        }
    }

    /// The error's message.
    pub fn to_string(&self) -> (r: String)
        ensures
            r@ == self@.message(),
    {
        let mut out = self.description().to_owned();
        match self {
            ExifError::JpegWithoutExif(s) => {
                out.append(": ");
                out.append(s.as_str());
            },
            ExifError::TiffBadPreamble(s) => {
                out.append(": ");
                out.append(s.as_str());
            },
            ExifError::ExifIfdTruncated(s) => {
                out.append(": ");
                out.append(s.as_str());
            },
            _ => {},
        }
        out
    }
}

impl ExifTag {
    /// The tag's name in plain words.
    pub open spec fn spec_to_string(self) -> Seq<char> {
        match self {
            ExifTag::UnknownToMe => "Unknown to this library, or manufacturer-specific"@,
            ExifTag::ImageDescription => "Image Description"@,
            ExifTag::Make => "Manufacturer"@,
            ExifTag::Model => "Model"@,
            ExifTag::Orientation => "Orientation"@,
            ExifTag::XResolution => "X Resolution"@,
            ExifTag::YResolution => "Y Resolution"@,
            ExifTag::ResolutionUnit => "Resolution Unit"@,
            ExifTag::Software => "Software"@,
            ExifTag::DateTime => "Image date"@,
            ExifTag::HostComputer => "Host computer"@,
            ExifTag::WhitePoint => "White Point"@,
            ExifTag::PrimaryChromaticities => "Primary Chromaticities"@,
            ExifTag::YCbCrCoefficients => "YCbCr Coefficients"@,
            ExifTag::ReferenceBlackWhite => "Reference Black/White"@,
            ExifTag::Copyright => "Copyright"@,
            ExifTag::ExifOffset => "This image has an Exif SubIFD"@,
            ExifTag::GPSOffset => "This image has a GPS SubIFD"@,
            ExifTag::ExposureTime => "Exposure time"@,
            ExifTag::FNumber => "Aperture"@,
            ExifTag::ExposureProgram => "Exposure program"@,
            ExifTag::SpectralSensitivity => "Spectral sensitivity"@,
            ExifTag::ISOSpeedRatings => "ISO speed ratings"@,
            ExifTag::OECF => "OECF"@,
            ExifTag::SensitivityType => "Sensitivity type"@,
            ExifTag::ExifVersion => "Exif version"@,
            ExifTag::DateTimeOriginal => "Date of original image"@,
            ExifTag::DateTimeDigitized => "Date of image digitalization"@,
            ExifTag::ShutterSpeedValue => "Shutter speed"@,
            ExifTag::ApertureValue => "Aperture value"@,
            ExifTag::BrightnessValue => "Brightness value"@,
            ExifTag::ExposureBiasValue => "Exposure bias value"@,
            ExifTag::MaxApertureValue => "Maximum aperture value"@,
            ExifTag::SubjectDistance => "Subject distance"@,
            ExifTag::MeteringMode => "Meteting mode"@,
            ExifTag::LightSource => "Light source"@,
            ExifTag::Flash => "Flash"@,
            ExifTag::FocalLength => "Focal length"@,
            ExifTag::SubjectArea => "Subject area"@,
            ExifTag::MakerNote => "Maker note"@,
            ExifTag::UserComment => "User comment"@,
            ExifTag::FlashPixVersion => "Flashpix version"@,
            ExifTag::ColorSpace => "Color space"@,
            ExifTag::RelatedSoundFile => "Related sound file"@,
            ExifTag::FlashEnergy => "Flash energy"@,
            ExifTag::FocalPlaneXResolution => "Focal plane X resolution"@,
            ExifTag::FocalPlaneYResolution => "Focal plane Y resolution"@,
            ExifTag::FocalPlaneResolutionUnit => "Focal plane resolution unit"@,
            ExifTag::SubjectLocation => "Subject location"@,
            ExifTag::ExposureIndex => "Exposure index"@,
            ExifTag::SensingMethod => "Sensing method"@,
            ExifTag::FileSource => "File source"@,
            ExifTag::SceneType => "Scene type"@,
            ExifTag::CFAPattern => "CFA Pattern"@,
            ExifTag::CustomRendered => "Custom rendered"@,
            ExifTag::ExposureMode => "Exposure mode"@,
            ExifTag::WhiteBalanceMode => "White balance mode"@,
            ExifTag::DigitalZoomRatio => "Digital zoom ratio"@,
            ExifTag::FocalLengthIn35mmFilm => "Equivalent focal length in 35mm"@,
            ExifTag::SceneCaptureType => "Scene capture type"@,
            ExifTag::GainControl => "Gain control"@,
            ExifTag::Contrast => "Contrast"@,
            ExifTag::Saturation => "Saturation"@,
            ExifTag::Sharpness => "Sharpness"@,
            ExifTag::DeviceSettingDescription => "Device setting description"@,
            ExifTag::SubjectDistanceRange => "Subject distance range"@,
            ExifTag::ImageUniqueID => "Image unique ID"@,
            ExifTag::LensSpecification => "Lens specification"@,
            ExifTag::LensMake => "Lens manufacturer"@,
            ExifTag::LensModel => "Lens model"@,
            ExifTag::Gamma => "Gamma"@,
            ExifTag::GPSVersionID => "GPS version ID"@,
            ExifTag::GPSLatitudeRef => "GPS latitude ref"@,
            ExifTag::GPSLatitude => "GPS latitude"@,
            ExifTag::GPSLongitudeRef => "GPS longitude ref"@,
            ExifTag::GPSLongitude => "GPS longitude"@,
            ExifTag::GPSAltitudeRef => "GPS altitude ref"@,
            ExifTag::GPSAltitude => "GPS altitude"@,
            ExifTag::GPSTimeStamp => "GPS timestamp"@,
            ExifTag::GPSSatellites => "GPS satellites"@,
            ExifTag::GPSStatus => "GPS status"@,
            ExifTag::GPSMeasureMode => "GPS measure mode"@,
            ExifTag::GPSDOP => "GPS Data Degree of Precision (DOP)"@,
            ExifTag::GPSSpeedRef => "GPS speed ref"@,
            ExifTag::GPSSpeed => "GPS speed"@,
            ExifTag::GPSTrackRef => "GPS track ref"@,
            ExifTag::GPSTrack => "GPS track"@,
            ExifTag::GPSImgDirectionRef => "GPS image direction ref"@,
            ExifTag::GPSImgDirection => "GPS image direction"@,
            ExifTag::GPSMapDatum => "GPS map datum"@,
            ExifTag::GPSDestLatitudeRef => "GPS destination latitude ref"@,
            ExifTag::GPSDestLatitude => "GPS destination latitude"@,
            ExifTag::GPSDestLongitudeRef => "GPS destination longitude ref"@,
            ExifTag::GPSDestLongitude => "GPS destination longitude"@,
            ExifTag::GPSDestBearingRef => "GPS destination bearing ref"@,
            ExifTag::GPSDestBearing => "GPS destination bearing"@,
            ExifTag::GPSDestDistanceRef => "GPS destination distance ref"@,
            ExifTag::GPSDestDistance => "GPS destination distance"@,
            ExifTag::GPSProcessingMethod => "GPS processing method"@,
            ExifTag::GPSAreaInformation => "GPS area information"@,
            ExifTag::GPSDateStamp => "GPS date stamp"@,
            ExifTag::GPSDifferential => "GPS differential"@,
        }
    }

    /// The tag's name in plain words.
    pub fn label(self) -> (r: &'static str)
        ensures
            r@ == self.spec_to_string(),
    {
        match self {
            ExifTag::UnknownToMe => "Unknown to this library, or manufacturer-specific",
            ExifTag::ImageDescription => "Image Description",
            ExifTag::Make => "Manufacturer",
            ExifTag::Model => "Model",
            ExifTag::Orientation => "Orientation",
            ExifTag::XResolution => "X Resolution",
            ExifTag::YResolution => "Y Resolution",
            ExifTag::ResolutionUnit => "Resolution Unit",
            ExifTag::Software => "Software",
            ExifTag::DateTime => "Image date",
            ExifTag::HostComputer => "Host computer",
            ExifTag::WhitePoint => "White Point",
            ExifTag::PrimaryChromaticities => "Primary Chromaticities",
            ExifTag::YCbCrCoefficients => "YCbCr Coefficients",
            ExifTag::ReferenceBlackWhite => "Reference Black/White",
            ExifTag::Copyright => "Copyright",
            ExifTag::ExifOffset => "This image has an Exif SubIFD",
            ExifTag::GPSOffset => "This image has a GPS SubIFD",
            ExifTag::ExposureTime => "Exposure time",
            ExifTag::FNumber => "Aperture",
            ExifTag::ExposureProgram => "Exposure program",
            ExifTag::SpectralSensitivity => "Spectral sensitivity",
            ExifTag::ISOSpeedRatings => "ISO speed ratings",
            ExifTag::OECF => "OECF",
            ExifTag::SensitivityType => "Sensitivity type",
            ExifTag::ExifVersion => "Exif version",
            ExifTag::DateTimeOriginal => "Date of original image",
            ExifTag::DateTimeDigitized => "Date of image digitalization",
            ExifTag::ShutterSpeedValue => "Shutter speed",
            ExifTag::ApertureValue => "Aperture value",
            ExifTag::BrightnessValue => "Brightness value",
            ExifTag::ExposureBiasValue => "Exposure bias value",
            ExifTag::MaxApertureValue => "Maximum aperture value",
            ExifTag::SubjectDistance => "Subject distance",
            ExifTag::MeteringMode => "Meteting mode",
            ExifTag::LightSource => "Light source",
            ExifTag::Flash => "Flash",
            ExifTag::FocalLength => "Focal length",
            ExifTag::SubjectArea => "Subject area",
            ExifTag::MakerNote => "Maker note",
            ExifTag::UserComment => "User comment",
            ExifTag::FlashPixVersion => "Flashpix version",
            ExifTag::ColorSpace => "Color space",
            ExifTag::RelatedSoundFile => "Related sound file",
            ExifTag::FlashEnergy => "Flash energy",
            ExifTag::FocalPlaneXResolution => "Focal plane X resolution",
            ExifTag::FocalPlaneYResolution => "Focal plane Y resolution",
            ExifTag::FocalPlaneResolutionUnit => "Focal plane resolution unit",
            ExifTag::SubjectLocation => "Subject location",
            ExifTag::ExposureIndex => "Exposure index",
            ExifTag::SensingMethod => "Sensing method",
            ExifTag::FileSource => "File source",
            ExifTag::SceneType => "Scene type",
            ExifTag::CFAPattern => "CFA Pattern",
            ExifTag::CustomRendered => "Custom rendered",
            ExifTag::ExposureMode => "Exposure mode",
            ExifTag::WhiteBalanceMode => "White balance mode",
            ExifTag::DigitalZoomRatio => "Digital zoom ratio",
            ExifTag::FocalLengthIn35mmFilm => "Equivalent focal length in 35mm",
            ExifTag::SceneCaptureType => "Scene capture type",
            ExifTag::GainControl => "Gain control",
            ExifTag::Contrast => "Contrast",
            ExifTag::Saturation => "Saturation",
            ExifTag::Sharpness => "Sharpness",
            ExifTag::DeviceSettingDescription => "Device setting description",
            ExifTag::SubjectDistanceRange => "Subject distance range",
            ExifTag::ImageUniqueID => "Image unique ID",
            ExifTag::LensSpecification => "Lens specification",
            ExifTag::LensMake => "Lens manufacturer",
            ExifTag::LensModel => "Lens model",
            ExifTag::Gamma => "Gamma",
            ExifTag::GPSVersionID => "GPS version ID",
            ExifTag::GPSLatitudeRef => "GPS latitude ref",
            ExifTag::GPSLatitude => "GPS latitude",
            ExifTag::GPSLongitudeRef => "GPS longitude ref",
            ExifTag::GPSLongitude => "GPS longitude",
            ExifTag::GPSAltitudeRef => "GPS altitude ref",
            ExifTag::GPSAltitude => "GPS altitude",
            ExifTag::GPSTimeStamp => "GPS timestamp",
            ExifTag::GPSSatellites => "GPS satellites",
            ExifTag::GPSStatus => "GPS status",
            ExifTag::GPSMeasureMode => "GPS measure mode",
            ExifTag::GPSDOP => "GPS Data Degree of Precision (DOP)",
            ExifTag::GPSSpeedRef => "GPS speed ref",
            ExifTag::GPSSpeed => "GPS speed",
            ExifTag::GPSTrackRef => "GPS track ref",
            ExifTag::GPSTrack => "GPS track",
            ExifTag::GPSImgDirectionRef => "GPS image direction ref",
            ExifTag::GPSImgDirection => "GPS image direction",
            ExifTag::GPSMapDatum => "GPS map datum",
            ExifTag::GPSDestLatitudeRef => "GPS destination latitude ref",
            ExifTag::GPSDestLatitude => "GPS destination latitude",
            ExifTag::GPSDestLongitudeRef => "GPS destination longitude ref",
            ExifTag::GPSDestLongitude => "GPS destination longitude",
            ExifTag::GPSDestBearingRef => "GPS destination bearing ref",
            ExifTag::GPSDestBearing => "GPS destination bearing",
            ExifTag::GPSDestDistanceRef => "GPS destination distance ref",
            ExifTag::GPSDestDistance => "GPS destination distance",
            ExifTag::GPSProcessingMethod => "GPS processing method",
            ExifTag::GPSAreaInformation => "GPS area information",
            ExifTag::GPSDateStamp => "GPS date stamp",
            ExifTag::GPSDifferential => "GPS differential",
        }
    }

    /// The tag's name in plain words, as an owned string.
    pub fn to_string(&self) -> (r: String)
        ensures
            r@ == self.spec_to_string(),
    {
        self.label().to_owned()
    }

    /// The tag's identifier, as written in this library.
    pub open spec fn spec_variant_name(self) -> Seq<char> {
        match self {
            ExifTag::UnknownToMe => "UnknownToMe"@,
            ExifTag::ImageDescription => "ImageDescription"@,
            ExifTag::Make => "Make"@,
            ExifTag::Model => "Model"@,
            ExifTag::Orientation => "Orientation"@,
            ExifTag::XResolution => "XResolution"@,
            ExifTag::YResolution => "YResolution"@,
            ExifTag::ResolutionUnit => "ResolutionUnit"@,
            ExifTag::Software => "Software"@,
            ExifTag::DateTime => "DateTime"@,
            ExifTag::HostComputer => "HostComputer"@,
            ExifTag::WhitePoint => "WhitePoint"@,
            ExifTag::PrimaryChromaticities => "PrimaryChromaticities"@,
            ExifTag::YCbCrCoefficients => "YCbCrCoefficients"@,
            ExifTag::ReferenceBlackWhite => "ReferenceBlackWhite"@,
            ExifTag::Copyright => "Copyright"@,
            ExifTag::ExifOffset => "ExifOffset"@,
            ExifTag::GPSOffset => "GPSOffset"@,
            ExifTag::ExposureTime => "ExposureTime"@,
            ExifTag::FNumber => "FNumber"@,
            ExifTag::ExposureProgram => "ExposureProgram"@,
            ExifTag::SpectralSensitivity => "SpectralSensitivity"@,
            ExifTag::ISOSpeedRatings => "ISOSpeedRatings"@,
            ExifTag::OECF => "OECF"@,
            ExifTag::SensitivityType => "SensitivityType"@,
            ExifTag::ExifVersion => "ExifVersion"@,
            ExifTag::DateTimeOriginal => "DateTimeOriginal"@,
            ExifTag::DateTimeDigitized => "DateTimeDigitized"@,
            ExifTag::ShutterSpeedValue => "ShutterSpeedValue"@,
            ExifTag::ApertureValue => "ApertureValue"@,
            ExifTag::BrightnessValue => "BrightnessValue"@,
            ExifTag::ExposureBiasValue => "ExposureBiasValue"@,
            ExifTag::MaxApertureValue => "MaxApertureValue"@,
            ExifTag::SubjectDistance => "SubjectDistance"@,
            ExifTag::MeteringMode => "MeteringMode"@,
            ExifTag::LightSource => "LightSource"@,
            ExifTag::Flash => "Flash"@,
            ExifTag::FocalLength => "FocalLength"@,
            ExifTag::SubjectArea => "SubjectArea"@,
            ExifTag::MakerNote => "MakerNote"@,
            ExifTag::UserComment => "UserComment"@,
            ExifTag::FlashPixVersion => "FlashPixVersion"@,
            ExifTag::ColorSpace => "ColorSpace"@,
            ExifTag::RelatedSoundFile => "RelatedSoundFile"@,
            ExifTag::FlashEnergy => "FlashEnergy"@,
            ExifTag::FocalPlaneXResolution => "FocalPlaneXResolution"@,
            ExifTag::FocalPlaneYResolution => "FocalPlaneYResolution"@,
            ExifTag::FocalPlaneResolutionUnit => "FocalPlaneResolutionUnit"@,
            ExifTag::SubjectLocation => "SubjectLocation"@,
            ExifTag::ExposureIndex => "ExposureIndex"@,
            ExifTag::SensingMethod => "SensingMethod"@,
            ExifTag::FileSource => "FileSource"@,
            ExifTag::SceneType => "SceneType"@,
            ExifTag::CFAPattern => "CFAPattern"@,
            ExifTag::CustomRendered => "CustomRendered"@,
            ExifTag::ExposureMode => "ExposureMode"@,
            ExifTag::WhiteBalanceMode => "WhiteBalanceMode"@,
            ExifTag::DigitalZoomRatio => "DigitalZoomRatio"@,
            ExifTag::FocalLengthIn35mmFilm => "FocalLengthIn35mmFilm"@,
            ExifTag::SceneCaptureType => "SceneCaptureType"@,
            ExifTag::GainControl => "GainControl"@,
            ExifTag::Contrast => "Contrast"@,
            ExifTag::Saturation => "Saturation"@,
            ExifTag::Sharpness => "Sharpness"@,
            ExifTag::DeviceSettingDescription => "DeviceSettingDescription"@,
            ExifTag::SubjectDistanceRange => "SubjectDistanceRange"@,
            ExifTag::ImageUniqueID => "ImageUniqueID"@,
            ExifTag::LensSpecification => "LensSpecification"@,
            ExifTag::LensMake => "LensMake"@,
            ExifTag::LensModel => "LensModel"@,
            ExifTag::Gamma => "Gamma"@,
            ExifTag::GPSVersionID => "GPSVersionID"@,
            ExifTag::GPSLatitudeRef => "GPSLatitudeRef"@,
            ExifTag::GPSLatitude => "GPSLatitude"@,
            ExifTag::GPSLongitudeRef => "GPSLongitudeRef"@,
            ExifTag::GPSLongitude => "GPSLongitude"@,
            ExifTag::GPSAltitudeRef => "GPSAltitudeRef"@,
            ExifTag::GPSAltitude => "GPSAltitude"@,
            ExifTag::GPSTimeStamp => "GPSTimeStamp"@,
            ExifTag::GPSSatellites => "GPSSatellites"@,
            ExifTag::GPSStatus => "GPSStatus"@,
            ExifTag::GPSMeasureMode => "GPSMeasureMode"@,
            ExifTag::GPSDOP => "GPSDOP"@,
            ExifTag::GPSSpeedRef => "GPSSpeedRef"@,
            ExifTag::GPSSpeed => "GPSSpeed"@,
            ExifTag::GPSTrackRef => "GPSTrackRef"@,
            ExifTag::GPSTrack => "GPSTrack"@,
            ExifTag::GPSImgDirectionRef => "GPSImgDirectionRef"@,
            ExifTag::GPSImgDirection => "GPSImgDirection"@,
            ExifTag::GPSMapDatum => "GPSMapDatum"@,
            ExifTag::GPSDestLatitudeRef => "GPSDestLatitudeRef"@,
            ExifTag::GPSDestLatitude => "GPSDestLatitude"@,
            ExifTag::GPSDestLongitudeRef => "GPSDestLongitudeRef"@,
            ExifTag::GPSDestLongitude => "GPSDestLongitude"@,
            ExifTag::GPSDestBearingRef => "GPSDestBearingRef"@,
            ExifTag::GPSDestBearing => "GPSDestBearing"@,
            ExifTag::GPSDestDistanceRef => "GPSDestDistanceRef"@,
            ExifTag::GPSDestDistance => "GPSDestDistance"@,
            ExifTag::GPSProcessingMethod => "GPSProcessingMethod"@,
            ExifTag::GPSAreaInformation => "GPSAreaInformation"@,
            ExifTag::GPSDateStamp => "GPSDateStamp"@,
            ExifTag::GPSDifferential => "GPSDifferential"@,
        }
    }

    /// The tag's identifier, as written in this library.
    pub fn variant_name(self) -> (r: &'static str)
        ensures
            r@ == self.spec_variant_name(),
    {
        match self {
            ExifTag::UnknownToMe => "UnknownToMe",
            ExifTag::ImageDescription => "ImageDescription",
            ExifTag::Make => "Make",
            ExifTag::Model => "Model",
            ExifTag::Orientation => "Orientation",
            ExifTag::XResolution => "XResolution",
            ExifTag::YResolution => "YResolution",
            ExifTag::ResolutionUnit => "ResolutionUnit",
            ExifTag::Software => "Software",
            ExifTag::DateTime => "DateTime",
            ExifTag::HostComputer => "HostComputer",
            ExifTag::WhitePoint => "WhitePoint",
            ExifTag::PrimaryChromaticities => "PrimaryChromaticities",
            ExifTag::YCbCrCoefficients => "YCbCrCoefficients",
            ExifTag::ReferenceBlackWhite => "ReferenceBlackWhite",
            ExifTag::Copyright => "Copyright",
            ExifTag::ExifOffset => "ExifOffset",
            ExifTag::GPSOffset => "GPSOffset",
            ExifTag::ExposureTime => "ExposureTime",
            ExifTag::FNumber => "FNumber",
            ExifTag::ExposureProgram => "ExposureProgram",
            ExifTag::SpectralSensitivity => "SpectralSensitivity",
            ExifTag::ISOSpeedRatings => "ISOSpeedRatings",
            ExifTag::OECF => "OECF",
            ExifTag::SensitivityType => "SensitivityType",
            ExifTag::ExifVersion => "ExifVersion",
            ExifTag::DateTimeOriginal => "DateTimeOriginal",
            ExifTag::DateTimeDigitized => "DateTimeDigitized",
            ExifTag::ShutterSpeedValue => "ShutterSpeedValue",
            ExifTag::ApertureValue => "ApertureValue",
            ExifTag::BrightnessValue => "BrightnessValue",
            ExifTag::ExposureBiasValue => "ExposureBiasValue",
            ExifTag::MaxApertureValue => "MaxApertureValue",
            ExifTag::SubjectDistance => "SubjectDistance",
            ExifTag::MeteringMode => "MeteringMode",
            ExifTag::LightSource => "LightSource",
            ExifTag::Flash => "Flash",
            ExifTag::FocalLength => "FocalLength",
            ExifTag::SubjectArea => "SubjectArea",
            ExifTag::MakerNote => "MakerNote",
            ExifTag::UserComment => "UserComment",
            ExifTag::FlashPixVersion => "FlashPixVersion",
            ExifTag::ColorSpace => "ColorSpace",
            ExifTag::RelatedSoundFile => "RelatedSoundFile",
            ExifTag::FlashEnergy => "FlashEnergy",
            ExifTag::FocalPlaneXResolution => "FocalPlaneXResolution",
            ExifTag::FocalPlaneYResolution => "FocalPlaneYResolution",
            ExifTag::FocalPlaneResolutionUnit => "FocalPlaneResolutionUnit",
            ExifTag::SubjectLocation => "SubjectLocation",
            ExifTag::ExposureIndex => "ExposureIndex",
            ExifTag::SensingMethod => "SensingMethod",
            ExifTag::FileSource => "FileSource",
            ExifTag::SceneType => "SceneType",
            ExifTag::CFAPattern => "CFAPattern",
            ExifTag::CustomRendered => "CustomRendered",
            ExifTag::ExposureMode => "ExposureMode",
            ExifTag::WhiteBalanceMode => "WhiteBalanceMode",
            ExifTag::DigitalZoomRatio => "DigitalZoomRatio",
            ExifTag::FocalLengthIn35mmFilm => "FocalLengthIn35mmFilm",
            ExifTag::SceneCaptureType => "SceneCaptureType",
            ExifTag::GainControl => "GainControl",
            ExifTag::Contrast => "Contrast",
            ExifTag::Saturation => "Saturation",
            ExifTag::Sharpness => "Sharpness",
            ExifTag::DeviceSettingDescription => "DeviceSettingDescription",
            ExifTag::SubjectDistanceRange => "SubjectDistanceRange",
            ExifTag::ImageUniqueID => "ImageUniqueID",
            ExifTag::LensSpecification => "LensSpecification",
            ExifTag::LensMake => "LensMake",
            ExifTag::LensModel => "LensModel",
            ExifTag::Gamma => "Gamma",
            ExifTag::GPSVersionID => "GPSVersionID",
            ExifTag::GPSLatitudeRef => "GPSLatitudeRef",
            ExifTag::GPSLatitude => "GPSLatitude",
            ExifTag::GPSLongitudeRef => "GPSLongitudeRef",
            ExifTag::GPSLongitude => "GPSLongitude",
            ExifTag::GPSAltitudeRef => "GPSAltitudeRef",
            ExifTag::GPSAltitude => "GPSAltitude",
            ExifTag::GPSTimeStamp => "GPSTimeStamp",
            ExifTag::GPSSatellites => "GPSSatellites",
            ExifTag::GPSStatus => "GPSStatus",
            ExifTag::GPSMeasureMode => "GPSMeasureMode",
            ExifTag::GPSDOP => "GPSDOP",
            ExifTag::GPSSpeedRef => "GPSSpeedRef",
            ExifTag::GPSSpeed => "GPSSpeed",
            ExifTag::GPSTrackRef => "GPSTrackRef",
            ExifTag::GPSTrack => "GPSTrack",
            ExifTag::GPSImgDirectionRef => "GPSImgDirectionRef",
            ExifTag::GPSImgDirection => "GPSImgDirection",
            ExifTag::GPSMapDatum => "GPSMapDatum",
            ExifTag::GPSDestLatitudeRef => "GPSDestLatitudeRef",
            ExifTag::GPSDestLatitude => "GPSDestLatitude",
            ExifTag::GPSDestLongitudeRef => "GPSDestLongitudeRef",
            ExifTag::GPSDestLongitude => "GPSDestLongitude",
            ExifTag::GPSDestBearingRef => "GPSDestBearingRef",
            ExifTag::GPSDestBearing => "GPSDestBearing",
            ExifTag::GPSDestDistanceRef => "GPSDestDistanceRef",
            ExifTag::GPSDestDistance => "GPSDestDistance",
            ExifTag::GPSProcessingMethod => "GPSProcessingMethod",
            ExifTag::GPSAreaInformation => "GPSAreaInformation",
            ExifTag::GPSDateStamp => "GPSDateStamp",
            ExifTag::GPSDifferential => "GPSDifferential",
        }
    }
}

} // verus!
