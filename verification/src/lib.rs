//! Decoder for TIFF-structured EXIF metadata.
//!
//! An untrusted byte buffer is read into typed, validated entries: the
//! preamble gives the byte order, the root directory is walked, the Exif and
//! GPS sub-directories that it points at are followed, and each entry's
//! payload is resolved, decoded and put into words. Every length and offset
//! that comes from the buffer is checked before it is used, and every
//! function states what it returns over the mathematical views of its
//! arguments.
//!
//! - [`tiff`]: the walk over the directories of a buffer.
//! - [`types`], [`types_impl`], [`rational`]: the data model and its methods.
//! - [`lowlevel`]: fixed-width reads in either byte order.
//! - [`ifdformat`]: typed values from payloads, and their plain text.
//! - [`exif`]: the table of recognised tags and their schemas.
//! - [`exifreadable`]: the readable texts of values.
//! - [`exifpost`]: the pass that completes an entry from its siblings.
//! - [`text`]: numbers as text.
//!
//! The library holds no floating-point number. A float of the buffer is
//! kept as its bit pattern. A reading that tells a ratio as a decimal number
//! is given as the layout of its text and the ratios to divide; the entry of
//! such a tag keeps the fraction as its text.

pub mod exif;
pub mod exifpost;
pub mod exifreadable;
pub mod ifdformat;
pub mod lowlevel;
pub mod rational;
pub mod text;
pub mod tiff;
pub mod types;
pub mod types_impl;
