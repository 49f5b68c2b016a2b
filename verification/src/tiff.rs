//! The decode of a TIFF-structured buffer: the preamble, the root directory,
//! and the sub-directories that entries of the root point at.

use vstd::prelude::*;
use vstd::slice::{slice_subrange, slice_to_vec};
use vstd::string::StringExecFns;
use crate::exif::{spec_tag_to_exif, tag_to_exif, TagDescriptor};
use crate::exifpost::{postprocess_all, spec_postprocess, spec_postprocess_all};
use crate::ifdformat::{spec_tag_value, tag_value_new};
use crate::lowlevel::{read_u16, read_u32, spec_read_u16, spec_read_u32};
use crate::text::{push_decimal, push_hex, push_unsigned, spec_decimal, spec_hex};
use crate::types::{
    entry_views, ifd_views, lemma_entry_views_push, lemma_ifd_views_push, texts,
    ExifEntry, ExifEntryResult, ExifEntryView, ExifError,
    ExifErrorView, ExifTag, IfdEntry, IfdEntryView, Namespace,
};
use crate::types_impl::{ifdformat_new, spec_ifdformat_new};

verus! {

/// The tag code of the entry that points at the Exif sub-directory.
pub const EXIF_OFFSET_TAG: u16 = 0x8769;

/// The tag code of the entry that points at the GPS sub-directory.
pub const GPS_OFFSET_TAG: u16 = 0x8825;

/// The warning for an entry whose format is not the one that the schema of
/// its tag expects.
pub open spec fn spec_format_warning(f: IfdEntryView, d: TagDescriptor) -> Seq<char> {
    "EXIF tag "@ + spec_hex(f.tag as nat) + " "@ + spec_decimal(f.tag as int) + " ("@
        + d.tag.spec_to_string() + "), expected format "@ + spec_decimal(
        d.format.spec_code() as int,
    ) + " ("@ + d.format.spec_name() + "), found "@ + spec_decimal(f.format.spec_code() as int)
        + " ("@ + f.format.spec_name() + ")"@
}

/// The warning for an entry whose count is outside the range that the
/// schema of its tag expects.
pub open spec fn spec_count_warning(f: IfdEntryView, d: TagDescriptor) -> Seq<char> {
    "EXIF tag "@ + spec_hex(f.tag as nat) + " "@ + spec_decimal(f.tag as int) + " ("@
        + d.tag.spec_variant_name() + "), format "@ + spec_decimal(d.format.spec_code() as int)
        + ", expected count "@ + spec_decimal(d.min_count as int) + ".."@ + spec_decimal(
        d.max_count as int,
    ) + " found "@ + spec_decimal(f.count as int)
}

/// The warning that the decode of an entry gives: one where the tag is
/// recognised and the entry does not meet its schema, none otherwise.
pub open spec fn spec_entry_warning(f: IfdEntryView) -> Option<Seq<char>> {
    let d = spec_tag_to_exif(f.tag);
    if d.tag == ExifTag::UnknownToMe {
        None
    } else if d.format != f.format {
        Some(spec_format_warning(f, d))
    } else if !d.admits(f.format, f.count) {
        Some(spec_count_warning(f, d))
    } else {
        None
    }
}

/// The decoded entry of a raw entry whose payload is resolved. The typed
/// value comes from the raw entry alone. Where the tag is recognised and
/// the entry meets its schema, the entry has the tag's identity and unit,
/// and its text is the reading that the schema names, or the plain text of
/// the value where that reading does not apply to it. Otherwise the tag is
/// `UnknownToMe`, the unit is empty and the text is the plain text.
pub open spec fn spec_exif_entry(f: IfdEntryView) -> ExifEntryView {
    let value = spec_tag_value(f);
    let d = spec_tag_to_exif(f.tag);
    if d.tag != ExifTag::UnknownToMe && d.admits(f.format, f.count) {
        ExifEntryView {
            namespace: f.namespace,
            ifd: f,
            tag: d.tag,
            value,
            unit: d.unit@,
            value_more_readable: match d.readable.spec_apply(value, value.text()) {
                Ok(text) => text,
                Err(_) => value.text(),
            },
        }
    } else {
        ExifEntryView {
            namespace: f.namespace,
            ifd: f,
            tag: ExifTag::UnknownToMe,
            value,
            unit: Seq::empty(),
            value_more_readable: value.text(),
        }
    }
}

/// The warnings after the decode of an entry: one more where the decode
/// gives a warning.
pub open spec fn with_warning(warnings: Seq<Seq<char>>, f: IfdEntryView) -> Seq<Seq<char>> {
    match spec_entry_warning(f) {
        Some(w) => warnings.push(w),
        None => warnings,
    }
}

/// Writes the warning for a format that is not the expected one.
fn format_warning(f: &IfdEntry, d: &TagDescriptor) -> (s: String)
    ensures
        s@ == spec_format_warning(f@, *d),
{
    let mut out = "EXIF tag ".to_owned();
    push_hex(&mut out, f.tag as u64);
    out.append(" ");
    push_unsigned(&mut out, f.tag as u64);
    out.append(" (");
    out.append(d.tag.label());
    out.append("), expected format ");
    push_unsigned(&mut out, d.format.code() as u64);
    out.append(" (");
    out.append(d.format.name());
    out.append("), found ");
    push_unsigned(&mut out, f.format.code() as u64);
    out.append(" (");
    out.append(f.format.name());
    out.append(")");
    out
}

/// Writes the warning for a count outside the expected range.
fn count_warning(f: &IfdEntry, d: &TagDescriptor) -> (s: String)
    ensures
        s@ == spec_count_warning(f@, *d),
{
    let mut out = "EXIF tag ".to_owned();
    push_hex(&mut out, f.tag as u64);
    out.append(" ");
    push_unsigned(&mut out, f.tag as u64);
    out.append(" (");
    out.append(d.tag.variant_name());
    out.append("), format ");
    push_unsigned(&mut out, d.format.code() as u64);
    out.append(", expected count ");
    push_decimal(&mut out, d.min_count as i64);
    out.append("..");
    push_decimal(&mut out, d.max_count as i64);
    out.append(" found ");
    push_unsigned(&mut out, f.count as u64);
    out
}

/// Decodes a raw entry whose payload is resolved. A recognised tag whose
/// entry does not meet the schema is decoded as an unrecognised one, and a
/// warning is appended to `warnings`.
pub fn parse_exif_entry(f: &IfdEntry, warnings: &mut Vec<String>) -> (e: ExifEntry)
    ensures
        e@ == spec_exif_entry(f@),
        texts(final(warnings)@) == with_warning(texts(old(warnings)@), f@),
{
    let value = tag_value_new(f);
    let plain = value.to_string();
    let d = tag_to_exif(f.tag);
    assert(texts(warnings@) =~= texts(old(warnings)@));
    if d.tag == ExifTag::UnknownToMe {
        return ExifEntry {
            namespace: f.namespace,
            ifd: f.clone(),
            tag: ExifTag::UnknownToMe,
            value,
            unit: String::new(),
            value_more_readable: plain,
        };
    }
    if d.format != f.format {
        let warning = format_warning(f, &d);
        warnings.push(warning);
        assert(texts(warnings@) =~= texts(old(warnings)@).push(warning@));
        return ExifEntry {
            namespace: f.namespace,
            ifd: f.clone(),
            tag: ExifTag::UnknownToMe,
            value,
            unit: String::new(),
            value_more_readable: plain,
        };
    }
    if d.min_count != -1 && (f.count < d.min_count as u32 || f.count > d.max_count as u32) {
        let warning = count_warning(f, &d);
        warnings.push(warning);
        assert(texts(warnings@) =~= texts(old(warnings)@).push(warning@));
        return ExifEntry {
            namespace: f.namespace,
            ifd: f.clone(),
            tag: ExifTag::UnknownToMe,
            value,
            unit: String::new(),
            value_more_readable: plain,
        };
    }
    let readable = match d.readable.apply(&value, &plain) {
        Ok(text) => text,
        Err(_) => plain,
    };
    ExifEntry {
        namespace: f.namespace,
        ifd: f.clone(),
        tag: d.tag,
        value,
        unit: d.unit.to_owned(),
        value_more_readable: readable,
    }
}

/// Record `i` of a directory listing, as a raw entry of the standard
/// namespace whose payload is not resolved yet.
pub open spec fn spec_raw_entry(le: bool, listing: Seq<u8>, i: int) -> IfdEntryView
    recommends
        0 <= i,
        12 * (i + 1) <= listing.len(),
{
    IfdEntryView {
        namespace: Namespace::Standard,
        tag: spec_read_u16(le, listing.subrange(12 * i, 12 * i + 2)),
        format: spec_ifdformat_new(spec_read_u16(le, listing.subrange(12 * i + 2, 12 * i + 4))),
        count: spec_read_u32(le, listing.subrange(12 * i + 4, 12 * i + 8)),
        data: Seq::empty(),
        ifd_data: listing.subrange(12 * i + 8, 12 * i + 12),
        ext_data: Seq::empty(),
        le,
    }
}

/// The first `count` records of a directory listing, in order.
pub open spec fn spec_raw_entries(le: bool, listing: Seq<u8>, count: nat) -> Seq<IfdEntryView>
    recommends
        12 * count <= listing.len(),
{
    Seq::new(count, |i: int| spec_raw_entry(le, listing, i))
}

/// The number of bytes that a directory listing of `count` records takes: 12
/// for each record, and 4 more for the offset of the next directory, which
/// a root directory has after its records and a sub-directory has not.
pub open spec fn listing_len(subifd: bool, count: nat) -> nat {
    if subifd {
        12 * count
    } else {
        12 * count + 4
    }
}

/// The records of a directory listing and the offset of the next directory
/// (0 for a sub-directory, which has none); `None` where the listing is
/// longer than `contents`.
pub open spec fn spec_parse_ifd(subifd: bool, le: bool, count: u16, contents: Seq<u8>) -> Option<
    (Seq<IfdEntryView>, nat),
> {
    if contents.len() < listing_len(subifd, count as nat) {
        None
    } else {
        Some(
            (
                spec_raw_entries(le, contents, count as nat),
                if subifd {
                    0
                } else {
                    spec_read_u32(le, contents.subrange(12 * count, 12 * count + 4)) as nat
                },
            ),
        )
    }
}

/// Reads the records of a directory listing, in order, and the offset of
/// the next directory where the directory is a root. No payload is
/// resolved. Returns `None` where a read would pass the end of `contents`.
pub fn parse_ifd(subifd: bool, le: bool, count: u16, contents: &[u8]) -> (r: Option<
    (Vec<IfdEntry>, usize),
>)
    ensures
        match spec_parse_ifd(subifd, le, count, contents@) {
            None => r is None,
            Some((entries, next)) => r is Some && ifd_views(r->Some_0.0@) == entries
                && r->Some_0.1 == next,
        },
{
    let records: usize = count as usize * 12;
    let needed: usize = if subifd {
        records
    } else {
        records + 4
    };
    if contents.len() < needed {
        return None;
    }
    let mut entries: Vec<IfdEntry> = Vec::new();
    let mut i: usize = 0;
    while i < count as usize
        invariant
            i <= count,
            12 * count <= contents@.len(),
            ifd_views(entries@) == spec_raw_entries(le, contents@, i as nat),
        decreases count - i,
    {
        let offset = i * 12;
        let tag = read_u16(le, slice_subrange(contents, offset, offset + 2));
        let format = read_u16(le, slice_subrange(contents, offset + 2, offset + 4));
        let count = read_u32(le, slice_subrange(contents, offset + 4, offset + 8));
        let data = slice_to_vec(slice_subrange(contents, offset + 8, offset + 12));
        let entry = IfdEntry {
            namespace: Namespace::Standard,
            tag,
            format: ifdformat_new(format),
            count,
            ifd_data: data,
            le,
            ext_data: Vec::new(),
            data: Vec::new(),
        };
        assert(entry@ == spec_raw_entry(le, contents@, i as int));
        proof {
            lemma_ifd_views_push(entries@, entry);
        }
        entries.push(entry);
        i += 1;
        assert(ifd_views(entries@) =~= spec_raw_entries(le, contents@, i as nat));
    }
    let next_ifd = if subifd {
        0
    } else {
        read_u32(le, slice_subrange(contents, records, records + 4)) as usize
    };
    Some((entries, next_ifd))
}

/// Whether the payload of a raw entry is all there in `contents`.
pub open spec fn resolves(contents: Seq<u8>) -> spec_fn(IfdEntryView) -> bool {
    |r: IfdEntryView| r.payload(contents) is Some
}

/// Whether the payload of a raw entry is all there and its decode gives a
/// warning.
pub open spec fn warns(contents: Seq<u8>) -> spec_fn(IfdEntryView) -> bool {
    |r: IfdEntryView| r.payload(contents) is Some && spec_entry_warning(r) is Some
}

/// The decoded entries of a directory: those of its raw entries whose
/// payload is all there, in the order of the directory. An entry whose
/// payload is not all there is left out.
pub open spec fn decoded_entries(raws: Seq<IfdEntryView>, contents: Seq<u8>) -> Seq<ExifEntryView> {
    raws.filter(resolves(contents)).map_values(
        |r: IfdEntryView| spec_exif_entry(r.resolved(contents)),
    )
}

/// The warnings of the decode of a directory, in the order of the
/// directory.
pub open spec fn decoded_warnings(raws: Seq<IfdEntryView>, contents: Seq<u8>) -> Seq<Seq<char>> {
    raws.filter(warns(contents)).map_values(|r: IfdEntryView| spec_entry_warning(r)->Some_0)
}

/// The raw entries of the directory at `offset`: a 2-byte entry count, then
/// that many records. An error where the count or the records pass the end
/// of the buffer.
pub open spec fn spec_directory(le: bool, contents: Seq<u8>, offset: nat) -> Result<
    Seq<IfdEntryView>,
    ExifErrorView,
> {
    if contents.len() < offset + 2 {
        Err(ExifErrorView::ExifIfdTruncated("Truncated at dir entry count"@))
    } else {
        let count = spec_read_u16(le, contents.subrange(offset as int, offset as int + 2));
        if contents.len() < offset + 2 + 12 * count {
            Err(ExifErrorView::ExifIfdTruncated("Truncated at dir listing"@))
        } else {
            Ok(
                spec_raw_entries(
                    le,
                    contents.subrange(offset as int + 2, offset as int + 2 + 12 * count),
                    count as nat,
                ),
            )
        }
    }
}

/// What a walk over directories has gathered: the decoded entries and the
/// warnings, in order, and the error that ended it, if one did.
pub struct Walk {
    pub entries: Seq<ExifEntryView>,
    pub warnings: Seq<Seq<char>>,
    pub error: Option<ExifErrorView>,
}

/// The walk after the directory at `offset`: its entries and warnings come
/// after those gathered before; or its error, with nothing added.
pub open spec fn walk_directory(le: bool, contents: Seq<u8>, offset: nat, acc: Walk) -> Walk {
    match spec_directory(le, contents, offset) {
        Err(e) => Walk { error: Some(e), ..acc },
        Ok(raws) => Walk {
            entries: acc.entries + decoded_entries(raws, contents),
            warnings: acc.warnings + decoded_warnings(raws, contents),
            error: None,
        },
    }
}

/// Whether a raw entry points at a sub-directory: the Exif one or the GPS
/// one.
pub open spec fn is_pointer(r: IfdEntryView) -> bool {
    r.tag == EXIF_OFFSET_TAG || r.tag == GPS_OFFSET_TAG
}

/// The pointer entries are those that the table knows as `ExifOffset` and
/// `GPSOffset`.
pub proof fn lemma_pointer_tags(r: IfdEntryView)
    ensures
        is_pointer(r) <==> spec_tag_to_exif(r.tag).tag == ExifTag::ExifOffset || spec_tag_to_exif(
            r.tag,
        ).tag == ExifTag::GPSOffset,
        EXIF_OFFSET_TAG == ExifTag::ExifOffset.spec_code(),
        GPS_OFFSET_TAG == ExifTag::GPSOffset.spec_code(),
{
}

/// The walk after the sub-directory that a pointer entry leads to. An
/// offset past the end of the buffer is an error.
pub open spec fn follow_pointer(
    le: bool,
    contents: Seq<u8>,
    pointer: IfdEntryView,
    acc: Walk,
) -> Walk {
    if contents.len() < pointer.data_as_offset() {
        Walk {
            error: Some(ExifErrorView::ExifIfdTruncated("Exif SubIFD goes past EOF"@)),
            ..acc
        }
    } else {
        walk_directory(le, contents, pointer.data_as_offset(), acc)
    }
}

/// The walk after every sub-directory that a pointer entry among
/// `raws[from..]` leads to, each followed in the order of the root
/// directory; it ends at the first error.
pub open spec fn follow_pointers(
    le: bool,
    contents: Seq<u8>,
    raws: Seq<IfdEntryView>,
    from: int,
    acc: Walk,
) -> Walk
    decreases raws.len() - from,
{
    if from < 0 || from >= raws.len() || acc.error is Some {
        acc
    } else if is_pointer(raws[from]) {
        follow_pointers(le, contents, raws, from + 1, follow_pointer(le, contents, raws[from], acc))
    } else {
        follow_pointers(le, contents, raws, from + 1, acc)
    }
}

/// The walk over the root directory at `ifd0_offset` and the
/// sub-directories that it points at. The listing of the root must be all
/// there, with the offset of the next directory after its records.
/// `warnings` are those gathered before.
pub open spec fn spec_collect_ifds(
    le: bool,
    contents: Seq<u8>,
    ifd0_offset: nat,
    warnings: Seq<Seq<char>>,
) -> Walk {
    let root = walk_directory(
        le,
        contents,
        ifd0_offset,
        Walk { entries: Seq::empty(), warnings, error: None },
    );
    match spec_directory(le, contents, ifd0_offset) {
        Err(_) => root,
        Ok(raws) => if contents.len() < ifd0_offset + 2 + listing_len(false, raws.len()) {
            Walk { error: Some(ExifErrorView::IfdTruncated), ..root }
        } else {
            follow_pointers(le, contents, raws, 0, root)
        },
    }
}

/// The raw entries of a listing depend on its first 12 bytes per record
/// only.
pub proof fn lemma_raw_entries_prefix(le: bool, a: Seq<u8>, b: Seq<u8>, count: nat)
    requires
        12 * count <= a.len(),
        12 * count <= b.len(),
        a.subrange(0, 12 * count as int) == b.subrange(0, 12 * count as int),
    ensures
        spec_raw_entries(le, a, count) == spec_raw_entries(le, b, count),
{
    assert forall|i: int| 0 <= i < count implies spec_raw_entry(le, a, i) == spec_raw_entry(
        le,
        b,
        i,
    ) by {
        assert forall|k: int| 0 <= k < 12 * count implies a[k] == b[k] by {
            assert(a.subrange(0, 12 * count as int)[k] == a[k]);
            assert(b.subrange(0, 12 * count as int)[k] == b[k]);
        }
        assert(a.subrange(12 * i, 12 * i + 2) =~= b.subrange(12 * i, 12 * i + 2));
        assert(a.subrange(12 * i + 2, 12 * i + 4) =~= b.subrange(12 * i + 2, 12 * i + 4));
        assert(a.subrange(12 * i + 4, 12 * i + 8) =~= b.subrange(12 * i + 4, 12 * i + 8));
        assert(a.subrange(12 * i + 8, 12 * i + 12) =~= b.subrange(12 * i + 8, 12 * i + 12));
    }
    assert(spec_raw_entries(le, a, count) =~= spec_raw_entries(le, b, count));
}

/// The decode of a directory with one more raw entry: one more decoded
/// entry where the payload of that entry is all there, and one more
/// warning where its decode gives one.
pub proof fn lemma_decoded_push(raws: Seq<IfdEntryView>, r: IfdEntryView, contents: Seq<u8>)
    ensures
        decoded_entries(raws.push(r), contents) == if r.payload(contents) is Some {
            decoded_entries(raws, contents).push(spec_exif_entry(r.resolved(contents)))
        } else {
            decoded_entries(raws, contents)
        },
        decoded_warnings(raws.push(r), contents) == if r.payload(contents) is Some {
            with_warning(decoded_warnings(raws, contents), r)
        } else {
            decoded_warnings(raws, contents)
        },
{
    reveal(Seq::filter);
    assert(raws.push(r).drop_last() =~= raws);
    assert(decoded_entries(raws.push(r), contents) =~= if r.payload(contents) is Some {
        decoded_entries(raws, contents).push(spec_exif_entry(r.resolved(contents)))
    } else {
        decoded_entries(raws, contents)
    });
    assert(decoded_warnings(raws.push(r), contents) =~= if r.payload(contents) is Some {
        with_warning(decoded_warnings(raws, contents), r)
    } else {
        decoded_warnings(raws, contents)
    });
}

/// Decodes the directory at `ioffset`: each entry whose payload is all
/// there is decoded and appended to `exif_entries`, in the order of the
/// directory; one whose payload is not is left out. On an error nothing is
/// appended.
pub fn parse_exif_ifd(
    le: bool,
    contents: &[u8],
    ioffset: usize,
    exif_entries: &mut Vec<ExifEntry>,
    warnings: &mut Vec<String>,
) -> (r: Result<(), ExifError>)
    ensures
        ({
            let walk = walk_directory(
                le,
                contents@,
                ioffset as nat,
                Walk {
                    entries: entry_views(old(exif_entries)@),
                    warnings: texts(old(warnings)@),
                    error: None,
                },
            );
            &&& entry_views(final(exif_entries)@) == walk.entries
            &&& texts(final(warnings)@) == walk.warnings
            &&& match walk.error {
                Some(e) => r is Err && r->Err_0@ == e,
                None => r is Ok,
            }
        }),
{
    let total = contents.len();
    if ioffset > total || total - ioffset < 2 {
        return Err(ExifError::ExifIfdTruncated("Truncated at dir entry count".to_owned()));
    }
    let count = read_u16(le, slice_subrange(contents, ioffset, ioffset + 2));
    let ifd_length = (count as usize) * 12;
    let offset = ioffset + 2;
    if total - offset < ifd_length {
        return Err(ExifError::ExifIfdTruncated("Truncated at dir listing".to_owned()));
    }
    let listing = slice_subrange(contents, offset, offset + ifd_length);
    let (ifd, _) = match parse_ifd(true, le, count, listing) {
        Some(parsed) => parsed,
        None => {
            return Err(ExifError::IfdTruncated);
        },
    };
    let ghost raws = ifd_views(ifd@);
    let ghost start_entries = entry_views(exif_entries@);
    let ghost start_warnings = texts(warnings@);
    assert(raws.take(0) =~= Seq::<IfdEntryView>::empty());
    let mut i: usize = 0;
    while i < ifd.len()
        invariant
            i <= ifd@.len(),
            raws == ifd_views(ifd@),
            entry_views(exif_entries@) == start_entries + decoded_entries(
                raws.take(i as int),
                contents@,
            ),
            texts(warnings@) == start_warnings + decoded_warnings(raws.take(i as int), contents@),
        decreases ifd@.len() - i,
    {
        proof {
            assert(raws.take(i + 1) =~= raws.take(i as int).push(raws[i as int]));
            lemma_decoded_push(raws.take(i as int), raws[i as int], contents@);
        }
        let mut entry = ifd[i].clone();
        if entry.copy_data(contents) {
            let decoded = parse_exif_entry(&entry, warnings);
            proof {
                lemma_entry_views_push(exif_entries@, decoded);
            }
            exif_entries.push(decoded);
            assert(entry_views(exif_entries@) =~= start_entries + decoded_entries(
                raws.take(i + 1),
                contents@,
            ));
            assert(texts(warnings@) =~= start_warnings + decoded_warnings(
                raws.take(i + 1),
                contents@,
            ));
        }
        i += 1;
    }
    assert(raws.take(i as int) =~= raws);
    Ok(())
}

/// Whether a result is that of a walk: the walk's error, or its entries.
pub open spec fn is_result_of(r: ExifEntryResult, walk: Walk) -> bool {
    match walk.error {
        Some(e) => r is Err && r->Err_0@ == e,
        None => r is Ok && entry_views(r->Ok_0@) == walk.entries,
    }
}

/// One more step of `follow_pointers` from an entry that is not the last.
proof fn lemma_follow_step(
    le: bool,
    contents: Seq<u8>,
    raws: Seq<IfdEntryView>,
    from: int,
    acc: Walk,
)
    requires
        0 <= from < raws.len(),
        acc.error is None,
    ensures
        ({
            let next = if is_pointer(raws[from]) {
                follow_pointer(le, contents, raws[from], acc)
            } else {
                acc
            };
            &&& follow_pointers(le, contents, raws, from, acc) == follow_pointers(
                le,
                contents,
                raws,
                from + 1,
                next,
            )
            &&& next.error is Some ==> follow_pointers(le, contents, raws, from, acc) == next
        }),
{
}

/// Decodes the root directory at `ifd0_offset`, then every sub-directory
/// that an Exif or GPS pointer entry of the root leads to, in the order of
/// the root's entries. The decoded entries come in that order: the root's
/// first. No entry is completed from its siblings yet. A truncated
/// directory is an error of the whole decode; an entry whose payload is not
/// all there is left out.
pub fn collect_ifds(
    le: bool,
    ifd0_offset: usize,
    contents: &[u8],
    warnings: &mut Vec<String>,
) -> (r: ExifEntryResult)
    ensures
        ({
            let walk = spec_collect_ifds(le, contents@, ifd0_offset as nat, texts(old(warnings)@));
            is_result_of(r, walk) && texts(final(warnings)@) == walk.warnings
        }),
{
    let mut exif_entries: Vec<ExifEntry> = Vec::new();
    assert(entry_views(exif_entries@) =~= Seq::<ExifEntryView>::empty());
    match parse_exif_ifd(le, contents, ifd0_offset, &mut exif_entries, warnings) {
        Ok(_) => {},
        Err(e) => {
            return Err(e);
        },
    }
    let total = contents.len();
    let count = read_u16(le, slice_subrange(contents, ifd0_offset, ifd0_offset + 2));
    let ifd_length = (count as usize) * 12 + 4;
    let offset = ifd0_offset + 2;
    if total - offset < ifd_length {
        return Err(ExifError::IfdTruncated);
    }
    let listing = slice_subrange(contents, offset, offset + ifd_length);
    let (ifd, _) = match parse_ifd(false, le, count, listing) {
        Some(parsed) => parsed,
        None => {
            return Err(ExifError::IfdTruncated);
        },
    };
    let ghost raws = spec_directory(le, contents@, ifd0_offset as nat)->Ok_0;
    let ghost goal = spec_collect_ifds(le, contents@, ifd0_offset as nat, texts(old(warnings)@));
    proof {
        assert(listing@.subrange(0, 12 * count as int) =~= contents@.subrange(
            offset as int,
            offset as int + 12 * count,
        ).subrange(0, 12 * count as int));
        lemma_raw_entries_prefix(
            le,
            listing@,
            contents@.subrange(offset as int, offset as int + 12 * count),
            count as nat,
        );
        assert(ifd_views(ifd@) == raws);
        assert forall|k: int| 0 <= k < ifd@.len() implies (#[trigger] ifd@[k]).ifd_data@.len()
            == 4 by {
            assert(ifd@[k]@ == raws[k]);
        }
    }
    let mut i: usize = 0;
    while i < ifd.len()
        invariant
            i <= ifd@.len(),
            raws == ifd_views(ifd@),
            total == contents@.len(),
            forall|k: int| 0 <= k < ifd@.len() ==> (#[trigger] ifd@[k]).ifd_data@.len() == 4,
            goal == spec_collect_ifds(le, contents@, ifd0_offset as nat, texts(old(warnings)@)),
            goal == follow_pointers(
                le,
                contents@,
                raws,
                i as int,
                Walk {
                    entries: entry_views(exif_entries@),
                    warnings: texts(warnings@),
                    error: None,
                },
            ),
        decreases ifd@.len() - i,
    {
        let entry = &ifd[i];
        proof {
            assert(raws[i as int] == entry@);
            lemma_follow_step(
                le,
                contents@,
                raws,
                i as int,
                Walk {
                    entries: entry_views(exif_entries@),
                    warnings: texts(warnings@),
                    error: None,
                },
            );
        }
        if entry.tag == EXIF_OFFSET_TAG || entry.tag == GPS_OFFSET_TAG {
            let exif_offset = entry.data_as_offset();
            if total < exif_offset {
                return Err(ExifError::ExifIfdTruncated("Exif SubIFD goes past EOF".to_owned()));
            }
            match parse_exif_ifd(le, contents, exif_offset, &mut exif_entries, warnings) {
                Ok(_) => {},
                Err(e) => {
                    return Err(e);
                },
            }
        }
        i += 1;
    }
    Ok(exif_entries)
}

/// The walk of `spec_collect_ifds`, with each entry completed from its
/// siblings where the walk has no error.
pub open spec fn spec_parse_ifds(
    le: bool,
    contents: Seq<u8>,
    ifd0_offset: nat,
    warnings: Seq<Seq<char>>,
) -> Walk {
    let walk = spec_collect_ifds(le, contents, ifd0_offset, warnings);
    if walk.error is None {
        Walk { entries: spec_postprocess_all(walk.entries), ..walk }
    } else {
        walk
    }
}

/// Decodes the root directory at `ifd0_offset` and the sub-directories
/// that it points at, then completes each entry from its siblings.
pub fn parse_ifds(
    le: bool,
    ifd0_offset: usize,
    contents: &[u8],
    warnings: &mut Vec<String>,
) -> (r: ExifEntryResult)
    ensures
        ({
            let walk = spec_parse_ifds(le, contents@, ifd0_offset as nat, texts(old(warnings)@));
            is_result_of(r, walk) && texts(final(warnings)@) == walk.warnings
        }),
{
    match collect_ifds(le, ifd0_offset, contents, warnings) {
        Ok(mut exif_entries) => {
            postprocess_all(&mut exif_entries);
            Ok(exif_entries)
        },
        Err(e) => Err(e),
    }
}

/// The text that tells the first four bytes of a bad preamble.
pub open spec fn spec_preamble_text(contents: Seq<u8>) -> Seq<char>
    recommends
        contents.len() >= 4,
{
    "Preamble is "@ + spec_hex(contents[0] as nat) + " "@ + spec_hex(contents[1] as nat) + " "@
        + spec_hex(contents[2] as nat) + " "@ + spec_hex(contents[3] as nat)
}

/// The byte order that the preamble declares: little-endian for `II`
/// followed by 42 and 0, big-endian for `MM` followed by 0 and 42. A buffer
/// of less than 8 bytes is truncated; any other first four bytes are a bad
/// preamble.
pub open spec fn spec_byte_order(contents: Seq<u8>) -> Result<bool, ExifErrorView> {
    if contents.len() < 8 {
        Err(ExifErrorView::TiffTruncated)
    } else if contents[0] == 0x49 && contents[1] == 0x49 && contents[2] == 42 && contents[3]
        == 0 {
        Ok(true)
    } else if contents[0] == 0x4d && contents[1] == 0x4d && contents[2] == 0 && contents[3]
        == 42 {
        Ok(false)
    } else {
        Err(ExifErrorView::TiffBadPreamble(spec_preamble_text(contents)))
    }
}

/// Checks the 8-byte preamble and returns the byte order that it declares:
/// `true` for little-endian.
pub fn tiff_byte_order(contents: &[u8]) -> (r: Result<bool, ExifError>)
    ensures
        match spec_byte_order(contents@) {
            Ok(le) => r == Ok::<bool, ExifError>(le),
            Err(e) => r is Err && r->Err_0@ == e,
        },
{
    if contents.len() < 8 {
        Err(ExifError::TiffTruncated)
    } else if contents[0] == 0x49 && contents[1] == 0x49 && contents[2] == 42 && contents[3]
        == 0 {
        Ok(true)
    } else if contents[0] == 0x4d && contents[1] == 0x4d && contents[2] == 0 && contents[3]
        == 42 {
        Ok(false)
    } else {
        let mut text = "Preamble is ".to_owned();
        push_hex(&mut text, contents[0] as u64);
        text.append(" ");
        push_hex(&mut text, contents[1] as u64);
        text.append(" ");
        push_hex(&mut text, contents[2] as u64);
        text.append(" ");
        push_hex(&mut text, contents[3] as u64);
        Err(ExifError::TiffBadPreamble(text))
    }
}

/// The offset of the root directory: the 4 bytes after the preamble's
/// first four, in the declared byte order.
pub open spec fn spec_root_offset(le: bool, contents: Seq<u8>) -> nat
    recommends
        contents.len() >= 8,
{
    spec_read_u32(le, contents.subrange(4, 8)) as nat
}

/// The decode of a whole buffer: the error of the preamble, or the walk
/// from the root directory in the byte order that the preamble declares.
pub open spec fn spec_parse_tiff(contents: Seq<u8>, warnings: Seq<Seq<char>>) -> Walk {
    match spec_byte_order(contents) {
        Err(e) => Walk { entries: Seq::empty(), warnings, error: Some(e) },
        Ok(le) => spec_parse_ifds(le, contents, spec_root_offset(le, contents), warnings),
    }
}

/// Decodes a TIFF-structured buffer, such as the Exif segment of a JPEG
/// image holds: all entries of the root directory and of its Exif and GPS
/// sub-directories. Warnings are appended to `warnings`, also where the
/// decode ends in an error.
pub fn parse_tiff(contents: &[u8], warnings: &mut Vec<String>) -> (r: ExifEntryResult)
    ensures
        ({
            let walk = spec_parse_tiff(contents@, texts(old(warnings)@));
            is_result_of(r, walk) && texts(final(warnings)@) == walk.warnings
        }),
{
    let le = match tiff_byte_order(contents) {
        Ok(le) => le,
        Err(e) => {
            return Err(e);
        },
    };
    let offset = read_u32(le, slice_subrange(contents, 4, 8)) as usize;
    parse_ifds(le, offset, contents, warnings)
}

/// An entry of a recognised tag that does not meet the tag's schema is
/// decoded as an unrecognised one, with its raw entry and its typed value,
/// and gives exactly one warning. It is no error: whether a walk fails is
/// decided by the structure of the directories alone.
pub proof fn lemma_schema_mismatch(f: IfdEntryView, warnings: Seq<Seq<char>>)
    requires
        spec_tag_to_exif(f.tag).tag != ExifTag::UnknownToMe,
        !spec_tag_to_exif(f.tag).admits(f.format, f.count),
    ensures
        spec_exif_entry(f) == (ExifEntryView {
            namespace: f.namespace,
            ifd: f,
            tag: ExifTag::UnknownToMe,
            value: spec_tag_value(f),
            unit: Seq::empty(),
            value_more_readable: spec_tag_value(f).text(),
        }),
        spec_entry_warning(f) is Some,
        with_warning(warnings, f) == warnings.push(spec_entry_warning(f)->Some_0),
        with_warning(warnings, f).len() == warnings.len() + 1,
{
}

/// An entry whose tag code the table does not hold is decoded with its raw
/// entry and its typed value, an empty unit and the plain text of the
/// value, and gives no warning.
pub proof fn lemma_unknown_tag_passthrough(f: IfdEntryView, warnings: Seq<Seq<char>>)
    requires
        spec_tag_to_exif(f.tag).tag == ExifTag::UnknownToMe,
    ensures
        spec_exif_entry(f) == (ExifEntryView {
            namespace: f.namespace,
            ifd: f,
            tag: ExifTag::UnknownToMe,
            value: spec_tag_value(f),
            unit: Seq::empty(),
            value_more_readable: spec_tag_value(f).text(),
        }),
        spec_entry_warning(f) is None,
        with_warning(warnings, f) == warnings,
{
}

/// Every decoded entry keeps its raw entry and has the typed value of that
/// entry. One whose tag is not recognised has an empty unit and the plain
/// text of its value, and the pass over all entries leaves it as it is.
pub proof fn lemma_decoded_entry_shape(f: IfdEntryView, entries: Seq<ExifEntryView>)
    ensures
        spec_exif_entry(f).ifd == f,
        spec_exif_entry(f).namespace == f.namespace,
        spec_exif_entry(f).value == spec_tag_value(f),
        spec_exif_entry(f).tag == ExifTag::UnknownToMe || spec_exif_entry(f).tag
            == spec_tag_to_exif(f.tag).tag,
        spec_exif_entry(f).tag == ExifTag::UnknownToMe ==> {
            &&& spec_exif_entry(f).unit == Seq::<char>::empty()
            &&& spec_exif_entry(f).value_more_readable == spec_tag_value(f).text()
            &&& spec_postprocess(spec_exif_entry(f), entries) == spec_exif_entry(f)
        },
{
}

/// Every raw entry of a directory whose payload is all there has its
/// decoded entry among those of the directory, whatever its tag.
pub proof fn lemma_decoded_contains(raws: Seq<IfdEntryView>, contents: Seq<u8>, i: int)
    requires
        0 <= i < raws.len(),
        raws[i].payload(contents) is Some,
    ensures
        decoded_entries(raws, contents).contains(spec_exif_entry(raws[i].resolved(contents))),
{
    let kept = raws.filter(resolves(contents));
    raws.lemma_filter_contains(resolves(contents), i);
    let k = choose|k: int| 0 <= k < kept.len() && kept[k] == raws[i];
    assert(decoded_entries(raws, contents)[k] == spec_exif_entry(raws[i].resolved(contents)));
}

/// The decoded entries of the sub-directories that the pointer entries
/// among `raws[from..]` lead to, one directory after the other in the
/// order of the pointers.
pub open spec fn pointed_entries(
    le: bool,
    contents: Seq<u8>,
    raws: Seq<IfdEntryView>,
    from: int,
) -> Seq<ExifEntryView>
    decreases raws.len() - from,
{
    if from < 0 || from >= raws.len() {
        Seq::empty()
    } else if is_pointer(raws[from]) {
        (match spec_directory(le, contents, raws[from].data_as_offset()) {
            Ok(sub) => decoded_entries(sub, contents),
            Err(_) => Seq::empty(),
        }) + pointed_entries(le, contents, raws, from + 1)
    } else {
        pointed_entries(le, contents, raws, from + 1)
    }
}

/// A walk over pointer entries that ends without an error has appended the
/// entries of the directories pointed at, in order, to what was gathered
/// before.
pub proof fn lemma_follow_entries(
    le: bool,
    contents: Seq<u8>,
    raws: Seq<IfdEntryView>,
    from: int,
    acc: Walk,
)
    requires
        0 <= from <= raws.len(),
        follow_pointers(le, contents, raws, from, acc).error is None,
    ensures
        follow_pointers(le, contents, raws, from, acc).entries == acc.entries + pointed_entries(
            le,
            contents,
            raws,
            from,
        ),
    decreases raws.len() - from,
{
    if from >= raws.len() || acc.error is Some {
        assert(acc.entries + Seq::<ExifEntryView>::empty() =~= acc.entries);
    } else if is_pointer(raws[from]) {
        let next = follow_pointer(le, contents, raws[from], acc);
        if next.error is Some {
            lemma_follow_error_stays(le, contents, raws, from + 1, next);
        } else {
            lemma_follow_entries(le, contents, raws, from + 1, next);
            assert(next.entries + pointed_entries(le, contents, raws, from + 1) =~= acc.entries
                + pointed_entries(le, contents, raws, from));
        }
    } else {
        lemma_follow_entries(le, contents, raws, from + 1, acc);
    }
}

/// A walk that has an error stays as it is.
proof fn lemma_follow_error_stays(
    le: bool,
    contents: Seq<u8>,
    raws: Seq<IfdEntryView>,
    from: int,
    acc: Walk,
)
    requires
        acc.error is Some,
    ensures
        follow_pointers(le, contents, raws, from, acc) == acc,
{
}

/// A walk that ends without an error gives the entries of the root
/// directory first, in the order of the directory, and after them those of
/// each sub-directory that a pointer entry of the root leads to, each in
/// its own order and one directory after the other in the order of the
/// pointers.
pub proof fn lemma_subdirectories_after_root(
    le: bool,
    contents: Seq<u8>,
    ifd0_offset: nat,
    warnings: Seq<Seq<char>>,
)
    requires
        spec_collect_ifds(le, contents, ifd0_offset, warnings).error is None,
    ensures
        spec_directory(le, contents, ifd0_offset) is Ok,
        spec_collect_ifds(le, contents, ifd0_offset, warnings).entries == decoded_entries(
            spec_directory(le, contents, ifd0_offset)->Ok_0,
            contents,
        ) + pointed_entries(le, contents, spec_directory(le, contents, ifd0_offset)->Ok_0, 0),
{
    let raws = spec_directory(le, contents, ifd0_offset)->Ok_0;
    let root = walk_directory(
        le,
        contents,
        ifd0_offset,
        Walk { entries: Seq::empty(), warnings, error: None },
    );
    lemma_follow_entries(le, contents, raws, 0, root);
    assert(root.entries =~= decoded_entries(raws, contents));
}

} // verus!
