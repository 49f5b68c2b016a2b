//! The pass over all decoded entries that completes the readable text of an
//! entry from a sibling entry: a resolution from its unit, a GPS magnitude
//! from its reference.

use vstd::prelude::*;
use vstd::string::StringExecFns;
use crate::types::{entry_views, ExifEntry, ExifEntryView, ExifTag, TagValue, TagValueView};

verus! {

/// How the text of a sibling completes the text of an entry.
#[derive(Copy, Clone, Debug, PartialEq, Eq, Structural)]
pub enum Joiner {
    /// The sibling's text follows after " pixels per ".
    PixelsPer,
    /// The sibling's text follows after a space.
    Space,
    /// " below sea level" follows where the sibling's first byte is not 0.
    SeaLevel,
}

/// The sibling that completes the text of a tag, and how; `None` for a tag
/// whose text is complete by itself.
pub open spec fn spec_companion(tag: ExifTag) -> Option<(ExifTag, Joiner)> {
    match tag {
        ExifTag::XResolution => Some((ExifTag::ResolutionUnit, Joiner::PixelsPer)),
        ExifTag::YResolution => Some((ExifTag::ResolutionUnit, Joiner::PixelsPer)),
        ExifTag::FocalPlaneXResolution => Some(
            (ExifTag::FocalPlaneResolutionUnit, Joiner::PixelsPer),
        ),
        ExifTag::FocalPlaneYResolution => Some(
            (ExifTag::FocalPlaneResolutionUnit, Joiner::PixelsPer),
        ),
        ExifTag::GPSLatitude => Some((ExifTag::GPSLatitudeRef, Joiner::Space)),
        ExifTag::GPSLongitude => Some((ExifTag::GPSLongitudeRef, Joiner::Space)),
        ExifTag::GPSAltitude => Some((ExifTag::GPSAltitudeRef, Joiner::SeaLevel)),
        ExifTag::GPSDestLatitude => Some((ExifTag::GPSDestLatitudeRef, Joiner::Space)),
        ExifTag::GPSDestLongitude => Some((ExifTag::GPSDestLongitudeRef, Joiner::Space)),
        ExifTag::GPSDestBearing => Some((ExifTag::GPSDestBearingRef, Joiner::Space)),
        ExifTag::GPSDestDistance => Some((ExifTag::GPSDestDistanceRef, Joiner::Space)),
        ExifTag::GPSSpeed => Some((ExifTag::GPSSpeedRef, Joiner::Space)),
        ExifTag::GPSTrack => Some((ExifTag::GPSTrackRef, Joiner::Space)),
        ExifTag::GPSImgDirection => Some((ExifTag::GPSImgDirectionRef, Joiner::Space)),
        _ => None,
    }
}

/// The sibling that completes the text of a tag, and how.
pub fn companion(tag: ExifTag) -> (r: Option<(ExifTag, Joiner)>)
    ensures
        r == spec_companion(tag),
{
    match tag {
        ExifTag::XResolution => Some((ExifTag::ResolutionUnit, Joiner::PixelsPer)),
        ExifTag::YResolution => Some((ExifTag::ResolutionUnit, Joiner::PixelsPer)),
        ExifTag::FocalPlaneXResolution => Some(
            (ExifTag::FocalPlaneResolutionUnit, Joiner::PixelsPer),
        ),
        ExifTag::FocalPlaneYResolution => Some(
            (ExifTag::FocalPlaneResolutionUnit, Joiner::PixelsPer),
        ),
        ExifTag::GPSLatitude => Some((ExifTag::GPSLatitudeRef, Joiner::Space)),
        ExifTag::GPSLongitude => Some((ExifTag::GPSLongitudeRef, Joiner::Space)),
        ExifTag::GPSAltitude => Some((ExifTag::GPSAltitudeRef, Joiner::SeaLevel)),
        ExifTag::GPSDestLatitude => Some((ExifTag::GPSDestLatitudeRef, Joiner::Space)),
        ExifTag::GPSDestLongitude => Some((ExifTag::GPSDestLongitudeRef, Joiner::Space)),
        ExifTag::GPSDestBearing => Some((ExifTag::GPSDestBearingRef, Joiner::Space)),
        ExifTag::GPSDestDistance => Some((ExifTag::GPSDestDistanceRef, Joiner::Space)),
        ExifTag::GPSSpeed => Some((ExifTag::GPSSpeedRef, Joiner::Space)),
        ExifTag::GPSTrack => Some((ExifTag::GPSTrackRef, Joiner::Space)),
        ExifTag::GPSImgDirection => Some((ExifTag::GPSImgDirectionRef, Joiner::Space)),
        _ => None,
    }
}

/// The index of the first of the first `n` entries that has the given tag.
pub open spec fn first_with_tag(tag: ExifTag, entries: Seq<ExifEntryView>, n: nat) -> Option<int>
    recommends
        n <= entries.len(),
    decreases n,
{
    if n == 0 {
        None
    } else {
        match first_with_tag(tag, entries, (n - 1) as nat) {
            Some(i) => Some(i),
            None => if entries[n - 1].tag == tag {
                Some(n - 1)
            } else {
                None
            },
        }
    }
}

/// The first entry that has the given tag.
pub open spec fn other_tag(tag: ExifTag, entries: Seq<ExifEntryView>) -> Option<ExifEntryView> {
    match first_with_tag(tag, entries, entries.len()) {
        Some(i) => Some(entries[i]),
        None => None,
    }
}

/// What `first_with_tag` finds is an entry with the tag, before which no
/// entry has it; and it finds one wherever there is one.
pub proof fn lemma_first_with_tag(tag: ExifTag, entries: Seq<ExifEntryView>, n: nat)
    requires
        n <= entries.len(),
    ensures
        match first_with_tag(tag, entries, n) {
            Some(i) => 0 <= i < n && entries[i].tag == tag && forall|j: int|
                0 <= j < i ==> entries[j].tag != tag,
            None => forall|j: int| 0 <= j < n ==> entries[j].tag != tag,
        },
    decreases n,
{
    if n > 0 {
        lemma_first_with_tag(tag, entries, (n - 1) as nat);
    }
}

/// Whether an altitude reference tells "below sea level": its value is an
/// array of bytes whose first is not 0.
pub open spec fn below_sea_level(value: TagValueView) -> bool {
    match value {
        TagValueView::U8(v) => v.len() >= 1 && v[0] != 0,
        _ => false,
    }
}

/// The readable text of an entry once completed from its sibling among
/// `entries`; the text as it is where the tag has no sibling rule or the
/// sibling is not there.
pub open spec fn spec_postprocessed_text(
    entry: ExifEntryView,
    entries: Seq<ExifEntryView>,
) -> Seq<char> {
    let text = entry.value_more_readable;
    match spec_companion(entry.tag) {
        None => text,
        Some((tag, how)) => match other_tag(tag, entries) {
            None => text,
            Some(f) => match how {
                Joiner::PixelsPer => text + " pixels per "@ + f.value_more_readable,
                Joiner::Space => text + " "@ + f.value_more_readable,
                Joiner::SeaLevel => if below_sea_level(f.value) {
                    text + " below sea level"@
                } else {
                    text
                },
            },
        },
    }
}

/// An entry after the pass: only its readable text may differ.
pub open spec fn spec_postprocess(
    entry: ExifEntryView,
    entries: Seq<ExifEntryView>,
) -> ExifEntryView {
    ExifEntryView { value_more_readable: spec_postprocessed_text(entry, entries), ..entry }
}

/// All entries after the pass. Each is completed from the entries as they
/// were before the pass.
pub open spec fn spec_postprocess_all(entries: Seq<ExifEntryView>) -> Seq<ExifEntryView> {
    entries.map_values(|e: ExifEntryView| spec_postprocess(e, entries))
}

/// The pass keeps the number and the order of the entries, and of each
/// entry everything but its readable text.
pub proof fn lemma_postprocess_keeps(entries: Seq<ExifEntryView>, i: int)
    requires
        0 <= i < entries.len(),
    ensures
        spec_postprocess_all(entries).len() == entries.len(),
        spec_postprocess_all(entries)[i] == (ExifEntryView {
            value_more_readable: spec_postprocess_all(entries)[i].value_more_readable,
            ..entries[i]
        }),
{
}

/// Finds the first entry with the given tag.
fn find_tag(tag: ExifTag, entries: &Vec<ExifEntry>) -> (r: Option<usize>)
    ensures
        match r {
            Some(i) => first_with_tag(tag, entry_views(entries@), entries@.len()) == Some(
                i as int,
            ) && i < entries@.len(),
            None => first_with_tag(tag, entry_views(entries@), entries@.len()) is None,
        },
{
    let ghost views = entry_views(entries@);
    let mut i: usize = 0;
    while i < entries.len()
        invariant
            i <= entries@.len(),
            views == entry_views(entries@),
            first_with_tag(tag, views, i as nat) is None,
        decreases entries@.len() - i,
    {
        if entries[i].tag == tag {
            proof {
                lemma_found_stays(tag, views, i as int, entries@.len());
            }
            return Some(i);
        }
        i += 1;
    }
    None
}

/// Once an entry is found among the first `i + 1`, it is the one found among
/// any more.
proof fn lemma_found_stays(tag: ExifTag, entries: Seq<ExifEntryView>, i: int, n: nat)
    requires
        0 <= i < n <= entries.len(),
        first_with_tag(tag, entries, i as nat) is None,
        entries[i].tag == tag,
    ensures
        first_with_tag(tag, entries, n) == Some(i),
    decreases n,
{
    if n > i + 1 {
        lemma_found_stays(tag, entries, i, (n - 1) as nat);
    }
}

/// The readable text of `entry` once completed from its sibling among
/// `entries`.
pub fn postprocessed_text(entry: &ExifEntry, entries: &Vec<ExifEntry>) -> (r: String)
    ensures
        r@ == spec_postprocessed_text(entry@, entry_views(entries@)),
{
    let mut text = entry.value_more_readable.clone();
    match companion(entry.tag) {
        None => {},
        Some((tag, how)) => {
            match find_tag(tag, entries) {
                None => {},
                Some(i) => {
                    let f = &entries[i];
                    assert(entry_views(entries@)[i as int] == f@);
                    match how {
                        Joiner::PixelsPer => {
                            text.append(" pixels per ");
                            text.append(f.value_more_readable.as_str());
                        },
                        Joiner::Space => {
                            text.append(" ");
                            text.append(f.value_more_readable.as_str());
                        },
                        Joiner::SeaLevel => {
                            let below = match &f.value {
                                TagValue::U8(v) => v.len() >= 1 && v[0] != 0,
                                _ => false,
                            };
                            if below {
                                text.append(" below sea level");
                            }
                        },
                    }
                },
            }
        },
    }
    text
}

/// Completes the readable text of `entry` from its sibling among `entries`.
/// Nothing but the readable text changes.
pub fn exif_postprocessing(entry: &mut ExifEntry, entries: &Vec<ExifEntry>)
    ensures
        final(entry)@ == spec_postprocess(old(entry)@, entry_views(entries@)),
{
    let text = postprocessed_text(entry, entries);
    entry.value_more_readable = text;
}

/// Runs the pass over all entries, once for each, in order. Each entry is
/// completed from the entries as they were before the pass.
pub fn postprocess_all(entries: &mut Vec<ExifEntry>)
    ensures
        entry_views(final(entries)@) == spec_postprocess_all(entry_views(old(entries)@)),
{
    let mut texts: Vec<String> = Vec::new();
    let mut i: usize = 0;
    while i < entries.len()
        invariant
            i <= entries@.len(),
            texts@.len() == i,
            forall|k: int|
                0 <= k < i ==> (#[trigger] texts@[k])@ == spec_postprocessed_text(
                    entries@[k]@,
                    entry_views(entries@),
                ),
        decreases entries@.len() - i,
    {
        let text = postprocessed_text(&entries[i], entries);
        texts.push(text);
        i += 1;
    }
    let ghost before = entry_views(entries@);
    let mut j: usize = 0;
    while j < entries.len()
        invariant
            j <= entries@.len(),
            entries@.len() == before.len(),
            texts@.len() == before.len(),
            forall|k: int|
                0 <= k < before.len() ==> (#[trigger] texts@[k])@ == spec_postprocessed_text(
                    before[k],
                    before,
                ),
            forall|k: int|
                0 <= k < j ==> (#[trigger] entries@[k])@ == spec_postprocess(before[k], before),
            forall|k: int| j <= k < before.len() ==> (#[trigger] entries@[k])@ == before[k],
        decreases entries@.len() - j,
    {
        let text = texts[j].clone();
        let entry = &mut entries[j];
        entry.value_more_readable = text;
        j += 1;
    }
    assert(entry_views(entries@) =~= spec_postprocess_all(before));
}

} // verus!
