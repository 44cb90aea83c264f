//! Which codepoints a font file maps to glyphs.
use read_fonts::tables::cmap::{CmapSubtable, CmapSubtableIter, PlatformId};
use read_fonts::types::GlyphId;
use read_fonts::{FontRef, TableProvider};
use vstd::prelude::*;

verus! {

/// The platforms that a character map can be made for.
#[derive(Debug, Clone, Copy, PartialEq, Eq, Structural)]
pub enum CmapPlatform {
    Unicode,
    Macintosh,
    Iso,
    Windows,
    Custom,
    Unknown,
}

impl CmapPlatform {
    /// The platforms whose character maps go by Unicode codepoints.
    pub open spec fn goes_by_unicode(self) -> bool {
        self == CmapPlatform::Unicode || self == CmapPlatform::Windows
    }

    /// Whether character maps for the platform go by Unicode codepoints.
    pub fn is_unicode(self) -> (r: bool)
        ensures
            r == self.goes_by_unicode(),
    {
        self == CmapPlatform::Unicode || self == CmapPlatform::Windows
    }
}

/// An iterator of `read_fonts` over the mappings of a character map subtable.
#[verifier::external_type_specification]
#[verifier::external_body]
pub struct ExCmapSubtableIter<'a>(CmapSubtableIter<'a>);

/// A glyph identifier of `read_fonts`, the other half of a mapping.
#[verifier::external_type_specification]
#[verifier::external_body]
pub struct ExGlyphId(GlyphId);

/// Whether `FontRef::new` takes some bytes for a font.
pub uninterp spec fn opens_as_font(data: Seq<u8>) -> bool;

/// The number of encoding records in the `cmap` table of a font, if it has a
/// readable one.
pub uninterp spec fn record_count(data: Seq<u8>) -> Option<nat>;

/// The platform of an encoding record of a font, if there is such a record.
pub uninterp spec fn platform_at(data: Seq<u8>, index: u16) -> Option<CmapPlatform>;

/// The first codepoint and the number of codepoints of a subtable of format 10;
/// other subtables have none.
pub uninterp spec fn dense_span_at(data: Seq<u8>, index: u16) -> Option<(u32, nat)>;

/// The codepoints that the subtable of an encoding record maps, in the order in
/// which it yields them, if the subtable is readable.
pub uninterp spec fn codes_at(data: Seq<u8>, index: u16) -> Option<Seq<u32>>;

/// The codepoints that an iterator has still to yield.
pub uninterp spec fn codes_left(iter: CmapSubtableIter<'_>) -> Seq<u32>;

/// Whether an iterator goes over codepoints of 32 bits alone.
pub uninterp spec fn stays_in_bounds(iter: CmapSubtableIter<'_>) -> bool;

/// The codepoints of a subtable do not go past 32 bits.
pub open spec fn codes_fit(data: Seq<u8>, index: u16) -> bool {
    match dense_span_at(data, index) {
        Some((first, length)) => first + length <= 0x1_0000_0000,
        None => true,
    }
}

/// `FontRef::new`: whether it accepts the bytes depends on them alone.
#[verifier::external_body]
fn font_opens(data: &[u8]) -> (r: bool)
    ensures
        r == opens_as_font(data@),
{
    FontRef::new(data).is_ok()
}

/// `Cmap::encoding_records` of the font's `cmap` table: their number depends on
/// the bytes alone. There is none where the bytes are no font or the font has no
/// readable `cmap` table. The table counts its records in 16 bits.
#[verifier::external_body]
fn encoding_record_count(data: &[u8]) -> (r: Option<usize>)
    ensures
        match r {
            Some(n) => record_count(data@) == Some(n as nat) && n <= 0xFFFF,
            None => record_count(data@) is None,
        },
{
    Some(FontRef::new(data).ok()?.cmap().ok()?.encoding_records().len())
}

/// `EncodingRecord::platform_id` of one record: the platform depends on the bytes
/// and the record's index alone.
#[verifier::external_body]
fn encoding_platform(data: &[u8], index: u16) -> (r: Option<CmapPlatform>)
    ensures
        r == platform_at(data@, index),
{
    let cmap = FontRef::new(data).ok()?.cmap().ok()?;
    match cmap.encoding_records().get(index as usize)?.platform_id() {
        PlatformId::Unicode => Some(CmapPlatform::Unicode),
        PlatformId::Macintosh => Some(CmapPlatform::Macintosh),
        PlatformId::ISO => Some(CmapPlatform::Iso),
        PlatformId::Windows => Some(CmapPlatform::Windows),
        PlatformId::Custom => Some(CmapPlatform::Custom),
        PlatformId::Unknown => Some(CmapPlatform::Unknown),
    }
}

/// `Cmap10::start_char_code` and `Cmap10::glyph_id_array` of a subtable of format
/// 10: its first codepoint and how many it maps depend on the bytes and the
/// record's index alone. A subtable that is of another format, or cannot be
/// read, has no such span.
#[verifier::external_body]
fn dense_span(data: &[u8], index: u16) -> (r: Option<(u32, usize)>)
    ensures
        match r {
            Some(span) => dense_span_at(data@, index) == Some((span.0, span.1 as nat)),
            None => dense_span_at(data@, index) is None,
        },
{
    match FontRef::new(data).ok()?.cmap().ok()?.subtable(index).ok()? {
        CmapSubtable::Format10(item) => Some((item.start_char_code(), item.glyph_id_array().len())),
        _ => None,
    }
}

/// `Cmap::subtable` and `CmapSubtable::iter`: whether the subtable can be read,
/// and which codepoints its iterator yields, depend on the bytes and the record's
/// index alone. An iterator over a subtable of format 10 adds to the first
/// codepoint in 32 bits, so the sum has to fit.
#[verifier::external_body]
fn subtable_codes<'a>(data: &'a [u8], index: u16) -> (r: Option<CmapSubtableIter<'a>>)
    requires
        codes_fit(data@, index),
    ensures
        match r {
            Some(iter) => codes_at(data@, index) == Some(codes_left(iter)) && stays_in_bounds(
                iter,
            ),
            None => codes_at(data@, index) is None,
        },
{
    Some(FontRef::new(data).ok()?.cmap().ok()?.subtable(index).ok()?.iter())
}

/// `CmapSubtableIter::next`, the glyph left out: it yields the codepoints one
/// after the other, and nothing more after the last one.
#[verifier::external_body]
fn next_code(iter: &mut CmapSubtableIter<'_>) -> (r: Option<u32>)
    requires
        stays_in_bounds(*old(iter)),
    ensures
        stays_in_bounds(*final(iter)),
        codes_left(*old(iter)).len() == 0 ==> r is None && codes_left(*final(iter)) == codes_left(
            *old(iter),
        ),
        codes_left(*old(iter)).len() > 0 ==> r == Some(codes_left(*old(iter))[0]) && codes_left(
            *final(iter),
        ) == codes_left(*old(iter)).drop_first(),
{
    iter.next().map(|pair| pair.0)
}

/// One of some codepoints lies in `start..=end`.
pub open spec fn hits(codes: Seq<u32>, start: u32, end: u32) -> bool {
    exists|k: int| 0 <= k < codes.len() && start <= #[trigger] codes[k] <= end
}

/// An encoding record goes by Unicode codepoints, and its subtable maps one that
/// lies in `start..=end`.
pub open spec fn record_covers(
    platform: Option<CmapPlatform>,
    codes: Option<Seq<u32>>,
    start: u32,
    end: u32,
) -> bool {
    &&& platform is Some && platform->0.goes_by_unicode()
    &&& codes is Some && hits(codes->0, start, end)
}

/// One of the encoding records of a font covers part of `start..=end`.
pub open spec fn font_covers(data: Seq<u8>, start: u32, end: u32) -> bool {
    &&& record_count(data) is Some
    &&& exists|i: u16|
        i < record_count(data)->0 && record_covers(
            #[trigger] platform_at(data, i),
            codes_at(data, i),
            start,
            end,
        )
}

/// The subtables of a font that are looked at can be gone through to the end.
pub open spec fn font_scannable(data: Seq<u8>) -> bool {
    record_count(data) is Some ==> forall|i: u16|
        i < record_count(data)->0 && (#[trigger] platform_at(data, i)) is Some && platform_at(
            data,
            i,
        )->0.goes_by_unicode() ==> codes_fit(data, i)
}

/// Whether a codepoint lies in `start..=end`.
pub fn code_in_range(code: u32, start: u32, end: u32) -> (r: bool)
    ensures
        r == (start <= code <= end),
{
    code >= start && code <= end
}

/// Whether an iterator still has a codepoint in `start..=end` to yield.
fn yields_in_range(codes: CmapSubtableIter<'_>, start: u32, end: u32) -> (r: bool)
    requires
        stays_in_bounds(codes),
    ensures
        r == hits(codes_left(codes), start, end),
{
    let ghost all = codes_left(codes);
    let mut iter = codes;
    let ghost mut passed: int = 0;
    assert(all.skip(0) =~= all);
    loop
        invariant
            stays_in_bounds(iter),
            all == codes_left(codes),
            0 <= passed <= all.len(),
            codes_left(iter) == all.skip(passed),
            forall|k: int| 0 <= k < passed ==> !(start <= #[trigger] all[k] <= end),
        decreases all.len() - passed,
    {
        match next_code(&mut iter) {
            None => {
                assert(!hits(all, start, end));
                return false;
            },
            Some(code) => {
                assert(code == all[passed]);
                if code_in_range(code, start, end) {
                    return true;
                }
                proof {
                    passed = passed + 1;
                    assert(codes_left(iter) =~= all.skip(passed));
                }
            },
        }
    }
}

/// The coverage of a font, held as the bytes of its file.
pub struct SecureFontCoverage<'a> {
    font: &'a [u8],
}

impl<'a> SecureFontCoverage<'a> {
    /// The bytes of the font file.
    pub closed spec fn font(&self) -> Seq<u8> {
        self.font@
    }

    /// The coverage of the font with the given bytes, if they are those of one.
    /// The bytes are not copied.
    pub fn new(font_data: &'a [u8]) -> (r: Option<Self>)
        ensures
            r is Some <==> opens_as_font(font_data@),
            r is Some ==> r->0.font() == font_data@,
    {
        if font_opens(font_data) {
            Some(SecureFontCoverage { font: font_data })
        } else {
            None
        }
    }

    /// Checks if the font covers AT LEAST ONE character in `start..=end`: if a
    /// subtable that goes by Unicode codepoints maps one. Nothing is allocated.
    pub fn covers_range(&self, start: u32, end: u32) -> (r: bool)
        requires
            font_scannable(self.font()),
        ensures
            r == font_covers(self.font(), start, end),
    {
        let ghost data = self.font();
        let count: usize = match encoding_record_count(self.font) {
            Some(count) => count,
            None => {
                return false;
            },
        };
        let mut i: usize = 0;
        while i < count
            invariant
                data == self.font@,
                font_scannable(data),
                count <= 0xFFFF,
                i <= count,
                record_count(data) == Some(count as nat),
                forall|j: u16|
                    j < i ==> !record_covers(
                        #[trigger] platform_at(data, j),
                        codes_at(data, j),
                        start,
                        end,
                    ),
            decreases count - i,
        {
            let index: u16 = i as u16;
            if let Some(platform) = encoding_platform(self.font, index) {
                if platform.is_unicode() {
                    if let Some(codes) = subtable_codes(self.font, index) {
                        if yields_in_range(codes, start, end) {
                            return true;
                        }
                    }
                }
            }
            i += 1;
        }
        false
    }

    /// Whether every subtable that `covers_range` looks at can be gone through to
    /// the end: the codepoints of none go past 32 bits.
    pub fn is_scannable(&self) -> (r: bool)
        ensures
            r == font_scannable(self.font()),
    {
        let ghost data = self.font();
        let count: usize = match encoding_record_count(self.font) {
            Some(count) => count,
            None => {
                return true;
            },
        };
        let mut i: usize = 0;
        while i < count
            invariant
                data == self.font@,
                data == self.font(),
                count <= 0xFFFF,
                i <= count,
                record_count(data) == Some(count as nat),
                forall|j: u16|
                    j < i && (#[trigger] platform_at(data, j)) is Some && platform_at(
                        data,
                        j,
                    )->0.goes_by_unicode() ==> codes_fit(data, j),
            decreases count - i,
        {
            let index: u16 = i as u16;
            if let Some(platform) = encoding_platform(self.font, index) {
                if platform.is_unicode() {
                    if let Some((first, length)) = dense_span(self.font, index) {
                        if length as u64 > 0x1_0000_0000 - first as u64 {
                            assert(!codes_fit(data, index));
                            return false;
                        }
                    }
                }
            }
            i += 1;
        }
        true
    }

    /// As `covers_range`, for any font: there is no answer for one that has a
    /// subtable whose codepoints go past 32 bits.
    pub fn try_covers_range(&self, start: u32, end: u32) -> (r: Option<bool>)
        ensures
            font_scannable(self.font()) ==> r == Some(font_covers(self.font(), start, end)),
            !font_scannable(self.font()) ==> r is None,
    {
        if self.is_scannable() {
            Some(self.covers_range(start, end))
        } else {
            None
        }
    }
}

/// A font that covers part of a range covers part of every wider one.
pub proof fn law_coverage_grows(data: Seq<u8>, start: u32, end: u32, from: u32, to: u32)
    requires
        from <= start,
        end <= to,
        font_covers(data, start, end),
    ensures
        font_covers(data, from, to),
{
    let i = choose|i: u16|
        i < record_count(data)->0 && record_covers(
            #[trigger] platform_at(data, i),
            codes_at(data, i),
            start,
            end,
        );
    let codes = codes_at(data, i)->0;
    let k = choose|k: int| 0 <= k < codes.len() && start <= #[trigger] codes[k] <= end;
    assert(from <= codes[k] <= to);
    assert(record_covers(platform_at(data, i), codes_at(data, i), from, to));
}

/// A font covers part of a range exactly if it covers part of one of the two
/// halves that the range is cut into.
pub proof fn law_coverage_splits(data: Seq<u8>, start: u32, middle: u32, end: u32)
    requires
        start <= middle < end,
    ensures
        font_covers(data, start, end) <==> font_covers(data, start, middle) || font_covers(
            data,
            (middle + 1) as u32,
            end,
        ),
{
    let next = (middle + 1) as u32;
    if font_covers(data, start, middle) {
        law_coverage_grows(data, start, middle, start, end);
    }
    if font_covers(data, next, end) {
        law_coverage_grows(data, next, end, start, end);
    }
    if font_covers(data, start, end) {
        let i = choose|i: u16|
            i < record_count(data)->0 && record_covers(
                #[trigger] platform_at(data, i),
                codes_at(data, i),
                start,
                end,
            );
        let codes = codes_at(data, i)->0;
        let k = choose|k: int| 0 <= k < codes.len() && start <= #[trigger] codes[k] <= end;
        if codes[k] <= middle {
            assert(record_covers(platform_at(data, i), codes_at(data, i), start, middle));
        } else {
            assert(next <= codes[k] <= end);
            assert(record_covers(platform_at(data, i), codes_at(data, i), next, end));
        }
    }
}

}
