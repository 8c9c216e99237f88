//! The boundary to the font engine: the outside types that pass through the
//! library, the names of what the engine reads from font data, and the calls
//! themselves. Nothing in this file is proved; every contract here is taken
//! on trust from the engine.

use crate::pens::DrawCommand;
use skrifa::instance::{LocationRef, Size};
use skrifa::outline::pen::PathElement;
use skrifa::outline::{DrawError, DrawSettings, OutlineGlyph, OutlineGlyphFormat};
use skrifa::raw::{ReadError, TableProvider};
use skrifa::{FontRef, MetadataProvider};
use vstd::prelude::*;

verus! {

/// `skrifa::FontRef`: a parsed, read-only view over the bytes of one font.
#[verifier::external_type_specification]
#[verifier::external_body]
pub struct ExFontRef<'a>(FontRef<'a>);

/// `skrifa::raw::ReadError`: why font bytes could not be parsed.
#[verifier::external_type_specification]
#[verifier::external_body]
pub struct ExReadError(ReadError);

/// `skrifa::outline::DrawError`: why a glyph's outline could not be drawn.
#[verifier::external_type_specification]
#[verifier::external_body]
pub struct ExDrawError(DrawError);

/// `skrifa::outline::OutlineGlyph`: one drawable glyph of a font.
#[verifier::external_type_specification]
#[verifier::external_body]
pub struct ExOutlineGlyph<'a>(OutlineGlyph<'a>);

/// `skrifa::outline::pen::PathElement`: one element of a drawn path.
#[verifier::external_type_specification]
#[verifier::external_body]
pub struct ExPathElement(PathElement);

/// Where a font stores its glyph outlines.
#[derive(Clone, Copy, Debug, PartialEq, Eq)]
pub enum OutlineStorage {
    Glyf,
    Cff,
    Cff2,
    Varc,
    Absent,
}

/// `None` where `FontRef::new` accepts `data` as a font; otherwise the words
/// of the error it gives.
pub uninterp spec fn font_read_failure(data: Seq<u8>) -> Option<Seq<char>>;

/// The words in which a `ReadError` displays itself.
pub uninterp spec fn read_error_words(error: ReadError) -> Seq<char>;

/// The words in which a `DrawError` displays itself.
pub uninterp spec fn draw_error_words(error: DrawError) -> Seq<char>;

/// The bytes that a parsed font is a view of.
pub uninterp spec fn font_bytes(font: FontRef) -> Seq<u8>;

/// The units per em in the `head` table of the font `data`, or `None` where
/// the engine cannot read that table.
pub uninterp spec fn stored_units_per_em(data: Seq<u8>) -> Option<u16>;

/// The IEEE-754 single-precision bit pattern of the weight that the engine
/// reports for the font `data`.
pub uninterp spec fn stored_weight_bits(data: Seq<u8>) -> u32;

/// The codepoints of the character map of the font `data`, in the order in
/// which the engine enumerates its mappings.
pub uninterp spec fn mapped_codepoints(data: Seq<u8>) -> Seq<u32>;

/// The outline storage format the engine finds in the font `data`.
pub uninterp spec fn outline_storage(data: Seq<u8>) -> OutlineStorage;

/// For each outline glyph that the engine's iteration hands out for the font
/// `data`, in glyph-index order, what an unhinted draw at design-unit size
/// gives: the commands, or the words of the error where the engine rejects
/// the glyph.
pub uninterp spec fn font_drawings(data: Seq<u8>) -> Seq<Result<Seq<DrawCommand>, Seq<char>>>;

/// What an unhinted draw of `glyph` at design-unit size gives: the commands,
/// or the words of the error where the engine rejects the glyph.
pub uninterp spec fn glyph_drawing(glyph: OutlineGlyph) -> Result<Seq<DrawCommand>, Seq<char>>;

/// The drawing command that a path element stands for.
pub uninterp spec fn element_command(element: PathElement) -> DrawCommand;

/// `FontRef::new`: parses `data` as a single font. The contract claims that
/// the outcome depends on the bytes alone, that the font returned is a view of
/// exactly those bytes, and that a failure is the one `font_read_failure`
/// names.
#[verifier::external_body]
pub(crate) fn parse_font<'a>(data: &'a Vec<u8>) -> (parsed: Result<FontRef<'a>, ReadError>)
    ensures
        parsed is Ok <==> font_read_failure(data@) is None,
        parsed is Ok ==> font_bytes(parsed->Ok_0) == data@,
        parsed is Err ==> font_read_failure(data@) == Some(read_error_words(parsed->Err_0)),
{
    FontRef::new(data.as_slice())
}

/// `TableProvider::head` and `Head::units_per_em`: the stored units per em,
/// `None` where the `head` table cannot be read.
#[verifier::external_body]
pub(crate) fn head_units_per_em(font: &FontRef) -> (stored: Option<u16>)
    ensures
        stored == stored_units_per_em(font_bytes(*font)),
{
    font.head().ok().map(|head| head.units_per_em())
}

/// `MetadataProvider::attributes`: the weight of the default instance, handed
/// out as the bit pattern of the engine's single-precision value.
#[verifier::external_body]
pub(crate) fn weight_bits(font: &FontRef) -> (bits: u32)
    ensures
        bits == stored_weight_bits(font_bytes(*font)),
{
    font.attributes().weight.value().to_bits()
}

/// `MetadataProvider::charmap` and `Charmap::mappings`: every mapped
/// codepoint, in enumeration order, without its glyph identifier.
#[verifier::external_body]
pub(crate) fn charmap_codepoints(font: &FontRef) -> (codepoints: Vec<u32>)
    ensures
        codepoints@ == mapped_codepoints(font_bytes(*font)),
{
    font.charmap().mappings().map(|mapping| mapping.0).collect()
}

/// `MetadataProvider::outline_glyphs` and `OutlineGlyphCollection::format`:
/// the storage format of the font's outlines.
#[verifier::external_body]
pub(crate) fn storage_format(font: &FontRef) -> (storage: OutlineStorage)
    ensures
        storage == outline_storage(font_bytes(*font)),
{
    match font.outline_glyphs().format() {
        Some(OutlineGlyphFormat::Glyf) => OutlineStorage::Glyf,
        Some(OutlineGlyphFormat::Cff) => OutlineStorage::Cff,
        Some(OutlineGlyphFormat::Cff2) => OutlineStorage::Cff2,
        Some(OutlineGlyphFormat::Varc) => OutlineStorage::Varc,
        None => OutlineStorage::Absent,
    }
}

/// `MetadataProvider::outline_glyphs` and `OutlineGlyphCollection::iter`: the
/// font's outline glyphs in glyph-index order. The contract claims that the
/// glyphs handed out are those that `font_drawings` speaks of, one for one.
#[verifier::external_body]
pub(crate) fn outline_glyphs<'a>(font: &FontRef<'a>) -> (glyphs: Vec<OutlineGlyph<'a>>)
    ensures
        glyphs@.len() == font_drawings(font_bytes(*font)).len(),
        forall|i: int|
            0 <= i < glyphs@.len() ==> glyph_drawing(#[trigger] glyphs@[i]) == font_drawings(
                font_bytes(*font),
            )[i],
{
    font.outline_glyphs().iter().map(|entry| entry.1).collect()
}

/// `OutlineGlyph::draw` with unhinted settings, design-unit size and the
/// default location, into a `Vec<PathElement>`. The contract claims that the
/// draw fails exactly where `glyph_drawing` is an error, with that error, and
/// that the elements stand, one for one and in order, for the commands it
/// names.
#[verifier::external_body]
pub(crate) fn draw_outline(glyph: &OutlineGlyph) -> (drawn: Result<Vec<PathElement>, DrawError>)
    ensures
        drawn is Ok <==> glyph_drawing(*glyph) is Ok,
        drawn is Ok ==> drawn->Ok_0@.map_values(|element: PathElement| element_command(element))
            == glyph_drawing(*glyph)->Ok_0,
        drawn is Err ==> draw_error_words(drawn->Err_0) == glyph_drawing(*glyph)->Err_0,
{
    let mut path: Vec<PathElement> = Vec::new();
    glyph.draw(DrawSettings::unhinted(Size::unscaled(), LocationRef::default()), &mut path)?;
    Ok(path)
}

/// Tells the straight variants of `PathElement` apart (`MoveTo`, `LineTo`,
/// `Close`) and hands out each coordinate as the bit pattern of the engine's
/// single-precision value; `None` for a curve.
#[verifier::external_body]
pub(crate) fn straight_command_of(element: &PathElement) -> (command: Option<DrawCommand>)
    ensures
        command == if element_command(*element).is_curve() {
            None
        } else {
            Some(element_command(*element))
        },
{
    match *element {
        PathElement::MoveTo { x, y } => Some(DrawCommand::MoveTo { x: x.to_bits(), y: y.to_bits() }),
        PathElement::LineTo { x, y } => Some(DrawCommand::LineTo { x: x.to_bits(), y: y.to_bits() }),
        PathElement::Close => Some(DrawCommand::Close),
        PathElement::QuadTo { .. } | PathElement::CurveTo { .. } => None,
    }
}

/// Tells the curved variants of `PathElement` apart (`QuadTo`, `CurveTo`) and
/// hands out each coordinate as the bit pattern of the engine's
/// single-precision value; `None` for anything else.
#[verifier::external_body]
pub(crate) fn curve_command_of(element: &PathElement) -> (command: Option<DrawCommand>)
    ensures
        command == if element_command(*element).is_curve() {
            Some(element_command(*element))
        } else {
            None
        },
{
    match *element {
        PathElement::QuadTo { cx0, cy0, x, y } => Some(
            DrawCommand::QuadTo { cx0: cx0.to_bits(), cy0: cy0.to_bits(), x: x.to_bits(), y: y.to_bits() },
        ),
        PathElement::CurveTo { cx0, cy0, cx1, cy1, x, y } => {
            let (cx0, cy0, cx1, cy1) = (cx0.to_bits(), cy0.to_bits(), cx1.to_bits(), cy1.to_bits());
            Some(DrawCommand::CurveTo { cx0, cy0, cx1, cy1, x: x.to_bits(), y: y.to_bits() })
        },
        PathElement::MoveTo { .. } | PathElement::LineTo { .. } | PathElement::Close => None,
    }
}

/// `ToString::to_string` on a `ReadError`: the engine's own words for it.
#[verifier::external_body]
pub(crate) fn read_error_text(error: &ReadError) -> (text: String)
    ensures
        text@ == read_error_words(*error),
{
    error.to_string()
}

/// `ToString::to_string` on a `DrawError`: the engine's own words for it.
#[verifier::external_body]
pub(crate) fn draw_error_text(error: &DrawError) -> (text: String)
    ensures
        text@ == draw_error_words(*error),
{
    error.to_string()
}

/// `[&str]::concat` on two strings: the first followed by the second.
#[verifier::external_body]
pub(crate) fn concat(head: &str, tail: &str) -> (joined: String)
    ensures
        joined@ == head@ + tail@,
{
    [head, tail].concat()
}

} // verus!
