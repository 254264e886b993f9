//! One entry of a font's glyph table, and how it is read from the three
//! text fields of a table line.

use crate::number::{parse_u32, parse_u32_spec};
use vstd::prelude::*;
use vstd::utf8::is_scalar;

verus! {

/// One glyph of a font: the character it draws, its number inside the font,
/// and its name.
#[derive(Clone, Debug, PartialEq, Eq)]
pub struct GlyphRecord {
    pub codepoint: char,
    pub glyph_index: u32,
    pub name: String,
}

/// Mathematical model of a [`GlyphRecord`].
pub ghost struct GlyphModel {
    pub codepoint: char,
    pub glyph_index: u32,
    pub name: Seq<char>,
}

impl View for GlyphRecord {
    type V = GlyphModel;

    open spec fn view(&self) -> GlyphModel {
        GlyphModel { codepoint: self.codepoint, glyph_index: self.glyph_index, name: self.name@ }
    }
}

impl DeepView for GlyphRecord {
    type V = GlyphModel;

    open spec fn deep_view(&self) -> GlyphModel {
        self@
    }
}

/// Why an extraction, or one line of it, gave no glyph.
#[derive(Clone, Debug, PartialEq, Eq)]
pub enum ExtractionError {
    /// The inspection tool could not be started, or did not end with
    /// success. `code` is its exit code where it has one, `message` what it
    /// wrote to its error stream or why it did not start.
    ProcessFailed { code: Option<i32>, message: String },
    /// The tool's output is not UTF-8 text.
    EncodingError,
    /// The line pattern was not accepted by the pattern engine.
    PatternRejected,
    /// The code point field of a line is no hexadecimal number, or the
    /// number is no Unicode scalar value.
    InvalidCodepoint,
    /// The glyph index field of a line is no decimal number that fits in
    /// 32 bits.
    InvalidGlyphIndex,
}

/// The character that a code point field denotes: the field is a
/// hexadecimal numeral, and its value is a Unicode scalar value (at most
/// `0x10FFFF` and not a surrogate).
pub open spec fn codepoint_of(hex: Seq<char>) -> Option<char> {
    match parse_u32_spec(hex, 16) {
        Some(v) => if is_scalar(v) {
            Some(v as char)
        } else {
            None
        },
        None => None,
    }
}

/// The glyph that the three fields of a table line denote, or the reason
/// why they denote none. The code point is looked at first.
pub open spec fn record_of(hex: Seq<char>, index: Seq<char>, name: Seq<char>) -> Result<
    GlyphModel,
    ExtractionError,
> {
    match codepoint_of(hex) {
        None => Err(ExtractionError::InvalidCodepoint),
        Some(codepoint) => match parse_u32_spec(index, 10) {
            None => Err(ExtractionError::InvalidGlyphIndex),
            Some(glyph_index) => Ok(GlyphModel { codepoint, glyph_index, name }),
        },
    }
}

/// `char::from_u32` of the standard library: the character with the given
/// number, where that number is a Unicode scalar value, and nothing
/// otherwise.
pub assume_specification[ char::from_u32 ](i: u32) -> (c: Option<char>)
    ensures
        c == if is_scalar(i) {
            Some(i as char)
        } else {
            None::<char>
        },
;

/// Reads a code point field.
pub fn parse_codepoint(hex: &str) -> (c: Option<char>)
    ensures
        c == codepoint_of(hex@),
{
    match parse_u32(hex, 16) {
        Some(v) => char::from_u32(v),
        None => None,
    }
}

/// Builds the glyph record of one table line from its three fields.
pub fn record_from_fields(hex: &str, index: &str, name: &str) -> (record: Result<
    GlyphRecord,
    ExtractionError,
>)
    ensures
        match record {
            Ok(r) => record_of(hex@, index@, name@) == Ok::<GlyphModel, ExtractionError>(r@),
            Err(e) => record_of(hex@, index@, name@) == Err::<GlyphModel, ExtractionError>(e),
        },
{
    let codepoint = match parse_codepoint(hex) {
        Some(c) => c,
        None => {
            return Err(ExtractionError::InvalidCodepoint);
        },
    };
    let glyph_index = match parse_u32(index, 10) {
        Some(n) => n,
        None => {
            return Err(ExtractionError::InvalidGlyphIndex);
        },
    };
    Ok(GlyphRecord { codepoint, glyph_index, name: name.to_owned() })
}

/// A field whose value is above `0x10FFFF`, or in the surrogate range
/// `0xD800`-`0xDFFF`, denotes no character, so its line gives no glyph
/// whatever the other two fields hold.
pub proof fn lemma_out_of_range_codepoint_rejected(
    hex: Seq<char>,
    index: Seq<char>,
    name: Seq<char>,
)
    requires
        crate::number::is_numeral(hex, 16),
        crate::number::numeral_value(hex, 16) > 0x10FFFF || 0xD800 <= crate::number::numeral_value(
            hex,
            16,
        ) <= 0xDFFF,
    ensures
        codepoint_of(hex) is None,
        record_of(hex, index, name) == Err::<GlyphModel, ExtractionError>(
            ExtractionError::InvalidCodepoint,
        ),
{
}

} // verus!
