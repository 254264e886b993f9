//! Reading the glyph table that the font inspection tool prints.
//!
//! The tool writes one glyph per line: the code point in hexadecimal behind
//! the prefix `uni`, the glyph's index in decimal, and the glyph's name.
//! Lines of any other shape are informational and are passed over.

use crate::glyph::{record_from_fields, record_of, ExtractionError, GlyphModel, GlyphRecord};
use crate::lines::{lines_of, split_lines};
use crate::number::{is_numeral, numeral_value};
use crate::pattern::{compile, first_captures, regex_accepts, regex_captures};
use vstd::prelude::*;
use vstd::string::StringSliceAdditionalSpecFns;
use vstd::utf8::{decode_utf8, encode_utf8_decode_utf8, valid_utf8};

verus! {

/// What one line of the tool's output gives: nothing where it is no table
/// line, and else its glyph or the reason why the line was dropped.
pub type LineOutcome = Option<Result<GlyphRecord, ExtractionError>>;

/// Mathematical model of a [`LineOutcome`].
pub type LineOutcomeModel = Option<Result<GlyphModel, ExtractionError>>;

/// A table line that was dropped, by its position among the lines
/// (counted from zero) and the reason.
#[derive(Clone, Debug, PartialEq, Eq)]
pub struct SkippedLine {
    pub line: usize,
    pub reason: ExtractionError,
}

/// The glyphs of a font, in the order of the tool's output, and the table
/// lines that had to be dropped.
#[derive(Clone, Debug, PartialEq, Eq)]
pub struct Extraction {
    pub records: Vec<GlyphRecord>,
    pub skipped: Vec<SkippedLine>,
}

/// Mathematical model of an [`Extraction`].
pub ghost struct TableModel {
    pub records: Seq<GlyphModel>,
    pub skipped: Seq<(int, ExtractionError)>,
}

/// The view of a list of dropped lines.
pub open spec fn skipped_view(skipped: Seq<SkippedLine>) -> Seq<(int, ExtractionError)> {
    skipped.map_values(|s: SkippedLine| (s.line as int, s.reason))
}

impl View for Extraction {
    type V = TableModel;

    open spec fn view(&self) -> TableModel {
        TableModel { records: self.records.deep_view(), skipped: skipped_view(self.skipped@) }
    }
}

/// How a run of the inspection tool ended, as its caller saw it.
#[derive(Clone, Debug, PartialEq, Eq)]
pub enum ToolRun {
    /// The tool could not be started; `reason` says why.
    NotStarted { reason: String },
    /// The tool ran and ended. `code` is its exit code, if it ended with
    /// one; `stdout` holds what it printed and `stderr` what it complained
    /// of.
    Finished { code: Option<i32>, stdout: Vec<u8>, stderr: String },
}

/// The pattern of a table line, in the syntax of the pattern engine.
pub open spec fn glyph_pattern_text() -> Seq<char> {
    "uni([[:alnum:]]+)\\s([[:alnum:]]+)\\s([[:alnum:]-]+)"@
}

/// The pattern of a table line: the prefix `uni`, then three fields with one
/// whitespace character between them. The first two fields are runs of
/// letters and digits, and the third may hold hyphens too. The fields are
/// the pattern's groups 1 to 3.
pub fn glyph_pattern() -> (pattern: &'static str)
    ensures
        pattern@ == glyph_pattern_text(),
{
    "uni([[:alnum:]]+)\\s([[:alnum:]]+)\\s([[:alnum:]-]+)"
}

/// The three fields of a table line, taken from the groups that the pattern
/// engine found: groups 1, 2 and 3 of a match with exactly these groups.
pub open spec fn fields_of(groups: Option<Seq<Option<Seq<char>>>>) -> Option<
    (Seq<char>, Seq<char>, Seq<char>),
> {
    match groups {
        Some(g) => if g.len() == 4 && g[1] is Some && g[2] is Some && g[3] is Some {
            Some((g[1]->0, g[2]->0, g[3]->0))
        } else {
            None
        },
        None => None,
    }
}

/// What a line gives, from the groups that the pattern engine found in it.
pub open spec fn outcome_of(groups: Option<Seq<Option<Seq<char>>>>) -> LineOutcomeModel {
    match fields_of(groups) {
        Some((hex, index, name)) => Some(record_of(hex, index, name)),
        None => None,
    }
}

/// What a line gives when it is searched for `pattern`.
pub open spec fn line_outcome(pattern: Seq<char>, line: Seq<char>) -> LineOutcomeModel {
    outcome_of(regex_captures(pattern, line))
}

/// The glyphs of a sequence of lines: those of the lines that give one, in
/// the order of the lines.
pub open spec fn records_of(pattern: Seq<char>, lines: Seq<Seq<char>>) -> Seq<GlyphModel>
    decreases lines.len(),
{
    if lines.len() == 0 {
        Seq::empty()
    } else {
        let before = records_of(pattern, lines.drop_last());
        match line_outcome(pattern, lines.last()) {
            Some(Ok(record)) => before.push(record),
            _ => before,
        }
    }
}

/// The dropped table lines of a sequence of lines, each with its position
/// and the reason, in the order of the lines.
pub open spec fn skipped_of(pattern: Seq<char>, lines: Seq<Seq<char>>) -> Seq<
    (int, ExtractionError),
>
    decreases lines.len(),
{
    if lines.len() == 0 {
        Seq::empty()
    } else {
        let before = skipped_of(pattern, lines.drop_last());
        match line_outcome(pattern, lines.last()) {
            Some(Err(reason)) => before.push((lines.len() - 1, reason)),
            _ => before,
        }
    }
}

/// What reading a table out of a text gives: the glyphs and the dropped
/// lines of the text's lines. It fails exactly where the pattern engine does
/// not take the pattern.
pub open spec fn table_of(pattern: Seq<char>, text: Seq<char>) -> Result<
    TableModel,
    ExtractionError,
> {
    if !regex_accepts(pattern) {
        Err(ExtractionError::PatternRejected)
    } else {
        Ok(
            TableModel {
                records: records_of(pattern, lines_of(text)),
                skipped: skipped_of(pattern, lines_of(text)),
            },
        )
    }
}

/// The text that a run of the tool printed, or the error that the run is
/// answered with: a failed process, with its exit code and message, where
/// the tool did not start or did not end with exit code zero; an encoding
/// error where it printed anything but UTF-8.
pub open spec fn run_text(run: ToolRun) -> Result<Seq<char>, ExtractionError> {
    match run {
        ToolRun::NotStarted { reason } => Err(
            ExtractionError::ProcessFailed { code: None, message: reason },
        ),
        ToolRun::Finished { code, stdout, stderr } => if code != Some(0i32) {
            Err(ExtractionError::ProcessFailed { code, message: stderr })
        } else if !valid_utf8(stdout@) {
            Err(ExtractionError::EncodingError)
        } else {
            Ok(decode_utf8(stdout@))
        },
    }
}

/// What extraction from a run of the tool gives.
pub open spec fn extraction_of(run: ToolRun) -> Result<TableModel, ExtractionError> {
    match run_text(run) {
        Ok(text) => table_of(glyph_pattern_text(), text),
        Err(e) => Err(e),
    }
}

/// The glyphs that extraction from a run of the tool gives.
pub open spec fn glyphs_of(run: ToolRun) -> Result<Seq<GlyphModel>, ExtractionError> {
    match extraction_of(run) {
        Ok(table) => Ok(table.records),
        Err(e) => Err(e),
    }
}

/// The view of a line outcome.
pub open spec fn outcome_view(outcome: LineOutcome) -> LineOutcomeModel {
    match outcome {
        Some(Ok(record)) => Some(Ok(record@)),
        Some(Err(reason)) => Some(Err(reason)),
        None => None,
    }
}

/// What a line gives, from the groups that the pattern engine found in it:
/// nothing where there was no match, or where the match has not the three
/// fields; else the glyph read from the fields, or why they give none.
pub fn outcome_from_captures(groups: &Option<Vec<Option<String>>>) -> (outcome: LineOutcome)
    ensures
        outcome_view(outcome) == outcome_of(groups.deep_view()),
{
    match groups {
        Some(g) => {
            if g.len() == 4 {
                match (&g[1], &g[2], &g[3]) {
                    (Some(hex), Some(index), Some(name)) => Some(
                        record_from_fields(hex.as_str(), index.as_str(), name.as_str()),
                    ),
                    _ => None,
                }
            } else {
                None
            }
        },
        None => None,
    }
}

/// Reads a table out of a text, with `pattern` as the pattern of a table
/// line.
///
/// Every line is searched for the pattern. A line without a match is passed
/// over; a line with a match gives its glyph, or is dropped and listed with
/// the reason. The only failure is a pattern that the pattern engine does
/// not take, whatever the text holds.
pub fn read_table(pattern: &str, text: &str) -> (table: Result<Extraction, ExtractionError>)
    ensures
        match table {
            Ok(found) => table_of(pattern@, text@) == Ok::<TableModel, ExtractionError>(found@),
            Err(e) => table_of(pattern@, text@) == Err::<TableModel, ExtractionError>(e),
        },
{
    let compiled = match compile(pattern) {
        Ok(compiled) => compiled,
        Err(_) => {
            return Err(ExtractionError::PatternRejected);
        },
    };
    let lines = split_lines(text);
    let mut records: Vec<GlyphRecord> = Vec::new();
    let mut skipped: Vec<SkippedLine> = Vec::new();
    let ghost all = lines.deep_view();
    let mut i: usize = 0;
    while i < lines.len()
        invariant
            i <= lines.len(),
            all == lines.deep_view(),
            all == lines_of(text@),
            compiled@ == pattern@,
            records.deep_view() == records_of(pattern@, all.take(i as int)),
            skipped_view(skipped@) == skipped_of(pattern@, all.take(i as int)),
        decreases lines.len() - i,
    {
        proof {
            assert(all.take(i + 1).drop_last() =~= all.take(i as int));
        }
        let groups = first_captures(&compiled, lines[i].as_str());
        match outcome_from_captures(&groups) {
            Some(Ok(record)) => {
                records.push(record);
            },
            Some(Err(reason)) => {
                skipped.push(SkippedLine { line: i, reason });
            },
            None => {},
        }
        i = i + 1;
    }
    proof {
        assert(all.take(lines.len() as int) =~= all);
    }
    Ok(Extraction { records, skipped })
}

/// The error of `core::str::from_utf8`.
#[verifier::external_type_specification]
#[verifier::external_body]
pub struct ExUtf8Error(core::str::Utf8Error);

/// `core::str::from_utf8` of the standard library: it succeeds exactly on
/// well-formed UTF-8, and the string it returns is made of the given bytes.
pub assume_specification[ core::str::from_utf8 ](bytes: &[u8]) -> (text: Result<
    &str,
    core::str::Utf8Error,
>)
    ensures
        text is Ok <==> valid_utf8(bytes@),
        text matches Ok(s) ==> s.spec_bytes() == bytes@,
;

/// The text that the tool printed, if the run gave any.
pub fn tool_text(run: &ToolRun) -> (text: Result<&str, ExtractionError>)
    ensures
        match text {
            Ok(t) => run_text(*run) == Ok::<Seq<char>, ExtractionError>(t@),
            Err(e) => run_text(*run) == Err::<Seq<char>, ExtractionError>(e),
        },
{
    match run {
        ToolRun::NotStarted { reason } => Err(
            ExtractionError::ProcessFailed { code: None, message: reason.clone() },
        ),
        ToolRun::Finished { code, stdout, stderr } => {
            match code {
                Some(0) => match core::str::from_utf8(stdout.as_slice()) {
                    Ok(text) => {
                        proof {
                            encode_utf8_decode_utf8(text@);
                        }
                        Ok(text)
                    },
                    Err(_) => Err(ExtractionError::EncodingError),
                },
                _ => Err(ExtractionError::ProcessFailed { code: *code, message: stderr.clone() }),
            }
        },
    }
}

/// Extracts the glyph table from a run of the inspection tool, together
/// with the list of the table lines that were dropped.
pub fn extract(run: &ToolRun) -> (table: Result<Extraction, ExtractionError>)
    ensures
        match table {
            Ok(found) => extraction_of(*run) == Ok::<TableModel, ExtractionError>(found@),
            Err(e) => extraction_of(*run) == Err::<TableModel, ExtractionError>(e),
        },
{
    match tool_text(run) {
        Ok(text) => read_table(glyph_pattern(), text),
        Err(e) => Err(e),
    }
}

/// The glyphs that a font supports, from a run of the inspection tool on
/// the font's file: one record for each table line that is well formed, in
/// the order of the lines.
pub fn get_unicode(run: &ToolRun) -> (glyphs: Result<Vec<GlyphRecord>, ExtractionError>)
    ensures
        match glyphs {
            Ok(records) => glyphs_of(*run) == Ok::<Seq<GlyphModel>, ExtractionError>(
                records.deep_view(),
            ),
            Err(e) => glyphs_of(*run) == Err::<Seq<GlyphModel>, ExtractionError>(e),
        },
{
    match extract(run) {
        Ok(found) => Ok(found.records),
        Err(e) => Err(e),
    }
}

/// The glyphs of two runs of lines, one after the other, are the glyphs of
/// the first run followed by those of the second: every glyph keeps its
/// place in the order of the lines.
pub proof fn lemma_records_in_line_order(
    pattern: Seq<char>,
    first: Seq<Seq<char>>,
    second: Seq<Seq<char>>,
)
    ensures
        records_of(pattern, first + second) == records_of(pattern, first) + records_of(
            pattern,
            second,
        ),
    decreases second.len(),
{
    if second.len() == 0 {
    } else {
        assert((first + second).drop_last() =~= first + second.drop_last());
        lemma_records_in_line_order(pattern, first, second.drop_last());
        let before = records_of(pattern, first) + records_of(pattern, second.drop_last());
        match line_outcome(pattern, second.last()) {
            Some(Ok(record)) => {
            },
            _ => {},
        }
    }
}

/// A line that is well formed gives exactly its own glyph, between the
/// glyphs of the lines before it and those of the lines after it.
pub proof fn lemma_well_formed_line_gives_its_glyph(
    pattern: Seq<char>,
    lines: Seq<Seq<char>>,
    i: int,
)
    requires
        0 <= i < lines.len(),
        line_outcome(pattern, lines[i]) matches Some(Ok(_)),
    ensures
        records_of(pattern, lines) == records_of(pattern, lines.take(i)).push(
            line_outcome(pattern, lines[i])->0->Ok_0,
        ) + records_of(pattern, lines.skip(i + 1)),
{
    let upto = lines.take(i + 1);
    assert(upto.drop_last() =~= lines.take(i));
    assert(lines =~= upto + lines.skip(i + 1));
    lemma_records_in_line_order(pattern, upto, lines.skip(i + 1));
}

/// A line that is not well formed (it has no match, or fields that denote no
/// glyph) leaves no trace among the glyphs: the result is the one that the
/// other lines give without it.
pub proof fn lemma_malformed_line_is_omitted(pattern: Seq<char>, lines: Seq<Seq<char>>, i: int)
    requires
        0 <= i < lines.len(),
        !(line_outcome(pattern, lines[i]) matches Some(Ok(_))),
    ensures
        records_of(pattern, lines) == records_of(pattern, lines.remove(i)),
{
    let upto = lines.take(i + 1);
    assert(upto.drop_last() =~= lines.take(i));
    assert(lines =~= upto + lines.skip(i + 1));
    lemma_records_in_line_order(pattern, upto, lines.skip(i + 1));
    lemma_records_in_line_order(pattern, lines.take(i), lines.skip(i + 1));
}

/// A table line whose code point field is a hexadecimal number above
/// `0x10FFFF`, or one in the surrogate range `0xD800`-`0xDFFF`, is dropped as
/// an invalid code point, and the glyphs of all other lines are what they
/// are without it.
pub proof fn lemma_invalid_codepoint_line_is_skipped(
    pattern: Seq<char>,
    lines: Seq<Seq<char>>,
    i: int,
)
    requires
        0 <= i < lines.len(),
        fields_of(regex_captures(pattern, lines[i])) matches Some((hex, _, _)) && is_numeral(
            hex,
            16,
        ) && (numeral_value(hex, 16) > 0x10FFFF || 0xD800 <= numeral_value(hex, 16) <= 0xDFFF),
    ensures
        line_outcome(pattern, lines[i]) == Some(
            Err::<GlyphModel, ExtractionError>(ExtractionError::InvalidCodepoint),
        ),
        records_of(pattern, lines) == records_of(pattern, lines.remove(i)),
{
    let fields = fields_of(regex_captures(pattern, lines[i]))->0;
    crate::glyph::lemma_out_of_range_codepoint_rejected(fields.0, fields.1, fields.2);
    lemma_malformed_line_is_omitted(pattern, lines, i);
}

} // verus!
