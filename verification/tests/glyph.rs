use fontview::glyph::{parse_codepoint, record_from_fields, ExtractionError, GlyphRecord};

#[test]
fn parse_codepoint_reads_a_scalar_value() {
    assert_eq!(parse_codepoint("0041"), Some('A'));
    assert_eq!(parse_codepoint("00e9"), Some('\u{e9}'));
    assert_eq!(parse_codepoint("1F600"), Some('\u{1F600}'));
    assert_eq!(parse_codepoint("0"), Some('\0'));
}

#[test]
fn parse_codepoint_keeps_the_bounds_of_the_scalar_values() {
    assert_eq!(parse_codepoint("D7FF"), Some('\u{D7FF}'));
    assert_eq!(parse_codepoint("D800"), None);
    assert_eq!(parse_codepoint("DBFF"), None);
    assert_eq!(parse_codepoint("DFFF"), None);
    assert_eq!(parse_codepoint("E000"), Some('\u{E000}'));
    assert_eq!(parse_codepoint("10FFFF"), Some('\u{10FFFF}'));
    assert_eq!(parse_codepoint("110000"), None);
    assert_eq!(parse_codepoint("FFFFFFFF"), None);
    assert_eq!(parse_codepoint("FFFFFFFFF"), None);
}

#[test]
fn parse_codepoint_refuses_what_is_no_hexadecimal_number() {
    assert_eq!(parse_codepoint(""), None);
    assert_eq!(parse_codepoint("XYZ"), None);
    assert_eq!(parse_codepoint("code"), None);
    assert_eq!(parse_codepoint("00 41"), None);
}

#[test]
fn record_from_fields_builds_the_record() {
    assert_eq!(
        record_from_fields("0041", "41", "A"),
        Ok(GlyphRecord { codepoint: 'A', glyph_index: 41, name: String::from("A") })
    );
    assert_eq!(
        record_from_fields("e000", "0", "nf-custom-c"),
        Ok(GlyphRecord { codepoint: '\u{e000}', glyph_index: 0, name: String::from("nf-custom-c") })
    );
}

#[test]
fn record_from_fields_reports_an_invalid_codepoint() {
    assert_eq!(record_from_fields("D800", "41", "A"), Err(ExtractionError::InvalidCodepoint));
    assert_eq!(record_from_fields("110000", "41", "A"), Err(ExtractionError::InvalidCodepoint));
    assert_eq!(record_from_fields("zz", "41", "A"), Err(ExtractionError::InvalidCodepoint));
    assert_eq!(record_from_fields("", "41", "A"), Err(ExtractionError::InvalidCodepoint));
}

#[test]
fn record_from_fields_reports_an_invalid_glyph_index() {
    assert_eq!(record_from_fields("0041", "4a", "A"), Err(ExtractionError::InvalidGlyphIndex));
    assert_eq!(record_from_fields("0041", "", "A"), Err(ExtractionError::InvalidGlyphIndex));
    assert_eq!(
        record_from_fields("0041", "4294967296", "A"),
        Err(ExtractionError::InvalidGlyphIndex)
    );
}

#[test]
fn record_from_fields_looks_at_the_codepoint_first() {
    assert_eq!(record_from_fields("D800", "4a", "A"), Err(ExtractionError::InvalidCodepoint));
}
