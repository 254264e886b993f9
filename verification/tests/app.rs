use fontview::app::App;
use fontview::fonttools::{SkippedLine, ToolRun};
use fontview::glyph::{ExtractionError, GlyphRecord};

fn paths(names: &[&str]) -> Vec<String> {
    names.iter().map(|name| String::from(*name)).collect()
}

fn printed(text: &str) -> ToolRun {
    ToolRun::Finished { code: Some(0), stdout: text.as_bytes().to_vec(), stderr: String::new() }
}

fn record(codepoint: char, glyph_index: u32, name: &str) -> GlyphRecord {
    GlyphRecord { codepoint, glyph_index, name: String::from(name) }
}

fn load(app: &mut App, path: &str, run: &ToolRun) -> bool {
    app.load_glyphs(&String::from(path), run)
}

#[test]
fn new_numbers_the_fonts_and_selects_the_first() {
    let app = App::new(paths(&["a.ttf", "b.ttf", "c.ttf"]));
    assert_eq!(
        app.fonts().items(),
        &vec![
            (0, String::from("a.ttf")),
            (1, String::from("b.ttf")),
            (2, String::from("c.ttf")),
        ]
    );
    assert_eq!(app.fonts().selected_index(), Some(0));
    assert_eq!(app.glyphs().len(), 0);
    assert_eq!(app.glyphs().selected_index(), None);
    assert_eq!(app.wanted_font(), Some(&String::from("a.ttf")));
    assert_eq!(app.failure(), None);
    assert!(app.skipped().is_empty());
}

#[test]
fn new_without_fonts_wants_no_glyphs() {
    let mut app = App::new(Vec::new());
    assert_eq!(app.fonts().len(), 0);
    assert_eq!(app.wanted_font(), None);
    app.select_next_font();
    app.select_prev_font();
    app.select_next_glyph();
    assert_eq!(app.fonts().selected_index(), None);
    assert_eq!(app.wanted_font(), None);
    assert!(!load(&mut app, "a.ttf", &printed("uni0041 41 A\n")));
    assert_eq!(app.glyphs().len(), 0);
    assert_eq!(app.wanted_font(), None);
}

#[test]
fn load_glyphs_fills_the_glyph_list() {
    let mut app = App::new(paths(&["a.ttf"]));
    assert!(load(&mut app, "a.ttf", &printed("uni0041 41 A\nuni0042 42 B\nuniD800 1 x\n")));
    assert_eq!(app.glyphs().items(), &vec![record('A', 41, "A"), record('B', 42, "B")]);
    assert_eq!(app.glyphs().selected_index(), Some(0));
    assert_eq!(app.wanted_font(), None);
    assert_eq!(app.failure(), None);
    assert_eq!(
        app.skipped(),
        &vec![SkippedLine { line: 2, reason: ExtractionError::InvalidCodepoint }]
    );
}

#[test]
fn a_run_on_another_font_is_not_taken() {
    let mut app = App::new(paths(&["a.ttf", "b.ttf"]));
    assert!(!load(&mut app, "b.ttf", &printed("uni0042 42 B\n")));
    assert_eq!(app.glyphs().len(), 0);
    assert_eq!(app.wanted_font(), Some(&String::from("a.ttf")));
    assert!(load(&mut app, "a.ttf", &printed("uni0041 41 A\n")));
    assert!(!load(&mut app, "c.ttf", &printed("")));
    assert_eq!(app.glyphs().items(), &vec![record('A', 41, "A")]);
    app.select_next_font();
    assert!(!load(&mut app, "a.ttf", &printed("uni0041 41 A\n")));
    assert_eq!(app.glyphs().len(), 0);
    assert_eq!(app.wanted_font(), Some(&String::from("b.ttf")));
}

#[test]
fn a_failed_extraction_leaves_an_empty_glyph_list() {
    let mut app = App::new(paths(&["missing.ttf", "b.ttf"]));
    let run = ToolRun::NotStarted { reason: String::from("cannot run otfinfo") };
    assert!(load(&mut app, "missing.ttf", &run));
    assert_eq!(app.glyphs().len(), 0);
    assert_eq!(app.glyphs().selected_index(), None);
    assert_eq!(app.fonts().selected_index(), Some(0));
    assert_eq!(app.wanted_font(), None);
    assert_eq!(
        app.failure(),
        Some(&ExtractionError::ProcessFailed {
            code: None,
            message: String::from("cannot run otfinfo"),
        })
    );
    app.select_next_glyph();
    assert_eq!(app.glyphs().selected_index(), None);
}

#[test]
fn a_failed_extraction_replaces_the_glyphs_of_an_earlier_one() {
    let mut app = App::new(paths(&["a.ttf"]));
    load(&mut app, "a.ttf", &printed("uni0041 41 A\nuni0041 x A\n"));
    assert_eq!(app.glyphs().len(), 1);
    assert_eq!(app.skipped().len(), 1);
    let garbled = ToolRun::Finished { code: Some(0), stdout: vec![0x80], stderr: String::new() };
    load(&mut app, "a.ttf", &garbled);
    assert_eq!(app.glyphs().len(), 0);
    assert_eq!(app.failure(), Some(&ExtractionError::EncodingError));
    assert!(app.skipped().is_empty());
    load(&mut app, "a.ttf", &printed("uni0042 42 B\n"));
    assert_eq!(app.glyphs().items(), &vec![record('B', 42, "B")]);
    assert_eq!(app.failure(), None);
}

#[test]
fn moving_the_font_cursor_empties_the_glyph_list() {
    let mut app = App::new(paths(&["a.ttf", "b.ttf"]));
    load(&mut app, "a.ttf", &printed("uni0041 41 A\n"));
    app.select_next_font();
    assert_eq!(app.fonts().selected_index(), Some(1));
    assert_eq!(app.glyphs().len(), 0);
    assert_eq!(app.wanted_font(), Some(&String::from("b.ttf")));
    load(&mut app, "b.ttf", &printed("uni0042 42 B\n"));
    assert_eq!(app.glyphs().items(), &vec![record('B', 42, "B")]);
    app.select_next_font();
    assert_eq!(app.fonts().selected_index(), Some(0));
    assert_eq!(app.wanted_font(), Some(&String::from("a.ttf")));
    app.select_prev_font();
    assert_eq!(app.fonts().selected_index(), Some(1));
    assert_eq!(app.wanted_font(), Some(&String::from("b.ttf")));
}

#[test]
fn moving_the_font_cursor_on_a_single_font_reads_its_table_anew() {
    let mut app = App::new(paths(&["a.ttf"]));
    load(&mut app, "a.ttf", &printed("uni0041 41 A\n"));
    assert_eq!(app.wanted_font(), None);
    app.select_next_font();
    assert_eq!(app.fonts().selected_index(), Some(0));
    assert_eq!(app.glyphs().len(), 0);
    assert_eq!(app.wanted_font(), Some(&String::from("a.ttf")));
}

#[test]
fn moving_the_font_cursor_forgets_the_failure() {
    let mut app = App::new(paths(&["a.ttf", "b.ttf"]));
    let run = ToolRun::Finished { code: Some(3), stdout: Vec::new(), stderr: String::new() };
    load(&mut app, "a.ttf", &run);
    assert!(app.failure().is_some());
    app.select_prev_font();
    assert_eq!(app.failure(), None);
    assert_eq!(app.fonts().selected_index(), Some(1));
}

#[test]
fn the_glyph_cursor_moves_without_touching_the_fonts() {
    let mut app = App::new(paths(&["a.ttf", "b.ttf"]));
    load(&mut app, "a.ttf", &printed("uni0041 41 A\nuni0042 42 B\nuni0043 43 C\n"));
    app.select_next_glyph();
    assert_eq!(app.glyphs().selected(), Some(&record('B', 42, "B")));
    app.select_prev_glyph();
    app.select_prev_glyph();
    assert_eq!(app.glyphs().selected(), Some(&record('C', 43, "C")));
    app.select_next_glyph();
    assert_eq!(app.glyphs().selected_index(), Some(0));
    assert_eq!(app.fonts().selected_index(), Some(0));
    assert_eq!(app.wanted_font(), None);
    assert_eq!(app.glyphs().len(), 3);
}
