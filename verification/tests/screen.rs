use fontview::app::App;
use fontview::fonttools::ToolRun;
use fontview::glyph::GlyphRecord;
use fontview::screen::{font_label, glyph_label, push_decimal, screen, Pane};

fn decimal(n: usize) -> String {
    let mut text = String::new();
    push_decimal(&mut text, n);
    text
}

#[test]
fn push_decimal_writes_the_digits() {
    assert_eq!(decimal(0), "0");
    assert_eq!(decimal(7), "7");
    assert_eq!(decimal(10), "10");
    assert_eq!(decimal(1203), "1203");
    assert_eq!(decimal(usize::MAX), format!("{}", usize::MAX));
}

#[test]
fn push_decimal_appends_to_what_is_there() {
    let mut text = String::from("n=");
    push_decimal(&mut text, 42);
    assert_eq!(text, "n=42");
}

#[test]
fn font_label_shows_position_and_path() {
    assert_eq!(font_label(0, "/usr/share/fonts/a.ttf"), "0 - /usr/share/fonts/a.ttf");
    assert_eq!(font_label(12, "b.ttf"), "12 - b.ttf");
    assert_eq!(font_label(3, ""), "3 - ");
}

#[test]
fn glyph_label_shows_name_and_character() {
    let glyph = GlyphRecord { codepoint: '\u{e9}', glyph_index: 120, name: String::from("eacute") };
    assert_eq!(glyph_label(&glyph), "eacute - \u{e9}");
}

#[test]
fn screen_shows_both_lists_with_their_cursors() {
    let mut app = App::new(vec![String::from("a.ttf"), String::from("b.ttf")]);
    app.select_next_font();
    let run = ToolRun::Finished {
        code: Some(0),
        stdout: b"uni0041 41 A\nuni0042 42 B\nuni0043 43 C\n".to_vec(),
        stderr: String::new(),
    };
    assert!(app.load_glyphs(&String::from("b.ttf"), &run));
    app.select_prev_glyph();
    let view = screen(&app);
    assert_eq!(
        view.fonts,
        Pane {
            title: String::from("TTF Files"),
            rows: vec![String::from("0 - a.ttf"), String::from("1 - b.ttf")],
            selected: Some(1),
        }
    );
    assert_eq!(
        view.glyphs,
        Pane {
            title: String::from("Available characters"),
            rows: vec![String::from("A - A"), String::from("B - B"), String::from("C - C")],
            selected: Some(2),
        }
    );
}

#[test]
fn screen_of_an_empty_browser_has_empty_panes() {
    let view = screen(&App::new(Vec::new()));
    assert_eq!(view.fonts.rows, Vec::<String>::new());
    assert_eq!(view.fonts.selected, None);
    assert_eq!(view.glyphs.rows, Vec::<String>::new());
    assert_eq!(view.glyphs.selected, None);
    assert_eq!(view.fonts.title, "TTF Files");
    assert_eq!(view.glyphs.title, "Available characters");
}
