//! What the browser shows: two panes side by side, the font files on the
//! left and the glyphs of the font under the cursor on the right. This
//! module says what stands in the panes; painting them is the driver's part.

use crate::app::{App, AppModel};
use crate::glyph::{GlyphModel, GlyphRecord};
use crate::number::{is_numeral, numeral_value};
use vstd::prelude::*;
use vstd::string::StringExecFns;

verus! {

/// One pane: its title, its rows from top to bottom, and the row to
/// highlight.
#[derive(Clone, Debug, PartialEq, Eq)]
pub struct Pane {
    pub title: String,
    pub rows: Vec<String>,
    pub selected: Option<usize>,
}

/// The two panes of the screen.
#[derive(Clone, Debug, PartialEq, Eq)]
pub struct Screen {
    pub fonts: Pane,
    pub glyphs: Pane,
}

/// Mathematical model of a [`Pane`].
pub ghost struct PaneModel {
    pub title: Seq<char>,
    pub rows: Seq<Seq<char>>,
    pub selected: Option<int>,
}

impl View for Pane {
    type V = PaneModel;

    open spec fn view(&self) -> PaneModel {
        PaneModel {
            title: self.title@,
            rows: self.rows.deep_view(),
            selected: match self.selected {
                Some(i) => Some(i as int),
                None => None,
            },
        }
    }
}

/// The character that stands for a digit below ten.
pub open spec fn digit_char(d: int) -> char {
    (0x30 + d) as char
}

/// The decimal digits of a number, without leading zeros.
pub open spec fn decimal_digits(n: nat) -> Seq<char>
    decreases n,
{
    if n < 10 {
        seq![digit_char(n as int)]
    } else {
        decimal_digits(n / 10).push(digit_char((n % 10) as int))
    }
}

/// The row of a font file: its position in the list, a dash, and its path.
pub open spec fn font_row(font: (usize, Seq<char>)) -> Seq<char> {
    decimal_digits(font.0 as nat) + " - "@ + font.1
}

/// The row of a glyph: its name, a dash, and the character it draws.
pub open spec fn glyph_row(glyph: GlyphModel) -> Seq<char> {
    (glyph.name + " - "@).push(glyph.codepoint)
}

/// The pane of the font files.
pub open spec fn fonts_pane(app: AppModel) -> PaneModel {
    PaneModel {
        title: "TTF Files"@,
        rows: app.fonts.items.map_values(|font: (usize, Seq<char>)| font_row(font)),
        selected: app.fonts.selected,
    }
}

/// The pane of the glyphs.
pub open spec fn glyphs_pane(app: AppModel) -> PaneModel {
    PaneModel {
        title: "Available characters"@,
        rows: app.glyphs.items.map_values(|glyph: GlyphModel| glyph_row(glyph)),
        selected: app.glyphs.selected,
    }
}

/// Appends the decimal digits of `n` to `text`.
pub fn push_decimal(text: &mut String, n: usize)
    ensures
        final(text)@ == old(text)@ + decimal_digits(n as nat),
    decreases n,
{
    if n >= 10 {
        push_decimal(text, n / 10);
    }
    let digit: u8 = (n % 10) as u8;
    let c: char = (0x30u8 + digit) as char;
    text.push(c);
}

/// The row of a font file.
pub fn font_label(position: usize, path: &str) -> (row: String)
    ensures
        row@ == font_row((position, path@)),
{
    let mut row = String::new();
    push_decimal(&mut row, position);
    row.append(" - ");
    row.append(path);
    row
}

/// The row of a glyph.
pub fn glyph_label(glyph: &GlyphRecord) -> (row: String)
    ensures
        row@ == glyph_row(glyph@),
{
    let mut row = glyph.name.clone();
    row.append(" - ");
    row.push(glyph.codepoint);
    row
}

/// The decimal digits of a number are a numeral, and read back they give
/// the number.
pub proof fn lemma_decimal_digits_read_back(n: nat)
    ensures
        is_numeral(decimal_digits(n), 10),
        numeral_value(decimal_digits(n), 10) == n,
    decreases n,
{
    let digits = decimal_digits(n);
    if n < 10 {
        assert(numeral_value(digits.drop_last(), 10) == 0);
    } else {
        lemma_decimal_digits_read_back(n / 10);
        assert(digits.drop_last() =~= decimal_digits(n / 10));
    }
}

/// What the screen shows for the browser's state.
pub fn screen(app: &App) -> (view: Screen)
    ensures
        view.fonts@ == fonts_pane(app@),
        view.glyphs@ == glyphs_pane(app@),
{
    let fonts = app.fonts();
    let mut font_rows: Vec<String> = Vec::new();
    let mut i: usize = 0;
    while i < fonts.len()
        invariant
            i <= fonts@.items.len(),
            font_rows.len() == i,
            crate::app::deep_list(fonts@) == app@.fonts,
            forall|j: int|
                0 <= j < i ==> (#[trigger] font_rows[j])@ == font_row(app@.fonts.items[j]),
        decreases fonts@.items.len() - i,
    {
        let font = &fonts.items()[i];
        font_rows.push(font_label(font.0, font.1.as_str()));
        i = i + 1;
    }
    let glyphs = app.glyphs();
    let mut glyph_rows: Vec<String> = Vec::new();
    let mut k: usize = 0;
    while k < glyphs.len()
        invariant
            k <= glyphs@.items.len(),
            glyph_rows.len() == k,
            crate::app::deep_list(glyphs@) == app@.glyphs,
            forall|j: int|
                0 <= j < k ==> (#[trigger] glyph_rows[j])@ == glyph_row(app@.glyphs.items[j]),
        decreases glyphs@.items.len() - k,
    {
        let glyph = &glyphs.items()[k];
        glyph_rows.push(glyph_label(glyph));
        k = k + 1;
    }
    let view = Screen {
        fonts: Pane {
            title: "TTF Files".to_owned(),
            rows: font_rows,
            selected: fonts.selected_index(),
        },
        glyphs: Pane {
            title: "Available characters".to_owned(),
            rows: glyph_rows,
            selected: glyphs.selected_index(),
        },
    };
    proof {
        assert(view.fonts@.rows =~= fonts_pane(app@).rows);
        assert(view.glyphs@.rows =~= glyphs_pane(app@).rows);
    }
    view
}

} // verus!
