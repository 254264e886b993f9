//! The state of the browser: the list of font files, and the glyph list of
//! the font under the cursor.

use crate::fonttools::{extract, extraction_of, skipped_view, SkippedLine, ToolRun};
use crate::glyph::{ExtractionError, GlyphModel, GlyphRecord};
use crate::list::{ListModel, StatefulList};
use vstd::prelude::*;

verus! {

/// The model of a list whose items are taken by their own models.
pub open spec fn deep_list<T: DeepView>(list: ListModel<T>) -> ListModel<T::V> {
    ListModel { items: list.items.map_values(|item: T| item.deep_view()), selected: list.selected }
}

/// Where the glyph list in view comes from: the run of the inspection tool
/// that was taken last, and the font file that it was made on.
pub ghost struct Source {
    pub path: Seq<char>,
    pub run: ToolRun,
}

/// Mathematical model of an [`App`].
pub ghost struct AppModel {
    /// The font files, each with its position in the list.
    pub fonts: ListModel<(usize, Seq<char>)>,
    /// The glyphs of the font under the cursor.
    pub glyphs: ListModel<GlyphModel>,
    /// Where the glyph list comes from, once it was read for the font under
    /// the cursor.
    pub source: Option<Source>,
}

impl AppModel {
    /// The font list of the given paths, numbered from zero.
    pub open spec fn numbered(paths: Seq<Seq<char>>) -> Seq<(usize, Seq<char>)> {
        Seq::new(paths.len(), |i: int| (i as usize, paths[i]))
    }

    /// The glyphs that a run of the inspection tool gives to the browser:
    /// the extracted records, or none at all where extraction fails.
    pub open spec fn glyphs_from(run: ToolRun) -> Seq<GlyphModel> {
        match extraction_of(run) {
            Ok(table) => table.records,
            Err(_) => Seq::empty(),
        }
    }

    /// Both lists are well formed and the fonts carry their positions. The
    /// glyph list belongs to the font under the cursor: it holds what the
    /// last run on that font's file gave, and nothing before such a run was
    /// taken.
    pub open spec fn well_formed(self) -> bool {
        &&& self.fonts.well_formed()
        &&& self.glyphs.well_formed()
        &&& forall|i: int|
            0 <= i < self.fonts.items.len() ==> (#[trigger] self.fonts.items[i]).0 == i
        &&& match self.source {
            Some(source) => {
                &&& self.fonts.current() matches Some(font)
                &&& font.1 == source.path
                &&& self.glyphs.items == Self::glyphs_from(source.run)
            },
            None => self.glyphs.items.len() == 0,
        }
    }

    /// The state at start: cursor on the first font, no glyphs read yet.
    pub open spec fn initial(paths: Seq<Seq<char>>) -> AppModel {
        Self::unloaded(ListModel::fresh(Self::numbered(paths)))
    }

    /// The state with the font list `fonts` and no glyphs read.
    pub open spec fn unloaded(fonts: ListModel<(usize, Seq<char>)>) -> AppModel {
        AppModel { fonts, glyphs: ListModel::fresh(Seq::empty()), source: None }
    }

    /// The path of the font whose glyph table has to be read next: that of
    /// the font under the cursor, unless its table was read already.
    pub open spec fn wanted_font(self) -> Option<Seq<char>> {
        match (self.source, self.fonts.current()) {
            (None, Some(font)) => Some(font.1),
            _ => None,
        }
    }

    /// Why the font under the cursor shows no glyphs, if its last run gave
    /// none.
    pub open spec fn failure(self) -> Option<ExtractionError> {
        match self.source {
            Some(source) => match extraction_of(source.run) {
                Ok(_) => None,
                Err(e) => Some(e),
            },
            None => None,
        }
    }

    /// The table lines that were dropped when the glyph list was read.
    pub open spec fn skipped(self) -> Seq<(int, ExtractionError)> {
        match self.source {
            Some(source) => match extraction_of(source.run) {
                Ok(table) => table.skipped,
                Err(_) => Seq::empty(),
            },
            None => Seq::empty(),
        }
    }

    /// The state after the font cursor went one step down: the glyph list
    /// is emptied, to be read anew. Without fonts nothing changes.
    pub open spec fn next_font(self) -> AppModel {
        if self.fonts.items.len() == 0 {
            self
        } else {
            Self::unloaded(self.fonts.next())
        }
    }

    /// The state after the font cursor went one step up: the glyph list is
    /// emptied, to be read anew. Without fonts nothing changes.
    pub open spec fn prev_font(self) -> AppModel {
        if self.fonts.items.len() == 0 {
            self
        } else {
            Self::unloaded(self.fonts.prev())
        }
    }

    /// The state after the glyph cursor went one step down.
    pub open spec fn next_glyph(self) -> AppModel {
        AppModel { glyphs: self.glyphs.next(), ..self }
    }

    /// The state after the glyph cursor went one step up.
    pub open spec fn prev_glyph(self) -> AppModel {
        AppModel { glyphs: self.glyphs.prev(), ..self }
    }

    /// Whether a run on the font file at `path` is taken: the font under the
    /// cursor is that file.
    pub open spec fn takes(self, path: Seq<char>) -> bool {
        self.fonts.current() matches Some(font) && font.1 == path
    }

    /// The state after the tool was run on the font file at `path`. A run on
    /// the font under the cursor is taken: the glyph list holds the
    /// extracted records, cursor on the first, or is empty where extraction
    /// failed. A run on any other file changes nothing.
    pub open spec fn load(self, path: Seq<char>, run: ToolRun) -> AppModel {
        if self.takes(path) {
            AppModel {
                fonts: self.fonts,
                glyphs: ListModel::fresh(Self::glyphs_from(run)),
                source: Some(Source { path, run }),
            }
        } else {
            self
        }
    }
}

/// The state of the browser.
pub struct App {
    fnames: StatefulList<(usize, String)>,
    char_info: StatefulList<GlyphRecord>,
    loaded: bool,
    failure: Option<ExtractionError>,
    skipped: Vec<SkippedLine>,
    source: Ghost<Option<Source>>,
}

impl View for App {
    type V = AppModel;

    closed spec fn view(&self) -> AppModel {
        AppModel {
            fonts: deep_list(self.fnames@),
            glyphs: deep_list(self.char_info@),
            source: self.source@,
        }
    }
}

impl App {
    #[verifier::type_invariant]
    spec fn inv(self) -> bool {
        &&& self@.well_formed()
        &&& self.loaded == (self.source@ is Some)
        &&& self.failure == self@.failure()
        &&& skipped_view(self.skipped@) == self@.skipped()
    }

    /// The browser over the given font files, in their order, with the
    /// cursor on the first of them and no glyphs read yet.
    pub fn new(font_paths: Vec<String>) -> (app: App)
        ensures
            app@ == AppModel::initial(font_paths.deep_view()),
            app@.well_formed(),
    {
        let ghost paths = font_paths.deep_view();
        let mut numbered: Vec<(usize, String)> = Vec::new();
        for path in it: font_paths
            invariant
                it.seq() == font_paths@,
                numbered.len() == it.index(),
                forall|j: int|
                    0 <= j < numbered.len() ==> (#[trigger] numbered[j]).0 == j && numbered[j].1@
                        == font_paths@[j]@,
        {
            let position: usize = numbered.len();
            numbered.push((position, path));
        }
        let fnames = StatefulList::new(numbered);
        proof {
            assert(deep_list(fnames@).items =~= AppModel::numbered(paths));
        }
        App::unloaded(fnames)
    }

    /// The browser over the given list of fonts, with no glyphs read.
    fn unloaded(fnames: StatefulList<(usize, String)>) -> (app: App)
        requires
            fnames@.well_formed(),
            forall|i: int|
                0 <= i < fnames@.items.len() ==> (#[trigger] deep_list(fnames@).items[i]).0 == i,
        ensures
            app@ == AppModel::unloaded(deep_list(fnames@)),
            app@.well_formed(),
    {
        let char_info: StatefulList<GlyphRecord> = StatefulList::new(Vec::new());
        let skipped: Vec<SkippedLine> = Vec::new();
        proof {
            assert(deep_list(char_info@).items =~= Seq::<GlyphModel>::empty());
            assert(skipped_view(skipped@) =~= Seq::<(int, ExtractionError)>::empty());
        }
        App { fnames, char_info, loaded: false, failure: None, skipped, source: Ghost(None) }
    }

    /// Takes the state out and leaves a browser without fonts in its place.
    fn take(&mut self) -> (taken: App)
        ensures
            taken == *old(self),
            taken.inv(),
            final(self)@ == AppModel::initial(Seq::empty()),
    {
        proof {
            use_type_invariant(&*self);
        }
        let no_paths: Vec<String> = Vec::new();
        proof {
            assert(no_paths.deep_view() =~= Seq::<Seq<char>>::empty());
        }
        let mut taken = App::new(no_paths);
        std::mem::swap(self, &mut taken);
        taken
    }

    /// The list of font files.
    pub fn fonts(&self) -> (list: &StatefulList<(usize, String)>)
        ensures
            deep_list(list@) == self@.fonts,
    {
        &self.fnames
    }

    /// The glyph list of the font under the cursor.
    pub fn glyphs(&self) -> (list: &StatefulList<GlyphRecord>)
        ensures
            deep_list(list@) == self@.glyphs,
    {
        &self.char_info
    }

    /// The path of the font file whose glyph table has to be read next:
    /// the one under the cursor, unless its table was read already.
    pub fn wanted_font(&self) -> (path: Option<&String>)
        ensures
            self@.well_formed(),
            match path {
                Some(p) => self@.wanted_font() == Some(p@),
                None => self@.wanted_font() is None,
            },
    {
        proof {
            use_type_invariant(self);
        }
        if self.loaded {
            None
        } else {
            match self.fnames.selected() {
                Some(font) => Some(&font.1),
                None => None,
            }
        }
    }

    /// Why the font under the cursor shows no glyphs, if the last run of the
    /// tool on it gave none.
    pub fn failure(&self) -> (failure: Option<&ExtractionError>)
        ensures
            match failure {
                Some(e) => self@.failure() == Some(*e),
                None => self@.failure() is None,
            },
    {
        proof {
            use_type_invariant(self);
        }
        self.failure.as_ref()
    }

    /// The table lines that were dropped when the glyph list was read.
    pub fn skipped(&self) -> (skipped: &Vec<SkippedLine>)
        ensures
            skipped_view(skipped@) == self@.skipped(),
    {
        proof {
            use_type_invariant(self);
        }
        &self.skipped
    }

    /// Moves the font cursor one step down and empties the glyph list, which
    /// has to be read anew for the font now under the cursor.
    pub fn select_next_font(&mut self)
        ensures
            final(self)@ == old(self)@.next_font(),
            final(self)@.well_formed(),
    {
        let mut app = self.take();
        if app.fnames.len() > 0 {
            let App { mut fnames, .. } = app;
            fnames.next();
            app = App::unloaded(fnames);
        }
        *self = app;
    }

    /// Moves the font cursor one step up and empties the glyph list, which
    /// has to be read anew for the font now under the cursor.
    pub fn select_prev_font(&mut self)
        ensures
            final(self)@ == old(self)@.prev_font(),
            final(self)@.well_formed(),
    {
        let mut app = self.take();
        if app.fnames.len() > 0 {
            let App { mut fnames, .. } = app;
            fnames.prev();
            app = App::unloaded(fnames);
        }
        *self = app;
    }

    /// Moves the glyph cursor one step down.
    pub fn select_next_glyph(&mut self)
        ensures
            final(self)@ == old(self)@.next_glyph(),
            final(self)@.well_formed(),
    {
        let App { fnames, mut char_info, loaded, failure, skipped, source } = self.take();
        char_info.next();
        *self = App { fnames, char_info, loaded, failure, skipped, source };
    }

    /// Moves the glyph cursor one step up.
    pub fn select_prev_glyph(&mut self)
        ensures
            final(self)@ == old(self)@.prev_glyph(),
            final(self)@.well_formed(),
    {
        let App { fnames, mut char_info, loaded, failure, skipped, source } = self.take();
        char_info.prev();
        *self = App { fnames, char_info, loaded, failure, skipped, source };
    }

    /// Takes the outcome of a run of the inspection tool on the font file at
    /// `path`, and says whether it was taken. It is taken where `path` is
    /// the font under the cursor: the glyph list then holds the extracted
    /// records, or is empty where extraction failed, with the error kept for
    /// display. Either way the browser goes on.
    pub fn load_glyphs(&mut self, path: &String, run: &ToolRun) -> (taken: bool)
        ensures
            final(self)@ == old(self)@.load(path@, *run),
            final(self)@.well_formed(),
            taken == old(self)@.takes(path@),
    {
        let app = self.take();
        let taken = match app.fnames.selected() {
            Some(font) => font.1 == *path,
            None => false,
        };
        if !taken {
            *self = app;
            return false;
        }
        let App { fnames, .. } = app;
        let source = Ghost(Some(Source { path: path@, run: *run }));
        let (records, skipped, failure) = match extract(run) {
            Ok(found) => (found.records, found.skipped, None),
            Err(e) => (Vec::new(), Vec::new(), Some(e)),
        };
        let ghost models = records.deep_view();
        let char_info = StatefulList::new(records);
        proof {
            assert(deep_list(char_info@).items =~= models);
            assert(models =~= AppModel::glyphs_from(*run));
            assert(failure is Some ==> skipped_view(skipped@) =~= Seq::<
                (int, ExtractionError),
            >::empty());
        }
        *self = App { fnames, char_info, loaded: true, failure, skipped, source };
        true
    }
}

/// A run of the tool from which extraction fails leaves the browser with an
/// empty glyph list without a cursor and with the failure on record, where
/// the run was made on the font under the cursor; the font list is as it
/// was, and the state stays well formed.
pub proof fn lemma_failed_extraction_leaves_no_glyphs(app: AppModel, path: Seq<char>, run: ToolRun)
    requires
        app.well_formed(),
        app.takes(path),
        extraction_of(run) is Err,
    ensures
        app.load(path, run).glyphs.items.len() == 0,
        app.load(path, run).glyphs.selected is None,
        app.load(path, run).failure() == Some(extraction_of(run)->Err_0),
        app.load(path, run).fonts == app.fonts,
        app.load(path, run).well_formed(),
{
}

/// Every step of the browser keeps its state well formed: whatever is done,
/// the glyph list in view is the one of the font under the cursor.
pub proof fn lemma_steps_keep_well_formed(app: AppModel, path: Seq<char>, run: ToolRun)
    requires
        app.well_formed(),
    ensures
        app.next_font().well_formed(),
        app.prev_font().well_formed(),
        app.next_glyph().well_formed(),
        app.prev_glyph().well_formed(),
        app.load(path, run).well_formed(),
{
}

} // verus!
