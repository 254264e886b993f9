//! The render loop of the browser as a state machine.
//!
//! The loop paints, waits for input until the tick is over, acts on the
//! input and starts the next tick. The machine decides; its driver owns the
//! terminal, the clock and the inspection tool. The driver performs the
//! action that the machine asks for, reports the outcome as an event, and
//! repeats with the action that it gets back, until that action is to exit.
//! All times are in nanoseconds.

use crate::app::{App, AppModel};
use crate::fonttools::ToolRun;
use vstd::prelude::*;

verus! {

/// A key as the terminal reports it.
#[derive(Clone, Copy, Debug, PartialEq, Eq)]
pub enum KeyPress {
    /// A key that types a character.
    Char(char),
    /// Any other key.
    Other,
}

/// What the terminal reports while the loop waits.
#[derive(Clone, Copy, Debug, PartialEq, Eq)]
pub enum InputEvent {
    /// A key was pressed.
    Key(KeyPress),
    /// Anything else, such as a change of the window's size.
    Other,
}

/// What the browser does on an input.
#[derive(Clone, Copy, Debug, PartialEq, Eq)]
pub enum Command {
    /// Leave the loop.
    Quit,
    /// Move the font cursor down.
    NextFont,
    /// Move the font cursor up.
    PreviousFont,
    /// No reaction.
    Nothing,
}

/// The command bound to an input: `q` quits, `j` moves down and `k` moves
/// up. Every other key, every other event and a wait that ended without
/// input do nothing.
pub open spec fn command_of(input: Option<InputEvent>) -> Command {
    match input {
        Some(InputEvent::Key(KeyPress::Char(c))) => if c == 'q' {
            Command::Quit
        } else if c == 'j' {
            Command::NextFont
        } else if c == 'k' {
            Command::PreviousFont
        } else {
            Command::Nothing
        },
        _ => Command::Nothing,
    }
}

/// How long the loop may still wait for input in a tick of length
/// `tick_rate` of which `elapsed` has passed: the rest of the tick, and
/// nothing once the tick is over.
pub open spec fn remaining(tick_rate: u128, elapsed: u128) -> u128 {
    if elapsed >= tick_rate {
        0
    } else {
        (tick_rate - elapsed) as u128
    }
}

/// The outcome that the machine waits for.
#[derive(Clone, Copy, Debug, PartialEq, Eq)]
pub enum Awaiting {
    /// The glyph table of the first font, before the first tick.
    FirstExtraction,
    /// The glyph table of the font that the cursor moved to.
    Extraction,
    /// The start of a new tick on the driver's clock.
    Clock,
    /// The painting of the screen.
    Paint,
    /// Input, for at most `timeout`.
    Input { timeout: u128 },
    /// Nothing: the loop has ended.
    Stopped,
}

/// What the driver is asked to do.
#[derive(Clone, Debug, PartialEq, Eq)]
pub enum LoopAction {
    /// Run the inspection tool on the font file at `path`.
    Extract { path: String },
    /// Take the present moment as the start of the tick.
    RestartClock,
    /// Paint the screen from the browser's state.
    Paint,
    /// Wait for input, for at most `timeout`.
    Poll { timeout: u128 },
    /// Leave the loop.
    Exit,
}

/// Mathematical model of a [`LoopAction`].
pub ghost enum ActionModel {
    Extract { path: Seq<char> },
    RestartClock,
    Paint,
    Poll { timeout: u128 },
    Exit,
}

impl View for LoopAction {
    type V = ActionModel;

    open spec fn view(&self) -> ActionModel {
        match *self {
            LoopAction::Extract { path } => ActionModel::Extract { path: path@ },
            LoopAction::RestartClock => ActionModel::RestartClock,
            LoopAction::Paint => ActionModel::Paint,
            LoopAction::Poll { timeout } => ActionModel::Poll { timeout },
            LoopAction::Exit => ActionModel::Exit,
        }
    }
}

/// What the driver reports. `elapsed` is the time since the start of the
/// tick, read when the outcome was there.
#[derive(Clone, Debug, PartialEq, Eq)]
pub enum LoopEvent {
    /// The inspection tool was run on the font file at `path`.
    Extracted { path: String, run: ToolRun, elapsed: u128 },
    /// A new tick has started.
    ClockRestarted,
    /// The screen was painted.
    Painted { elapsed: u128 },
    /// The wait ended, with an input or without one.
    Polled { input: Option<InputEvent>, elapsed: u128 },
}

/// Mathematical model of a [`RenderLoop`].
pub ghost struct LoopModel {
    pub app: AppModel,
    pub tick_rate: u128,
    pub awaiting: Awaiting,
}

impl LoopModel {
    /// The browser's state is well formed, a glyph table is only waited for
    /// while one is wanted, and input is never waited for longer than a
    /// tick.
    pub open spec fn well_formed(self) -> bool {
        &&& self.app.well_formed()
        &&& (self.awaiting is FirstExtraction || self.awaiting is Extraction)
            ==> self.app.wanted_font() is Some
        &&& self.awaiting matches Awaiting::Input { timeout } ==> timeout <= self.tick_rate
    }

    /// The loop before anything was done: it begins with the glyph table of
    /// the first font, if there is a font, and else with the first tick.
    pub open spec fn initial(app: AppModel, tick_rate: u128) -> LoopModel {
        LoopModel {
            app,
            tick_rate,
            awaiting: if app.wanted_font() is Some {
                Awaiting::FirstExtraction
            } else {
                Awaiting::Clock
            },
        }
    }

    /// What the driver has to do next.
    pub open spec fn action(self) -> ActionModel {
        match self.awaiting {
            Awaiting::FirstExtraction | Awaiting::Extraction => match self.app.wanted_font() {
                Some(path) => ActionModel::Extract { path },
                None => ActionModel::RestartClock,
            },
            Awaiting::Clock => ActionModel::RestartClock,
            Awaiting::Paint => ActionModel::Paint,
            Awaiting::Input { timeout } => ActionModel::Poll { timeout },
            Awaiting::Stopped => ActionModel::Exit,
        }
    }

    /// The end of a pass through the loop: a tick that is over is followed
    /// by a new one, and then the screen is painted again.
    pub open spec fn tick_boundary(tick_rate: u128, elapsed: u128) -> Awaiting {
        if elapsed >= tick_rate {
            Awaiting::Clock
        } else {
            Awaiting::Paint
        }
    }

    /// The loop after the browser's state became `app` on an input: a glyph
    /// table that is now wanted is read first.
    pub open spec fn after_input(self, app: AppModel, elapsed: u128) -> LoopModel {
        LoopModel {
            app,
            tick_rate: self.tick_rate,
            awaiting: if app.wanted_font() is Some {
                Awaiting::Extraction
            } else {
                Self::tick_boundary(self.tick_rate, elapsed)
            },
        }
    }

    /// The loop after the driver reported `event`. An event that the loop
    /// does not wait for changes nothing, and neither does a run of the
    /// tool on another file than the one asked for.
    pub open spec fn step(self, event: LoopEvent) -> LoopModel {
        match (self.awaiting, event) {
            (Awaiting::FirstExtraction, LoopEvent::Extracted { path, run, .. }) => {
                if self.app.takes(path@) {
                    LoopModel { app: self.app.load(path@, run), awaiting: Awaiting::Clock, ..self }
                } else {
                    self
                }
            },
            (Awaiting::Extraction, LoopEvent::Extracted { path, run, elapsed }) => {
                if self.app.takes(path@) {
                    LoopModel {
                        app: self.app.load(path@, run),
                        awaiting: Self::tick_boundary(self.tick_rate, elapsed),
                        ..self
                    }
                } else {
                    self
                }
            },
            (Awaiting::Clock, LoopEvent::ClockRestarted) => LoopModel {
                awaiting: Awaiting::Paint,
                ..self
            },
            (Awaiting::Paint, LoopEvent::Painted { elapsed }) => LoopModel {
                awaiting: Awaiting::Input { timeout: remaining(self.tick_rate, elapsed) },
                ..self
            },
            (Awaiting::Input { .. }, LoopEvent::Polled { input, elapsed }) => match command_of(
                input,
            ) {
                Command::Quit => LoopModel { awaiting: Awaiting::Stopped, ..self },
                Command::NextFont => self.after_input(self.app.next_font(), elapsed),
                Command::PreviousFont => self.after_input(self.app.prev_font(), elapsed),
                Command::Nothing => self.after_input(self.app, elapsed),
            },
            _ => self,
        }
    }
}

/// The command bound to an input.
pub fn command_for(input: &Option<InputEvent>) -> (command: Command)
    ensures
        command == command_of(*input),
{
    match input {
        Some(InputEvent::Key(KeyPress::Char(c))) => {
            if *c == 'q' {
                Command::Quit
            } else if *c == 'j' {
                Command::NextFont
            } else if *c == 'k' {
                Command::PreviousFont
            } else {
                Command::Nothing
            }
        },
        _ => Command::Nothing,
    }
}

/// How long the loop may still wait for input.
pub fn polling_timeout(tick_rate: u128, elapsed: u128) -> (timeout: u128)
    ensures
        timeout == remaining(tick_rate, elapsed),
        timeout <= tick_rate,
{
    if elapsed >= tick_rate {
        0
    } else {
        tick_rate - elapsed
    }
}

/// The render loop: the browser's state, the length of a tick, and the
/// point that the loop has reached.
pub struct RenderLoop {
    app: App,
    tick_rate: u128,
    awaiting: Awaiting,
}

impl View for RenderLoop {
    type V = LoopModel;

    closed spec fn view(&self) -> LoopModel {
        LoopModel { app: self.app@, tick_rate: self.tick_rate, awaiting: self.awaiting }
    }
}

impl RenderLoop {
    #[verifier::type_invariant]
    spec fn inv(self) -> bool {
        self@.well_formed()
    }

    /// The loop over the given state, with ticks of `tick_rate`.
    pub fn new(app: App, tick_rate: u128) -> (machine: RenderLoop)
        ensures
            machine@ == LoopModel::initial(app@, tick_rate),
            machine@.well_formed(),
    {
        let awaiting = match app.wanted_font() {
            Some(_) => Awaiting::FirstExtraction,
            None => Awaiting::Clock,
        };
        RenderLoop { app, tick_rate, awaiting }
    }

    /// The browser's state, for painting.
    pub fn app(&self) -> (app: &App)
        ensures
            app@ == self@.app,
    {
        &self.app
    }

    /// The length of a tick.
    pub fn tick_rate(&self) -> (tick_rate: u128)
        ensures
            tick_rate == self@.tick_rate,
    {
        self.tick_rate
    }

    /// Whether the loop has ended.
    pub fn is_stopped(&self) -> (stopped: bool)
        ensures
            stopped == (self@.awaiting is Stopped),
    {
        match self.awaiting {
            Awaiting::Stopped => true,
            _ => false,
        }
    }

    /// What the driver has to do next.
    pub fn action(&self) -> (action: LoopAction)
        ensures
            action@ == self@.action(),
    {
        proof {
            use_type_invariant(self);
        }
        match self.awaiting {
            Awaiting::FirstExtraction | Awaiting::Extraction => match self.app.wanted_font() {
                Some(path) => LoopAction::Extract { path: path.clone() },
                None => LoopAction::RestartClock,
            },
            Awaiting::Clock => LoopAction::RestartClock,
            Awaiting::Paint => LoopAction::Paint,
            Awaiting::Input { timeout } => LoopAction::Poll { timeout },
            Awaiting::Stopped => LoopAction::Exit,
        }
    }

    /// Takes the outcome of the action that the driver performed, and says
    /// what it has to do next.
    pub fn step(&mut self, event: LoopEvent) -> (action: LoopAction)
        ensures
            final(self)@ == old(self)@.step(event),
            final(self)@.well_formed(),
            action@ == final(self)@.action(),
    {
        proof {
            use_type_invariant(&*self);
        }
        let mut machine = RenderLoop::new(App::new(Vec::new()), 0);
        std::mem::swap(self, &mut machine);
        let RenderLoop { mut app, tick_rate, awaiting } = machine;
        let next = match (awaiting, event) {
            (Awaiting::FirstExtraction, LoopEvent::Extracted { path, run, .. }) => {
                if app.load_glyphs(&path, &run) {
                    Awaiting::Clock
                } else {
                    Awaiting::FirstExtraction
                }
            },
            (Awaiting::Extraction, LoopEvent::Extracted { path, run, elapsed }) => {
                if app.load_glyphs(&path, &run) {
                    tick_boundary(tick_rate, elapsed)
                } else {
                    Awaiting::Extraction
                }
            },
            (Awaiting::Clock, LoopEvent::ClockRestarted) => Awaiting::Paint,
            (Awaiting::Paint, LoopEvent::Painted { elapsed }) => Awaiting::Input {
                timeout: polling_timeout(tick_rate, elapsed),
            },
            (Awaiting::Input { .. }, LoopEvent::Polled { input, elapsed }) => {
                match command_for(&input) {
                    Command::Quit => Awaiting::Stopped,
                    command => {
                        match command {
                            Command::NextFont => app.select_next_font(),
                            Command::PreviousFont => app.select_prev_font(),
                            _ => {},
                        }
                        match app.wanted_font() {
                            Some(_) => Awaiting::Extraction,
                            None => tick_boundary(tick_rate, elapsed),
                        }
                    },
                }
            },
            (awaiting, _) => awaiting,
        };
        *self = RenderLoop { app, tick_rate, awaiting: next };
        self.action()
    }
}

/// The end of a pass through the loop.
pub fn tick_boundary(tick_rate: u128, elapsed: u128) -> (next: Awaiting)
    ensures
        next == LoopModel::tick_boundary(tick_rate, elapsed),
{
    if elapsed >= tick_rate {
        Awaiting::Clock
    } else {
        Awaiting::Paint
    }
}

/// Whatever the driver reports, the loop stays well formed: the browser's
/// state is valid, and a glyph table is asked for only while a font wants
/// one. The wait for input never lasts longer than a tick.
pub proof fn lemma_step_keeps_well_formed(machine: LoopModel, event: LoopEvent)
    requires
        machine.well_formed(),
    ensures
        machine.step(event).well_formed(),
        machine.step(event).tick_rate == machine.tick_rate,
{
}

/// A loop that has ended stays ended, and its state is not touched again.
pub proof fn lemma_stopped_stays_stopped(machine: LoopModel, event: LoopEvent)
    requires
        machine.awaiting is Stopped,
    ensures
        machine.step(event) == machine,
        machine.action() == ActionModel::Exit,
{
}

/// A key other than the quit key never ends the loop, and the quit key ends
/// it wherever the cursors are.
pub proof fn lemma_only_quit_stops(machine: LoopModel, input: Option<InputEvent>, elapsed: u128)
    requires
        machine.awaiting is Input,
    ensures
        machine.step(LoopEvent::Polled { input, elapsed }).awaiting is Stopped <==> command_of(
            input,
        ) == Command::Quit,
        command_of(input) == Command::Quit ==> machine.step(
            LoopEvent::Polled { input, elapsed },
        ).app == machine.app,
{
}

} // verus!
