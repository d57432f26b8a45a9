//! The editor window.
//!
//! The window draws what Neovim says and sends what the user types; it never speaks to Neovim
//! itself. [`Gui`] holds its decisions: what an event changes, and what is to be done about it.
use vstd::prelude::*;

use crate::controller::{Cmd, superseded};
use crate::ime::{Composition, Preedit};
use crate::input::{Mods, encode_key, encode_text};
use crate::keys::{KeyEvent, convert, mods};

verus! {

/// The grid, in columns and rows, that the window and Neovim start with.
pub const DEFAULT_GRID: (u16, u16) = (90, 28);

/// How many times in a row drawing may fail. A lost render target is made anew, and mostly that
/// helps; where it does not, going on would only burn the processor.
pub const MAX_DRAW_FAILURES: u32 = 3;

/// An event that another part of the application sends to the window. `B` is a batch of drawing
/// instructions, `E` an error.
#[derive(Debug)]
pub enum UserEvent<B, E> {
    /// Drawing instructions. A Neovim that has been replaced may have sent them.
    Redraw { generation: u64, batch: B },
    Hotkey,
    /// The entry for starting with the system was switched.
    ToggleAutostart,
    /// The window is to appear over the target window.
    Show { target: isize },
    Hide,
    Focus,
    Quit,
    /// Neovim could not be started. The error becomes the result of the application.
    Fatal(E),
}

/// What a [`UserEvent`] calls for.
#[derive(Debug)]
pub enum Wanted<B, E> {
    Nothing,
    /// The controller is to get this.
    Send(Cmd),
    /// The instructions are to be followed; [`Gui::on_redraw`] is told.
    Redraw(B),
    /// The window is to appear over the target window.
    Show { target: isize },
    Hide,
    Focus,
    ToggleAutostart,
    /// The application is to exit.
    Quit,
    /// The application is to exit with this error.
    Die(E),
}

/// What an input method says.
#[derive(Debug, PartialEq, Eq)]
pub enum ImeEvent {
    /// A composition begins.
    Enabled,
    Preedit { text: String, target: Option<(usize, usize)> },
    Commit(String),
    /// The composition has ended.
    Disabled,
}

/// An event of a window of the application.
#[derive(Debug, PartialEq, Eq)]
pub enum WindowEvent {
    CloseRequested,
    Resized { width: u32, height: u32 },
    ScaleFactorChanged,
    RedrawRequested,
    Ime(ImeEvent),
    /// The bits of the modifier keys that are held now.
    ModifiersChanged(u32),
    KeyboardInput { event: KeyEvent, is_synthetic: bool },
    FocusLost,
    Other,
}

/// What a [`WindowEvent`] calls for.
#[derive(Debug, PartialEq, Eq)]
pub enum Work {
    Nothing,
    /// The controller is to get this.
    Send(Cmd),
    /// The controller is to get this, and the window to be drawn.
    SendAndRedraw(Cmd),
    /// The window is to be drawn.
    Redraw,
    /// The input method's list is to be moved to the cursor, and the window to be drawn.
    PlaceImeAndRedraw,
    /// The render target is to get this size; [`Gui::on_grid`] is told.
    Resize { width: u32, height: u32 },
    /// The font is to be made for the new scale; [`Gui::on_grid`] is told.
    Rescale,
    /// The window's contents are to be drawn now; [`Gui::on_draw`] is told.
    Draw,
}

/// A [`Work`], by contents.
pub ghost enum Effect {
    Nothing,
    Send(crate::controller::Order),
    SendAndRedraw(crate::controller::Order),
    Redraw,
    PlaceImeAndRedraw,
    Resize { width: u32, height: u32 },
    Rescale,
    Draw,
}

impl View for Work {
    type V = Effect;

    open spec fn view(&self) -> Effect {
        match self {
            Work::Nothing => Effect::Nothing,
            Work::Send(cmd) => Effect::Send(cmd@),
            Work::SendAndRedraw(cmd) => Effect::SendAndRedraw(cmd@),
            Work::Redraw => Effect::Redraw,
            Work::PlaceImeAndRedraw => Effect::PlaceImeAndRedraw,
            Work::Resize { width, height } => Effect::Resize { width: *width, height: *height },
            Work::Rescale => Effect::Rescale,
            Work::Draw => Effect::Draw,
        }
    }
}

/// What the end of some work on the window calls for.
#[derive(Debug, PartialEq, Eq)]
pub enum Next<E> {
    Nothing,
    /// The controller is to get this.
    Send(Cmd),
    /// The render target is to be made anew; [`Gui::on_grid`] is told.
    Rebuild,
    /// The application is to exit with this error.
    Die(E),
}

/// What a batch of drawing instructions has changed.
#[derive(Clone, Copy, Debug, PartialEq, Eq, Structural)]
pub struct RedrawOutcome {
    pub font_changed: bool,
    pub mode_changed: bool,
    pub title_changed: bool,
    pub flushed: bool,
}

/// What is to be done about it, in this order.
#[derive(Clone, Copy, Debug, PartialEq, Eq, Structural)]
pub struct RedrawWork {
    /// The font is to be chosen anew.
    pub apply_guifont: bool,
    /// Whether an input method may be used is to be said anew.
    pub set_ime_allowed: bool,
    pub set_title: bool,
    pub request_redraw: bool,
}

/// What Neovim's font option says.
#[derive(Debug, PartialEq, Eq)]
pub enum GuiFont<F> {
    /// The choice is left to the window.
    Unspecified,
    Spec(F),
    /// It cannot be read.
    Invalid,
}

/// What the choice of a font calls for.
#[derive(Clone, Copy, Debug, PartialEq, Eq, Structural)]
pub enum FontWork {
    /// It is the present one.
    Keep,
    /// There is no window yet; the font is for the one to come.
    Remember,
    /// The window is to switch to it; [`Gui::on_font`] and [`font_in_use`] are told.
    Switch,
}

/// The keys that a keyboard event sends to Neovim: only a key that was really pressed sends any,
/// and only outside a composition.
pub open spec fn typed(event: KeyEvent, is_synthetic: bool, composing: bool, mods: Mods) -> Option<
    Seq<char>,
> {
    if !event.pressed || is_synthetic || composing {
        None
    } else {
        match crate::keys::converted(event, mods) {
            None => None,
            Some(key) => crate::input::notation(key, mods),
        }
    }
}

/// The window, by contents.
pub ghost struct GuiState {
    /// The window's number, once there is one.
    pub window: Option<u64>,
    pub composition: crate::ime::CompositionState,
    /// The modifier keys that are held.
    pub mods: Mods,
    /// The grid that Neovim was told last.
    pub grid: (u16, u16),
    /// How many times in a row drawing has failed.
    pub draw_failures: u32,
}

/// The font that an option asks for, if it asks for one.
pub open spec fn asked_font<F>(guifont: Option<GuiFont<F>>, default: F) -> Option<F> {
    match guifont {
        None => Some(default),
        Some(GuiFont::Unspecified) => Some(default),
        Some(GuiFont::Spec(font)) => Some(font),
        Some(GuiFont::Invalid) => None,
    }
}

/// The font that is in use afterwards.
pub open spec fn used_font<F>(present: F, wanted: F, work: FontWork, switched: bool) -> F {
    match work {
        FontWork::Keep => present,
        FontWork::Remember => wanted,
        FontWork::Switch => if switched {
            wanted
        } else {
            present
        },
    }
}

impl GuiState {
    /// What another part of the application asks of the window.
    pub open spec fn wanted<B, E>(self, event: UserEvent<B, E>, current: u64) -> Wanted<B, E> {
        match event {
            UserEvent::Redraw { generation, batch } => if generation != current {
                Wanted::Nothing
            } else {
                Wanted::Redraw(batch)
            },
            UserEvent::Hotkey => Wanted::Send(Cmd::Hotkey),
            UserEvent::ToggleAutostart => Wanted::ToggleAutostart,
            UserEvent::Show { target } => if self.window is None {
                Wanted::Nothing
            } else {
                Wanted::Show { target }
            },
            UserEvent::Hide => if self.window is None {
                Wanted::Nothing
            } else {
                Wanted::Hide
            },
            UserEvent::Focus => if self.window is None {
                Wanted::Nothing
            } else {
                Wanted::Focus
            },
            UserEvent::Quit => Wanted::Quit,
            UserEvent::Fatal(error) => Wanted::Die(error),
        }
    }

    /// What the end of a drawing calls for, once it is counted.
    pub open spec fn after_drawing<E>(self, drawn: Result<(), E>) -> Next<E> {
        match drawn {
            Ok(_) => Next::Nothing,
            Err(error) => if self.drawn(false).keeps_failing() {
                Next::Die(error)
            } else {
                Next::Rebuild
            },
        }
    }

    /// What is to be done about what a batch has changed.
    pub open spec fn redraw_work(self, outcome: RedrawOutcome) -> RedrawWork {
        RedrawWork {
            apply_guifont: outcome.font_changed,
            set_ime_allowed: self.window is Some && outcome.mode_changed,
            set_title: self.window is Some && outcome.title_changed,
            request_redraw: self.window is Some && outcome.flushed,
        }
    }

    /// What is to be done with a font.
    pub open spec fn font_work(self, is_present: bool) -> FontWork {
        if is_present {
            FontWork::Keep
        } else if self.window is Some {
            FontWork::Switch
        } else {
            FontWork::Remember
        }
    }

    /// The application's start, before there is a window.
    pub open spec fn fresh() -> GuiState {
        GuiState {
            window: None,
            composition: crate::ime::CompositionState::none(),
            mods: Mods { ctrl: false, alt: false, shift: false },
            grid: DEFAULT_GRID,
            draw_failures: 0,
        }
    }

    /// What word of the window's grid does: Neovim is told, unless it knows.
    pub open spec fn gridded(self, grid: (u16, u16)) -> (
        GuiState,
        Option<crate::controller::Order>,
    ) {
        if grid == self.grid {
            (self, None)
        } else {
            (
                GuiState { grid, ..self },
                Some(crate::controller::Order::Resize { cols: grid.0, rows: grid.1 }),
            )
        }
    }

    /// How many times in a row drawing has failed, after one more time.
    pub open spec fn drawn(self, succeeded: bool) -> GuiState {
        if succeeded {
            GuiState { draw_failures: 0, ..self }
        } else if self.draw_failures < u32::MAX {
            GuiState { draw_failures: (self.draw_failures + 1) as u32, ..self }
        } else {
            self
        }
    }

    /// The window after a series of drawings.
    pub open spec fn drawn_all(self, succeeded: Seq<bool>) -> GuiState
        decreases succeeded.len(),
    {
        if succeeded.len() == 0 {
            self
        } else {
            self.drawn_all(succeeded.drop_last()).drawn(succeeded.last())
        }
    }

    /// Whether drawing has failed too often.
    pub open spec fn keeps_failing(self) -> bool {
        self.draw_failures >= MAX_DRAW_FAILURES
    }

    /// What an input method's word does.
    pub open spec fn composed(self, event: ImeEvent) -> (GuiState, Effect) {
        match event {
            ImeEvent::Enabled => (
                GuiState { composition: self.composition.begun(), ..self },
                Effect::Nothing,
            ),
            ImeEvent::Preedit { text, target } => (
                GuiState { composition: self.composition.with(text@, target), ..self },
                Effect::PlaceImeAndRedraw,
            ),
            ImeEvent::Commit(text) => (
                GuiState { composition: crate::ime::CompositionState::none(), ..self },
                Effect::SendAndRedraw(
                    crate::controller::Order::Input(crate::input::escaped(text@)),
                ),
            ),
            ImeEvent::Disabled => (
                GuiState { composition: crate::ime::CompositionState::none(), ..self },
                Effect::Redraw,
            ),
        }
    }

    /// What an event of the numbered window does.
    pub open spec fn handled(self, window: u64, event: WindowEvent) -> (GuiState, Effect) {
        if self.window != Some(window) {
            (self, Effect::Nothing)
        } else {
            match event {
                WindowEvent::CloseRequested => (
                    self,
                    Effect::Send(crate::controller::Order::CloseRequested),
                ),
                WindowEvent::Resized { width, height } => (
                    self,
                    if width == 0 || height == 0 {
                        Effect::Nothing
                    } else {
                        Effect::Resize { width, height }
                    },
                ),
                WindowEvent::ScaleFactorChanged => (self, Effect::Rescale),
                WindowEvent::RedrawRequested => (self, Effect::Draw),
                WindowEvent::Ime(ime) => self.composed(ime),
                WindowEvent::ModifiersChanged(state) => (
                    GuiState {
                        mods: Mods {
                            ctrl: state & crate::keys::CONTROL_BIT != 0,
                            alt: state & crate::keys::ALT_BIT != 0,
                            shift: state & crate::keys::SHIFT_BIT != 0,
                        },
                        ..self
                    },
                    Effect::Nothing,
                ),
                WindowEvent::KeyboardInput { event, is_synthetic } => (
                    self,
                    match typed(event, is_synthetic, self.composition.composing, self.mods) {
                        Some(keys) => Effect::Send(crate::controller::Order::Input(keys)),
                        None => Effect::Nothing,
                    },
                ),
                WindowEvent::FocusLost => (
                    GuiState {
                        composition: crate::ime::CompositionState::none(),
                        mods: Mods { ctrl: false, alt: false, shift: false },
                        ..self
                    },
                    Effect::Redraw,
                ),
                WindowEvent::Other => (self, Effect::Nothing),
            }
        }
    }
}

/// The decisions of the editor window.
#[derive(Debug)]
pub struct Gui {
    window: Option<u64>,
    ime: Composition,
    mods: Mods,
    grid: (u16, u16),
    draw_failures: u32,
}

impl View for Gui {
    type V = GuiState;

    closed spec fn view(&self) -> GuiState {
        GuiState {
            window: self.window,
            composition: self.ime@,
            mods: self.mods,
            grid: self.grid,
            draw_failures: self.draw_failures,
        }
    }
}

impl Default for Gui {
    /// The application's start, before there is a window.
    fn default() -> (gui: Gui)
        ensures
            gui@ == GuiState::fresh(),
    {
        Gui {
            window: None,
            ime: Composition::default(),
            mods: Mods::default(),
            grid: DEFAULT_GRID,
            draw_failures: 0,
        }
    }
}

impl Gui {
    /// The text to draw at the cursor.
    pub fn preedit(&self) -> (preedit: &Preedit)
        ensures
            preedit.text@ == self@.composition.text,
            preedit.target == self@.composition.target,
    {
        self.ime.preedit()
    }

    /// The grid that Neovim was told last.
    pub fn grid(&self) -> (grid: (u16, u16))
        ensures
            grid == self@.grid,
    {
        self.grid
    }

    /// Whether a window is to be made now that the application may have one. There is only ever
    /// one.
    pub fn resumed(&self) -> (create: bool)
        ensures
            create == (self@.window is None),
    {
        self.window.is_none()
    }

    /// Whether the window could be made, and its number. Only with a window that hears of the
    /// session's end may Neovim be started.
    pub fn on_surface<E>(&mut self, created: Result<u64, E>) -> (next: Next<E>)
        ensures
            match created {
                Ok(window) => {
                    &&& final(self)@ == (GuiState { window: Some(window), ..old(self)@ })
                    &&& next == Next::<E>::Send(Cmd::Start)
                },
                Err(error) => final(self)@ == old(self)@ && next == Next::Die(error),
            },
    {
        match created {
            Ok(window) => {
                self.window = Some(window);
                Next::Send(Cmd::Start)
            },
            Err(error) => Next::Die(error),
        }
    }

    /// Another part of the application says something. Drawing instructions of a Neovim that has
    /// been replaced are dropped, and so is what needs a window before there is one.
    pub fn user_event<B, E>(&self, event: UserEvent<B, E>, current: u64) -> (wanted: Wanted<B, E>)
        ensures
            wanted == (match event {
                UserEvent::Redraw { generation, batch } => if generation == current {
                    Wanted::Redraw(batch)
                } else {
                    Wanted::Nothing
                },
                UserEvent::Hotkey => Wanted::Send(Cmd::Hotkey),
                UserEvent::ToggleAutostart => Wanted::ToggleAutostart,
                UserEvent::Show { target } => if self@.window is Some {
                    Wanted::Show { target }
                } else {
                    Wanted::Nothing
                },
                UserEvent::Hide => if self@.window is Some {
                    Wanted::Hide
                } else {
                    Wanted::Nothing
                },
                UserEvent::Focus => if self@.window is Some {
                    Wanted::Focus
                } else {
                    Wanted::Nothing
                },
                UserEvent::Quit => Wanted::Quit,
                UserEvent::Fatal(error) => Wanted::Die(error),
            }),
            wanted == self@.wanted(event, current),
    {
        match event {
            UserEvent::Redraw { generation, batch } => {
                if superseded(generation, current) {
                    Wanted::Nothing
                } else {
                    Wanted::Redraw(batch)
                }
            },
            UserEvent::Hotkey => Wanted::Send(Cmd::Hotkey),
            UserEvent::ToggleAutostart => Wanted::ToggleAutostart,
            UserEvent::Show { target } => {
                if self.window.is_some() {
                    Wanted::Show { target }
                } else {
                    Wanted::Nothing
                }
            },
            UserEvent::Hide => {
                if self.window.is_some() {
                    Wanted::Hide
                } else {
                    Wanted::Nothing
                }
            },
            UserEvent::Focus => {
                if self.window.is_some() {
                    Wanted::Focus
                } else {
                    Wanted::Nothing
                }
            },
            UserEvent::Quit => Wanted::Quit,
            UserEvent::Fatal(error) => Wanted::Die(error),
        }
    }

    /// Something happened to a window. What happens to another than the editor window is ignored.
    pub fn window_event(&mut self, window: u64, event: WindowEvent) -> (work: Work)
        ensures
            (final(self)@, work@) == old(self)@.handled(window, event),
    {
        let ours = match self.window {
            Some(number) => number == window,
            None => false,
        };
        if !ours {
            return Work::Nothing;
        }
        match event {
            // Closing is for Neovim to do.
            WindowEvent::CloseRequested => Work::Send(Cmd::CloseRequested),
            WindowEvent::Resized { width, height } => self.on_resized(width, height),
            WindowEvent::ScaleFactorChanged => Work::Rescale,
            WindowEvent::RedrawRequested => Work::Draw,
            WindowEvent::Ime(ime) => self.on_ime(ime),
            WindowEvent::ModifiersChanged(state) => {
                self.mods = mods(state);
                Work::Nothing
            },
            WindowEvent::KeyboardInput { event, is_synthetic } => {
                match self.on_key(&event, is_synthetic) {
                    Some(keys) => Work::Send(Cmd::Input(keys)),
                    None => Work::Nothing,
                }
            },
            WindowEvent::FocusLost => {
                self.on_focus_lost();
                Work::Redraw
            },
            WindowEvent::Other => Work::Nothing,
        }
    }

    /// The window has a new size. A minimised window has none, and no render target can have that.
    pub fn on_resized(&self, width: u32, height: u32) -> (work: Work)
        ensures
            work@ == (if width == 0 || height == 0 {
                Effect::Nothing
            } else {
                Effect::Resize { width, height }
            }),
    {
        if width == 0 || height == 0 {
            Work::Nothing
        } else {
            Work::Resize { width, height }
        }
    }

    /// The input method says something. What it commits is sent as typed text.
    pub fn on_ime(&mut self, event: ImeEvent) -> (work: Work)
        ensures
            (final(self)@, work@) == old(self)@.composed(event),
    {
        match event {
            ImeEvent::Enabled => {
                self.ime.begin();
                Work::Nothing
            },
            ImeEvent::Preedit { text, target } => {
                self.ime.set_preedit(text, target);
                Work::PlaceImeAndRedraw
            },
            ImeEvent::Commit(text) => {
                self.ime.clear();
                Work::SendAndRedraw(Cmd::Input(encode_text(text.as_str())))
            },
            ImeEvent::Disabled => {
                self.ime.clear();
                Work::Redraw
            },
        }
    }

    /// The keys that a keyboard event sends to Neovim. The input method's keys are not sent a
    /// second time, nor are keys that nobody pressed.
    pub fn on_key(&self, event: &KeyEvent, is_synthetic: bool) -> (keys: Option<String>)
        ensures
            match keys {
                Some(sent) => typed(
                    *event,
                    is_synthetic,
                    self@.composition.composing,
                    self@.mods,
                ) == Some(sent@),
                None => typed(*event, is_synthetic, self@.composition.composing, self@.mods)
                    is None,
            },
    {
        if !event.pressed || is_synthetic || self.ime.composing() {
            return None;
        }
        match convert(event, self.mods) {
            Some(key) => encode_key(key, self.mods),
            None => None,
        }
    }

    /// The window is no longer the one that is typed into. A composition that was open is
    /// forgotten, and so are the modifier keys: they are released out of sight.
    pub fn on_focus_lost(&mut self)
        ensures
            final(self)@ == (GuiState {
                composition: crate::ime::CompositionState::none(),
                mods: Mods { ctrl: false, alt: false, shift: false },
                ..old(self)@
            }),
    {
        self.ime.clear();
        self.mods = Mods::default();
    }

    /// What a batch of drawing instructions has changed; `None` if it could not be followed.
    pub fn on_redraw(&self, outcome: Option<RedrawOutcome>) -> (work: RedrawWork)
        ensures
            work == (match outcome {
                None => RedrawWork {
                    apply_guifont: false,
                    set_ime_allowed: false,
                    set_title: false,
                    request_redraw: false,
                },
                Some(outcome) => RedrawWork {
                    apply_guifont: outcome.font_changed,
                    set_ime_allowed: outcome.mode_changed && self@.window is Some,
                    set_title: outcome.title_changed && self@.window is Some,
                    request_redraw: outcome.flushed && self@.window is Some,
                },
            }),
            outcome is Some ==> work == self@.redraw_work(outcome->0),
    {
        let there = self.window.is_some();
        match outcome {
            None => RedrawWork {
                apply_guifont: false,
                set_ime_allowed: false,
                set_title: false,
                request_redraw: false,
            },
            Some(outcome) => RedrawWork {
                apply_guifont: outcome.font_changed,
                set_ime_allowed: outcome.mode_changed && there,
                set_title: outcome.title_changed && there,
                request_redraw: outcome.flushed && there,
            },
        }
    }

    /// What is to be done with a font, given whether it is the present one.
    pub fn apply_guifont(&self, is_present: bool) -> (work: FontWork)
        ensures
            work == (if is_present {
                FontWork::Keep
            } else if self@.window is None {
                FontWork::Remember
            } else {
                FontWork::Switch
            }),
            work == self@.font_work(is_present),
    {
        if is_present {
            FontWork::Keep
        } else if self.window.is_none() {
            FontWork::Remember
        } else {
            FontWork::Switch
        }
    }

    /// Whether the window has switched to a font, and the grid that it has with it. One that has
    /// not keeps the font that it has.
    pub fn on_font(&mut self, grid: Option<(u16, u16)>) -> (cmd: Option<Cmd>)
        ensures
            match grid {
                Some(grid) => {
                    &&& final(self)@ == old(self)@.gridded(grid).0
                    &&& cmd is Some <==> old(self)@.gridded(grid).1 is Some
                    &&& cmd matches Some(sent) ==> Some(sent@) == old(self)@.gridded(grid).1
                },
                None => final(self)@ == old(self)@ && cmd is None,
            },
    {
        match grid {
            Some(grid) => self.set_grid(grid),
            None => None,
        }
    }

    /// The window's grid. Neovim is told, unless it was told the same before.
    pub fn set_grid(&mut self, grid: (u16, u16)) -> (cmd: Option<Cmd>)
        ensures
            final(self)@ == old(self)@.gridded(grid).0,
            cmd is Some <==> old(self)@.gridded(grid).1 is Some,
            cmd matches Some(sent) ==> Some(sent@) == old(self)@.gridded(grid).1,
    {
        if grid.0 == self.grid.0 && grid.1 == self.grid.1 {
            return None;
        }
        self.grid = grid;
        Some(Cmd::Resize { cols: grid.0, rows: grid.1 })
    }

    /// Whether the render target could be given its size, its font or be made anew, and the grid
    /// that it has now.
    pub fn on_grid<E>(&mut self, grid: Result<(u16, u16), E>) -> (next: Next<E>)
        ensures
            match grid {
                Ok(grid) => {
                    &&& final(self)@ == old(self)@.gridded(grid).0
                    &&& match old(self)@.gridded(grid).1 {
                        None => next == Next::<E>::Nothing,
                        Some(order) => next is Send && next->Send_0@ == order,
                    }
                },
                Err(error) => final(self)@ == old(self)@ && next == Next::Die(error),
            },
    {
        match grid {
            Ok(grid) => match self.set_grid(grid) {
                Some(cmd) => Next::Send(cmd),
                None => Next::Nothing,
            },
            Err(error) => Next::Die(error),
        }
    }

    /// Whether drawing succeeded. A render target that was lost is made anew, a few times.
    pub fn on_draw<E>(&mut self, drawn: Result<(), E>) -> (next: Next<E>)
        ensures
            final(self)@ == old(self)@.drawn(drawn is Ok),
            next == (match drawn {
                Ok(_) => Next::Nothing,
                Err(error) => if final(self)@.keeps_failing() {
                    Next::Die(error)
                } else {
                    Next::Rebuild
                },
            }),
            next == old(self)@.after_drawing(drawn),
    {
        match drawn {
            Ok(_) => {
                self.draw_failures = 0;
                Next::Nothing
            },
            Err(error) => {
                if self.draw_failures < u32::MAX {
                    self.draw_failures = self.draw_failures + 1;
                }
                if self.draw_failures >= MAX_DRAW_FAILURES {
                    Next::Die(error)
                } else {
                    Next::Rebuild
                }
            },
        }
    }
}

/// The font that is wanted, if one can be told. An option that leaves the choice to the window
/// means its default; one that cannot be read means no change, not the default.
pub fn wanted_font<F>(guifont: Option<GuiFont<F>>, default: F) -> (font: Option<F>)
    ensures
        font == (match guifont {
            None | Some(GuiFont::Unspecified) => Some(default),
            Some(GuiFont::Spec(font)) => Some(font),
            Some(GuiFont::Invalid) => None,
        }),
        font == asked_font(guifont, default),
{
    match guifont {
        None => Some(default),
        Some(GuiFont::Unspecified) => Some(default),
        Some(GuiFont::Spec(font)) => Some(font),
        Some(GuiFont::Invalid) => None,
    }
}

/// The font that is in use once a choice was followed, given whether the window has switched to
/// the font that is wanted. A window that could not switch keeps the font that it has.
pub fn font_in_use<F>(present: F, wanted: F, work: FontWork, switched: bool) -> (font: F)
    ensures
        font == (if work == FontWork::Remember || (work == FontWork::Switch && switched) {
            wanted
        } else {
            present
        }),
        font == used_font(present, wanted, work, switched),
{
    match work {
        FontWork::Keep => present,
        FontWork::Remember => wanted,
        FontWork::Switch => if switched {
            wanted
        } else {
            present
        },
    }
}

/// The result of the application. An error that made it exit is the cause, whatever the event
/// loop says besides.
pub fn run<E>(fatal: Option<E>, result: Result<(), E>) -> (r: Result<(), E>)
    ensures
        r == (match fatal {
            Some(error) => Err(error),
            None => result,
        }),
{
    match fatal {
        Some(error) => Err(error),
        None => result,
    }
}

// ---------------------------------------------------------------------------
// Laws
// ---------------------------------------------------------------------------

/// Neovim is never told the same grid twice in a row.
pub proof fn law_a_grid_is_told_once(state: GuiState, grid: (u16, u16))
    ensures
        state.gridded(grid).0.grid == grid,
        state.gridded(grid).0.gridded(grid) == (
            state.gridded(grid).0,
            None::<crate::controller::Order>,
        ),
{
}

/// The window gives up exactly when the last drawings, as many as are allowed to fail, have all
/// failed: a success in between starts the count anew.
pub proof fn law_only_failures_in_a_row_count(state: GuiState, succeeded: Seq<bool>)
    requires
        state.draw_failures == 0,
    ensures
        state.drawn_all(succeeded).keeps_failing() <==> {
            &&& succeeded.len() >= MAX_DRAW_FAILURES
            &&& forall|i: int|
                succeeded.len() - MAX_DRAW_FAILURES <= i < succeeded.len() ==> !succeeded[i]
        },
{
    lemma_failures_are_counted(state, succeeded, MAX_DRAW_FAILURES as nat);
}

/// At least `n` failures are counted where the last `n` drawings have failed, and only there.
proof fn lemma_failures_are_counted(state: GuiState, succeeded: Seq<bool>, n: nat)
    requires
        state.draw_failures == 0,
        n <= MAX_DRAW_FAILURES,
    ensures
        state.drawn_all(succeeded).draw_failures >= n <==> {
            &&& succeeded.len() >= n
            &&& forall|i: int| succeeded.len() - n <= i < succeeded.len() ==> !succeeded[i]
        },
    decreases succeeded.len(),
{
    if succeeded.len() > 0 && n > 0 {
        let before = succeeded.drop_last();
        lemma_failures_are_counted(state, before, (n - 1) as nat);
        if succeeded.last() {
            assert(succeeded[succeeded.len() - 1]);
        } else if before.len() >= n - 1 && (forall|i: int|
            before.len() - (n - 1) <= i < before.len() ==> !before[i]) {
            assert forall|i: int| succeeded.len() - n <= i < succeeded.len() implies !succeeded[i] by {
                if i < before.len() {
                    assert(!before[i]);
                }
            }
        } else if succeeded.len() >= n {
            let i = choose|i: int|
                before.len() - (n - 1) <= i < before.len() && before[i];
            assert(succeeded[i]);
        }
    }
}

/// While a composition is open, no key is sent: the input method sends the text that it commits.
pub proof fn law_a_composition_keeps_its_keys(
    state: GuiState,
    window: u64,
    event: KeyEvent,
    is_synthetic: bool,
)
    requires
        state.composition.composing,
    ensures
        state.handled(window, WindowEvent::KeyboardInput { event, is_synthetic }) == (
            state,
            Effect::Nothing,
        ),
{
}

/// Committed text is sent whatever keys are held, and reaches Neovim as it was committed.
pub proof fn law_committed_text_is_sent(state: GuiState, window: u64, text: String)
    requires
        state.window == Some(window),
    ensures
        ({
            let (after, effect) = state.handled(window, WindowEvent::Ime(ImeEvent::Commit(text)));
            &&& effect matches Effect::SendAndRedraw(crate::controller::Order::Input(keys))
            &&& crate::input::received(keys) == text@
            &&& !after.composition.composing
            &&& after.composition.text.len() == 0
        }),
{
    crate::input::law_text_is_received_as_committed(text@);
}

/// A window that is left forgets what was held and what was being composed.
pub proof fn law_a_window_that_is_left_forgets(state: GuiState, window: u64)
    requires
        state.window == Some(window),
    ensures
        ({
            let after = state.handled(window, WindowEvent::FocusLost).0;
            &&& after.composition == crate::ime::CompositionState::none()
            &&& !after.mods.ctrl && !after.mods.alt && !after.mods.shift
        }),
{
}

/// What happens to another window, or before there is one, changes nothing and calls for nothing.
pub proof fn law_other_windows_are_ignored(state: GuiState, window: u64, event: WindowEvent)
    requires
        state.window != Some(window),
    ensures
        state.handled(window, event) == (state, Effect::Nothing),
{
}

/// The window begins without a number, a composition or a held key, with the grid that Neovim
/// starts with, 90 columns by 28 rows, and without a failure.
pub proof fn law_the_window_begins_fresh()
    ensures
        GuiState::fresh() == (GuiState {
            window: None,
            composition: crate::ime::CompositionState {
                composing: false,
                text: Seq::empty(),
                target: None,
            },
            mods: Mods { ctrl: false, alt: false, shift: false },
            grid: (90u16, 28u16),
            draw_failures: 0,
        }),
{
}

/// A grid that differs from the last one is told to Neovim, with its columns as columns and its rows
/// as rows, and becomes the last one; nothing else changes.
pub proof fn law_a_new_grid_is_told(state: GuiState, cols: u16, rows: u16)
    ensures
        state.grid != (cols, rows) ==> state.gridded((cols, rows)) == (
            GuiState { grid: (cols, rows), ..state },
            Some(crate::controller::Order::Resize { cols, rows }),
        ),
        state.grid == (cols, rows) ==> state.gridded((cols, rows)) == (
            state,
            None::<crate::controller::Order>,
        ),
{
}

/// A failure is counted on top of those before it, a success forgets them all, three are too many,
/// and nothing else changes.
pub proof fn law_failures_are_counted_one_by_one(state: GuiState)
    ensures
        state.drawn(true) == (GuiState { draw_failures: 0, ..state }),
        state.draw_failures < u32::MAX ==> state.drawn(false) == (GuiState {
            draw_failures: (state.draw_failures + 1) as u32,
            ..state
        }),
        state.draw_failures == u32::MAX ==> state.drawn(false) == state,
        state.keeps_failing() <==> state.draw_failures >= 3,
{
}

/// After word of uncommitted text, what is drawn is that text with that target, whatever composition
/// there was before; the list is moved to the cursor and the window is drawn, and nothing else
/// changes.
pub proof fn law_uncommitted_text_is_drawn_as_it_came(
    state: GuiState,
    window: u64,
    text: String,
    target: Option<(usize, usize)>,
)
    requires
        state.window == Some(window),
    ensures
        ({
            let (after, effect) = state.handled(
                window,
                WindowEvent::Ime(ImeEvent::Preedit { text, target }),
            );
            &&& after.composition.text == text@
            &&& after.composition.target == target
            &&& text@.len() > 0 ==> after.composition.composing
            &&& text@.len() == 0 ==> after.composition.composing == state.composition.composing
            &&& after == (GuiState { composition: after.composition, ..state })
            &&& effect == Effect::PlaceImeAndRedraw
        }),
{
}

/// Only the composition changes when it begins, ends or is committed: it is open once it has begun,
/// and nothing of it is left once it has ended or was committed. What was committed is sent with
/// `<` escaped and nothing else changed.
pub proof fn law_compositions_begin_and_end(state: GuiState, window: u64, text: String)
    requires
        state.window == Some(window),
    ensures
        state.handled(window, WindowEvent::Ime(ImeEvent::Enabled)) == (
            GuiState {
                composition: crate::ime::CompositionState {
                    composing: true,
                    ..state.composition
                },
                ..state
            },
            Effect::Nothing,
        ),
        state.handled(window, WindowEvent::Ime(ImeEvent::Disabled)) == (
            GuiState {
                composition: crate::ime::CompositionState {
                    composing: false,
                    text: Seq::empty(),
                    target: None,
                },
                ..state
            },
            Effect::Redraw,
        ),
        state.handled(window, WindowEvent::Ime(ImeEvent::Commit(text))) == (
            GuiState {
                composition: crate::ime::CompositionState {
                    composing: false,
                    text: Seq::empty(),
                    target: None,
                },
                ..state
            },
            Effect::SendAndRedraw(
                crate::controller::Order::Input(crate::input::escaped(text@)),
            ),
        ),
{
}

/// What the window's own events call for. A size of nothing is ignored, any other is given to the
/// render target as it came; none of these changes what the window remembers.
pub proof fn law_window_events_call_for_their_work(
    state: GuiState,
    window: u64,
    width: u32,
    height: u32,
)
    requires
        state.window == Some(window),
    ensures
        state.handled(window, WindowEvent::CloseRequested) == (
            state,
            Effect::Send(crate::controller::Order::CloseRequested),
        ),
        width > 0 && height > 0 ==> state.handled(window, WindowEvent::Resized { width, height })
            == (state, Effect::Resize { width, height }),
        width == 0 || height == 0 ==> state.handled(window, WindowEvent::Resized { width, height })
            == (state, Effect::Nothing),
        state.handled(window, WindowEvent::ScaleFactorChanged) == (state, Effect::Rescale),
        state.handled(window, WindowEvent::RedrawRequested) == (state, Effect::Draw),
        state.handled(window, WindowEvent::Other) == (state, Effect::Nothing),
{
}

/// The modifiers that are held are those that were told last, each by its own bit, and nothing else
/// changes.
pub proof fn law_the_latest_modifiers_are_held(state: GuiState, window: u64, bits: u32)
    requires
        state.window == Some(window),
    ensures
        state.handled(window, WindowEvent::ModifiersChanged(bits)) == (
            GuiState {
                mods: Mods {
                    ctrl: bits & 0x20u32 != 0,
                    alt: bits & 0x100u32 != 0,
                    shift: bits & 0x4u32 != 0,
                },
                ..state
            },
            Effect::Nothing,
        ),
{
}

/// Leaving the window forgets the composition and the modifiers, and nothing else.
pub proof fn law_leaving_changes_nothing_else(state: GuiState, window: u64)
    requires
        state.window == Some(window),
    ensures
        state.handled(window, WindowEvent::FocusLost) == (
            GuiState {
                composition: crate::ime::CompositionState {
                    composing: false,
                    text: Seq::empty(),
                    target: None,
                },
                mods: Mods { ctrl: false, alt: false, shift: false },
                ..state
            },
            Effect::Redraw,
        ),
{
}

/// A key that was really pressed, outside a composition, is sent with the modifiers that are held in
/// the notation of the key that it is; a key that is none sends nothing, and neither does one that
/// was released or that nobody pressed. What the window remembers does not change.
pub proof fn law_pressed_keys_are_sent(
    state: GuiState,
    window: u64,
    event: KeyEvent,
    is_synthetic: bool,
)
    requires
        state.window == Some(window),
    ensures
        ({
            let (after, effect) = state.handled(
                window,
                WindowEvent::KeyboardInput { event, is_synthetic },
            );
            let key = crate::keys::converted(event, state.mods);
            let live = event.pressed && !is_synthetic && !state.composition.composing;
            &&& after == state
            &&& !live ==> effect == Effect::Nothing
            &&& live && key is None ==> effect == Effect::Nothing
            &&& live && key is Some && crate::input::notation(key->0, state.mods) is None ==> effect
                == Effect::Nothing
            &&& live && key is Some && crate::input::notation(key->0, state.mods) is Some ==> effect
                == Effect::Send(
                crate::controller::Order::Input(crate::input::notation(key->0, state.mods)->0),
            )
        }),
{
}

/// A character that is typed without Ctrl and Alt reaches Neovim as that character.
pub proof fn law_a_typed_character_is_sent(state: GuiState, window: u64, event: KeyEvent)
    requires
        state.window == Some(window),
        event.pressed,
        !state.composition.composing,
        !state.mods.ctrl && !state.mods.alt,
        event.logical_key is Character,
        event.logical_key->Character_0@.len() > 0,
        0x20 <= event.logical_key->Character_0@[0] as u32,
        (event.logical_key->Character_0@[0] as u32) < 0x7f
            || event.logical_key->Character_0@[0] as u32 > 0x9f,
    ensures
        state.handled(window, WindowEvent::KeyboardInput { event, is_synthetic: false }).1
            == Effect::Send(
            crate::controller::Order::Input(
                if event.logical_key->Character_0@[0] == '<' {
                    "<lt>"@
                } else {
                    seq![event.logical_key->Character_0@[0]]
                },
            ),
        ),
{
    crate::input::law_typed_characters_are_sent_as_they_are(
        event.logical_key->Character_0@[0],
        state.mods.shift,
    );
}

/// Work is seen with all that it carries.
pub proof fn law_work_is_seen_whole(cmd: Cmd, width: u32, height: u32)
    ensures
        Work::Nothing@ == Effect::Nothing,
        Work::Send(cmd)@ == Effect::Send(cmd@),
        Work::SendAndRedraw(cmd)@ == Effect::SendAndRedraw(cmd@),
        Work::Redraw@ == Effect::Redraw,
        Work::PlaceImeAndRedraw@ == Effect::PlaceImeAndRedraw,
        (Work::Resize { width, height })@ == (Effect::Resize { width, height }),
        Work::Rescale@ == Effect::Rescale,
        Work::Draw@ == Effect::Draw,
{
}

/// What the input method and the keyboard say means the same by itself as in the editor window.
pub proof fn law_input_means_the_same_in_the_window(
    state: GuiState,
    window: u64,
    ime: ImeEvent,
    event: KeyEvent,
    is_synthetic: bool,
)
    requires
        state.window == Some(window),
    ensures
        state.composed(ime) == state.handled(window, WindowEvent::Ime(ime)),
        state.handled(window, WindowEvent::KeyboardInput { event, is_synthetic }).1 == (match typed(
            event,
            is_synthetic,
            state.composition.composing,
            state.mods,
        ) {
            Some(keys) => Effect::Send(crate::controller::Order::Input(keys)),
            None => Effect::Nothing,
        }),
{
}

/// Drawing instructions are followed exactly if they come from the present Neovim, and then as they
/// came.
pub proof fn law_only_the_present_neovim_draws<B, E>(
    state: GuiState,
    generation: u64,
    current: u64,
    batch: B,
)
    ensures
        generation == current ==> state.wanted(
            UserEvent::<B, E>::Redraw { generation, batch },
            current,
        ) == Wanted::<B, E>::Redraw(batch),
        generation != current ==> state.wanted(
            UserEvent::<B, E>::Redraw { generation, batch },
            current,
        ) == Wanted::<B, E>::Nothing,
{
}

/// A window is shown over its target, hidden and brought to the front as soon as there is one, and
/// not before. Whether there is one makes no difference to the hotkey, the switch for starting with
/// the system, quitting and dying.
pub proof fn law_what_is_asked_of_the_window<B, E>(
    state: GuiState,
    current: u64,
    target: isize,
    error: E,
)
    ensures
        state.window is Some ==> state.wanted(UserEvent::<B, E>::Show { target }, current) == (
        Wanted::<B, E>::Show { target }),
        state.window is Some ==> state.wanted(UserEvent::<B, E>::Hide, current) == Wanted::<
            B,
            E,
        >::Hide,
        state.window is Some ==> state.wanted(UserEvent::<B, E>::Focus, current) == Wanted::<
            B,
            E,
        >::Focus,
        state.window is None ==> {
            &&& state.wanted(UserEvent::<B, E>::Show { target }, current) is Nothing
            &&& state.wanted(UserEvent::<B, E>::Hide, current) is Nothing
            &&& state.wanted(UserEvent::<B, E>::Focus, current) is Nothing
        },
        state.wanted(UserEvent::<B, E>::Hotkey, current) == Wanted::<B, E>::Send(Cmd::Hotkey),
        state.wanted(UserEvent::<B, E>::ToggleAutostart, current) == Wanted::<
            B,
            E,
        >::ToggleAutostart,
        state.wanted(UserEvent::<B, E>::Quit, current) == Wanted::<B, E>::Quit,
        state.wanted(UserEvent::<B, E>::Fatal(error), current) == Wanted::<B, E>::Die(error),
{
}

/// A drawing that fails has the render target made anew the first two times in a row, and the third
/// time ends the application with its error; one that succeeds calls for nothing.
pub proof fn law_the_third_failure_is_fatal<E>(state: GuiState, error: E)
    ensures
        state.after_drawing(Ok::<(), E>(())) == Next::<E>::Nothing,
        state.draw_failures < 2 ==> state.after_drawing(Err::<(), E>(error)) == Next::<
            E,
        >::Rebuild,
        state.draw_failures >= 2 ==> state.after_drawing(Err::<(), E>(error)) == Next::Die(error),
{
}

/// Each change of a batch calls for its own work and for no other; all but the font need a window.
pub proof fn law_each_change_calls_for_its_work(state: GuiState, outcome: RedrawOutcome)
    ensures
        state.redraw_work(outcome).apply_guifont <==> outcome.font_changed,
        state.redraw_work(outcome).set_ime_allowed <==> outcome.mode_changed && state.window
            is Some,
        state.redraw_work(outcome).set_title <==> outcome.title_changed && state.window is Some,
        state.redraw_work(outcome).request_redraw <==> outcome.flushed && state.window is Some,
{
}

/// The font in use changes exactly if the option asks for another one, and the window has switched to
/// it or there is no window yet; then it is the one that was asked for. An option that cannot be
/// read asks for none, and one that leaves the choice asks for the default.
pub proof fn law_which_font_is_in_use<F>(
    state: GuiState,
    present: F,
    default: F,
    font: F,
    switched: bool,
)
    ensures
        asked_font(None, default) == Some(default),
        asked_font(Some(GuiFont::Unspecified), default) == Some(default),
        asked_font(Some(GuiFont::Spec(font)), default) == Some(font),
        asked_font(Some(GuiFont::Invalid), default) is None,
        used_font(present, font, state.font_work(true), switched) == present,
        state.window is None ==> used_font(present, font, state.font_work(false), switched) == font,
        state.window is Some && switched ==> used_font(
            present,
            font,
            state.font_work(false),
            switched,
        ) == font,
        state.window is Some && !switched ==> used_font(
            present,
            font,
            state.font_work(false),
            switched,
        ) == present,
        state.font_work(false) == FontWork::Switch <==> state.window is Some,
        state.font_work(true) == FontWork::Keep,
{
}

} // verus!
