//! The controller: the one place that owns the session and talks to Neovim.
//!
//! It takes commands from the window and notifications from Neovim, one at a time, and decides what
//! is done. It also keeps Neovim running: a Neovim that is gone is replaced, unless the system is
//! shutting down. Each Neovim has a generation; what an earlier one still has to say is dropped, or
//! its `session_end` could end and apply a session that it knows nothing of.
//!
//! [`Controller`] holds the decisions. What they call for is done outside: `exiting` and `allowed`
//! are what the cancellation policy says at that moment.
use vstd::prelude::*;

use crate::protocol::HostEvent;
use crate::session::{Applied, Phase, Session};

verus! {

/// A command to the controller.
#[derive(Debug, PartialEq, Eq)]
pub enum Cmd {
    /// The window is there and hears of the session's end. Only now is Neovim started.
    Start,
    /// The cancellation policy has changed. The policy is what counts, not when this comes.
    LifecycleChanged,
    Hotkey,
    Exit,
    /// Neovim says something. A Neovim that has been replaced may have said it.
    Host { generation: u64, event: HostEvent },
    /// Keys, in Neovim's notation.
    Input(String),
    /// The window's grid has changed.
    Resize { cols: u16, rows: u16 },
    /// The window is to be closed, which throws away what was not saved.
    CloseRequested,
}

/// A [`Cmd`], by contents.
pub ghost enum Order {
    Start,
    LifecycleChanged,
    Hotkey,
    Exit,
    Host { generation: u64, event: crate::protocol::News },
    Input(Seq<char>),
    Resize { cols: u16, rows: u16 },
    CloseRequested,
}

impl View for Cmd {
    type V = Order;

    open spec fn view(&self) -> Order {
        match self {
            Cmd::Start => Order::Start,
            Cmd::LifecycleChanged => Order::LifecycleChanged,
            Cmd::Hotkey => Order::Hotkey,
            Cmd::Exit => Order::Exit,
            Cmd::Host { generation, event } => Order::Host {
                generation: *generation,
                event: event@,
            },
            Cmd::Input(keys) => Order::Input(keys@),
            Cmd::Resize { cols, rows } => Order::Resize { cols: *cols, rows: *rows },
            Cmd::CloseRequested => Order::CloseRequested,
        }
    }
}

/// What a command calls for.
#[derive(Debug, PartialEq, Eq)]
pub enum Action {
    Nothing,
    /// The application is to exit.
    Exit,
    /// The editor window is to come to the front.
    Focus,
    /// The field under the caret is to be read; [`Controller::on_captured`] is told.
    Capture,
    /// The session is over. The editor window is to be hidden, the target window to come to the
    /// front, and the field to get what `applied` says. If the target cannot be brought to the
    /// front the field is written all the same.
    Finish { target: isize, applied: Applied },
    /// Neovim is to get these keys.
    Input(String),
    /// Neovim is to use this grid.
    Resize { cols: u16, rows: u16 },
    /// Neovim is to close the session and throw away what was not saved.
    QuitSession,
    /// Where the local configuration was looked for, for the log.
    ReportConfig { dir: String, loaded: bool },
    /// What is wrong with the local configuration, for the log.
    ReportInitError { kind: String, message: String },
}

/// An [`Action`], by contents.
pub ghost enum Deed {
    Nothing,
    Exit,
    Focus,
    Capture,
    Finish { target: isize, applied: crate::session::Outcome },
    Input(Seq<char>),
    Resize { cols: u16, rows: u16 },
    QuitSession,
    ReportConfig { dir: Seq<char>, loaded: bool },
    ReportInitError { kind: Seq<char>, message: Seq<char> },
}

impl View for Action {
    type V = Deed;

    open spec fn view(&self) -> Deed {
        match self {
            Action::Nothing => Deed::Nothing,
            Action::Exit => Deed::Exit,
            Action::Focus => Deed::Focus,
            Action::Capture => Deed::Capture,
            Action::Finish { target, applied } => Deed::Finish {
                target: *target,
                applied: applied@,
            },
            Action::Input(keys) => Deed::Input(keys@),
            Action::Resize { cols, rows } => Deed::Resize { cols: *cols, rows: *rows },
            Action::QuitSession => Deed::QuitSession,
            Action::ReportConfig { dir, loaded } => Deed::ReportConfig {
                dir: dir@,
                loaded: *loaded,
            },
            Action::ReportInitError { kind, message } => Deed::ReportInitError {
                kind: kind@,
                message: message@,
            },
        }
    }
}

/// What the controller does before it takes a command.
#[derive(Clone, Copy, Debug, PartialEq, Eq, Structural)]
pub enum Turn {
    /// The controller is to end as [`Controller::teardown`] says: Neovim is ended, and then the
    /// window is told to quit.
    TearDown,
    /// Neovim is to be started anew.
    Restart,
    /// The next command is to be waited for.
    Receive(Wait),
}

/// How long a command is waited for.
#[derive(Clone, Copy, Debug, PartialEq, Eq, Structural)]
pub enum Wait {
    /// Until there is one. A resident at rest does nothing at all.
    Forever,
    /// For [`POLL_MS`]. The system may stop shutting down without a word.
    Poll,
}

/// How long a command is waited for while Neovim is to be started, in milliseconds.
pub const POLL_MS: u64 = 100;

/// How long attaching the screen to Neovim may take, in milliseconds.
pub const ATTACH_UI_TIMEOUT_MS: u64 = 2000;

/// What came while a command was waited for.
#[derive(Debug, PartialEq, Eq)]
pub enum Received {
    Cmd(Cmd),
    Timeout,
    /// Nobody can send a command any more.
    Closed,
}

/// What is to be done with what came.
#[derive(Debug, PartialEq, Eq)]
pub enum Dispatch {
    /// This, and then the next turn.
    Do(Action),
    /// The controller is to end as [`Controller::teardown`] says: the application exits, Neovim is
    /// ended, and then the window is told to quit.
    TearDown,
}

/// What the end of the controller calls for.
#[derive(Clone, Copy, Debug, PartialEq, Eq, Structural)]
pub enum Parting {
    /// The application is to exit.
    Exit,
    /// Neovim is to be ended.
    EndNvim,
    /// The window is to quit. The controller does nothing after this.
    Quit,
}

/// What was found under the caret.
#[derive(Debug, PartialEq, Eq)]
pub enum Captured {
    /// A field with these contents, in this window.
    Field { hwnd: isize, lines: Vec<String> },
    /// Nothing that can be edited.
    Nothing,
    Failed,
}

/// What a capture calls for.
#[derive(Debug, PartialEq, Eq)]
pub enum AfterCapture {
    /// There is no session. An error is due if there should have been one.
    GiveUp { error: bool },
    /// Neovim is to get the contents; [`Controller::on_session_started`] is told.
    StartSession { hwnd: isize, lines: Vec<String> },
}

/// How a replacement of Neovim ended.
#[derive(Clone, Copy, Debug, PartialEq, Eq, Structural)]
pub enum RestartEnd {
    Up,
    /// It was cancelled. It stays due.
    Cancelled,
    Failed,
}

/// What the end of a replacement calls for.
#[derive(Clone, Copy, Debug, PartialEq, Eq, Structural)]
pub enum AfterRestart {
    /// The next command is to be waited for.
    Receive(Wait),
    /// There never was a Neovim. The application is to exit with the error.
    Fatal,
}

/// The controller, by contents.
pub ghost struct ControllerState {
    pub session: crate::session::SessionState,
    /// Whether there is a Neovim.
    pub has_nvim: bool,
    /// The window that the session's field is in.
    pub target: isize,
    /// The generation of the present Neovim.
    pub generation: u64,
    /// Whether Neovim is to be replaced.
    pub recovery_pending: bool,
    /// Whether there ever was a Neovim.
    pub ever_started: bool,
}

/// What can happen to a controller before its teardown.
pub ghost enum Happening {
    /// A command comes. `exiting` is whether the application is exiting when it comes, `late`
    /// whether it is when the command is acted on.
    Command { order: Order, exiting: bool, late: bool },
    /// There was nothing to edit, or nothing to edit it in.
    Abandoned,
    /// Neovim has taken the contents of a field in the target window.
    Begun { target: isize, lines: Seq<Seq<char>> },
    /// The window has not heard that it is to be shown.
    Unseen,
    ReplacementBegun,
    ReplacementEnded(RestartEnd),
}

/// How many replacements of Neovim have begun.
pub open spec fn replacements(happenings: Seq<Happening>) -> nat
    decreases happenings.len(),
{
    if happenings.len() == 0 {
        0
    } else {
        replacements(happenings.drop_last()) + (if happenings.last() is ReplacementBegun {
            1nat
        } else {
            0nat
        })
    }
}

/// The generation that follows.
pub open spec fn next_generation(generation: u64) -> u64 {
    if generation == u64::MAX {
        0
    } else {
        (generation + 1) as u64
    }
}

impl ControllerState {
    /// A controller that has not done anything.
    pub open spec fn fresh(generation: u64) -> ControllerState {
        ControllerState {
            session: crate::session::SessionState::idle(),
            has_nvim: false,
            target: 0,
            generation,
            recovery_pending: false,
            ever_started: false,
        }
    }

    /// Whether the controller can have come this far before its teardown: there is a session only
    /// where there is a Neovim to edit it in. The teardown ends Neovim and leaves the session as it
    /// is, because no command is taken after it.
    pub open spec fn valid(self) -> bool {
        &&& self.has_nvim ==> self.ever_started
        &&& self.session.phase != Phase::Idle ==> self.has_nvim
    }

    /// Whether Neovim can be spoken to.
    pub open spec fn reaches_nvim(self, exiting: bool) -> bool {
        self.has_nvim && !self.recovery_pending && !exiting
    }

    /// The controller after word that Neovim has to be replaced.
    pub open spec fn recovering(self, exiting: bool) -> ControllerState {
        if exiting {
            self
        } else {
            ControllerState { recovery_pending: true, ..self }
        }
    }

    /// How long the next command is waited for.
    pub open spec fn wait(self) -> Wait {
        if self.recovery_pending {
            Wait::Poll
        } else {
            Wait::Forever
        }
    }

    /// What is to be done before a command is taken.
    pub open spec fn turn(self, exiting: bool, allowed: bool) -> Turn {
        if exiting {
            Turn::TearDown
        } else if self.recovery_pending && allowed {
            Turn::Restart
        } else {
            Turn::Receive(self.wait())
        }
    }

    /// What the hotkey does: it begins a session, or goes back to the one that there is.
    pub open spec fn hotkey(self, exiting: bool) -> (ControllerState, Deed) {
        if !self.reaches_nvim(exiting) {
            (self, Deed::Nothing)
        } else if self.session.phase == Phase::Editing {
            (self, Deed::Focus)
        } else if self.session.phase == Phase::Idle {
            (
                ControllerState {
                    session: crate::session::SessionState {
                        phase: Phase::Capturing,
                        ..self.session
                    },
                    ..self
                },
                Deed::Capture,
            )
        } else {
            (self, Deed::Nothing)
        }
    }

    /// What the end of the session does.
    pub open spec fn finish(self) -> (ControllerState, Deed) {
        if self.session.phase == Phase::Editing {
            (
                ControllerState { session: crate::session::SessionState::idle(), ..self },
                Deed::Finish { target: self.target, applied: self.session.outcome() },
            )
        } else {
            (self, Deed::Nothing)
        }
    }

    /// What word from the present Neovim does.
    pub open spec fn host(self, event: crate::protocol::News, exiting: bool) -> (
        ControllerState,
        Deed,
    ) {
        match event {
            crate::protocol::News::SessionWrite(lines) => (
                ControllerState { session: self.session.write(lines), ..self },
                Deed::Nothing,
            ),
            crate::protocol::News::SessionEnd => self.finish(),
            crate::protocol::News::ConfigResolved { dir, loaded } => (
                self,
                Deed::ReportConfig { dir, loaded },
            ),
            crate::protocol::News::InitError { kind, message } => (
                self,
                Deed::ReportInitError { kind, message },
            ),
            crate::protocol::News::NvimDying => (self.recovering(exiting), Deed::Nothing),
            crate::protocol::News::Disconnected => (self.recovering(exiting), Deed::Nothing),
        }
    }

    /// What a command does. `exiting` is whether the application is exiting when it comes, `late`
    /// whether it is when the command is acted on.
    pub open spec fn obey(self, order: Order, exiting: bool, late: bool) -> (
        ControllerState,
        Deed,
    ) {
        if exiting {
            (self, Deed::Nothing)
        } else {
            match order {
                Order::Start => (self.recovering(late), Deed::Nothing),
                Order::LifecycleChanged => (self, Deed::Nothing),
                Order::Hotkey => self.hotkey(late),
                Order::Exit => (self, Deed::Exit),
                Order::Host { generation, event } => if generation == self.generation {
                    self.host(event, late)
                } else {
                    (self, Deed::Nothing)
                },
                Order::Input(keys) => (
                    self,
                    if self.reaches_nvim(late) {
                        Deed::Input(keys)
                    } else {
                        Deed::Nothing
                    },
                ),
                Order::Resize { cols, rows } => (
                    self,
                    if self.reaches_nvim(late) {
                        Deed::Resize { cols, rows }
                    } else {
                        Deed::Nothing
                    },
                ),
                Order::CloseRequested => (
                    self,
                    if self.session.phase == Phase::Editing && self.has_nvim {
                        Deed::QuitSession
                    } else {
                        Deed::Nothing
                    },
                ),
            }
        }
    }

    /// The controller after a series of commands.
    pub open spec fn obey_all(self, orders: Seq<Order>) -> ControllerState
        decreases orders.len(),
    {
        if orders.len() == 0 {
            self
        } else {
            self.obey_all(orders.drop_last()).obey(orders.last(), false, false).0
        }
    }

    /// What was saved last, once a series of commands has come.
    pub open spec fn last_save(self, orders: Seq<Order>) -> Option<Seq<Seq<char>>>
        decreases orders.len(),
    {
        if orders.len() == 0 {
            self.session.saved
        } else {
            match orders.last() {
                Order::Host { generation, event: crate::protocol::News::SessionWrite(lines) } => {
                    if generation == self.generation {
                        Some(lines)
                    } else {
                        self.last_save(orders.drop_last())
                    }
                },
                _ => self.last_save(orders.drop_last()),
            }
        }
    }

    /// The word of the present Neovim that the session is over.
    pub open spec fn end_of_session(self) -> Order {
        Order::Host { generation: self.generation, event: crate::protocol::News::SessionEnd }
    }

    /// The controller once a field that was to be edited is given up.
    pub open spec fn abandoned(self) -> ControllerState {
        if self.session.phase == Phase::Capturing {
            ControllerState {
                session: crate::session::SessionState { phase: Phase::Idle, ..self.session },
                ..self
            }
        } else {
            self
        }
    }

    /// The controller once Neovim has taken the contents of a field that was being read.
    pub open spec fn begun(self, target: isize, lines: Seq<Seq<char>>) -> ControllerState {
        if self.session.phase == Phase::Capturing {
            ControllerState {
                session: crate::session::SessionState::editing(lines),
                target,
                ..self
            }
        } else {
            self
        }
    }

    /// The controller without a session.
    pub open spec fn dropped(self) -> ControllerState {
        ControllerState { session: crate::session::SessionState::idle(), ..self }
    }

    /// The controller after something has happened.
    pub open spec fn after(self, happening: Happening) -> ControllerState {
        match happening {
            Happening::Command { order, exiting, late } => self.obey(order, exiting, late).0,
            Happening::Abandoned => self.abandoned(),
            Happening::Begun { target, lines } => self.begun(target, lines),
            Happening::Unseen => self.dropped(),
            Happening::ReplacementBegun => self.emptied(),
            Happening::ReplacementEnded(end) => self.restarted(end),
        }
    }

    /// The controller after a series of happenings.
    pub open spec fn after_all(self, happenings: Seq<Happening>) -> ControllerState
        decreases happenings.len(),
    {
        if happenings.len() == 0 {
            self
        } else {
            self.after_all(happenings.drop_last()).after(happenings.last())
        }
    }

    /// What the end of a replacement calls for.
    pub open spec fn after_restart(self, end: RestartEnd) -> AfterRestart {
        if end == RestartEnd::Failed && !self.ever_started {
            AfterRestart::Fatal
        } else {
            AfterRestart::Receive(self.restarted(end).wait())
        }
    }

    /// What a capture calls for.
    pub open spec fn after_capture(self, captured: Captured) -> AfterCapture {
        match captured {
            Captured::Nothing => AfterCapture::GiveUp { error: false },
            Captured::Failed => AfterCapture::GiveUp { error: true },
            Captured::Field { hwnd, lines } => if self.has_nvim {
                AfterCapture::StartSession { hwnd, lines }
            } else {
                AfterCapture::GiveUp { error: true }
            },
        }
    }

    /// What the end of the controller calls for, in this order.
    pub open spec fn partings(self, exiting: bool) -> Seq<Parting> {
        (if exiting {
            Seq::empty()
        } else {
            seq![Parting::Exit]
        }) + (if self.has_nvim {
            seq![Parting::EndNvim]
        } else {
            Seq::empty()
        }) + seq![Parting::Quit]
    }

    /// The controller without a Neovim and without a session, one generation on.
    pub open spec fn emptied(self) -> ControllerState {
        ControllerState {
            session: crate::session::SessionState::idle(),
            has_nvim: false,
            target: 0,
            generation: next_generation(self.generation),
            ..self
        }
    }

    /// The controller once a replacement of Neovim has ended.
    pub open spec fn restarted(self, end: RestartEnd) -> ControllerState {
        match end {
            RestartEnd::Up => ControllerState {
                has_nvim: true,
                ever_started: true,
                recovery_pending: false,
                ..self
            },
            RestartEnd::Cancelled => self,
            RestartEnd::Failed => ControllerState { recovery_pending: false, ..self },
        }
    }
}

/// The controller.
#[derive(Debug)]
pub struct Controller {
    session: Session,
    has_nvim: bool,
    target: isize,
    generation: u64,
    recovery_pending: bool,
    ever_started: bool,
}

impl View for Controller {
    type V = ControllerState;

    closed spec fn view(&self) -> ControllerState {
        ControllerState {
            session: self.session@,
            has_nvim: self.has_nvim,
            target: self.target,
            generation: self.generation,
            recovery_pending: self.recovery_pending,
            ever_started: self.ever_started,
        }
    }
}

impl Controller {
    /// A controller without a Neovim, which counts generations from the given one.
    pub fn start(generation: u64) -> (controller: Controller)
        ensures
            controller@ == ControllerState::fresh(generation),
    {
        Controller {
            session: Session::default(),
            has_nvim: false,
            target: 0,
            generation,
            recovery_pending: false,
            ever_started: false,
        }
    }

    /// The generation of the present Neovim.
    pub fn generation(&self) -> (generation: u64)
        ensures
            generation == self@.generation,
    {
        self.generation
    }

    /// Where the session stands.
    pub fn phase(&self) -> (phase: Phase)
        ensures
            phase == self@.session.phase,
    {
        self.session.phase()
    }

    fn waiting(&self) -> (wait: Wait)
        ensures
            wait == self@.wait(),
    {
        if self.recovery_pending {
            Wait::Poll
        } else {
            Wait::Forever
        }
    }

    /// What is to be done before a command is taken.
    pub fn run(&self, exiting: bool, allowed: bool) -> (turn: Turn)
        ensures
            turn == self@.turn(exiting, allowed),
    {
        if exiting {
            Turn::TearDown
        } else if self.recovery_pending && allowed {
            Turn::Restart
        } else {
            Turn::Receive(self.waiting())
        }
    }

    /// What is to be done with what came while a command was waited for. A command that comes when
    /// the application is exiting is dropped. An exit may also come between the two: `late` is
    /// whether the application is exiting when the command is acted on.
    pub fn on_received(&mut self, received: Received, exiting: bool, late: bool) -> (dispatch:
        Dispatch)
        ensures
            received is Closed <==> dispatch is TearDown,
            received matches Received::Cmd(cmd) ==> {
                &&& final(self)@ == old(self)@.obey(cmd@, exiting, late).0
                &&& dispatch->Do_0@ == old(self)@.obey(cmd@, exiting, late).1
            },
            !(received is Cmd) ==> final(self)@ == old(self)@,
            received is Timeout ==> dispatch->Do_0@ == Deed::Nothing,
    {
        match received {
            Received::Timeout => Dispatch::Do(Action::Nothing),
            Received::Closed => Dispatch::TearDown,
            Received::Cmd(cmd) => {
                if exiting {
                    return Dispatch::Do(Action::Nothing);
                }
                let action = match cmd {
                    Cmd::Start => {
                        self.recover(late);
                        Action::Nothing
                    },
                    Cmd::LifecycleChanged => Action::Nothing,
                    Cmd::Hotkey => self.on_hotkey(late),
                    Cmd::Host { generation, event } => self.on_host(generation, event, late),
                    Cmd::Input(keys) => self.on_input(keys, late),
                    Cmd::Resize { cols, rows } => self.on_resize(cols, rows, late),
                    Cmd::CloseRequested => self.on_close_requested(),
                    Cmd::Exit => Action::Exit,
                };
                Dispatch::Do(action)
            },
        }
    }

    /// The hotkey was pressed. It begins a session, or goes back to the one that there is.
    pub fn on_hotkey(&mut self, exiting: bool) -> (action: Action)
        ensures
            (final(self)@, action@) == old(self)@.hotkey(exiting),
    {
        if !self.has_nvim || self.recovery_pending || exiting {
            return Action::Nothing;
        }
        match self.session.phase() {
            Phase::Editing => Action::Focus,
            Phase::Idle => self.begin_session(),
            // The others are passed through in no time; the hotkey may be lost there.
            Phase::Capturing | Phase::Applying => Action::Nothing,
        }
    }

    /// Begins a session, unless there is one.
    pub fn begin_session(&mut self) -> (action: Action)
        ensures
            action@ == (if old(self)@.session.phase == Phase::Idle {
                Deed::Capture
            } else {
                Deed::Nothing
            }),
            final(self)@ == (if old(self)@.session.phase == Phase::Idle {
                ControllerState {
                    session: crate::session::SessionState {
                        phase: Phase::Capturing,
                        ..old(self)@.session
                    },
                    ..old(self)@
                }
            } else {
                old(self)@
            }),
    {
        if self.session.begin_capture() {
            Action::Capture
        } else {
            Action::Nothing
        }
    }

    /// What was found under the caret. Without anything to edit, or without a Neovim to edit it in,
    /// there is no session.
    pub fn on_captured(&mut self, captured: Captured) -> (after: AfterCapture)
        ensures
            after is StartSession <==> captured is Field && old(self)@.has_nvim,
            after matches AfterCapture::StartSession { hwnd, lines } ==> {
                &&& captured == Captured::Field { hwnd, lines }
                &&& final(self)@ == old(self)@
            },
            after matches AfterCapture::GiveUp { error } ==> {
                &&& error == !(captured is Nothing)
                &&& final(self)@ == old(self)@.abandoned()
            },
            after == old(self)@.after_capture(captured),
    {
        match captured {
            Captured::Nothing => {
                self.session.abort_capture();
                AfterCapture::GiveUp { error: false }
            },
            Captured::Failed => {
                self.session.abort_capture();
                AfterCapture::GiveUp { error: true }
            },
            Captured::Field { hwnd, lines } => {
                if self.has_nvim {
                    AfterCapture::StartSession { hwnd, lines }
                } else {
                    self.session.abort_capture();
                    AfterCapture::GiveUp { error: true }
                }
            },
        }
    }

    /// Whether Neovim has taken the contents. If it has, the session has begun, and the editor
    /// window is to be shown over the target window; if it has not, there is no session.
    pub fn on_session_started(&mut self, taken: bool, hwnd: isize, lines: Vec<String>) -> (show:
        Option<isize>)
        ensures
            show == (if taken && old(self)@.session.phase == Phase::Capturing {
                Some(hwnd)
            } else {
                None
            }),
            final(self)@ == (if taken {
                old(self)@.begun(hwnd, crate::text::texts(lines@))
            } else {
                old(self)@.abandoned()
            }),
    {
        if self.session.phase() != Phase::Capturing {
            return None;
        }
        if !taken {
            self.session.abort_capture();
            return None;
        }
        self.target = hwnd;
        self.session.begin_edit(lines);
        Some(hwnd)
    }

    /// Whether the window has heard that it is to be shown. If it has not, nobody could edit, and
    /// the session is dropped.
    pub fn on_shown(&mut self, heard: bool)
        ensures
            final(self)@ == (if heard {
                old(self)@
            } else {
                old(self)@.dropped()
            }),
    {
        if !heard {
            self.session.reset();
        }
    }

    /// Neovim says something. What an earlier Neovim says is dropped.
    pub fn on_host(&mut self, generation: u64, event: HostEvent, exiting: bool) -> (action: Action)
        ensures
            (final(self)@, action@) == (if generation == old(self)@.generation {
                old(self)@.host(event@, exiting)
            } else {
                (old(self)@, Deed::Nothing)
            }),
    {
        if superseded(generation, self.generation) {
            return Action::Nothing;
        }
        match event {
            HostEvent::SessionWrite(lines) => {
                self.session.on_write(lines);
                Action::Nothing
            },
            HostEvent::SessionEnd => self.finish_session(),
            HostEvent::ConfigResolved { dir, loaded } => Action::ReportConfig { dir, loaded },
            HostEvent::InitError { kind, message } => Action::ReportInitError { kind, message },
            HostEvent::NvimDying => {
                self.recover(exiting);
                Action::Nothing
            },
            HostEvent::Disconnected => {
                self.recover(exiting);
                Action::Nothing
            },
        }
    }

    /// Keys were pressed in the window.
    pub fn on_input(&self, keys: String, exiting: bool) -> (action: Action)
        ensures
            action@ == self@.obey(Order::Input(keys@), false, exiting).1,
    {
        if self.recovery_pending || exiting || !self.has_nvim {
            Action::Nothing
        } else {
            Action::Input(keys)
        }
    }

    /// The window's grid has changed.
    pub fn on_resize(&self, cols: u16, rows: u16, exiting: bool) -> (action: Action)
        ensures
            action@ == self@.obey(Order::Resize { cols, rows }, false, exiting).1,
    {
        if self.recovery_pending || exiting || !self.has_nvim {
            Action::Nothing
        } else {
            Action::Resize { cols, rows }
        }
    }

    /// The window is to be closed. That is for Neovim to do, and only within a session.
    pub fn on_close_requested(&self) -> (action: Action)
        ensures
            action@ == self@.obey(Order::CloseRequested, false, false).1,
    {
        if self.session.phase() == Phase::Editing && self.has_nvim {
            Action::QuitSession
        } else {
            Action::Nothing
        }
    }

    /// Neovim has closed the session.
    pub fn finish_session(&mut self) -> (action: Action)
        ensures
            (final(self)@, action@) == old(self)@.finish(),
    {
        if self.session.phase() != Phase::Editing {
            return Action::Nothing;
        }
        let applied = self.session.on_end();
        Action::Finish { target: self.target, applied }
    }

    /// Neovim has to be replaced.
    pub fn recover(&mut self, exiting: bool)
        ensures
            final(self)@ == old(self)@.recovering(exiting),
    {
        if !exiting {
            self.recovery_pending = true;
        }
    }

    /// Begins a replacement of Neovim, unless that is not allowed. Says whether there is a Neovim
    /// that is to be ended first. From here on nothing counts that it still says.
    pub fn restart_pair(&mut self, allowed: bool) -> (old_nvim: Option<bool>)
        ensures
            old_nvim == (if allowed {
                Some(old(self)@.has_nvim)
            } else {
                None
            }),
            final(self)@ == (if allowed {
                old(self)@.emptied()
            } else {
                old(self)@
            }),
    {
        if !allowed {
            return None;
        }
        let old_nvim = self.has_nvim;
        self.advance();
        self.has_nvim = false;
        self.target = 0;
        self.session.reset();
        Some(old_nvim)
    }

    /// A replacement of Neovim has ended. One that was cancelled stays due; one that failed does
    /// not, and if there never was a Neovim that is the end of the application.
    pub fn on_restarted(&mut self, end: RestartEnd) -> (after: AfterRestart)
        ensures
            final(self)@ == old(self)@.restarted(end),
            after == (if end == RestartEnd::Failed && !old(self)@.ever_started {
                AfterRestart::Fatal
            } else {
                AfterRestart::Receive(final(self)@.wait())
            }),
            after == old(self)@.after_restart(end),
    {
        match end {
            RestartEnd::Up => {
                self.has_nvim = true;
                self.ever_started = true;
                self.recovery_pending = false;
            },
            RestartEnd::Cancelled => {},
            RestartEnd::Failed => {
                self.recovery_pending = false;
                if !self.ever_started {
                    return AfterRestart::Fatal;
                }
            },
        }
        AfterRestart::Receive(self.waiting())
    }

    /// Ends the controller, given whether the application is exiting already. Says what is to be
    /// done, in order: the application exits, a Neovim that there is is ended, and the window is
    /// told to quit. Nothing is asked of the controller afterwards, so a session that there is stays
    /// as it is.
    pub fn teardown(&mut self, exiting: bool) -> (partings: Vec<Parting>)
        ensures
            partings@ == old(self)@.partings(exiting),
            final(self)@ == (ControllerState {
                has_nvim: false,
                generation: next_generation(old(self)@.generation),
                ..old(self)@
            }),
    {
        let mut partings: Vec<Parting> = Vec::new();
        if !exiting {
            partings.push(Parting::Exit);
        }
        if self.has_nvim {
            partings.push(Parting::EndNvim);
        }
        partings.push(Parting::Quit);
        self.advance();
        self.has_nvim = false;
        assert(partings@ =~= old(self)@.partings(exiting));
        partings
    }

    fn advance(&mut self)
        ensures
            final(self)@ == (ControllerState {
                generation: next_generation(old(self)@.generation),
                ..old(self)@
            }),
    {
        self.generation = if self.generation == u64::MAX {
            0
        } else {
            self.generation + 1
        };
    }
}

/// Whether what a Neovim of the given generation says is to be dropped.
pub fn superseded(generation: u64, current: u64) -> (r: bool)
    ensures
        r == (generation != current),
{
    generation != current
}

/// What became of a call to Neovim.
#[derive(Debug, PartialEq, Eq)]
pub enum Rpc<T> {
    /// Neovim has not answered yet.
    Pending,
    /// The application is exiting. The call is to be dropped, and its answer with it.
    Exiting,
    Answered(T),
}

/// What becomes of a call to Neovim.
pub open spec fn rpc_seen<T>(exiting: bool, answer: Option<T>) -> Rpc<T> {
    if exiting {
        Rpc::Exiting
    } else if answer is Some {
        Rpc::Answered(answer->0)
    } else {
        Rpc::Pending
    }
}

/// One look at a call to Neovim, given whether the application was seen to be exiting, and the
/// answer, if there is one. A Neovim that never answers must not keep the application from exiting.
pub fn rpc<T>(exiting: bool, answer: Option<T>) -> (r: Rpc<T>)
    ensures
        r == (if exiting {
            Rpc::Exiting
        } else {
            match answer {
                Some(answer) => Rpc::Answered(answer),
                None => Rpc::Pending,
            }
        }),
        r == rpc_seen(exiting, answer),
{
    if exiting {
        return Rpc::Exiting;
    }
    match answer {
        Some(answer) => Rpc::Answered(answer),
        None => Rpc::Pending,
    }
}

// ---------------------------------------------------------------------------
// Replacing Neovim
// ---------------------------------------------------------------------------

/// What a replacement of Neovim is to do next.
#[derive(Clone, Copy, Debug, PartialEq, Eq, Structural)]
pub enum PairStep {
    /// End the Neovim that there is, and hide the editor window.
    EndOld,
    /// Hide the editor window.
    Hide,
    /// Start a Neovim.
    Spawn,
    /// Attach the screen to it. A Neovim without a screen draws nothing.
    AttachUi,
    /// End it again, because the screen could not be attached.
    EndNew { cancelled: bool },
    /// Nothing more.
    End(RestartEnd),
}

impl PairStep {
    /// The first step of a replacement that may begin or not, with or without a Neovim to end.
    pub open spec fn first(old_nvim: Option<bool>) -> PairStep {
        match old_nvim {
            None => PairStep::End(RestartEnd::Cancelled),
            Some(there) => if there {
                PairStep::EndOld
            } else {
                PairStep::Hide
            },
        }
    }

    /// The step after the old Neovim has ended and the window is hidden.
    pub open spec fn cleared(self, allowed: bool) -> PairStep {
        if !(self is EndOld) && !(self is Hide) {
            self
        } else if allowed {
            PairStep::Spawn
        } else {
            PairStep::End(RestartEnd::Cancelled)
        }
    }

    /// The step after the start of a Neovim.
    pub open spec fn spawned(self, end: RestartEnd) -> PairStep {
        if !(self is Spawn) {
            self
        } else if end == RestartEnd::Up {
            PairStep::AttachUi
        } else {
            PairStep::End(end)
        }
    }

    /// The step after the screen was to be attached.
    pub open spec fn attached(self, end: RestartEnd) -> PairStep {
        if !(self is AttachUi) {
            self
        } else if end == RestartEnd::Up {
            PairStep::End(RestartEnd::Up)
        } else {
            PairStep::EndNew { cancelled: end == RestartEnd::Cancelled }
        }
    }

    /// The step after the new Neovim has ended.
    pub open spec fn new_ended(self) -> PairStep {
        match self {
            PairStep::EndNew { cancelled } => PairStep::End(
                if cancelled {
                    RestartEnd::Cancelled
                } else {
                    RestartEnd::Failed
                },
            ),
            _ => self,
        }
    }
}

/// A replacement of Neovim.
#[derive(Debug)]
pub struct Pair {
    step: PairStep,
}

impl View for Pair {
    type V = PairStep;

    closed spec fn view(&self) -> PairStep {
        self.step
    }
}

impl Pair {
    /// Begins a replacement, given what [`Controller::restart_pair`] said.
    pub fn begin(old_nvim: Option<bool>) -> (pair: Pair)
        ensures
            pair@ == (match old_nvim {
                None => PairStep::End(RestartEnd::Cancelled),
                Some(true) => PairStep::EndOld,
                Some(false) => PairStep::Hide,
            }),
            pair@ == PairStep::first(old_nvim),
    {
        let step = match old_nvim {
            None => PairStep::End(RestartEnd::Cancelled),
            Some(there) => if there {
                PairStep::EndOld
            } else {
                PairStep::Hide
            },
        };
        Pair { step }
    }

    /// What is to be done next.
    pub fn next(&self) -> (step: PairStep)
        ensures
            step == self@,
    {
        self.step
    }

    /// The old Neovim has ended, however it did, and the editor window is hidden. The policy may
    /// have changed meanwhile.
    pub fn on_cleared(&mut self, allowed: bool)
        ensures
            final(self)@ == (match old(self)@ {
                PairStep::EndOld | PairStep::Hide => if allowed {
                    PairStep::Spawn
                } else {
                    PairStep::End(RestartEnd::Cancelled)
                },
                other => other,
            }),
            final(self)@ == old(self)@.cleared(allowed),
    {
        match self.step {
            PairStep::EndOld | PairStep::Hide => {
                self.step = if allowed {
                    PairStep::Spawn
                } else {
                    PairStep::End(RestartEnd::Cancelled)
                };
            },
            _ => {},
        }
    }

    /// How the start of a Neovim ended.
    pub fn on_spawned(&mut self, end: RestartEnd)
        ensures
            final(self)@ == (match old(self)@ {
                PairStep::Spawn => match end {
                    RestartEnd::Up => PairStep::AttachUi,
                    _ => PairStep::End(end),
                },
                other => other,
            }),
            final(self)@ == old(self)@.spawned(end),
    {
        if let PairStep::Spawn = self.step {
            self.step = match end {
                RestartEnd::Up => PairStep::AttachUi,
                _ => PairStep::End(end),
            };
        }
    }

    /// How attaching the screen ended.
    pub fn on_ui(&mut self, end: RestartEnd)
        ensures
            final(self)@ == (match old(self)@ {
                PairStep::AttachUi => match end {
                    RestartEnd::Up => PairStep::End(RestartEnd::Up),
                    RestartEnd::Cancelled => PairStep::EndNew { cancelled: true },
                    RestartEnd::Failed => PairStep::EndNew { cancelled: false },
                },
                other => other,
            }),
            final(self)@ == old(self)@.attached(end),
    {
        if let PairStep::AttachUi = self.step {
            self.step = match end {
                RestartEnd::Up => PairStep::End(RestartEnd::Up),
                RestartEnd::Cancelled => PairStep::EndNew { cancelled: true },
                RestartEnd::Failed => PairStep::EndNew { cancelled: false },
            };
        }
    }

    /// The new Neovim has ended, however it did.
    pub fn on_new_ended(&mut self)
        ensures
            final(self)@ == (match old(self)@ {
                PairStep::EndNew { cancelled } => PairStep::End(
                    if cancelled {
                        RestartEnd::Cancelled
                    } else {
                        RestartEnd::Failed
                    },
                ),
                other => other,
            }),
            final(self)@ == old(self)@.new_ended(),
    {
        if let PairStep::EndNew { cancelled } = self.step {
            self.step = PairStep::End(
                if cancelled {
                    RestartEnd::Cancelled
                } else {
                    RestartEnd::Failed
                },
            );
        }
    }
}

// ---------------------------------------------------------------------------
// Laws
// ---------------------------------------------------------------------------

/// Whatever happens to a controller before its teardown, there is a session only where there is a
/// Neovim.
pub proof fn law_the_controller_stays_valid(generation: u64, happenings: Seq<Happening>)
    ensures
        ControllerState::fresh(generation).after_all(happenings).valid(),
    decreases happenings.len(),
{
    if happenings.len() > 0 {
        law_the_controller_stays_valid(generation, happenings.drop_last());
    }
}

/// Word from another generation changes nothing and calls for nothing.
pub proof fn law_superseded_word_is_dropped(
    state: ControllerState,
    generation: u64,
    event: crate::protocol::News,
    exiting: bool,
    late: bool,
)
    requires
        generation != state.generation,
    ensures
        state.obey(Order::Host { generation, event }, exiting, late) == (state, Deed::Nothing),
{
}

/// Once a replacement has begun, nothing that the old Neovim said or still says has any effect,
/// neither on the session nor on the field, even if it was sent before. That stays so whatever
/// happens afterwards, unless so many replacements begin that the generations have come round.
pub proof fn law_the_old_neovim_is_silenced(
    state: ControllerState,
    happenings: Seq<Happening>,
    event: crate::protocol::News,
    exiting: bool,
    late: bool,
)
    requires
        replacements(happenings) as int % (u64::MAX + 1) != 0,
    ensures
        ({
            let later = state.after_all(happenings);
            later.obey(Order::Host { generation: state.generation, event }, exiting, late) == (
                later,
                Deed::Nothing,
            )
        }),
{
    lemma_generations_are_counted(state, happenings);
}

/// The generation counts the replacements that have begun.
proof fn lemma_generations_are_counted(state: ControllerState, happenings: Seq<Happening>)
    ensures
        state.after_all(happenings).generation == (state.generation + replacements(happenings)) % (
        u64::MAX + 1),
    decreases happenings.len(),
{
    if happenings.len() > 0 {
        lemma_generations_are_counted(state, happenings.drop_last());
    }
}

/// However the controller ends, the window is told to quit, once and last of all; a Neovim that
/// there is is ended before; and the application is exiting by then.
pub proof fn law_the_window_is_told_last(state: ControllerState, exiting: bool)
    ensures
        state.partings(exiting).last() == Parting::Quit,
        forall|i: int|
            0 <= i < state.partings(exiting).len() - 1 ==> #[trigger] state.partings(exiting)[i]
                != Parting::Quit,
        state.partings(exiting).contains(Parting::EndNvim) <==> state.has_nvim,
        exiting || state.partings(exiting)[0] == Parting::Exit,
{
    let partings = state.partings(exiting);
    if state.has_nvim {
        assert(partings[partings.len() - 2] == Parting::EndNvim);
    }
}

/// A field is written back only when the present Neovim ends a session in which something was saved
/// that the field does not hold, and then it gets what was saved last, in the window that it was
/// read from.
pub proof fn law_only_saved_lines_are_written_back(
    state: ControllerState,
    order: Order,
    exiting: bool,
    late: bool,
    target: isize,
    lines: Seq<Seq<char>>,
)
    requires
        state.obey(order, exiting, late).1 == (Deed::Finish {
            target,
            applied: crate::session::Outcome::WriteBack(lines),
        }),
    ensures
        !exiting,
        order == (Order::Host {
            generation: state.generation,
            event: crate::protocol::News::SessionEnd,
        }),
        state.session.phase == Phase::Editing,
        state.session.saved == Some(lines),
        lines != state.session.original,
        target == state.target,
        state.obey(order, exiting, late).0.session == crate::session::SessionState::idle(),
{
}

/// Whatever commands come between the beginning of a session and its end, in whatever order, the
/// field gets what the present Neovim saved last, unless that is what the field held; and without a
/// save it is left alone. Keys, sizes, hotkeys and the word of earlier Neovims play no part.
pub proof fn law_a_session_applies_its_last_save(
    state: ControllerState,
    orders: Seq<Order>,
    late: bool,
)
    requires
        state.session.phase == Phase::Editing,
        !orders.contains(state.end_of_session()),
    ensures
        ({
            let (after, deed) = state.obey_all(orders).obey(state.end_of_session(), false, late);
            &&& after.session == crate::session::SessionState::idle()
            &&& deed == (Deed::Finish {
                target: state.target,
                applied: match state.last_save(orders) {
                    None => crate::session::Outcome::Discarded,
                    Some(lines) => if lines == state.session.original {
                        crate::session::Outcome::Unchanged
                    } else {
                        crate::session::Outcome::WriteBack(lines)
                    },
                },
            })
        }),
{
    lemma_only_saves_change_a_session(state, orders);
}

/// What a series of commands leaves of a session that it does not end.
proof fn lemma_only_saves_change_a_session(state: ControllerState, orders: Seq<Order>)
    requires
        state.session.phase == Phase::Editing,
        !orders.contains(state.end_of_session()),
    ensures
        state.obey_all(orders).session == (crate::session::SessionState {
            saved: state.last_save(orders),
            ..state.session
        }),
        state.obey_all(orders).target == state.target,
        state.obey_all(orders).generation == state.generation,
    decreases orders.len(),
{
    if orders.len() > 0 {
        let front = orders.drop_last();
        assert forall|order: Order| front.contains(order) implies orders.contains(order) by {
            let i = choose|i: int| 0 <= i < front.len() && front[i] == order;
            assert(orders[i] == order);
        }
        lemma_only_saves_change_a_session(state, front);
        assert(orders[orders.len() - 1] != state.end_of_session());
    }
}

/// While the application is exiting, no command has any effect.
pub proof fn law_exiting_ignores_commands(state: ControllerState, order: Order, late: bool)
    ensures
        state.obey(order, true, late) == (state, Deed::Nothing),
{
}

/// No Neovim is started before the window says so: whatever else is asked of a controller that
/// begins, it waits for commands, and it does not even poll.
pub proof fn law_no_neovim_before_the_window(generation: u64, orders: Seq<Order>, allowed: bool)
    requires
        forall|i: int|
            0 <= i < orders.len() ==> #[trigger] orders[i] != Order::Start && !(orders[i] is Host),
    ensures
        ControllerState::fresh(generation).obey_all(orders) == ControllerState::fresh(generation),
        ControllerState::fresh(generation).obey_all(orders).turn(false, allowed) == Turn::Receive(
            Wait::Forever,
        ),
    decreases orders.len(),
{
    if orders.len() > 0 {
        let front = orders.drop_last();
        assert forall|i: int| 0 <= i < front.len() implies #[trigger] front[i] != Order::Start
            && !(front[i] is Host) by {
            assert(front[i] == orders[i]);
        }
        law_no_neovim_before_the_window(generation, front, allowed);
        assert(orders[orders.len() - 1] == orders.last());
    }
}

/// A replacement that is due is begun as soon as it is allowed and not before, and an application
/// that is exiting begins none.
pub proof fn law_a_due_restart_waits_for_permission(state: ControllerState)
    requires
        state.recovery_pending,
    ensures
        state.turn(false, true) == Turn::Restart,
        state.turn(false, false) == Turn::Receive(Wait::Poll),
        state.turn(true, true) == Turn::TearDown,
{
}

/// While Neovim is being replaced, nothing is sent to it and no session begins. Closing the window
/// is the exception: it is still asked to throw the session away.
pub proof fn law_nothing_is_sent_while_recovering(
    state: ControllerState,
    order: Order,
    exiting: bool,
    late: bool,
)
    requires
        state.recovery_pending,
    ensures
        !(state.obey(order, exiting, late).1 is Input),
        !(state.obey(order, exiting, late).1 is Resize),
        !(state.obey(order, exiting, late).1 is Capture),
        !(state.obey(order, exiting, late).1 is Focus),
        state.obey(order, exiting, late).0.recovery_pending,
{
}

/// The hotkey never disturbs a session: the one that there is comes to the front.
pub proof fn law_the_hotkey_returns_to_the_session(state: ControllerState)
    requires
        state.session.phase == Phase::Editing,
        state.reaches_nvim(false),
    ensures
        state.obey(Order::Hotkey, false, false) == (state, Deed::Focus),
{
}

/// A replacement that is due stays due until it succeeds or fails: a cancellation does not use it
/// up.
pub proof fn law_a_cancelled_restart_stays_due(state: ControllerState)
    requires
        state.recovery_pending,
    ensures
        state.emptied().restarted(RestartEnd::Cancelled).recovery_pending,
        state.emptied().restarted(RestartEnd::Cancelled).wait() == Wait::Poll,
        !state.emptied().restarted(RestartEnd::Up).recovery_pending,
        !state.emptied().restarted(RestartEnd::Failed).recovery_pending,
{
}

// ---------------------------------------------------------------------------
// What each command does
// ---------------------------------------------------------------------------

/// How long commands and the screen are waited for.
pub proof fn law_the_limits_of_the_controller()
    ensures
        POLL_MS == 100,
        ATTACH_UI_TIMEOUT_MS == 2000,
{
}

/// A controller begins with nothing but its generation.
pub proof fn law_how_a_controller_begins(generation: u64)
    ensures
        ControllerState::fresh(generation) == (ControllerState {
            session: crate::session::SessionState {
                phase: Phase::Idle,
                original: Seq::empty(),
                saved: None,
            },
            has_nvim: false,
            target: 0,
            generation,
            recovery_pending: false,
            ever_started: false,
        }),
{
}

/// Where there is no session and Neovim can be spoken to, the hotkey always begins one, whatever
/// field was edited before and whatever became of it.
pub proof fn law_the_hotkey_begins_a_session(state: ControllerState)
    requires
        state.session.phase == Phase::Idle,
        state.has_nvim,
        !state.recovery_pending,
    ensures
        state.obey(Order::Hotkey, false, false) == (
            ControllerState {
                session: crate::session::SessionState {
                    phase: Phase::Capturing,
                    ..state.session
                },
                ..state
            },
            Deed::Capture,
        ),
{
}

/// The hotkey does nothing while a field is being read or written, and nothing where Neovim cannot
/// be spoken to.
pub proof fn law_when_the_hotkey_does_nothing(state: ControllerState, late: bool)
    requires
        late || !state.has_nvim || state.recovery_pending || state.session.phase
            == Phase::Capturing || state.session.phase == Phase::Applying,
    ensures
        state.obey(Order::Hotkey, false, late) == (state, Deed::Nothing),
{
}

/// A finished session is no obstacle to the next: once it has ended, the hotkey reads a field again,
/// and the field that is found is edited afresh, in its own window.
pub proof fn law_a_session_can_follow_a_session(
    state: ControllerState,
    target: isize,
    lines: Seq<Seq<char>>,
)
    requires
        state.session.phase == Phase::Editing,
        state.has_nvim,
        !state.recovery_pending,
    ensures
        ({
            let ended = state.obey(
                Order::Host {
                    generation: state.generation,
                    event: crate::protocol::News::SessionEnd,
                },
                false,
                false,
            ).0;
            let (reading, deed) = ended.obey(Order::Hotkey, false, false);
            let next = reading.begun(target, lines);
            &&& deed == Deed::Capture
            &&& reading.session.phase == Phase::Capturing
            &&& next.session.phase == Phase::Editing
            &&& next.session.original == lines
            &&& next.session.saved is None
            &&& next.target == target
        }),
{
}

/// From the hotkey to the end: a field that is read, saved and closed gets what was saved, in the
/// window that it was read from, unless that is what it held.
pub proof fn law_a_field_gets_what_was_saved(
    state: ControllerState,
    target: isize,
    lines: Seq<Seq<char>>,
    saved: Seq<Seq<char>>,
)
    requires
        state.session.phase == Phase::Idle,
        state.has_nvim,
        !state.recovery_pending,
    ensures
        ({
            let word = |event: crate::protocol::News|
                Order::Host { generation: state.generation, event };
            let editing = state.obey(Order::Hotkey, false, false).0.begun(target, lines);
            let written = editing.obey(
                word(crate::protocol::News::SessionWrite(saved)),
                false,
                false,
            ).0;
            let end = word(crate::protocol::News::SessionEnd);
            &&& saved != lines ==> written.obey(end, false, false).1 == (Deed::Finish {
                target,
                applied: crate::session::Outcome::WriteBack(saved),
            })
            &&& saved == lines ==> written.obey(end, false, false).1 == (Deed::Finish {
                target,
                applied: crate::session::Outcome::Unchanged,
            })
            &&& editing.obey(end, false, false).1 == (Deed::Finish {
                target,
                applied: crate::session::Outcome::Discarded,
            })
        }),
{
}

/// A save of the present Neovim is kept while a field is edited, and at no other time; it calls for
/// nothing and changes nothing else.
pub proof fn law_a_save_is_kept(state: ControllerState, lines: Seq<Seq<char>>, late: bool)
    ensures
        ({
            let order = Order::Host {
                generation: state.generation,
                event: crate::protocol::News::SessionWrite(lines),
            };
            &&& state.session.phase == Phase::Editing ==> state.obey(order, false, late) == (
                ControllerState {
                    session: crate::session::SessionState { saved: Some(lines), ..state.session },
                    ..state
                },
                Deed::Nothing,
            )
            &&& state.session.phase != Phase::Editing ==> state.obey(order, false, late) == (
                state,
                Deed::Nothing,
            )
        }),
{
}

/// The end of a session that is reported while a field is edited finishes it, with the target of the
/// session; at any other time it does nothing. Nothing but the session changes.
pub proof fn law_the_end_finishes_a_session(state: ControllerState, late: bool)
    ensures
        ({
            let order = Order::Host {
                generation: state.generation,
                event: crate::protocol::News::SessionEnd,
            };
            let (after, deed) = state.obey(order, false, late);
            &&& state.session.phase != Phase::Editing ==> after == state && deed == Deed::Nothing
            &&& state.session.phase == Phase::Editing ==> {
                &&& after.session.phase == Phase::Idle
                &&& after.session.saved is None
                &&& after == (ControllerState { session: after.session, ..state })
                &&& deed matches Deed::Finish { target, applied }
                &&& target == state.target
                &&& state.session.saved is None ==> applied == crate::session::Outcome::Discarded
                &&& state.session.saved is Some && state.session.saved->0
                    == state.session.original ==> applied == crate::session::Outcome::Unchanged
                &&& state.session.saved is Some && state.session.saved->0
                    != state.session.original ==> applied == crate::session::Outcome::WriteBack(
                    state.session.saved->0,
                )
            }
        }),
{
}

/// The other word of the present Neovim: the configuration is reported as it came, and a Neovim that
/// is dying or gone is to be replaced, unless the application is exiting.
pub proof fn law_what_word_of_neovim_does(
    state: ControllerState,
    a: Seq<char>,
    b: Seq<char>,
    loaded: bool,
    late: bool,
)
    ensures
        ({
            let obey = |event: crate::protocol::News|
                state.obey(Order::Host { generation: state.generation, event }, false, late);
            let due = if late {
                state
            } else {
                ControllerState { recovery_pending: true, ..state }
            };
            &&& obey(crate::protocol::News::ConfigResolved { dir: a, loaded }) == (
                state,
                Deed::ReportConfig { dir: a, loaded },
            )
            &&& obey(crate::protocol::News::InitError { kind: a, message: b }) == (
                state,
                Deed::ReportInitError { kind: a, message: b },
            )
            &&& obey(crate::protocol::News::NvimDying) == (due, Deed::Nothing)
            &&& obey(crate::protocol::News::Disconnected) == (due, Deed::Nothing)
        }),
{
}

/// The commands of the window: keys and sizes go to Neovim as they came where it can be spoken to,
/// closing throws a session away where there is one, and none of them changes the controller. The
/// start makes a Neovim due, a change of the policy is nothing in itself, and an exit is an exit.
pub proof fn law_what_the_window_asks_for(
    state: ControllerState,
    keys: Seq<char>,
    cols: u16,
    rows: u16,
    late: bool,
)
    ensures
        ({
            let reached = state.has_nvim && !state.recovery_pending && !late;
            &&& reached ==> state.obey(Order::Input(keys), false, late) == (
                state,
                Deed::Input(keys),
            )
            &&& !reached ==> state.obey(Order::Input(keys), false, late) == (state, Deed::Nothing)
            &&& reached ==> state.obey(Order::Resize { cols, rows }, false, late) == (
                state,
                Deed::Resize { cols, rows },
            )
            &&& !reached ==> state.obey(Order::Resize { cols, rows }, false, late) == (
                state,
                Deed::Nothing,
            )
            &&& state.session.phase == Phase::Editing && state.has_nvim ==> state.obey(
                Order::CloseRequested,
                false,
                late,
            ) == (state, Deed::QuitSession)
            &&& state.session.phase != Phase::Editing || !state.has_nvim ==> state.obey(
                Order::CloseRequested,
                false,
                late,
            ) == (state, Deed::Nothing)
        }),
        !late ==> state.obey(Order::Start, false, late) == (
            ControllerState { recovery_pending: true, ..state },
            Deed::Nothing,
        ),
        late ==> state.obey(Order::Start, false, late) == (state, Deed::Nothing),
        state.obey(Order::LifecycleChanged, false, late) == (state, Deed::Nothing),
        state.obey(Order::Exit, false, late) == (state, Deed::Exit),
{
}

/// A field that was being read is edited with its lines, unsaved, in its window, or is given up; at
/// any other time neither does anything. A session that nobody sees is dropped.
pub proof fn law_how_a_session_begins(
    state: ControllerState,
    target: isize,
    lines: Seq<Seq<char>>,
)
    ensures
        state.session.phase == Phase::Capturing ==> state.begun(target, lines) == (ControllerState {
            session: crate::session::SessionState {
                phase: Phase::Editing,
                original: lines,
                saved: None,
            },
            target,
            ..state
        }),
        state.session.phase == Phase::Capturing ==> state.abandoned() == (ControllerState {
            session: crate::session::SessionState { phase: Phase::Idle, ..state.session },
            ..state
        }),
        state.session.phase != Phase::Capturing ==> state.begun(target, lines) == state
            && state.abandoned() == state,
        state.dropped().session.phase == Phase::Idle,
        state.dropped().session.saved is None,
        state.dropped() == (ControllerState { session: state.dropped().session, ..state }),
{
}

/// What a replacement leaves: no Neovim, no session and no target, one generation on, and what was
/// due stays due.
pub proof fn law_a_replacement_begins_clean(state: ControllerState)
    ensures
        !state.emptied().has_nvim,
        state.emptied().session.phase == Phase::Idle,
        state.emptied().session.saved is None,
        state.emptied().target == 0,
        state.generation < u64::MAX ==> state.emptied().generation == state.generation + 1,
        state.generation == u64::MAX ==> state.emptied().generation == 0,
        state.emptied().recovery_pending == state.recovery_pending,
        state.emptied().ever_started == state.ever_started,
        state.generation < u64::MAX ==> next_generation(state.generation) == state.generation + 1,
        state.generation == u64::MAX ==> next_generation(state.generation) == 0,
{
}

/// What the end of a replacement changes: a Neovim that is up is there and is no longer due, a
/// cancellation changes nothing, and after a failure nothing is due.
pub proof fn law_what_the_end_of_a_replacement_changes(state: ControllerState)
    ensures
        state.restarted(RestartEnd::Up) == (ControllerState {
            has_nvim: true,
            ever_started: true,
            recovery_pending: false,
            ..state
        }),
        state.restarted(RestartEnd::Cancelled) == state,
        state.restarted(RestartEnd::Failed) == (ControllerState {
            recovery_pending: false,
            ..state
        }),
{
}

/// A controller at rest waits for ever, one that has a Neovim to start polls, one that may start it
/// does, and one that is exiting ends.
pub proof fn law_what_a_turn_is(state: ControllerState, allowed: bool)
    ensures
        state.turn(true, allowed) == Turn::TearDown,
        !state.recovery_pending ==> state.turn(false, allowed) == Turn::Receive(Wait::Forever),
        state.recovery_pending && !allowed ==> state.turn(false, allowed) == Turn::Receive(
            Wait::Poll,
        ),
        state.recovery_pending && allowed ==> state.turn(false, allowed) == Turn::Restart,
        state.wait() == Wait::Poll <==> state.recovery_pending,
{
}

/// The end of the controller, step by step.
pub proof fn law_how_a_controller_ends(state: ControllerState)
    ensures
        state.has_nvim ==> state.partings(true) == seq![Parting::EndNvim, Parting::Quit],
        state.has_nvim ==> state.partings(false) == seq![
            Parting::Exit,
            Parting::EndNvim,
            Parting::Quit,
        ],
        !state.has_nvim ==> state.partings(true) == seq![Parting::Quit],
        !state.has_nvim ==> state.partings(false) == seq![Parting::Exit, Parting::Quit],
{
    let none = Seq::<Parting>::empty();
    assert(none + seq![Parting::EndNvim] + seq![Parting::Quit] =~= seq![
        Parting::EndNvim,
        Parting::Quit,
    ]);
    assert(seq![Parting::Exit] + seq![Parting::EndNvim] + seq![Parting::Quit] =~= seq![
        Parting::Exit,
        Parting::EndNvim,
        Parting::Quit,
    ]);
    assert(none + none + seq![Parting::Quit] =~= seq![Parting::Quit]);
    assert(seq![Parting::Exit] + none + seq![Parting::Quit] =~= seq![
        Parting::Exit,
        Parting::Quit,
    ]);
}

/// The parts of what a command does mean the same by themselves: the hotkey, and word of the present
/// Neovim.
pub proof fn law_parts_mean_the_same_by_themselves(
    state: ControllerState,
    event: crate::protocol::News,
    late: bool,
)
    ensures
        state.hotkey(late) == state.obey(Order::Hotkey, false, late),
        state.host(event, late) == state.obey(
            Order::Host { generation: state.generation, event },
            false,
            late,
        ),
        state.finish() == state.obey(
            Order::Host {
                generation: state.generation,
                event: crate::protocol::News::SessionEnd,
            },
            false,
            late,
        ),
        state.recovering(late) == state.obey(Order::Start, false, late).0,
        state.reaches_nvim(late) <==> state.has_nvim && !state.recovery_pending && !late,
{
}

/// Commands are seen with all that they carry.
pub proof fn law_commands_are_seen_whole(
    generation: u64,
    event: HostEvent,
    keys: String,
    cols: u16,
    rows: u16,
)
    ensures
        Cmd::Start@ == Order::Start,
        Cmd::LifecycleChanged@ == Order::LifecycleChanged,
        Cmd::Hotkey@ == Order::Hotkey,
        Cmd::Exit@ == Order::Exit,
        Cmd::CloseRequested@ == Order::CloseRequested,
        (Cmd::Host { generation, event })@ == (Order::Host { generation, event: event@ }),
        Cmd::Input(keys)@ == Order::Input(keys@),
        (Cmd::Resize { cols, rows })@ == (Order::Resize { cols, rows }),
{
}

/// What commands call for is seen with all that it carries.
pub proof fn law_actions_are_seen_whole(
    target: isize,
    applied: Applied,
    a: String,
    b: String,
    cols: u16,
    rows: u16,
    loaded: bool,
)
    ensures
        Action::Nothing@ == Deed::Nothing,
        Action::Exit@ == Deed::Exit,
        Action::Focus@ == Deed::Focus,
        Action::Capture@ == Deed::Capture,
        Action::QuitSession@ == Deed::QuitSession,
        (Action::Finish { target, applied })@ == (Deed::Finish { target, applied: applied@ }),
        Action::Input(a)@ == Deed::Input(a@),
        (Action::Resize { cols, rows })@ == (Deed::Resize { cols, rows }),
        (Action::ReportConfig { dir: a, loaded })@ == (Deed::ReportConfig { dir: a@, loaded }),
        (Action::ReportInitError { kind: a, message: b })@ == (Deed::ReportInitError {
            kind: a@,
            message: b@,
        }),
{
}

/// A replacement that nothing stops ends with a Neovim that is up, whether or not there was one
/// before; one that was there is ended first.
pub proof fn law_a_replacement_brings_neovim_up(there: bool)
    ensures
        there ==> PairStep::first(Some(there)) == PairStep::EndOld,
        !there ==> PairStep::first(Some(there)) == PairStep::Hide,
        PairStep::first(Some(there)).cleared(true) == PairStep::Spawn,
        PairStep::Spawn.spawned(RestartEnd::Up) == PairStep::AttachUi,
        PairStep::AttachUi.attached(RestartEnd::Up) == PairStep::End(RestartEnd::Up),
{
}

/// A replacement that may not begin, or may not go on once the old Neovim has ended, is cancelled
/// without a new one; and a start that fails or is cancelled ends it just so.
pub proof fn law_what_stops_a_replacement(there: bool, end: RestartEnd)
    requires
        end != RestartEnd::Up,
    ensures
        PairStep::first(None) == PairStep::End(RestartEnd::Cancelled),
        PairStep::first(Some(there)).cleared(false) == PairStep::End(RestartEnd::Cancelled),
        PairStep::Spawn.spawned(end) == PairStep::End(end),
{
}

/// A Neovim whose screen could not be attached is ended again before the replacement ends, as it
/// would have ended without it.
pub proof fn law_no_neovim_is_kept_without_a_screen(end: RestartEnd)
    requires
        end != RestartEnd::Up,
    ensures
        PairStep::AttachUi.attached(end) is EndNew,
        PairStep::AttachUi.attached(end).new_ended() == PairStep::End(end),
{
}

/// Word that was not waited for changes no replacement, and one that has ended stays so.
pub proof fn law_word_out_of_turn_changes_no_replacement(
    step: PairStep,
    allowed: bool,
    end: RestartEnd,
)
    ensures
        !(step is EndOld) && !(step is Hide) ==> step.cleared(allowed) == step,
        !(step is Spawn) ==> step.spawned(end) == step,
        !(step is AttachUi) ==> step.attached(end) == step,
        !(step is EndNew) ==> step.new_ended() == step,
{
}

/// Only a failure before there ever was a Neovim is fatal. After any other end the next command is
/// waited for: by polling after a cancellation of what is due, and for ever after the others.
pub proof fn law_only_a_first_failure_is_fatal(state: ControllerState, end: RestartEnd)
    ensures
        state.after_restart(end) == AfterRestart::Fatal <==> end == RestartEnd::Failed
            && !state.ever_started,
        state.after_restart(RestartEnd::Up) == AfterRestart::Receive(Wait::Forever),
        state.ever_started ==> state.after_restart(RestartEnd::Failed) == AfterRestart::Receive(
            Wait::Forever,
        ),
        state.recovery_pending ==> state.after_restart(RestartEnd::Cancelled)
            == AfterRestart::Receive(Wait::Poll),
{
}

/// A field that was found goes to Neovim as it was found; without a field, or without a Neovim, there
/// is no session, and only finding nothing is no error.
pub proof fn law_what_was_found_goes_to_neovim(
    state: ControllerState,
    hwnd: isize,
    lines: Vec<String>,
)
    ensures
        state.has_nvim ==> state.after_capture(Captured::Field { hwnd, lines }) == (
        AfterCapture::StartSession { hwnd, lines }),
        !state.has_nvim ==> state.after_capture(Captured::Field { hwnd, lines }) == (
        AfterCapture::GiveUp { error: true }),
        state.after_capture(Captured::Nothing) == (AfterCapture::GiveUp { error: false }),
        state.after_capture(Captured::Failed) == (AfterCapture::GiveUp { error: true }),
{
}

/// An exit that was seen ends every call; otherwise an answer is the answer, and without one the
/// call goes on.
pub proof fn law_an_exit_ends_every_call<T>(answer: T)
    ensures
        rpc_seen(true, Some(answer)) == Rpc::<T>::Exiting,
        rpc_seen(true, None::<T>) == Rpc::<T>::Exiting,
        rpc_seen(false, Some(answer)) == Rpc::Answered(answer),
        rpc_seen(false, None::<T>) == Rpc::<T>::Pending,
{
}

} // verus!
