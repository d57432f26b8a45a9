//! Starting Neovim.
//!
//! A start looks for the bundled `init.lua`, picks a free port, creates the process, and connects to
//! it. The port may be taken by somebody else in between; then Neovim does not come up, and the
//! start picks another port. Wherever a child could be created or kept, the cancellation policy is
//! asked first, and a start that is cancelled counts as no attempt.
//!
//! [`Launch`] and [`Attach`] hold the decisions. Each says what is to be done next and is told how it
//! went; `inhibited` is what the cancellation policy says at that moment. Word of something that was
//! not to be done next changes nothing.
use vstd::prelude::*;

use crate::policy::SpawnCancelled;
use crate::server::listen_on;
use crate::text::decimal;

verus! {

/// How many ports are tried.
pub const PORT_ATTEMPTS: u32 = 5;

/// How often a connection to one child is tried.
pub const CONNECT_ATTEMPTS: u32 = 100;

/// How long to wait between two tries, in milliseconds.
pub const CONNECT_INTERVAL_MS: u64 = 20;

/// How long a connection or a handshake may take, in milliseconds. Whoever has taken the port may
/// never answer.
pub const HANDSHAKE_TIMEOUT_MS: u64 = 2000;

/// How long a child may take to end, in milliseconds.
pub const SHUTDOWN_TIMEOUT_MS: u64 = 1000;

// ---------------------------------------------------------------------------
// Launch
// ---------------------------------------------------------------------------

/// How a start ended.
#[derive(Clone, Copy, Debug, PartialEq, Eq, Structural)]
pub enum LaunchEnd {
    /// Neovim is up.
    Up { port: u16 },
    /// The start was cancelled. A child that was created is to be dropped.
    Cancelled,
    /// The start was cancelled when Neovim was up already. The connection is to be dropped too.
    CancelledUp,
    /// There is no bundled `init.lua`.
    NoInitLua,
    /// There is no free port.
    NoPort,
    /// The process could not be created. Another port would not help.
    NoProcess,
    /// The process has no error output.
    NoStderr,
    /// Neovim came up on none of the ports.
    GaveUp,
}

/// What a start is to do next.
#[derive(Clone, Copy, Debug, PartialEq, Eq, Structural)]
pub enum LaunchStep {
    FindInitLua,
    PickPort,
    CreateProcess { port: u16 },
    DrainStderr { port: u16 },
    Attach { port: u16 },
    End(LaunchEnd),
}

/// Word of how a step went.
pub ghost enum LaunchReply {
    /// Whether the file is there.
    InitLua(bool),
    Port(Option<u16>),
    /// Whether there is a process.
    Process(bool),
    /// Whether there is an error output.
    Stderr(bool),
    Attached(Result<(), Seq<char>>),
}

/// A start, by contents.
pub ghost struct LaunchState {
    pub step: LaunchStep,
    /// The number of the port that is being tried, from 1.
    pub attempt: int,
    /// The ports on which Neovim did not come up, and why.
    pub failures: Seq<(u16, Seq<char>)>,
}

impl LaunchState {
    /// The start that is to do `step` next.
    pub open spec fn to(self, step: LaunchStep) -> LaunchState {
        LaunchState { step, ..self }
    }

    /// The start that is to do `step` next, unless it is cancelled.
    pub open spec fn to_unless(self, inhibited: bool, step: LaunchStep) -> LaunchState {
        if inhibited {
            self.to(LaunchStep::End(LaunchEnd::Cancelled))
        } else {
            self.to(step)
        }
    }

    /// A start that begins.
    pub open spec fn begun(inhibited: bool) -> LaunchState {
        LaunchState { step: LaunchStep::FindInitLua, attempt: 1, failures: Seq::empty() }.to_unless(
            inhibited,
            LaunchStep::FindInitLua,
        )
    }

    /// The start after Neovim did not come up on a port.
    pub open spec fn failed(self, port: u16, why: Seq<char>) -> LaunchState {
        let failures = self.failures.push((port, why));
        if self.attempt >= PORT_ATTEMPTS {
            LaunchState { step: LaunchStep::End(LaunchEnd::GaveUp), failures, ..self }
        } else {
            LaunchState { step: LaunchStep::PickPort, attempt: self.attempt + 1, failures }
        }
    }

    /// The start after word of how a step went.
    pub open spec fn after(self, reply: LaunchReply, inhibited: bool) -> LaunchState {
        match (self.step, reply) {
            (LaunchStep::FindInitLua, LaunchReply::InitLua(found)) => if found {
                self.to_unless(inhibited, LaunchStep::PickPort)
            } else {
                self.to(LaunchStep::End(LaunchEnd::NoInitLua))
            },
            (LaunchStep::PickPort, LaunchReply::Port(picked)) => match picked {
                Some(port) => self.to_unless(inhibited, LaunchStep::CreateProcess { port }),
                None => self.to(LaunchStep::End(LaunchEnd::NoPort)),
            },
            (LaunchStep::CreateProcess { port }, LaunchReply::Process(created)) => if created {
                self.to_unless(inhibited, LaunchStep::DrainStderr { port })
            } else {
                self.to(LaunchStep::End(LaunchEnd::NoProcess))
            },
            (LaunchStep::DrainStderr { port }, LaunchReply::Stderr(piped)) => if piped {
                self.to(LaunchStep::Attach { port })
            } else {
                self.to(LaunchStep::End(LaunchEnd::NoStderr))
            },
            (LaunchStep::Attach { port }, LaunchReply::Attached(result)) => match result {
                Ok(_) => if inhibited {
                    self.to(LaunchStep::End(LaunchEnd::CancelledUp))
                } else {
                    self.to(LaunchStep::End(LaunchEnd::Up { port }))
                },
                Err(why) => if inhibited {
                    self.to(LaunchStep::End(LaunchEnd::Cancelled))
                } else {
                    self.failed(port, why)
                },
            },
            _ => self,
        }
    }

    /// Whether the start can have come this far.
    pub open spec fn valid(self) -> bool {
        &&& 1 <= self.attempt <= PORT_ATTEMPTS
        &&& self.failures.len() == (if self.step == LaunchStep::End(LaunchEnd::GaveUp) {
            self.attempt
        } else {
            self.attempt - 1
        })
        &&& self.step == LaunchStep::End(LaunchEnd::GaveUp) ==> self.attempt == PORT_ATTEMPTS
    }
}

/// A start of Neovim.
#[derive(Debug)]
pub struct Launch {
    step: LaunchStep,
    attempt: u32,
    failures: Vec<(u16, String)>,
}

impl View for Launch {
    type V = LaunchState;

    closed spec fn view(&self) -> LaunchState {
        LaunchState {
            step: self.step,
            attempt: self.attempt as int,
            failures: self.failures@.map_values(|failure: (u16, String)| (failure.0, failure.1@)),
        }
    }
}

impl Launch {
    /// Begins a start.
    pub fn begin(inhibited: bool) -> (launch: Launch)
        ensures
            launch@ == LaunchState::begun(inhibited),
            launch@.valid(),
    {
        let step = if inhibited {
            LaunchStep::End(LaunchEnd::Cancelled)
        } else {
            LaunchStep::FindInitLua
        };
        let failures: Vec<(u16, String)> = Vec::new();
        assert(failures@.map_values(|failure: (u16, String)| (failure.0, failure.1@))
            =~= Seq::empty());
        Launch { step, attempt: 1, failures }
    }

    /// What is to be done next.
    pub fn next(&self) -> (step: LaunchStep)
        ensures
            step == self@.step,
    {
        self.step
    }

    /// The ports on which Neovim did not come up, in the order in which they were tried, each with
    /// the reason.
    pub fn failures(&self) -> (failures: &Vec<(u16, String)>)
        ensures
            failures@.map_values(|failure: (u16, String)| (failure.0, failure.1@))
                == self@.failures,
    {
        &self.failures
    }

    fn go_unless(&mut self, inhibited: bool, step: LaunchStep)
        ensures
            final(self)@ == old(self)@.to_unless(inhibited, step),
    {
        self.step = if inhibited {
            LaunchStep::End(LaunchEnd::Cancelled)
        } else {
            step
        };
    }

    /// Whether the bundled `init.lua` is there.
    pub fn on_init_lua(&mut self, found: bool, inhibited: bool)
        ensures
            final(self)@ == old(self)@.after(LaunchReply::InitLua(found), inhibited),
    {
        if let LaunchStep::FindInitLua = self.step {
            if found {
                self.go_unless(inhibited, LaunchStep::PickPort);
            } else {
                self.step = LaunchStep::End(LaunchEnd::NoInitLua);
            }
        }
    }

    /// The free port that was picked, if there is one.
    pub fn on_port(&mut self, picked: Option<u16>, inhibited: bool)
        ensures
            final(self)@ == old(self)@.after(LaunchReply::Port(picked), inhibited),
    {
        if let LaunchStep::PickPort = self.step {
            match picked {
                Some(port) => self.go_unless(inhibited, LaunchStep::CreateProcess { port }),
                None => {
                    self.step = LaunchStep::End(LaunchEnd::NoPort);
                },
            }
        }
    }

    /// Whether the process was created.
    pub fn on_process(&mut self, created: bool, inhibited: bool)
        ensures
            final(self)@ == old(self)@.after(LaunchReply::Process(created), inhibited),
    {
        if let LaunchStep::CreateProcess { port } = self.step {
            if created {
                self.go_unless(inhibited, LaunchStep::DrainStderr { port });
            } else {
                self.step = LaunchStep::End(LaunchEnd::NoProcess);
            }
        }
    }

    /// Whether the process has an error output that can be read.
    pub fn on_stderr(&mut self, piped: bool)
        ensures
            forall|inhibited: bool|
                final(self)@ == #[trigger] old(self)@.after(LaunchReply::Stderr(piped), inhibited),
    {
        if let LaunchStep::DrainStderr { port } = self.step {
            self.step = if piped {
                LaunchStep::Attach { port }
            } else {
                LaunchStep::End(LaunchEnd::NoStderr)
            };
        }
    }

    /// Whether Neovim came up, or why it did not.
    pub fn on_attached(&mut self, result: Result<(), String>, inhibited: bool)
        ensures
            result is Ok ==> final(self)@ == old(self)@.after(
                LaunchReply::Attached(Ok(())),
                inhibited,
            ),
            result is Err ==> final(self)@ == old(self)@.after(
                LaunchReply::Attached(Err(result->Err_0@)),
                inhibited,
            ),
    {
        if let LaunchStep::Attach { port } = self.step {
            match result {
                Ok(_) => {
                    self.step = LaunchStep::End(
                        if inhibited {
                            LaunchEnd::CancelledUp
                        } else {
                            LaunchEnd::Up { port }
                        },
                    );
                },
                Err(why) => {
                    if inhibited {
                        self.step = LaunchStep::End(LaunchEnd::Cancelled);
                    } else {
                        self.fail(port, why);
                    }
                },
            }
        }
    }

    fn fail(&mut self, port: u16, why: String)
        ensures
            final(self)@ == old(self)@.failed(port, why@),
    {
        self.failures.push((port, why));
        if self.attempt >= PORT_ATTEMPTS {
            self.step = LaunchStep::End(LaunchEnd::GaveUp);
        } else {
            self.attempt += 1;
            self.step = LaunchStep::PickPort;
        }
        assert(self@.failures =~= old(self)@.failures.push((port, why@)));
    }
}

/// The ports on which Neovim did not come up, each with the reason.
pub open spec fn listed(failures: Seq<(u16, Seq<char>)>) -> Seq<char>
    decreases failures.len(),
{
    if failures.len() == 0 {
        Seq::empty()
    } else {
        let (port, why) = failures.last();
        listed(failures.drop_last()) + (if failures.len() == 1 {
            Seq::empty()
        } else {
            "; "@
        }) + "port "@ + crate::text::numeral(port as nat) + ": "@ + why
    }
}

impl LaunchState {
    /// What is said of a start that has ended without Neovim, given the texts of the executable's
    /// path, of Neovim's name and of the path of `init.lua`.
    pub open spec fn said(self, exe: Seq<char>, appname: Seq<char>, init_lua: Seq<char>) -> Seq<
        char,
    > {
        match self.step {
            LaunchStep::End(LaunchEnd::Cancelled) | LaunchStep::End(LaunchEnd::CancelledUp) =>
                "nvim spawning is inhibited by shutdown"@,
            LaunchStep::End(LaunchEnd::NoInitLua) => "bundled init.lua not found at "@ + init_lua
                + " (runtime_dir must contain init.lua and lua/anvi/)"@,
            LaunchStep::End(LaunchEnd::NoPort) => "failed to pick a free TCP port for nvim"@,
            LaunchStep::End(LaunchEnd::NoProcess) => "failed to spawn nvim at "@ + exe
                + " (NVIM_APPNAME="@ + appname + ")"@,
            LaunchStep::End(LaunchEnd::NoStderr) => "nvim was spawned without a piped stderr"@,
            LaunchStep::End(LaunchEnd::GaveUp) => "nvim ("@ + exe
                + ") did not come up on "@ + crate::text::numeral(PORT_ATTEMPTS as nat)
                + " different ports ["@ + listed(self.failures)
                + "]; the nvim.stderr log records carry nvim's own message"@,
            _ => Seq::empty(),
        }
    }
}

impl Launch {
    /// The ports on which Neovim did not come up, each with the reason.
    fn list(&self) -> (text: String)
        ensures
            text@ == listed(self@.failures),
    {
        let mut text = String::new();
        for i in 0..self.failures.len()
            invariant
                text@ == listed(self@.failures.take(i as int)),
        {
            let ghost before = self@.failures.take(i as int);
            let ghost now = self@.failures.take(i + 1);
            assert(now.drop_last() =~= before);
            assert(now.last() == (self.failures@[i as int].0, self.failures@[i as int].1@));
            if i > 0 {
                text.append("; ");
            }
            text.append("port ");
            text.append(decimal(self.failures[i].0 as u64).as_str());
            text.append(": ");
            text.append(self.failures[i].1.as_str());
            assert(i == 0 ==> listed(before) + Seq::<char>::empty() =~= Seq::<char>::empty());
        }
        assert(self@.failures.take(self.failures@.len() as int) =~= self@.failures);
        text
    }

    /// What is said of a start that has ended without Neovim. Where the system said why, that is to
    /// follow.
    pub fn report(&self, exe: &str, appname: &str, init_lua: &str) -> (text: String)
        ensures
            text@ == self@.said(exe@, appname@, init_lua@),
    {
        match self.step {
            LaunchStep::End(LaunchEnd::Cancelled) | LaunchStep::End(LaunchEnd::CancelledUp) => {
                SpawnCancelled.message()
            },
            LaunchStep::End(LaunchEnd::NoInitLua) => {
                let mut text = "bundled init.lua not found at ".to_owned();
                text.append(init_lua);
                text.append(" (runtime_dir must contain init.lua and lua/anvi/)");
                text
            },
            LaunchStep::End(LaunchEnd::NoPort) => {
                "failed to pick a free TCP port for nvim".to_owned()
            },
            LaunchStep::End(LaunchEnd::NoProcess) => {
                let mut text = "failed to spawn nvim at ".to_owned();
                text.append(exe);
                text.append(" (NVIM_APPNAME=");
                text.append(appname);
                text.append(")");
                text
            },
            LaunchStep::End(LaunchEnd::NoStderr) => {
                "nvim was spawned without a piped stderr".to_owned()
            },
            LaunchStep::End(LaunchEnd::GaveUp) => {
                let mut text = "nvim (".to_owned();
                text.append(exe);
                text.append(") did not come up on ");
                text.append(decimal(PORT_ATTEMPTS as u64).as_str());
                text.append(" different ports [");
                text.append(self.list().as_str());
                text.append("]; the nvim.stderr log records carry nvim's own message");
                text
            },
            _ => String::new(),
        }
    }
}

impl LaunchState {
    /// The start after a series of words, each with what the cancellation policy said.
    pub open spec fn after_all(self, replies: Seq<(LaunchReply, bool)>) -> LaunchState
        decreases replies.len(),
    {
        if replies.len() == 0 {
            self
        } else {
            self.after_all(replies.drop_last()).after(replies.last().0, replies.last().1)
        }
    }

    /// How many processes a start has tried to create in a series of words.
    pub open spec fn creations(self, replies: Seq<(LaunchReply, bool)>) -> nat
        decreases replies.len(),
    {
        if replies.len() == 0 {
            0
        } else {
            let front = replies.drop_last();
            let tried = self.after_all(front).step is CreateProcess && replies.last().0 is Process;
            self.creations(front) + (if tried {
                1nat
            } else {
                0nat
            })
        }
    }

    /// Whether word of this is what the start waits for.
    pub open spec fn awaits(self, reply: LaunchReply) -> bool {
        match self.step {
            LaunchStep::FindInitLua => reply is InitLua,
            LaunchStep::PickPort => reply is Port,
            LaunchStep::CreateProcess { .. } => reply is Process,
            LaunchStep::DrainStderr { .. } => reply is Stderr,
            LaunchStep::Attach { .. } => reply is Attached,
            LaunchStep::End(_) => false,
        }
    }

    /// How many steps a start can still take at most.
    pub open spec fn steps_left(self) -> int {
        let ports = 4 * (PORT_ATTEMPTS - self.attempt);
        match self.step {
            LaunchStep::FindInitLua => ports + 5,
            LaunchStep::PickPort => ports + 4,
            LaunchStep::CreateProcess { .. } => ports + 3,
            LaunchStep::DrainStderr { .. } => ports + 2,
            LaunchStep::Attach { .. } => ports + 1,
            LaunchStep::End(_) => 0,
        }
    }
}

/// Where a start is, it has tried as many ports as it has failures, and never more than
/// [`PORT_ATTEMPTS`].
pub proof fn law_launches_stay_valid(inhibited: bool, replies: Seq<(LaunchReply, bool)>)
    ensures
        LaunchState::begun(inhibited).after_all(replies).valid(),
    decreases replies.len(),
{
    if replies.len() > 0 {
        law_launches_stay_valid(inhibited, replies.drop_last());
    }
}

/// However a start goes, it tries to create a process at most [`PORT_ATTEMPTS`] times.
pub proof fn law_processes_are_bounded(inhibited: bool, replies: Seq<(LaunchReply, bool)>)
    ensures
        LaunchState::begun(inhibited).creations(replies) <= PORT_ATTEMPTS,
{
    lemma_creations(inhibited, replies);
    law_launches_stay_valid(inhibited, replies);
}

/// No more processes than ports are tried, and none on a port before its turn.
proof fn lemma_creations(inhibited: bool, replies: Seq<(LaunchReply, bool)>)
    ensures
        ({
            let start = LaunchState::begun(inhibited);
            let now = start.after_all(replies);
            let turn = now.step is DrainStderr || now.step is Attach || now.step is End;
            start.creations(replies) <= (if turn {
                now.attempt
            } else {
                now.attempt - 1
            })
        }),
    decreases replies.len(),
{
    if replies.len() > 0 {
        lemma_creations(inhibited, replies.drop_last());
    }
}

/// A process is only ever to be created when the cancellation policy has just allowed it, and a
/// child that was created while it stopped allowing it is dropped.
pub proof fn law_no_process_while_inhibited(state: LaunchState, reply: LaunchReply)
    requires
        state.awaits(reply),
    ensures
        !(state.after(reply, true).step is CreateProcess),
        !(state.after(reply, true).step is PickPort),
        !(state.after(reply, true).step matches LaunchStep::End(LaunchEnd::Up { .. })),
        reply == LaunchReply::Process(true) ==> state.after(reply, true).step == LaunchStep::End(
            LaunchEnd::Cancelled,
        ),
{
}

/// A cancelled start is no failed start: no port is blamed for it.
pub proof fn law_a_cancellation_is_no_failure(state: LaunchState, reply: LaunchReply)
    ensures
        state.after(reply, true).failures == state.failures,
        state.after(reply, true).attempt == state.attempt,
        state.after(reply, true).step != LaunchStep::End(LaunchEnd::GaveUp) || state.step
            == LaunchStep::End(LaunchEnd::GaveUp),
{
}

/// A start gets on with every word that it waits for, and ends after a bounded number of them; once
/// it has ended nothing changes it.
pub proof fn law_launches_end(state: LaunchState, reply: LaunchReply, inhibited: bool)
    requires
        state.valid(),
    ensures
        0 <= state.steps_left() <= 4 * PORT_ATTEMPTS + 1,
        state.steps_left() == 0 <==> state.step is End,
        state.awaits(reply) ==> state.after(reply, inhibited).steps_left() < state.steps_left(),
        !state.awaits(reply) ==> state.after(reply, inhibited) == state,
        state.step is End ==> state.after(reply, inhibited) == state,
{
}

// ---------------------------------------------------------------------------
// Attach
// ---------------------------------------------------------------------------

/// How connecting to a child ended.
#[derive(Clone, Copy, Debug, PartialEq, Eq, Structural)]
pub enum AttachEnd {
    /// The host is registered with Neovim.
    Registered,
    /// It was cancelled.
    Cancelled,
    /// It was cancelled when there was a connection already, which is to be dropped.
    CancelledConnected,
    /// The state of the child could not be told.
    ChildUnknown,
    /// The child ended before it accepted a connection.
    ChildGone,
    /// The connection took too long.
    ConnectTimeout,
    /// Every try was refused.
    Unreachable,
    /// Whoever accepted the connection is not Neovim, or its `init.lua` is not the bundled one. The
    /// connection is to be dropped.
    NoHandshake,
}

/// What connecting is to do next.
#[derive(Clone, Copy, Debug, PartialEq, Eq, Structural)]
pub enum AttachStep {
    /// See whether the child is alive.
    PollChild,
    Connect,
    /// Wait [`CONNECT_INTERVAL_MS`].
    Wait,
    /// Register the host.
    Handshake,
    End(AttachEnd),
}

/// The state of a child.
#[derive(Clone, Copy, Debug, PartialEq, Eq, Structural)]
pub enum ChildStatus {
    Running,
    Exited,
    Unknown,
}

/// How a try to connect went.
#[derive(Debug, PartialEq, Eq)]
pub enum Connected {
    Accepted,
    /// Refused, for this reason.
    Refused(String),
    Timeout,
    /// The cancellation policy came in between.
    Interrupted,
}

/// Word of how a step went.
pub ghost enum AttachReply {
    Child(ChildStatus),
    Accepted,
    Refused(Seq<char>),
    Timeout,
    Interrupted,
    Waited,
    Handshake(bool),
}

/// Connecting to a child, by contents.
pub ghost struct AttachState {
    pub step: AttachStep,
    /// How many tries are over.
    pub refused: int,
    /// Why the last try was refused.
    pub last_error: Option<Seq<char>>,
}

impl AttachState {
    /// What is to do `step` next.
    pub open spec fn to(self, step: AttachStep) -> AttachState {
        AttachState { step, ..self }
    }

    /// What is to do `step` next, or to end if it is cancelled.
    pub open spec fn to_unless(self, inhibited: bool, end: AttachEnd, step: AttachStep)
        -> AttachState {
        self.to(
            if inhibited {
                AttachStep::End(end)
            } else {
                step
            },
        )
    }

    /// Connecting begins.
    pub open spec fn begun(inhibited: bool) -> AttachState {
        AttachState { step: AttachStep::PollChild, refused: 0, last_error: None }.to_unless(
            inhibited,
            AttachEnd::Cancelled,
            AttachStep::PollChild,
        )
    }

    /// Connecting after word of how a step went.
    pub open spec fn after(self, reply: AttachReply, inhibited: bool) -> AttachState {
        match (self.step, reply) {
            (AttachStep::PollChild, AttachReply::Child(status)) => match status {
                ChildStatus::Running => self.to(AttachStep::Connect),
                ChildStatus::Exited => self.to(AttachStep::End(AttachEnd::ChildGone)),
                ChildStatus::Unknown => self.to(AttachStep::End(AttachEnd::ChildUnknown)),
            },
            (AttachStep::Connect, AttachReply::Accepted) => self.to_unless(
                inhibited,
                AttachEnd::CancelledConnected,
                AttachStep::Handshake,
            ),
            (AttachStep::Connect, AttachReply::Refused(why)) => AttachState {
                last_error: Some(why),
                ..self
            }.to_unless(inhibited, AttachEnd::Cancelled, AttachStep::Wait),
            (AttachStep::Connect, AttachReply::Timeout) => self.to(
                AttachStep::End(AttachEnd::ConnectTimeout),
            ),
            (AttachStep::Connect, AttachReply::Interrupted) => self.to(
                AttachStep::End(AttachEnd::Cancelled),
            ),
            (AttachStep::Wait, AttachReply::Waited) => if inhibited {
                self.to(AttachStep::End(AttachEnd::Cancelled))
            } else if self.refused + 1 >= CONNECT_ATTEMPTS {
                AttachState {
                    step: AttachStep::End(AttachEnd::Unreachable),
                    refused: self.refused + 1,
                    ..self
                }
            } else {
                AttachState { step: AttachStep::PollChild, refused: self.refused + 1, ..self }
            },
            (AttachStep::Handshake, AttachReply::Handshake(registered)) => self.to_unless(
                inhibited,
                AttachEnd::CancelledConnected,
                AttachStep::End(
                    if registered {
                        AttachEnd::Registered
                    } else {
                        AttachEnd::NoHandshake
                    },
                ),
            ),
            _ => self,
        }
    }

    /// Whether word of this is what connecting waits for.
    pub open spec fn awaits(self, reply: AttachReply) -> bool {
        match self.step {
            AttachStep::PollChild => reply is Child,
            AttachStep::Connect => reply is Accepted || reply is Refused || reply is Timeout
                || reply is Interrupted,
            AttachStep::Wait => reply is Waited,
            AttachStep::Handshake => reply is Handshake,
            AttachStep::End(_) => false,
        }
    }

    /// Whether connecting can have come this far.
    pub open spec fn valid(self) -> bool {
        &&& 0 <= self.refused <= CONNECT_ATTEMPTS
        &&& !(self.step is End) ==> self.refused < CONNECT_ATTEMPTS
        &&& self.step == AttachStep::End(AttachEnd::Unreachable) ==> self.refused
            == CONNECT_ATTEMPTS
        &&& self.refused > 0 || self.step is Wait ==> self.last_error is Some
    }

    /// How many steps connecting can still take at most.
    pub open spec fn steps_left(self) -> int {
        let tries = 3 * (CONNECT_ATTEMPTS - self.refused);
        match self.step {
            AttachStep::PollChild => tries + 1,
            AttachStep::Connect => tries,
            AttachStep::Wait => tries - 1,
            AttachStep::Handshake => 1,
            AttachStep::End(_) => 0,
        }
    }
}

/// Connecting to a child and registering the host with it.
#[derive(Debug)]
pub struct Attach {
    step: AttachStep,
    refused: u32,
    last_error: Option<String>,
}

impl View for Attach {
    type V = AttachState;

    closed spec fn view(&self) -> AttachState {
        AttachState {
            step: self.step,
            refused: self.refused as int,
            last_error: match self.last_error {
                Some(why) => Some(why@),
                None => None,
            },
        }
    }
}

impl Attach {
    #[verifier::type_invariant]
    spec fn counts_tries(self) -> bool {
        &&& self.refused <= CONNECT_ATTEMPTS
        &&& !(self.step is End) ==> self.refused < CONNECT_ATTEMPTS
    }

    /// Begins to connect.
    pub fn begin(inhibited: bool) -> (attach: Attach)
        ensures
            attach@ == AttachState::begun(inhibited),
    {
        let step = if inhibited {
            AttachStep::End(AttachEnd::Cancelled)
        } else {
            AttachStep::PollChild
        };
        Attach { step, refused: 0, last_error: None }
    }

    /// What is to be done next.
    pub fn next(&self) -> (step: AttachStep)
        ensures
            step == self@.step,
    {
        self.step
    }

    /// Why the last try was refused, if one was.
    pub fn last_error(&self) -> (why: &Option<String>)
        ensures
            why is Some <==> self@.last_error is Some,
            why is Some ==> why->0@ == self@.last_error->0,
    {
        &self.last_error
    }

    /// The state of the child.
    pub fn on_child(&mut self, status: ChildStatus)
        ensures
            forall|inhibited: bool|
                final(self)@ == #[trigger] old(self)@.after(AttachReply::Child(status), inhibited),
    {
        proof {
            use_type_invariant(&*self);
        }
        if let AttachStep::PollChild = self.step {
            self.step = match status {
                ChildStatus::Running => AttachStep::Connect,
                ChildStatus::Exited => AttachStep::End(AttachEnd::ChildGone),
                ChildStatus::Unknown => AttachStep::End(AttachEnd::ChildUnknown),
            };
        }
    }

    /// How a try to connect went.
    pub fn on_connect(&mut self, result: Connected, inhibited: bool)
        ensures
            final(self)@ == old(self)@.after(
                match result {
                    Connected::Accepted => AttachReply::Accepted,
                    Connected::Refused(why) => AttachReply::Refused(why@),
                    Connected::Timeout => AttachReply::Timeout,
                    Connected::Interrupted => AttachReply::Interrupted,
                },
                inhibited,
            ),
    {
        proof {
            use_type_invariant(&*self);
        }
        if let AttachStep::Connect = self.step {
            self.step = match result {
                Connected::Accepted => if inhibited {
                    AttachStep::End(AttachEnd::CancelledConnected)
                } else {
                    AttachStep::Handshake
                },
                Connected::Refused(why) => {
                    self.last_error = Some(why);
                    if inhibited {
                        AttachStep::End(AttachEnd::Cancelled)
                    } else {
                        AttachStep::Wait
                    }
                },
                Connected::Timeout => AttachStep::End(AttachEnd::ConnectTimeout),
                Connected::Interrupted => AttachStep::End(AttachEnd::Cancelled),
            };
        }
    }

    /// The wait is over.
    pub fn on_waited(&mut self, inhibited: bool)
        ensures
            final(self)@ == old(self)@.after(AttachReply::Waited, inhibited),
    {
        proof {
            use_type_invariant(&*self);
        }
        if let AttachStep::Wait = self.step {
            if inhibited {
                self.step = AttachStep::End(AttachEnd::Cancelled);
            } else if self.refused >= CONNECT_ATTEMPTS - 1 {
                self.step = AttachStep::End(AttachEnd::Unreachable);
                self.refused = self.refused + 1;
            } else {
                self.refused = self.refused + 1;
                self.step = AttachStep::PollChild;
            }
        }
    }

    /// Whether Neovim registered the host. A cancellation that came in meanwhile has the last word.
    pub fn on_handshake(&mut self, registered: bool, inhibited: bool)
        ensures
            final(self)@ == old(self)@.after(AttachReply::Handshake(registered), inhibited),
    {
        proof {
            use_type_invariant(&*self);
        }
        if let AttachStep::Handshake = self.step {
            self.step = AttachStep::End(
                if inhibited {
                    AttachEnd::CancelledConnected
                } else if registered {
                    AttachEnd::Registered
                } else {
                    AttachEnd::NoHandshake
                },
            );
        }
    }
}

impl AttachState {
    /// What is said of connecting that has ended without a registration. `detail` is what the
    /// system or Neovim said of it.
    pub open spec fn said(self, port: u16, detail: Seq<char>) -> Seq<char> {
        match self.step {
            AttachStep::End(AttachEnd::Cancelled) | AttachStep::End(AttachEnd::CancelledConnected) =>
                "nvim spawning is inhibited by shutdown"@,
            AttachStep::End(AttachEnd::ChildUnknown) => "failed to poll the nvim child process: "@
                + detail,
            AttachStep::End(AttachEnd::ChildGone) =>
                "nvim exited before accepting a connection ("@ + detail + ")"@,
            AttachStep::End(AttachEnd::ConnectTimeout) => "timed out connecting to nvim"@ + (
            if detail.len() == 0 {
                Seq::empty()
            } else {
                ": "@ + detail
            }),
            AttachStep::End(AttachEnd::Unreachable) => "could not connect to the nvim server at "@
                + crate::server::listen_address(port) + " within "@ + crate::text::numeral(
                (CONNECT_ATTEMPTS * CONNECT_INTERVAL_MS / 1000) as nat,
            ) + "s ("@ + crate::text::numeral(CONNECT_ATTEMPTS as nat) + " attempts); last error: "@
                + (match self.last_error {
                Some(why) => why,
                None => Seq::empty(),
            }),
            AttachStep::End(AttachEnd::NoHandshake) => detail,
            _ => Seq::empty(),
        }
    }
}

impl Attach {
    /// What is said of connecting that has ended without a registration. `detail` is what the
    /// system or Neovim said of it.
    pub fn report(&self, port: u16, detail: &str) -> (text: String)
        ensures
            text@ == self@.said(port, detail@),
    {
        match self.step {
            AttachStep::End(AttachEnd::Cancelled)
            | AttachStep::End(AttachEnd::CancelledConnected) => SpawnCancelled.message(),
            AttachStep::End(AttachEnd::ChildUnknown) => {
                let mut text = "failed to poll the nvim child process: ".to_owned();
                text.append(detail);
                text
            },
            AttachStep::End(AttachEnd::ChildGone) => {
                let mut text = "nvim exited before accepting a connection (".to_owned();
                text.append(detail);
                text.append(")");
                text
            },
            AttachStep::End(AttachEnd::ConnectTimeout) => {
                let mut text = "timed out connecting to nvim".to_owned();
                if !detail.is_empty() {
                    text.append(": ");
                    text.append(detail);
                }
                proof {
                    let timeout = "timed out connecting to nvim"@;
                    assert(timeout + Seq::<char>::empty() =~= timeout);
                    assert(timeout + ": "@ + detail@ =~= timeout + (": "@ + detail@));
                }
                text
            },
            AttachStep::End(AttachEnd::Unreachable) => {
                let mut text = "could not connect to the nvim server at ".to_owned();
                text.append(listen_on(port).as_str());
                text.append(" within ");
                text.append(decimal(CONNECT_ATTEMPTS as u64 * CONNECT_INTERVAL_MS / 1000).as_str());
                text.append("s (");
                text.append(decimal(CONNECT_ATTEMPTS as u64).as_str());
                text.append(" attempts); last error: ");
                match &self.last_error {
                    Some(why) => text.append(why.as_str()),
                    None => {},
                }
                text
            },
            AttachStep::End(AttachEnd::NoHandshake) => detail.to_owned(),
            _ => String::new(),
        }
    }
}

/// Connecting stays within [`CONNECT_ATTEMPTS`] tries, and where one was refused the reason is kept.
pub proof fn law_attaching_stays_valid(state: AttachState, reply: AttachReply, inhibited: bool)
    requires
        state.valid(),
    ensures
        AttachState::begun(inhibited).valid(),
        state.after(reply, inhibited).valid(),
{
}

/// Connecting gets on with every word that it waits for, and ends after a bounded number of them;
/// once it has ended nothing changes it.
pub proof fn law_attaching_ends(state: AttachState, reply: AttachReply, inhibited: bool)
    requires
        state.valid(),
    ensures
        0 <= state.steps_left() <= 3 * CONNECT_ATTEMPTS + 1,
        state.steps_left() == 0 <==> state.step is End,
        state.awaits(reply) ==> state.after(reply, inhibited).steps_left() < state.steps_left(),
        !state.awaits(reply) ==> state.after(reply, inhibited) == state,
{
}

/// The host is registered only while nothing inhibits it: a handshake that completes under an
/// inhibition is a cancellation, and so is a connection that is made under one.
pub proof fn law_no_registration_while_inhibited(state: AttachState, reply: AttachReply)
    requires
        state.awaits(reply),
    ensures
        state.after(reply, true).step != AttachStep::End(AttachEnd::Registered),
        !(state.after(reply, true).step is Handshake),
{
}

// ---------------------------------------------------------------------------
// What each word leads to
// ---------------------------------------------------------------------------

/// How often and how long things are tried.
pub proof fn law_the_limits_of_a_start()
    ensures
        PORT_ATTEMPTS == 5,
        CONNECT_ATTEMPTS == 100,
        CONNECT_INTERVAL_MS == 20,
        HANDSHAKE_TIMEOUT_MS == 2000,
        SHUTDOWN_TIMEOUT_MS == 1000,
{
}

/// A start begins with the search for `init.lua`, on its first port and without a failure, unless it
/// is cancelled at once.
pub proof fn law_how_a_start_begins()
    ensures
        LaunchState::begun(false) == (LaunchState {
            step: LaunchStep::FindInitLua,
            attempt: 1,
            failures: Seq::empty(),
        }),
        LaunchState::begun(true) == (LaunchState {
            step: LaunchStep::End(LaunchEnd::Cancelled),
            attempt: 1,
            failures: Seq::empty(),
        }),
{
}

/// While nothing is inhibited, good word leads from each step to the next, with the port that was
/// picked, however many ports have failed before; and the last one brings Neovim up.
pub proof fn law_good_word_leads_on(state: LaunchState, port: u16)
    ensures
        state.step == LaunchStep::FindInitLua ==> state.after(LaunchReply::InitLua(true), false) == (
        LaunchState { step: LaunchStep::PickPort, ..state }),
        state.step == LaunchStep::PickPort ==> state.after(LaunchReply::Port(Some(port)), false)
            == (LaunchState { step: LaunchStep::CreateProcess { port }, ..state }),
        state.step == (LaunchStep::CreateProcess { port }) ==> state.after(
            LaunchReply::Process(true),
            false,
        ) == (LaunchState { step: LaunchStep::DrainStderr { port }, ..state }),
        forall|inhibited: bool|
            state.step == (LaunchStep::DrainStderr { port }) ==> #[trigger] state.after(
                LaunchReply::Stderr(true),
                inhibited,
            ) == (LaunchState { step: LaunchStep::Attach { port }, ..state }),
        state.step == (LaunchStep::Attach { port }) ==> state.after(
            LaunchReply::Attached(Ok(())),
            false,
        ) == (LaunchState { step: LaunchStep::End(LaunchEnd::Up { port }), ..state }),
{
}

/// Bad word ends a start, each with its own end, whatever the policy says; only a Neovim that did
/// not come up is another matter.
pub proof fn law_bad_word_ends_a_start(state: LaunchState, port: u16, inhibited: bool)
    ensures
        state.step == LaunchStep::FindInitLua ==> state.after(
            LaunchReply::InitLua(false),
            inhibited,
        ) == (LaunchState { step: LaunchStep::End(LaunchEnd::NoInitLua), ..state }),
        state.step == LaunchStep::PickPort ==> state.after(LaunchReply::Port(None), inhibited) == (
        LaunchState { step: LaunchStep::End(LaunchEnd::NoPort), ..state }),
        state.step == (LaunchStep::CreateProcess { port }) ==> state.after(
            LaunchReply::Process(false),
            inhibited,
        ) == (LaunchState { step: LaunchStep::End(LaunchEnd::NoProcess), ..state }),
        state.step == (LaunchStep::DrainStderr { port }) ==> state.after(
            LaunchReply::Stderr(false),
            inhibited,
        ) == (LaunchState { step: LaunchStep::End(LaunchEnd::NoStderr), ..state }),
{
}

/// An inhibition turns good word into a cancellation, and so it does a Neovim that did not come up;
/// nothing else changes.
pub proof fn law_an_inhibition_cancels_a_start(
    state: LaunchState,
    port: u16,
    picked: u16,
    why: Seq<char>,
)
    ensures
        state.step == LaunchStep::FindInitLua ==> state.after(LaunchReply::InitLua(true), true) == (
        LaunchState { step: LaunchStep::End(LaunchEnd::Cancelled), ..state }),
        state.step == LaunchStep::PickPort ==> state.after(LaunchReply::Port(Some(picked)), true)
            == (LaunchState { step: LaunchStep::End(LaunchEnd::Cancelled), ..state }),
        state.step == (LaunchStep::CreateProcess { port }) ==> state.after(
            LaunchReply::Process(true),
            true,
        ) == (LaunchState { step: LaunchStep::End(LaunchEnd::Cancelled), ..state }),
        state.step == (LaunchStep::Attach { port }) ==> state.after(
            LaunchReply::Attached(Ok(())),
            true,
        ) == (LaunchState { step: LaunchStep::End(LaunchEnd::CancelledUp), ..state }),
        state.step == (LaunchStep::Attach { port }) ==> state.after(
            LaunchReply::Attached(Err(why)),
            true,
        ) == (LaunchState { step: LaunchStep::End(LaunchEnd::Cancelled), ..state }),
{
}

/// A port on which Neovim did not come up is noted behind the others with its reason, and another
/// one is picked, unless it was the fifth.
pub proof fn law_a_failed_port_is_followed_by_another(
    state: LaunchState,
    port: u16,
    why: Seq<char>,
)
    requires
        state.step == (LaunchStep::Attach { port }),
    ensures
        ({
            let after = state.after(LaunchReply::Attached(Err(why)), false);
            &&& after.failures == state.failures.push((port, why))
            &&& state.attempt < 5 ==> after.step == LaunchStep::PickPort && after.attempt
                == state.attempt + 1
            &&& state.attempt >= 5 ==> after.step == LaunchStep::End(LaunchEnd::GaveUp)
                && after.attempt == state.attempt
        }),
{
}

/// Word that was not waited for changes nothing.
pub proof fn law_word_out_of_turn_changes_no_start(
    state: LaunchState,
    reply: LaunchReply,
    inhibited: bool,
)
    ensures
        reply is InitLua && !(state.step is FindInitLua) ==> state.after(reply, inhibited) == state,
        reply is Port && !(state.step is PickPort) ==> state.after(reply, inhibited) == state,
        reply is Process && !(state.step is CreateProcess) ==> state.after(reply, inhibited)
            == state,
        reply is Stderr && !(state.step is DrainStderr) ==> state.after(reply, inhibited) == state,
        reply is Attached && !(state.step is Attach) ==> state.after(reply, inhibited) == state,
        state.step is End ==> state.after(reply, inhibited) == state,
{
}

impl LaunchState {
    /// The start after Neovim did not come up on each of these ports, for these reasons.
    pub open spec fn after_failures(self, failed: Seq<(u16, Seq<char>)>) -> LaunchState
        decreases failed.len(),
    {
        if failed.len() == 0 {
            self
        } else {
            let (port, why) = failed.last();
            self.after_failures(failed.drop_last()).after(
                LaunchReply::Port(Some(port)),
                false,
            ).after(LaunchReply::Process(true), false).after(
                LaunchReply::Stderr(true),
                false,
            ).after(LaunchReply::Attached(Err(why)), false)
        }
    }
}

/// A start gets over up to four ports on which Neovim does not come up: on the next one it comes up.
/// After five it gives up, and has noted all of them in order.
pub proof fn law_a_start_gets_over_failed_ports(failed: Seq<(u16, Seq<char>)>, port: u16)
    requires
        failed.len() <= 5,
    ensures
        ({
            let begun = LaunchState::begun(false).after(LaunchReply::InitLua(true), false);
            let tried = begun.after_failures(failed);
            &&& tried.failures == failed
            &&& failed.len() == 5 ==> tried.step == LaunchStep::End(LaunchEnd::GaveUp)
            &&& failed.len() < 5 ==> tried.after(LaunchReply::Port(Some(port)), false).after(
                LaunchReply::Process(true),
                false,
            ).after(LaunchReply::Stderr(true), false).after(
                LaunchReply::Attached(Ok(())),
                false,
            ).step == LaunchStep::End(LaunchEnd::Up { port })
        }),
{
    lemma_after_failures(failed);
}

proof fn lemma_after_failures(failed: Seq<(u16, Seq<char>)>)
    requires
        failed.len() <= 5,
    ensures
        ({
            let begun = LaunchState::begun(false).after(LaunchReply::InitLua(true), false);
            let tried = begun.after_failures(failed);
            &&& tried.failures == failed
            &&& failed.len() == 5 ==> tried.step == LaunchStep::End(LaunchEnd::GaveUp)
            &&& failed.len() < 5 ==> tried.step == LaunchStep::PickPort && tried.attempt
                == failed.len() + 1
        }),
    decreases failed.len(),
{
    if failed.len() > 0 {
        lemma_after_failures(failed.drop_last());
        assert(failed.drop_last().push(failed.last()) =~= failed);
    } else {
        assert(failed =~= Seq::empty());
    }
}

/// One more failed port is listed behind the others, with its number and its reason.
pub proof fn law_each_failed_port_is_listed(
    failures: Seq<(u16, Seq<char>)>,
    port: u16,
    why: Seq<char>,
)
    ensures
        listed(Seq::empty()) == Seq::<char>::empty(),
        listed(seq![(port, why)]) == "port "@ + crate::text::numeral(port as nat) + ": "@ + why,
        failures.len() > 0 ==> listed(failures.push((port, why))) == listed(failures) + "; "@
            + "port "@ + crate::text::numeral(port as nat) + ": "@ + why,
{
    assert(failures.push((port, why)).drop_last() =~= failures);
    let one = seq![(port, why)];
    assert(one.drop_last() =~= Seq::<(u16, Seq<char>)>::empty());
    assert(listed(one.drop_last()) + Seq::<char>::empty() + "port "@ =~= "port "@);
}

/// What is said of each end of a start, whatever led there.
pub proof fn law_what_is_said_of_a_start(
    state: LaunchState,
    port: u16,
    exe: Seq<char>,
    appname: Seq<char>,
    init_lua: Seq<char>,
)
    ensures
        ({
            let said = |end: LaunchEnd|
                LaunchState { step: LaunchStep::End(end), ..state }.said(exe, appname, init_lua);
            &&& said(LaunchEnd::Up { port }) == Seq::<char>::empty()
            &&& said(LaunchEnd::Cancelled) == "nvim spawning is inhibited by shutdown"@
            &&& said(LaunchEnd::CancelledUp) == "nvim spawning is inhibited by shutdown"@
            &&& said(LaunchEnd::NoInitLua) == "bundled init.lua not found at "@ + init_lua
                + " (runtime_dir must contain init.lua and lua/anvi/)"@
            &&& said(LaunchEnd::NoPort) == "failed to pick a free TCP port for nvim"@
            &&& said(LaunchEnd::NoProcess) == "failed to spawn nvim at "@ + exe
                + " (NVIM_APPNAME="@ + appname + ")"@
            &&& said(LaunchEnd::NoStderr) == "nvim was spawned without a piped stderr"@
            &&& said(LaunchEnd::GaveUp) == "nvim ("@ + exe + ") did not come up on "@
                + crate::text::numeral(5) + " different ports ["@ + listed(state.failures)
                + "]; the nvim.stderr log records carry nvim's own message"@
        }),
{
}

/// Connecting begins with a look at the child, without a refusal, unless it is cancelled at once.
pub proof fn law_how_connecting_begins()
    ensures
        AttachState::begun(false) == (AttachState {
            step: AttachStep::PollChild,
            refused: 0,
            last_error: None,
        }),
        AttachState::begun(true) == (AttachState {
            step: AttachStep::End(AttachEnd::Cancelled),
            refused: 0,
            last_error: None,
        }),
{
}

/// A child that runs is connected to, and one that does not ends it, whatever was tried before.
pub proof fn law_only_a_running_child_is_connected_to(state: AttachState, inhibited: bool)
    requires
        state.step == AttachStep::PollChild,
    ensures
        state.after(AttachReply::Child(ChildStatus::Running), inhibited) == (AttachState {
            step: AttachStep::Connect,
            ..state
        }),
        state.after(AttachReply::Child(ChildStatus::Exited), inhibited) == (AttachState {
            step: AttachStep::End(AttachEnd::ChildGone),
            ..state
        }),
        state.after(AttachReply::Child(ChildStatus::Unknown), inhibited) == (AttachState {
            step: AttachStep::End(AttachEnd::ChildUnknown),
            ..state
        }),
{
}

/// Whatever number of tries was refused before, a connection that is accepted is used for the
/// handshake, unless it is inhibited; one that is refused is waited for, and the reason is kept; one
/// that takes too long or is interrupted ends it.
pub proof fn law_what_a_try_leads_to(state: AttachState, why: Seq<char>, inhibited: bool)
    requires
        state.step == AttachStep::Connect,
    ensures
        state.after(AttachReply::Accepted, false) == (AttachState {
            step: AttachStep::Handshake,
            ..state
        }),
        state.after(AttachReply::Accepted, true) == (AttachState {
            step: AttachStep::End(AttachEnd::CancelledConnected),
            ..state
        }),
        state.after(AttachReply::Refused(why), false) == (AttachState {
            step: AttachStep::Wait,
            last_error: Some(why),
            ..state
        }),
        state.after(AttachReply::Refused(why), true) == (AttachState {
            step: AttachStep::End(AttachEnd::Cancelled),
            last_error: Some(why),
            ..state
        }),
        state.after(AttachReply::Timeout, inhibited) == (AttachState {
            step: AttachStep::End(AttachEnd::ConnectTimeout),
            ..state
        }),
        state.after(AttachReply::Interrupted, inhibited) == (AttachState {
            step: AttachStep::End(AttachEnd::Cancelled),
            ..state
        }),
{
}

/// A wait is followed by another try, unless a hundred were refused or it is inhibited.
pub proof fn law_a_wait_is_followed_by_another_try(state: AttachState)
    requires
        state.step == AttachStep::Wait,
    ensures
        state.refused < 99 ==> state.after(AttachReply::Waited, false) == (AttachState {
            step: AttachStep::PollChild,
            refused: state.refused + 1,
            ..state
        }),
        state.refused >= 99 ==> state.after(AttachReply::Waited, false) == (AttachState {
            step: AttachStep::End(AttachEnd::Unreachable),
            refused: state.refused + 1,
            ..state
        }),
        state.after(AttachReply::Waited, true) == (AttachState {
            step: AttachStep::End(AttachEnd::Cancelled),
            ..state
        }),
{
}

/// A handshake that succeeds registers the host, one that fails does not, and an inhibition has the
/// last word over both.
pub proof fn law_what_a_handshake_leads_to(state: AttachState, registered: bool)
    requires
        state.step == AttachStep::Handshake,
    ensures
        state.after(AttachReply::Handshake(true), false) == (AttachState {
            step: AttachStep::End(AttachEnd::Registered),
            ..state
        }),
        state.after(AttachReply::Handshake(false), false) == (AttachState {
            step: AttachStep::End(AttachEnd::NoHandshake),
            ..state
        }),
        state.after(AttachReply::Handshake(registered), true) == (AttachState {
            step: AttachStep::End(AttachEnd::CancelledConnected),
            ..state
        }),
{
}

/// Word that was not waited for changes nothing.
pub proof fn law_word_out_of_turn_changes_no_connecting(
    state: AttachState,
    reply: AttachReply,
    inhibited: bool,
)
    ensures
        reply is Child && !(state.step is PollChild) ==> state.after(reply, inhibited) == state,
        (reply is Accepted || reply is Refused || reply is Timeout || reply is Interrupted) && !(
        state.step is Connect) ==> state.after(reply, inhibited) == state,
        reply is Waited && !(state.step is Wait) ==> state.after(reply, inhibited) == state,
        reply is Handshake && !(state.step is Handshake) ==> state.after(reply, inhibited) == state,
        state.step is End ==> state.after(reply, inhibited) == state,
{
}

impl AttachState {
    /// Connecting after tries that were refused for these reasons, while the child ran and nothing
    /// was inhibited.
    pub open spec fn after_refusals(self, whys: Seq<Seq<char>>) -> AttachState
        decreases whys.len(),
    {
        if whys.len() == 0 {
            self
        } else {
            self.after_refusals(whys.drop_last()).after(
                AttachReply::Child(ChildStatus::Running),
                false,
            ).after(AttachReply::Refused(whys.last()), false).after(AttachReply::Waited, false)
        }
    }
}

/// A Neovim that takes its time to listen comes up: after any number of refusals below a hundred, a
/// connection that is accepted and a handshake that succeeds register the host. A hundred refusals
/// end it, with the reason of the last.
pub proof fn law_a_late_listener_is_registered(whys: Seq<Seq<char>>)
    requires
        whys.len() <= 100,
    ensures
        ({
            let tried = AttachState::begun(false).after_refusals(whys);
            &&& whys.len() < 100 ==> tried.after(
                AttachReply::Child(ChildStatus::Running),
                false,
            ).after(AttachReply::Accepted, false).after(AttachReply::Handshake(true), false).step
                == AttachStep::End(AttachEnd::Registered)
            &&& whys.len() == 100 ==> tried.step == AttachStep::End(AttachEnd::Unreachable)
            &&& whys.len() > 0 ==> tried.last_error == Some(whys.last())
        }),
{
    lemma_after_refusals(whys);
}

proof fn lemma_after_refusals(whys: Seq<Seq<char>>)
    requires
        whys.len() <= 100,
    ensures
        AttachState::begun(false).after_refusals(whys) == (AttachState {
            step: if whys.len() == 100 {
                AttachStep::End(AttachEnd::Unreachable)
            } else {
                AttachStep::PollChild
            },
            refused: whys.len() as int,
            last_error: if whys.len() == 0 {
                None
            } else {
                Some(whys.last())
            },
        }),
    decreases whys.len(),
{
    if whys.len() > 0 {
        lemma_after_refusals(whys.drop_last());
    }
}

/// What is said of each end of connecting, whatever led there.
pub proof fn law_what_is_said_of_connecting(
    state: AttachState,
    why: Seq<char>,
    port: u16,
    detail: Seq<char>,
)
    ensures
        ({
            let said = |end: AttachEnd|
                AttachState {
                    step: AttachStep::End(end),
                    last_error: Some(why),
                    ..state
                }.said(port, detail);
            &&& said(AttachEnd::Registered) == Seq::<char>::empty()
            &&& said(AttachEnd::Cancelled) == "nvim spawning is inhibited by shutdown"@
            &&& said(AttachEnd::CancelledConnected) == "nvim spawning is inhibited by shutdown"@
            &&& said(AttachEnd::ChildUnknown) == "failed to poll the nvim child process: "@ + detail
            &&& said(AttachEnd::ChildGone) == "nvim exited before accepting a connection ("@ + detail
                + ")"@
            &&& detail.len() > 0 ==> said(AttachEnd::ConnectTimeout)
                == "timed out connecting to nvim"@ + (": "@ + detail)
            &&& detail.len() == 0 ==> said(AttachEnd::ConnectTimeout)
                == "timed out connecting to nvim"@
            &&& said(AttachEnd::Unreachable) == "could not connect to the nvim server at "@
                + crate::server::listen_address(port) + " within "@ + crate::text::numeral(2)
                + "s ("@ + crate::text::numeral(100) + " attempts); last error: "@ + why
            &&& said(AttachEnd::NoHandshake) == detail
        }),
{
    assert("timed out connecting to nvim"@ + Seq::<char>::empty()
        =~= "timed out connecting to nvim"@);
}

} // verus!
