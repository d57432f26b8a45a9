//! The editing session.
//!
//! A session takes the contents of a field, hands them to Neovim and, when the editor is closed,
//! says what becomes of the field. That is decided by one thing alone: whether the buffer was
//! saved, and what was saved last.
use vstd::prelude::*;

use crate::text::same_lines;

verus! {

/// Where a session stands.
#[derive(Clone, Copy, Debug, PartialEq, Eq, Structural)]
pub enum Phase {
    /// There is none.
    Idle,
    /// The field is being read.
    Capturing,
    /// The contents are in Neovim.
    Editing,
    /// The result is being written back.
    Applying,
}

/// What becomes of the field.
#[derive(Debug, PartialEq, Eq)]
pub enum Applied {
    /// It gets these lines.
    WriteBack(Vec<String>),
    /// What was saved is what the field holds; writing it would only soil the undo history.
    Unchanged,
    /// Nothing was ever saved.
    Discarded,
}

/// What becomes of the field, by contents.
pub ghost enum Outcome {
    WriteBack(Seq<Seq<char>>),
    Unchanged,
    Discarded,
}

impl View for Applied {
    type V = Outcome;

    open spec fn view(&self) -> Outcome {
        match self {
            Applied::WriteBack(lines) => Outcome::WriteBack(crate::text::texts(lines@)),
            Applied::Unchanged => Outcome::Unchanged,
            Applied::Discarded => Outcome::Discarded,
        }
    }
}

/// A session, by contents.
pub ghost struct SessionState {
    pub phase: Phase,
    /// What the field held when the session began.
    pub original: Seq<Seq<char>>,
    /// What was saved last, if anything was.
    pub saved: Option<Seq<Seq<char>>>,
}

impl SessionState {
    /// No session.
    pub open spec fn idle() -> SessionState {
        SessionState { phase: Phase::Idle, original: Seq::empty(), saved: None }
    }

    /// A session that edits `lines`.
    pub open spec fn editing(lines: Seq<Seq<char>>) -> SessionState {
        SessionState { phase: Phase::Editing, original: lines, saved: None }
    }

    /// The session after a save.
    pub open spec fn write(self, lines: Seq<Seq<char>>) -> SessionState {
        if self.phase == Phase::Editing {
            SessionState { saved: Some(lines), ..self }
        } else {
            self
        }
    }

    /// The session after a series of saves.
    pub open spec fn write_all(self, saves: Seq<Seq<Seq<char>>>) -> SessionState
        decreases saves.len(),
    {
        if saves.len() == 0 {
            self
        } else {
            self.write_all(saves.drop_last()).write(saves.last())
        }
    }

    /// What an end of the session makes of the field.
    pub open spec fn outcome(self) -> Outcome {
        match self.saved {
            None => Outcome::Discarded,
            Some(lines) => if lines == self.original {
                Outcome::Unchanged
            } else {
                Outcome::WriteBack(lines)
            },
        }
    }
}

/// The session state machine. There is at most one session at a time.
#[derive(Debug)]
pub struct Session {
    phase: Phase,
    original: Vec<String>,
    saved: Option<Vec<String>>,
}

impl View for Session {
    type V = SessionState;

    closed spec fn view(&self) -> SessionState {
        SessionState {
            phase: self.phase,
            original: crate::text::texts(self.original@),
            saved: match self.saved {
                Some(lines) => Some(crate::text::texts(lines@)),
                None => None,
            },
        }
    }
}

impl Default for Session {
    fn default() -> (session: Session)
        ensures
            session@ == SessionState::idle(),
    {
        let session = Session { phase: Phase::Idle, original: Vec::new(), saved: None };
        assert(session@.original =~= Seq::empty());
        session
    }
}

impl Session {
    /// Where the session stands.
    pub fn phase(&self) -> (phase: Phase)
        ensures
            phase == self@.phase,
    {
        self.phase
    }

    /// Starts to read a field. Refused unless there is no session.
    pub fn begin_capture(&mut self) -> (begun: bool)
        ensures
            begun == (old(self)@.phase == Phase::Idle),
            final(self)@ == (if begun {
                SessionState { phase: Phase::Capturing, ..old(self)@ }
            } else {
                old(self)@
            }),
    {
        if self.phase == Phase::Idle {
            self.phase = Phase::Capturing;
            true
        } else {
            false
        }
    }

    /// Gives the field up again before anything was edited.
    pub fn abort_capture(&mut self)
        ensures
            final(self)@ == (if old(self)@.phase == Phase::Capturing {
                SessionState { phase: Phase::Idle, ..old(self)@ }
            } else {
                old(self)@
            }),
    {
        if self.phase == Phase::Capturing {
            self.phase = Phase::Idle;
        }
    }

    /// The contents are in Neovim now. Nothing of an earlier session is left.
    pub fn begin_edit(&mut self, lines: Vec<String>)
        ensures
            final(self)@ == SessionState::editing(crate::text::texts(lines@)),
    {
        self.phase = Phase::Editing;
        self.original = lines;
        self.saved = None;
    }

    /// The buffer was saved. This only keeps the lines; they are applied when the session ends.
    pub fn on_write(&mut self, lines: Vec<String>)
        ensures
            final(self)@ == old(self)@.write(crate::text::texts(lines@)),
    {
        if self.phase == Phase::Editing {
            self.saved = Some(lines);
        }
    }

    /// The session ends, and says what becomes of the field. Outside of a session nothing does.
    pub fn on_end(&mut self) -> (applied: Applied)
        ensures
            applied@ == (if old(self)@.phase == Phase::Editing {
                old(self)@.outcome()
            } else {
                Outcome::Discarded
            }),
            final(self)@ == (if old(self)@.phase == Phase::Editing {
                SessionState::idle()
            } else {
                old(self)@
            }),
    {
        if self.phase != Phase::Editing {
            return Applied::Discarded;
        }
        let saved = self.saved.take();
        let applied = match saved {
            None => Applied::Discarded,
            Some(lines) => if same_lines(&lines, &self.original) {
                Applied::Unchanged
            } else {
                Applied::WriteBack(lines)
            },
        };
        self.reset();
        applied
    }

    /// Drops the session, if there is one. Nothing becomes of the field.
    pub fn reset(&mut self)
        ensures
            final(self)@ == SessionState::idle(),
    {
        self.phase = Phase::Idle;
        self.original = Vec::new();
        self.saved = None;
        assert(self@.original =~= Seq::empty());
    }
}

// ---------------------------------------------------------------------------
// Laws
// ---------------------------------------------------------------------------

/// Whether and what is written back is decided by the saves alone: nothing without a save, nothing
/// if the last save is what the field held, and otherwise what was saved last.
pub proof fn law_the_last_save_decides(original: Seq<Seq<char>>, saves: Seq<Seq<Seq<char>>>)
    ensures
        SessionState::editing(original).write_all(saves).phase == Phase::Editing,
        SessionState::editing(original).write_all(saves).outcome() == (if saves.len() == 0 {
            Outcome::Discarded
        } else if saves.last() == original {
            Outcome::Unchanged
        } else {
            Outcome::WriteBack(saves.last())
        }),
{
    lemma_saves(original, saves);
}

/// What a series of saves leaves behind.
proof fn lemma_saves(original: Seq<Seq<char>>, saves: Seq<Seq<Seq<char>>>)
    ensures
        SessionState::editing(original).write_all(saves) == (SessionState {
            phase: Phase::Editing,
            original,
            saved: if saves.len() == 0 {
                None
            } else {
                Some(saves.last())
            },
        }),
    decreases saves.len(),
{
    if saves.len() > 0 {
        lemma_saves(original, saves.drop_last());
    }
}

/// A save counts exactly while a field is being edited, replaces the one before it and changes
/// nothing else; at any other time it changes nothing.
pub proof fn law_saves_count_only_while_editing(state: SessionState, lines: Seq<Seq<char>>)
    ensures
        state.phase == Phase::Editing ==> state.write(lines) == (SessionState {
            phase: Phase::Editing,
            original: state.original,
            saved: Some(lines),
        }),
        state.phase != Phase::Editing ==> state.write(lines) == state,
{
}

/// The field gets what was saved exactly if something was saved and it is not what the field held.
pub proof fn law_only_a_changed_save_is_written_back(state: SessionState)
    ensures
        state.saved is None ==> state.outcome() == Outcome::Discarded,
        state.saved is Some && state.saved->0 == state.original ==> state.outcome()
            == Outcome::Unchanged,
        state.saved is Some && state.saved->0 != state.original ==> state.outcome()
            == Outcome::WriteBack(state.saved->0),
{
}

/// A session that begins holds the field's lines and no save, and without a session there is
/// neither.
pub proof fn law_sessions_begin_unsaved(lines: Seq<Seq<char>>)
    ensures
        SessionState::editing(lines) == (SessionState {
            phase: Phase::Editing,
            original: lines,
            saved: None,
        }),
        SessionState::idle() == (SessionState {
            phase: Phase::Idle,
            original: Seq::empty(),
            saved: None,
        }),
{
}

/// What becomes of a field is seen with every line.
pub proof fn law_outcomes_are_seen_whole(lines: Vec<String>)
    ensures
        Applied::WriteBack(lines)@ == Outcome::WriteBack(crate::text::texts(lines@)),
        Applied::Unchanged@ == Outcome::Unchanged,
        Applied::Discarded@ == Outcome::Discarded,
{
}

} // verus!
