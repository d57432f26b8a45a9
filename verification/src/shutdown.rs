//! What the editor window hears of the end of the session.
//!
//! The messages reach the window's procedure directly, not its queue, and the answer has to come at
//! once: nothing is waited for and no process is ended here.
use vstd::prelude::*;

use crate::policy::SpawnPolicy;

verus! {

/// The system asks whether the session may end (`WM_QUERYENDSESSION`).
pub const WM_QUERYENDSESSION: u32 = 0x11;

/// The session ends, or does not after all (`WM_ENDSESSION`).
pub const WM_ENDSESSION: u32 = 0x16;

/// The window is going away (`WM_NCDESTROY`).
pub const WM_NCDESTROY: u32 = 0x82;

/// What is to be done about a message.
#[derive(Clone, Copy, Debug, PartialEq, Eq, Structural)]
pub enum Answer {
    /// The controller is to be told that the policy has changed, and the message is answered with
    /// this.
    Changed(isize),
    /// The procedure is to be taken off the window, and the message to be passed on.
    Release,
    /// The message is to be passed on.
    Forward,
}

/// The notification that a message stands for, if it stands for one. The word that comes with
/// [`WM_ENDSESSION`] says whether the session really ends.
pub open spec fn notice(message: u32, wparam: usize) -> Option<crate::policy::Notice> {
    if message == WM_QUERYENDSESSION {
        Some(crate::policy::Notice::Query)
    } else if message == WM_ENDSESSION {
        if wparam != 0 {
            Some(crate::policy::Notice::Exit)
        } else {
            Some(crate::policy::Notice::Cancel)
        }
    } else {
        None
    }
}

/// The answer to a message. A question is answered with a yes: the session is never held up.
pub open spec fn answer(message: u32) -> Answer {
    if message == WM_QUERYENDSESSION {
        Answer::Changed(1)
    } else if message == WM_ENDSESSION {
        Answer::Changed(0)
    } else if message == WM_NCDESTROY {
        Answer::Release
    } else {
        Answer::Forward
    }
}

/// Handles a message to the window.
pub fn session_end_proc<P>(policy: &mut SpawnPolicy<P>, message: u32, wparam: usize) -> (r: Answer)
    ensures
        r == answer(message),
        final(policy)@ == (match notice(message, wparam) {
            Some(notice) => old(policy)@.after(notice),
            None => old(policy)@,
        }),
        final(policy).probe() == old(policy).probe(),
{
    if message == WM_QUERYENDSESSION {
        policy.query_end_session();
        Answer::Changed(1)
    } else if message == WM_ENDSESSION {
        if wparam != 0 {
            policy.exit();
        } else {
            policy.cancel_end_session();
        }
        Answer::Changed(0)
    } else if message == WM_NCDESTROY {
        Answer::Release
    } else {
        Answer::Forward
    }
}

// ---------------------------------------------------------------------------
// The procedure's hold on its data
// ---------------------------------------------------------------------------

/// What a [`Hook`] goes through.
pub ghost enum HookEvent {
    /// The guard is dropped and tries to take the procedure off the window; says whether it could.
    Dropped { removed: bool },
    /// The window is going away.
    Destroyed,
}

/// The procedure's hold on its data: whether the procedure is still on the window.
#[derive(Debug, PartialEq, Eq)]
pub struct Hook {
    installed: bool,
}

impl View for Hook {
    type V = bool;

    closed spec fn view(&self) -> bool {
        self.installed
    }
}

/// Whether the procedure is on the window after an event.
pub open spec fn still_installed(installed: bool, event: HookEvent) -> bool {
    match event {
        HookEvent::Dropped { removed } => installed && !removed,
        HookEvent::Destroyed => false,
    }
}

/// Whether an event lets the data go.
pub open spec fn lets_go(installed: bool, event: HookEvent) -> bool {
    installed && !still_installed(installed, event)
}

/// How many times a series of events lets the data go.
pub open spec fn times_let_go(installed: bool, events: Seq<HookEvent>) -> nat
    decreases events.len(),
{
    if events.len() == 0 {
        0
    } else {
        (if lets_go(installed, events[0]) {
            1nat
        } else {
            0nat
        }) + times_let_go(still_installed(installed, events[0]), events.drop_first())
    }
}

impl Hook {
    /// The procedure was put on the window, or could not be. One that could not be lets the data go
    /// at once.
    pub fn install(installed: bool) -> (hook: Option<Hook>)
        ensures
            hook is Some <==> installed,
            hook matches Some(hook) ==> hook@,
    {
        if installed {
            Some(Hook { installed: true })
        } else {
            None
        }
    }

    /// Whether the procedure is on the window, so that a guard that is dropped has to take it off.
    pub fn is_installed(&self) -> (installed: bool)
        ensures
            installed == self@,
    {
        self.installed
    }

    /// Handles a message to the window. A procedure that is off the window hears of none: the policy
    /// stays as it is, and the message is passed on.
    pub fn on_message<P>(&self, policy: &mut SpawnPolicy<P>, message: u32, wparam: usize) -> (r:
        Answer)
        ensures
            r == (if self@ {
                answer(message)
            } else {
                Answer::Forward
            }),
            final(policy)@ == (match notice(message, wparam) {
                Some(notice) if self@ => old(policy)@.after(notice),
                _ => old(policy)@,
            }),
            final(policy).probe() == old(policy).probe(),
    {
        if self.installed {
            session_end_proc(policy, message, wparam)
        } else {
            Answer::Forward
        }
    }

    /// The guard was dropped and has tried to take the procedure off the window. Says whether the
    /// data is to be let go: a procedure that could not be taken off still needs it.
    pub fn on_dropped(&mut self, removed: bool) -> (release: bool)
        ensures
            final(self)@ == still_installed(old(self)@, HookEvent::Dropped { removed }),
            release == lets_go(old(self)@, HookEvent::Dropped { removed }),
    {
        if self.installed && removed {
            self.installed = false;
            true
        } else {
            false
        }
    }

    /// The window is going away. Says whether the data is to be let go.
    pub fn on_destroyed(&mut self) -> (release: bool)
        ensures
            final(self)@ == still_installed(old(self)@, HookEvent::Destroyed),
            release == lets_go(old(self)@, HookEvent::Destroyed),
    {
        let release = self.installed;
        self.installed = false;
        release
    }
}

// ---------------------------------------------------------------------------
// Laws
// ---------------------------------------------------------------------------

/// The messages of a session that does not end leave a policy that was not exiting as it was before
/// the question: starting is inhibited only in between.
pub proof fn law_a_cancelled_shutdown_leaves_no_trace(
    start: crate::policy::Inhibition,
    wparam: usize,
)
    requires
        !start.exiting,
    ensures
        ({
            let asked = start.after(notice(WM_QUERYENDSESSION, wparam)->0);
            &&& asked.inhibits() && !asked.exiting
            &&& !asked.after(notice(WM_ENDSESSION, 0)->0).inhibits()
        }),
{
}

/// A session end that was confirmed stays confirmed: no later message to the window can let a
/// process be started again.
pub proof fn law_a_confirmed_shutdown_is_final(
    start: crate::policy::Inhibition,
    confirmation: usize,
    later: Seq<crate::policy::Notice>,
)
    requires
        confirmation != 0,
    ensures
        start.after(notice(WM_ENDSESSION, confirmation)->0).after_all(later).exiting,
        start.after(notice(WM_ENDSESSION, confirmation)->0).after_all(later).inhibits(),
{
    crate::policy::law_exit_is_permanent(
        start.after(notice(WM_ENDSESSION, confirmation)->0),
        later,
    );
}

/// The data is let go at most once, whatever happens to the guard and the window and in whatever
/// order; and once the window has gone away, it has been.
pub proof fn law_the_data_is_let_go_once(events: Seq<HookEvent>)
    ensures
        times_let_go(true, events) <= 1,
        events.contains(HookEvent::Destroyed) ==> times_let_go(true, events) == 1,
    decreases events.len(),
{
    if events.len() > 0 {
        let rest = events.drop_first();
        if still_installed(true, events[0]) {
            law_the_data_is_let_go_once(rest);
            if events.contains(HookEvent::Destroyed) {
                let i = choose|i: int| 0 <= i < events.len() && events[i] == HookEvent::Destroyed;
                assert(rest[i - 1] == HookEvent::Destroyed);
            }
        } else {
            lemma_what_is_gone_stays_gone(rest);
        }
    }
}

/// Data that was let go is not let go again.
proof fn lemma_what_is_gone_stays_gone(events: Seq<HookEvent>)
    ensures
        times_let_go(false, events) == 0,
    decreases events.len(),
{
    if events.len() > 0 {
        lemma_what_is_gone_stays_gone(events.drop_first());
    }
}

/// The messages by their system numbers: the question, the end that is confirmed by any word but
/// zero, the end that is taken back, and no other message is a notification.
pub proof fn law_messages_are_known_by_number(message: u32, wparam: usize)
    ensures
        notice(0x11, wparam) == Some(crate::policy::Notice::Query),
        wparam != 0 ==> notice(0x16, wparam) == Some(crate::policy::Notice::Exit),
        notice(0x16, 0) == Some(crate::policy::Notice::Cancel),
        message != 0x11 && message != 0x16 ==> notice(message, wparam) is None,
{
}

/// The answers by the messages' system numbers: a question is answered with a yes, an end with zero,
/// a window that goes away takes the procedure with it, and every other message is passed on.
pub proof fn law_answers_are_known_by_number(message: u32)
    ensures
        answer(0x11) == Answer::Changed(1),
        answer(0x16) == Answer::Changed(0),
        answer(0x82) == Answer::Release,
        message != 0x11 && message != 0x16 && message != 0x82 ==> answer(message)
            == Answer::Forward,
{
}

/// The procedure comes off the window when the window goes away, or when a guard that is dropped
/// could take it off, and never back on; and its data is let go just then.
pub proof fn law_when_the_procedure_comes_off(installed: bool)
    ensures
        !still_installed(installed, HookEvent::Destroyed),
        !still_installed(installed, HookEvent::Dropped { removed: true }),
        still_installed(installed, HookEvent::Dropped { removed: false }) == installed,
        lets_go(installed, HookEvent::Destroyed) == installed,
        lets_go(installed, HookEvent::Dropped { removed: true }) == installed,
        !lets_go(installed, HookEvent::Dropped { removed: false }),
{
}

} // verus!
