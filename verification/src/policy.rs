//! When Neovim may be started.
//!
//! Windows may ask whether the session can end, take the question back, or confirm it; the
//! application may exit on its own. A question is reversible, an exit is not. Both inhibit the
//! start of a child process, and so does a system that is shutting down without having asked.
use vstd::prelude::*;

verus! {

/// The bit of [`SpawnPolicy::state`] that says that an end of the session was asked about.
pub const QUERYING: u8 = 1;

/// The bit of [`SpawnPolicy::state`] that says that the application is exiting.
pub const EXITING: u8 = 2;

/// Starting Neovim is inhibited. This is no failed start: what was to be started stays pending.
#[derive(Clone, Copy, Debug, PartialEq, Eq, Structural)]
pub struct SpawnCancelled;

impl SpawnCancelled {
    /// The sentence for logs.
    pub fn message(&self) -> (text: String)
        ensures
            text@ == "nvim spawning is inhibited by shutdown"@,
    {
        "nvim spawning is inhibited by shutdown".to_owned()
    }
}

/// What a [`SpawnPolicy`] remembers.
pub ghost struct Inhibition {
    pub querying: bool,
    pub exiting: bool,
}

/// The notifications that change a [`SpawnPolicy`].
pub ghost enum Notice {
    Query,
    Cancel,
    Exit,
}

impl Inhibition {
    /// Nothing has been asked and nothing is exiting.
    pub open spec fn none() -> Inhibition {
        Inhibition { querying: false, exiting: false }
    }

    /// Whether starting a child is inhibited, whatever the system says.
    pub open spec fn inhibits(self) -> bool {
        self.querying || self.exiting
    }

    /// What a notification makes of it.
    pub open spec fn after(self, notice: Notice) -> Inhibition {
        match notice {
            Notice::Query => Inhibition { querying: true, ..self },
            Notice::Cancel => Inhibition { querying: false, ..self },
            Notice::Exit => Inhibition { exiting: true, ..self },
        }
    }

    /// What a series of notifications makes of it.
    pub open spec fn after_all(self, notices: Seq<Notice>) -> Inhibition
        decreases notices.len(),
    {
        if notices.len() == 0 {
            self
        } else {
            self.after_all(notices.drop_last()).after(notices.last())
        }
    }

    /// The bits that stand for it.
    pub open spec fn bits(self) -> u8 {
        match (self.querying, self.exiting) {
            (false, false) => 0,
            (true, false) => QUERYING,
            (false, true) => EXITING,
            (true, true) => 3,
        }
    }
}

impl Inhibition {
    /// What becomes of guarded startup work.
    pub open spec fn guards<T>(self, polled: Option<T>, system_shutting_down: bool) -> Guarded<T> {
        if self.inhibits() || system_shutting_down {
            Guarded::Cancelled(SpawnCancelled)
        } else if polled is Some {
            Guarded::Finished(polled->0)
        } else {
            Guarded::Pending
        }
    }
}

/// The shared cancellation policy. `system_shutting_down` asks the system whether it is shutting
/// down; it is asked anew by each [`SpawnPolicy::check`].
pub struct SpawnPolicy<P> {
    state: u8,
    system_shutting_down: P,
}

/// What became of guarded startup work. See [`SpawnPolicy::run`].
#[derive(Debug, PartialEq, Eq)]
pub enum Guarded<T> {
    /// The work goes on.
    Pending,
    /// The work is to be dropped, and its result with it.
    Cancelled(SpawnCancelled),
    /// The work is done.
    Finished(T),
}

impl<P> View for SpawnPolicy<P> {
    type V = Inhibition;

    closed spec fn view(&self) -> Inhibition {
        Inhibition {
            querying: self.state & QUERYING != 0,
            exiting: self.state & EXITING != 0,
        }
    }
}

impl<P> SpawnPolicy<P> {
    #[verifier::type_invariant]
    spec fn only_known_bits(self) -> bool {
        self.state < 4
    }

    /// The question that the policy puts to the system.
    pub closed spec fn probe(self) -> P {
        self.system_shutting_down
    }

    /// A policy that inhibits nothing yet.
    pub fn new(system_shutting_down: P) -> (policy: Self)
        ensures
            policy@ == Inhibition::none(),
            policy.probe() == system_shutting_down,
    {
        proof {
            assert(0u8 & QUERYING == 0 && 0u8 & EXITING == 0) by (bit_vector);
        }
        SpawnPolicy { state: 0, system_shutting_down }
    }

    /// The policy that a word of bits stands for. Bits without a meaning are ignored.
    pub fn restore(state: u8, system_shutting_down: P) -> (policy: Self)
        ensures
            policy@.querying == (state & QUERYING != 0),
            policy@.exiting == (state & EXITING != 0),
            policy.probe() == system_shutting_down,
    {
        let known = state & (QUERYING | EXITING);
        proof {
            assert((state & (1u8 | 2u8)) < 4) by (bit_vector);
            assert((state & (1u8 | 2u8)) & 1 == state & 1) by (bit_vector);
            assert((state & (1u8 | 2u8)) & 2 == state & 2) by (bit_vector);
        }
        SpawnPolicy { state: known, system_shutting_down }
    }

    /// The word of bits that stands for the policy. [`SpawnPolicy::restore`] reads it back.
    pub fn state(&self) -> (state: u8)
        ensures
            state == self@.bits(),
            (state & QUERYING != 0) == self@.querying,
            (state & EXITING != 0) == self@.exiting,
    {
        proof {
            use_type_invariant(self);
            lemma_small_words(self.state);
        }
        self.state
    }

    /// The system asks whether the session may end.
    pub fn query_end_session(&mut self)
        ensures
            final(self)@ == old(self)@.after(Notice::Query),
            final(self).probe() == old(self).probe(),
    {
        proof {
            use_type_invariant(&*self);
            let s = self.state;
            assert(s < 4 ==> (s | 1u8) < 4) by (bit_vector);
            assert((s | 1u8) & 1 != 0) by (bit_vector);
            assert((s | 1u8) & 2 == s & 2) by (bit_vector);
        }
        self.state = self.state | QUERYING;
    }

    /// The session does not end after all. This never takes an exit back, even one that happened
    /// while the question was open.
    pub fn cancel_end_session(&mut self)
        ensures
            final(self)@ == old(self)@.after(Notice::Cancel),
            final(self).probe() == old(self).probe(),
    {
        proof {
            use_type_invariant(&*self);
            let s = self.state;
            assert(s < 4 ==> (s & !1u8) < 4) by (bit_vector);
            assert((s & !1u8) & 1 == 0) by (bit_vector);
            assert((s & !1u8) & 2 == s & 2) by (bit_vector);
        }
        self.state = self.state & !QUERYING;
    }

    /// The application exits, for good.
    pub fn exit(&mut self)
        ensures
            final(self)@ == old(self)@.after(Notice::Exit),
            final(self).probe() == old(self).probe(),
    {
        proof {
            use_type_invariant(&*self);
            let s = self.state;
            assert(s < 4 ==> (s | 2u8) < 4) by (bit_vector);
            assert((s | 2u8) & 2 != 0) by (bit_vector);
            assert((s | 2u8) & 1 == s & 1) by (bit_vector);
        }
        self.state = self.state | EXITING;
    }

    /// Whether the application is exiting.
    pub fn is_exiting(&self) -> (exiting: bool)
        ensures
            exiting == self@.exiting,
    {
        self.state & EXITING != 0
    }

    /// Whether a child may be started, given what the system said of itself.
    pub fn verdict(&self, system_shutting_down: bool) -> (r: Result<(), SpawnCancelled>)
        ensures
            r is Ok <==> !self@.inhibits() && !system_shutting_down,
    {
        proof {
            use_type_invariant(self);
            lemma_small_words(self.state);
        }
        if self.state == 0 && !system_shutting_down {
            Ok(())
        } else {
            Err(SpawnCancelled)
        }
    }

    /// One look at startup work that is interrupted as soon as starting is inhibited. `polled` is
    /// what the work gave, if it is done. The policy is looked at after the work was, so a result
    /// that came in while an inhibition did is dropped; an inhibition has the last word.
    pub fn run<T>(&self, polled: Option<T>, system_shutting_down: bool) -> (r: Guarded<T>)
        ensures
            r == (if self@.inhibits() || system_shutting_down {
                Guarded::Cancelled(SpawnCancelled)
            } else {
                match polled {
                    Some(result) => Guarded::Finished(result),
                    None => Guarded::Pending,
                }
            }),
            r == self@.guards(polled, system_shutting_down),
    {
        if let Err(cancelled) = self.verdict(system_shutting_down) {
            return Guarded::Cancelled(cancelled);
        }
        match polled {
            Some(result) => Guarded::Finished(result),
            None => Guarded::Pending,
        }
    }
}

impl<P: Fn() -> bool> SpawnPolicy<P> {
    /// Whether a child may be started now. The system is asked unless the policy inhibits starting
    /// already.
    pub fn check(&self) -> (r: Result<(), SpawnCancelled>)
        requires
            call_requires(self.probe(), ()),
        ensures
            self@.inhibits() ==> r is Err,
            r is Ok ==> call_ensures(self.probe(), (), false),
            !self@.inhibits() && r is Err ==> call_ensures(self.probe(), (), true),
    {
        if self.verdict(false).is_err() {
            return Err(SpawnCancelled);
        }
        self.verdict((self.system_shutting_down)())
    }
}

/// What the bits of the words that a policy can hold say.
proof fn lemma_small_words(s: u8)
    requires
        s < 4,
    ensures
        s == (Inhibition { querying: s & QUERYING != 0, exiting: s & EXITING != 0 }).bits(),
{
    assert(s < 4 ==> (s == 0 <==> s & 1 == 0 && s & 2 == 0)) by (bit_vector);
    assert(s < 4 ==> (s == 1 <==> s & 1 != 0 && s & 2 == 0)) by (bit_vector);
    assert(s < 4 ==> (s == 2 <==> s & 1 == 0 && s & 2 != 0)) by (bit_vector);
    assert(s < 4 ==> (s == 3 <==> s & 1 != 0 && s & 2 != 0)) by (bit_vector);
}

// ---------------------------------------------------------------------------
// Laws
// ---------------------------------------------------------------------------

/// An exit is permanent: whatever is notified afterwards, the application stays exiting and
/// starting stays inhibited.
pub proof fn law_exit_is_permanent(start: Inhibition, notices: Seq<Notice>)
    requires
        start.exiting,
    ensures
        start.after_all(notices).exiting,
        start.after_all(notices).inhibits(),
    decreases notices.len(),
{
    if notices.len() > 0 {
        law_exit_is_permanent(start, notices.drop_last());
    }
}

/// An exit anywhere in a series of notifications leaves the application exiting, wherever the
/// others fall: no cancellation that races it can take it back.
pub proof fn law_no_order_loses_an_exit(start: Inhibition, notices: Seq<Notice>)
    requires
        notices.contains(Notice::Exit),
    ensures
        start.after_all(notices).exiting,
    decreases notices.len(),
{
    if notices.last() != Notice::Exit {
        let i = choose|i: int| 0 <= i < notices.len() && notices[i] == Notice::Exit;
        assert(notices.drop_last()[i] == Notice::Exit);
        law_no_order_loses_an_exit(start, notices.drop_last());
    }
}

/// Only an exit makes the application exit: questions and their cancellations never do.
pub proof fn law_only_an_exit_exits(start: Inhibition, notices: Seq<Notice>)
    requires
        !start.exiting,
        !notices.contains(Notice::Exit),
    ensures
        !start.after_all(notices).exiting,
    decreases notices.len(),
{
    if notices.len() > 0 {
        let front = notices.drop_last();
        assert forall|n: Notice| front.contains(n) implies notices.contains(n) by {
            let i = choose|i: int| 0 <= i < front.len() && front[i] == n;
            assert(notices[i] == n);
        }
        assert(notices.contains(notices.last()));
        law_only_an_exit_exits(start, front);
    }
}

/// A question that is taken back resumes: where the application is not exiting, a cancellation
/// leaves nothing inhibited.
pub proof fn law_cancelled_query_resumes(start: Inhibition)
    requires
        !start.exiting,
    ensures
        start.after(Notice::Query).inhibits(),
        !start.after(Notice::Query).exiting,
        start.after(Notice::Query).after(Notice::Cancel) == Inhibition::none(),
        !start.after(Notice::Query).after(Notice::Cancel).inhibits(),
{
}

/// The words that stand for policies stand for one policy each.
pub proof fn law_words_determine_policies(a: Inhibition, b: Inhibition)
    ensures
        a.bits() == b.bits() ==> a == b,
{
}

/// Each notification changes its own half of the policy and leaves the other as it is.
pub proof fn law_each_notice_changes_its_half(start: Inhibition)
    ensures
        start.after(Notice::Query).querying,
        start.after(Notice::Query).exiting == start.exiting,
        !start.after(Notice::Cancel).querying,
        start.after(Notice::Cancel).exiting == start.exiting,
        start.after(Notice::Exit).exiting,
        start.after(Notice::Exit).querying == start.querying,
{
}

/// A policy inhibits exactly while a question is open or the application is exiting, and one that
/// begins does neither.
pub proof fn law_what_inhibits(state: Inhibition)
    ensures
        state.inhibits() <==> state.querying || state.exiting,
        !Inhibition::none().querying,
        !Inhibition::none().exiting,
{
}

/// The lowest bit of the word that stands for a policy says that a question is open, the next that
/// the application is exiting, and no other bit is set.
pub proof fn law_the_bits_of_a_policy(state: Inhibition)
    ensures
        state.bits() == (if state.querying {
            1int
        } else {
            0
        }) + (if state.exiting {
            2int
        } else {
            0
        }),
        QUERYING == 1,
        EXITING == 2,
{
}

/// Startup work gives its result exactly if it is done and nothing inhibits it: a question, an exit
/// and a system that shuts down each cancel it, done or not.
pub proof fn law_inhibited_work_gives_no_result<T>(state: Inhibition, result: T, down: bool)
    ensures
        state.querying || state.exiting || down ==> state.guards(Some(result), down)
            == Guarded::<T>::Cancelled(SpawnCancelled) && state.guards(None::<T>, down)
            == Guarded::<T>::Cancelled(SpawnCancelled),
        !state.querying && !state.exiting && !down ==> state.guards(Some(result), down)
            == Guarded::Finished(result) && state.guards(None::<T>, down) == Guarded::<T>::Pending,
{
}

} // verus!
