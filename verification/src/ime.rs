//! Text that an input method is still working on.
//!
//! While a composition is open its keys belong to the input method; the text that it will become
//! is drawn by the window, at the cursor.
use vstd::prelude::*;

verus! {

/// Text that is not committed yet. `target` is the range of bytes that is being converted.
#[derive(Clone, Debug, PartialEq, Eq)]
pub struct Preedit {
    pub text: String,
    pub target: Option<(usize, usize)>,
}

impl Default for Preedit {
    /// No text.
    fn default() -> (preedit: Preedit)
        ensures
            preedit.text@ == Seq::<char>::empty(),
            preedit.target is None,
    {
        Preedit { text: String::new(), target: None }
    }
}

impl Preedit {
    /// Whether there is nothing to draw.
    #[must_use]
    pub fn is_empty(&self) -> (empty: bool)
        ensures
            empty == (self.text@.len() == 0),
    {
        self.text.as_str().is_empty()
    }
}

/// A [`Composition`], by contents.
#[verifier::ext_equal]
pub ghost struct CompositionState {
    pub composing: bool,
    pub text: Seq<char>,
    pub target: Option<(usize, usize)>,
}

impl CompositionState {
    /// No composition.
    pub open spec fn none() -> CompositionState {
        CompositionState { composing: false, text: Seq::empty(), target: None }
    }

    /// A composition that is open from here on. The text that there is stays until other text comes.
    pub open spec fn begun(self) -> CompositionState {
        CompositionState { composing: true, ..self }
    }

    /// A composition with this text. Text that is not empty is part of a composition, even if
    /// nothing was said of its beginning: what follows a partial commit is.
    pub open spec fn with(self, text: Seq<char>, target: Option<(usize, usize)>) -> CompositionState {
        CompositionState { composing: self.composing || text.len() > 0, text, target }
    }
}

/// The composition that is open, if one is.
#[derive(Debug)]
pub struct Composition {
    composing: bool,
    preedit: Preedit,
}

impl View for Composition {
    type V = CompositionState;

    closed spec fn view(&self) -> CompositionState {
        CompositionState {
            composing: self.composing,
            text: self.preedit.text@,
            target: self.preedit.target,
        }
    }
}

impl Default for Composition {
    /// No composition.
    fn default() -> (composition: Composition)
        ensures
            composition@ == CompositionState::none(),
    {
        Composition { composing: false, preedit: Preedit::default() }
    }
}

impl Composition {
    /// Whether a composition is open, so that keys are not for Neovim.
    pub fn composing(&self) -> (composing: bool)
        ensures
            composing == self@.composing,
    {
        self.composing
    }

    /// The text to draw at the cursor.
    pub fn preedit(&self) -> (preedit: &Preedit)
        ensures
            preedit.text@ == self@.text,
            preedit.target == self@.target,
    {
        &self.preedit
    }

    /// A composition begins. The text that there is stays until other text comes.
    pub fn begin(&mut self)
        ensures
            final(self)@ == old(self)@.begun(),
    {
        self.composing = true;
    }

    /// The text has changed.
    pub fn set_preedit(&mut self, text: String, target: Option<(usize, usize)>)
        ensures
            final(self)@ == old(self)@.with(text@, target),
    {
        self.composing = self.composing || !text.as_str().is_empty();
        self.preedit = Preedit { text, target };
    }

    /// The text was committed, or the composition has ended. Nothing is left of it.
    pub fn clear(&mut self)
        ensures
            final(self)@ == CompositionState::none(),
    {
        self.composing = false;
        self.preedit = Preedit::default();
    }
}

// ---------------------------------------------------------------------------
// Laws
// ---------------------------------------------------------------------------

/// The text to draw and its target are those that came last, whatever was there before.
pub proof fn law_the_latest_text_is_drawn(
    state: CompositionState,
    text: Seq<char>,
    target: Option<(usize, usize)>,
)
    ensures
        state.with(text, target).text == text,
        state.with(text, target).target == target,
{
}

/// A composition is open from its beginning or from its first text on, no text that comes closes
/// it, and beginning it changes nothing else.
pub proof fn law_when_a_composition_is_open(
    state: CompositionState,
    text: Seq<char>,
    target: Option<(usize, usize)>,
)
    ensures
        state.begun() == (CompositionState {
            composing: true,
            text: state.text,
            target: state.target,
        }),
        text.len() > 0 ==> state.with(text, target).composing,
        text.len() == 0 ==> state.with(text, target).composing == state.composing,
{
}

/// Without a composition there is nothing to draw.
pub proof fn law_no_composition_has_no_text()
    ensures
        !CompositionState::none().composing,
        CompositionState::none().text.len() == 0,
        CompositionState::none().target is None,
{
}

} // verus!
