//! Visibility controller: the single source of truth for whether the
//! presentation surface is shown, together with the tray-label mirror that
//! must always carry the inverse-action label for the current state.

use vstd::prelude::*;

verus! {

#[derive(Clone, Copy, PartialEq, Eq, Structural, Debug)]
pub enum Visibility {
    Shown,
    Hidden,
}

/// Identifies which screen the presentation layer must render when the
/// surface is revealed by a hotkey.
#[derive(Clone, Copy, PartialEq, Eq, Structural, Debug)]
pub enum Screen {
    Find,
    Save,
}

/// The state a single toggle transitions to.
pub open spec fn toggled(v: Visibility) -> Visibility {
    match v {
        Visibility::Shown => Visibility::Hidden,
        Visibility::Hidden => Visibility::Shown,
    }
}

/// The inverse-action label that the tray mirror must show for a state:
/// `"Hide"` while the surface is shown, `"Show"` while it is hidden.
pub open spec fn label_for(v: Visibility) -> Seq<char> {
    match v {
        Visibility::Shown => "Hide"@,
        Visibility::Hidden => "Show"@,
    }
}

/// Instruction to the presentation layer: reveal the surface, render
/// `screen`, and write `label` to the tray mirror.
pub struct ShowEffect {
    pub screen: Screen,
    pub label: String,
}

/// Instruction to the presentation layer: conceal the surface and write
/// `label` to the tray mirror.
pub struct HideEffect {
    pub label: String,
}

/// Owns the visibility state and the text last handed to the tray mirror.
/// The two are only ever updated together, so a caller holding exclusive
/// access never observes an inconsistent pair.
pub struct VisibilityController {
    state: Visibility,
    mirror: String,
}

impl VisibilityController {
    /// The current visibility state.
    pub closed spec fn state(&self) -> Visibility {
        self.state
    }

    /// The text currently written to the tray-label mirror.
    pub closed spec fn mirror(&self) -> Seq<char> {
        self.mirror@
    }

    /// The mirror always carries the inverse-action label for the state.
    pub open spec fn wf(&self) -> bool {
        self.mirror() == label_for(self.state())
    }

    /// The surface starts hidden, so the mirror starts at `"Show"`.
    pub fn new() -> (r: Self)
        ensures
            r.state() == Visibility::Hidden,
            r.wf(),
    {
        VisibilityController { state: Visibility::Hidden, mirror: "Show".to_owned() }
    }

    /// The current visibility state, for callers that must branch on it.
    pub fn current(&self) -> (v: Visibility)
        ensures
            v == self.state(),
    {
        self.state
    }

    /// Flips the state and returns the new state together with the label
    /// that must be written to the mirror. Never a no-op: each call is one
    /// full transition.
    pub fn toggle(&mut self) -> (r: (Visibility, String))
        ensures
            final(self).wf(),
            final(self).state() == toggled(old(self).state()),
            r.0 == final(self).state(),
            r.1@ == label_for(final(self).state()),
    {
        match self.state {
            Visibility::Shown => {
                self.state = Visibility::Hidden;
                self.mirror = "Show".to_owned();
                (Visibility::Hidden, "Show".to_owned())
            },
            Visibility::Hidden => {
                self.state = Visibility::Shown;
                self.mirror = "Hide".to_owned();
                (Visibility::Shown, "Hide".to_owned())
            },
        }
    }

    /// Forces the state to `Shown` from either starting state and returns
    /// the effect the presentation layer must apply: render `screen` and
    /// set the mirror to `"Hide"`.
    pub fn show_for_screen(&mut self, screen: Screen) -> (eff: ShowEffect)
        ensures
            final(self).state() == Visibility::Shown,
            final(self).wf(),
            eff.screen == screen,
            eff.label@ == label_for(Visibility::Shown),
    {
        self.state = Visibility::Shown;
        self.mirror = "Hide".to_owned();
        ShowEffect { screen, label: "Hide".to_owned() }
    }

    /// Forces the state to `Hidden` from either starting state; hiding an
    /// already-hidden surface still succeeds with the same effect.
    pub fn hide_surface(&mut self) -> (eff: HideEffect)
        ensures
            final(self).state() == Visibility::Hidden,
            final(self).wf(),
            eff.label@ == label_for(Visibility::Hidden),
    {
        self.state = Visibility::Hidden;
        self.mirror = "Show".to_owned();
        HideEffect { label: "Show".to_owned() }
    }
}

/// From `Hidden`, one toggle yields `Shown` with the mirror label `"Hide"`;
/// a second toggle returns to `Hidden` with the label `"Show"`. Toggling is
/// an involution on either state.
pub proof fn lemma_toggle_round_trip()
    ensures
        toggled(Visibility::Hidden) == Visibility::Shown,
        label_for(Visibility::Shown) == "Hide"@,
        toggled(Visibility::Shown) == Visibility::Hidden,
        label_for(Visibility::Hidden) == "Show"@,
        forall|v: Visibility| #[trigger] toggled(toggled(v)) == v,
{
    assert forall|v: Visibility| #[trigger] toggled(toggled(v)) == v by {
        match v {
            Visibility::Shown => {},
            Visibility::Hidden => {},
        }
    }
}

} // verus!
