//! Event router: the single dispatch point that turns each trigger event
//! into visibility-controller and repository calls and hands one effect
//! back to the presentation boundary. Dispatch itself never fails: a
//! repository failure degrades to an empty result or a reported miss.

use vstd::prelude::*;
use crate::snippet::{Snippet, views_of, search_spec};
use crate::store::{Store, inserted};
use crate::visibility::{Visibility, Screen, VisibilityController, toggled, label_for};

verus! {

/// One discrete external occurrence, consumed exactly once.
pub enum TriggerEvent {
    HotkeyFind,
    HotkeySave,
    TrayToggle,
    TrayQuit,
    UiSearch(String),
    UiSave(String, String),
    UiExplicitHide,
}

/// What the presentation boundary must do after one event was routed.
pub enum RouterEffect {
    /// Reveal the surface, render `screen`, write `label` to the tray mirror.
    Reveal { screen: Screen, label: String },
    /// Conceal the surface and write `label` to the tray mirror.
    Conceal { label: String },
    /// A tray toggle happened: apply `now` to the surface (centering it
    /// when it becomes shown) and write `label` to the tray mirror.
    Toggled { now: Visibility, label: String },
    /// Terminate the process immediately.
    Quit,
    /// Deliver these snippets as the result of a search; empty either when
    /// nothing matched or when the repository failed (failures are never
    /// surfaced as errors).
    SearchDone { snippets: Vec<Snippet> },
    /// A save was attempted; `ok` says whether it persisted. Reported for
    /// logging only, never surfaced to the caller.
    SaveDone { ok: bool },
}

/// Routes one trigger event. The hotkeys toggle between concealing a shown
/// surface and revealing their own screen; the tray toggles; the UI
/// commands search, save, or force-conceal. Only the save event may change
/// the store, and only the events shown below may change the visibility
/// state — each with its mirror label kept consistent.
pub fn route(ev: TriggerEvent, vis: &mut VisibilityController, store: &mut Store) -> (eff:
    RouterEffect)
    ensures
        old(vis).wf() ==> final(vis).wf(),
        match ev {
            TriggerEvent::HotkeyFind => {
                &&& final(store)@ == old(store)@
                &&& if old(vis).state() == Visibility::Shown {
                    &&& final(vis).state() == Visibility::Hidden
                    &&& eff matches RouterEffect::Conceal { label } && label@ == label_for(
                        Visibility::Hidden,
                    )
                } else {
                    &&& final(vis).state() == Visibility::Shown
                    &&& eff matches RouterEffect::Reveal { screen, label } && label@ == label_for(
                        Visibility::Shown,
                    ) && screen == Screen::Find
                }
            },
            TriggerEvent::HotkeySave => {
                &&& final(store)@ == old(store)@
                &&& if old(vis).state() == Visibility::Shown {
                    &&& final(vis).state() == Visibility::Hidden
                    &&& eff matches RouterEffect::Conceal { label } && label@ == label_for(
                        Visibility::Hidden,
                    )
                } else {
                    &&& final(vis).state() == Visibility::Shown
                    &&& eff matches RouterEffect::Reveal { screen, label } && label@ == label_for(
                        Visibility::Shown,
                    ) && screen == Screen::Save
                }
            },
            TriggerEvent::TrayToggle => {
                &&& final(store)@ == old(store)@
                &&& final(vis).state() == toggled(old(vis).state())
                &&& eff matches RouterEffect::Toggled { now, label } && now == final(vis).state()
                    && label@ == label_for(final(vis).state())
            },
            TriggerEvent::TrayQuit => {
                &&& final(store)@ == old(store)@
                &&& *final(vis) == *old(vis)
                &&& eff is Quit
            },
            TriggerEvent::UiSearch(q) => {
                &&& final(store)@ == old(store)@
                &&& *final(vis) == *old(vis)
                &&& eff matches RouterEffect::SearchDone { snippets } && (views_of(snippets@)
                    == search_spec(old(store)@, q@) || snippets@.len() == 0)
            },
            TriggerEvent::UiSave(title, content) => {
                &&& *final(vis) == *old(vis)
                &&& eff matches RouterEffect::SaveDone { ok } && if ok {
                    inserted(old(store)@, final(store)@, title@, content@)
                } else {
                    final(store)@ == old(store)@
                }
            },
            TriggerEvent::UiExplicitHide => {
                &&& final(store)@ == old(store)@
                &&& final(vis).state() == Visibility::Hidden
                &&& eff matches RouterEffect::Conceal { label } && label@ == label_for(
                    Visibility::Hidden,
                )
            },
        },
{
    match ev {
        TriggerEvent::HotkeyFind => {
            if vis.current() == Visibility::Shown {
                let e = vis.hide_surface();
                RouterEffect::Conceal { label: e.label }
            } else {
                let e = vis.show_for_screen(Screen::Find);
                RouterEffect::Reveal { screen: e.screen, label: e.label }
            }
        },
        TriggerEvent::HotkeySave => {
            if vis.current() == Visibility::Shown {
                let e = vis.hide_surface();
                RouterEffect::Conceal { label: e.label }
            } else {
                let e = vis.show_for_screen(Screen::Save);
                RouterEffect::Reveal { screen: e.screen, label: e.label }
            }
        },
        TriggerEvent::TrayToggle => {
            let (now, label) = vis.toggle();
            RouterEffect::Toggled { now, label }
        },
        TriggerEvent::TrayQuit => RouterEffect::Quit,
        TriggerEvent::UiSearch(q) => {
            match store.search(q.as_str()) {
                Ok(snippets) => RouterEffect::SearchDone { snippets },
                Err(_) => RouterEffect::SearchDone { snippets: Vec::new() },
            }
        },
        TriggerEvent::UiSave(title, content) => {
            match store.insert(title.as_str(), content.as_str()) {
                Ok(_) => RouterEffect::SaveDone { ok: true },
                Err(_) => RouterEffect::SaveDone { ok: false },
            }
        },
        TriggerEvent::UiExplicitHide => {
            let e = vis.hide_surface();
            RouterEffect::Conceal { label: e.label }
        },
    }
}

} // verus!
