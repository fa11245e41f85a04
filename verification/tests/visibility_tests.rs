use snippet_store::visibility::{Screen, Visibility, VisibilityController};

#[test]
fn starts_hidden() {
    let v = VisibilityController::new();
    assert_eq!(v.current(), Visibility::Hidden);
}

#[test]
fn toggle_round_trip() {
    let mut v = VisibilityController::new();
    let (s1, l1) = v.toggle();
    assert_eq!(s1, Visibility::Shown);
    assert_eq!(l1, "Hide");
    let (s2, l2) = v.toggle();
    assert_eq!(s2, Visibility::Hidden);
    assert_eq!(l2, "Show");
}

#[test]
fn show_for_screen_forces_shown_from_either_state() {
    let mut v = VisibilityController::new();
    assert_eq!(v.current(), Visibility::Hidden);
    let eff = v.show_for_screen(Screen::Find);
    assert_eq!(v.current(), Visibility::Shown);
    assert_eq!(eff.screen, Screen::Find);
    assert_eq!(eff.label, "Hide");
    let eff2 = v.show_for_screen(Screen::Find);
    assert_eq!(v.current(), Visibility::Shown);
    assert_eq!(eff2.screen, Screen::Find);
    assert_eq!(eff2.label, "Hide");
}

#[test]
fn show_for_save_screen() {
    let mut v = VisibilityController::new();
    let eff = v.show_for_screen(Screen::Save);
    assert_eq!(v.current(), Visibility::Shown);
    assert_eq!(eff.screen, Screen::Save);
    assert_eq!(eff.label, "Hide");
}

#[test]
fn hide_forces_hidden_and_is_idempotent() {
    let mut v = VisibilityController::new();
    v.show_for_screen(Screen::Find);
    let eff = v.hide_surface();
    assert_eq!(v.current(), Visibility::Hidden);
    assert_eq!(eff.label, "Show");
    let eff2 = v.hide_surface();
    assert_eq!(v.current(), Visibility::Hidden);
    assert_eq!(eff2.label, "Show");
}
