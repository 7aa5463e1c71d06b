#![allow(non_snake_case)]

use kestrel_input::catalog::{Namespace, KMB, KMK, KSK};
use kestrel_input::input::{Action, InputState};

#[test]
fn pressTest1() {
    let mut inpState = InputState::new();

    inpState.apply(Namespace::Standard, KSK::Z as usize, Action::Press);

    assert_eq!(inpState.isStandardPressed(KSK::Z as u64), true);
}

#[test]
fn pressTest2() {
    let mut inpState = InputState::new();

    inpState.apply(Namespace::Standard, KSK::Z as usize, Action::Press);

    assert_eq!(inpState.isStandardPressed(KSK::Z as u64), true);

    inpState.apply(Namespace::Standard, KSK::Z as usize, Action::Release);

    assert_eq!(inpState.isStandardPressed(KSK::Z as u64), false);
}

#[test]
fn heldTest1() {
    let mut inpState = InputState::new();

    inpState.apply(Namespace::Standard, KSK::Z as usize, Action::Repeat);

    assert_eq!(inpState.isStandardHeld(KSK::Z as u64), true);
}

#[test]
fn heldTest2() {
    let mut inpState = InputState::new();

    inpState.apply(Namespace::Standard, KSK::Z as usize, Action::Repeat);

    assert_eq!(inpState.isStandardHeld(KSK::Z as u64), true);

    inpState.apply(Namespace::Standard, KSK::Z as usize, Action::Release);

    assert_eq!(inpState.isStandardHeld(KSK::Z as u64), false);
}

#[test]
fn mousePressTest() {
    let mut inpState = InputState::new();

    inpState.apply(Namespace::Mouse, KMB::M1 as usize, Action::Press);

    assert_eq!(inpState.isMouseButtonPressed(KMB::M1 as u16), true);

    inpState.apply(Namespace::Mouse, KMB::M1 as usize, Action::Release);

    assert_eq!(inpState.isMouseButtonPressed(KMB::M1 as u16), false);
}

#[test]
fn mouseHeldTest() {
    let mut inpState = InputState::new();

    inpState.apply(Namespace::Mouse, KMB::M1 as usize, Action::Repeat);

    assert_eq!(inpState.isMouseButtonHeld(KMB::M1 as u16), true);

    inpState.apply(Namespace::Mouse, KMB::M1 as usize, Action::Release);

    assert_eq!(inpState.isMouseButtonHeld(KMB::M1 as u16), false);
}

fn snapshot(s: &mut InputState) -> Vec<bool> {
    let mut out = Vec::new();
    for k in 0..46u64 {
        out.push(s.isStandardPressed(k));
        out.push(s.isStandardHeld(k));
    }
    for k in 0..4u32 {
        out.push(s.isModifierPressed(k));
        out.push(s.isModifierHeld(k));
    }
    for k in 0..10u16 {
        out.push(s.isMouseButtonPressed(k));
        out.push(s.isMouseButtonHeld(k));
    }
    out
}

#[test]
fn new_state_has_every_key_up() {
    let mut s = InputState::new();
    assert!(snapshot(&mut s).iter().all(|b| !*b));
}

#[test]
fn press_sets_pressed_not_held() {
    let mut s = InputState::new();
    s.apply(Namespace::Standard, KSK::A as usize, Action::Press);
    assert!(s.isStandardPressed(0));
    assert!(!s.isStandardHeld(0));
}

#[test]
fn press_twice_is_press_once() {
    let mut once = InputState::new();
    once.apply(Namespace::Standard, 7, Action::Press);
    let mut twice = InputState::new();
    twice.apply(Namespace::Standard, 7, Action::Press);
    twice.apply(Namespace::Standard, 7, Action::Press);
    assert_eq!(snapshot(&mut once), snapshot(&mut twice));
}

#[test]
fn press_on_held_key_keeps_it_held() {
    let mut s = InputState::new();
    s.apply(Namespace::Standard, 3, Action::Press);
    s.apply(Namespace::Standard, 3, Action::Repeat);
    s.apply(Namespace::Standard, 3, Action::Press);
    assert!(s.isStandardPressed(3));
    assert!(s.isStandardHeld(3));
}

#[test]
fn press_then_repeat_is_pressed_and_held() {
    let mut s = InputState::new();
    s.apply(Namespace::Modifier, KMK::RControl as usize, Action::Press);
    s.apply(Namespace::Modifier, KMK::RControl as usize, Action::Repeat);
    assert!(s.isModifierPressed(3));
    assert!(s.isModifierHeld(3));
}

#[test]
fn repeat_without_press_promotes_to_held() {
    let mut s = InputState::new();
    s.apply(Namespace::Mouse, 9, Action::Repeat);
    assert!(s.isMouseButtonHeld(9));
    assert!(s.isMouseButtonPressed(9));
}

#[test]
fn release_clears_both_flags_and_twice_is_once() {
    let mut s = InputState::new();
    s.apply(Namespace::Standard, 45, Action::Press);
    s.apply(Namespace::Standard, 45, Action::Repeat);
    s.apply(Namespace::Standard, 45, Action::Release);
    assert!(!s.isStandardPressed(45));
    assert!(!s.isStandardHeld(45));
    let before = snapshot(&mut s);
    s.apply(Namespace::Standard, 45, Action::Release);
    assert_eq!(snapshot(&mut s), before);
}

#[test]
fn repeat_many_times_equals_once() {
    let mut once = InputState::new();
    once.apply(Namespace::Standard, 12, Action::Press);
    once.apply(Namespace::Standard, 12, Action::Repeat);
    let mut many = InputState::new();
    many.apply(Namespace::Standard, 12, Action::Press);
    for _ in 0..5 {
        many.apply(Namespace::Standard, 12, Action::Repeat);
    }
    assert_eq!(snapshot(&mut once), snapshot(&mut many));
}

#[test]
fn namespaces_are_independent() {
    let mut s = InputState::new();
    s.apply(Namespace::Standard, 0, Action::Press);
    s.apply(Namespace::Standard, 0, Action::Repeat);
    assert!(s.isStandardPressed(0));
    assert!(!s.isModifierPressed(0));
    assert!(!s.isModifierHeld(0));
    assert!(!s.isMouseButtonPressed(0));
    assert!(!s.isMouseButtonHeld(0));
}

#[test]
fn other_keys_are_untouched() {
    let mut s = InputState::new();
    s.apply(Namespace::Standard, 10, Action::Press);
    assert!(!s.isStandardPressed(9));
    assert!(!s.isStandardPressed(11));
}

#[test]
fn catalog_ids_follow_declaration_order() {
    assert_eq!(KSK::A.id(), 0);
    assert_eq!(KSK::Z.id(), 25);
    assert_eq!(KSK::ZERO.id(), 26);
    assert_eq!(KSK::NUMPAD_ZERO.id(), 36);
    assert_eq!(KSK::NUMPAD_NINE.id(), 45);
    assert_eq!(KMK::LShift.id(), 0);
    assert_eq!(KMK::RControl.id(), 3);
    assert_eq!(KMB::M1.id(), 0);
    assert_eq!(KMB::M10.id(), 9);
    assert_eq!(KSK::Z.id(), KSK::Z as u64);
    assert_eq!(Namespace::Standard.key_count(), 46);
    assert_eq!(Namespace::Modifier.key_count(), 4);
    assert_eq!(Namespace::Mouse.key_count(), 10);
}
