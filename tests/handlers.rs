use std::cell::Cell;

use keyboard_handlers::dispatch::next_phase;
use keyboard_handlers::implementors::KeyHandler;
use keyboard_handlers::uievents_code::KeyboardEventCode;
use keyboard_handlers::KeyHandler as KeyHandlerTrait;
use keyboard_handlers::Discipline::{Primitive, Simplified};
use keyboard_handlers::KeyEventKind::{Down, Press, Up};
use keyboard_handlers::{resolve, Discipline, KeyError, KeyEvent, KeyEventKind, Registry};

/// Counters for the three callbacks.
type Counts = (Cell<u32>, Cell<u32>, Cell<u32>);
type Callback = fn(&Counts);
type Handler = KeyHandler<Counts, Callback, Callback, Callback>;

const KEY_A: u8 = 20;

fn on_down(s: &Counts) {
    s.0.set(s.0.get() + 1);
}

fn on_up(s: &Counts) {
    s.1.set(s.1.get() + 1);
}

fn on_press(s: &Counts) {
    s.2.set(s.2.get() + 1);
}

fn counts() -> Counts {
    (Cell::new(0), Cell::new(0), Cell::new(0))
}

fn handler(key: u8, press: bool, enabled: bool) -> Result<Handler, KeyError> {
    let press: Option<Callback> = if press { Some(on_press) } else { None };
    KeyHandler::new(key, counts(), on_down as Callback, on_up as Callback, press, enabled)
}

fn down(raw: u32) -> KeyEvent {
    KeyEvent { kind: KeyEventKind::Down, raw }
}

fn up(raw: u32) -> KeyEvent {
    KeyEvent { kind: KeyEventKind::Up, raw }
}

fn press(raw: u32) -> KeyEvent {
    KeyEvent { kind: KeyEventKind::Press, raw }
}

fn registry_with_key_a(discipline: Discipline) -> Registry<Handler> {
    let mut r = Registry::new(discipline, false);
    assert_eq!(r.register(handler(KEY_A, false, false).unwrap()), Ok(()));
    r
}

#[test]
fn resolve_known_codes() {
    let a = resolve(KEY_A as u32).unwrap();
    assert_eq!(a.repr(), KEY_A);
    assert_eq!(a.code(), KeyboardEventCode::KeyA);
    assert_eq!(resolve(0).unwrap().code(), KeyboardEventCode::Backquote);
    let last = resolve(161).unwrap();
    assert_eq!(last.code(), KeyboardEventCode::Unidentified);
    assert_eq!(last.repr(), 161);
}

#[test]
fn resolve_every_code_matches_the_table() {
    for raw in 0..=300u32 {
        let expected = if raw <= 255 { KeyboardEventCode::from_repr(raw as u8) } else { None };
        match resolve(raw) {
            Ok(id) => {
                assert_eq!(Some(id.code()), expected);
                assert_eq!(id.repr() as u32, raw);
            }
            Err(e) => {
                assert_eq!(e, KeyError::UnknownKeyCode);
                assert_eq!(expected, None);
            }
        }
    }
}

#[test]
fn resolve_unknown_codes() {
    assert_eq!(resolve(162).unwrap_err(), KeyError::UnknownKeyCode);
    assert_eq!(resolve(255).unwrap_err(), KeyError::UnknownKeyCode);
    assert_eq!(resolve(999).unwrap_err(), KeyError::UnknownKeyCode);
    assert_eq!(resolve(u32::MAX).unwrap_err(), KeyError::UnknownKeyCode);
}

#[test]
fn identities_compare_by_key() {
    assert!(resolve(20).unwrap() == resolve(20).unwrap());
    assert!(resolve(20).unwrap() != resolve(21).unwrap());
}

#[test]
fn new_keeps_identity_and_state() {
    let h = handler(KEY_A, false, false).unwrap();
    assert_eq!(h.identity().repr(), KEY_A);
    assert_eq!(h.identity().code(), KeyboardEventCode::KeyA);
    assert!(!h.has_keypress());
    h.handle_keydown();
    h.handle_keydown();
    h.handle_keyup();
    assert_eq!(h.identity().repr(), KEY_A);
    assert_eq!(h.get_state().0.get(), 2);
    assert_eq!(h.get_state().1.get(), 1);
}

#[test]
fn new_with_unknown_code_fails() {
    assert_eq!(handler(162, false, false).err(), Some(KeyError::UnknownKeyCode));
    assert_eq!(handler(200, false, true).err(), Some(KeyError::UnknownKeyCode));
    assert_eq!(handler(255, true, false).err(), Some(KeyError::UnknownKeyCode));
}

#[test]
fn new_with_press_callback_when_disabled_fails() {
    assert_eq!(handler(KEY_A, true, false).err(), Some(KeyError::MisconfiguredCapability));
}

#[test]
fn new_with_press_callback_when_enabled() {
    let h = handler(KEY_A, true, true).unwrap();
    assert!(h.has_keypress());
    assert_eq!(h.handle_keypress(), Ok(()));
    assert_eq!(h.get_state().2.get(), 1);
}

#[test]
fn keypress_without_callback_fails() {
    let h = handler(KEY_A, false, true).unwrap();
    assert_eq!(h.handle_keypress(), Err(KeyError::MisconfiguredCapability));
    assert_eq!(h.get_state().2.get(), 0);
}

fn observed(r: &Registry<Handler>, key: u32) -> (u32, u32, u32) {
    let s = r.get(key).unwrap().get_state();
    (s.0.get(), s.1.get(), s.2.get())
}

#[test]
fn primitive_fires_every_down() {
    let mut r = registry_with_key_a(Discipline::Primitive);
    for _ in 0..3 {
        assert_eq!(r.dispatch(down(20)), Ok(Some(KeyEventKind::Down)));
        assert_eq!(r.is_pressed(20), Some(true));
    }
    assert_eq!(r.dispatch(up(20)), Ok(Some(KeyEventKind::Up)));
    assert_eq!(r.is_pressed(20), Some(false));
    assert_eq!(observed(&r, 20), (3, 1, 0));
}

#[test]
fn simplified_fires_once_per_press() {
    let mut r = registry_with_key_a(Discipline::Simplified);
    assert_eq!(r.dispatch(down(20)), Ok(Some(KeyEventKind::Down)));
    assert_eq!(r.dispatch(down(20)), Ok(None));
    assert_eq!(r.dispatch(down(20)), Ok(None));
    assert_eq!(r.dispatch(up(20)), Ok(Some(KeyEventKind::Up)));
    assert_eq!(observed(&r, 20), (1, 1, 0));
    assert_eq!(r.dispatch(down(20)), Ok(Some(KeyEventKind::Down)));
    assert_eq!(observed(&r, 20), (2, 1, 0));
}

#[test]
fn unknown_code_reaches_no_handler() {
    let mut r = registry_with_key_a(Discipline::Primitive);
    assert_eq!(r.dispatch(down(999)), Err(KeyError::UnknownKeyCode));
    assert_eq!(r.dispatch(up(999)), Err(KeyError::UnknownKeyCode));
    assert_eq!(r.dispatch(down(162)), Err(KeyError::UnknownKeyCode));
    assert_eq!(observed(&r, 20), (0, 0, 0));
    assert_eq!(r.is_pressed(20), Some(false));
}

#[test]
fn key_without_handler_is_ignored() {
    let mut r = registry_with_key_a(Discipline::Primitive);
    assert_eq!(r.dispatch(down(21)), Ok(None));
    assert_eq!(r.dispatch(up(21)), Ok(None));
    assert!(r.get(21).is_none());
    assert_eq!(r.is_pressed(21), None);
    assert_eq!(observed(&r, 20), (0, 0, 0));
}

#[test]
fn up_while_released_is_ignored() {
    let mut r = registry_with_key_a(Discipline::Primitive);
    assert_eq!(r.dispatch(up(20)), Ok(None));
    assert_eq!(r.dispatch(down(20)), Ok(Some(KeyEventKind::Down)));
    assert_eq!(r.dispatch(up(20)), Ok(Some(KeyEventKind::Up)));
    assert_eq!(r.dispatch(up(20)), Ok(None));
    assert_eq!(observed(&r, 20), (1, 1, 0));
}

#[test]
fn press_event_when_disabled_fails() {
    let mut r = registry_with_key_a(Discipline::Primitive);
    assert_eq!(r.dispatch(press(20)), Err(KeyError::MisconfiguredCapability));
    assert_eq!(r.dispatch(press(999)), Err(KeyError::MisconfiguredCapability));
    assert_eq!(observed(&r, 20), (0, 0, 0));
}

#[test]
fn register_press_handler_when_disabled_fails() {
    let mut r: Registry<Handler> = Registry::new(Discipline::Primitive, false);
    let h = handler(KEY_A, true, true).unwrap();
    assert_eq!(r.register(h), Err(KeyError::MisconfiguredCapability));
    assert_eq!(r.len(), 0);
}

#[test]
fn press_event_when_enabled() {
    let mut r: Registry<Handler> = Registry::new(Discipline::Primitive, true);
    assert_eq!(r.register(handler(KEY_A, true, true).unwrap()), Ok(()));
    assert_eq!(r.register(handler(21, false, true).unwrap()), Ok(()));
    assert_eq!(r.dispatch(press(20)), Ok(Some(KeyEventKind::Press)));
    assert_eq!(r.dispatch(press(21)), Ok(None));
    assert_eq!(observed(&r, 20), (0, 0, 1));
    assert_eq!(observed(&r, 21), (0, 0, 0));
}

#[test]
fn keys_are_dispatched_apart() {
    let mut r: Registry<Handler> = Registry::new(Discipline::Simplified, false);
    assert_eq!(r.register(handler(KEY_A, false, false).unwrap()), Ok(()));
    assert_eq!(r.register(handler(21, false, false).unwrap()), Ok(()));
    assert_eq!(r.len(), 2);
    assert_eq!(r.dispatch(down(20)), Ok(Some(KeyEventKind::Down)));
    assert_eq!(r.dispatch(down(21)), Ok(Some(KeyEventKind::Down)));
    assert_eq!(r.dispatch(down(20)), Ok(None));
    assert_eq!(r.dispatch(up(21)), Ok(Some(KeyEventKind::Up)));
    assert_eq!(observed(&r, 20), (1, 0, 0));
    assert_eq!(observed(&r, 21), (1, 1, 0));
}

#[test]
fn register_replaces_handler_of_same_key() {
    let mut r = registry_with_key_a(Discipline::Primitive);
    assert_eq!(r.dispatch(down(20)), Ok(Some(KeyEventKind::Down)));
    assert_eq!(r.register(handler(KEY_A, false, false).unwrap()), Ok(()));
    assert_eq!(r.len(), 1);
    assert_eq!(r.is_pressed(20), Some(false));
    assert_eq!(observed(&r, 20), (0, 0, 0));
}

#[test]
fn next_phase_table() {
    assert_eq!(next_phase(false, Primitive, Down), (true, true));
    assert_eq!(next_phase(true, Primitive, Down), (true, true));
    assert_eq!(next_phase(false, Simplified, Down), (true, true));
    assert_eq!(next_phase(true, Simplified, Down), (true, false));
    assert_eq!(next_phase(true, Primitive, Up), (false, true));
    assert_eq!(next_phase(false, Simplified, Up), (false, false));
    assert_eq!(next_phase(true, Simplified, Press), (true, true));
    assert_eq!(next_phase(false, Primitive, Press), (false, true));
}

#[test]
fn up_count_never_exceeds_down_count() {
    let events = [Up, Down, Down, Press, Up, Up, Down, Up, Up];
    for discipline in [Discipline::Primitive, Discipline::Simplified] {
        let mut r: Registry<Handler> = Registry::new(discipline, true);
        assert_eq!(r.register(handler(KEY_A, true, true).unwrap()), Ok(()));
        let mut fired = Vec::new();
        for kind in events {
            if let Some(k) = r.dispatch(KeyEvent { kind, raw: 20 }).unwrap() {
                assert_eq!(k, kind);
                fired.push(k);
            }
            let (downs, ups, _) = observed(&r, 20);
            assert!(ups <= downs);
        }
        let expected = match discipline {
            Discipline::Primitive => vec![Down, Down, Press, Up, Down, Up],
            Discipline::Simplified => vec![Down, Press, Up, Down, Up],
        };
        assert_eq!(fired, expected);
    }
}
