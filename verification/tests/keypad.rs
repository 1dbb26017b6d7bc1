use rustchip::keymap::{key_event, HostKey};
use rustchip::keypad::Keypad;

#[test]
fn new_keypad_has_every_key_up() {
    let keypad = Keypad::new();
    for key in 0..16 {
        assert!(!keypad.is_pressed(key));
    }
    assert_eq!(keypad.get_keys(), [false; 16]);
    assert_eq!(keypad.wait_for_press(), None);
}

#[test]
fn press_and_release_change_one_key() {
    let mut keypad = Keypad::new();
    keypad.press(5);
    for key in 0..16 {
        assert_eq!(keypad.is_pressed(key), key == 5);
    }
    keypad.press(15);
    assert!(keypad.is_pressed(15));
    keypad.release(5);
    for key in 0..16 {
        assert_eq!(keypad.is_pressed(key), key == 15);
    }
    keypad.release(15);
    assert_eq!(keypad.get_keys(), [false; 16]);
}

#[test]
fn press_twice_is_press_once() {
    let mut keypad = Keypad::new();
    keypad.press(3);
    keypad.press(3);
    let mut expected = [false; 16];
    expected[3] = true;
    assert_eq!(keypad.get_keys(), expected);
    keypad.release(3);
    assert_eq!(keypad.get_keys(), [false; 16]);
}

#[test]
fn wait_for_press_reports_the_lowest_key_down() {
    let mut keypad = Keypad::new();
    keypad.press(9);
    assert_eq!(keypad.wait_for_press(), Some(9));
    keypad.press(12);
    assert_eq!(keypad.wait_for_press(), Some(9));
    keypad.press(2);
    assert_eq!(keypad.wait_for_press(), Some(2));
    keypad.release(2);
    keypad.release(9);
    assert_eq!(keypad.wait_for_press(), Some(12));
    keypad.release(12);
    assert_eq!(keypad.wait_for_press(), None);
}

#[test]
fn wait_for_press_sees_key_zero_and_key_fifteen() {
    let mut keypad = Keypad::new();
    keypad.press(15);
    assert_eq!(keypad.wait_for_press(), Some(15));
    keypad.press(0);
    assert_eq!(keypad.wait_for_press(), Some(0));
}

fn layout() -> [(HostKey, usize); 16] {
    [
        (HostKey::Digit1, 0x1),
        (HostKey::Digit2, 0x2),
        (HostKey::Digit3, 0x3),
        (HostKey::Digit4, 0xC),
        (HostKey::KeyQ, 0x4),
        (HostKey::KeyW, 0x5),
        (HostKey::KeyE, 0x6),
        (HostKey::KeyR, 0xD),
        (HostKey::KeyA, 0x7),
        (HostKey::KeyS, 0x8),
        (HostKey::KeyD, 0x9),
        (HostKey::KeyF, 0xE),
        (HostKey::KeyZ, 0xA),
        (HostKey::KeyX, 0x0),
        (HostKey::KeyC, 0xB),
        (HostKey::KeyV, 0xF),
    ]
}

#[test]
fn host_keys_follow_the_layout() {
    for (host, key) in layout() {
        assert_eq!(host.keypad_index(), key);
    }
}

#[test]
fn host_keys_cover_each_keypad_key_once() {
    let mut seen = [0u32; 16];
    for (host, _) in layout() {
        seen[host.keypad_index()] += 1;
    }
    assert_eq!(seen, [1u32; 16]);
}

#[test]
fn key_event_presses_and_releases() {
    let mut keypad = Keypad::new();
    key_event(&mut keypad, HostKey::KeyQ, true);
    assert!(keypad.is_pressed(0x4));
    assert_eq!(keypad.wait_for_press(), Some(0x4));
    key_event(&mut keypad, HostKey::KeyV, true);
    assert!(keypad.is_pressed(0xF));
    key_event(&mut keypad, HostKey::KeyQ, false);
    assert!(!keypad.is_pressed(0x4));
    assert_eq!(keypad.wait_for_press(), Some(0xF));
    key_event(&mut keypad, HostKey::KeyV, false);
    assert_eq!(keypad.get_keys(), [false; 16]);
}
