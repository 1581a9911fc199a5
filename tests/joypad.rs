use gbemu::joypad::{Joypad, JoypadKey};

#[test]
fn from_u8() {
    assert_eq!(false as u8, 0);
    assert_eq!(true as u8, 1);

    let joypad = Joypad {
        is_dpad: true,
        ..Default::default()
    };

    assert_eq!(u8::from(joypad), 0b11101111);
}

#[test]
fn set_mode() {
    let mut joypad = Joypad::default();
    assert_eq!(u8::from(joypad), 0xFF);

    joypad.set_mode(32);
    assert_eq!(u8::from(joypad), 0xEF);

    joypad.set_mode(16);
    assert_eq!(u8::from(joypad), 0xDF);
}

#[test]
fn key_press_raises_interrupt_once() {
    let mut joypad = Joypad::new();
    joypad.set_mode(0x20); // d-pad selected
    assert!(joypad.key_down(JoypadKey::Right));
    assert_eq!(u8::from(joypad) & 0x0F, 0b1110);
    // A second key while one is held: the nibble was not all ones.
    assert!(!joypad.key_down(JoypadKey::Up));
    assert!(!joypad.key_up(JoypadKey::Right));
    assert!(!joypad.key_up(JoypadKey::Up));
    assert_eq!(u8::from(joypad) & 0x0F, 0x0F);
}

#[test]
fn unselected_keys_do_not_show() {
    let mut joypad = Joypad::new();
    joypad.set_mode(0x10); // buttons selected
    assert!(!joypad.key_down(JoypadKey::Left));
    assert_eq!(u8::from(joypad) & 0x0F, 0x0F);
    assert!(joypad.key_down(JoypadKey::Start));
    assert_eq!(u8::from(joypad) & 0x0F, 0b0111);
}
