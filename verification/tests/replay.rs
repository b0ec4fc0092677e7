use shareflow::input_simulator::{Injection, InputSimulator};
use shareflow::keys::{key_for_code, rdev_key_to_code, Button, Key};

#[test]
fn letters_map_in_both_cases() {
    let sim = InputSimulator::new();
    assert_eq!(sim.map_key_code(65), Some(Key::KeyA));
    assert_eq!(sim.map_key_code(90), Some(Key::KeyZ));
    assert_eq!(sim.map_key_code(97), Some(Key::KeyA));
    assert_eq!(sim.map_key_code(122), Some(Key::KeyZ));
    assert_eq!(sim.map_key_code(81), Some(Key::KeyQ));
    assert_eq!(sim.map_key_code(113), Some(Key::KeyQ));
    let upper = "ABCDEFGHIJKLMNOPQRSTUVWXYZ";
    for (i, c) in upper.chars().enumerate() {
        let key = sim.map_key_code(c as u32).unwrap();
        assert_eq!(format!("{:?}", key), format!("Key{}", c));
        assert_eq!(sim.map_key_code(97 + i as u32), Some(key));
        assert_eq!(rdev_key_to_code(key), c as u32);
    }
}

#[test]
fn digits_and_control_codes_map() {
    let sim = InputSimulator::new();
    assert_eq!(sim.map_key_code(48), Some(Key::Num0));
    assert_eq!(sim.map_key_code(57), Some(Key::Num9));
    assert_eq!(sim.map_key_code(13), Some(Key::Return));
    assert_eq!(sim.map_key_code(10), Some(Key::Return));
    assert_eq!(sim.map_key_code(27), Some(Key::Escape));
    assert_eq!(sim.map_key_code(32), Some(Key::Space));
    assert_eq!(sim.map_key_code(8), Some(Key::Backspace));
    assert_eq!(sim.map_key_code(9), Some(Key::Tab));
}

#[test]
fn punctuation_and_modifiers_map() {
    let sim = InputSimulator::new();
    assert_eq!(sim.map_key_code(33), Some(Key::Num1));
    assert_eq!(sim.map_key_code(64), Some(Key::Num2));
    assert_eq!(sim.map_key_code(45), Some(Key::Minus));
    assert_eq!(sim.map_key_code(95), Some(Key::Minus));
    assert_eq!(sim.map_key_code(61), Some(Key::Equal));
    assert_eq!(sim.map_key_code(93), Some(Key::RightBracket));
    assert_eq!(sim.map_key_code(59), Some(Key::SemiColon));
    assert_eq!(sim.map_key_code(39), Some(Key::Quote));
    assert_eq!(sim.map_key_code(44), Some(Key::Comma));
    assert_eq!(sim.map_key_code(46), Some(Key::Dot));
    assert_eq!(sim.map_key_code(47), Some(Key::Slash));
    assert_eq!(sim.map_key_code(96), Some(Key::BackQuote));
    assert_eq!(sim.map_key_code(126), Some(Key::BackQuote));
    assert_eq!(sim.map_key_code(16), Some(Key::ShiftLeft));
    assert_eq!(sim.map_key_code(160), Some(Key::ShiftLeft));
    assert_eq!(sim.map_key_code(161), Some(Key::ShiftRight));
    assert_eq!(sim.map_key_code(17), Some(Key::ControlLeft));
    assert_eq!(sim.map_key_code(162), Some(Key::ControlLeft));
    assert_eq!(sim.map_key_code(163), Some(Key::ControlRight));
    assert_eq!(sim.map_key_code(18), Some(Key::Alt));
    assert_eq!(sim.map_key_code(164), Some(Key::Alt));
    assert_eq!(sim.map_key_code(165), Some(Key::AltGr));
    assert_eq!(sim.map_key_code(91), Some(Key::MetaLeft));
    assert_eq!(sim.map_key_code(92), Some(Key::MetaRight));
}

#[test]
fn unknown_key_codes_inject_nothing() {
    let sim = InputSimulator::new();
    for code in [0u32, 1, 11, 127, 128, 166, 1000, u32::MAX] {
        assert_eq!(sim.map_key_code(code), None);
        assert_eq!(sim.key_press(code, true), None);
        assert_eq!(sim.key_press(code, false), None);
    }
}

#[test]
fn key_press_picks_press_or_release() {
    let sim = InputSimulator::new();
    assert_eq!(sim.key_press(65, true), Some(Injection::KeyPress(Key::KeyA)));
    assert_eq!(sim.key_press(65, false), Some(Injection::KeyRelease(Key::KeyA)));
}

#[test]
fn buttons_are_left_right_middle() {
    let sim = InputSimulator::new();
    assert_eq!(sim.mouse_click(0, true), Injection::ButtonPress(Button::Left));
    assert_eq!(sim.mouse_click(1, true), Injection::ButtonPress(Button::Right));
    assert_eq!(sim.mouse_click(2, false), Injection::ButtonRelease(Button::Middle));
    assert_eq!(sim.mouse_click(9, false), Injection::ButtonRelease(Button::Left));
}

#[test]
fn motion_and_wheel_carry_their_deltas() {
    let sim = InputSimulator::new();
    assert_eq!(sim.mouse_move(-4, 5), Injection::MoveRelative { dx: -4, dy: 5 });
    assert_eq!(sim.mouse_wheel(1, -2), Injection::Wheel { delta_x: 1, delta_y: -2 });
}

#[test]
fn captured_codes_come_back_as_the_same_key() {
    let keys = [
        Key::KeyA, Key::KeyQ, Key::Num0, Key::Num7, Key::Return, Key::Escape, Key::Space,
        Key::Backspace, Key::Tab, Key::Minus, Key::Equal, Key::RightBracket, Key::SemiColon,
        Key::Quote, Key::Comma, Key::Dot, Key::Slash, Key::BackQuote, Key::ShiftLeft,
        Key::ShiftRight, Key::ControlLeft, Key::ControlRight, Key::Alt, Key::AltGr, Key::MetaLeft,
        Key::MetaRight,
    ];
    for key in keys {
        assert_eq!(key_for_code(rdev_key_to_code(key)), Some(key));
    }
    assert_eq!(rdev_key_to_code(Key::LeftBracket), 91);
    assert_eq!(key_for_code(91), Some(Key::MetaLeft));
    assert_eq!(rdev_key_to_code(Key::BackSlash), 92);
    assert_eq!(key_for_code(92), Some(Key::MetaRight));
    assert_eq!(rdev_key_to_code(Key::F1), 0);
    assert_eq!(rdev_key_to_code(Key::Unknown(77)), 0);
}

#[test]
fn only_motion_is_injected_in_place() {
    let sim = InputSimulator::new();
    assert!(!sim.mouse_move(1, 0).offloaded());
    assert!(sim.mouse_click(0, true).offloaded());
    assert!(sim.key_press(65, true).unwrap().offloaded());
    assert!(sim.mouse_wheel(0, 1).offloaded());
}
