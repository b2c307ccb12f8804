use devicehub::input::{
    dispatch, type_key, type_text, view_orientation, DeviceOrientation, HidAction, InputCmd,
    InputStep, KeyMods, Orientation, Performance, RotateDir,
};
use devicehub::keymap::{
    ascii_to_usage, find_button, named_buttons, Button, KEY_LEFT_ALT, KEY_LEFT_CMD, KEY_LEFT_CTRL,
    KEY_LEFT_SHIFT,
};

fn actions(cmd: InputCmd, can_rotate: bool) -> Vec<HidAction> {
    match dispatch(&cmd, can_rotate) {
        InputStep::Perform(actions) => actions,
        InputStep::Stop => panic!("stopped"),
    }
}

fn down(usage: u64) -> HidAction {
    HidAction::Key { usage, down: true }
}

fn up(usage: u64) -> HidAction {
    HidAction::Key { usage, down: false }
}

const GAP: HidAction = HidAction::Pause { ms: 12 };

const PLAIN: KeyMods = KeyMods { ctrl: false, alt: false, cmd: false, shift: false };

#[test]
fn characters_have_keys() {
    assert_eq!(ascii_to_usage('a'), Some((0x04, false)));
    assert_eq!(ascii_to_usage('z'), Some((0x1D, false)));
    assert_eq!(ascii_to_usage('Q'), Some((0x14, true)));
    assert_eq!(ascii_to_usage('1'), Some((0x1E, false)));
    assert_eq!(ascii_to_usage('9'), Some((0x26, false)));
    assert_eq!(ascii_to_usage('0'), Some((0x27, false)));
    assert_eq!(ascii_to_usage(')'), Some((0x27, true)));
    assert_eq!(ascii_to_usage('\n'), Some((0x28, false)));
    assert_eq!(ascii_to_usage('\t'), Some((0x2B, false)));
    assert_eq!(ascii_to_usage(' '), Some((0x2C, false)));
    assert_eq!(ascii_to_usage('"'), Some((0x34, true)));
    assert_eq!(ascii_to_usage('?'), Some((0x38, true)));
    assert_eq!(ascii_to_usage('é'), None);
    assert_eq!(ascii_to_usage('\r'), None);
}

#[test]
fn every_printable_character_has_a_key_of_its_own() {
    let mut seen = Vec::new();
    for c in (' '..='~').chain(['\n', '\t']) {
        let key = ascii_to_usage(c).unwrap();
        assert!(!seen.contains(&key), "{c:?}");
        seen.push(key);
    }
}

#[test]
fn letters_of_both_cases_share_a_key() {
    for (lower, upper) in ('a'..='z').zip('A'..='Z') {
        let (usage, shift) = ascii_to_usage(lower).unwrap();
        assert!(!shift);
        assert_eq!(ascii_to_usage(upper), Some((usage, true)));
    }
}

#[test]
fn buttons_are_found_by_name() {
    assert_eq!(find_button("lock"), Some(Button { page: 0x0C, code: 0x30, hold_ms: 200 }));
    assert_eq!(find_button("siri"), Some(Button { page: 0x0C, code: 0xCF, hold_ms: 1200 }));
    assert_eq!(find_button("action"), Some(Button { page: 0x0B, code: 0x2D, hold_ms: 80 }));
    assert_eq!(find_button("Home"), None);
    assert_eq!(
        named_buttons(),
        ["home", "lock", "volume-up", "volume-down", "mute", "siri", "action"]
    );
    for name in named_buttons() {
        assert!(find_button(name).is_some());
    }
}

#[test]
fn touches_carry_their_place() {
    assert_eq!(
        actions(InputCmd::Tap { x: 3, y: 4 }, false),
        [HidAction::Tap { x: 3, y: 4 }]
    );
    let on = HidAction::Touch { contact: true, x: 3, y: 4 };
    assert_eq!(actions(InputCmd::TouchDown { x: 3, y: 4 }, false), [on]);
    assert_eq!(actions(InputCmd::TouchMove { x: 3, y: 4 }, false), [on]);
    assert_eq!(
        actions(InputCmd::TouchUp { x: 3, y: 4 }, false),
        [HidAction::Touch { contact: false, x: 3, y: 4 }]
    );
}

#[test]
fn chords_release_in_reverse() {
    let all = KeyMods { ctrl: true, alt: true, cmd: true, shift: true };
    assert_eq!(
        actions(InputCmd::KeyCombo { usage: 6, mods: all }, false),
        [
            down(KEY_LEFT_CTRL),
            down(KEY_LEFT_ALT),
            down(KEY_LEFT_CMD),
            down(KEY_LEFT_SHIFT),
            down(6),
            up(6),
            up(KEY_LEFT_SHIFT),
            up(KEY_LEFT_CMD),
            up(KEY_LEFT_ALT),
            up(KEY_LEFT_CTRL),
            GAP,
        ]
    );
    assert_eq!(actions(InputCmd::KeyUsage(0x28), false), [down(0x28), up(0x28), GAP]);
}

#[test]
fn keystrokes_are_appended() {
    let mut out = vec![GAP];
    type_key(&mut out, 5, KeyMods { cmd: true, ..PLAIN });
    assert_eq!(out, [GAP, down(KEY_LEFT_CMD), down(5), up(5), up(KEY_LEFT_CMD), GAP]);
}

#[test]
fn text_is_typed_character_by_character() {
    assert_eq!(
        actions(InputCmd::Text("aB".to_string()), false),
        [
            down(4),
            up(4),
            GAP,
            down(KEY_LEFT_SHIFT),
            down(5),
            up(5),
            up(KEY_LEFT_SHIFT),
            GAP,
        ]
    );
    assert!(type_text("").is_empty());
}

#[test]
fn text_can_be_split_and_skips_what_has_no_key() {
    let whole = type_text("Hello, world");
    let parts = [type_text("Hello,"), type_text(" world")].concat();
    assert_eq!(whole, parts);
    assert_eq!(type_text("He€llo, wörld"), type_text("Hello, wrld"));
}

#[test]
fn a_button_press_is_held() {
    let home = |down: bool| HidAction::Button { page: 0x0C, code: 0x40, down };
    let name = || "home".to_string();
    assert_eq!(
        actions(InputCmd::Button(name()), false),
        [home(true), HidAction::Pause { ms: 80 }, home(false)]
    );
    assert_eq!(actions(InputCmd::ButtonDown(name()), false), [home(true)]);
    assert_eq!(actions(InputCmd::ButtonUp(name()), false), [home(false)]);
}

#[test]
fn an_unknown_button_does_nothing() {
    let name = || "power".to_string();
    assert!(actions(InputCmd::Button(name()), false).is_empty());
    assert!(actions(InputCmd::ButtonDown(name()), false).is_empty());
    assert!(actions(InputCmd::ButtonUp(name()), false).is_empty());
}

#[test]
fn rotation_needs_its_service() {
    assert!(actions(InputCmd::Rotate(RotateDir::Left), false).is_empty());
    assert_eq!(
        actions(InputCmd::Rotate(RotateDir::Right), true),
        [HidAction::Rotate(RotateDir::Right)]
    );
}

#[test]
fn shutdown_stops_the_loop() {
    assert!(matches!(dispatch(&InputCmd::Shutdown, true), InputStep::Stop));
}

#[test]
fn only_upright_orientations_are_shown() {
    assert_eq!(view_orientation(&DeviceOrientation::Portrait), Some(Orientation::Portrait));
    assert_eq!(
        view_orientation(&DeviceOrientation::PortraitUpsideDown),
        Some(Orientation::PortraitUpsideDown)
    );
    assert_eq!(
        view_orientation(&DeviceOrientation::LandscapeLeft),
        Some(Orientation::LandscapeLeft)
    );
    assert_eq!(
        view_orientation(&DeviceOrientation::LandscapeRight),
        Some(Orientation::LandscapeRight)
    );
    assert_eq!(view_orientation(&DeviceOrientation::FaceUp), None);
    assert_eq!(view_orientation(&DeviceOrientation::FaceDown), None);
    assert_eq!(view_orientation(&DeviceOrientation::Unknown("odd".to_string())), None);
}

#[test]
fn what_is_typed_can_be_read_off_the_keys() {
    let text = "Pass\tword: {a-Z} 100% \"ok\"?\n";
    let mut shift = false;
    let mut read = String::new();
    for action in type_text(text) {
        if let HidAction::Key { usage, down } = action {
            if usage == KEY_LEFT_SHIFT {
                shift = down;
            } else if down {
                let c = (0..128u8).map(char::from);
                read.extend(c.filter(|c| ascii_to_usage(*c) == Some((usage, shift))));
            }
        }
    }
    assert_eq!(read, text);
    assert!(!shift);
}

#[test]
fn a_failure_ends_the_performance() {
    let chord = actions(
        InputCmd::KeyCombo { usage: 6, mods: KeyMods { cmd: true, ..PLAIN } },
        false,
    );
    for k in 0..chord.len() {
        let mut performance = Performance::new(chord.clone());
        let mut sent = Vec::new();
        while let Some(action) = performance.due() {
            sent.push(action);
            performance.report(sent.len() != k + 1);
        }
        assert_eq!(sent, chord[..=k]);
        performance.report(true);
        assert!(performance.due().is_none());
    }
    let mut performance = Performance::new(chord.clone());
    let mut sent = Vec::new();
    while let Some(action) = performance.due() {
        sent.push(action);
        performance.report(true);
    }
    assert_eq!(sent, chord);
}
