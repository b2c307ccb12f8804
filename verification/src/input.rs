//! Input commands and the HID traffic that they amount to.
use vstd::prelude::*;

use crate::keymap::{
    ascii_to_usage, button_named, find_button, law_a_character_stands_on_its_key,
    law_printable_ascii_can_be_typed, layout_char, us_key, Button, KEY_LEFT_ALT, KEY_LEFT_CMD,
    KEY_LEFT_CTRL, KEY_LEFT_SHIFT,
};

verus! {

/// The gap after a keystroke, so that the device registers discrete ones.
pub const KEYSTROKE_GAP_MS: u64 = 12;

/// Modifier keys held during a keystroke.
#[derive(Debug, Clone, Copy, PartialEq, Eq, Structural)]
pub struct KeyMods {
    pub ctrl: bool,
    pub alt: bool,
    pub cmd: bool,
    pub shift: bool,
}

/// Which way to turn the device by a quarter.
#[derive(Debug, Clone, Copy, PartialEq, Eq, Structural)]
pub enum RotateDir {
    Left,
    Right,
}

/// How the screen is shown.
#[derive(Debug, Clone, Copy, PartialEq, Eq, Structural)]
pub enum Orientation {
    Portrait,
    PortraitUpsideDown,
    LandscapeLeft,
    LandscapeRight,
}

/// How the device says that it is held.
#[derive(Debug)]
pub enum DeviceOrientation {
    Portrait,
    PortraitUpsideDown,
    LandscapeLeft,
    LandscapeRight,
    FaceUp,
    FaceDown,
    Unknown(String),
}

/// A command from the window or one of the servers. Positions are in the
/// device's normalized touch space.
#[derive(Debug)]
pub enum InputCmd {
    Tap { x: u16, y: u16 },
    TouchDown { x: u16, y: u16 },
    TouchMove { x: u16, y: u16 },
    TouchUp { x: u16, y: u16 },
    Text(String),
    KeyUsage(u64),
    KeyCombo { usage: u64, mods: KeyMods },
    Button(String),
    ButtonDown(String),
    ButtonUp(String),
    Rotate(RotateDir),
    Shutdown,
}

/// One step of talking to the device.
#[derive(Debug, Clone, Copy, PartialEq, Eq, Structural)]
pub enum HidAction {
    Tap { x: u16, y: u16 },
    /// A finger on the screen, or leaving it.
    Touch { contact: bool, x: u16, y: u16 },
    Key { usage: u64, down: bool },
    Button { page: u64, code: u64, down: bool },
    Pause { ms: u64 },
    Rotate(RotateDir),
}

/// What the input loop does with a command.
#[derive(Debug)]
pub enum InputStep {
    /// End the session.
    Stop,
    /// Perform these, as a [`Performance`].
    Perform(Vec<HidAction>),
}

/// No modifier held.
pub open spec fn no_mods() -> KeyMods {
    KeyMods { ctrl: false, alt: false, cmd: false, shift: false }
}

/// A key event.
pub open spec fn key(usage: u64, down: bool) -> HidAction {
    HidAction::Key { usage, down }
}

/// The events that press or release one modifier, if it is held.
pub open spec fn modifier(usage: u64, held: bool, down: bool) -> Seq<HidAction> {
    if held {
        seq![key(usage, down)]
    } else {
        Seq::empty()
    }
}

/// The events that press the held modifiers: control, option, command, shift.
pub open spec fn presses(mods: KeyMods) -> Seq<HidAction> {
    modifier(KEY_LEFT_CTRL, mods.ctrl, true) + modifier(KEY_LEFT_ALT, mods.alt, true) + modifier(
        KEY_LEFT_CMD,
        mods.cmd,
        true,
    ) + modifier(KEY_LEFT_SHIFT, mods.shift, true)
}

/// The events that release them, in reverse.
pub open spec fn releases(mods: KeyMods) -> Seq<HidAction> {
    modifier(KEY_LEFT_SHIFT, mods.shift, false) + modifier(KEY_LEFT_CMD, mods.cmd, false)
        + modifier(KEY_LEFT_ALT, mods.alt, false) + modifier(KEY_LEFT_CTRL, mods.ctrl, false)
}

/// The key events of one keystroke: the modifiers around the key.
pub open spec fn chord(usage: u64, mods: KeyMods) -> Seq<HidAction> {
    presses(mods) + seq![key(usage, true), key(usage, false)] + releases(mods)
}

/// One keystroke and the gap after it.
pub open spec fn keystroke(usage: u64, mods: KeyMods) -> Seq<HidAction> {
    chord(usage, mods) + seq![HidAction::Pause { ms: KEYSTROKE_GAP_MS }]
}

/// What types one character: nothing if no key does.
pub open spec fn typed_char(c: char) -> Seq<HidAction> {
    match us_key(c) {
        Some((usage, shift)) => keystroke(usage, KeyMods { shift, ..no_mods() }),
        None => Seq::empty(),
    }
}

/// What types a text.
pub open spec fn typed_text(text: Seq<char>) -> Seq<HidAction>
    decreases text.len(),
{
    if text.len() == 0 {
        Seq::empty()
    } else {
        typed_text(text.drop_last()) + typed_char(text.last())
    }
}

/// An event of a button.
pub open spec fn button_event(button: Button, down: bool) -> HidAction {
    HidAction::Button { page: button.page, code: button.code, down }
}

/// What a command amounts to, where the device can be rotated or not. A button
/// that does not exist amounts to nothing.
pub open spec fn actions_of(cmd: InputCmd, can_rotate: bool) -> Seq<HidAction> {
    match cmd {
        InputCmd::Tap { x, y } => seq![HidAction::Tap { x, y }],
        InputCmd::TouchDown { x, y } => seq![HidAction::Touch { contact: true, x, y }],
        InputCmd::TouchMove { x, y } => seq![HidAction::Touch { contact: true, x, y }],
        InputCmd::TouchUp { x, y } => seq![HidAction::Touch { contact: false, x, y }],
        InputCmd::Text(text) => typed_text(text@),
        InputCmd::KeyUsage(usage) => keystroke(usage, no_mods()),
        InputCmd::KeyCombo { usage, mods } => keystroke(usage, mods),
        InputCmd::Button(name) => match button_named(name@) {
            Some(b) => seq![
                button_event(b, true),
                HidAction::Pause { ms: b.hold_ms },
                button_event(b, false),
            ],
            None => Seq::empty(),
        },
        InputCmd::ButtonDown(name) => match button_named(name@) {
            Some(b) => seq![button_event(b, true)],
            None => Seq::empty(),
        },
        InputCmd::ButtonUp(name) => match button_named(name@) {
            Some(b) => seq![button_event(b, false)],
            None => Seq::empty(),
        },
        InputCmd::Rotate(dir) => if can_rotate {
            seq![HidAction::Rotate(dir)]
        } else {
            Seq::empty()
        },
        InputCmd::Shutdown => Seq::empty(),
    }
}

fn push_modifier(out: &mut Vec<HidAction>, usage: u64, held: bool, down: bool)
    ensures
        final(out)@ == old(out)@ + modifier(usage, held, down),
{
    if held {
        out.push(HidAction::Key { usage, down });
    }
    assert(out@ =~= old(out)@ + modifier(usage, held, down));
}

/// Add one keystroke to `out`: press the held modifiers in a stable order, the
/// key itself, and release in reverse, so that the device reads a clean chord.
pub fn type_key(out: &mut Vec<HidAction>, usage: u64, mods: KeyMods)
    ensures
        final(out)@ == old(out)@ + keystroke(usage, mods),
{
    push_modifier(out, KEY_LEFT_CTRL, mods.ctrl, true);
    push_modifier(out, KEY_LEFT_ALT, mods.alt, true);
    push_modifier(out, KEY_LEFT_CMD, mods.cmd, true);
    push_modifier(out, KEY_LEFT_SHIFT, mods.shift, true);
    out.push(HidAction::Key { usage, down: true });
    out.push(HidAction::Key { usage, down: false });
    push_modifier(out, KEY_LEFT_SHIFT, mods.shift, false);
    push_modifier(out, KEY_LEFT_CMD, mods.cmd, false);
    push_modifier(out, KEY_LEFT_ALT, mods.alt, false);
    push_modifier(out, KEY_LEFT_CTRL, mods.ctrl, false);
    out.push(HidAction::Pause { ms: KEYSTROKE_GAP_MS });
    assert(out@ =~= old(out)@ + keystroke(usage, mods));
}

/// What typing a text amounts to. Characters that no key types are left out.
pub fn type_text(text: &str) -> (r: Vec<HidAction>)
    ensures
        r@ == typed_text(text@),
{
    let mut out: Vec<HidAction> = Vec::new();
    let ghost mut done: Seq<char> = Seq::empty();
    for c in iter: text.chars()
        invariant
            iter.seq() == text@,
            done == text@.take(iter.index() as int),
            out@ == typed_text(done),
    {
        let ghost before = out@;
        if let Some((usage, shift)) = ascii_to_usage(c) {
            type_key(&mut out, usage, KeyMods { ctrl: false, alt: false, cmd: false, shift });
        }
        proof {
            let next = done.push(c);
            assert(next.drop_last() =~= done);
            assert(text@.take(iter.index() + 1) =~= next);
            assert(out@ =~= before + typed_char(c));
            done = next;
        }
    }
    assert(text@.take(text@.len() as int) =~= text@);
    out
}

/// Decide what to do with a command.
pub fn dispatch(cmd: &InputCmd, can_rotate: bool) -> (r: InputStep)
    ensures
        match r {
            InputStep::Stop => cmd is Shutdown,
            InputStep::Perform(actions) => !(cmd is Shutdown) && actions@ == actions_of(
                *cmd,
                can_rotate,
            ),
        },
{
    let mut out: Vec<HidAction> = Vec::new();
    match cmd {
        InputCmd::Tap { x, y } => {
            out.push(HidAction::Tap { x: *x, y: *y });
        },
        InputCmd::TouchDown { x, y } => {
            out.push(HidAction::Touch { contact: true, x: *x, y: *y });
        },
        InputCmd::TouchMove { x, y } => {
            out.push(HidAction::Touch { contact: true, x: *x, y: *y });
        },
        InputCmd::TouchUp { x, y } => {
            out.push(HidAction::Touch { contact: false, x: *x, y: *y });
        },
        InputCmd::Text(text) => {
            out = type_text(text.as_str());
        },
        InputCmd::KeyUsage(usage) => {
            type_key(
                &mut out,
                *usage,
                KeyMods { ctrl: false, alt: false, cmd: false, shift: false },
            );
        },
        InputCmd::KeyCombo { usage, mods } => {
            type_key(&mut out, *usage, *mods);
        },
        InputCmd::Button(name) => {
            if let Some(b) = find_button(name.as_str()) {
                out.push(HidAction::Button { page: b.page, code: b.code, down: true });
                out.push(HidAction::Pause { ms: b.hold_ms });
                out.push(HidAction::Button { page: b.page, code: b.code, down: false });
            }
        },
        InputCmd::ButtonDown(name) => {
            if let Some(b) = find_button(name.as_str()) {
                out.push(HidAction::Button { page: b.page, code: b.code, down: true });
            }
        },
        InputCmd::ButtonUp(name) => {
            if let Some(b) = find_button(name.as_str()) {
                out.push(HidAction::Button { page: b.page, code: b.code, down: false });
            }
        },
        InputCmd::Rotate(dir) => {
            if can_rotate {
                out.push(HidAction::Rotate(*dir));
            }
        },
        InputCmd::Shutdown => {
            return InputStep::Stop;
        },
    }
    assert(out@ =~= actions_of(*cmd, can_rotate));
    InputStep::Perform(out)
}

/// Actions under way: each is performed once the one before has succeeded, and none
/// after one that failed.
#[derive(Debug)]
pub struct Performance {
    actions: Vec<HidAction>,
    tried: usize,
    failed: bool,
}

/// What a [`Performance`] holds: all its actions, how many of them have been tried,
/// and whether the last of those failed.
#[verifier::ext_equal]
pub struct PerformanceModel {
    pub actions: Seq<HidAction>,
    pub tried: nat,
    pub failed: bool,
}

impl View for Performance {
    type V = PerformanceModel;

    closed spec fn view(&self) -> PerformanceModel {
        PerformanceModel {
            actions: self.actions@,
            tried: self.tried as nat,
            failed: self.failed,
        }
    }
}

impl PerformanceModel {
    /// Before the first action.
    pub open spec fn beginning(actions: Seq<HidAction>) -> PerformanceModel {
        PerformanceModel { actions, tried: 0, failed: false }
    }

    /// The action to perform next: none after the last one or a failure.
    pub open spec fn due(self) -> Option<HidAction> {
        if !self.failed && self.tried < self.actions.len() {
            Some(self.actions[self.tried as int])
        } else {
            None
        }
    }

    /// After the action that was due has succeeded or failed; once nothing is due,
    /// nothing changes.
    pub open spec fn after(self, ok: bool) -> PerformanceModel {
        if self.due() is Some {
            PerformanceModel { tried: self.tried + 1, failed: !ok, ..self }
        } else {
            self
        }
    }

    /// After several outcomes.
    pub open spec fn after_all(self, outcomes: Seq<bool>) -> PerformanceModel
        decreases outcomes.len(),
    {
        if outcomes.len() == 0 {
            self
        } else {
            self.after_all(outcomes.drop_last()).after(outcomes.last())
        }
    }

    /// The actions that have been tried, in order.
    pub open spec fn made(self) -> Seq<HidAction> {
        self.actions.take(self.tried as int)
    }
}

impl Performance {
    /// Begin with these actions.
    pub fn new(actions: Vec<HidAction>) -> (r: Performance)
        ensures
            r@ == PerformanceModel::beginning(actions@),
    {
        Performance { actions, tried: 0, failed: false }
    }

    /// The action to perform next.
    pub fn due(&self) -> (r: Option<HidAction>)
        ensures
            r == self@.due(),
    {
        if !self.failed && self.tried < self.actions.len() {
            Some(self.actions[self.tried])
        } else {
            None
        }
    }

    /// Take note of how the action that was due came out.
    pub fn report(&mut self, ok: bool)
        ensures
            final(self)@ == old(self)@.after(ok),
    {
        if !self.failed && self.tried < self.actions.len() {
            self.tried = self.tried + 1;
            self.failed = !ok;
        }
    }
}

/// What is tried of some actions, if the one at `failed_at` fails or none does: all
/// up to and with the one that fails.
pub open spec fn performed(actions: Seq<HidAction>, failed_at: Option<int>) -> Seq<HidAction> {
    match failed_at {
        Some(k) if 0 <= k < actions.len() => actions.take(k + 1),
        _ => actions,
    }
}

/// How to show the screen of a device that is held so. Lying flat, or in a way
/// that is not known, it says nothing.
pub fn view_orientation(held: &DeviceOrientation) -> (r: Option<Orientation>)
    ensures
        r == match *held {
            DeviceOrientation::Portrait => Some(Orientation::Portrait),
            DeviceOrientation::PortraitUpsideDown => Some(Orientation::PortraitUpsideDown),
            DeviceOrientation::LandscapeLeft => Some(Orientation::LandscapeLeft),
            DeviceOrientation::LandscapeRight => Some(Orientation::LandscapeRight),
            _ => None,
        },
{
    match held {
        DeviceOrientation::Portrait => Some(Orientation::Portrait),
        DeviceOrientation::PortraitUpsideDown => Some(Orientation::PortraitUpsideDown),
        DeviceOrientation::LandscapeLeft => Some(Orientation::LandscapeLeft),
        DeviceOrientation::LandscapeRight => Some(Orientation::LandscapeRight),
        DeviceOrientation::FaceUp => None,
        DeviceOrientation::FaceDown => None,
        DeviceOrientation::Unknown(_) => None,
    }
}

/// The event that undoes a key event.
pub open spec fn opposite(action: HidAction) -> HidAction {
    match action {
        HidAction::Key { usage, down } => HidAction::Key { usage, down: !down },
        other => other,
    }
}

/// A keystroke leaves no key down: read backwards, each press in it is a release
/// of the same key and the other way round.
#[verifier::rlimit(30)]
pub proof fn law_keystrokes_release_in_reverse(usage: u64, mods: KeyMods)
    ensures
        chord(usage, mods).reverse().map_values(|a: HidAction| opposite(a)) == chord(usage, mods),
{
    assert(chord(usage, mods).reverse().map_values(|a: HidAction| opposite(a)) =~= chord(
        usage,
        mods,
    ));
}

/// A text is typed the same way in one piece or in two.
pub proof fn law_text_can_be_split(a: Seq<char>, b: Seq<char>)
    ensures
        typed_text(a + b) == typed_text(a) + typed_text(b),
    decreases b.len(),
{
    if b.len() == 0 {
        assert(a + b =~= a);
        assert(typed_text(a) + typed_text(b) =~= typed_text(a));
    } else {
        law_text_can_be_split(a, b.drop_last());
        assert((a + b).drop_last() =~= a + b.drop_last());
        assert(typed_text(a + b) =~= typed_text(a) + (typed_text(b.drop_last()) + typed_char(
            b.last(),
        )));
    }
}

/// A character that no key types changes nothing, wherever it stands.
pub proof fn law_untypable_characters_are_skipped(a: Seq<char>, c: char, b: Seq<char>)
    requires
        us_key(c) is None,
    ensures
        typed_text(a.push(c) + b) == typed_text(a + b),
{
    law_text_can_be_split(a.push(c), b);
    law_text_can_be_split(a, b);
    assert(a.push(c).drop_last() =~= a);
    assert(typed_text(a.push(c)) =~= typed_text(a));
}

/// A button press is its down event, a pause and its up event.
pub proof fn law_a_press_is_down_then_up(name: String)
    ensures
        button_named(name@) matches Some(b) ==> actions_of(InputCmd::Button(name), true)
            == actions_of(InputCmd::ButtonDown(name), true) + seq![
            HidAction::Pause { ms: b.hold_ms },
        ] + actions_of(InputCmd::ButtonUp(name), true),
{
    if let Some(b) = button_named(name@) {
        assert(actions_of(InputCmd::Button(name), true) =~= actions_of(
            InputCmd::ButtonDown(name),
            true,
        ) + seq![HidAction::Pause { ms: b.hold_ms }] + actions_of(InputCmd::ButtonUp(name), true));
    }
}

/// A keyboard at the device's end: the keys that are down, and the text that has
/// been typed on it.
#[verifier::ext_equal]
pub struct Keyboard {
    pub down: Set<u64>,
    pub text: Seq<char>,
}

/// Whether a key is one of the modifiers.
pub open spec fn is_modifier(usage: u64) -> bool {
    usage == KEY_LEFT_CTRL || usage == KEY_LEFT_ALT || usage == KEY_LEFT_CMD || usage
        == KEY_LEFT_SHIFT
}

/// The character that a key types on a US keyboard, with or without Shift.
pub open spec fn char_of(usage: u64, shift: bool) -> char {
    layout_char(usage, shift)
}

impl Keyboard {
    /// The keyboard after an action: a key that goes down, other than a modifier,
    /// types its character.
    pub open spec fn after(self, action: HidAction) -> Keyboard {
        match action {
            HidAction::Key { usage, down: true } => Keyboard {
                down: self.down.insert(usage),
                text: if is_modifier(usage) {
                    self.text
                } else {
                    self.text.push(char_of(usage, self.down.contains(KEY_LEFT_SHIFT)))
                },
            },
            HidAction::Key { usage, down: false } => Keyboard {
                down: self.down.remove(usage),
                ..self
            },
            _ => self,
        }
    }

    /// The keyboard after several actions.
    pub open spec fn after_all(self, actions: Seq<HidAction>) -> Keyboard
        decreases actions.len(),
    {
        if actions.len() == 0 {
            self
        } else {
            self.after_all(actions.drop_last()).after(actions.last())
        }
    }
}

proof fn lemma_in_two(keyboard: Keyboard, a: Seq<HidAction>, b: Seq<HidAction>)
    ensures
        keyboard.after_all(a + b) == keyboard.after_all(a).after_all(b),
    decreases b.len(),
{
    if b.len() == 0 {
        assert(a + b =~= a);
    } else {
        lemma_in_two(keyboard, a, b.drop_last());
        assert((a + b).drop_last() =~= a + b.drop_last());
    }
}

proof fn lemma_modifier(keyboard: Keyboard, usage: u64, held: bool, down: bool)
    requires
        is_modifier(usage),
    ensures
        keyboard.after_all(modifier(usage, held, down)) == (Keyboard {
            down: if !held {
                keyboard.down
            } else if down {
                keyboard.down.insert(usage)
            } else {
                keyboard.down.remove(usage)
            },
            ..keyboard
        }),
{
    reveal_with_fuel(Keyboard::after_all, 2);
    if held {
        let actions = modifier(usage, held, down);
        assert(actions.drop_last() =~= Seq::<HidAction>::empty());
    }
}

proof fn lemma_presses(keyboard: Keyboard, mods: KeyMods)
    requires
        keyboard.down == Set::<u64>::empty(),
    ensures
        keyboard.after_all(presses(mods)).text == keyboard.text,
        keyboard.after_all(presses(mods)).down.contains(KEY_LEFT_SHIFT) == mods.shift,
        forall|u: u64|
            keyboard.after_all(presses(mods)).down.contains(u) ==> {
                ||| u == KEY_LEFT_CTRL && mods.ctrl
                ||| u == KEY_LEFT_ALT && mods.alt
                ||| u == KEY_LEFT_CMD && mods.cmd
                ||| u == KEY_LEFT_SHIFT && mods.shift
            },
{
    let a = modifier(KEY_LEFT_CTRL, mods.ctrl, true);
    let b = modifier(KEY_LEFT_ALT, mods.alt, true);
    let c = modifier(KEY_LEFT_CMD, mods.cmd, true);
    let d = modifier(KEY_LEFT_SHIFT, mods.shift, true);
    lemma_in_two(keyboard, a, b);
    lemma_in_two(keyboard, a + b, c);
    lemma_in_two(keyboard, a + b + c, d);
    lemma_modifier(keyboard, KEY_LEFT_CTRL, mods.ctrl, true);
    lemma_modifier(keyboard.after_all(a), KEY_LEFT_ALT, mods.alt, true);
    lemma_modifier(keyboard.after_all(a + b), KEY_LEFT_CMD, mods.cmd, true);
    lemma_modifier(keyboard.after_all(a + b + c), KEY_LEFT_SHIFT, mods.shift, true);
}

proof fn lemma_releases(keyboard: Keyboard, mods: KeyMods)
    requires
        forall|u: u64|
            keyboard.down.contains(u) ==> {
                ||| u == KEY_LEFT_CTRL && mods.ctrl
                ||| u == KEY_LEFT_ALT && mods.alt
                ||| u == KEY_LEFT_CMD && mods.cmd
                ||| u == KEY_LEFT_SHIFT && mods.shift
            },
    ensures
        keyboard.after_all(releases(mods)) == (Keyboard { down: Set::empty(), ..keyboard }),
{
    let a = modifier(KEY_LEFT_SHIFT, mods.shift, false);
    let b = modifier(KEY_LEFT_CMD, mods.cmd, false);
    let c = modifier(KEY_LEFT_ALT, mods.alt, false);
    let d = modifier(KEY_LEFT_CTRL, mods.ctrl, false);
    lemma_in_two(keyboard, a, b);
    lemma_in_two(keyboard, a + b, c);
    lemma_in_two(keyboard, a + b + c, d);
    lemma_modifier(keyboard, KEY_LEFT_SHIFT, mods.shift, false);
    lemma_modifier(keyboard.after_all(a), KEY_LEFT_CMD, mods.cmd, false);
    lemma_modifier(keyboard.after_all(a + b), KEY_LEFT_ALT, mods.alt, false);
    lemma_modifier(keyboard.after_all(a + b + c), KEY_LEFT_CTRL, mods.ctrl, false);
    assert(keyboard.after_all(releases(mods)).down =~= Set::<u64>::empty());
}

/// A keystroke types its character, under Shift or not, and leaves no key down. A
/// modifier that is struck as a key types nothing.
pub proof fn law_a_keystroke_types_its_character(keyboard: Keyboard, usage: u64, mods: KeyMods)
    requires
        keyboard.down == Set::<u64>::empty(),
    ensures
        keyboard.after_all(keystroke(usage, mods)) == (Keyboard {
            down: Set::empty(),
            text: if is_modifier(usage) {
                keyboard.text
            } else {
                keyboard.text.push(char_of(usage, mods.shift))
            },
        }),
{
    let struck = seq![key(usage, true), key(usage, false)];
    let pause = seq![HidAction::Pause { ms: KEYSTROKE_GAP_MS }];
    lemma_presses(keyboard, mods);
    lemma_in_two(keyboard, presses(mods), struck);
    lemma_in_two(keyboard, presses(mods) + struck, releases(mods));
    lemma_in_two(keyboard, chord(usage, mods), pause);
    let pressed = keyboard.after_all(presses(mods));
    reveal_with_fuel(Keyboard::after_all, 3);
    assert(struck.drop_last() =~= seq![key(usage, true)]);
    assert(seq![key(usage, true)].drop_last() =~= Seq::<HidAction>::empty());
    assert(pause.drop_last() =~= Seq::<HidAction>::empty());
    lemma_releases(pressed.after_all(struck), mods);
}

/// The characters of a text that a key types: printable ASCII, line feed and tab.
pub open spec fn typable(text: Seq<char>) -> Seq<char> {
    text.filter(|c: char| ' ' <= c <= '~' || c == '\n' || c == '\t')
}

/// What is typed arrives: a text puts exactly its typable characters, in order, on
/// the keyboard at the other end, and leaves no key down.
pub proof fn law_what_is_typed_arrives(keyboard: Keyboard, text: Seq<char>)
    requires
        keyboard.down == Set::<u64>::empty(),
    ensures
        keyboard.after_all(typed_text(text)) == (Keyboard {
            down: Set::empty(),
            text: keyboard.text + typable(text),
        }),
    decreases text.len(),
{
    reveal(Seq::filter);
    if text.len() == 0 {
        assert(keyboard.text + typable(text) =~= keyboard.text);
    } else {
        let (start, c) = (text.drop_last(), text.last());
        law_what_is_typed_arrives(keyboard, start);
        lemma_in_two(keyboard, typed_text(start), typed_char(c));
        law_printable_ascii_can_be_typed(c);
        if let Some((usage, shift)) = us_key(c) {
            law_a_keystroke_types_its_character(
                keyboard.after_all(typed_text(start)),
                usage,
                KeyMods { shift, ..no_mods() },
            );
            law_a_character_stands_on_its_key(c);
            assert(keyboard.text + typable(start).push(c) =~= (keyboard.text + typable(start)).push(
                c,
            ));
        } else {
            assert(keyboard.after_all(typed_text(text)) == keyboard.after_all(typed_text(start)));
        }
    }
}

proof fn lemma_successes(actions: Seq<HidAction>, n: nat)
    requires
        n <= actions.len(),
    ensures
        PerformanceModel::beginning(actions).after_all(Seq::new(n, |i: int| true)) == (
        PerformanceModel { actions, tried: n, failed: false }),
    decreases n,
{
    if n > 0 {
        lemma_successes(actions, (n - 1) as nat);
        assert(Seq::new(n, |i: int| true).drop_last() =~= Seq::new((n - 1) as nat, |i: int| true));
    }
}

/// A failure ends a performance: if the action at `k` fails and those before it
/// succeed, exactly the actions up to it have been tried, in order, and nothing more
/// is, whatever else is reported.
pub proof fn law_a_failure_ends_the_performance(
    actions: Seq<HidAction>,
    k: int,
    more: Seq<bool>,
)
    requires
        0 <= k < actions.len(),
    ensures
        ({
            let outcomes = Seq::new(k as nat, |i: int| true).push(false);
            let end = PerformanceModel::beginning(actions).after_all(outcomes + more);
            &&& end.made() == performed(actions, Some(k))
            &&& end.made() == actions.take(k + 1)
            &&& end.tried == k + 1
            &&& end.due() is None
            &&& end.failed
        }),
    decreases more.len(),
{
    let good = Seq::new(k as nat, |i: int| true);
    let outcomes = good.push(false);
    if more.len() == 0 {
        lemma_successes(actions, k as nat);
        assert(outcomes.drop_last() =~= good);
        assert(outcomes + more =~= outcomes);
    } else {
        law_a_failure_ends_the_performance(actions, k, more.drop_last());
        assert((outcomes + more).drop_last() =~= outcomes + more.drop_last());
    }
}

/// Without a failure every action is tried, in order, and then nothing is due.
pub proof fn law_a_performance_is_complete(actions: Seq<HidAction>)
    ensures
        ({
            let end = PerformanceModel::beginning(actions).after_all(
                Seq::new(actions.len(), |i: int| true),
            );
            &&& end.made() == performed(actions, None)
            &&& end.made() == actions
            &&& end.due() is None
            &&& !end.failed
        }),
{
    lemma_successes(actions, actions.len());
    assert(actions.take(actions.len() as int) =~= actions);
}

/// A keystroke of which an event fails sends that event and those before it, in the
/// order of the whole keystroke: nothing more is pressed or released.
pub proof fn law_a_failed_keystroke_is_cut_short(usage: u64, mods: KeyMods, k: int)
    requires
        0 <= k < keystroke(usage, mods).len(),
    ensures
        ({
            let sent = performed(keystroke(usage, mods), Some(k));
            &&& sent.len() == k + 1
            &&& sent.is_prefix_of(keystroke(usage, mods))
        }),
{
}

/// Actions come in turn: while those before it succeed, the one at `k` is due after
/// exactly `k` of them, and reporting on it is what makes the next one due.
pub proof fn law_actions_come_in_turn(actions: Seq<HidAction>, k: int)
    requires
        0 <= k < actions.len(),
    ensures
        ({
            let before = PerformanceModel::beginning(actions).after_all(
                Seq::new(k as nat, |i: int| true),
            );
            &&& before.due() == Some(actions[k])
            &&& k + 1 < actions.len() ==> before.after(true).due() == Some(actions[k + 1])
            &&& before.after(false).due() is None
        }),
{
    lemma_successes(actions, k as nat);
}

/// How many modifiers are held.
pub open spec fn held(mods: KeyMods) -> int {
    seq![mods.ctrl, mods.alt, mods.cmd, mods.shift].filter(|b: bool| b).len() as int
}

proof fn lemma_held(a: bool, b: bool, c: bool, d: bool)
    ensures
        seq![a, b, c, d].filter(|b: bool| b).len() == (if a {
            1int
        } else {
            0
        }) + (if b {
            1int
        } else {
            0
        }) + (if c {
            1int
        } else {
            0
        }) + (if d {
            1int
        } else {
            0
        }),
{
    reveal_with_fuel(Seq::filter, 5);
    assert(seq![a, b, c, d].drop_last() =~= seq![a, b, c]);
    assert(seq![a, b, c].drop_last() =~= seq![a, b]);
    assert(seq![a, b].drop_last() =~= seq![a]);
    assert(seq![a].drop_last() =~= Seq::empty());
}

/// A chord holds exactly its modifiers while its key goes down and up: control,
/// option, command and shift are pressed in that order before it. A pause of twelve
/// milliseconds ends the keystroke.
pub proof fn law_a_chord_holds_its_modifiers(
    keyboard: Keyboard,
    usage: u64,
    mods: KeyMods,
    other: u64,
)
    requires
        keyboard.down == Set::<u64>::empty(),
    ensures
        ({
            let stroke = keystroke(usage, mods);
            let n = held(mods);
            let pressed = keyboard.after_all(stroke.take(n));
            &&& stroke.len() == 2 * n + 3
            &&& stroke.drop_last() == chord(usage, mods)
            &&& mods.ctrl ==> stroke[0] == (HidAction::Key { usage: 0xE0, down: true })
            &&& mods.alt && mods.ctrl ==> stroke[1] == (HidAction::Key { usage: 0xE2, down: true })
            &&& mods.alt && !mods.ctrl ==> stroke[0] == (HidAction::Key { usage: 0xE2, down: true })
            &&& mods.cmd && mods.shift ==> stroke[n - 2] == (HidAction::Key {
                usage: 0xE3,
                down: true,
            })
            &&& mods.cmd && !mods.shift ==> stroke[n - 1] == (HidAction::Key {
                usage: 0xE3,
                down: true,
            })
            &&& mods.shift ==> stroke[n - 1] == (HidAction::Key { usage: 0xE1, down: true })
            &&& stroke[n] == (HidAction::Key { usage, down: true })
            &&& stroke[n + 1] == (HidAction::Key { usage, down: false })
            &&& stroke.last() == (HidAction::Pause { ms: 12 })
            &&& pressed.down.contains(other) <==> {
                ||| mods.ctrl && other == 0xE0
                ||| mods.shift && other == 0xE1
                ||| mods.alt && other == 0xE2
                ||| mods.cmd && other == 0xE3
            }
        }),
{
    lemma_held(mods.ctrl, mods.alt, mods.cmd, mods.shift);
    assert(keystroke(usage, mods).drop_last() =~= chord(usage, mods));
    assert(keystroke(usage, mods).take(held(mods)) =~= presses(mods));
    lemma_presses(keyboard, mods);
    lemma_pressed(keyboard, mods);
}

proof fn lemma_pressed(keyboard: Keyboard, mods: KeyMods)
    ensures
        mods.ctrl ==> keyboard.after_all(presses(mods)).down.contains(KEY_LEFT_CTRL),
        mods.alt ==> keyboard.after_all(presses(mods)).down.contains(KEY_LEFT_ALT),
        mods.cmd ==> keyboard.after_all(presses(mods)).down.contains(KEY_LEFT_CMD),
{
    let a = modifier(KEY_LEFT_CTRL, mods.ctrl, true);
    let b = modifier(KEY_LEFT_ALT, mods.alt, true);
    let c = modifier(KEY_LEFT_CMD, mods.cmd, true);
    let d = modifier(KEY_LEFT_SHIFT, mods.shift, true);
    lemma_in_two(keyboard, a, b);
    lemma_in_two(keyboard, a + b, c);
    lemma_in_two(keyboard, a + b + c, d);
    lemma_modifier(keyboard, KEY_LEFT_CTRL, mods.ctrl, true);
    lemma_modifier(keyboard.after_all(a), KEY_LEFT_ALT, mods.alt, true);
    lemma_modifier(keyboard.after_all(a + b), KEY_LEFT_CMD, mods.cmd, true);
    lemma_modifier(keyboard.after_all(a + b + c), KEY_LEFT_SHIFT, mods.shift, true);
}

/// The commands that type do so whether the device can be rotated or not: a text
/// arrives as far as it can be typed, and a key as one keystroke, alone or under the
/// modifiers that it was given with.
pub proof fn law_typing_commands_type(
    keyboard: Keyboard,
    text: String,
    usage: u64,
    mods: KeyMods,
    can_rotate: bool,
)
    requires
        keyboard.down == Set::<u64>::empty(),
    ensures
        keyboard.after_all(actions_of(InputCmd::Text(text), can_rotate)) == (Keyboard {
            down: Set::empty(),
            text: keyboard.text + text@.filter(
                |c: char| ' ' <= c <= '~' || c == '\n' || c == '\t',
            ),
        }),
        actions_of(InputCmd::KeyCombo { usage, mods }, can_rotate) == keystroke(usage, mods),
        actions_of(InputCmd::KeyUsage(usage), can_rotate) == keystroke(
            usage,
            KeyMods { ctrl: false, alt: false, cmd: false, shift: false },
        ),
{
    law_what_is_typed_arrives(keyboard, text@);
}

/// Every character that can be typed takes one keystroke of its own, the pause with
/// it, and the keystrokes follow each other as the characters do.
pub proof fn law_characters_take_a_keystroke_each(text: Seq<char>, c: char)
    ensures
        typed_text(Seq::empty()).len() == 0,
        us_key(c) matches Some((usage, shift)) ==> typed_text(text.push(c)) == typed_text(text)
            + keystroke(usage, KeyMods { ctrl: false, alt: false, cmd: false, shift }),
        us_key(c) is None ==> typed_text(text.push(c)) == typed_text(text),
{
    assert(text.push(c).drop_last() =~= text);
    assert(typed_text(text) + Seq::<HidAction>::empty() =~= typed_text(text));
}

/// A finger is where the command says, on the screen until it is lifted; a device
/// turns the way it is told to, if it can be turned at all.
pub proof fn law_touches_and_turns_are_passed_on(
    x: u16,
    y: u16,
    dir: RotateDir,
    can_rotate: bool,
)
    ensures
        actions_of(InputCmd::Tap { x, y }, can_rotate) == seq![HidAction::Tap { x, y }],
        actions_of(InputCmd::TouchDown { x, y }, can_rotate) == seq![
            HidAction::Touch { contact: true, x, y },
        ],
        actions_of(InputCmd::TouchMove { x, y }, can_rotate) == seq![
            HidAction::Touch { contact: true, x, y },
        ],
        actions_of(InputCmd::TouchUp { x, y }, can_rotate) == seq![
            HidAction::Touch { contact: false, x, y },
        ],
        actions_of(InputCmd::Rotate(dir), true) == seq![HidAction::Rotate(dir)],
        actions_of(InputCmd::Rotate(dir), false).len() == 0,
{
}

/// A button goes down and up under its own page and code, and is held for its own
/// time; a name without a button does nothing.
pub proof fn law_buttons_go_down_and_up(name: String, can_rotate: bool)
    ensures
        button_named(name@) matches Some(b) ==> {
            let press = actions_of(InputCmd::Button(name), can_rotate);
            let down = HidAction::Button { page: b.page, code: b.code, down: true };
            let up = HidAction::Button { page: b.page, code: b.code, down: false };
            &&& actions_of(InputCmd::ButtonDown(name), can_rotate) == seq![down]
            &&& actions_of(InputCmd::ButtonUp(name), can_rotate) == seq![up]
            &&& press == seq![down, HidAction::Pause { ms: b.hold_ms }, up]
        },
        button_named(name@) is None ==> {
            &&& actions_of(InputCmd::Button(name), can_rotate).len() == 0
            &&& actions_of(InputCmd::ButtonDown(name), can_rotate).len() == 0
            &&& actions_of(InputCmd::ButtonUp(name), can_rotate).len() == 0
        },
{
}

} // verus!
