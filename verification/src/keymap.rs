//! Key and button codes of the HID usage tables.
use vstd::prelude::*;

use crate::text::same;

verus! {

/// Usages of the left-hand modifier keys.
pub const KEY_LEFT_CTRL: u64 = 0xE0;

pub const KEY_LEFT_SHIFT: u64 = 0xE1;

pub const KEY_LEFT_ALT: u64 = 0xE2;

pub const KEY_LEFT_CMD: u64 = 0xE3;

/// The key that types a character on a US keyboard, and whether with Shift.
pub open spec fn us_key(c: char) -> Option<(u64, bool)> {
    match c {
        'a'..='z' => Some(((0x04 + (c as u64 - 'a' as u64)) as u64, false)),
        'A'..='Z' => Some(((0x04 + (c as u64 - 'A' as u64)) as u64, true)),
        '1'..='9' => Some(((0x1E + (c as u64 - '1' as u64)) as u64, false)),
        '0' => Some((0x27, false)),
        '\n' => Some((0x28, false)),
        '\t' => Some((0x2B, false)),
        ' ' => Some((0x2C, false)),
        '!' => Some((0x1E, true)),
        '@' => Some((0x1F, true)),
        '#' => Some((0x20, true)),
        '$' => Some((0x21, true)),
        '%' => Some((0x22, true)),
        '^' => Some((0x23, true)),
        '&' => Some((0x24, true)),
        '*' => Some((0x25, true)),
        '(' => Some((0x26, true)),
        ')' => Some((0x27, true)),
        '-' => Some((0x2D, false)),
        '_' => Some((0x2D, true)),
        '=' => Some((0x2E, false)),
        '+' => Some((0x2E, true)),
        '[' => Some((0x2F, false)),
        '{' => Some((0x2F, true)),
        ']' => Some((0x30, false)),
        '}' => Some((0x30, true)),
        '\\' => Some((0x31, false)),
        '|' => Some((0x31, true)),
        ';' => Some((0x33, false)),
        ':' => Some((0x33, true)),
        '\'' => Some((0x34, false)),
        '"' => Some((0x34, true)),
        '`' => Some((0x35, false)),
        '~' => Some((0x35, true)),
        ',' => Some((0x36, false)),
        '<' => Some((0x36, true)),
        '.' => Some((0x37, false)),
        '>' => Some((0x37, true)),
        '/' => Some((0x38, false)),
        '?' => Some((0x38, true)),
        _ => None,
    }
}

/// Map a character to the HID Keyboard usage that types it on a US layout, and
/// whether Shift is required.
pub fn ascii_to_usage(c: char) -> (r: Option<(u64, bool)>)
    ensures
        r == us_key(c),
{
    Some(
        match c {
            'a'..='z' => (0x04 + (c as u64 - 'a' as u64), false),
            'A'..='Z' => (0x04 + (c as u64 - 'A' as u64), true),
            '1'..='9' => (0x1E + (c as u64 - '1' as u64), false),
            '0' => (0x27, false),
            '\n' => (0x28, false),
            '\t' => (0x2B, false),
            ' ' => (0x2C, false),
            '!' => (0x1E, true),
            '@' => (0x1F, true),
            '#' => (0x20, true),
            '$' => (0x21, true),
            '%' => (0x22, true),
            '^' => (0x23, true),
            '&' => (0x24, true),
            '*' => (0x25, true),
            '(' => (0x26, true),
            ')' => (0x27, true),
            '-' => (0x2D, false),
            '_' => (0x2D, true),
            '=' => (0x2E, false),
            '+' => (0x2E, true),
            '[' => (0x2F, false),
            '{' => (0x2F, true),
            ']' => (0x30, false),
            '}' => (0x30, true),
            '\\' => (0x31, false),
            '|' => (0x31, true),
            ';' => (0x33, false),
            ':' => (0x33, true),
            '\'' => (0x34, false),
            '"' => (0x34, true),
            '`' => (0x35, false),
            '~' => (0x35, true),
            ',' => (0x36, false),
            '<' => (0x36, true),
            '.' => (0x37, false),
            '>' => (0x37, true),
            '/' => (0x38, false),
            '?' => (0x38, true),
            _ => {
                return None;
            },
        },
    )
}

/// No two characters are typed alike: what is typed can be read back.
pub proof fn law_keys_are_distinct(c: char, d: char)
    requires
        us_key(c) is Some,
        us_key(c) == us_key(d),
    ensures
        c == d,
{
}

/// Exactly the printable ASCII characters, line feed and tab can be typed.
pub proof fn law_printable_ascii_can_be_typed(c: char)
    ensures
        us_key(c) is Some <==> ' ' <= c <= '~' || c == '\n' || c == '\t',
{
}

/// The two cases of a letter share a key and differ in Shift.
pub proof fn law_cases_share_a_key(lower: char, upper: char)
    requires
        'a' <= lower <= 'z',
        upper as u32 + 32 == lower as u32,
    ensures
        us_key(lower) matches Some((usage, false)) && us_key(upper) == Some((usage, true)),
{
}

/// A hardware button: its usage page, its usage code, and how long a press holds
/// it down.
#[derive(Debug, Clone, Copy, PartialEq, Eq, Structural)]
pub struct Button {
    pub page: u64,
    pub code: u64,
    pub hold_ms: u64,
}

/// The names of the hardware buttons.
pub open spec fn button_names() -> Seq<Seq<char>> {
    seq![
        "home"@,
        "lock"@,
        "volume-up"@,
        "volume-down"@,
        "mute"@,
        "siri"@,
        "action"@,
    ]
}

/// The button of a name. All are on the consumer page but the action button,
/// which is on the telephony page.
pub open spec fn button_named(name: Seq<char>) -> Option<Button> {
    if name == "home"@ {
        Some(Button { page: 0x0C, code: 0x40, hold_ms: 80 })
    } else if name == "lock"@ {
        Some(Button { page: 0x0C, code: 0x30, hold_ms: 200 })
    } else if name == "volume-up"@ {
        Some(Button { page: 0x0C, code: 0xE9, hold_ms: 80 })
    } else if name == "volume-down"@ {
        Some(Button { page: 0x0C, code: 0xEA, hold_ms: 80 })
    } else if name == "mute"@ {
        Some(Button { page: 0x0C, code: 0xE2, hold_ms: 80 })
    } else if name == "siri"@ {
        Some(Button { page: 0x0C, code: 0xCF, hold_ms: 1200 })
    } else if name == "action"@ {
        Some(Button { page: 0x0B, code: 0x2D, hold_ms: 80 })
    } else {
        None
    }
}

/// The names of the hardware buttons, in the order in which they are offered.
pub fn named_buttons() -> (r: Vec<&'static str>)
    ensures
        r@.map_values(|n: &'static str| n@) == button_names(),
{
    let names: Vec<&'static str> = vec![
        "home",
        "lock",
        "volume-up",
        "volume-down",
        "mute",
        "siri",
        "action",
    ];
    assert(names@.map_values(|n: &'static str| n@) =~= button_names());
    names
}

/// Look a hardware button up by its name.
pub fn find_button(name: &str) -> (r: Option<Button>)
    ensures
        r == button_named(name@),
{
    if same(name, "home") {
        Some(Button { page: 0x0C, code: 0x40, hold_ms: 80 })
    } else if same(name, "lock") {
        Some(Button { page: 0x0C, code: 0x30, hold_ms: 200 })
    } else if same(name, "volume-up") {
        Some(Button { page: 0x0C, code: 0xE9, hold_ms: 80 })
    } else if same(name, "volume-down") {
        Some(Button { page: 0x0C, code: 0xEA, hold_ms: 80 })
    } else if same(name, "mute") {
        Some(Button { page: 0x0C, code: 0xE2, hold_ms: 80 })
    } else if same(name, "siri") {
        Some(Button { page: 0x0C, code: 0xCF, hold_ms: 1200 })
    } else if same(name, "action") {
        Some(Button { page: 0x0B, code: 0x2D, hold_ms: 80 })
    } else {
        None
    }
}

/// Exactly the offered names have a button.
pub proof fn law_offered_buttons_exist(name: Seq<char>)
    ensures
        button_named(name) is Some <==> button_names().contains(name),
{
    let names = button_names();
    if button_named(name) is Some {
        assert(names[0] == "home"@ && names[1] == "lock"@ && names[2] == "volume-up"@ && names[3]
            == "volume-down"@ && names[4] == "mute"@ && names[5] == "siri"@ && names[6]
            == "action"@);
    }
}

/// No two names share a button.
pub proof fn law_buttons_are_distinct(a: Seq<char>, b: Seq<char>)
    requires
        button_named(a) is Some,
        button_named(a) == button_named(b),
    ensures
        a == b,
{
}

/// The keys follow the usage table: letters, digits, Return, then (past Escape and
/// Backspace) Tab and Space, and the punctuation keys, row by row, each with what
/// Shift makes of it.
pub proof fn law_keys_follow_the_usage_table(i: int)
    ensures
        0 <= i < 36 ==> us_key("abcdefghijklmnopqrstuvwxyz1234567890"@[i]) == Some(
            ((0x04 + i) as u64, false),
        ),
        0 <= i < 36 ==> us_key("ABCDEFGHIJKLMNOPQRSTUVWXYZ!@#$%^&*()"@[i]) == Some(
            ((0x04 + i) as u64, true),
        ),
        us_key('\n') == Some((0x28u64, false)),
        us_key('\t') == Some((0x2Bu64, false)),
        us_key(' ') == Some((0x2Cu64, false)),
        0 <= i < 5 ==> us_key("-=[]\\"@[i]) == Some(((0x2D + i) as u64, false)),
        0 <= i < 5 ==> us_key("_+{}|"@[i]) == Some(((0x2D + i) as u64, true)),
        0 <= i < 6 ==> us_key(";'`,./"@[i]) == Some(((0x33 + i) as u64, false)),
        0 <= i < 6 ==> us_key(":\"~<>?"@[i]) == Some(((0x33 + i) as u64, true)),
{
    reveal_strlit("abcdefghijklmnopqrstuvwxyz1234567890");
    reveal_strlit("ABCDEFGHIJKLMNOPQRSTUVWXYZ!@#$%^&*()");
    reveal_strlit("-=[]\\");
    reveal_strlit("_+{}|");
    reveal_strlit(";'`,./");
    reveal_strlit(":\"~<>?");
}

/// The character that stands on a key of the US layout, with or without Shift: row
/// by row in the order of the usage table. Return, Tab and Space have one each.
pub open spec fn layout_char(usage: u64, shift: bool) -> char {
    let i = usage as int;
    if 0x04 <= i < 0x28 {
        if shift {
            "ABCDEFGHIJKLMNOPQRSTUVWXYZ!@#$%^&*()"@[i - 0x04]
        } else {
            "abcdefghijklmnopqrstuvwxyz1234567890"@[i - 0x04]
        }
    } else if i == 0x28 {
        '\n'
    } else if i == 0x2B {
        '\t'
    } else if i == 0x2C {
        ' '
    } else if 0x2D <= i < 0x32 {
        if shift {
            "_+{}|"@[i - 0x2D]
        } else {
            "-=[]\\"@[i - 0x2D]
        }
    } else if 0x33 <= i < 0x39 {
        if shift {
            ":\"~<>?"@[i - 0x33]
        } else {
            ";'`,./"@[i - 0x33]
        }
    } else {
        '\0'
    }
}

/// The key of a character is the one on which it stands, with Shift or without.
pub proof fn law_a_character_stands_on_its_key(c: char)
    ensures
        us_key(c) matches Some((usage, shift)) ==> layout_char(usage, shift) == c,
{
    reveal_strlit("abcdefghijklmnopqrstuvwxyz1234567890");
    reveal_strlit("ABCDEFGHIJKLMNOPQRSTUVWXYZ!@#$%^&*()");
    reveal_strlit("-=[]\\");
    reveal_strlit("_+{}|");
    reveal_strlit(";'`,./");
    reveal_strlit(":\"~<>?");
    if let Some((usage, shift)) = us_key(c) {
        law_keys_follow_the_usage_table(usage - 0x04);
        law_keys_follow_the_usage_table(usage - 0x2D);
        law_keys_follow_the_usage_table(usage - 0x33);
        assert(us_key(layout_char(usage, shift)) == us_key(c));
        law_keys_are_distinct(c, layout_char(usage, shift));
    }
}

/// The buttons have the usages that the consumer page (0x0C) gives to Menu, Power,
/// Volume Up and Down, Mute and Voice Command, and the action button that of the
/// telephony page (0x0B). A press is brief but for Siri's and the lock's.
pub proof fn law_buttons_have_their_usages(i: int)
    requires
        0 <= i < 7,
    ensures
        ({
            let names = seq![
                "home"@,
                "lock"@,
                "volume-up"@,
                "volume-down"@,
                "mute"@,
                "siri"@,
                "action"@,
            ];
            let pages = seq![0x0Cu64, 0x0C, 0x0C, 0x0C, 0x0C, 0x0C, 0x0B];
            let codes = seq![0x40u64, 0x30, 0xE9, 0xEA, 0xE2, 0xCF, 0x2D];
            let holds = seq![80u64, 200, 80, 80, 80, 1200, 80];
            &&& button_names().len() == 7
            &&& button_names()[i] == names[i]
            &&& button_named(names[i]) == Some(
                Button { page: pages[i], code: codes[i], hold_ms: holds[i] },
            )
        }),
{
    reveal_strlit("home");
    reveal_strlit("lock");
    reveal_strlit("volume-up");
    reveal_strlit("volume-down");
    reveal_strlit("mute");
    reveal_strlit("siri");
    reveal_strlit("action");
    assert("home"@[0] != "lock"@[0]);
    assert("home"@[0] != "mute"@[0]);
    assert("home"@[0] != "siri"@[0]);
    assert("lock"@[0] != "mute"@[0]);
    assert("lock"@[0] != "siri"@[0]);
    assert("mute"@[0] != "siri"@[0]);
    assert("volume-up"@.len() == 9 && "volume-down"@.len() == 11 && "action"@.len() == 6);
    assert(i == 0 || i == 1 || i == 2 || i == 3 || i == 4 || i == 5 || i == 6);
}

/// The modifiers are keys of their own, which type nothing.
pub proof fn law_modifiers_have_their_usages(c: char)
    ensures
        KEY_LEFT_CTRL == 0xE0,
        KEY_LEFT_SHIFT == 0xE1,
        KEY_LEFT_ALT == 0xE2,
        KEY_LEFT_CMD == 0xE3,
        us_key(c) matches Some((usage, _)) ==> usage < 0xE0,
{
}

} // verus!
