//! Software keyboard state: current layout, shift key and the last input event.

use vstd::prelude::*;
use crate::text::{push_text, to_uppercase, uppercase};

verus! {

/// Software keyboard input type.
#[derive(PartialEq, Eq, Structural)]
pub enum KeyboardLayout {
    TEXT,
    SYMBOLS,
    NUMBERS,
}

/// Software keyboard input event.
pub enum KeyboardEvent {
    TEXT(String),
    CLEAR,
    ENTER,
}

/// Software keyboard window state.
pub struct KeyboardState {
    /// Last input event.
    pub last_event: Option<KeyboardEvent>,
    /// Current layout.
    pub layout: KeyboardLayout,
    /// Flag to enter uppercase symbol first.
    pub shift: bool,
}

impl KeyboardState {
    /// State after its last input event was taken: no event, layout and shift kept.
    pub open spec fn after_take(self) -> KeyboardState {
        KeyboardState { last_event: None, layout: self.layout, shift: self.shift }
    }
}

impl Default for KeyboardState {
    /// Initial state: no event, text layout, shift released.
    fn default() -> (s: Self)
        ensures
            s.last_event is None,
            s.layout == KeyboardLayout::TEXT,
            !s.shift,
    {
        KeyboardState { last_event: None, layout: KeyboardLayout::TEXT, shift: false }
    }
}

/// Software keyboard content.
pub struct KeyboardContent {
    /// Keyboard content state.
    pub state: KeyboardState,
}

/// Text a key with label `s` produces for the given shift state.
pub open spec fn key_label(s: Seq<char>, shift: bool) -> Seq<char> {
    if shift {
        uppercase(s)
    } else {
        s
    }
}

impl Default for KeyboardContent {
    /// Content with the initial keyboard state.
    fn default() -> (c: Self)
        ensures
            c.state.last_event is None,
            c.state.layout == KeyboardLayout::TEXT,
            !c.state.shift,
    {
        KeyboardContent { state: KeyboardState::default() }
    }
}

impl KeyboardContent {
    /// Keyboard window id.
    pub const WINDOW_ID: &'static str = "soft_keyboard_window";

    /// Select layout for the kind of input: numbers for numeric input, text layout
    /// when a numeric layout is left for a text input, otherwise the current one.
    pub fn setup_layout(&mut self, numeric: bool)
        ensures
            final(self).state.layout == (if numeric {
                KeyboardLayout::NUMBERS
            } else if old(self).state.layout == KeyboardLayout::NUMBERS {
                KeyboardLayout::TEXT
            } else {
                old(self).state.layout
            }),
            final(self).state.shift == old(self).state.shift,
            final(self).state.last_event == old(self).state.last_event,
    {
        if numeric {
            self.state.layout = KeyboardLayout::NUMBERS;
        } else if self.state.layout == KeyboardLayout::NUMBERS {
            self.state.layout = KeyboardLayout::TEXT;
        }
    }

    /// Label shown on a key: upper case while shift is active.
    pub fn button_label(&self, s: &str) -> (r: String)
        ensures
            r@ == key_label(s@, self.state.shift),
    {
        if self.state.shift {
            to_uppercase(s)
        } else {
            s.to_owned()
        }
    }

    /// Input key press: enter its label as text and release shift.
    pub fn press_input(&mut self, value: &str)
        ensures
            final(self).state.last_event matches Some(KeyboardEvent::TEXT(t)) && t@ == key_label(
                value@,
                old(self).state.shift,
            ),
            !final(self).state.shift,
            final(self).state.layout == old(self).state.layout,
    {
        let label = self.button_label(value);
        self.state.last_event = Some(KeyboardEvent::TEXT(label));
        self.state.shift = false;
    }

    /// Space key press: enter its label as text, shift state is kept.
    pub fn press_space(&mut self)
        ensures
            final(self).state.last_event matches Some(KeyboardEvent::TEXT(t)) && t@ == key_label(
                " "@,
                old(self).state.shift,
            ),
            final(self).state.shift == old(self).state.shift,
            final(self).state.layout == old(self).state.layout,
    {
        let label = self.button_label(" ");
        self.state.last_event = Some(KeyboardEvent::TEXT(label));
    }

    /// Backspace key press.
    pub fn press_backspace(&mut self)
        ensures
            final(self).state.last_event matches Some(KeyboardEvent::CLEAR),
            final(self).state.shift == old(self).state.shift,
            final(self).state.layout == old(self).state.layout,
    {
        self.state.last_event = Some(KeyboardEvent::CLEAR);
    }

    /// Enter key press.
    pub fn press_enter(&mut self)
        ensures
            final(self).state.last_event matches Some(KeyboardEvent::ENTER),
            final(self).state.shift == old(self).state.shift,
            final(self).state.layout == old(self).state.layout,
    {
        self.state.last_event = Some(KeyboardEvent::ENTER);
    }

    /// Shift key press: toggle shift.
    pub fn press_shift(&mut self)
        ensures
            final(self).state.shift == !old(self).state.shift,
            final(self).state.last_event == old(self).state.last_event,
            final(self).state.layout == old(self).state.layout,
    {
        self.state.shift = !self.state.shift;
    }

    /// Layout switch key press.
    pub fn switch_layout(&mut self, layout: KeyboardLayout)
        ensures
            final(self).state.layout == layout,
            final(self).state.shift == old(self).state.shift,
            final(self).state.last_event == old(self).state.last_event,
    {
        self.state.layout = layout;
    }

    /// Locale of key labels: English when it is forced, otherwise the application
    /// locale, English when none is set.
    pub fn input_locale(english: bool, locale: Option<String>) -> (r: String)
        ensures
            r@ == (if english {
                "en"@
            } else {
                match locale {
                    Some(l) => l@,
                    None => "en"@,
                }
            }),
    {
        if english {
            "en".to_owned()
        } else {
            match locale {
                Some(l) => l,
                None => "en".to_owned(),
            }
        }
    }

    /// Localization key of the label of an input key.
    pub fn localization_key(label: &str) -> (r: String)
        ensures
            r@ == "keyboard."@ + label@,
    {
        let mut key = String::new();
        push_text(&mut key, "keyboard.");
        push_text(&mut key, label);
        key
    }

    /// Take the last keyboard input event, leaving none behind.
    pub fn consume_event(state: &mut KeyboardState) -> (r: Option<KeyboardEvent>)
        ensures
            r == old(state).last_event,
            *final(state) == old(state).after_take(),
    {
        state.last_event.take()
    }

    /// Emulate release of the Shift key.
    pub fn unshift(state: &mut KeyboardState)
        ensures
            !final(state).shift,
            final(state).layout == old(state).layout,
            final(state).last_event == old(state).last_event,
    {
        state.shift = false;
    }

    /// Reset keyboard window state to the text layout.
    pub fn reset_window_state(state: &mut KeyboardState)
        ensures
            final(state).layout == KeyboardLayout::TEXT,
            final(state).shift == old(state).shift,
            final(state).last_event == old(state).last_event,
    {
        state.layout = KeyboardLayout::TEXT;
    }
}

/// Key of the software keyboard.
pub enum Key {
    /// Input key with its label, localized for the input locale when the flag is set.
    Input(&'static str, bool),
    /// Erase key.
    Backspace,
    /// Shift key.
    Shift,
    /// Enter key.
    Enter,
    /// Space key.
    Space,
    /// Switch between English and the application language.
    SwitchLanguage,
    /// Switch to another layout.
    Layout(KeyboardLayout),
}

/// Rows of keys of a layout, from the top.
pub open spec fn layout_keys(layout: KeyboardLayout) -> Seq<Seq<Key>> {
    match layout {
        KeyboardLayout::TEXT => seq![
            seq![
                Key::Input("1", true), Key::Input("2", true), Key::Input("3", true),
                Key::Input("4", true), Key::Input("5", true), Key::Input("6", true),
                Key::Input("7", true), Key::Input("8", true), Key::Input("9", true),
                Key::Input("0", true), Key::Input("01", true),
            ],
            seq![
                Key::Input("q", true), Key::Input("w", true), Key::Input("e", true),
                Key::Input("r", true), Key::Input("t", true), Key::Input("y", true),
                Key::Input("u", true), Key::Input("i", true), Key::Input("o", true),
                Key::Input("p", true), Key::Input("p1", true),
            ],
            seq![
                Key::Input("a", true), Key::Input("s", true), Key::Input("d", true),
                Key::Input("f", true), Key::Input("g", true), Key::Input("h", true),
                Key::Input("j", true), Key::Input("k", true), Key::Input("l", true),
                Key::Input("l1", true), Key::Input("l2", true),
            ],
            seq![
                Key::Shift, Key::Input("z", true), Key::Input("x", true), Key::Input("c", true),
                Key::Input("v", true), Key::Input("b", true), Key::Input("n", true),
                Key::Input("m", true), Key::Input("m1", true), Key::Input("m2", true),
                Key::Backspace,
            ],
        ],
        KeyboardLayout::SYMBOLS => seq![
            seq![
                Key::Input("[", false), Key::Input("]", false), Key::Input("{", false),
                Key::Input("}", false), Key::Input("#", false), Key::Input("%", false),
                Key::Input("^", false), Key::Input("*", false), Key::Input("+", false),
                Key::Input("=", false),
            ],
            seq![
                Key::Input("_", false), Key::Input("\\", false), Key::Input("|", false),
                Key::Input("~", false), Key::Input("<", false), Key::Input(">", false),
                Key::Input("№", false), Key::Input("√", false), Key::Input("π", false),
                Key::Input("•", false),
            ],
            seq![
                Key::Input("-", false), Key::Input("/", false), Key::Input(":", false),
                Key::Input(";", false), Key::Input("(", false), Key::Input(")", false),
                Key::Input("`", false), Key::Input("&", false), Key::Input("@", false),
                Key::Input("\"", false),
            ],
            seq![
                Key::Input(".", false), Key::Input(",", false), Key::Input("?", false),
                Key::Input("!", false), Key::Input("€", false), Key::Input("£", false),
                Key::Input("¥", false), Key::Input("$", false), Key::Input("¢", false),
                Key::Backspace,
            ],
        ],
        KeyboardLayout::NUMBERS => seq![
            seq![
                Key::Input("1", true), Key::Input("2", true), Key::Input("3", true),
                Key::Input("+", false),
            ],
            seq![
                Key::Input("4", true), Key::Input("5", true), Key::Input("6", true),
                Key::Input(",", false),
            ],
            seq![
                Key::Input("7", true), Key::Input("8", true), Key::Input("9", true),
                Key::Backspace,
            ],
        ],
    }
}

/// Keys of the bottom row of a layout, from the right.
pub open spec fn bottom_keys(layout: KeyboardLayout) -> Seq<Key> {
    match layout {
        KeyboardLayout::TEXT => seq![
            Key::Enter, Key::Input("m3", true), Key::Space, Key::SwitchLanguage,
            Key::Layout(KeyboardLayout::SYMBOLS),
        ],
        KeyboardLayout::SYMBOLS => seq![
            Key::Enter, Key::Input("ツ", false), Key::Space, Key::Layout(KeyboardLayout::TEXT),
        ],
        KeyboardLayout::NUMBERS => seq![Key::Enter, Key::Input("0", true), Key::Input(".", false)],
    }
}

/// Rows of keys of a layout, from the top.
pub fn key_rows(layout: &KeyboardLayout) -> (r: Vec<Vec<Key>>)
    ensures
        r@.map_values(|row: Vec<Key>| row@) == layout_keys(*layout),
{
    let r = match layout {
        KeyboardLayout::TEXT => vec![
                vec![
                    Key::Input("1", true), Key::Input("2", true), Key::Input("3", true),
                    Key::Input("4", true), Key::Input("5", true), Key::Input("6", true),
                    Key::Input("7", true), Key::Input("8", true), Key::Input("9", true),
                    Key::Input("0", true), Key::Input("01", true),
                ],
                vec![
                    Key::Input("q", true), Key::Input("w", true), Key::Input("e", true),
                    Key::Input("r", true), Key::Input("t", true), Key::Input("y", true),
                    Key::Input("u", true), Key::Input("i", true), Key::Input("o", true),
                    Key::Input("p", true), Key::Input("p1", true),
                ],
                vec![
                    Key::Input("a", true), Key::Input("s", true), Key::Input("d", true),
                    Key::Input("f", true), Key::Input("g", true), Key::Input("h", true),
                    Key::Input("j", true), Key::Input("k", true), Key::Input("l", true),
                    Key::Input("l1", true), Key::Input("l2", true),
                ],
                vec![
                    Key::Shift, Key::Input("z", true), Key::Input("x", true),
                    Key::Input("c", true), Key::Input("v", true), Key::Input("b", true),
                    Key::Input("n", true), Key::Input("m", true), Key::Input("m1", true),
                    Key::Input("m2", true), Key::Backspace,
                ],
            ],
        KeyboardLayout::SYMBOLS => vec![
                vec![
                    Key::Input("[", false), Key::Input("]", false), Key::Input("{", false),
                    Key::Input("}", false), Key::Input("#", false), Key::Input("%", false),
                    Key::Input("^", false), Key::Input("*", false), Key::Input("+", false),
                    Key::Input("=", false),
                ],
                vec![
                    Key::Input("_", false), Key::Input("\\", false), Key::Input("|", false),
                    Key::Input("~", false), Key::Input("<", false), Key::Input(">", false),
                    Key::Input("№", false), Key::Input("√", false), Key::Input("π", false),
                    Key::Input("•", false),
                ],
                vec![
                    Key::Input("-", false), Key::Input("/", false), Key::Input(":", false),
                    Key::Input(";", false), Key::Input("(", false), Key::Input(")", false),
                    Key::Input("`", false), Key::Input("&", false), Key::Input("@", false),
                    Key::Input("\"", false),
                ],
                vec![
                    Key::Input(".", false), Key::Input(",", false), Key::Input("?", false),
                    Key::Input("!", false), Key::Input("€", false), Key::Input("£", false),
                    Key::Input("¥", false), Key::Input("$", false), Key::Input("¢", false),
                    Key::Backspace,
                ],
            ],
        KeyboardLayout::NUMBERS => vec![
                vec![
                    Key::Input("1", true), Key::Input("2", true), Key::Input("3", true),
                    Key::Input("+", false),
                ],
                vec![
                    Key::Input("4", true), Key::Input("5", true), Key::Input("6", true),
                    Key::Input(",", false),
                ],
                vec![
                    Key::Input("7", true), Key::Input("8", true), Key::Input("9", true),
                    Key::Backspace,
                ],
            ],
    };
    assert(r@.map_values(|row: Vec<Key>| row@) =~= layout_keys(*layout));
    r
}

/// Keys of the bottom row of a layout, from the right.
pub fn bottom_row(layout: &KeyboardLayout) -> (r: Vec<Key>)
    ensures
        r@ == bottom_keys(*layout),
{
    let r = match layout {
        KeyboardLayout::TEXT => vec![
            Key::Enter, Key::Input("m3", true), Key::Space, Key::SwitchLanguage,
            Key::Layout(KeyboardLayout::SYMBOLS),
        ],
        KeyboardLayout::SYMBOLS => vec![
            Key::Enter, Key::Input("ツ", false), Key::Space, Key::Layout(KeyboardLayout::TEXT),
        ],
        KeyboardLayout::NUMBERS => vec![Key::Enter, Key::Input("0", true), Key::Input(".", false)],
    };
    assert(r@ =~= bottom_keys(*layout));
    r
}

/// An input event is taken once: taking again finds no event and changes nothing.
pub proof fn law_event_taken_once(s: KeyboardState)
    ensures
        s.after_take().last_event is None,
        s.after_take().after_take() == s.after_take(),
{
}

/// Layout chosen for a kind of input from the layout before, as
/// [`KeyboardContent::setup_layout`] chooses it.
pub open spec fn layout_for_input(numeric: bool, before: KeyboardLayout) -> KeyboardLayout {
    if numeric {
        KeyboardLayout::NUMBERS
    } else if before == KeyboardLayout::NUMBERS {
        KeyboardLayout::TEXT
    } else {
        before
    }
}

/// The layout shows a key: in one of its rows or in its bottom row.
pub open spec fn shows_key(layout: KeyboardLayout, k: Key) -> bool {
    ||| exists|i: int, j: int|
        0 <= i < layout_keys(layout).len() && 0 <= j < layout_keys(layout)[i].len()
            && #[trigger] layout_keys(layout)[i][j] == k
    ||| bottom_keys(layout).contains(k)
}

/// Layout after a key press: a layout key switches to its layout, as
/// [`KeyboardContent::switch_layout`] does; the other keys keep the layout.
pub open spec fn after_press(layout: KeyboardLayout, k: Key) -> KeyboardLayout {
    match k {
        Key::Layout(l) => l,
        _ => layout,
    }
}

/// Layout after key presses in order.
pub open spec fn after_presses(layout: KeyboardLayout, keys: Seq<Key>) -> KeyboardLayout
    decreases keys.len(),
{
    if keys.len() == 0 {
        layout
    } else {
        after_press(after_presses(layout, keys.drop_last()), keys.last())
    }
}

/// Each pressed key is shown by the layout at the time it is pressed.
pub open spec fn shown_presses(layout: KeyboardLayout, keys: Seq<Key>) -> bool {
    forall|i: int|
        0 <= i < keys.len() ==> shows_key(after_presses(layout, keys.take(i)), #[trigger] keys[i])
}

/// The numbers layout shows no layout key; the text layout shows only the one to the
/// symbols, and the symbols layout only the one to the text.
proof fn lemma_layout_keys(layout: KeyboardLayout, l: KeyboardLayout)
    requires
        shows_key(layout, Key::Layout(l)),
    ensures
        (layout == KeyboardLayout::TEXT && l == KeyboardLayout::SYMBOLS) || (layout
            == KeyboardLayout::SYMBOLS && l == KeyboardLayout::TEXT),
{
    let k = Key::Layout(l);
    let rows = layout_keys(layout);
    if exists|i: int, j: int| 0 <= i < rows.len() && 0 <= j < rows[i].len() && #[trigger] rows[i][j] == k {
        let (i, j) = choose|i: int, j: int|
            0 <= i < rows.len() && 0 <= j < rows[i].len() && #[trigger] rows[i][j] == k;
        assert(!(rows[i][j] is Layout));
    }
    let bottom = bottom_keys(layout);
    if bottom.contains(k) {
        let j = choose|j: int| 0 <= j < bottom.len() && bottom[j] == k;
    }
}

/// Presses of shown keys keep the keyboard out of the numbers layout when it is not
/// there, and in it when it is.
proof fn lemma_presses(layout: KeyboardLayout, keys: Seq<Key>)
    requires
        shown_presses(layout, keys),
    ensures
        layout == KeyboardLayout::NUMBERS ==> after_presses(layout, keys) == KeyboardLayout::NUMBERS,
        layout != KeyboardLayout::NUMBERS ==> after_presses(layout, keys) != KeyboardLayout::NUMBERS,
    decreases keys.len(),
{
    if keys.len() > 0 {
        let rest = keys.drop_last();
        assert forall|i: int| 0 <= i < rest.len() implies shows_key(
            after_presses(layout, rest.take(i)),
            #[trigger] rest[i],
        ) by {
            assert(rest.take(i) =~= keys.take(i));
            assert(keys[i] == rest[i]);
        }
        lemma_presses(layout, rest);
        let n = keys.len() - 1;
        assert(keys.take(n) =~= rest);
        assert(shows_key(after_presses(layout, keys.take(n)), keys[n]));
        if let Key::Layout(l) = keys.last() {
            lemma_layout_keys(after_presses(layout, rest), l);
        }
    }
}

/// The keyboard shows the numbers layout for numeric input and never for text input,
/// whatever layout it showed before and whatever shown keys are pressed after
/// [`KeyboardContent::setup_layout`]: the numbers layout has no layout key, and the text
/// and symbols layouts switch only to each other.
pub proof fn law_numbers_layout_for_numeric_input(
    numeric: bool,
    before: KeyboardLayout,
    keys: Seq<Key>,
)
    requires
        shown_presses(layout_for_input(numeric, before), keys),
    ensures
        numeric ==> after_presses(layout_for_input(numeric, before), keys) == KeyboardLayout::NUMBERS,
        !numeric ==> after_presses(layout_for_input(numeric, before), keys) != KeyboardLayout::NUMBERS,
{
    lemma_presses(layout_for_input(numeric, before), keys);
}

} // verus!
