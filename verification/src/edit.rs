//! Applying software keyboard events to an edited text with a cursor selection.

use vstd::prelude::*;
use vstd::utf8::encode_utf8;
use crate::keyboard::KeyboardEvent;
use crate::text::{chars_of, lemma_encoded_len_at_least, string_from_chars};

verus! {

#[verifier::external_type_specification]
#[verifier::external_body]
pub struct ExId(egui::Id);

/// Text input content options and flags.
pub struct TextEdit {
    /// View identifier.
    pub id: egui::Id,
    /// Horizontal text centering is needed.
    pub h_center: bool,
    /// Focus is needed.
    pub focus: bool,
    /// Focus request was passed.
    pub focus_request: bool,
    /// Hide letters and draw button to show/hide letters.
    pub password: bool,
    /// Show copy button.
    pub copy: bool,
    /// Show paste button.
    pub paste: bool,
    /// Show button to scan QR code into text.
    pub scan_qr: bool,
    /// Scan button was pressed.
    pub scan_pressed: bool,
    /// Tab or Enter keys were pressed to focus on next line.
    pub enter_pressed: bool,
    /// Flag to enter only numbers.
    pub numeric: bool,
    /// Flag to not show soft keyboard.
    pub no_soft_keyboard: bool,
}

impl TextEdit {
    /// Input with focus and no buttons; the soft keyboard of the application is not
    /// shown on Android, which has its own.
    pub fn new(id: egui::Id, android: bool) -> (r: Self)
        ensures
            r == (TextEdit {
                id,
                h_center: false,
                focus: true,
                focus_request: false,
                password: false,
                copy: false,
                paste: false,
                scan_qr: false,
                scan_pressed: false,
                enter_pressed: false,
                numeric: false,
                no_soft_keyboard: android,
            }),
    {
        TextEdit {
            id,
            h_center: false,
            focus: true,
            focus_request: false,
            password: false,
            copy: false,
            paste: false,
            scan_qr: false,
            scan_pressed: false,
            enter_pressed: false,
            numeric: false,
            no_soft_keyboard: android,
        }
    }

    /// Center text horizontally.
    pub fn h_center(self) -> (r: Self)
        ensures
            r == (TextEdit { h_center: true, ..self }),
    {
        TextEdit { h_center: true, ..self }
    }

    /// Enable or disable constant focus.
    pub fn focus(self, focus: bool) -> (r: Self)
        ensures
            r == (TextEdit { focus, ..self }),
    {
        TextEdit { focus, ..self }
    }

    /// Focus on field.
    pub fn focus_request(&mut self)
        ensures
            *final(self) == (TextEdit { focus_request: true, ..*old(self) }),
    {
        self.focus_request = true;
    }

    /// Allow input of numbers only.
    pub fn numeric(self) -> (r: Self)
        ensures
            r == (TextEdit { numeric: true, ..self }),
    {
        TextEdit { numeric: true, ..self }
    }

    /// Hide letters and draw button to show/hide letters.
    pub fn password(self) -> (r: Self)
        ensures
            r == (TextEdit { password: true, ..self }),
    {
        TextEdit { password: true, ..self }
    }

    /// Show button to copy text.
    pub fn copy(self) -> (r: Self)
        ensures
            r == (TextEdit { copy: true, ..self }),
    {
        TextEdit { copy: true, ..self }
    }

    /// Show button to paste text.
    pub fn paste(self) -> (r: Self)
        ensures
            r == (TextEdit { paste: true, ..self }),
    {
        TextEdit { paste: true, ..self }
    }

    /// Show button to scan QR code to text.
    pub fn scan_qr(self) -> (r: Self)
        ensures
            r == (TextEdit { scan_qr: true, scan_pressed: false, ..self }),
    {
        TextEdit { scan_qr: true, scan_pressed: false, ..self }
    }

    /// Do not show soft keyboard for input.
    pub fn no_soft_keyboard(self) -> (r: Self)
        ensures
            r == (TextEdit { no_soft_keyboard: true, ..self }),
    {
        TextEdit { no_soft_keyboard: true, ..self }
    }
}

/// Options for a text input view.
pub struct TextEditOptions {
    /// View identifier.
    pub id: egui::Id,
    /// Check if horizontal centering is needed.
    pub h_center: bool,
    /// Check if initial focus on field is needed.
    pub focus: bool,
    /// Hide letters and draw button to show/hide letters.
    pub password: bool,
    /// Show copy button.
    pub copy: bool,
    /// Show paste button.
    pub paste: bool,
    /// Show button to scan QR code into text.
    pub scan_qr: bool,
    /// Scan button was pressed.
    pub scan_pressed: bool,
}

impl TextEditOptions {
    /// Options with initial focus and no buttons.
    pub fn new(id: egui::Id) -> (r: Self)
        ensures
            r == (TextEditOptions {
                id,
                h_center: false,
                focus: true,
                password: false,
                copy: false,
                paste: false,
                scan_qr: false,
                scan_pressed: false,
            }),
    {
        TextEditOptions {
            id,
            h_center: false,
            focus: true,
            password: false,
            copy: false,
            paste: false,
            scan_qr: false,
            scan_pressed: false,
        }
    }

    /// Center text horizontally.
    pub fn h_center(self) -> (r: Self)
        ensures
            r == (TextEditOptions { h_center: true, ..self }),
    {
        TextEditOptions { h_center: true, ..self }
    }

    /// Disable initial focus.
    pub fn no_focus(self) -> (r: Self)
        ensures
            r == (TextEditOptions { focus: false, ..self }),
    {
        TextEditOptions { focus: false, ..self }
    }

    /// Hide letters and draw button to show/hide letters.
    pub fn password(self) -> (r: Self)
        ensures
            r == (TextEditOptions { password: true, ..self }),
    {
        TextEditOptions { password: true, ..self }
    }

    /// Show button to copy text.
    pub fn copy(self) -> (r: Self)
        ensures
            r == (TextEditOptions { copy: true, ..self }),
    {
        TextEditOptions { copy: true, ..self }
    }

    /// Show button to paste text.
    pub fn paste(self) -> (r: Self)
        ensures
            r == (TextEditOptions { paste: true, ..self }),
    {
        TextEditOptions { paste: true, ..self }
    }

    /// Show button to scan QR code to text.
    pub fn scan_qr(self) -> (r: Self)
        ensures
            r == (TextEditOptions { scan_qr: true, scan_pressed: false, ..self }),
    {
        TextEditOptions { scan_qr: true, scan_pressed: false, ..self }
    }
}

/// Position `n` limited to the length of the text.
pub open spec fn clamp(n: int, len: nat) -> int {
    if n < len {
        n
    } else {
        len as int
    }
}

/// The first `n` characters of `s`, or all of them when there are fewer.
pub open spec fn head(s: Seq<char>, n: int) -> Seq<char> {
    s.take(clamp(n, s.len()))
}

/// The characters of `s` from position `n` on, none when there are fewer.
pub open spec fn rest(s: Seq<char>, n: int) -> Seq<char> {
    s.skip(clamp(n, s.len()))
}

/// Smaller and larger of the two cursor ends.
pub open spec fn sel_start(primary: int, secondary: int) -> int {
    if primary <= secondary {
        primary
    } else {
        secondary
    }
}

pub open spec fn sel_end(primary: int, secondary: int) -> int {
    if primary <= secondary {
        secondary
    } else {
        primary
    }
}

/// Text after applying a keyboard event at cursor `primary` with selection end `secondary`.
pub open spec fn soft_input_text(
    s: Seq<char>,
    event: KeyboardEvent,
    primary: int,
    secondary: int,
    multiline: bool,
) -> Seq<char> {
    let start = sel_start(primary, secondary);
    let end = sel_end(primary, secondary);
    let selected = primary != secondary;
    match event {
        KeyboardEvent::TEXT(t) => if selected {
            head(s, start) + t@ + rest(s, end)
        } else {
            head(s, primary) + t@ + rest(s, primary)
        },
        KeyboardEvent::CLEAR => if selected {
            head(s, start) + rest(s, end)
        } else if primary != 0 {
            head(s, primary - 1) + rest(s, primary)
        } else {
            s
        },
        KeyboardEvent::ENTER => if multiline {
            head(s, primary) + seq!['\n'] + rest(s, primary)
        } else {
            s
        },
    }
}

/// Cursor position after applying a keyboard event.
pub open spec fn soft_input_cursor(
    event: KeyboardEvent,
    primary: int,
    secondary: int,
    multiline: bool,
) -> int {
    let start = sel_start(primary, secondary);
    let selected = primary != secondary;
    match event {
        KeyboardEvent::TEXT(_) => if selected {
            start + 1
        } else {
            primary + 1
        },
        KeyboardEvent::CLEAR => if selected {
            start
        } else if primary != 0 {
            primary - 1
        } else {
            primary
        },
        KeyboardEvent::ENTER => if multiline {
            primary + 1
        } else {
            primary
        },
    }
}

/// Enter was pressed in a single line input.
pub open spec fn soft_input_enter(event: KeyboardEvent, multiline: bool) -> bool {
    event is ENTER && !multiline
}

/// Cursor ends that the input can take: positions below `2^24` (where the
/// floating point comparison of the selection ends is exact), and, where the text
/// after the selection is measured against the byte length of the text, no end past it.
pub open spec fn soft_input_accepts(
    s: Seq<char>,
    event: KeyboardEvent,
    primary: int,
    secondary: int,
) -> bool {
    let bytes = encode_utf8(s).len();
    &&& 0 <= primary < 0x100_0000
    &&& 0 <= secondary < 0x100_0000
    &&& primary != secondary && !(event is ENTER) ==> sel_end(primary, secondary) <= bytes
    &&& primary == secondary && event is CLEAR && primary != 0 ==> primary <= bytes
}

/// Characters of `s` between positions `from` and `to`, both limited to the length of `s`.
pub open spec fn range_of(s: Seq<char>, from: int, to: int) -> Seq<char> {
    let a = clamp(from, s.len());
    let b = clamp(to, s.len());
    if b < a {
        Seq::empty()
    } else {
        s.subrange(a, b)
    }
}

/// Copy the characters of `cs` between `from` and `to` to the end of `out`.
fn push_range(out: &mut Vec<char>, cs: &[char], from: usize, to: usize)
    ensures
        final(out)@ == old(out)@ + range_of(cs@, from as int, to as int),
{
    let n = cs.len();
    let a = if from < n {
        from
    } else {
        n
    };
    let b0 = if to < n {
        to
    } else {
        n
    };
    let b = if b0 < a {
        a
    } else {
        b0
    };
    let ghost o = out@;
    let mut k = a;
    while k < b
        invariant
            n == cs@.len(),
            a <= k <= b <= n,
            out@ == o + cs@.subrange(a as int, k as int),
        decreases b - k,
    {
        out.push(cs[k]);
        k = k + 1;
        assert(out@ =~= o + cs@.subrange(a as int, k as int));
    }
    assert(range_of(cs@, from as int, to as int) =~= cs@.subrange(a as int, b as int));
}

/// Apply a software keyboard event to `value` with cursor `primary` and selection
/// end `secondary`. Returns the new cursor position and whether Enter was pressed at
/// a single line input.
pub fn on_soft_input(
    value: &mut String,
    event: KeyboardEvent,
    primary: usize,
    secondary: usize,
    multiline: bool,
) -> (r: (usize, bool))
    requires
        soft_input_accepts(old(value)@, event, primary as int, secondary as int),
    ensures
        final(value)@ == soft_input_text(
            old(value)@,
            event,
            primary as int,
            secondary as int,
            multiline,
        ),
        r.0 == soft_input_cursor(event, primary as int, secondary as int, multiline),
        r.1 == soft_input_enter(event, multiline),
{
    let cs = chars_of(value.as_str());
    let ghost s = cs@;
    let n = cs.len();
    let selected = primary != secondary;
    let start = if primary <= secondary {
        primary
    } else {
        secondary
    };
    let end = if primary <= secondary {
        secondary
    } else {
        primary
    };
    let mut out: Vec<char> = Vec::new();
    let mut enter = false;
    let index: usize;
    match event {
        KeyboardEvent::TEXT(t) => {
            let tc = chars_of(t.as_str());
            let at = if selected {
                start
            } else {
                primary
            };
            let after = if selected {
                end
            } else {
                primary
            };
            push_range(&mut out, cs.as_slice(), 0, at);
            let ghost o1 = out@;
            push_range(&mut out, tc.as_slice(), 0, tc.len());
            push_range(&mut out, cs.as_slice(), after, n);
            proof {
                assert(range_of(tc@, 0, tc@.len() as int) =~= tc@);
                assert(range_of(s, 0, at as int) =~= head(s, at as int));
                assert(range_of(s, after as int, s.len() as int) =~= rest(
                    s,
                    after as int,
                ));
            }
            index = at + 1;
        },
        KeyboardEvent::CLEAR => {
            if selected {
                push_range(&mut out, cs.as_slice(), 0, start);
                push_range(&mut out, cs.as_slice(), end, n);
                proof {
                    assert(range_of(s, 0, start as int) =~= head(
                        s,
                        start as int,
                    ));
                    assert(range_of(s, end as int, s.len() as int) =~= rest(
                        s,
                        end as int,
                    ));
                }
                index = start;
            } else if primary != 0 {
                push_range(&mut out, cs.as_slice(), 0, primary - 1);
                push_range(&mut out, cs.as_slice(), primary, n);
                proof {
                    assert(range_of(s, 0, primary - 1) =~= head(
                        s,
                        primary - 1,
                    ));
                    assert(range_of(s, primary as int, s.len() as int) =~= rest(
                        s,
                        primary as int,
                    ));
                }
                index = primary - 1;
            } else {
                push_range(&mut out, cs.as_slice(), 0, n);
                assert(range_of(s, 0, s.len() as int) =~= s);
                index = primary;
            }
        },
        KeyboardEvent::ENTER => {
            if multiline {
                push_range(&mut out, cs.as_slice(), 0, primary);
                out.push('\n');
                push_range(&mut out, cs.as_slice(), primary, n);
                proof {
                    assert(range_of(s, 0, primary as int) =~= head(
                        s,
                        primary as int,
                    ));
                    assert(range_of(s, primary as int, s.len() as int) =~= rest(
                        s,
                        primary as int,
                    ));
                }
                index = primary + 1;
            } else {
                push_range(&mut out, cs.as_slice(), 0, n);
                assert(range_of(s, 0, s.len() as int) =~= s);
                enter = true;
                index = primary;
            }
        },
    }
    *value = string_from_chars(out.as_slice());
    (index, enter)
}

/// Typing one character at a cursor inside the text and then erasing at the cursor it
/// left gives back the text and the cursor; the erasing input is one the editor takes.
pub proof fn law_type_then_erase(s: Seq<char>, t: String, p: int, multiline: bool)
    requires
        0 <= p <= s.len(),
        p + 1 < 0x100_0000,
        t@.len() == 1,
    ensures
        ({
            let typed = soft_input_text(s, KeyboardEvent::TEXT(t), p, p, multiline);
            let cursor = soft_input_cursor(KeyboardEvent::TEXT(t), p, p, multiline);
            &&& cursor == p + 1
            &&& soft_input_accepts(typed, KeyboardEvent::CLEAR, cursor, cursor)
            &&& soft_input_text(typed, KeyboardEvent::CLEAR, cursor, cursor, multiline) == s
            &&& soft_input_cursor(KeyboardEvent::CLEAR, cursor, cursor, multiline) == p
        }),
{
    let typed = s.take(p) + t@ + s.skip(p);
    assert(soft_input_text(s, KeyboardEvent::TEXT(t), p, p, multiline) =~= typed);
    assert(typed.take(p) =~= s.take(p));
    assert(typed.skip(p + 1) =~= s.skip(p));
    assert(s.take(p) + s.skip(p) =~= s);
    lemma_encoded_len_at_least(typed);
}

/// Every keyboard event keeps the cursor inside the text: a cursor and selection end
/// inside the text give a new cursor inside the new text, when typed texts are not empty.
pub proof fn law_cursor_within_text(
    s: Seq<char>,
    event: KeyboardEvent,
    primary: int,
    secondary: int,
    multiline: bool,
)
    requires
        0 <= primary <= s.len(),
        0 <= secondary <= s.len(),
        event matches KeyboardEvent::TEXT(t) ==> t@.len() > 0,
    ensures
        0 <= soft_input_cursor(event, primary, secondary, multiline) <= soft_input_text(
            s,
            event,
            primary,
            secondary,
            multiline,
        ).len(),
{
}

} // verus!
