//! The on-screen keyboard: its layout and what a key press does.
//!
//! The keyboard types into a [`SecureString`]. Shift applies to one
//! character; Caps lock toggles until pressed again and releases Shift; the
//! layout shows upper-case keys when exactly one of the two is active.

use crate::components::secure_text::{
    char_count, delete_char_range, push_text, secure_chars, without_char_range,
};
use secure_types::SecureString;
use vstd::prelude::*;

verus! {

/// Which credentials row the keyboard is typing into.
#[derive(Clone, Copy, Debug, PartialEq, Eq, Structural)]
pub enum InputField {
    Username,
    Password,
    ConfirmPassword,
}

/// One key of the on-screen keyboard.
#[derive(Clone, Copy, Debug, PartialEq, Eq)]
pub enum KeyCap {
    /// A key that types its own label.
    Text(&'static str),
    /// Deletes the last character.
    Backspace,
    /// Toggles Caps lock.
    Caps,
    /// Does nothing for now.
    Enter,
    /// Toggles Shift for the next character.
    Shift,
    /// The space bar below the rows: types a space and leaves Shift alone.
    Space,
}

/// The characters of `text` after pressing `key`.
pub open spec fn text_after_key(text: Seq<char>, key: KeyCap) -> Seq<char> {
    match key {
        KeyCap::Text(label) => text + label@,
        KeyCap::Backspace => if text.len() > 0 {
            text.drop_last()
        } else {
            text
        },
        KeyCap::Space => text.push(' '),
        _ => text,
    }
}

/// Shift after pressing `key`.
pub open spec fn shift_after_key(shift: bool, key: KeyCap) -> bool {
    match key {
        KeyCap::Shift => !shift,
        KeyCap::Caps => false,
        KeyCap::Text(_) => false,
        _ => shift,
    }
}

/// Caps lock after pressing `key`.
pub open spec fn caps_after_key(caps: bool, key: KeyCap) -> bool {
    match key {
        KeyCap::Caps => !caps,
        _ => caps,
    }
}

/// Rows of the keyboard, top to bottom, for the lower-case or upper-case
/// layout. The upper-case layout has the shifted symbols of a US keyboard.
pub open spec fn layout_rows(uppercase: bool) -> Seq<Seq<KeyCap>> {
    if uppercase {
        seq![
            seq![KeyCap::Text("~"), KeyCap::Text("!"), KeyCap::Text("@"), KeyCap::Text("#"), KeyCap::Text("$"), KeyCap::Text("%"), KeyCap::Text("^"), KeyCap::Text("&"), KeyCap::Text("*"), KeyCap::Text("("), KeyCap::Text(")"), KeyCap::Text("_"), KeyCap::Text("+"), KeyCap::Backspace],
            seq![KeyCap::Text("Q"), KeyCap::Text("W"), KeyCap::Text("E"), KeyCap::Text("R"), KeyCap::Text("T"), KeyCap::Text("Y"), KeyCap::Text("U"), KeyCap::Text("I"), KeyCap::Text("O"), KeyCap::Text("P"), KeyCap::Text("{"), KeyCap::Text("}"), KeyCap::Text("|")],
            seq![KeyCap::Caps, KeyCap::Text("A"), KeyCap::Text("S"), KeyCap::Text("D"), KeyCap::Text("F"), KeyCap::Text("G"), KeyCap::Text("H"), KeyCap::Text("J"), KeyCap::Text("K"), KeyCap::Text("L"), KeyCap::Text(":"), KeyCap::Text("\""), KeyCap::Enter],
            seq![KeyCap::Shift, KeyCap::Text("Z"), KeyCap::Text("X"), KeyCap::Text("C"), KeyCap::Text("V"), KeyCap::Text("B"), KeyCap::Text("N"), KeyCap::Text("M"), KeyCap::Text("<"), KeyCap::Text(">"), KeyCap::Text("?"), KeyCap::Shift],
        ]
    } else {
        seq![
            seq![KeyCap::Text("`"), KeyCap::Text("1"), KeyCap::Text("2"), KeyCap::Text("3"), KeyCap::Text("4"), KeyCap::Text("5"), KeyCap::Text("6"), KeyCap::Text("7"), KeyCap::Text("8"), KeyCap::Text("9"), KeyCap::Text("0"), KeyCap::Text("-"), KeyCap::Text("="), KeyCap::Backspace],
            seq![KeyCap::Text("q"), KeyCap::Text("w"), KeyCap::Text("e"), KeyCap::Text("r"), KeyCap::Text("t"), KeyCap::Text("y"), KeyCap::Text("u"), KeyCap::Text("i"), KeyCap::Text("o"), KeyCap::Text("p"), KeyCap::Text("["), KeyCap::Text("]"), KeyCap::Text("\\")],
            seq![KeyCap::Caps, KeyCap::Text("a"), KeyCap::Text("s"), KeyCap::Text("d"), KeyCap::Text("f"), KeyCap::Text("g"), KeyCap::Text("h"), KeyCap::Text("j"), KeyCap::Text("k"), KeyCap::Text("l"), KeyCap::Text(";"), KeyCap::Text("'"), KeyCap::Enter],
            seq![KeyCap::Shift, KeyCap::Text("z"), KeyCap::Text("x"), KeyCap::Text("c"), KeyCap::Text("v"), KeyCap::Text("b"), KeyCap::Text("n"), KeyCap::Text("m"), KeyCap::Text(","), KeyCap::Text("."), KeyCap::Text("/"), KeyCap::Shift],
        ]
    }
}

/// The keys of the keyboard, row by row, for the lower-case or upper-case
/// layout.
pub fn keyboard_layout(uppercase: bool) -> (rows: Vec<Vec<KeyCap>>)
    ensures
        rows@.len() == 4,
        forall|i: int| 0 <= i < 4 ==> #[trigger] rows@[i]@ == layout_rows(uppercase)[i],
{
    let rows = if uppercase {
        vec![
            vec![KeyCap::Text("~"), KeyCap::Text("!"), KeyCap::Text("@"), KeyCap::Text("#"), KeyCap::Text("$"), KeyCap::Text("%"), KeyCap::Text("^"), KeyCap::Text("&"), KeyCap::Text("*"), KeyCap::Text("("), KeyCap::Text(")"), KeyCap::Text("_"), KeyCap::Text("+"), KeyCap::Backspace],
            vec![KeyCap::Text("Q"), KeyCap::Text("W"), KeyCap::Text("E"), KeyCap::Text("R"), KeyCap::Text("T"), KeyCap::Text("Y"), KeyCap::Text("U"), KeyCap::Text("I"), KeyCap::Text("O"), KeyCap::Text("P"), KeyCap::Text("{"), KeyCap::Text("}"), KeyCap::Text("|")],
            vec![KeyCap::Caps, KeyCap::Text("A"), KeyCap::Text("S"), KeyCap::Text("D"), KeyCap::Text("F"), KeyCap::Text("G"), KeyCap::Text("H"), KeyCap::Text("J"), KeyCap::Text("K"), KeyCap::Text("L"), KeyCap::Text(":"), KeyCap::Text("\""), KeyCap::Enter],
            vec![KeyCap::Shift, KeyCap::Text("Z"), KeyCap::Text("X"), KeyCap::Text("C"), KeyCap::Text("V"), KeyCap::Text("B"), KeyCap::Text("N"), KeyCap::Text("M"), KeyCap::Text("<"), KeyCap::Text(">"), KeyCap::Text("?"), KeyCap::Shift],
        ]
    } else {
        vec![
            vec![KeyCap::Text("`"), KeyCap::Text("1"), KeyCap::Text("2"), KeyCap::Text("3"), KeyCap::Text("4"), KeyCap::Text("5"), KeyCap::Text("6"), KeyCap::Text("7"), KeyCap::Text("8"), KeyCap::Text("9"), KeyCap::Text("0"), KeyCap::Text("-"), KeyCap::Text("="), KeyCap::Backspace],
            vec![KeyCap::Text("q"), KeyCap::Text("w"), KeyCap::Text("e"), KeyCap::Text("r"), KeyCap::Text("t"), KeyCap::Text("y"), KeyCap::Text("u"), KeyCap::Text("i"), KeyCap::Text("o"), KeyCap::Text("p"), KeyCap::Text("["), KeyCap::Text("]"), KeyCap::Text("\\")],
            vec![KeyCap::Caps, KeyCap::Text("a"), KeyCap::Text("s"), KeyCap::Text("d"), KeyCap::Text("f"), KeyCap::Text("g"), KeyCap::Text("h"), KeyCap::Text("j"), KeyCap::Text("k"), KeyCap::Text("l"), KeyCap::Text(";"), KeyCap::Text("'"), KeyCap::Enter],
            vec![KeyCap::Shift, KeyCap::Text("z"), KeyCap::Text("x"), KeyCap::Text("c"), KeyCap::Text("v"), KeyCap::Text("b"), KeyCap::Text("n"), KeyCap::Text("m"), KeyCap::Text(","), KeyCap::Text("."), KeyCap::Text("/"), KeyCap::Shift],
        ]
    };
    assert(rows@[0]@ =~= layout_rows(uppercase)[0]);
    assert(rows@[1]@ =~= layout_rows(uppercase)[1]);
    assert(rows@[2]@ =~= layout_rows(uppercase)[2]);
    assert(rows@[3]@ =~= layout_rows(uppercase)[3]);
    rows
}

/// The keyboard's state: whether it is shown, which row it types into, and
/// the Shift and Caps lock toggles.
#[derive(Clone, Copy, Debug)]
pub struct KeyboardState {
    open: bool,
    active_target: InputField,
    shift_active: bool,
    caps_lock_active: bool,
}

impl KeyboardState {
    /// Whether the keyboard is shown.
    pub closed spec fn shown(&self) -> bool {
        self.open
    }

    /// The row keystrokes go to.
    pub closed spec fn target(&self) -> InputField {
        self.active_target
    }

    /// Whether Shift is active.
    pub closed spec fn shift(&self) -> bool {
        self.shift_active
    }

    /// Whether Caps lock is active.
    pub closed spec fn caps(&self) -> bool {
        self.caps_lock_active
    }

    /// A keyboard typing into the username row, Shift and Caps lock off;
    /// shown if `open`.
    pub fn new(open: bool) -> (k: KeyboardState)
        ensures
            k.shown() == open,
            k.target() == InputField::Username,
            !k.shift(),
            !k.caps(),
    {
        KeyboardState {
            open,
            active_target: InputField::Username,
            shift_active: false,
            caps_lock_active: false,
        }
    }

    /// Show the keyboard.
    pub fn open(&mut self)
        ensures
            final(self).shown(),
            final(self).target() == old(self).target(),
            final(self).shift() == old(self).shift(),
            final(self).caps() == old(self).caps(),
    {
        self.open = true;
    }

    /// Whether the keyboard is shown.
    pub fn is_open(&self) -> (b: bool)
        ensures
            b == self.shown(),
    {
        self.open
    }

    /// Hide the keyboard.
    pub fn close(&mut self)
        ensures
            !final(self).shown(),
            final(self).target() == old(self).target(),
            final(self).shift() == old(self).shift(),
            final(self).caps() == old(self).caps(),
    {
        self.open = false;
    }

    /// Direct keystrokes at a different credentials row.
    pub fn set_active_target(&mut self, target: InputField)
        ensures
            final(self).target() == target,
            final(self).shown() == old(self).shown(),
            final(self).shift() == old(self).shift(),
            final(self).caps() == old(self).caps(),
    {
        self.active_target = target;
    }

    /// The row keystrokes go to.
    pub fn active_target(&self) -> (t: InputField)
        ensures
            t == self.target(),
    {
        self.active_target
    }

    /// Whether the upper-case layout is shown: exactly one of Shift and
    /// Caps lock is active.
    pub fn is_uppercase(&self) -> (b: bool)
        ensures
            b == (self.shift() != self.caps()),
    {
        self.shift_active ^ self.caps_lock_active
    }

    /// Apply a key press to the toggles and to `target`.
    ///
    /// Backspace deletes the last character, if any. Shift toggles. Caps
    /// toggles Caps lock and releases Shift. Enter does nothing. A text key
    /// appends its label and releases Shift. The space bar appends a space.
    pub fn press_key(&mut self, key: KeyCap, target: &mut SecureString)
        ensures
            secure_chars(*final(target)) == text_after_key(secure_chars(*old(target)), key),
            final(self).shift() == shift_after_key(old(self).shift(), key),
            final(self).caps() == caps_after_key(old(self).caps(), key),
            final(self).shown() == old(self).shown(),
            final(self).target() == old(self).target(),
    {
        match key {
            KeyCap::Backspace => {
                let len = char_count(target);
                if len > 0 {
                    delete_char_range(target, len - 1, len);
                    proof {
                        let t = secure_chars(*old(target));
                        assert(without_char_range(t, len - 1, len as int) =~= t.drop_last());
                    }
                }
            },
            KeyCap::Shift => {
                self.shift_active = !self.shift_active;
            },
            KeyCap::Caps => {
                self.caps_lock_active = !self.caps_lock_active;
                self.shift_active = false;
            },
            KeyCap::Enter => {},
            KeyCap::Text(label) => {
                push_text(target, label);
                if self.shift_active {
                    self.shift_active = false;
                }
            },
            KeyCap::Space => {
                push_text(target, " ");
                proof {
                    reveal_strlit(" ");
                    assert(secure_chars(*old(target)) + " "@ =~= secure_chars(*old(target)).push(' '));
                }
            },
        }
    }
}

/// Backspace undoes typing a one-character key: the text is back to what it
/// was.
pub proof fn backspace_undoes_a_character(text: Seq<char>, label: &'static str)
    requires
        label@.len() == 1,
    ensures
        text_after_key(text_after_key(text, KeyCap::Text(label)), KeyCap::Backspace) == text,
{
    assert((text + label@).drop_last() =~= text);
}

/// Shift applies to one character: after typing a character the layout is
/// upper-case exactly when Caps lock is on, whatever Shift was.
pub proof fn shift_applies_to_one_character(shift: bool, caps: bool, label: &'static str)
    ensures
        (shift_after_key(shift, KeyCap::Text(label)) != caps_after_key(caps, KeyCap::Text(label)))
            == caps,
{
}

/// Pressing Shift twice, or Caps lock twice, leaves the toggles as Caps lock
/// found them and Shift released by Caps; Enter changes nothing.
pub proof fn toggles_cancel_out(text: Seq<char>, shift: bool, caps: bool)
    ensures
        shift_after_key(shift_after_key(shift, KeyCap::Shift), KeyCap::Shift) == shift,
        caps_after_key(caps_after_key(caps, KeyCap::Caps), KeyCap::Caps) == caps,
        !shift_after_key(shift_after_key(shift, KeyCap::Caps), KeyCap::Caps),
        text_after_key(text, KeyCap::Enter) == text,
        shift_after_key(shift, KeyCap::Enter) == shift,
        caps_after_key(caps, KeyCap::Enter) == caps,
        text_after_key(text, KeyCap::Shift) == text,
        text_after_key(text, KeyCap::Caps) == text,
{
}

/// Backspace removes exactly one character from a non-empty text and leaves an empty one empty.
pub proof fn backspace_removes_at_most_one_character(text: Seq<char>)
    ensures
        text_after_key(text, KeyCap::Backspace).len() == if text.len() > 0 {
            text.len() - 1
        } else {
            0
        },
{
}

} // verus!
