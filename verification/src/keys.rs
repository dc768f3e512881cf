use vstd::prelude::*;

use crate::edit_view::EditView;

verus! {

// Key values of the keys that the editor binds (GDK key symbols).
pub const KEY_BACKSPACE: u32 = 0xff08;
pub const KEY_TAB: u32 = 0xff09;
pub const KEY_RETURN: u32 = 0xff0d;
pub const KEY_HOME: u32 = 0xff50;
pub const KEY_LEFT: u32 = 0xff51;
pub const KEY_UP: u32 = 0xff52;
pub const KEY_RIGHT: u32 = 0xff53;
pub const KEY_DOWN: u32 = 0xff54;
pub const KEY_PAGE_UP: u32 = 0xff55;
pub const KEY_PAGE_DOWN: u32 = 0xff56;
pub const KEY_END: u32 = 0xff57;
pub const KEY_KP_ENTER: u32 = 0xff8d;
pub const KEY_DELETE: u32 = 0xffff;

// Bits of a GDK modifier state.
pub const SHIFT_MASK: u32 = 0x1;
pub const CONTROL_MASK: u32 = 0x4;
pub const MOD1_MASK: u32 = 0x8;
pub const META_MASK: u32 = 0x1000_0000;

// Bits of the modifier mask that the core takes with a drag.
pub const XI_SHIFT_KEY_MASK: u32 = 0x2;
pub const XI_CONTROL_KEY_MASK: u32 = 0x4;
pub const XI_ALT_KEY_MASK: u32 = 0x8;

/// The modifier keys held, as the editor reads them from a GDK state.
#[derive(Debug, Clone, Copy, PartialEq, Eq, Structural)]
pub struct Modifiers {
    pub shift: bool,
    pub ctrl: bool,
    /// The Alt key (GDK's first modifier).
    pub alt: bool,
    pub meta: bool,
}

/// The modifier keys held in the GDK modifier state `state`.
pub open spec fn modifiers_spec(state: u32) -> Modifiers {
    Modifiers {
        shift: state & SHIFT_MASK != 0,
        ctrl: state & CONTROL_MASK != 0,
        alt: state & MOD1_MASK != 0,
        meta: state & META_MASK != 0,
    }
}

/// The modifier keys held in the GDK modifier state `state`.
pub fn modifiers_of(state: u32) -> (m: Modifiers)
    ensures
        m == modifiers_spec(state),
{
    Modifiers {
        shift: state & SHIFT_MASK != 0,
        ctrl: state & CONTROL_MASK != 0,
        alt: state & MOD1_MASK != 0,
        meta: state & META_MASK != 0,
    }
}

/// The core's modifier mask for a GDK modifier state: Shift, Control and
/// Alt each set their own bit, and nothing else is set.
pub open spec fn xi_modifiers(state: u32) -> u32 {
    let m = modifiers_spec(state);
    (if m.shift { XI_SHIFT_KEY_MASK } else { 0u32 }) | (if m.ctrl { XI_CONTROL_KEY_MASK } else { 0u32 })
        | (if m.alt { XI_ALT_KEY_MASK } else { 0u32 })
}

/// The core's modifier mask for a GDK modifier state.
pub fn convert_gtk_modifier(state: u32) -> (r: u32)
    ensures
        r == xi_modifiers(state),
        (r & XI_SHIFT_KEY_MASK != 0) == modifiers_spec(state).shift,
        (r & XI_CONTROL_KEY_MASK != 0) == modifiers_spec(state).ctrl,
        (r & XI_ALT_KEY_MASK != 0) == modifiers_spec(state).alt,
        r & !(XI_SHIFT_KEY_MASK | XI_CONTROL_KEY_MASK | XI_ALT_KEY_MASK) == 0,
{
    let m = modifiers_of(state);
    let shift_bit: u32 = if m.shift { XI_SHIFT_KEY_MASK } else { 0 };
    let ctrl_bit: u32 = if m.ctrl { XI_CONTROL_KEY_MASK } else { 0 };
    let alt_bit: u32 = if m.alt { XI_ALT_KEY_MASK } else { 0 };
    let ret = shift_bit | ctrl_bit | alt_bit;
    let s = m.shift;
    let c = m.ctrl;
    let a = m.alt;
    assert({
        let x = (if s { 2u32 } else { 0u32 }) | (if c { 4u32 } else { 0u32 }) | (if a { 8u32 } else { 0u32 });
        &&& (x & 2u32 != 0) == s
        &&& (x & 4u32 != 0) == c
        &&& (x & 8u32 != 0) == a
        &&& x & !(2u32 | 4u32 | 8u32) == 0
    }) by (bit_vector);
    ret
}

/// What a key press does in a view.
#[derive(Debug, Clone, Copy, PartialEq, Eq, Structural)]
pub enum KeyAction {
    DeleteForward,
    DeleteBackward,
    InsertNewline,
    InsertTab,
    MoveUp,
    MoveDown,
    MoveLeft,
    MoveRight,
    MoveUpAndModifySelection,
    MoveDownAndModifySelection,
    MoveLeftAndModifySelection,
    MoveRightAndModifySelection,
    MoveWordLeft,
    MoveWordRight,
    MoveWordLeftAndModifySelection,
    MoveWordRightAndModifySelection,
    MoveToLeftEndOfLine,
    MoveToRightEndOfLine,
    MoveToLeftEndOfLineAndModifySelection,
    MoveToRightEndOfLineAndModifySelection,
    MoveToBeginningOfDocument,
    MoveToEndOfDocument,
    MoveToBeginningOfDocumentAndModifySelection,
    MoveToEndOfDocumentAndModifySelection,
    PageUp,
    PageDown,
    PageUpAndModifySelection,
    PageDownAndModifySelection,
    SelectAll,
    Copy,
    StartSearch,
    Paste,
    Cut,
    Undo,
    Redo,
    /// Insert the typed character.
    Insert(char),
    /// The key is taken and does nothing.
    Ignore,
}

/// The action bound to the key `keyval` with the modifiers `m`, where `ch` is
/// the character the key types (if any). The bindings are tried in order;
/// "plain" means no Alt, Control or Meta (Shift may be held).
pub open spec fn key_action_of(keyval: u32, m: Modifiers, ch: Option<char>) -> KeyAction {
    let norm = !m.alt && !m.ctrl && !m.meta;
    let shift = m.shift;
    let ctrl = m.ctrl;
    if keyval == KEY_DELETE && norm {
        KeyAction::DeleteForward
    } else if keyval == KEY_BACKSPACE && norm {
        KeyAction::DeleteBackward
    } else if keyval == KEY_RETURN || keyval == KEY_KP_ENTER {
        KeyAction::InsertNewline
    } else if keyval == KEY_TAB && norm && !shift {
        KeyAction::InsertTab
    } else if keyval == KEY_UP && norm && !shift {
        KeyAction::MoveUp
    } else if keyval == KEY_DOWN && norm && !shift {
        KeyAction::MoveDown
    } else if keyval == KEY_LEFT && norm && !shift {
        KeyAction::MoveLeft
    } else if keyval == KEY_RIGHT && norm && !shift {
        KeyAction::MoveRight
    } else if keyval == KEY_UP && norm && shift {
        KeyAction::MoveUpAndModifySelection
    } else if keyval == KEY_DOWN && norm && shift {
        KeyAction::MoveDownAndModifySelection
    } else if keyval == KEY_LEFT && norm && shift {
        KeyAction::MoveLeftAndModifySelection
    } else if keyval == KEY_RIGHT && norm && shift {
        KeyAction::MoveRightAndModifySelection
    } else if keyval == KEY_LEFT && ctrl && !shift {
        KeyAction::MoveWordLeft
    } else if keyval == KEY_RIGHT && ctrl && !shift {
        KeyAction::MoveWordRight
    } else if keyval == KEY_LEFT && ctrl && shift {
        KeyAction::MoveWordLeftAndModifySelection
    } else if keyval == KEY_RIGHT && ctrl && shift {
        KeyAction::MoveWordRightAndModifySelection
    } else if keyval == KEY_HOME && norm && !shift {
        KeyAction::MoveToLeftEndOfLine
    } else if keyval == KEY_END && norm && !shift {
        KeyAction::MoveToRightEndOfLine
    } else if keyval == KEY_HOME && norm && shift {
        KeyAction::MoveToLeftEndOfLineAndModifySelection
    } else if keyval == KEY_END && norm && shift {
        KeyAction::MoveToRightEndOfLineAndModifySelection
    } else if keyval == KEY_HOME && ctrl && !shift {
        KeyAction::MoveToBeginningOfDocument
    } else if keyval == KEY_END && ctrl && !shift {
        KeyAction::MoveToEndOfDocument
    } else if keyval == KEY_HOME && ctrl && shift {
        KeyAction::MoveToBeginningOfDocumentAndModifySelection
    } else if keyval == KEY_END && ctrl && shift {
        KeyAction::MoveToEndOfDocumentAndModifySelection
    } else if keyval == KEY_PAGE_UP && norm && !shift {
        KeyAction::PageUp
    } else if keyval == KEY_PAGE_DOWN && norm && !shift {
        KeyAction::PageDown
    } else if keyval == KEY_PAGE_UP && norm && shift {
        KeyAction::PageUpAndModifySelection
    } else if keyval == KEY_PAGE_DOWN && norm && shift {
        KeyAction::PageDownAndModifySelection
    } else {
        match ch {
            Some(c) => {
                if c == 'a' && ctrl {
                    KeyAction::SelectAll
                } else if c == 'c' && ctrl {
                    KeyAction::Copy
                } else if c == 'f' && ctrl {
                    KeyAction::StartSearch
                } else if c == 'v' && ctrl {
                    KeyAction::Paste
                } else if c == 't' && ctrl {
                    KeyAction::Ignore
                } else if c == 'x' && ctrl {
                    KeyAction::Cut
                } else if c == 'z' && ctrl {
                    KeyAction::Undo
                } else if c == 'Z' && ctrl && shift {
                    KeyAction::Redo
                } else if norm && c >= ' ' {
                    KeyAction::Insert(c)
                } else {
                    KeyAction::Ignore
                }
            },
            None => KeyAction::Ignore,
        }
    }
}

/// Whether `keyval` is one of the keys with a binding of its own.
pub open spec fn is_bound_key(keyval: u32) -> bool {
    keyval == KEY_DELETE || keyval == KEY_BACKSPACE || keyval == KEY_RETURN || keyval == KEY_KP_ENTER
        || keyval == KEY_TAB || keyval == KEY_UP || keyval == KEY_DOWN || keyval == KEY_LEFT
        || keyval == KEY_RIGHT || keyval == KEY_HOME || keyval == KEY_END || keyval == KEY_PAGE_UP
        || keyval == KEY_PAGE_DOWN
}

/// Enter always starts a new line, whatever modifiers are held; a printable
/// character typed on any other key without Alt, Control or Meta is
/// inserted; with Shift held, the arrow keys extend the selection.
pub proof fn lemma_key_bindings(keyval: u32, m: Modifiers, ch: Option<char>)
    ensures
        (keyval == KEY_RETURN || keyval == KEY_KP_ENTER) ==> key_action_of(keyval, m, ch)
            == KeyAction::InsertNewline,
        (!is_bound_key(keyval) && !m.alt && !m.ctrl && !m.meta && ch is Some && ch.unwrap() >= ' ')
            ==> key_action_of(keyval, m, ch) == KeyAction::Insert(ch.unwrap()),
        (!m.alt && !m.ctrl && !m.meta && m.shift && keyval == KEY_LEFT) ==> key_action_of(keyval, m, ch)
            == KeyAction::MoveLeftAndModifySelection,
        (!m.alt && !m.ctrl && !m.meta && m.shift && keyval == KEY_RIGHT) ==> key_action_of(keyval, m, ch)
            == KeyAction::MoveRightAndModifySelection,
        (!m.alt && !m.ctrl && !m.meta && m.shift && keyval == KEY_UP) ==> key_action_of(keyval, m, ch)
            == KeyAction::MoveUpAndModifySelection,
        (!m.alt && !m.ctrl && !m.meta && m.shift && keyval == KEY_DOWN) ==> key_action_of(keyval, m, ch)
            == KeyAction::MoveDownAndModifySelection,
{
}

/// The bits of a GDK state that the editor reads as modifier keys.
pub open spec fn modifier_bits(state: u32) -> u32 {
    state & (SHIFT_MASK | CONTROL_MASK | MOD1_MASK | META_MASK)
}

/// The modifier keys are read from the Shift, Control, Alt (first modifier)
/// and Meta bits alone: each key is held exactly when its bit is set, two
/// states with the same such bits hold the same keys (NumLock, CapsLock and
/// the mouse button bits change nothing), and a state with none of them
/// holds no key and gives the core an empty drag mask.
pub proof fn lemma_modifiers_from_bits(state: u32, other: u32)
    ensures
        modifiers_spec(state).shift == (state & 0x1u32 != 0),
        modifiers_spec(state).ctrl == (state & 0x4u32 != 0),
        modifiers_spec(state).alt == (state & 0x8u32 != 0),
        modifiers_spec(state).meta == (state & 0x1000_0000u32 != 0),
        modifier_bits(state) == modifier_bits(other) ==> modifiers_spec(state) == modifiers_spec(other)
            && xi_modifiers(state) == xi_modifiers(other),
        modifier_bits(state) == 0 ==> {
            &&& !modifiers_spec(state).shift
            &&& !modifiers_spec(state).ctrl
            &&& !modifiers_spec(state).alt
            &&& !modifiers_spec(state).meta
            &&& xi_modifiers(state) == 0
        },
{
    assert((0x1u32 | 0x4u32 | 0x8u32 | 0x1000_0000u32) == 0x1000_000du32) by (bit_vector);
    let m = modifier_bits(state);
    let n = modifier_bits(other);
    assert(m == state & 0x1000_000du32);
    assert(n == other & 0x1000_000du32);
    assert(state & 0x1000_000du32 == other & 0x1000_000du32 ==> {
        &&& (state & 0x1u32 != 0) == (other & 0x1u32 != 0)
        &&& (state & 0x4u32 != 0) == (other & 0x4u32 != 0)
        &&& (state & 0x8u32 != 0) == (other & 0x8u32 != 0)
        &&& (state & 0x1000_0000u32 != 0) == (other & 0x1000_0000u32 != 0)
    }) by (bit_vector);
    assert(state & 0x1000_000du32 == 0 ==> {
        &&& state & 0x1u32 == 0
        &&& state & 0x4u32 == 0
        &&& state & 0x8u32 == 0
        &&& state & 0x1000_0000u32 == 0
    }) by (bit_vector);
    assert(((0u32 | 0u32) | 0u32) == 0u32) by (bit_vector);
}

/// With no Shift, Control, Alt or Meta held, each navigation and editing
/// key does its own plain action: the arrows move one step in their own
/// direction, Home and End go to the ends of the line, Page Up and Page Down
/// move by a page, Delete and Backspace delete forward and backward, Tab
/// inserts a tab.
pub proof fn lemma_plain_keys(state: u32, ch: Option<char>)
    requires
        modifier_bits(state) == 0,
    ensures
        key_action_of(KEY_RIGHT, modifiers_spec(state), ch) == KeyAction::MoveRight,
        key_action_of(KEY_LEFT, modifiers_spec(state), ch) == KeyAction::MoveLeft,
        key_action_of(KEY_UP, modifiers_spec(state), ch) == KeyAction::MoveUp,
        key_action_of(KEY_DOWN, modifiers_spec(state), ch) == KeyAction::MoveDown,
        key_action_of(KEY_HOME, modifiers_spec(state), ch) == KeyAction::MoveToLeftEndOfLine,
        key_action_of(KEY_END, modifiers_spec(state), ch) == KeyAction::MoveToRightEndOfLine,
        key_action_of(KEY_PAGE_UP, modifiers_spec(state), ch) == KeyAction::PageUp,
        key_action_of(KEY_PAGE_DOWN, modifiers_spec(state), ch) == KeyAction::PageDown,
        key_action_of(KEY_DELETE, modifiers_spec(state), ch) == KeyAction::DeleteForward,
        key_action_of(KEY_BACKSPACE, modifiers_spec(state), ch) == KeyAction::DeleteBackward,
        key_action_of(KEY_TAB, modifiers_spec(state), ch) == KeyAction::InsertTab,
        key_action_of(KEY_RETURN, modifiers_spec(state), ch) == KeyAction::InsertNewline,
{
    lemma_modifiers_from_bits(state, state);
}

/// With Shift alone, the navigation keys move and extend the selection in
/// their own direction; with Control (with or without Shift), Left and Right
/// move by words and Home and End go to the ends of the document.
pub proof fn lemma_shift_and_control_keys(ch: Option<char>)
    ensures
        key_action_of(KEY_RIGHT, modifiers_spec(SHIFT_MASK), ch) == KeyAction::MoveRightAndModifySelection,
        key_action_of(KEY_LEFT, modifiers_spec(SHIFT_MASK), ch) == KeyAction::MoveLeftAndModifySelection,
        key_action_of(KEY_UP, modifiers_spec(SHIFT_MASK), ch) == KeyAction::MoveUpAndModifySelection,
        key_action_of(KEY_DOWN, modifiers_spec(SHIFT_MASK), ch) == KeyAction::MoveDownAndModifySelection,
        key_action_of(KEY_HOME, modifiers_spec(SHIFT_MASK), ch) == KeyAction::MoveToLeftEndOfLineAndModifySelection,
        key_action_of(KEY_END, modifiers_spec(SHIFT_MASK), ch) == KeyAction::MoveToRightEndOfLineAndModifySelection,
        key_action_of(KEY_PAGE_UP, modifiers_spec(SHIFT_MASK), ch) == KeyAction::PageUpAndModifySelection,
        key_action_of(KEY_PAGE_DOWN, modifiers_spec(SHIFT_MASK), ch) == KeyAction::PageDownAndModifySelection,
        key_action_of(KEY_RIGHT, modifiers_spec(CONTROL_MASK), ch) == KeyAction::MoveWordRight,
        key_action_of(KEY_LEFT, modifiers_spec(CONTROL_MASK), ch) == KeyAction::MoveWordLeft,
        key_action_of(KEY_HOME, modifiers_spec(CONTROL_MASK), ch) == KeyAction::MoveToBeginningOfDocument,
        key_action_of(KEY_END, modifiers_spec(CONTROL_MASK), ch) == KeyAction::MoveToEndOfDocument,
        key_action_of(KEY_RIGHT, modifiers_spec(CONTROL_MASK | SHIFT_MASK), ch)
            == KeyAction::MoveWordRightAndModifySelection,
        key_action_of(KEY_LEFT, modifiers_spec(CONTROL_MASK | SHIFT_MASK), ch)
            == KeyAction::MoveWordLeftAndModifySelection,
        key_action_of(KEY_HOME, modifiers_spec(CONTROL_MASK | SHIFT_MASK), ch)
            == KeyAction::MoveToBeginningOfDocumentAndModifySelection,
        key_action_of(KEY_END, modifiers_spec(CONTROL_MASK | SHIFT_MASK), ch)
            == KeyAction::MoveToEndOfDocumentAndModifySelection,
{
    assert(0x1u32 & 0x1u32 != 0 && 0x1u32 & 0x4u32 == 0 && 0x1u32 & 0x8u32 == 0 && 0x1u32 & 0x1000_0000u32 == 0)
        by (bit_vector);
    assert(0x4u32 & 0x1u32 == 0 && 0x4u32 & 0x4u32 != 0 && 0x4u32 & 0x8u32 == 0 && 0x4u32 & 0x1000_0000u32 == 0)
        by (bit_vector);
    assert((0x4u32 | 0x1u32) & 0x1u32 != 0 && (0x4u32 | 0x1u32) & 0x4u32 != 0 && (0x4u32 | 0x1u32) & 0x8u32 == 0
        && (0x4u32 | 0x1u32) & 0x1000_0000u32 == 0) by (bit_vector);
}

/// The kind of a mouse button press: a single click, or the second or third
/// click of a multiple click.
#[derive(Debug, Clone, Copy, PartialEq, Eq, Structural)]
pub enum ClickKind {
    Single,
    Double,
    Triple,
}

/// What a mouse button press does at a position of the view.
#[derive(Debug, Clone, Copy, PartialEq, Eq, Structural)]
pub enum ButtonAction {
    /// Extend the selection to the position.
    RangeSelect,
    /// Add or remove a caret at the position.
    ToggleSelection,
    WordSelect,
    LineSelect,
    /// Put the caret at the position.
    PointSelect,
    /// Insert the primary selection at the position.
    PastePrimary,
    Nothing,
}

/// The action of a press of mouse button `button` with the modifiers `m`.
pub open spec fn button_action_of(button: u32, m: Modifiers, click: ClickKind) -> ButtonAction {
    if button == 1 {
        if m.shift {
            ButtonAction::RangeSelect
        } else if m.ctrl {
            ButtonAction::ToggleSelection
        } else if click == ClickKind::Double {
            ButtonAction::WordSelect
        } else if click == ClickKind::Triple {
            ButtonAction::LineSelect
        } else {
            ButtonAction::PointSelect
        }
    } else if button == 2 {
        ButtonAction::PastePrimary
    } else {
        ButtonAction::Nothing
    }
}

impl EditView {
    /// The action of a key press: key value `keyval`, GDK modifier state
    /// `state`, and `ch` the character that the key types, if any.
    pub fn handle_key_press_event(keyval: u32, state: u32, ch: Option<char>) -> (a: KeyAction)
        ensures
            a == key_action_of(keyval, modifiers_spec(state), ch),
    {
        let m = modifiers_of(state);
        let alt = m.alt;
        let ctrl = m.ctrl;
        let meta = m.meta;
        let shift = m.shift;
        let norm = !alt && !ctrl && !meta;
        if keyval == KEY_DELETE && norm {
            KeyAction::DeleteForward
        } else if keyval == KEY_BACKSPACE && norm {
            KeyAction::DeleteBackward
        } else if keyval == KEY_RETURN || keyval == KEY_KP_ENTER {
            KeyAction::InsertNewline
        } else if keyval == KEY_TAB && norm && !shift {
            KeyAction::InsertTab
        } else if keyval == KEY_UP && norm && !shift {
            KeyAction::MoveUp
        } else if keyval == KEY_DOWN && norm && !shift {
            KeyAction::MoveDown
        } else if keyval == KEY_LEFT && norm && !shift {
            KeyAction::MoveLeft
        } else if keyval == KEY_RIGHT && norm && !shift {
            KeyAction::MoveRight
        } else if keyval == KEY_UP && norm && shift {
            KeyAction::MoveUpAndModifySelection
        } else if keyval == KEY_DOWN && norm && shift {
            KeyAction::MoveDownAndModifySelection
        } else if keyval == KEY_LEFT && norm && shift {
            KeyAction::MoveLeftAndModifySelection
        } else if keyval == KEY_RIGHT && norm && shift {
            KeyAction::MoveRightAndModifySelection
        } else if keyval == KEY_LEFT && ctrl && !shift {
            KeyAction::MoveWordLeft
        } else if keyval == KEY_RIGHT && ctrl && !shift {
            KeyAction::MoveWordRight
        } else if keyval == KEY_LEFT && ctrl && shift {
            KeyAction::MoveWordLeftAndModifySelection
        } else if keyval == KEY_RIGHT && ctrl && shift {
            KeyAction::MoveWordRightAndModifySelection
        } else if keyval == KEY_HOME && norm && !shift {
            KeyAction::MoveToLeftEndOfLine
        } else if keyval == KEY_END && norm && !shift {
            KeyAction::MoveToRightEndOfLine
        } else if keyval == KEY_HOME && norm && shift {
            KeyAction::MoveToLeftEndOfLineAndModifySelection
        } else if keyval == KEY_END && norm && shift {
            KeyAction::MoveToRightEndOfLineAndModifySelection
        } else if keyval == KEY_HOME && ctrl && !shift {
            KeyAction::MoveToBeginningOfDocument
        } else if keyval == KEY_END && ctrl && !shift {
            KeyAction::MoveToEndOfDocument
        } else if keyval == KEY_HOME && ctrl && shift {
            KeyAction::MoveToBeginningOfDocumentAndModifySelection
        } else if keyval == KEY_END && ctrl && shift {
            KeyAction::MoveToEndOfDocumentAndModifySelection
        } else if keyval == KEY_PAGE_UP && norm && !shift {
            KeyAction::PageUp
        } else if keyval == KEY_PAGE_DOWN && norm && !shift {
            KeyAction::PageDown
        } else if keyval == KEY_PAGE_UP && norm && shift {
            KeyAction::PageUpAndModifySelection
        } else if keyval == KEY_PAGE_DOWN && norm && shift {
            KeyAction::PageDownAndModifySelection
        } else {
            match ch {
                Some(c) => {
                    if c == 'a' && ctrl {
                        KeyAction::SelectAll
                    } else if c == 'c' && ctrl {
                        KeyAction::Copy
                    } else if c == 'f' && ctrl {
                        KeyAction::StartSearch
                    } else if c == 'v' && ctrl {
                        KeyAction::Paste
                    } else if c == 't' && ctrl {
                        KeyAction::Ignore
                    } else if c == 'x' && ctrl {
                        KeyAction::Cut
                    } else if c == 'z' && ctrl {
                        KeyAction::Undo
                    } else if c == 'Z' && ctrl && shift {
                        KeyAction::Redo
                    } else if norm && c >= ' ' {
                        KeyAction::Insert(c)
                    } else {
                        KeyAction::Ignore
                    }
                },
                None => KeyAction::Ignore,
            }
        }
    }

    /// The action of a press of mouse button `button` with the GDK modifier
    /// state `state`.
    pub fn handle_button_press(button: u32, state: u32, click: ClickKind) -> (a: ButtonAction)
        ensures
            a == button_action_of(button, modifiers_spec(state), click),
    {
        let m = modifiers_of(state);
        if button == 1 {
            if m.shift {
                ButtonAction::RangeSelect
            } else if m.ctrl {
                ButtonAction::ToggleSelection
            } else {
                match click {
                    ClickKind::Double => ButtonAction::WordSelect,
                    ClickKind::Triple => ButtonAction::LineSelect,
                    ClickKind::Single => ButtonAction::PointSelect,
                }
            }
        } else if button == 2 {
            ButtonAction::PastePrimary
        } else {
            ButtonAction::Nothing
        }
    }

    /// The core's modifier mask for a drag with the GDK modifier state `state`.
    pub fn handle_drag(state: u32) -> (r: u32)
        ensures
            r == xi_modifiers(state),
    {
        convert_gtk_modifier(state)
    }
}

} // verus!
