use gxi::edit_view::EditView;
use gxi::keys::{
    convert_gtk_modifier, modifiers_of, ButtonAction, ClickKind, KeyAction, CONTROL_MASK, KEY_BACKSPACE,
    KEY_DELETE, KEY_DOWN, KEY_END, KEY_HOME, KEY_KP_ENTER, KEY_LEFT, KEY_PAGE_DOWN, KEY_PAGE_UP, KEY_RETURN,
    KEY_RIGHT, KEY_TAB, KEY_UP, META_MASK, MOD1_MASK, SHIFT_MASK, XI_ALT_KEY_MASK, XI_CONTROL_KEY_MASK,
    XI_SHIFT_KEY_MASK,
};

fn key(keyval: u32, state: u32, ch: Option<char>) -> KeyAction {
    EditView::handle_key_press_event(keyval, state, ch)
}

#[test]
fn modifiers_are_read_from_the_state() {
    let m = modifiers_of(SHIFT_MASK | META_MASK);
    assert!(m.shift && m.meta && !m.ctrl && !m.alt);
    let m = modifiers_of(CONTROL_MASK | MOD1_MASK | 0x2);
    assert!(!m.shift && !m.meta && m.ctrl && m.alt);
}

#[test]
fn drag_modifiers_for_the_core() {
    assert_eq!(convert_gtk_modifier(0), 0);
    assert_eq!(convert_gtk_modifier(SHIFT_MASK), XI_SHIFT_KEY_MASK);
    assert_eq!(convert_gtk_modifier(CONTROL_MASK), XI_CONTROL_KEY_MASK);
    assert_eq!(convert_gtk_modifier(MOD1_MASK), XI_ALT_KEY_MASK);
    assert_eq!(convert_gtk_modifier(SHIFT_MASK | CONTROL_MASK | MOD1_MASK | META_MASK | 0x2), 0xe);
    assert_eq!(EditView::handle_drag(SHIFT_MASK | CONTROL_MASK), 0x6);
}

#[test]
fn editing_keys() {
    assert_eq!(key(KEY_DELETE, 0, None), KeyAction::DeleteForward);
    assert_eq!(key(KEY_DELETE, SHIFT_MASK, None), KeyAction::DeleteForward);
    assert_eq!(key(KEY_DELETE, CONTROL_MASK, Some('\u{7f}')), KeyAction::Ignore);
    assert_eq!(key(KEY_BACKSPACE, 0, Some('\u{8}')), KeyAction::DeleteBackward);
    assert_eq!(key(KEY_RETURN, CONTROL_MASK | MOD1_MASK, Some('\r')), KeyAction::InsertNewline);
    assert_eq!(key(KEY_KP_ENTER, 0, Some('\r')), KeyAction::InsertNewline);
    assert_eq!(key(KEY_TAB, 0, Some('\t')), KeyAction::InsertTab);
    assert_eq!(key(KEY_TAB, SHIFT_MASK, Some('\t')), KeyAction::Ignore);
}

#[test]
fn movement_keys() {
    assert_eq!(key(KEY_UP, 0, None), KeyAction::MoveUp);
    assert_eq!(key(KEY_DOWN, SHIFT_MASK, None), KeyAction::MoveDownAndModifySelection);
    assert_eq!(key(KEY_LEFT, CONTROL_MASK, None), KeyAction::MoveWordLeft);
    assert_eq!(key(KEY_RIGHT, CONTROL_MASK | SHIFT_MASK, None), KeyAction::MoveWordRightAndModifySelection);
    assert_eq!(key(KEY_UP, CONTROL_MASK, None), KeyAction::Ignore);
    assert_eq!(key(KEY_HOME, 0, None), KeyAction::MoveToLeftEndOfLine);
    assert_eq!(key(KEY_END, SHIFT_MASK, None), KeyAction::MoveToRightEndOfLineAndModifySelection);
    assert_eq!(key(KEY_HOME, CONTROL_MASK, None), KeyAction::MoveToBeginningOfDocument);
    assert_eq!(key(KEY_END, CONTROL_MASK | SHIFT_MASK, None), KeyAction::MoveToEndOfDocumentAndModifySelection);
    assert_eq!(key(KEY_PAGE_UP, 0, None), KeyAction::PageUp);
    assert_eq!(key(KEY_PAGE_DOWN, SHIFT_MASK, None), KeyAction::PageDownAndModifySelection);
    assert_eq!(key(KEY_LEFT, MOD1_MASK, None), KeyAction::Ignore);
}

#[test]
fn control_shortcuts() {
    assert_eq!(key(0x61, CONTROL_MASK, Some('a')), KeyAction::SelectAll);
    assert_eq!(key(0x63, CONTROL_MASK, Some('c')), KeyAction::Copy);
    assert_eq!(key(0x66, CONTROL_MASK, Some('f')), KeyAction::StartSearch);
    assert_eq!(key(0x76, CONTROL_MASK, Some('v')), KeyAction::Paste);
    assert_eq!(key(0x74, CONTROL_MASK, Some('t')), KeyAction::Ignore);
    assert_eq!(key(0x78, CONTROL_MASK, Some('x')), KeyAction::Cut);
    assert_eq!(key(0x7a, CONTROL_MASK, Some('z')), KeyAction::Undo);
    assert_eq!(key(0x5a, CONTROL_MASK | SHIFT_MASK, Some('Z')), KeyAction::Redo);
    assert_eq!(key(0x5a, CONTROL_MASK, Some('Z')), KeyAction::Ignore);
}

#[test]
fn typed_characters_are_inserted() {
    assert_eq!(key(0x61, 0, Some('a')), KeyAction::Insert('a'));
    assert_eq!(key(0x41, SHIFT_MASK, Some('A')), KeyAction::Insert('A'));
    assert_eq!(key(0x20, 0, Some(' ')), KeyAction::Insert(' '));
    assert_eq!(key(0xe9, 0, Some('é')), KeyAction::Insert('é'));
    assert_eq!(key(0x61, MOD1_MASK, Some('a')), KeyAction::Ignore);
    assert_eq!(key(0x61, META_MASK, Some('a')), KeyAction::Ignore);
    assert_eq!(key(0xff1b, 0, Some('\u{1b}')), KeyAction::Ignore);
    assert_eq!(key(0xffe1, SHIFT_MASK, None), KeyAction::Ignore);
}

#[test]
fn mouse_buttons() {
    assert_eq!(EditView::handle_button_press(1, SHIFT_MASK, ClickKind::Double), ButtonAction::RangeSelect);
    assert_eq!(EditView::handle_button_press(1, CONTROL_MASK, ClickKind::Single), ButtonAction::ToggleSelection);
    assert_eq!(EditView::handle_button_press(1, 0, ClickKind::Double), ButtonAction::WordSelect);
    assert_eq!(EditView::handle_button_press(1, 0, ClickKind::Triple), ButtonAction::LineSelect);
    assert_eq!(EditView::handle_button_press(1, 0, ClickKind::Single), ButtonAction::PointSelect);
    assert_eq!(EditView::handle_button_press(2, SHIFT_MASK, ClickKind::Single), ButtonAction::PastePrimary);
    assert_eq!(EditView::handle_button_press(3, 0, ClickKind::Single), ButtonAction::Nothing);
}
