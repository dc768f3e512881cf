use gxi::styles::{line_attributes, set_style_in, AttrKind, Style, StyleSpan};

fn colored(fg: u32) -> Style<u32> {
    Style { fg_color: Some(fg), bg_color: None, weight: None, italic: None, underline: None }
}

#[test]
fn set_style_grows_the_table() {
    let mut styles: Vec<Style<u32>> = Vec::new();
    set_style_in(&mut styles, 3, colored(7));
    assert_eq!(styles.len(), 4);
    assert_eq!(styles[3].fg_color, Some(7));
    for s in &styles[0..3] {
        assert!(s.fg_color.is_none() && s.bg_color.is_none() && s.weight.is_none());
        assert!(s.italic.is_none() && s.underline.is_none());
    }
}

#[test]
fn set_style_replaces_and_appends() {
    let mut styles: Vec<Style<u32>> = vec![colored(1), colored(2)];
    set_style_in(&mut styles, 0, colored(9));
    assert_eq!(styles.len(), 2);
    assert_eq!(styles[0].fg_color, Some(9));
    assert_eq!(styles[1].fg_color, Some(2));
    set_style_in(&mut styles, 2, colored(5));
    assert_eq!(styles.len(), 3);
    assert_eq!(styles[2].fg_color, Some(5));
}

#[test]
fn selection_style_has_only_colors() {
    let s: Style<u32> = Style::selection(Some(1), None);
    assert_eq!(s.fg_color, Some(1));
    assert_eq!(s.bg_color, None);
    assert!(s.weight.is_none() && s.italic.is_none() && s.underline.is_none());
}

#[test]
fn attributes_follow_the_runs() {
    let styles = vec![
        Style { fg_color: Some(10u32), bg_color: Some(20), weight: Some(700), italic: Some(true), underline: Some(false) },
        colored(30),
    ];
    // Runs: 2 bytes in style 1 starting at 0, then 3 bytes in style 0 one byte later,
    // then a run in an unknown style.
    let spans = vec![
        StyleSpan { start: 0, len: 2, id: 1 },
        StyleSpan { start: 1, len: 3, id: 0 },
        StyleSpan { start: 0, len: 4, id: 9 },
    ];
    let attrs = line_attributes(&spans, &styles);
    assert_eq!(attrs.len(), 6);
    assert!(matches!(attrs[0].kind, AttrKind::Foreground(30)));
    assert_eq!((attrs[0].start_index, attrs[0].end_index), (0, 2));
    assert!(matches!(attrs[1].kind, AttrKind::Foreground(10)));
    assert!(matches!(attrs[2].kind, AttrKind::Background(20)));
    assert!(matches!(attrs[3].kind, AttrKind::Weight(700)));
    assert!(matches!(attrs[4].kind, AttrKind::Italic(true)));
    assert!(matches!(attrs[5].kind, AttrKind::Underline(false)));
    for a in &attrs[1..] {
        assert_eq!((a.start_index, a.end_index), (3, 6));
    }
}

#[test]
fn negative_run_start_moves_back() {
    let styles = vec![colored(1)];
    let spans = vec![StyleSpan { start: 4, len: 2, id: 0 }, StyleSpan { start: -6, len: 1, id: 0 }];
    let attrs = line_attributes(&spans, &styles);
    assert_eq!((attrs[0].start_index, attrs[0].end_index), (4, 6));
    assert_eq!((attrs[1].start_index, attrs[1].end_index), (0, 1));
}
