use gxi::edit_view::{
    create_layout_for_linecount, line_display_text, line_number_padding, queries_ok, ConfigChange,
    EditView,
};
use gxi::json::Json;

fn obj(members: Vec<(&str, Json)>) -> Json {
    Json::Object(members.into_iter().map(|(k, v)| (k.to_string(), v)).collect())
}

#[test]
fn new_view_is_pristine_and_shows_line_zero() {
    let ev = EditView::new(Some("/home/u/a.rs".to_string()), "view-id-3");
    assert_eq!(ev.view_id, "view-id-3");
    assert!(ev.pristine);
    assert_eq!(ev.visible_lines, (0, 1));
}

#[test]
fn title_is_the_file_name() {
    let ev = EditView::new(Some("/home/u/src/main.rs".to_string()), "v");
    assert_eq!(ev.title_with_separator('/'), "main.rs");
    assert_eq!(ev.update_title(), "main.rs");
}

#[test]
fn title_of_untitled_and_changed_views() {
    let mut ev = EditView::new(None, "v");
    assert_eq!(ev.title_with_separator('/'), "Untitled");
    ev.pristine = false;
    assert_eq!(ev.title_with_separator('/'), "*Untitled");
    ev.set_file("notes/todo.txt");
    assert_eq!(ev.file_name, Some("notes/todo.txt".to_string()));
    assert_eq!(ev.title_with_separator('/'), "*todo.txt");
}

#[test]
fn title_edge_cases() {
    let ev = EditView::new(Some("plain".to_string()), "v");
    assert_eq!(ev.title_with_separator('/'), "plain");
    let ev = EditView::new(Some("dir/".to_string()), "v");
    assert_eq!(ev.title_with_separator('/'), "");
    let ev = EditView::new(Some("C:\\docs\\a.txt".to_string()), "v");
    assert_eq!(ev.title_with_separator('\\'), "a.txt");
    assert_eq!(ev.title_with_separator('/'), "C:\\docs\\a.txt");
}

#[test]
fn update_follows_pristine() {
    let mut ev = EditView::new(None, "v");
    let changed = obj(vec![("update", obj(vec![("pristine", Json::Bool(false))]))]);
    assert!(ev.update(&changed));
    assert!(!ev.pristine);
    assert!(!ev.update(&changed));
    let no_flag = obj(vec![("update", obj(vec![("ops", Json::Array(vec![]))]))]);
    assert!(!ev.update(&no_flag));
    assert!(!ev.pristine);
    let saved = obj(vec![("update", obj(vec![("pristine", Json::Bool(true))]))]);
    assert!(ev.update(&saved));
    assert!(ev.pristine);
}

#[test]
fn visible_region_is_reported_once() {
    let mut ev = EditView::new(None, "v");
    assert_eq!(ev.update_visible_scroll_region(0, 0), None);
    assert_eq!(ev.update_visible_scroll_region(3, 40), Some((3, 41)));
    assert_eq!(ev.visible_lines, (3, 41));
    assert_eq!(ev.update_visible_scroll_region(3, 40), None);
}

#[test]
fn config_changes_in_order() {
    let changes = obj(vec![
        ("font_face", Json::Str("InconsolataGo".to_string())),
        ("font_size", Json::UInt(16)),
        ("tab_size", Json::UInt(4)),
        ("font_size", Json::Str("big".to_string())),
        ("font_face", Json::Str("Fira Mono".to_string())),
    ]);
    let effects = EditView::config_changed(&changes);
    assert_eq!(effects.len(), 4);
    assert!(matches!(&effects[0], ConfigChange::FontFamily(f) if f == "Inconsolata"));
    assert!(matches!(&effects[1], ConfigChange::FontSize(16)));
    assert!(matches!(&effects[2], ConfigChange::Unhandled(n) if n == "tab_size"));
    assert!(matches!(&effects[3], ConfigChange::FontFamily(f) if f == "Fira Mono"));
    assert!(EditView::config_changed(&Json::Null).is_empty());
}

#[test]
fn find_status_reports_last_count() {
    let queries = Json::Array(vec![
        obj(vec![("id", Json::UInt(1)), ("matches", Json::UInt(3))]),
        Json::Str("ignored".to_string()),
        obj(vec![("id", Json::UInt(2)), ("matches", Json::UInt(12))]),
        obj(vec![("matches", Json::Null)]),
    ]);
    assert_eq!(EditView::find_status(&queries), Some("12 Results".to_string()));
    assert_eq!(EditView::find_status(&Json::Array(vec![])), None);
    assert_eq!(EditView::find_status(&Json::Null), None);
}

#[test]
fn line_labels() {
    assert_eq!(line_number_padding(0), 1);
    assert_eq!(line_number_padding(10), 1);
    assert_eq!(line_number_padding(11), 2);
    assert_eq!(line_number_padding(1000), 3);
    assert_eq!(create_layout_for_linecount(7, 3), "  7 ");
    assert_eq!(create_layout_for_linecount(123, 3), "123 ");
    assert_eq!(create_layout_for_linecount(12345, 2), "12345 ");
    assert_eq!(create_layout_for_linecount(0, 0), "0 ");
    let n = 42u64;
    assert_eq!(create_layout_for_linecount(n, 5), format!("{:>offset$} ", n, offset = 5));
}

#[test]
fn display_text_drops_one_newline() {
    assert_eq!(line_display_text("fn main() {}\n"), "fn main() {}");
    assert_eq!(line_display_text("last line"), "last line");
    assert_eq!(line_display_text("\n\n"), "\n");
    assert_eq!(line_display_text(""), "");
    assert_eq!(line_display_text("héllo\n"), "héllo");
}

#[test]
fn drawn_lines_stop_at_the_end() {
    assert_eq!(EditView::lines_to_draw(5, 30, 20), (5, 20));
    assert_eq!(EditView::lines_to_draw(5, 10, 20), (5, 10));
}

#[test]
fn missing_lines_are_requested() {
    assert_eq!(EditView::missing_lines(2, 5, &vec![true, false, true]), Some((2, 5)));
    assert_eq!(EditView::missing_lines(2, 5, &vec![true, true, true]), None);
    assert_eq!(EditView::missing_lines(5, 2, &vec![]), None);
}

#[test]
fn query_objects_must_count_matches() {
    let good = Json::Array(vec![obj(vec![("matches", Json::UInt(1))]), Json::Null]);
    assert!(queries_ok(&good));
    let bad = Json::Array(vec![obj(vec![("matches", Json::UInt(1))]), obj(vec![("id", Json::UInt(2))])]);
    assert!(!queries_ok(&bad));
    assert!(queries_ok(&Json::UInt(3)));
}
