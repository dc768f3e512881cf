use gxi::json::Json;
use gxi::edit_view::EditView;
use gxi::main_win::{CloseDecision, MainWin, SaveChoice};
use gxi::styles::Style;

fn obj(members: Vec<(&str, Json)>) -> Json {
    Json::Object(members.into_iter().map(|(k, v)| (k.to_string(), v)).collect())
}

fn s(x: &str) -> Json {
    Json::Str(x.to_string())
}

type Win = MainWin<&'static str, u32, u32>;

#[test]
fn new_window_has_default_theme() {
    let w: Win = MainWin::new("theme");
    assert_eq!(w.state.theme_name, "default");
    assert!(w.state.themes.is_empty() && w.state.styles.is_empty());
    assert!(w.view("view-id-1").is_none());
}

#[test]
fn available_themes_selects_the_first() {
    let mut w: Win = MainWin::new("theme");
    let params = obj(vec![("themes", Json::Array(vec![s("InspiredGitHub"), Json::UInt(3), s("Solarized (dark)")]))]);
    assert_eq!(w.available_themes(&params), Some("InspiredGitHub".to_string()));
    assert_eq!(w.state.themes, vec!["InspiredGitHub".to_string(), "Solarized (dark)".to_string()]);
    assert_eq!(w.state.theme_name, "InspiredGitHub");
    assert_eq!(w.available_themes(&obj(vec![])), None);
    assert!(w.state.themes.is_empty());
    assert_eq!(w.state.theme_name, "InspiredGitHub");
}

#[test]
fn def_style_stores_by_id() {
    let mut w: Win = MainWin::new("theme");
    let style = Style { fg_color: Some(5), bg_color: None, weight: None, italic: Some(true), underline: None };
    assert!(w.def_style(&obj(vec![("id", Json::UInt(2))]), style));
    assert_eq!(w.state.styles.len(), 3);
    assert_eq!(w.state.styles[2].fg_color, Some(5));
    assert!(!w.def_style(&obj(vec![("id", s("2"))]), Style::unstyled()));
    assert_eq!(w.state.styles.len(), 3);
}

#[test]
fn theme_changed_sets_selection_style() {
    let mut w: Win = MainWin::new("old");
    w.set_style(1, Style::unstyled());
    w.theme_changed("new", Some(1), Some(2));
    assert_eq!(w.state.theme, "new");
    assert_eq!(w.state.styles.len(), 2);
    assert_eq!((w.state.styles[0].fg_color, w.state.styles[0].bg_color), (Some(1), Some(2)));
}

#[test]
fn views_are_found_by_id() {
    let mut w: Win = MainWin::new("t");
    let id = w.new_view_response(&s("view-id-1")).unwrap();
    w.register_view(id, 10);
    w.register_view("view-id-2".to_string(), 20);
    assert_eq!(w.view("view-id-1"), Some(&10));
    assert_eq!(w.view("view-id-2"), Some(&20));
    assert!(w.view_has_page("view-id-1"));
    assert_eq!(w.new_view_response(&Json::Null), None);

    let p = obj(vec![("view_id", s("view-id-2")), ("changes", obj(vec![]))]);
    assert_eq!(w.config_changed(&p), Some(&20));
    assert_eq!(w.find_status(&p), Some(&20));
    assert_eq!(w.update(&p), Some(&20));
    assert_eq!(w.update(&obj(vec![("view_id", s("view-id-9"))])), None);
    assert_eq!(w.update(&obj(vec![("view_id", Json::UInt(2))])), None);
}

#[test]
fn register_again_replaces() {
    let mut w: Win = MainWin::new("t");
    w.register_view("v".to_string(), 1);
    w.register_view("v".to_string(), 2);
    assert_eq!(w.view("v"), Some(&2));
    assert_eq!(w.views.len(), 1);
}

#[test]
fn closing_removes_the_page_only() {
    let mut w: Win = MainWin::new("t");
    w.register_view("view-id-1".to_string(), 1);
    w.register_view("view-id-2".to_string(), 2);
    assert!(w.close_view("view-id-1"));
    assert!(!w.view_has_page("view-id-1"));
    assert_eq!(w.view("view-id-1"), Some(&1));
    assert!(w.view_has_page("view-id-2"));
    assert!(!w.close_view("view-id-1"));
    assert!(!w.close_view("view-id-7"));
}

#[test]
fn scroll_to_needs_all_parameters() {
    let mut w: Win = MainWin::new("t");
    w.register_view("v".to_string(), 4);
    let full = obj(vec![("view_id", s("v")), ("line", Json::UInt(10)), ("col", Json::UInt(2))]);
    assert_eq!(w.scroll_to(&full), Some((&4, 10, 2)));
    let no_col = obj(vec![("view_id", s("v")), ("line", Json::UInt(10))]);
    assert_eq!(w.scroll_to(&no_col), None);
    let other = obj(vec![("view_id", s("w")), ("line", Json::UInt(1)), ("col", Json::UInt(0))]);
    assert_eq!(w.scroll_to(&other), None);
}

#[test]
fn close_decisions() {
    assert_eq!(Win::close_decision(true, Some(2)), CloseDecision::Close);
    assert_eq!(Win::close_decision(false, Some(1)), CloseDecision::SaveAsThenClose);
    assert_eq!(Win::close_decision(false, Some(2)), CloseDecision::Keep);
    assert_eq!(Win::close_decision(false, Some(3)), CloseDecision::Close);
    assert_eq!(Win::close_decision(false, None), CloseDecision::Close);
}

#[test]
fn active_theme_in_preferences() {
    let mut w: Win = MainWin::new("t");
    let params = obj(vec![("themes", Json::Array(vec![s("a"), s("b"), s("a")]))]);
    w.available_themes(&params);
    assert_eq!(w.state.active_theme(), Some(2));
    w.state.select_theme("b".to_string());
    assert_eq!(w.state.theme_name, "b");
    assert_eq!(w.state.active_theme(), Some(1));
    w.state.select_theme("c".to_string());
    assert_eq!(w.state.active_theme(), None);
}

#[test]
fn save_button_saves_to_the_shown_file() {
    let mut ev = EditView::new(None, "view-id-1");
    assert!(matches!(Win::handle_save_button(&ev), SaveChoice::AskForName));
    ev.set_file("/tmp/a.txt");
    match Win::handle_save_button(&ev) {
        SaveChoice::Save { view_id, file_name } => {
            assert_eq!(view_id, "view-id-1");
            assert_eq!(file_name, "/tmp/a.txt");
        }
        SaveChoice::AskForName => panic!("expected a save"),
    }
}

#[test]
fn new_window_has_no_views() {
    let w: Win = MainWin::new("t");
    assert!(w.views.is_empty());
    assert!(!w.view_has_page("a"));
}
