use gxi::controller::{Controller, CoreMsg, Dispatch};
use gxi::json::Json;

fn note(method: &str) -> CoreMsg {
    CoreMsg::Notification { method: method.to_string(), params: Json::UInt(1) }
}

#[test]
fn notifications_go_to_their_handlers() {
    let c = Controller::new();
    assert!(matches!(c.handle_msg(note("available_themes")), Dispatch::AvailableThemes(Json::UInt(1))));
    assert!(matches!(c.handle_msg(note("available_plugins")), Dispatch::AvailablePlugins(_)));
    assert!(matches!(c.handle_msg(note("config_changed")), Dispatch::ConfigChanged(_)));
    assert!(matches!(c.handle_msg(note("def_style")), Dispatch::DefStyle(_)));
    assert!(matches!(c.handle_msg(note("find_status")), Dispatch::FindStatus(_)));
    assert!(matches!(c.handle_msg(note("update")), Dispatch::Update(_)));
    assert!(matches!(c.handle_msg(note("scroll_to")), Dispatch::ScrollTo(_)));
    assert!(matches!(c.handle_msg(note("theme_changed")), Dispatch::ThemeChanged(_)));
}

#[test]
fn unknown_notification_is_unhandled() {
    let c = Controller::new();
    match c.handle_msg(note("measure_width")) {
        Dispatch::Unhandled { method } => assert_eq!(method, "measure_width"),
        other => panic!("unexpected {:?}", other),
    }
    assert!(matches!(c.handle_msg(note("Update")), Dispatch::Unhandled { .. }));
}

#[test]
fn new_view_reply_goes_to_new_view_response() {
    let c = Controller::new();
    let msg = CoreMsg::NewViewReply {
        file_name: Some("a.txt".to_string()),
        value: Json::Str("view-id-1".to_string()),
    };
    match c.handle_msg(msg) {
        Dispatch::NewViewResponse { file_name, value } => {
            assert_eq!(file_name, Some("a.txt".to_string()));
            assert_eq!(value.as_str().map(|s| s.as_str()), Some("view-id-1"));
        }
        other => panic!("unexpected {:?}", other),
    }
}

#[test]
fn new_view_request_names_the_file() {
    let c = Controller::new();
    let (call, reply_name) = c.req_new_view(Some("/tmp/notes.txt"));
    assert_eq!(call.method, "new_view");
    assert_eq!(call.params.get_str("file_path"), Some("/tmp/notes.txt".to_string()));
    assert_eq!(reply_name, Some("/tmp/notes.txt".to_string()));
}

#[test]
fn new_empty_view_request_has_null_path() {
    let c = Controller::new();
    let (call, reply_name) = c.req_new_view(None);
    assert!(matches!(call.params.get("file_path"), Some(Json::Null)));
    assert_eq!(reply_name, None);
}

#[test]
fn set_theme_notification() {
    let c = Controller::new();
    let call = c.set_theme("Solarized (dark)");
    assert_eq!(call.method, "set_theme");
    assert_eq!(call.params.get_str("theme_name"), Some("Solarized (dark)".to_string()));
}

#[test]
fn auto_indent_changes_general_domain() {
    let c = Controller::new();
    let change = c.set_auto_indent(true);
    assert_eq!(change.domain.as_str().map(|s| s.as_str()), Some("general"));
    assert_eq!(change.changes.get_bool("auto_indent"), Some(true));
    assert_eq!(c.set_auto_indent(false).changes.get_bool("auto_indent"), Some(false));
}
