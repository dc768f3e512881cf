use vstd::prelude::*;

use crate::json::Json;
use crate::text::str_eq;

verus! {

/// A message from the core, as the controller receives it.
#[derive(Debug)]
pub enum CoreMsg {
    /// A notification that the core sent on its own.
    Notification { method: String, params: Json },
    /// The core's answer to a request for a new view.
    NewViewReply { file_name: Option<String>, value: Json },
}

/// The main-window handler that a message from the core goes to.
#[derive(Debug)]
pub enum Dispatch {
    NewViewResponse { file_name: Option<String>, value: Json },
    AvailableThemes(Json),
    AvailablePlugins(Json),
    ConfigChanged(Json),
    DefStyle(Json),
    FindStatus(Json),
    Update(Json),
    ScrollTo(Json),
    ThemeChanged(Json),
    /// A notification that the front end does not handle (it is logged).
    Unhandled { method: String },
}

/// A request or notification for the core: its method and its parameters.
#[derive(Debug)]
pub struct CoreCall {
    pub method: String,
    pub params: Json,
}

/// A change of the user's configuration: the domain it applies to and the
/// changed settings.
#[derive(Debug)]
pub struct UserConfigChange {
    pub domain: Json,
    pub changes: Json,
}

/// The handler for a notification of the given method.
pub open spec fn dispatch_notification(method: String, params: Json) -> Dispatch {
    if method@ == "available_themes"@ {
        Dispatch::AvailableThemes(params)
    } else if method@ == "available_plugins"@ {
        Dispatch::AvailablePlugins(params)
    } else if method@ == "config_changed"@ {
        Dispatch::ConfigChanged(params)
    } else if method@ == "def_style"@ {
        Dispatch::DefStyle(params)
    } else if method@ == "find_status"@ {
        Dispatch::FindStatus(params)
    } else if method@ == "update"@ {
        Dispatch::Update(params)
    } else if method@ == "scroll_to"@ {
        Dispatch::ScrollTo(params)
    } else if method@ == "theme_changed"@ {
        Dispatch::ThemeChanged(params)
    } else {
        Dispatch::Unhandled { method }
    }
}

/// The handler for a message from the core.
pub open spec fn dispatch_of(msg: CoreMsg) -> Dispatch {
    match msg {
        CoreMsg::NewViewReply { file_name, value } => Dispatch::NewViewResponse { file_name, value },
        CoreMsg::Notification { method, params } => dispatch_notification(method, params),
    }
}

/// The parameters that a dispatch hands to its handler.
pub open spec fn dispatched_params(d: Dispatch) -> Option<Json> {
    match d {
        Dispatch::AvailableThemes(p) => Some(p),
        Dispatch::AvailablePlugins(p) => Some(p),
        Dispatch::ConfigChanged(p) => Some(p),
        Dispatch::DefStyle(p) => Some(p),
        Dispatch::FindStatus(p) => Some(p),
        Dispatch::Update(p) => Some(p),
        Dispatch::ScrollTo(p) => Some(p),
        Dispatch::ThemeChanged(p) => Some(p),
        _ => None,
    }
}

/// A notification of each handled method goes to the handler of that name
/// with the notification's own parameters, unchanged; a notification of any
/// other method is unhandled and names its method; a reply to a request for
/// a new view goes to the new-view handler with its file name and value.
pub proof fn lemma_dispatch_keeps_params(method: String, params: Json, file_name: Option<String>, value: Json)
    ensures
        method@ == "available_themes"@ ==> dispatch_notification(method, params) == Dispatch::AvailableThemes(params),
        method@ == "available_plugins"@ ==> dispatch_notification(method, params) == Dispatch::AvailablePlugins(params),
        method@ == "config_changed"@ ==> dispatch_notification(method, params) == Dispatch::ConfigChanged(params),
        method@ == "def_style"@ ==> dispatch_notification(method, params) == Dispatch::DefStyle(params),
        method@ == "find_status"@ ==> dispatch_notification(method, params) == Dispatch::FindStatus(params),
        method@ == "update"@ ==> dispatch_notification(method, params) == Dispatch::Update(params),
        method@ == "scroll_to"@ ==> dispatch_notification(method, params) == Dispatch::ScrollTo(params),
        method@ == "theme_changed"@ ==> dispatch_notification(method, params) == Dispatch::ThemeChanged(params),
        dispatched_params(dispatch_notification(method, params)) is Some
            ==> dispatched_params(dispatch_notification(method, params)) == Some(params),
        dispatched_params(dispatch_notification(method, params)) is None
            ==> dispatch_notification(method, params) == (Dispatch::Unhandled { method }),
        dispatch_of(CoreMsg::NewViewReply { file_name, value }) == (Dispatch::NewViewResponse { file_name, value }),
{
    reveal_strlit("available_themes");
    reveal_strlit("available_plugins");
    reveal_strlit("config_changed");
    reveal_strlit("def_style");
    reveal_strlit("find_status");
    reveal_strlit("update");
    reveal_strlit("scroll_to");
    reveal_strlit("theme_changed");
    // The names differ at their first character, or at the eleventh for the
    // two that begin with "available_".
    assert("available_themes"@[10] == 't' && "available_plugins"@[10] == 'p');
    assert("available_themes"@[0] == 'a' && "available_plugins"@[0] == 'a' && "config_changed"@[0] == 'c'
        && "def_style"@[0] == 'd' && "find_status"@[0] == 'f' && "update"@[0] == 'u' && "scroll_to"@[0] == 's'
        && "theme_changed"@[0] == 't');
}

/// Routes the messages of the core to the main window and builds what the
/// front end sends to the core.
pub struct Controller {}

impl Controller {
    pub fn new() -> (c: Controller) {
        Controller {  }
    }

    /// Decides which main-window handler a message from the core goes to.
    pub fn handle_msg(&self, msg: CoreMsg) -> (d: Dispatch)
        ensures
            d == dispatch_of(msg),
    {
        match msg {
            CoreMsg::NewViewReply { file_name, value } => Dispatch::NewViewResponse {
                file_name,
                value,
            },
            CoreMsg::Notification { method, params } => {
                if str_eq(method.as_str(), "available_themes") {
                    Dispatch::AvailableThemes(params)
                } else if str_eq(method.as_str(), "available_plugins") {
                    Dispatch::AvailablePlugins(params)
                } else if str_eq(method.as_str(), "config_changed") {
                    Dispatch::ConfigChanged(params)
                } else if str_eq(method.as_str(), "def_style") {
                    Dispatch::DefStyle(params)
                } else if str_eq(method.as_str(), "find_status") {
                    Dispatch::FindStatus(params)
                } else if str_eq(method.as_str(), "update") {
                    Dispatch::Update(params)
                } else if str_eq(method.as_str(), "scroll_to") {
                    Dispatch::ScrollTo(params)
                } else if str_eq(method.as_str(), "theme_changed") {
                    Dispatch::ThemeChanged(params)
                } else {
                    Dispatch::Unhandled { method }
                }
            },
        }
    }

    /// The request for a new view of `file_name` (an empty view for `None`),
    /// and the file name that the core's reply is to carry.
    pub fn req_new_view(&self, file_name: Option<&str>) -> (r: (CoreCall, Option<String>))
        ensures
            r.0.method@ == "new_view"@,
            r.0.params is Object,
            r.0.params->Object_0@.len() == 1,
            r.0.params->Object_0@[0].0@ == "file_path"@,
            match file_name {
                Some(f) => {
                    &&& r.0.params.field_str("file_path"@) == Some(f@)
                    &&& r.1 matches Some(g) && g@ == f@
                },
                None => {
                    &&& r.0.params.field("file_path"@) == Some(Json::Null)
                    &&& r.1 is None
                },
            },
    {
        let (value, reply_name) = match file_name {
            Some(f) => (Json::Str(f.to_owned()), Some(f.to_owned())),
            None => (Json::Null, None),
        };
        let params = Json::single_member("file_path", value);
        (CoreCall { method: "new_view".to_owned(), params }, reply_name)
    }

    /// The notification that selects the theme `theme_name`.
    pub fn set_theme(&self, theme_name: &str) -> (r: CoreCall)
        ensures
            r.method@ == "set_theme"@,
            r.params is Object,
            r.params->Object_0@.len() == 1,
            r.params.field_str("theme_name"@) == Some(theme_name@),
    {
        let params = Json::single_member("theme_name", Json::Str(theme_name.to_owned()));
        CoreCall { method: "set_theme".to_owned(), params }
    }

    /// The change of the user's configuration that switches automatic
    /// indentation on or off.
    pub fn set_auto_indent(&self, auto_indent: bool) -> (r: UserConfigChange)
        ensures
            r.domain.str_view() == Some("general"@),
            r.changes is Object,
            r.changes->Object_0@.len() == 1,
            r.changes.field_bool("auto_indent"@) == Some(auto_indent),
    {
        UserConfigChange {
            domain: Json::Str("general".to_owned()),
            changes: Json::single_member("auto_indent", Json::Bool(auto_indent)),
        }
    }
}

} // verus!
