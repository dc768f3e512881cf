use vstd::prelude::*;

use crate::edit_view::EditView;
use crate::json::Json;
use crate::styles::{Style, set_style_in, styles_after_set};
use crate::text::str_eq;

verus! {

/// What the main window knows of the themes and styles; `T` is the theme
/// type and `C` the color type.
pub struct MainState<T, C> {
    pub themes: Vec<String>,
    pub theme_name: String,
    pub theme: T,
    pub styles: Vec<Style<C>>,
}

/// An open view: its id in the core, the front end's handle `V` for it, and
/// whether it has a page in the notebook.
pub struct ViewEntry<V> {
    pub view_id: String,
    pub view: V,
    pub has_page: bool,
}

/// The position of the first entry at or after `i` for view `id`.
pub open spec fn find_view_from<V>(entries: Seq<ViewEntry<V>>, id: Seq<char>, i: int) -> Option<int>
    decreases entries.len() - i,
{
    if i < 0 || i >= entries.len() {
        None
    } else if entries[i].view_id@ == id {
        Some(i)
    } else {
        find_view_from(entries, id, i + 1)
    }
}

/// The position of the entry for view `id`.
pub open spec fn find_view<V>(entries: Seq<ViewEntry<V>>, id: Seq<char>) -> Option<int> {
    find_view_from(entries, id, 0)
}

/// No two entries of the table are for the same view.
pub open spec fn ids_unique<V>(entries: Seq<ViewEntry<V>>) -> bool {
    forall|i: int, j: int| 0 <= i < j < entries.len() ==> (#[trigger] entries[i]).view_id@ != (#[trigger] entries[j]).view_id@
}

/// An id that is not found is held by no entry at or after `i`.
proof fn lemma_find_none<V>(a: Seq<ViewEntry<V>>, id: Seq<char>, i: int)
    requires
        0 <= i,
        find_view_from(a, id, i) is None,
    ensures
        forall|k: int| i <= k < a.len() ==> (#[trigger] a[k]).view_id@ != id,
    decreases a.len() - i,
{
    if i < a.len() {
        lemma_find_none(a, id, i + 1);
    }
}

/// Two tables with the same ids at the same positions find every id at the
/// same position.
proof fn lemma_find_same_ids<V>(a: Seq<ViewEntry<V>>, b: Seq<ViewEntry<V>>, id: Seq<char>, i: int)
    requires
        a.len() == b.len(),
        forall|k: int| 0 <= k < a.len() ==> (#[trigger] a[k]).view_id@ == b[k].view_id@,
        0 <= i,
    ensures
        find_view_from(a, id, i) == find_view_from(b, id, i),
    decreases a.len() - i,
{
    if i < a.len() {
        lemma_find_same_ids(a, b, id, i + 1);
    }
}

/// Appending an entry keeps the position of every id found before, and
/// finds the new entry for its id when that id was not there.
proof fn lemma_find_push<V>(a: Seq<ViewEntry<V>>, e: ViewEntry<V>, id: Seq<char>, i: int)
    requires
        0 <= i <= a.len(),
    ensures
        find_view_from(a.push(e), id, i) == (match find_view_from(a, id, i) {
            Some(k) => Some(k),
            None => if e.view_id@ == id { Some(a.len() as int) } else { None },
        }),
    decreases a.len() - i,
{
    if i < a.len() {
        assert(a.push(e)[i] == a[i]);
        lemma_find_push(a, e, id, i + 1);
    } else {
        assert(a.push(e)[i] == e);
        assert(find_view_from(a.push(e), id, i + 1) == None::<int>);
    }
}

proof fn lemma_find_is_match<V>(a: Seq<ViewEntry<V>>, id: Seq<char>, i: int)
    requires
        0 <= i,
    ensures
        find_view_from(a, id, i) matches Some(k) ==> i <= k < a.len() && a[k].view_id@ == id,
    decreases a.len() - i,
{
    if i < a.len() {
        lemma_find_is_match(a, id, i + 1);
    }
}

/// The main window's state and its table of views.
pub struct MainWin<T, C, V> {
    pub state: MainState<T, C>,
    pub views: Vec<ViewEntry<V>>,
}

impl<T, C, V> MainWin<T, C, V> {
    /// The table of views, in the order they were opened.
    pub open spec fn entries(self) -> Seq<ViewEntry<V>> {
        self.views@
    }

    /// The handle of view `id`, if the core opened it.
    pub open spec fn view_of(self, id: Seq<char>) -> Option<V> {
        match find_view(self.entries(), id) {
            Some(k) => Some(self.entries()[k].view),
            None => None,
        }
    }

    /// Whether view `id` has a page in the notebook.
    pub open spec fn has_page(self, id: Seq<char>) -> bool {
        match find_view(self.entries(), id) {
            Some(k) => self.entries()[k].has_page,
            None => false,
        }
    }

    /// A main window with the default theme name and no views.
    pub fn new(theme: T) -> (w: MainWin<T, C, V>)
        ensures
            w.state.themes@.len() == 0,
            w.state.theme_name@ == "default"@,
            w.state.theme == theme,
            w.state.styles@.len() == 0,
            w.views@.len() == 0,
            ids_unique(w.entries()),
            forall|id: Seq<char>| #[trigger] w.view_of(id) is None,
            forall|id: Seq<char>| !#[trigger] w.has_page(id),
    {
        MainWin {
            state: MainState {
                themes: Vec::new(),
                theme_name: "default".to_owned(),
                theme,
                styles: Vec::new(),
            },
            views: Vec::new(),
        }
    }

    fn index_of(&self, id: &str) -> (r: Option<usize>)
        ensures
            match r {
                Some(k) => find_view(self.entries(), id@) == Some(k as int)
                    && k < self.entries().len() && self.entries()[k as int].view_id@ == id@,
                None => find_view(self.entries(), id@) is None,
            },
    {
        proof {
            lemma_find_is_match(self.views@, id@, 0);
        }
        let n = self.views.len();
        let mut i: usize = 0;
        while i < n
            invariant
                n == self.views@.len(),
                i <= n,
                find_view(self.views@, id@) == find_view_from(self.views@, id@, i as int),
            decreases n - i,
        {
            if str_eq(self.views[i].view_id.as_str(), id) {
                return Some(i);
            }
            i = i + 1;
        }
        None
    }

    /// The handle of view `view_id`.
    pub fn view(&self, view_id: &str) -> (r: Option<&V>)
        ensures
            match r {
                Some(v) => self.view_of(view_id@) == Some(*v),
                None => self.view_of(view_id@) is None,
            },
    {
        match self.index_of(view_id) {
            Some(k) => Some(&self.views[k].view),
            None => None,
        }
    }

    /// Whether view `view_id` has a page in the notebook.
    pub fn view_has_page(&self, view_id: &str) -> (r: bool)
        ensures
            r == self.has_page(view_id@),
    {
        match self.index_of(view_id) {
            Some(k) => self.views[k].has_page,
            None => false,
        }
    }

    /// Records the view that the core opened as `view_id`, with its page.
    pub fn register_view(&mut self, view_id: String, view: V)
        ensures
            final(self).view_of(view_id@) == Some(view),
            final(self).has_page(view_id@),
            forall|id: Seq<char>| id != view_id@ ==> final(self).view_of(id) == old(self).view_of(id)
                && final(self).has_page(id) == old(self).has_page(id),
            ids_unique(old(self).entries()) ==> ids_unique(final(self).entries()),
            final(self).state == old(self).state,
    {
        let ghost old_views = self.views@;
        let ghost key = view_id@;
        proof {
            lemma_find_is_match(old_views, key, 0);
        }
        match self.index_of(view_id.as_str()) {
            Some(k) => {
                self.views.set(k, ViewEntry { view_id, view, has_page: true });
                assert forall|id: Seq<char>| id != key implies self.view_of(id) == old(self).view_of(id)
                    && self.has_page(id) == old(self).has_page(id) by {
                    assert forall|j: int| 0 <= j < self.views@.len() implies (#[trigger] self.views@[j]).view_id@ == old_views[j].view_id@ by {}
                    lemma_find_same_ids(self.views@, old_views, id, 0);
                    lemma_find_is_match(old_views, id, 0);
                    if let Some(j) = find_view(old_views, id) {
                        assert(j != k);
                        assert(self.views@[j] == old_views[j]);
                    }
                }
                assert(find_view(self.views@, key) == Some(k as int)) by {
                    assert forall|j: int| 0 <= j < self.views@.len() implies (#[trigger] self.views@[j]).view_id@ == old_views[j].view_id@ by {}
                    lemma_find_same_ids(self.views@, old_views, key, 0);
                }
                assert(ids_unique(old_views) ==> ids_unique(self.views@)) by {
                    assert forall|j: int| 0 <= j < self.views@.len() implies (#[trigger] self.views@[j]).view_id@ == old_views[j].view_id@ by {}
                }
            },
            None => {
                self.views.push(ViewEntry { view_id, view, has_page: true });
                assert forall|id: Seq<char>| true implies find_view(self.views@, id) == (match find_view(old_views, id) {
                    Some(k) => Some(k),
                    None => if key == id { Some(old_views.len() as int) } else { None },
                }) by {
                    lemma_find_push(old_views, self.views@.last(), id, 0);
                    assert(old_views.push(self.views@.last()) == self.views@);
                }
                assert forall|id: Seq<char>| id != key implies self.view_of(id) == old(self).view_of(id)
                    && self.has_page(id) == old(self).has_page(id) by {
                    lemma_find_is_match(old_views, id, 0);
                    if let Some(j) = find_view(old_views, id) {
                        assert(self.views@[j] == old_views[j]);
                    }
                }
                proof {
                    lemma_find_none(old_views, key, 0);
                    assert forall|j: int| 0 <= j < old_views.len() implies self.views@[j] == old_views[j] by {}
                }
            },
        }
    }

    /// Removes the page of view `view_id`; the view stays known. Returns
    /// whether it had a page.
    pub fn close_view(&mut self, view_id: &str) -> (had_page: bool)
        ensures
            had_page == old(self).has_page(view_id@),
            !final(self).has_page(view_id@),
            forall|id: Seq<char>| final(self).view_of(id) == old(self).view_of(id),
            forall|id: Seq<char>| id != view_id@ ==> final(self).has_page(id) == old(self).has_page(id),
            ids_unique(old(self).entries()) ==> ids_unique(final(self).entries()),
            final(self).state == old(self).state,
    {
        let ghost old_views = self.views@;
        match self.index_of(view_id) {
            Some(k) => {
                let had = self.views[k].has_page;
                let entry = self.views.remove(k);
                let ViewEntry { view_id: id, view, has_page: _ } = entry;
                self.views.insert(k, ViewEntry { view_id: id, view, has_page: false });
                proof {
                    assert forall|j: int| 0 <= j < self.views@.len() implies (#[trigger] self.views@[j]).view_id@ == old_views[j].view_id@ by {
                        if j != k {
                            assert(self.views@[j] == old_views[j]);
                        }
                    }
                    assert forall|id: Seq<char>| true implies self.view_of(id) == old(self).view_of(id)
                        && (id != view_id@ ==> self.has_page(id) == old(self).has_page(id)) by {
                        lemma_find_same_ids(self.views@, old_views, id, 0);
                        lemma_find_is_match(old_views, id, 0);
                        if let Some(j) = find_view(old_views, id) {
                            if j != k {
                                assert(self.views@[j] == old_views[j]);
                            }
                        }
                    }
                    lemma_find_same_ids(self.views@, old_views, view_id@, 0);
                    assert(ids_unique(old_views) ==> ids_unique(self.views@));
                }
                had
            },
            None => false,
        }
    }
}


/// The strings among `items`, in order.
pub open spec fn strings_of(items: Seq<Json>) -> Seq<Seq<char>>
    decreases items.len(),
{
    if items.len() == 0 {
        Seq::empty()
    } else {
        strings_of(items.drop_last()) + match items.last().str_view() {
            Some(s) => seq![s],
            None => Seq::empty(),
        }
    }
}

/// The theme names that `params["themes"]` lists.
pub open spec fn theme_list(params: Json) -> Seq<Seq<char>> {
    match params.field("themes"@) {
        Some(Json::Array(items)) => strings_of(items@),
        _ => Seq::empty(),
    }
}

/// The view that a notification addresses by `params["view_id"]`.
pub open spec fn addressed_id(params: Json) -> Option<Seq<char>> {
    params.field_str("view_id"@)
}

/// What is done with a view whose page is closed.
#[derive(Debug, Clone, Copy, PartialEq, Eq, Structural)]
pub enum CloseDecision {
    /// Close the page.
    Close,
    /// Save the view under a new name, then close the page.
    SaveAsThenClose,
    /// Keep the page open.
    Keep,
}

/// The decision on closing a view: a view with unsaved changes asks first;
/// the answer "save" (`Some(1)`) saves first, "cancel" (`Some(2)`) keeps it.
pub open spec fn close_decision_of(pristine: bool, answer: Option<u16>) -> CloseDecision {
    if pristine {
        CloseDecision::Close
    } else {
        match answer {
            Some(1) => CloseDecision::SaveAsThenClose,
            Some(2) => CloseDecision::Keep,
            _ => CloseDecision::Close,
        }
    }
}

/// What the save command does with the current view.
#[derive(Debug)]
pub enum SaveChoice {
    /// Save the view under the file it shows.
    Save { view_id: String, file_name: String },
    /// The view shows no file yet: ask for a name to save it under.
    AskForName,
}

impl<T, C, V> MainWin<T, C, V> {
    /// The save command on the current view: a view of a file is saved to
    /// it; a view without a file asks for a name.
    pub fn handle_save_button(current: &EditView) -> (c: SaveChoice)
        ensures
            match current.file_name {
                Some(f) => match c {
                    SaveChoice::Save { view_id, file_name } => view_id@ == current.view_id@ && file_name@ == f@,
                    SaveChoice::AskForName => false,
                },
                None => c is AskForName,
            },
    {
        match &current.file_name {
            Some(f) => SaveChoice::Save { view_id: current.view_id.clone(), file_name: f.clone() },
            None => SaveChoice::AskForName,
        }
    }

    /// Takes the theme names that the core offers; the first becomes the
    /// current theme, and is returned to be selected in the core.
    pub fn available_themes(&mut self, params: &Json) -> (selected: Option<String>)
        ensures
            final(self).state.themes@.map_values(|t: String| t@) == theme_list(*params),
            theme_list(*params).len() > 0 ==> {
                &&& final(self).state.theme_name@ == theme_list(*params)[0]
                &&& selected matches Some(t) && t@ == theme_list(*params)[0]
            },
            theme_list(*params).len() == 0 ==> {
                &&& final(self).state.theme_name == old(self).state.theme_name
                &&& selected is None
            },
            final(self).state.theme == old(self).state.theme,
            final(self).state.styles == old(self).state.styles,
            final(self).views == old(self).views,
    {
        self.state.themes.clear();
        match params.get("themes") {
            Some(v) => match v.as_array() {
                Some(items) => {
                    let n = items.len();
                    let mut i: usize = 0;
                    while i < n
                        invariant
                            n == items@.len(),
                            i <= n,
                            self.state.themes@.map_values(|t: String| t@) == strings_of(items@.take(i as int)),
                            self.state.theme_name == old(self).state.theme_name,
                            self.state.theme == old(self).state.theme,
                            self.state.styles == old(self).state.styles,
                            self.views == old(self).views,
                        decreases n - i,
                    {
                        assert(items@.take(i + 1).drop_last() =~= items@.take(i as int));
                        match items[i].as_str() {
                            Some(t) => {
                                self.state.themes.push(t.clone());
                            },
                            None => {},
                        }
                        assert(self.state.themes@.map_values(|t: String| t@) =~= strings_of(items@.take(i + 1)));
                        i = i + 1;
                    }
                    assert(items@.take(n as int) =~= items@);
                },
                None => {
                    assert(self.state.themes@.map_values(|t: String| t@) =~= Seq::<Seq<char>>::empty());
                },
            },
            None => {
                assert(self.state.themes@.map_values(|t: String| t@) =~= Seq::<Seq<char>>::empty());
            },
        }
        if self.state.themes.len() > 0 {
            let first = self.state.themes[0].clone();
            assert(self.state.themes@.map_values(|t: String| t@)[0] == self.state.themes@[0]@);
            self.state.theme_name = first.clone();
            Some(first)
        } else {
            None
        }
    }

    /// Takes a new theme; the style of selected text (style 0) follows the
    /// theme's selection colors.
    pub fn theme_changed(&mut self, theme: T, selection_foreground: Option<C>, selection: Option<C>)
        ensures
            final(self).state.theme == theme,
            final(self).state.styles@ == styles_after_set(
                old(self).state.styles@,
                0,
                Style { fg_color: selection_foreground, bg_color: selection, weight: None, italic: None, underline: None },
            ),
            final(self).state.themes == old(self).state.themes,
            final(self).state.theme_name == old(self).state.theme_name,
            final(self).views == old(self).views,
    {
        self.state.theme = theme;
        self.set_style(0, Style::selection(selection_foreground, selection));
    }

    /// Sets style `id`, growing the style table with unstyled entries as needed.
    pub fn set_style(&mut self, id: usize, style: Style<C>)
        ensures
            final(self).state.styles@ == styles_after_set(old(self).state.styles@, id as nat, style),
            final(self).state.themes == old(self).state.themes,
            final(self).state.theme_name == old(self).state.theme_name,
            final(self).state.theme == old(self).state.theme,
            final(self).views == old(self).views,
    {
        set_style_in(&mut self.state.styles, id, style);
    }

    /// Takes a style that the core defines; it is stored under `params["id"]`
    /// when that is given. Returns whether it was stored.
    pub fn def_style(&mut self, params: &Json, style: Style<C>) -> (stored: bool)
        ensures
            stored == params.field_u64("id"@) is Some,
            match params.field_u64("id"@) {
                Some(id) => final(self).state.styles@ == styles_after_set(
                    old(self).state.styles@,
                    (id as usize) as nat,
                    style,
                ),
                None => final(self).state.styles == old(self).state.styles,
            },
            final(self).state.themes == old(self).state.themes,
            final(self).state.theme_name == old(self).state.theme_name,
            final(self).state.theme == old(self).state.theme,
            final(self).views == old(self).views,
    {
        match params.get_u64("id") {
            Some(id) => {
                self.set_style(id as usize, style);
                true
            },
            None => false,
        }
    }

    /// The view that a notification addresses by `params["view_id"]`, if the
    /// core opened it.
    pub fn addressed_view(&self, params: &Json) -> (r: Option<&V>)
        ensures
            match addressed_id(*params) {
                Some(id) => match r {
                    Some(v) => self.view_of(id) == Some(*v),
                    None => self.view_of(id) is None,
                },
                None => r is None,
            },
    {
        match params.get_str("view_id") {
            Some(id) => self.view(id.as_str()),
            None => None,
        }
    }

    /// The view whose configuration changed (it takes `params["changes"]`).
    pub fn config_changed(&self, params: &Json) -> (r: Option<&V>)
        ensures
            match addressed_id(*params) {
                Some(id) => match r {
                    Some(v) => self.view_of(id) == Some(*v),
                    None => self.view_of(id) is None,
                },
                None => r is None,
            },
    {
        self.addressed_view(params)
    }

    /// The view that the search status is for (it takes `params["queries"]`).
    pub fn find_status(&self, params: &Json) -> (r: Option<&V>)
        ensures
            match addressed_id(*params) {
                Some(id) => match r {
                    Some(v) => self.view_of(id) == Some(*v),
                    None => self.view_of(id) is None,
                },
                None => r is None,
            },
    {
        self.addressed_view(params)
    }

    /// The view that an update is for (it takes `params`).
    pub fn update(&self, params: &Json) -> (r: Option<&V>)
        ensures
            match addressed_id(*params) {
                Some(id) => match r {
                    Some(v) => self.view_of(id) == Some(*v),
                    None => self.view_of(id) is None,
                },
                None => r is None,
            },
    {
        self.addressed_view(params)
    }

    /// The view to scroll and the line and column to scroll to; nothing
    /// unless `view_id`, `line` and `col` are all given and the view is known.
    pub fn scroll_to(&self, params: &Json) -> (r: Option<(&V, u64, u64)>)
        ensures
            match (addressed_id(*params), params.field_u64("line"@), params.field_u64("col"@)) {
                (Some(id), Some(line), Some(col)) => match r {
                    Some(t) => self.view_of(id) == Some(*t.0) && t.1 == line && t.2 == col,
                    None => self.view_of(id) is None,
                },
                _ => r is None,
            },
    {
        let view_id = match params.get_str("view_id") {
            Some(id) => id,
            None => return None,
        };
        let line = match params.get_u64("line") {
            Some(line) => line,
            None => return None,
        };
        let col = match params.get_u64("col") {
            Some(col) => col,
            None => return None,
        };
        match self.view(view_id.as_str()) {
            Some(v) => Some((v, line, col)),
            None => None,
        }
    }

    /// The id of the view that the core opened, from its reply to a request
    /// for a new view.
    pub fn new_view_response(&self, value: &Json) -> (view_id: Option<String>)
        ensures
            match view_id {
                Some(id) => value.str_view() == Some(id@),
                None => value.str_view() is None,
            },
    {
        match value.as_str() {
            Some(id) => Some(id.clone()),
            None => None,
        }
    }

    /// What closing a view does, given whether it is unchanged and, for a
    /// changed view, the answer to the question whether to save it.
    pub fn close_decision(pristine: bool, answer: Option<u16>) -> (d: CloseDecision)
        ensures
            d == close_decision_of(pristine, answer),
    {
        if pristine {
            CloseDecision::Close
        } else {
            match answer {
                Some(1) => CloseDecision::SaveAsThenClose,
                Some(2) => CloseDecision::Keep,
                _ => CloseDecision::Close,
            }
        }
    }
}

/// The position of the last of the first `k` names that equals `name`.
pub open spec fn last_match(names: Seq<String>, name: Seq<char>, k: int) -> Option<int>
    decreases k,
{
    if k <= 0 || k > names.len() {
        None
    } else if names[k - 1]@ == name {
        Some(k - 1)
    } else {
        last_match(names, name, k - 1)
    }
}

impl<T, C> MainState<T, C> {
    /// The position of the current theme in the list of themes (the last one
    /// of that name), to be shown as chosen in the preferences.
    pub fn active_theme(&self) -> (r: Option<usize>)
        ensures
            match r {
                Some(i) => last_match(self.themes@, self.theme_name@, self.themes@.len() as int) == Some(i as int),
                None => last_match(self.themes@, self.theme_name@, self.themes@.len() as int) is None,
            },
    {
        let n = self.themes.len();
        let mut found: Option<usize> = None;
        let mut i: usize = 0;
        while i < n
            invariant
                n == self.themes@.len(),
                i <= n,
                match found {
                    Some(j) => last_match(self.themes@, self.theme_name@, i as int) == Some(j as int),
                    None => last_match(self.themes@, self.theme_name@, i as int) is None,
                },
            decreases n - i,
        {
            if str_eq(self.themes[i].as_str(), self.theme_name.as_str()) {
                found = Some(i);
            }
            i = i + 1;
        }
        found
    }

    /// The theme chosen in the preferences becomes the current theme.
    pub fn select_theme(&mut self, theme_name: String)
        ensures
            final(self).theme_name == theme_name,
            final(self).themes == old(self).themes,
            final(self).theme == old(self).theme,
            final(self).styles == old(self).styles,
    {
        self.theme_name = theme_name;
    }
}

} // verus!
