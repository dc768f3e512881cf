use vstd::prelude::*;

use crate::json::Json;
use crate::text::{
    main_separator, chars_of, decimal_chars, decimal_string, decimal_width, push_char, push_str, spaces, str_eq,
    string_from,
};

verus! {

/// The position of the last `c` in `s`; -1 when there is none.
pub open spec fn last_index_of(s: Seq<char>, c: char) -> int
    decreases s.len(),
{
    if s.len() == 0 {
        -1
    } else if s.last() == c {
        s.len() - 1
    } else {
        last_index_of(s.drop_last(), c)
    }
}

/// What follows the last separator of a path (the whole path when it has none).
pub open spec fn file_title(path: Seq<char>, sep: char) -> Seq<char> {
    path.subrange(last_index_of(path, sep) + 1, path.len() as int)
}

/// The title of a view's tab: the file's name (or "Untitled"), after a `*`
/// when the view has unsaved changes.
pub open spec fn tab_title(file_name: Option<Seq<char>>, pristine: bool, sep: char) -> Seq<char> {
    let base = match file_name {
        Some(f) => file_title(f, sep),
        None => "Untitled"@,
    };
    if pristine {
        base
    } else {
        seq!['*'] + base
    }
}

proof fn lemma_last_index_of_range(s: Seq<char>, c: char)
    ensures
        -1 <= last_index_of(s, c) < s.len(),
        last_index_of(s, c) >= 0 ==> s[last_index_of(s, c)] == c,
    decreases s.len(),
{
    if s.len() > 0 && s.last() != c {
        lemma_last_index_of_range(s.drop_last(), c);
    }
}

/// Without a `c` after position `i`, the last `c` of `s` is that of its first
/// `i` characters.
proof fn lemma_last_index_of_prefix(s: Seq<char>, c: char, i: int)
    requires
        0 <= i <= s.len(),
        forall|j: int| i <= j < s.len() ==> s[j] != c,
    ensures
        last_index_of(s, c) == last_index_of(s.take(i), c),
    decreases s.len() - i,
{
    if i == s.len() {
        assert(s.take(i) =~= s);
    } else {
        lemma_last_index_of_prefix(s.drop_last(), c, i);
        assert(s.drop_last().take(i) =~= s.take(i));
    }
}

/// The title taken from a path holds no separator, and a path without a
/// separator is its own title.
pub proof fn lemma_file_title(path: Seq<char>, sep: char)
    ensures
        forall|j: int| 0 <= j < file_title(path, sep).len() ==> #[trigger] file_title(path, sep)[j] != sep,
        (forall|j: int| 0 <= j < path.len() ==> path[j] != sep) ==> file_title(path, sep) == path,
{
    lemma_last_index_of_range(path, sep);
    let k = last_index_of(path, sep);
    assert forall|j: int| k + 1 <= j < path.len() implies path[j] != sep by {
        if path[j] == sep {
            lemma_no_sep_after_last(path, sep, j);
        }
    }
    if forall|j: int| 0 <= j < path.len() ==> path[j] != sep {
        lemma_last_index_of_prefix(path, sep, 0);
        assert(path.take(0) =~= Seq::<char>::empty());
        assert(path.subrange(0, path.len() as int) =~= path);
    }
}

/// No `c` comes after the last `c`.
proof fn lemma_no_sep_after_last(s: Seq<char>, c: char, j: int)
    requires
        0 <= j < s.len(),
        s[j] == c,
    ensures
        j <= last_index_of(s, c),
    decreases s.len(),
{
    if s.last() != c {
        lemma_no_sep_after_last(s.drop_last(), c, j);
    }
}

/// The characters of `path` after its last separator.
fn file_title_of(path: &str, sep: char) -> (t: String)
    ensures
        t@ == file_title(path@, sep),
{
    let v = chars_of(path);
    let mut i = v.len();
    while i > 0 && v[i - 1] != sep
        invariant
            v@ == path@,
            i <= v@.len(),
            forall|j: int| i <= j < v@.len() ==> v@[j] != sep,
        decreases i,
    {
        i = i - 1;
    }
    proof {
        lemma_last_index_of_prefix(v@, sep, i as int);
        if i > 0 {
            assert(v@.take(i as int).last() == sep);
        } else {
            assert(v@.take(0) =~= Seq::<char>::empty());
        }
    }
    string_from(&v, i)
}

/// The text a line shows: its text without the final newline.
pub open spec fn display_text(text: Seq<char>) -> Seq<char> {
    if text.len() > 0 && text.last() == '\n' {
        text.drop_last()
    } else {
        text
    }
}

/// The text a line shows: its text without the final newline.
pub fn line_display_text(text: &str) -> (r: String)
    ensures
        r@ == display_text(text@),
{
    let v = chars_of(text);
    if v.len() > 0 && v[v.len() - 1] == '\n' {
        let mut s = String::new();
        let n = v.len() - 1;
        let mut i: usize = 0;
        while i < n
            invariant
                n == v@.len() - 1,
                i <= n,
                s@ == v@.take(i as int),
            decreases n - i,
        {
            push_char(&mut s, v[i]);
            i = i + 1;
            assert(s@ =~= v@.take(i as int));
        }
        assert(v@.take(n as int) =~= v@.drop_last());
        s
    } else {
        string_from(&v, 0)
    }
}

/// The gutter label of line `n`: its number right-aligned in `width`
/// characters, then a space (`format!("{:>width$} ", n)`).
pub open spec fn line_label(n: nat, width: nat) -> Seq<char> {
    let digits = decimal_chars(n);
    let pad = if width > digits.len() { (width - digits.len()) as nat } else { 0 };
    spaces(pad) + digits + seq![' ']
}

/// A gutter label is the number right-aligned in the given width (or wider
/// when the number needs more), followed by one space.
pub proof fn lemma_line_label(n: nat, width: nat)
    ensures
        line_label(n, width).len() == (if width > decimal_chars(n).len() { width } else { decimal_chars(n).len() }) + 1,
        line_label(n, width).last() == ' ',
        line_label(n, width).drop_last().subrange(
            line_label(n, width).len() - 1 - decimal_chars(n).len(),
            line_label(n, width).len() - 1,
        ) == decimal_chars(n),
{
    let digits = decimal_chars(n);
    let pad: nat = if width > digits.len() { (width - digits.len()) as nat } else { 0 };
    let l = line_label(n, width);
    assert(l.drop_last() =~= spaces(pad) + digits);
    assert((spaces(pad) + digits).subrange(pad as int, (pad + digits.len()) as int) =~= digits);
}

/// The width that line numbers take in a gutter for `num_lines` lines: that
/// of the largest line number, `num_lines - 1` (0 for no lines).
pub open spec fn gutter_width(num_lines: nat) -> nat {
    decimal_chars(if num_lines > 0 { (num_lines - 1) as nat } else { 0 }).len()
}

/// The width that line numbers take in a gutter for `num_lines` lines.
pub fn line_number_padding(num_lines: u64) -> (w: usize)
    ensures
        w as nat == gutter_width(num_lines as nat),
{
    decimal_width(num_lines.saturating_sub(1))
}

/// The gutter label of line `n`, right-aligned in `padding` characters and
/// followed by a space.
pub fn create_layout_for_linecount(n: u64, padding: usize) -> (r: String)
    ensures
        r@ == line_label(n as nat, padding as nat),
{
    let digits = decimal_string(n);
    let width = decimal_width(n);
    let mut s = String::new();
    let mut k: usize = width;
    while k < padding
        invariant
            width <= k,
            k <= padding || k == width,
            s@ == spaces((k - width) as nat),
        decreases padding - k,
    {
        push_char(&mut s, ' ');
        k = k + 1;
        assert(s@ =~= spaces((k - width) as nat));
    }
    push_str(&mut s, digits.as_str());
    push_char(&mut s, ' ');
    s
}

/// What a change of the view's configuration does.
pub enum ConfigEffect {
    FontSize(u64),
    FontFamily(Seq<char>),
    Unhandled(Seq<char>),
}

/// A change of the view's configuration.
#[derive(Debug)]
pub enum ConfigChange {
    /// Set the font size, in points.
    FontSize(u64),
    /// Set the font family.
    FontFamily(String),
    /// A setting that the view does not handle (it is logged).
    Unhandled(String),
}

impl View for ConfigChange {
    type V = ConfigEffect;

    open spec fn view(&self) -> ConfigEffect {
        match self {
            ConfigChange::FontSize(n) => ConfigEffect::FontSize(*n),
            ConfigChange::FontFamily(f) => ConfigEffect::FontFamily(f@),
            ConfigChange::Unhandled(s) => ConfigEffect::Unhandled(s@),
        }
    }
}

/// What setting `name` to `value` does: a font size needs an unsigned
/// integer and a font face a string (the bundled "Inconsolata" stands for
/// "InconsolataGo"); other settings are not handled.
pub open spec fn config_effect(name: Seq<char>, value: Json) -> Option<ConfigEffect> {
    if name == "font_size"@ {
        match value.u64_view() {
            Some(n) => Some(ConfigEffect::FontSize(n)),
            None => None,
        }
    } else if name == "font_face"@ {
        match value.str_view() {
            Some(f) => Some(ConfigEffect::FontFamily(if f == "InconsolataGo"@ { "Inconsolata"@ } else { f })),
            None => None,
        }
    } else {
        Some(ConfigEffect::Unhandled(name))
    }
}

/// What the settings `entries` do, in order.
pub open spec fn config_effects(entries: Seq<(String, Json)>) -> Seq<ConfigEffect>
    decreases entries.len(),
{
    if entries.len() == 0 {
        Seq::empty()
    } else {
        config_effects(entries.drop_last()) + match config_effect(entries.last().0@, entries.last().1) {
            Some(e) => seq![e],
            None => Seq::empty(),
        }
    }
}

/// The label for the search status: the number of results of the last
/// query that reports one.
pub open spec fn query_label(q: Json) -> Option<Seq<char>> {
    match q {
        Json::Object(_) => match q.field_u64("matches"@) {
            Some(n) => Some(decimal_chars(n as nat) + " Results"@),
            None => None,
        },
        _ => None,
    }
}

pub open spec fn status_label(queries: Seq<Json>) -> Option<Seq<char>>
    decreases queries.len(),
{
    if queries.len() == 0 {
        None
    } else {
        match query_label(queries.last()) {
            Some(t) => Some(t),
            None => status_label(queries.drop_last()),
        }
    }
}

/// Whether a query reports its number of matches, `n`.
pub open spec fn reports_matches(q: Json, n: u64) -> bool {
    q is Object && q.field_u64("matches"@) == Some(n)
}

/// Whether a query reports some number of matches.
pub open spec fn reports_a_count(q: Json) -> bool {
    q is Object && q.field_u64("matches"@) is Some
}

/// The status shows the count of the last query that reports one, whatever
/// that count (zero included): "N Results" with N in decimal; with no such
/// query there is no status.
pub proof fn lemma_status_of_last_count(items: Seq<Json>, i: int, n: u64)
    requires
        0 <= i < items.len(),
        reports_matches(items[i], n),
        forall|j: int| i < j < items.len() ==> !reports_a_count(#[trigger] items[j]),
    ensures
        status_label(items) == Some(decimal_chars(n as nat) + " Results"@),
    decreases items.len(),
{
    if i < items.len() - 1 {
        let last = items.last();
        assert(query_label(last) is None) by {
            assert(!reports_a_count(items[items.len() - 1]));
        }
        assert forall|j: int| i < j < items.drop_last().len() implies !reports_a_count(
            #[trigger] items.drop_last()[j],
        ) by {
            assert(items.drop_last()[j] == items[j]);
        }
        lemma_status_of_last_count(items.drop_last(), i, n);
    }
}

/// Without a query that reports its number of matches there is no status.
pub proof fn lemma_no_count_no_status(items: Seq<Json>)
    requires
        forall|j: int| 0 <= j < items.len() ==> !reports_a_count(#[trigger] items[j]),
    ensures
        status_label(items) is None,
    decreases items.len(),
{
    if items.len() > 0 {
        let last = items.last();
        assert(query_label(last) is None) by {
            assert(!reports_a_count(items[items.len() - 1]));
        }
        assert forall|j: int| 0 <= j < items.drop_last().len() implies !reports_a_count(
            #[trigger] items.drop_last()[j],
        ) by {
            assert(items.drop_last()[j] == items[j]);
        }
        lemma_no_count_no_status(items.drop_last());
    }
}

/// Every query object names its number of matches (reading a missing
/// member of a query object fails).
pub open spec fn queries_well_formed(queries: Json) -> bool {
    match queries {
        Json::Array(items) => forall|i: int|
            0 <= i < items@.len() && #[trigger] items@[i] is Object ==> items@[i].field("matches"@) is Some,
        _ => true,
    }
}

/// Whether every query object names its number of matches.
pub fn queries_ok(queries: &Json) -> (r: bool)
    ensures
        r == queries_well_formed(*queries),
{
    match queries.as_array() {
        Some(items) => {
            let n = items.len();
            let mut i: usize = 0;
            while i < n
                invariant
                    n == items@.len(),
                    i <= n,
                    *queries == Json::Array(*items),
                    forall|j: int| 0 <= j < i && #[trigger] items@[j] is Object ==> items@[j].field("matches"@) is Some,
                decreases n - i,
            {
                let is_obj = items[i].as_object().is_some();
                if is_obj && items[i].get("matches").is_none() {
                    assert(items@[i as int] is Object);
                    assert(!queries_well_formed(*queries));
                    return false;
                }
                i = i + 1;
            }
            true
        },
        None => true,
    }
}

/// The state of one view of a file: what the front end knows of it apart
/// from its widgets.
#[derive(Debug)]
pub struct EditView {
    pub view_id: String,
    pub file_name: Option<String>,
    pub pristine: bool,
    /// The lines the core was last told are visible: `visible_lines.0` up to
    /// (not including) `visible_lines.1`.
    pub visible_lines: (u64, u64),
}

impl EditView {
    /// The file name as a sequence of characters.
    pub open spec fn file_name_view(self) -> Option<Seq<char>> {
        match self.file_name {
            Some(f) => Some(f@),
            None => None,
        }
    }

    /// A view of `file_name` (an empty view for `None`) without changes,
    /// showing line 0.
    pub fn new(file_name: Option<String>, view_id: &str) -> (ev: EditView)
        ensures
            ev.view_id@ == view_id@,
            ev.file_name == file_name,
            ev.pristine,
            ev.visible_lines == (0u64, 1u64),
    {
        EditView { view_id: view_id.to_owned(), file_name, pristine: true, visible_lines: (0, 1) }
    }

    /// The view now shows the file `file_name`.
    pub fn set_file(&mut self, file_name: &str)
        ensures
            final(self).file_name_view() == Some(file_name@),
            final(self).view_id == old(self).view_id,
            final(self).pristine == old(self).pristine,
            final(self).visible_lines == old(self).visible_lines,
    {
        self.file_name = Some(file_name.to_owned());
    }

    /// The title of the view's tab, with `sep` as the path separator.
    pub fn title_with_separator(&self, sep: char) -> (t: String)
        ensures
            t@ == tab_title(self.file_name_view(), self.pristine, sep),
    {
        let base = match &self.file_name {
            Some(f) => file_title_of(f.as_str(), sep),
            None => "Untitled".to_owned(),
        };
        let mut t = String::new();
        if !self.pristine {
            push_char(&mut t, '*');
        }
        push_str(&mut t, base.as_str());
        t
    }

    /// The title of the view's tab, with this platform's path separator.
    pub fn update_title(&self) -> (t: String)
        ensures
            t@ == tab_title(self.file_name_view(), self.pristine, '/')
                || t@ == tab_title(self.file_name_view(), self.pristine, '\\'),
    {
        self.title_with_separator(main_separator())
    }

    /// Takes an update of the view from the core; the view's unsaved state
    /// follows `params["update"]["pristine"]`. Returns whether it changed
    /// (and the title with it).
    pub fn update(&mut self, params: &Json) -> (retitle: bool)
        ensures
            ({
                let p = match params.field("update"@) {
                    Some(u) => u.field_bool("pristine"@),
                    None => None,
                };
                match p {
                    Some(b) => final(self).pristine == b && retitle == (b != old(self).pristine),
                    None => final(self).pristine == old(self).pristine && !retitle,
                }
            }),
            final(self).view_id == old(self).view_id,
            final(self).file_name == old(self).file_name,
            final(self).visible_lines == old(self).visible_lines,
    {
        let p = match params.get("update") {
            Some(u) => u.get_bool("pristine"),
            None => None,
        };
        match p {
            Some(b) => {
                if self.pristine != b {
                    self.pristine = b;
                    true
                } else {
                    false
                }
            },
            None => false,
        }
    }

    /// Records the lines now visible, `first_line` to `last_line`; returns the
    /// range to tell the core of when it differs from the last one.
    pub fn update_visible_scroll_region(&mut self, first_line: u64, last_line: u64) -> (r: Option<(u64, u64)>)
        requires
            last_line < u64::MAX,
        ensures
            final(self).visible_lines == (first_line, (last_line + 1) as u64),
            r == (if old(self).visible_lines == (first_line, (last_line + 1) as u64) {
                None
            } else {
                Some((first_line, (last_line + 1) as u64))
            }),
            final(self).view_id == old(self).view_id,
            final(self).file_name == old(self).file_name,
            final(self).pristine == old(self).pristine,
    {
        let end = last_line + 1;
        if self.visible_lines.0 != first_line || self.visible_lines.1 != end {
            self.visible_lines = (first_line, end);
            Some((first_line, end))
        } else {
            None
        }
    }

    /// What a change of the view's configuration does, setting by setting.
    pub fn config_changed(changes: &Json) -> (r: Vec<ConfigChange>)
        ensures
            r@.map_values(|c: ConfigChange| c@) == (match *changes {
                Json::Object(entries) => config_effects(entries@),
                _ => Seq::empty(),
            }),
    {
        let mut out: Vec<ConfigChange> = Vec::new();
        match changes.as_object() {
            Some(entries) => {
                let n = entries.len();
                let mut i: usize = 0;
                while i < n
                    invariant
                        n == entries@.len(),
                        i <= n,
                        out@.map_values(|c: ConfigChange| c@) == config_effects(entries@.take(i as int)),
                    decreases n - i,
                {
                    let name = &entries[i].0;
                    let value = &entries[i].1;
                    assert(entries@.take(i + 1).drop_last() =~= entries@.take(i as int));
                    assert(entries@.take(i + 1).last() == entries@[i as int]);
                    if str_eq(name.as_str(), "font_size") {
                        match value.as_u64() {
                            Some(size) => out.push(ConfigChange::FontSize(size)),
                            None => {},
                        }
                    } else if str_eq(name.as_str(), "font_face") {
                        match value.as_str() {
                            Some(face) => {
                                if str_eq(face.as_str(), "InconsolataGo") {
                                    out.push(ConfigChange::FontFamily("Inconsolata".to_owned()));
                                } else {
                                    out.push(ConfigChange::FontFamily(face.clone()));
                                }
                            },
                            None => {},
                        }
                    } else {
                        out.push(ConfigChange::Unhandled(name.clone()));
                    }
                    assert(out@.map_values(|c: ConfigChange| c@) =~= config_effects(entries@.take(i + 1)));
                    i = i + 1;
                }
                assert(entries@.take(n as int) =~= entries@);
            },
            None => {
                assert(out@.map_values(|c: ConfigChange| c@) =~= Seq::<ConfigEffect>::empty());
            },
        }
        out
    }

    /// The label for the search status: "N Results" for the last query that
    /// reports its number of matches N.
    pub fn find_status(queries: &Json) -> (r: Option<String>)
        requires
            queries_well_formed(*queries),
        ensures
            match r {
                Some(t) => *queries is Array && status_label(queries->Array_0@) == Some(t@),
                None => !(*queries is Array) || status_label(queries->Array_0@) is None,
            },
    {
        match queries.as_array() {
            Some(items) => {
                let mut label: Option<String> = None;
                let n = items.len();
                let mut i: usize = 0;
                while i < n
                    invariant
                        n == items@.len(),
                        i <= n,
                        match label {
                            Some(t) => status_label(items@.take(i as int)) == Some(t@),
                            None => status_label(items@.take(i as int)) is None,
                        },
                    decreases n - i,
                {
                    assert(items@.take(i + 1).drop_last() =~= items@.take(i as int));
                    assert(items@.take(i + 1).last() == items@[i as int]);
                    match items[i].as_object() {
                        Some(_) => {
                            match items[i].get_u64("matches") {
                                Some(m) => {
                                    let mut t = decimal_string(m);
                                    push_str(&mut t, " Results");
                                    label = Some(t);
                                },
                                None => {},
                            }
                        },
                        None => {},
                    }
                    i = i + 1;
                }
                assert(items@.take(n as int) =~= items@);
                label
            },
            None => None,
        }
    }
}

impl EditView {
    /// The lines that are drawn: from `first_line` up to (not including)
    /// `last_line`, but no further than the end of the document.
    pub fn lines_to_draw(first_line: u64, last_line: u64, num_lines: u64) -> (r: (u64, u64))
        ensures
            r.0 == first_line,
            r.1 == (if last_line < num_lines { last_line } else { num_lines }),
    {
        let last = if last_line < num_lines { last_line } else { num_lines };
        (first_line, last)
    }

    /// The lines to ask the core for after drawing `first_line..last_line`,
    /// where `present[k]` tells whether line `first_line + k` was at hand:
    /// the whole range when any of its lines was missing.
    pub fn missing_lines(first_line: u64, last_line: u64, present: &Vec<bool>) -> (r: Option<(u64, u64)>)
        requires
            present@.len() == (if first_line < last_line { last_line - first_line } else { 0 }),
        ensures
            r is Some <==> exists|k: int| 0 <= k < present@.len() && !present@[k],
            r matches Some(p) ==> p == (first_line, last_line),
    {
        let n = present.len();
        let mut i: usize = 0;
        while i < n
            invariant
                n == present@.len(),
                i <= n,
                forall|k: int| 0 <= k < i ==> present@[k],
            decreases n - i,
        {
            if !present[i] {
                return Some((first_line, last_line));
            }
            i = i + 1;
        }
        None
    }
}

} // verus!
