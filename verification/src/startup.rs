use vstd::prelude::*;

use crate::text::{main_separator, push_char, push_str};

verus! {

/// Whether `c` separates path components on a platform whose separator is
/// `sep` (`/` always does).
pub open spec fn is_separator(c: char, sep: char) -> bool {
    c == '/' || c == sep
}

/// Whether `c` is an ASCII letter.
pub open spec fn is_ascii_letter(c: char) -> bool {
    ('a' <= c && c <= 'z') || ('A' <= c && c <= 'Z')
}

/// Whether `path` is a bare drive such as `C:` on a platform whose
/// separator is `\` (Windows).
pub open spec fn is_bare_drive(path: Seq<char>, sep: char) -> bool {
    sep == '\\' && path.len() == 2 && is_ascii_letter(path[0]) && path[1] == ':'
}

/// `base` joined with the relative component `comp`: a separator goes
/// between them unless `base` is empty, already ends with one, or is a bare
/// drive (`C:` joined with `x` is `C:x`, relative to that drive).
pub open spec fn path_join(base: Seq<char>, comp: Seq<char>, sep: char) -> Seq<char> {
    if base.len() == 0 {
        comp
    } else if is_separator(base.last(), sep) || is_bare_drive(base, sep) {
        base + comp
    } else {
        base + seq![sep] + comp
    }
}

/// The configuration directory of the core under home directory `home`
/// (`home/.config/xi`).
pub open spec fn config_dir_of(home: Seq<char>, sep: char) -> Seq<char> {
    path_join(path_join(home, ".config"@, sep), "xi"@, sep)
}

/// The plugin directory of the core under home directory `home`
/// (`home/.config/xi/plugins`).
pub open spec fn plugin_dir_of(home: Seq<char>, sep: char) -> Seq<char> {
    path_join(config_dir_of(home, sep), "plugins"@, sep)
}

/// `r` holds the configuration and plugin directories under `home`.
pub open spec fn dirs_under(r: (Option<String>, Option<String>), home: Seq<char>, sep: char) -> bool {
    &&& r.0 is Some
    &&& r.0.unwrap()@ == config_dir_of(home, sep)
    &&& r.1 is Some
    &&& r.1.unwrap()@ == plugin_dir_of(home, sep)
}

fn join(base: &str, comp: &str, sep: char) -> (r: String)
    ensures
        r@ == path_join(base@, comp@, sep),
{
    let mut s = String::new();
    push_str(&mut s, base);
    let v = crate::text::chars_of(base);
    if v.len() > 0 {
        let last = v[v.len() - 1];
        let bare_drive = sep == '\\' && v.len() == 2 && v[1] == ':' && (('a' <= v[0] && v[0] <= 'z') || (
        'A' <= v[0] && v[0] <= 'Z'));
        if last != '/' && last != sep && !bare_drive {
            push_char(&mut s, sep);
        }
    }
    push_str(&mut s, comp);
    assert(s@ =~= path_join(base@, comp@, sep));
    s
}

/// The configuration and plugin directories of the core, for the separator
/// `sep`; none without a home directory.
pub fn xi_dirs_with_separator(home: Option<&str>, sep: char) -> (r: (Option<String>, Option<String>))
    ensures
        match home {
            Some(h) => dirs_under(r, h@, sep),
            None => r.0 is None && r.1 is None,
        },
{
    match home {
        Some(h) => {
            let dot_config = join(h, ".config", sep);
            let config = join(dot_config.as_str(), "xi", sep);
            let plugins = join(config.as_str(), "plugins", sep);
            (Some(config), Some(plugins))
        },
        None => (None, None),
    }
}

/// The configuration and plugin directories of the core under the home
/// directory `home`, with this platform's separator.
pub fn xi_dirs(home: Option<&str>) -> (r: (Option<String>, Option<String>))
    ensures
        match home {
            Some(h) => dirs_under(r, h@, '/') || dirs_under(r, h@, '\\'),
            None => r.0 is None && r.1 is None,
        },
{
    let sep = main_separator();
    xi_dirs_with_separator(home, sep)
}

} // verus!
