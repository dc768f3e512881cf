use gxi::startup::{xi_dirs, xi_dirs_with_separator};

#[test]
fn core_directories_under_home() {
    let (c, p) = xi_dirs_with_separator(Some("/home/ada"), '/');
    assert_eq!(c, Some("/home/ada/.config/xi".to_string()));
    assert_eq!(p, Some("/home/ada/.config/xi/plugins".to_string()));
    let (c, _) = xi_dirs_with_separator(Some("/home/ada/"), '/');
    assert_eq!(c, Some("/home/ada/.config/xi".to_string()));
    let (c, p) = xi_dirs_with_separator(Some("C:\\Users\\ada"), '\\');
    assert_eq!(c, Some("C:\\Users\\ada\\.config\\xi".to_string()));
    assert_eq!(p, Some("C:\\Users\\ada\\.config\\xi\\plugins".to_string()));
    assert_eq!(xi_dirs_with_separator(None, '/'), (None, None));
}

#[test]
fn directories_match_path_join() {
    let home = std::path::PathBuf::from("/home/ada");
    let config = home.join(".config").join("xi");
    let plugins = config.join("plugins");
    let (c, p) = xi_dirs(home.to_str());
    assert_eq!(c.as_deref(), config.to_str());
    assert_eq!(p.as_deref(), plugins.to_str());
    let (c, _) = xi_dirs(Some(""));
    assert_eq!(c, Some(".config/xi".to_string()));
}

#[test]
fn bare_drive_takes_no_separator() {
    let (c, p) = xi_dirs_with_separator(Some("C:"), '\\');
    assert_eq!(c, Some("C:.config\\xi".to_string()));
    assert_eq!(p, Some("C:.config\\xi\\plugins".to_string()));
    let (c, _) = xi_dirs_with_separator(Some("C:"), '/');
    assert_eq!(c, Some("C:/.config/xi".to_string()));
    let (c, _) = xi_dirs_with_separator(Some("1:"), '\\');
    assert_eq!(c, Some("1:\\.config\\xi".to_string()));
}
