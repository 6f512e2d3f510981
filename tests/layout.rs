use rog_profiles::layout::get_layout_path;

#[test]
fn layout_path_under_data_dir() {
    assert_eq!(get_layout_path("/usr/share/rog-gui", "gb"), "/usr/share/rog-gui/layouts/gb_US.ron");
}

#[test]
fn layout_path_with_trailing_separator() {
    assert_eq!(get_layout_path("/usr/share/rog-gui/", "ga401q"), "/usr/share/rog-gui/layouts/ga401q_US.ron");
}

#[test]
fn layout_path_relative_and_empty() {
    assert_eq!(get_layout_path("data", "x"), "data/layouts/x_US.ron");
    assert_eq!(get_layout_path("", "x"), "layouts/x_US.ron");
}

#[test]
fn layout_path_absolute_name_replaces() {
    assert_eq!(get_layout_path("/usr/share", "/tmp/x"), "/tmp/x_US.ron");
}
