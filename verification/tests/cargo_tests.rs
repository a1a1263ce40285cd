use xtask_core::cargo::{ensure_cargo_crate_is_installed, is_cargo_crate_installed};

fn s(x: &str) -> String {
    x.to_string()
}

#[test]
fn installed_when_a_line_holds_the_name() {
    let list = vec![s("foo v1.0"), s("bar v2.0")];
    assert!(is_cargo_crate_installed("foo", &list));
}

#[test]
fn substring_matches_count_as_installed() {
    let list = vec![s("foobar-other")];
    assert!(is_cargo_crate_installed("foo", &list));
}

#[test]
fn not_installed_when_no_line_holds_the_name() {
    let list = vec![s("bar v2.0"), s("baz v0.3")];
    assert!(!is_cargo_crate_installed("foo", &list));
}

#[test]
fn an_empty_listing_means_not_installed() {
    assert!(!is_cargo_crate_installed("foo", &vec![]));
}

#[test]
fn nothing_to_do_when_already_installed() {
    assert!(ensure_cargo_crate_is_installed("mdbook", None, None, false, true).is_none());
}

#[test]
fn bare_install_command() {
    let args = ensure_cargo_crate_is_installed("mdbook", None, None, false, false).unwrap();
    assert_eq!(args, vec![s("install"), s("mdbook")]);
}

#[test]
fn locked_install_command() {
    let args = ensure_cargo_crate_is_installed("mdbook", None, None, true, false).unwrap();
    assert_eq!(args, vec![s("install"), s("mdbook"), s("--locked")]);
}

#[test]
fn full_install_command_keeps_flag_order() {
    let args =
        ensure_cargo_crate_is_installed("mdbook", Some("search"), Some("0.4.40"), true, false)
            .unwrap();
    assert_eq!(
        args,
        vec![
            s("install"),
            s("mdbook"),
            s("--locked"),
            s("--features"),
            s("search"),
            s("--version"),
            s("0.4.40"),
        ]
    );
}

#[test]
fn empty_feature_list_is_dropped() {
    let args = ensure_cargo_crate_is_installed("mdbook", Some(""), None, false, false).unwrap();
    assert_eq!(args, vec![s("install"), s("mdbook")]);
}
