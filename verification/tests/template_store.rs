use theme_father::assets::{
    get_theme_template, Assets, ANDROID_THEME_PATH, IOS_THEME_PATH, MACOS_THEME_PATH,
    TDESKTOP_THEME_PATH,
};

#[test]
fn supported_keys_have_templates() {
    for key in ["android", "ios", "macos", "tdesktop"] {
        let t = get_theme_template(key);
        assert!(t.is_some(), "no template for {key}");
        assert!(!t.unwrap().is_empty());
    }
}

#[test]
fn lookup_is_case_insensitive() {
    let lower = get_theme_template("android").unwrap();
    assert_eq!(get_theme_template("Android").unwrap(), lower);
    assert_eq!(get_theme_template("ANDROID").unwrap(), lower);
    assert_eq!(get_theme_template("AnDrOiD").unwrap(), lower);
    assert_eq!(
        get_theme_template("iOS").unwrap(),
        get_theme_template("ios").unwrap()
    );
    assert_eq!(
        get_theme_template("MacOS").unwrap(),
        get_theme_template("macos").unwrap()
    );
    assert_eq!(
        get_theme_template("TDesktop").unwrap(),
        get_theme_template("tdesktop").unwrap()
    );
}

#[test]
fn unsupported_keys_have_none() {
    assert!(get_theme_template("windows").is_none());
    assert!(get_theme_template("Windows").is_none());
    assert!(get_theme_template("").is_none());
    assert!(get_theme_template("linux").is_none());
    assert!(get_theme_template("androidx").is_none());
    assert!(get_theme_template("andro").is_none());
}

#[test]
fn templates_are_key_value_lines() {
    for key in ["android", "ios", "macos", "tdesktop"] {
        let t = get_theme_template(key).unwrap();
        for line in t.lines() {
            assert!(line.contains(": "), "line without key-value shape: {line}");
        }
    }
}

#[test]
fn templates_differ_per_platform() {
    let a = get_theme_template("android").unwrap();
    let i = get_theme_template("ios").unwrap();
    let m = get_theme_template("macos").unwrap();
    let d = get_theme_template("tdesktop").unwrap();
    assert_ne!(a, i);
    assert_ne!(a, m);
    assert_ne!(a, d);
    assert_ne!(i, m);
    assert_ne!(i, d);
    assert_ne!(m, d);
}

#[test]
fn assets_serve_the_template_paths() {
    for path in [
        ANDROID_THEME_PATH,
        IOS_THEME_PATH,
        MACOS_THEME_PATH,
        TDESKTOP_THEME_PATH,
    ] {
        let content = Assets::get(path);
        assert!(content.is_some(), "no asset at {path}");
        assert!(!content.unwrap().is_empty());
    }
    assert!(Assets::get("themes/no_such_theme.txt").is_none());
    assert!(Assets::get("").is_none());
}

#[test]
fn platform_key_maps_to_its_own_asset() {
    assert_eq!(
        get_theme_template("android").unwrap(),
        Assets::get(ANDROID_THEME_PATH).unwrap()
    );
    assert_eq!(
        get_theme_template("ios").unwrap(),
        Assets::get(IOS_THEME_PATH).unwrap()
    );
    assert_eq!(
        get_theme_template("macos").unwrap(),
        Assets::get(MACOS_THEME_PATH).unwrap()
    );
    assert_eq!(
        get_theme_template("tdesktop").unwrap(),
        Assets::get(TDESKTOP_THEME_PATH).unwrap()
    );
}
