use neon_cli::install::Platform;
use neon_cli::json::Json;
use neon_cli::setup::terminal_theme::{
    applied_message, apply_appearance, apply_appearance_to_settings, build_wt_scheme,
    check_platform, current_profile, customize_ready, customize_settings_with, dry_run_summary_with,
    expand_tilde_with, pick_from_pool_with, pool_index, scheme_exists, strip_settings_comments, target_warning,
    upsert_scheme, wt_settings_path, Appearance, AppearanceTarget, FontSize, Palette, Theme,
    ThemeError,
};

fn s(v: &str) -> String {
    v.to_string()
}

fn obj(entries: Vec<(&str, Json)>) -> Json {
    Json::Object(entries.into_iter().map(|(k, v)| (k.to_string(), v)).collect())
}

fn get<'a>(j: &'a Json, key: &str) -> Option<&'a Json> {
    match j {
        Json::Object(es) => es.iter().find(|(k, _)| k == key).map(|(_, v)| v),
        _ => None,
    }
}

fn as_str(j: Option<&Json>) -> Option<&str> {
    match j {
        Some(Json::Str(v)) => Some(v.as_str()),
        _ => None,
    }
}

fn as_array(j: Option<&Json>) -> &Vec<Json> {
    match j {
        Some(Json::Array(v)) => v,
        _ => panic!("not an array"),
    }
}

fn same(a: &Json, b: &Json) -> bool {
    match (a, b) {
        (Json::Null, Json::Null) => true,
        (Json::Bool(x), Json::Bool(y)) => x == y,
        (Json::Number(x), Json::Number(y)) => x == y,
        (Json::Str(x), Json::Str(y)) => x == y,
        (Json::Array(x), Json::Array(y)) => {
            x.len() == y.len() && x.iter().zip(y.iter()).all(|(p, q)| same(p, q))
        }
        (Json::Object(x), Json::Object(y)) => {
            x.len() == y.len()
                && x.iter().zip(y.iter()).all(|((k1, v1), (k2, v2))| k1 == k2 && same(v1, v2))
        }
        _ => false,
    }
}

fn sample_palette() -> Palette {
    Palette {
        black: s("#000000"),
        red: s("#cc0000"),
        green: s("#4e9a06"),
        yellow: s("#c4a000"),
        blue: s("#3465a4"),
        magenta: s("#75507b"),
        cyan: s("#06989a"),
        white: s("#d3d7cf"),
        bright_black: s("#555753"),
        bright_red: s("#ef2929"),
        bright_green: s("#8ae234"),
        bright_yellow: s("#fce94f"),
        bright_blue: s("#729fcf"),
        bright_magenta: s("#ad7fa8"),
        bright_cyan: s("#34e2e2"),
        bright_white: s("#eeeeec"),
        cursor: Some(s("#ffffff")),
        selection_background: Some(s("#44475a")),
        background: Some(s("#1c1c1c")),
        foreground: Some(s("#f8f8f2")),
    }
}

fn plain_palette() -> Palette {
    Palette {
        black: s("#000"),
        red: s("#f00"),
        green: s("#0f0"),
        yellow: s("#ff0"),
        blue: s("#00f"),
        magenta: s("#f0f"),
        cyan: s("#0ff"),
        white: s("#fff"),
        bright_black: s("#333"),
        bright_red: s("#f33"),
        bright_green: s("#3f3"),
        bright_yellow: s("#ff3"),
        bright_blue: s("#33f"),
        bright_magenta: s("#f3f"),
        bright_cyan: s("#3ff"),
        bright_white: s("#eee"),
        cursor: None,
        selection_background: None,
        background: None,
        foreground: None,
    }
}

fn sample_theme() -> Theme {
    Theme {
        name: s("TestTheme"),
        palette: sample_palette(),
        appearance: Appearance {
            font_face: Some(s("JetBrains Mono")),
            font_size: Some(FontSize { number: s("12.0"), shown: s("12") }),
            opacity: Some(95),
            use_acrylic: Some(true),
            background_image: None,
            cursor_shape: Some(s("bar")),
            background_image_pool: vec![],
        },
    }
}

#[test]
fn build_wt_scheme_maps_magenta_to_purple() {
    let scheme = build_wt_scheme("TestTheme", &sample_palette());
    assert_eq!(as_str(get(&scheme, "purple")), Some("#75507b"));
    assert_eq!(as_str(get(&scheme, "brightPurple")), Some("#ad7fa8"));
    assert!(get(&scheme, "magenta").is_none(), "scheme must not have 'magenta' key");
    assert!(get(&scheme, "brightMagenta").is_none(), "scheme must not have 'brightMagenta' key");
}

#[test]
fn build_wt_scheme_includes_specials_when_set() {
    let scheme = build_wt_scheme("TestTheme", &sample_palette());
    assert_eq!(as_str(get(&scheme, "cursorColor")), Some("#ffffff"));
    assert_eq!(as_str(get(&scheme, "selectionBackground")), Some("#44475a"));
    assert_eq!(as_str(get(&scheme, "background")), Some("#1c1c1c"));
    assert_eq!(as_str(get(&scheme, "foreground")), Some("#f8f8f2"));
}

#[test]
fn build_wt_scheme_omits_specials_when_none() {
    let scheme = build_wt_scheme("NoSpecials", &plain_palette());
    assert!(get(&scheme, "cursorColor").is_none());
    assert!(get(&scheme, "selectionBackground").is_none());
    assert!(get(&scheme, "background").is_none());
    assert!(get(&scheme, "foreground").is_none());
    assert_eq!(as_str(get(&scheme, "name")), Some("NoSpecials"));
    match &scheme {
        Json::Object(es) => assert_eq!(es.len(), 17),
        _ => panic!("scheme must be an object"),
    }
}

#[test]
fn upsert_scheme_pushes_new_scheme() {
    let mut settings = obj(vec![(
        "schemes",
        Json::Array(vec![obj(vec![("name", Json::Str(s("Existing"))), ("black", Json::Str(s("#111")))])]),
    )]);
    let new_scheme = obj(vec![("name", Json::Str(s("NewTheme"))), ("black", Json::Str(s("#000")))]);
    let replaced = upsert_scheme(&mut settings, new_scheme);
    assert!(!replaced, "new scheme should not be flagged as replaced");
    let schemes = as_array(get(&settings, "schemes"));
    assert_eq!(schemes.len(), 2);
    assert_eq!(as_str(get(&schemes[1], "name")), Some("NewTheme"));
    assert_eq!(as_str(get(&schemes[0], "name")), Some("Existing"));
}

#[test]
fn upsert_scheme_replaces_existing_scheme_by_name() {
    let scheme = |n: &str, b: &str| obj(vec![("name", Json::Str(s(n))), ("black", Json::Str(s(b)))]);
    let mut settings = obj(vec![(
        "schemes",
        Json::Array(vec![scheme("Alpha", "#aaa"), scheme("Beta", "#bbb"), scheme("Gamma", "#ccc")]),
    )]);
    let updated = obj(vec![
        ("name", Json::Str(s("Beta"))),
        ("black", Json::Str(s("#000"))),
        ("extra", Json::Str(s("new"))),
    ]);
    let replaced = upsert_scheme(&mut settings, updated);
    assert!(replaced, "existing scheme should be flagged as replaced");
    let schemes = as_array(get(&settings, "schemes"));
    assert_eq!(schemes.len(), 3, "scheme count must not change on replace");
    assert_eq!(as_str(get(&schemes[1], "black")), Some("#000"));
    assert_eq!(as_str(get(&schemes[1], "extra")), Some("new"));
    assert_eq!(as_str(get(&schemes[0], "black")), Some("#aaa"));
    assert_eq!(as_str(get(&schemes[2], "black")), Some("#ccc"));
}

#[test]
fn upsert_scheme_creates_schemes_array_when_missing() {
    let mut settings = obj(vec![("$schema", Json::Str(s("test")))]);
    upsert_scheme(&mut settings, obj(vec![("name", Json::Str(s("First"))), ("black", Json::Str(s("#000")))]));
    let schemes = as_array(get(&settings, "schemes"));
    assert_eq!(as_str(get(&schemes[0], "name")), Some("First"));
    assert_eq!(as_str(get(&settings, "$schema")), Some("test"));
}

#[test]
fn apply_appearance_writes_only_some_fields() {
    let mut profile = obj(vec![
        ("existing_key", Json::Str(s("preserved"))),
        ("cursorShape", Json::Str(s("vintage"))),
    ]);
    let appearance = Appearance {
        font_face: Some(s("Fira Code")),
        font_size: None,
        opacity: Some(80),
        use_acrylic: None,
        background_image: None,
        background_image_pool: vec![],
        cursor_shape: Some(s("bar")),
    };
    apply_appearance(&mut profile, &appearance);
    let font = get(&profile, "font").unwrap();
    assert_eq!(as_str(get(font, "face")), Some("Fira Code"));
    assert!(get(font, "size").is_none(), "font.size must not be written when None");
    assert!(matches!(get(&profile, "opacity"), Some(Json::Number(n)) if n == "80"));
    assert!(get(&profile, "useAcrylic").is_none());
    assert!(get(&profile, "backgroundImage").is_none());
    assert_eq!(as_str(get(&profile, "cursorShape")), Some("bar"));
    assert_eq!(as_str(get(&profile, "existing_key")), Some("preserved"));
}

#[test]
fn apply_appearance_no_op_when_all_none() {
    let mut profile = obj(vec![("key", Json::Str(s("value")))]);
    let appearance = Appearance::default();
    apply_appearance(&mut profile, &appearance);
    match &profile {
        Json::Object(es) => assert_eq!(es.len(), 1, "profile must be unchanged"),
        _ => panic!("profile must stay an object"),
    }
}

#[test]
fn apply_appearance_to_settings_targets_defaults() {
    let mut settings = obj(vec![(
        "profiles",
        obj(vec![("defaults", obj(vec![("compatibility.input.forceVT", Json::Bool(true))]))]),
    )]);
    let appearance = Appearance { font_face: Some(s("Mono")), ..Appearance::default() };
    let target = apply_appearance_to_settings(&mut settings, "defaults", &appearance);
    assert_eq!(target, AppearanceTarget::Applied);
    let defaults = get(get(&settings, "profiles").unwrap(), "defaults").unwrap();
    assert_eq!(as_str(get(get(defaults, "font").unwrap(), "face")), Some("Mono"));
    assert!(matches!(get(defaults, "compatibility.input.forceVT"), Some(Json::Bool(true))));
}

#[test]
fn apply_appearance_to_settings_targets_named_profile() {
    let mut settings = obj(vec![(
        "profiles",
        obj(vec![
            ("defaults", obj(vec![])),
            (
                "list",
                Json::Array(vec![
                    obj(vec![("name", Json::Str(s("PowerShell"))), ("font", obj(vec![("face", Json::Str(s("Cascadia Code")))]))]),
                    obj(vec![("name", Json::Str(s("Ubuntu"))), ("font", obj(vec![("face", Json::Str(s("Fira")))]))]),
                ]),
            ),
        ]),
    )]);
    let appearance = Appearance {
        font_size: Some(FontSize { number: s("14.0"), shown: s("14") }),
        ..Appearance::default()
    };
    apply_appearance_to_settings(&mut settings, "PowerShell", &appearance);
    let list = as_array(get(get(&settings, "profiles").unwrap(), "list"));
    let font0 = get(&list[0], "font").unwrap();
    assert_eq!(as_str(get(font0, "face")), Some("Cascadia Code"), "existing font.face preserved");
    match get(font0, "size") {
        Some(Json::Number(n)) => assert_eq!(n.parse::<f64>().unwrap(), 14.0),
        _ => panic!("font.size must be written to PowerShell profile"),
    }
    assert!(get(get(&list[1], "font").unwrap(), "size").is_none(), "Ubuntu profile must not be modified");
}

#[test]
fn wt_settings_path_returns_non_empty() {
    let path = wt_settings_path();
    assert!(path.is_some(), "wt_settings_path must return Some");
    let p = path.unwrap();
    assert!(p.contains("Microsoft.WindowsTerminal"), "path must contain the WT package name");
}

#[test]
fn upsert_is_idempotent() {
    let mut settings = obj(vec![("schemes", Json::Array(vec![]))]);
    let scheme = || obj(vec![("name", Json::Str(s("Stable"))), ("black", Json::Str(s("#000")))]);
    upsert_scheme(&mut settings, scheme());
    upsert_scheme(&mut settings, scheme());
    let arr = as_array(get(&settings, "schemes"));
    assert_eq!(arr.len(), 1, "second upsert must not add a duplicate");
    assert_eq!(as_str(get(&arr[0], "black")), Some("#000"));
}

#[test]
fn missing_profile_is_reported_and_settings_unchanged() {
    let mut settings = obj(vec![("profiles", obj(vec![("list", Json::Array(vec![]))]))]);
    let appearance = Appearance { font_face: Some(s("Mono")), ..Appearance::default() };
    let t = apply_appearance_to_settings(&mut settings, "Nope", &appearance);
    assert_eq!(t, AppearanceTarget::ProfileNotFound);
    assert_eq!(
        target_warning(t, "Nope").unwrap(),
        "warning: profile 'Nope' not found in profiles.list \u{2014} appearance not applied"
    );
    let mut no_list = obj(vec![]);
    assert_eq!(apply_appearance_to_settings(&mut no_list, "Nope", &appearance), AppearanceTarget::NoProfileList);
    assert!(target_warning(AppearanceTarget::Applied, "x").is_none());
}

#[test]
fn customizing_twice_gives_the_same_settings() {
    let theme = sample_theme();
    let start = || obj(vec![("profiles", obj(vec![("defaults", obj(vec![]))]))]);
    let bg = Some(s("/pics/a.png"));
    let mut settings = start();
    let (replaced1, _) = customize_settings_with(&mut settings, &theme, "defaults", &bg);
    let mut again = start();
    customize_settings_with(&mut again, &theme, "defaults", &bg);
    let (replaced2, _) = customize_settings_with(&mut again, &theme, "defaults", &bg);
    assert!(!replaced1);
    assert!(replaced2);
    assert!(same(&again, &settings));
    assert!(scheme_exists(&settings, "TestTheme"));
    let defaults = current_profile(&settings, "defaults").unwrap();
    assert_eq!(as_str(get(defaults, "backgroundImage")), Some("/pics/a.png"));
}

#[test]
fn dry_run_summary_lists_colors_and_appearance() {
    let theme = sample_theme();
    let text = dry_run_summary_with(&theme, "defaults", false, &None);
    assert!(text.starts_with("[dry-run] color scheme: would add \"TestTheme\"\n[dry-run]   black:          #000000\n"));
    assert!(text.contains("[dry-run]   magenta/purple: #75507b\n"));
    assert!(text.contains("[dry-run]   selection_bg:   #44475a\n"));
    assert!(text.contains("[dry-run] appearance: would apply to profile \"defaults\"\n"));
    assert!(text.contains("[dry-run]   font.size:       12\n"));
    assert!(text.contains("[dry-run]   opacity:         95\n"));
    assert!(text.contains("[dry-run]   useAcrylic:      true\n"));
    assert!(text.ends_with("[dry-run]   cursorShape:     bar\n"));
    let pool_theme = Theme {
        name: s("P"),
        palette: plain_palette(),
        appearance: Appearance { background_image_pool: vec![s("a"), s("b")], ..Appearance::default() },
    };
    let text = dry_run_summary_with(&pool_theme, "defaults", true, &Some(s("b")));
    assert!(text.starts_with("[dry-run] color scheme: would replace \"P\"\n"));
    assert!(text.ends_with("[dry-run]   backgroundImage: b  (pool pick from 2 images)\n"));
}

#[test]
fn tilde_expansion_and_pool_index() {
    assert_eq!(expand_tilde_with("~/pic.png", Some("/home/ada")), "/home/ada/pic.png");
    assert_eq!(expand_tilde_with("/abs/pic.png", Some("/home/ada")), "/abs/pic.png");
    assert_eq!(expand_tilde_with("~/pic.png", None), "~/pic.png");
    assert_eq!(expand_tilde_with("~/.config/bg/wave.png", Some("/home/ada")), "/home/ada/.config/bg/wave.png");
    assert_eq!(pool_index(7, 3), 1);
    assert_eq!(pool_index(999_999_999, 1), 0);
}

#[test]
fn comments_are_blanked_before_parsing() {
    let text = "{\n// c line comment\n\"a\": \"comment in string /* a */\" /* end */}";
    let out = strip_settings_comments(text).ok().unwrap();
    assert_eq!(out.len(), text.len());
    assert!(!out.contains("// c line"));
    assert!(out.contains("\"comment in string /* a */\""));
    assert_eq!(strip_settings_comments("{ / }").unwrap_err(), ThemeError::CommentStrip);
}

#[test]
fn platform_check_and_messages() {
    assert!(check_platform(Platform::Windows).is_ok());
    assert_eq!(check_platform(Platform::Linux).unwrap_err(), ThemeError::NotWindows);
    assert_eq!(ThemeError::NotWindows.message(), "customize-terminal is only supported on Windows");
    assert_eq!(applied_message("Synthwave84", true), "\u{2713} Color scheme \"Synthwave84\" updated in settings.json");
    assert_eq!(applied_message("Synthwave84", false), "\u{2713} Color scheme \"Synthwave84\" added in settings.json");
}

#[test]
fn customize_ready_refuses_non_object_targets() {
    let theme = sample_theme();
    // Settings that are not an object cannot take the scheme.
    assert!(!customize_ready(&Json::Array(vec![]), &theme, "defaults"));
    assert!(customize_ready(&Json::Null, &theme, "defaults"));
    assert!(customize_ready(&obj(vec![]), &theme, "defaults"));
    // `profiles` that is neither an object nor null cannot take `defaults`.
    let profiles_array = obj(vec![("profiles", Json::Array(vec![]))]);
    assert!(!customize_ready(&profiles_array, &theme, "defaults"));
    // A named profile is looked up, never assigned into on the way.
    assert!(customize_ready(&profiles_array, &theme, "PowerShell"));
    // A `defaults` that is a string cannot take the appearance keys.
    let defaults_string = obj(vec![("profiles", obj(vec![("defaults", Json::Str(s("x")))]))]);
    assert!(!customize_ready(&defaults_string, &theme, "defaults"));
    let mut bare = sample_theme();
    bare.appearance = Appearance::default();
    assert!(customize_ready(&defaults_string, &bare, "defaults"));
}

#[test]
fn upsert_scheme_keeps_other_schemes() {
    let a = obj(vec![("name", Json::Str(s("A"))), ("black", Json::Str(s("#111")))]);
    let b = obj(vec![("name", Json::Str(s("B"))), ("black", Json::Str(s("#222")))]);
    let mut settings = obj(vec![("schemes", Json::Array(vec![a, b]))]);
    let replaced = upsert_scheme(&mut settings, obj(vec![("name", Json::Str(s("B"))), ("black", Json::Str(s("#333")))]));
    assert!(replaced);
    match get(&settings, "schemes") {
        Some(Json::Array(items)) => {
            assert_eq!(items.len(), 2);
            assert_eq!(as_str(get(&items[0], "name")), Some("A"));
            assert_eq!(as_str(get(&items[0], "black")), Some("#111"));
            assert_eq!(as_str(get(&items[1], "black")), Some("#333"));
        }
        _ => panic!("schemes must stay an array"),
    }
}

#[test]
fn pool_pick_is_indexed_by_the_clock_and_expanded() {
    let pool = vec![s("~/a.png"), s("/abs/b.png"), s("~/bg/c.png")];
    assert_eq!(pick_from_pool_with(&pool, 0, Some("/home/ada")), Some(s("/home/ada/a.png")));
    assert_eq!(pick_from_pool_with(&pool, 4, Some("/home/ada")), Some(s("/abs/b.png")));
    assert_eq!(pick_from_pool_with(&pool, 5, Some("/home/ada")), Some(s("/home/ada/bg/c.png")));
    assert_eq!(pick_from_pool_with(&pool, 5, None), Some(s("~/bg/c.png")));
    assert_eq!(pick_from_pool_with(&vec![], 7, Some("/home/ada")), None);
}
