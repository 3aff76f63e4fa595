//! `neon setup customize-terminal`: the Windows Terminal theme adapter.
//!
//! A YAML theme (the source of truth) becomes a Windows Terminal color
//! scheme, which is upserted by name into `settings.json`; the theme's
//! appearance settings are applied to one profile.  Running it twice gives
//! the same `settings.json` as running it once.
use vstd::prelude::*;
use vstd::string::*;

use crate::json::{
    lemma_entry_index, assignable, entry_views, get_key, get_key_exec, index_key, json_view, json_views,
    lemma_entry_views, lemma_get_set_other, lemma_get_set_same, lemma_json_views,
    lemma_set_same_value, lemma_set_set, set_key, set_key_exec, str_at, str_at_exec, take_key, Json,
    JsonV,
};
use crate::install::{str_views, Platform};
use crate::setup::profile::join_all;
use crate::text::{
    decimal, decimal_string, ends_with_spec, from_range, owned, starts_with, starts_with_spec, str_eq,
    to_chars,
};

verus! {

// ============================================================
// Theme schema
// ============================================================

/// The 16 ANSI colors plus the optional specials, as the theme file names them.
pub struct Palette {
    pub black: String,
    pub red: String,
    pub green: String,
    pub yellow: String,
    pub blue: String,
    /// ANSI color 5, written as `purple` in Windows Terminal.
    pub magenta: String,
    pub cyan: String,
    pub white: String,
    pub bright_black: String,
    pub bright_red: String,
    pub bright_green: String,
    pub bright_yellow: String,
    pub bright_blue: String,
    /// ANSI color 13, written as `brightPurple` in Windows Terminal.
    pub bright_magenta: String,
    pub bright_cyan: String,
    pub bright_white: String,
    pub cursor: Option<String>,
    pub selection_background: Option<String>,
    pub background: Option<String>,
    pub foreground: Option<String>,
}

/// A font size from the theme file: the JSON number written to
/// `settings.json`, and the text the dry run shows for it.
pub struct FontSize {
    pub number: String,
    pub shown: String,
}

/// Appearance settings applied to a Windows Terminal profile.
pub struct Appearance {
    pub font_face: Option<String>,
    pub font_size: Option<FontSize>,
    /// 0 to 100.
    pub opacity: Option<u8>,
    pub use_acrylic: Option<bool>,
    pub background_image: Option<String>,
    /// One of `bar`, `vintage`, `underscore`, `filledBox`, `emptyBox`.
    pub cursor_shape: Option<String>,
    /// Background images to pick one from on each run; `~/` stands for the
    /// home directory.  Ignored when `background_image` is set.
    pub background_image_pool: Vec<String>,
}

impl Default for Appearance {
    fn default() -> (r: Self)
        ensures
            r.font_face is None,
            r.font_size is None,
            r.opacity is None,
            r.use_acrylic is None,
            r.background_image is None,
            r.cursor_shape is None,
            r.background_image_pool@.len() == 0,
    {
        Appearance {
            font_face: None,
            font_size: None,
            opacity: None,
            use_acrylic: None,
            background_image: None,
            cursor_shape: None,
            background_image_pool: Vec::new(),
        }
    }
}

/// Root of the theme file.
pub struct Theme {
    pub name: String,
    pub palette: Palette,
    pub appearance: Appearance,
}

/// Arguments of `neon setup customize-terminal`.
pub struct CustomizeTerminalArgs {
    /// Path to the YAML theme file; when absent, the command needs a bundled
    /// default theme, and this build has none.
    pub theme_file: Option<String>,
    /// Profile to apply the appearance to: `defaults` targets
    /// `profiles.defaults`, any other name the matching `profiles.list` entry.
    pub profile: String,
    /// Print what would be done without writing files.
    pub dry_run: bool,
}

// ============================================================
// Color scheme
// ============================================================

/// A string entry of a JSON object.
pub open spec fn str_entry(k: Seq<char>, v: String) -> (Seq<char>, JsonV) {
    (k, JsonV::Str(v@))
}

/// A string entry when the value is present, else nothing.
pub open spec fn opt_entry(k: Seq<char>, v: Option<String>) -> Seq<(Seq<char>, JsonV)> {
    match v {
        Some(s) => seq![str_entry(k, s)],
        None => seq![],
    }
}

/// The entries of the Windows Terminal color scheme for a palette: the name,
/// the 16 colors under Windows Terminal's keys, then the specials present.
pub open spec fn wt_scheme_entries(name: Seq<char>, p: Palette) -> Seq<(Seq<char>, JsonV)> {
    seq![
        ("name"@, JsonV::Str(name)),
        str_entry("black"@, p.black),
        str_entry("red"@, p.red),
        str_entry("green"@, p.green),
        str_entry("yellow"@, p.yellow),
        str_entry("blue"@, p.blue),
        str_entry("purple"@, p.magenta),
        str_entry("cyan"@, p.cyan),
        str_entry("white"@, p.white),
        str_entry("brightBlack"@, p.bright_black),
        str_entry("brightRed"@, p.bright_red),
        str_entry("brightGreen"@, p.bright_green),
        str_entry("brightYellow"@, p.bright_yellow),
        str_entry("brightBlue"@, p.bright_blue),
        str_entry("brightPurple"@, p.bright_magenta),
        str_entry("brightCyan"@, p.bright_cyan),
        str_entry("brightWhite"@, p.bright_white),
    ] + opt_entry("cursorColor"@, p.cursor) + opt_entry(
        "selectionBackground"@,
        p.selection_background,
    ) + opt_entry("background"@, p.background) + opt_entry("foreground"@, p.foreground)
}

/// Appends a string entry.
fn push_entry(es: &mut Vec<(String, Json)>, k: &str, v: &String)
    ensures
        entry_views(final(es)@) == entry_views(old(es)@).push(str_entry(k@, *v)),
{
    es.push((owned(k), Json::Str(v.clone())));
    proof {
        lemma_entry_views(old(es)@);
        lemma_entry_views(final(es)@);
        assert(entry_views(final(es)@) =~= entry_views(old(es)@).push(str_entry(k@, *v)));
    }
}

/// Appends a string entry when the value is present.
fn push_opt_entry(es: &mut Vec<(String, Json)>, k: &str, v: &Option<String>)
    ensures
        entry_views(final(es)@) == entry_views(old(es)@) + opt_entry(k@, *v),
{
    match v {
        Some(s) => {
            push_entry(es, k, s);
            assert(entry_views(final(es)@) =~= entry_views(old(es)@) + opt_entry(k@, *v));
        },
        None => {
            assert(entry_views(old(es)@) =~= entry_views(old(es)@) + opt_entry(k@, *v));
        },
    }
}

/// Builds the Windows Terminal color scheme for a palette.
///
/// Windows Terminal names its keys in camelCase and calls ANSI colors 5 and
/// 13 `purple` and `brightPurple`.
pub fn build_wt_scheme(name: &str, palette: &Palette) -> (r: Json)
    ensures
        json_view(r) == JsonV::Object(wt_scheme_entries(name@, *palette)),
{
    let mut es: Vec<(String, Json)> = Vec::new();
    es.push((owned("name"), Json::Str(owned(name))));
    proof {
        lemma_entry_views(es@);
    }
    push_entry(&mut es, "black", &palette.black);
    push_entry(&mut es, "red", &palette.red);
    push_entry(&mut es, "green", &palette.green);
    push_entry(&mut es, "yellow", &palette.yellow);
    push_entry(&mut es, "blue", &palette.blue);
    push_entry(&mut es, "purple", &palette.magenta);
    push_entry(&mut es, "cyan", &palette.cyan);
    push_entry(&mut es, "white", &palette.white);
    push_entry(&mut es, "brightBlack", &palette.bright_black);
    push_entry(&mut es, "brightRed", &palette.bright_red);
    push_entry(&mut es, "brightGreen", &palette.bright_green);
    push_entry(&mut es, "brightYellow", &palette.bright_yellow);
    push_entry(&mut es, "brightBlue", &palette.bright_blue);
    push_entry(&mut es, "brightPurple", &palette.bright_magenta);
    push_entry(&mut es, "brightCyan", &palette.bright_cyan);
    push_entry(&mut es, "brightWhite", &palette.bright_white);
    let ghost colors = entry_views(es@);
    push_opt_entry(&mut es, "cursorColor", &palette.cursor);
    push_opt_entry(&mut es, "selectionBackground", &palette.selection_background);
    push_opt_entry(&mut es, "background", &palette.background);
    push_opt_entry(&mut es, "foreground", &palette.foreground);
    assert(entry_views(es@) =~= wt_scheme_entries(name@, *palette));
    Json::Object(es)
}

/// Each Windows Terminal key of the built scheme holds the palette color of
/// its ANSI slot (`purple` and `brightPurple` hold magenta and bright
/// magenta), and `name` holds the scheme's name.
pub proof fn law_scheme_colors(name: Seq<char>, p: Palette)
    ensures
        str_at(JsonV::Object(wt_scheme_entries(name, p)), "name"@) == Some(name),
        str_at(JsonV::Object(wt_scheme_entries(name, p)), "black"@) == Some(p.black@),
        str_at(JsonV::Object(wt_scheme_entries(name, p)), "red"@) == Some(p.red@),
        str_at(JsonV::Object(wt_scheme_entries(name, p)), "green"@) == Some(p.green@),
        str_at(JsonV::Object(wt_scheme_entries(name, p)), "yellow"@) == Some(p.yellow@),
        str_at(JsonV::Object(wt_scheme_entries(name, p)), "blue"@) == Some(p.blue@),
        str_at(JsonV::Object(wt_scheme_entries(name, p)), "purple"@) == Some(p.magenta@),
        str_at(JsonV::Object(wt_scheme_entries(name, p)), "cyan"@) == Some(p.cyan@),
        str_at(JsonV::Object(wt_scheme_entries(name, p)), "white"@) == Some(p.white@),
        str_at(JsonV::Object(wt_scheme_entries(name, p)), "brightBlack"@) == Some(p.bright_black@),
        str_at(JsonV::Object(wt_scheme_entries(name, p)), "brightRed"@) == Some(p.bright_red@),
        str_at(JsonV::Object(wt_scheme_entries(name, p)), "brightGreen"@) == Some(p.bright_green@),
        str_at(JsonV::Object(wt_scheme_entries(name, p)), "brightYellow"@) == Some(p.bright_yellow@),
        str_at(JsonV::Object(wt_scheme_entries(name, p)), "brightBlue"@) == Some(p.bright_blue@),
        str_at(JsonV::Object(wt_scheme_entries(name, p)), "brightPurple"@) == Some(p.bright_magenta@),
        str_at(JsonV::Object(wt_scheme_entries(name, p)), "brightCyan"@) == Some(p.bright_cyan@),
        str_at(JsonV::Object(wt_scheme_entries(name, p)), "brightWhite"@) == Some(p.bright_white@),
{
    reveal_strlit("name");
    reveal_strlit("black");
    reveal_strlit("red");
    reveal_strlit("green");
    reveal_strlit("yellow");
    reveal_strlit("blue");
    reveal_strlit("purple");
    reveal_strlit("cyan");
    reveal_strlit("white");
    reveal_strlit("brightBlack");
    reveal_strlit("brightRed");
    reveal_strlit("brightGreen");
    reveal_strlit("brightYellow");
    reveal_strlit("brightBlue");
    reveal_strlit("brightPurple");
    reveal_strlit("brightCyan");
    reveal_strlit("brightWhite");
    assert("name"@.len() == 4 && "name"@[0] == 'n');
    assert("black"@.len() == 5 && "black"@[0] == 'b');
    assert("red"@.len() == 3 && "red"@[0] == 'r');
    assert("green"@.len() == 5 && "green"@[0] == 'g');
    assert("yellow"@.len() == 6 && "yellow"@[0] == 'y');
    assert("blue"@.len() == 4 && "blue"@[0] == 'b');
    assert("purple"@.len() == 6 && "purple"@[0] == 'p');
    assert("cyan"@.len() == 4 && "cyan"@[0] == 'c');
    assert("white"@.len() == 5 && "white"@[0] == 'w');
    assert("brightBlack"@.len() == 11 && "brightBlack"@[0] == 'b');
    assert("brightBlack"@[6] == 'B');
    assert("brightRed"@.len() == 9 && "brightRed"@[0] == 'b');
    assert("brightRed"@[6] == 'R');
    assert("brightGreen"@.len() == 11 && "brightGreen"@[0] == 'b');
    assert("brightGreen"@[6] == 'G');
    assert("brightYellow"@.len() == 12 && "brightYellow"@[0] == 'b');
    assert("brightYellow"@[6] == 'Y');
    assert("brightBlue"@.len() == 10 && "brightBlue"@[0] == 'b');
    assert("brightBlue"@[6] == 'B');
    assert("brightPurple"@.len() == 12 && "brightPurple"@[0] == 'b');
    assert("brightPurple"@[6] == 'P');
    assert("brightCyan"@.len() == 10 && "brightCyan"@[0] == 'b');
    assert("brightCyan"@[6] == 'C');
    assert("brightWhite"@.len() == 11 && "brightWhite"@[0] == 'b');
    assert("brightWhite"@[6] == 'W');
    let es = wt_scheme_entries(name, p);
    let ks = seq![
        "name"@,
        "black"@,
        "red"@,
        "green"@,
        "yellow"@,
        "blue"@,
        "purple"@,
        "cyan"@,
        "white"@,
        "brightBlack"@,
        "brightRed"@,
        "brightGreen"@,
        "brightYellow"@,
        "brightBlue"@,
        "brightPurple"@,
        "brightCyan"@,
        "brightWhite"@,
    ];
    assert forall|m: int| 0 <= m < 17 implies (#[trigger] es[m]).0 == ks[m] by {
        if m == 0 {} else if m == 1 {} else if m == 2 {} else if m == 3 {} else if m == 4 {}
        else if m == 5 {} else if m == 6 {} else if m == 7 {} else if m == 8 {} else if m == 9 {}
        else if m == 10 {} else if m == 11 {} else if m == 12 {} else if m == 13 {} else if m == 14 {}
        else if m == 15 {} else {}
    }
    lemma_entry_index(es, "name"@, 0);
    assert forall|m: int| 0 <= m < 1 implies (#[trigger] es[m]).0 != "black"@ by {
        {}
    }
    lemma_entry_index(es, "black"@, 1);
    assert forall|m: int| 0 <= m < 2 implies (#[trigger] es[m]).0 != "red"@ by {
        if m == 0 {} else {}
    }
    lemma_entry_index(es, "red"@, 2);
    assert forall|m: int| 0 <= m < 3 implies (#[trigger] es[m]).0 != "green"@ by {
        if m == 0 {} else if m == 1 {} else {}
    }
    lemma_entry_index(es, "green"@, 3);
    assert forall|m: int| 0 <= m < 4 implies (#[trigger] es[m]).0 != "yellow"@ by {
        if m == 0 {} else if m == 1 {} else if m == 2 {} else {}
    }
    lemma_entry_index(es, "yellow"@, 4);
    assert forall|m: int| 0 <= m < 5 implies (#[trigger] es[m]).0 != "blue"@ by {
        if m == 0 {} else if m == 1 {} else if m == 2 {} else if m == 3 {} else {}
    }
    lemma_entry_index(es, "blue"@, 5);
    assert forall|m: int| 0 <= m < 6 implies (#[trigger] es[m]).0 != "purple"@ by {
        if m == 0 {} else if m == 1 {} else if m == 2 {} else if m == 3 {} else if m == 4 {} else {}
    }
    lemma_entry_index(es, "purple"@, 6);
    assert forall|m: int| 0 <= m < 7 implies (#[trigger] es[m]).0 != "cyan"@ by {
        if m == 0 {} else if m == 1 {} else if m == 2 {} else if m == 3 {} else if m == 4 {} else if m == 5 {} else {}
    }
    lemma_entry_index(es, "cyan"@, 7);
    assert forall|m: int| 0 <= m < 8 implies (#[trigger] es[m]).0 != "white"@ by {
        if m == 0 {} else if m == 1 {} else if m == 2 {} else if m == 3 {} else if m == 4 {} else if m == 5 {} else if m == 6 {} else {}
    }
    lemma_entry_index(es, "white"@, 8);
    assert forall|m: int| 0 <= m < 9 implies (#[trigger] es[m]).0 != "brightBlack"@ by {
        if m == 0 {} else if m == 1 {} else if m == 2 {} else if m == 3 {} else if m == 4 {} else if m == 5 {} else if m == 6 {} else if m == 7 {} else {}
    }
    lemma_entry_index(es, "brightBlack"@, 9);
    assert forall|m: int| 0 <= m < 10 implies (#[trigger] es[m]).0 != "brightRed"@ by {
        if m == 0 {} else if m == 1 {} else if m == 2 {} else if m == 3 {} else if m == 4 {} else if m == 5 {} else if m == 6 {} else if m == 7 {} else if m == 8 {} else {}
    }
    lemma_entry_index(es, "brightRed"@, 10);
    assert forall|m: int| 0 <= m < 11 implies (#[trigger] es[m]).0 != "brightGreen"@ by {
        if m == 0 {} else if m == 1 {} else if m == 2 {} else if m == 3 {} else if m == 4 {} else if m == 5 {} else if m == 6 {} else if m == 7 {} else if m == 8 {} else if m == 9 {} else {}
    }
    lemma_entry_index(es, "brightGreen"@, 11);
    assert forall|m: int| 0 <= m < 12 implies (#[trigger] es[m]).0 != "brightYellow"@ by {
        if m == 0 {} else if m == 1 {} else if m == 2 {} else if m == 3 {} else if m == 4 {} else if m == 5 {} else if m == 6 {} else if m == 7 {} else if m == 8 {} else if m == 9 {} else if m == 10 {} else {}
    }
    lemma_entry_index(es, "brightYellow"@, 12);
    assert forall|m: int| 0 <= m < 13 implies (#[trigger] es[m]).0 != "brightBlue"@ by {
        if m == 0 {} else if m == 1 {} else if m == 2 {} else if m == 3 {} else if m == 4 {} else if m == 5 {} else if m == 6 {} else if m == 7 {} else if m == 8 {} else if m == 9 {} else if m == 10 {} else if m == 11 {} else {}
    }
    lemma_entry_index(es, "brightBlue"@, 13);
    assert forall|m: int| 0 <= m < 14 implies (#[trigger] es[m]).0 != "brightPurple"@ by {
        if m == 0 {} else if m == 1 {} else if m == 2 {} else if m == 3 {} else if m == 4 {} else if m == 5 {} else if m == 6 {} else if m == 7 {} else if m == 8 {} else if m == 9 {} else if m == 10 {} else if m == 11 {} else if m == 12 {} else {}
    }
    lemma_entry_index(es, "brightPurple"@, 14);
    assert forall|m: int| 0 <= m < 15 implies (#[trigger] es[m]).0 != "brightCyan"@ by {
        if m == 0 {} else if m == 1 {} else if m == 2 {} else if m == 3 {} else if m == 4 {} else if m == 5 {} else if m == 6 {} else if m == 7 {} else if m == 8 {} else if m == 9 {} else if m == 10 {} else if m == 11 {} else if m == 12 {} else if m == 13 {} else {}
    }
    lemma_entry_index(es, "brightCyan"@, 15);
    assert forall|m: int| 0 <= m < 16 implies (#[trigger] es[m]).0 != "brightWhite"@ by {
        if m == 0 {} else if m == 1 {} else if m == 2 {} else if m == 3 {} else if m == 4 {} else if m == 5 {} else if m == 6 {} else if m == 7 {} else if m == 8 {} else if m == 9 {} else if m == 10 {} else if m == 11 {} else if m == 12 {} else if m == 13 {} else if m == 14 {} else {}
    }
    lemma_entry_index(es, "brightWhite"@, 16);
}

// ============================================================
// Scheme upsert
// ============================================================

/// `scheme["name"].as_str()`, or the empty string.
pub open spec fn scheme_name(scheme: JsonV) -> Seq<char> {
    match str_at(scheme, "name"@) {
        Some(s) => s,
        None => seq![],
    }
}

/// Index of the first value whose `name` is the string `name`, or `arr.len()`.
pub open spec fn named_index(arr: Seq<JsonV>, name: Seq<char>) -> nat
    decreases arr.len(),
{
    if arr.len() == 0 {
        0
    } else if str_at(arr[0], "name"@) == Some(name) {
        0
    } else {
        1 + named_index(arr.subrange(1, arr.len() as int), name)
    }
}

/// `settings` after upserting `scheme` into its `schemes` array, and whether
/// a scheme of the same name was replaced.  An absent or non-array `schemes`
/// becomes an array holding just the new scheme.
pub open spec fn scheme_upserted(settings: JsonV, scheme: JsonV) -> (JsonV, bool) {
    let name = scheme_name(scheme);
    match get_key(settings, "schemes"@) {
        Some(JsonV::Array(arr)) => {
            let i = named_index(arr, name);
            if i < arr.len() {
                (set_key(settings, "schemes"@, JsonV::Array(arr.update(i as int, scheme))), true)
            } else {
                (set_key(settings, "schemes"@, JsonV::Array(arr.push(scheme))), false)
            }
        },
        _ => (set_key(settings, "schemes"@, JsonV::Array(seq![scheme])), false),
    }
}

/// What `named_index` returns: no value before it has the name, and the
/// value at it has it when it is in range.
pub proof fn lemma_named_index_props(arr: Seq<JsonV>, name: Seq<char>)
    ensures
        named_index(arr, name) <= arr.len(),
        forall|m: int|
            0 <= m < named_index(arr, name) ==> str_at(#[trigger] arr[m], "name"@) != Some(name),
        named_index(arr, name) < arr.len() ==> str_at(arr[named_index(arr, name) as int], "name"@)
            == Some(name),
    decreases arr.len(),
{
    if arr.len() > 0 && str_at(arr[0], "name"@) != Some(name) {
        let t = arr.subrange(1, arr.len() as int);
        lemma_named_index_props(t, name);
        assert forall|m: int| 0 <= m < named_index(arr, name) implies str_at(
            #[trigger] arr[m],
            "name"@,
        ) != Some(name) by {
            if m > 0 {
                assert(arr[m] == t[m - 1]);
            }
        }
        if named_index(arr, name) < arr.len() {
            assert(arr[named_index(arr, name) as int] == t[named_index(t, name) as int]);
        }
    }
}

/// Upserting the same named scheme a second time leaves the settings as the
/// first upsert left them, and reports a replacement: no duplicate appears.
pub proof fn law_upsert_scheme_idempotent(settings: JsonV, scheme: JsonV)
    requires
        str_at(scheme, "name"@) is Some,
    ensures
        scheme_upserted(scheme_upserted(settings, scheme).0, scheme) == (
            scheme_upserted(settings, scheme).0,
            true,
        ),
{
    let n = scheme_name(scheme);
    let s1 = scheme_upserted(settings, scheme).0;
    let arr1 = match get_key(settings, "schemes"@) {
        Some(JsonV::Array(arr)) => {
            let i = named_index(arr, n);
            lemma_named_index_props(arr, n);
            if i < arr.len() {
                let a1 = arr.update(i as int, scheme);
                assert forall|m: int| 0 <= m < i implies str_at(#[trigger] a1[m], "name"@) != Some(
                    n,
                ) by {
                    assert(a1[m] == arr[m]);
                }
                lemma_named_index(a1, n, i as int);
                a1
            } else {
                let a1 = arr.push(scheme);
                assert forall|m: int| 0 <= m < arr.len() implies str_at(
                    #[trigger] a1[m],
                    "name"@,
                ) != Some(n) by {
                    assert(a1[m] == arr[m]);
                }
                lemma_named_index(a1, n, arr.len() as int);
                a1
            }
        },
        _ => {
            lemma_named_index(seq![scheme], n, 0);
            seq![scheme]
        },
    };
    assert(s1 == set_key(settings, "schemes"@, JsonV::Array(arr1)));
    lemma_get_set_same(settings, "schemes"@, JsonV::Array(arr1));
    let i1 = named_index(arr1, n);
    assert(arr1.update(i1 as int, scheme) =~= arr1);
    lemma_set_same_value(s1, "schemes"@, JsonV::Array(arr1));
}

/// Upserting a scheme never drops another one: every scheme of the old
/// `schemes` array named otherwise is still there, and the new scheme is
/// there too.
pub proof fn law_upsert_scheme_keeps_other_schemes(settings: JsonV, scheme: JsonV, other: JsonV)
    ensures
        get_key(scheme_upserted(settings, scheme).0, "schemes"@) matches Some(JsonV::Array(after))
            && after.contains(scheme) && ((get_key(settings, "schemes"@) matches Some(
            JsonV::Array(before),
        ) && before.contains(other) && str_at(other, "name"@) != Some(scheme_name(scheme)))
            ==> after.contains(other)),
{
    let n = scheme_name(scheme);
    match get_key(settings, "schemes"@) {
        Some(JsonV::Array(arr)) => {
            let i = named_index(arr, n);
            lemma_named_index_props(arr, n);
            let a1 = if i < arr.len() {
                arr.update(i as int, scheme)
            } else {
                arr.push(scheme)
            };
            lemma_get_set_same(settings, "schemes"@, JsonV::Array(a1));
            if i < arr.len() {
                assert(a1[i as int] == scheme);
            } else {
                assert(a1[arr.len() as int] == scheme);
            }
            if arr.contains(other) && str_at(other, "name"@) != Some(n) {
                let k = choose|k: int| 0 <= k < arr.len() && arr[k] == other;
                assert(k != i);
                assert(a1[k] == other);
            }
        },
        _ => {
            lemma_get_set_same(settings, "schemes"@, JsonV::Array(seq![scheme]));
            assert(seq![scheme][0] == scheme);
        },
    }
}

/// `named_index` finds the first value with the name.
pub proof fn lemma_named_index(arr: Seq<JsonV>, name: Seq<char>, j: int)
    requires
        0 <= j <= arr.len(),
        forall|m: int| 0 <= m < j ==> str_at(#[trigger] arr[m], "name"@) != Some(name),
        j < arr.len() ==> str_at(arr[j], "name"@) == Some(name),
    ensures
        named_index(arr, name) == j,
    decreases j,
{
    if j > 0 {
        let t = arr.subrange(1, arr.len() as int);
        assert forall|m: int| 0 <= m < j - 1 implies str_at(#[trigger] t[m], "name"@) != Some(
            name,
        ) by {
            assert(t[m] == arr[m + 1]);
        }
        if j < arr.len() {
            assert(t[j - 1] == arr[j]);
        }
        lemma_named_index(t, name, j - 1);
    }
}

/// Index of the first value whose `name` is the string `name`, or `arr.len()`.
fn find_named(arr: &Vec<Json>, name: &str) -> (i: usize)
    ensures
        i == named_index(json_views(arr@), name@),
{
    proof {
        lemma_json_views(arr@);
    }
    let mut i: usize = 0;
    while i < arr.len()
        invariant
            i <= arr.len(),
            json_views(arr@).len() == arr.len(),
            forall|m: int| 0 <= m < arr.len() ==> #[trigger] json_views(arr@)[m] == json_view(arr@[m]),
            forall|m: int|
                0 <= m < i ==> str_at(#[trigger] json_views(arr@)[m], "name"@) != Some(name@),
        decreases arr.len() - i,
    {
        let hit = match str_at_exec(&arr[i], "name") {
            Some(s) => str_eq(s.as_str(), name),
            None => false,
        };
        if hit {
            proof {
                lemma_named_index(json_views(arr@), name@, i as int);
            }
            return i;
        }
        i = i + 1;
    }
    proof {
        lemma_named_index(json_views(arr@), name@, i as int);
    }
    i
}

/// Upserts a color scheme into the `schemes` array of `settings`.
///
/// A scheme with the same `name` is replaced in place; otherwise the new
/// scheme is appended (and a missing `schemes` array is created).  Every
/// other scheme is left untouched.  Returns `true` when a scheme was
/// replaced.
pub fn upsert_scheme(settings: &mut Json, scheme: Json) -> (replaced: bool)
    requires
        assignable(json_view(*old(settings))),
    ensures
        (json_view(*final(settings)), replaced) == scheme_upserted(
            json_view(*old(settings)),
            json_view(scheme),
        ),
{
    let ghost s0 = json_view(*settings);
    let ghost sv = json_view(scheme);
    let name = match str_at_exec(&scheme, "name") {
        Some(s) => s.clone(),
        None => String::new(),
    };
    assert(name@ == scheme_name(sv));
    let taken = take_key(settings, "schemes");
    match taken {
        Some(Json::Array(mut arr)) => {
            let ghost a0 = json_views(arr@);
            let pos = find_named(&arr, name.as_str());
            proof {
                lemma_json_views(arr@);
                lemma_set_set(s0, "schemes"@, JsonV::Null, JsonV::Array(a0));
            }
            if pos < arr.len() {
                arr.set(pos, scheme);
                proof {
                    lemma_json_views(arr@);
                    assert(json_views(arr@) =~= a0.update(pos as int, sv));
                    lemma_set_set(
                        s0,
                        "schemes"@,
                        JsonV::Null,
                        JsonV::Array(a0.update(pos as int, sv)),
                    );
                }
                set_key_exec(settings, "schemes", Json::Array(arr));
                true
            } else {
                arr.push(scheme);
                proof {
                    lemma_json_views(arr@);
                    assert(json_views(arr@) =~= a0.push(sv));
                    lemma_set_set(s0, "schemes"@, JsonV::Null, JsonV::Array(a0.push(sv)));
                }
                set_key_exec(settings, "schemes", Json::Array(arr));
                false
            }
        },
        Some(other) => {
            let mut arr: Vec<Json> = Vec::new();
            arr.push(scheme);
            proof {
                lemma_json_views(arr@);
                assert(json_views(arr@) =~= seq![sv]);
                lemma_set_set(s0, "schemes"@, JsonV::Null, JsonV::Array(seq![sv]));
            }
            set_key_exec(settings, "schemes", Json::Array(arr));
            false
        },
        None => {
            let mut arr: Vec<Json> = Vec::new();
            arr.push(scheme);
            proof {
                lemma_json_views(arr@);
                assert(json_views(arr@) =~= seq![sv]);
            }
            set_key_exec(settings, "schemes", Json::Array(arr));
            false
        },
    }
}

// ============================================================
// Appearance
// ============================================================

/// The views of an optional string.
pub open spec fn opt_view(o: Option<String>) -> Option<Seq<char>> {
    match o {
        Some(s) => Some(s@),
        None => None,
    }
}

/// The appearance writes a font face or size.
pub open spec fn writes_font(a: Appearance) -> bool {
    a.font_face is Some || a.font_size is Some
}

/// Applying the appearance, with background `bg`, writes some key.
pub open spec fn writes_anything(a: Appearance, bg: Option<Seq<char>>) -> bool {
    writes_font(a) || a.opacity is Some || a.use_acrylic is Some || bg is Some
        || a.cursor_shape is Some
}

/// The appearance names a background image, directly or through its pool.
pub open spec fn has_background(a: Appearance) -> bool {
    a.background_image is Some || a.background_image_pool@.len() > 0
}

/// `p` with `font` holding an object whenever a font key is about to be
/// written (a missing or non-object `font` is reset to `{}`).
pub open spec fn font_object_ready(p: JsonV, a: Appearance) -> JsonV {
    if writes_font(a) && !(get_key(p, "font"@) matches Some(f) && f is Object) {
        set_key(p, "font"@, JsonV::Object(seq![]))
    } else {
        p
    }
}

/// `p["font"][k] = v`.
pub open spec fn set_font_key(p: JsonV, k: Seq<char>, v: JsonV) -> JsonV {
    set_key(p, "font"@, set_key(index_key(p, "font"@), k, v))
}

/// `p[k] = v` when a value is given.
pub open spec fn set_opt(p: JsonV, k: Seq<char>, v: Option<JsonV>) -> JsonV {
    match v {
        Some(x) => set_key(p, k, x),
        None => p,
    }
}

/// The profile `p` after applying appearance `a` with background image `bg`:
/// only the fields present are written, font face and size inside `font`.
pub open spec fn appearance_applied(p: JsonV, a: Appearance, bg: Option<Seq<char>>) -> JsonV {
    let p1 = font_object_ready(p, a);
    let p2 = match a.font_face {
        Some(f) => set_font_key(p1, "face"@, JsonV::Str(f@)),
        None => p1,
    };
    let p3 = match a.font_size {
        Some(sz) => set_font_key(p2, "size"@, JsonV::Number(sz.number@)),
        None => p2,
    };
    let p4 = match a.opacity {
        Some(o) => set_key(p3, "opacity"@, JsonV::Number(decimal(o as nat))),
        None => p3,
    };
    let p5 = match a.use_acrylic {
        Some(b) => set_key(p4, "useAcrylic"@, JsonV::Bool(b)),
        None => p4,
    };
    let p6 = match bg {
        Some(img) => set_key(p5, "backgroundImage"@, JsonV::Str(img)),
        None => p5,
    };
    match a.cursor_shape {
        Some(c) => set_key(p6, "cursorShape"@, JsonV::Str(c@)),
        None => p6,
    }
}

/// `e` is what expanding `path` can give: the path itself, unless it starts
/// with `~/` (then the home directory joined with the rest, when known).
pub open spec fn tilde_result(path: Seq<char>, e: Seq<char>) -> bool {
    e == path || (starts_with_spec(path, "~/"@) && exists|home: Seq<char>|
        #[trigger] home_joined(home, path.subrange(2, path.len() as int), e))
}

/// `e` is `rest` joined onto the home directory `home`: exactly as
/// `join_step` says for relative text and a home without a double-backslash
/// prefix; otherwise, for a plain component, a path ending in it.
pub open spec fn home_joined(home: Seq<char>, rest: Seq<char>, e: Seq<char>) -> bool {
    if !double_backslash_prefix(home) && relative_text(rest) {
        join_step(home, rest, e)
    } else {
        plain_component(rest) ==> ends_with_spec(e, rest)
    }
}

/// `e` is `path` expanded with the home directory `home`: the rest after a
/// leading `~/` joined onto the home when it is known, else the path as it
/// is.
pub open spec fn expanded_with(path: Seq<char>, home: Option<Seq<char>>, e: Seq<char>) -> bool {
    match home {
        Some(h) => if starts_with_spec(path, "~/"@) {
            home_joined(h, path.subrange(2, path.len() as int), e)
        } else {
            e == path
        },
        None => e == path,
    }
}

/// `bg` is a background the appearance can resolve to: the explicit image,
/// expanded; otherwise one of the pool's images, expanded; otherwise none.
pub open spec fn background_ok(a: Appearance, bg: Option<Seq<char>>) -> bool {
    match a.background_image {
        Some(x) => bg matches Some(e) && tilde_result(x@, e),
        None => if a.background_image_pool@.len() > 0 {
            bg matches Some(e) && exists|i: int|
                0 <= i < a.background_image_pool@.len() && tilde_result(
                    #[trigger] a.background_image_pool@[i]@,
                    e,
                )
        } else {
            bg is None
        },
    }
}

/// The keys written to `settings.json` differ from each other.
pub proof fn lemma_keys_distinct()
    ensures
        "size"@ != "face"@,
        "opacity"@ != "font"@,
        "useAcrylic"@ != "font"@,
        "useAcrylic"@ != "opacity"@,
        "backgroundImage"@ != "font"@,
        "backgroundImage"@ != "opacity"@,
        "backgroundImage"@ != "useAcrylic"@,
        "cursorShape"@ != "font"@,
        "cursorShape"@ != "opacity"@,
        "cursorShape"@ != "useAcrylic"@,
        "cursorShape"@ != "backgroundImage"@,
        "schemes"@ != "profiles"@,
        "defaults"@ != "list"@,
        "name"@ != "font"@,
        "name"@ != "opacity"@,
        "name"@ != "useAcrylic"@,
        "name"@ != "backgroundImage"@,
        "name"@ != "cursorShape"@,
{
    reveal_strlit("size");
    reveal_strlit("face");
    reveal_strlit("font");
    reveal_strlit("opacity");
    reveal_strlit("useAcrylic");
    reveal_strlit("backgroundImage");
    reveal_strlit("cursorShape");
    reveal_strlit("schemes");
    reveal_strlit("profiles");
    reveal_strlit("defaults");
    reveal_strlit("list");
    reveal_strlit("name");
    assert("name"@[0] != "font"@[0]);
    assert("name"@[0] != "opacity"@[0]);
    assert("name"@[0] != "useAcrylic"@[0]);
    assert("name"@[0] != "backgroundImage"@[0]);
    assert("name"@[0] != "cursorShape"@[0]);
    assert("size"@[0] != "face"@[0]);
    assert("opacity"@[0] != "font"@[0]);
    assert("useAcrylic"@[0] != "font"@[0]);
    assert("useAcrylic"@[0] != "opacity"@[0]);
    assert("backgroundImage"@[0] != "font"@[0]);
    assert("backgroundImage"@[0] != "opacity"@[0]);
    assert("backgroundImage"@[0] != "useAcrylic"@[0]);
    assert("cursorShape"@[0] != "font"@[0]);
    assert("cursorShape"@[0] != "opacity"@[0]);
    assert("cursorShape"@[0] != "useAcrylic"@[0]);
    assert("cursorShape"@[0] != "backgroundImage"@[0]);
    assert("schemes"@[0] != "profiles"@[0]);
    assert("defaults"@[0] != "list"@[0]);
}

/// Applying an appearance to a profile a second time changes nothing more:
/// every key it writes already holds the value it would write.
pub proof fn law_appearance_idempotent(p: JsonV, a: Appearance, bg: Option<Seq<char>>)
    ensures
        appearance_applied(appearance_applied(p, a, bg), a, bg) == appearance_applied(p, a, bg),
{
    let ghost face = match a.font_face {
        Some(f) => Some(JsonV::Str(f@)),
        None => None,
    };
    let ghost size = match a.font_size {
        Some(sz) => Some(JsonV::Number(sz.number@)),
        None => None,
    };
    let ghost opacity = match a.opacity {
        Some(o) => Some(JsonV::Number(decimal(o as nat))),
        None => None,
    };
    let ghost acrylic = match a.use_acrylic {
        Some(b) => Some(JsonV::Bool(b)),
        None => None,
    };
    let ghost image = match bg {
        Some(img) => Some(JsonV::Str(img)),
        None => None,
    };
    let ghost shape = match a.cursor_shape {
        Some(c) => Some(JsonV::Str(c@)),
        None => None,
    };
    lemma_keys_distinct();
    let p1 = font_object_ready(p, a);
    let f1 = index_key(p1, "font"@);
    let f2 = set_opt(f1, "face"@, face);
    let f3 = set_opt(f2, "size"@, size);
    let p3 = if writes_font(a) {
        set_key(p1, "font"@, f3)
    } else {
        p1
    };
    let p4 = set_opt(p3, "opacity"@, opacity);
    let p5 = set_opt(p4, "useAcrylic"@, acrylic);
    let p6 = set_opt(p5, "backgroundImage"@, image);
    let q = set_opt(p6, "cursorShape"@, shape);
    // the font steps, written with one assignment of `font`
    if writes_font(a) {
        if get_key(p, "font"@) matches Some(f) && f is Object {
        } else {
            lemma_get_set_same(p, "font"@, JsonV::Object(seq![]));
        }
        assert(get_key(p1, "font"@) == Some(f1));
        if face is Some {
            lemma_get_set_same(p1, "font"@, f2);
            if size is Some {
                lemma_set_set(p1, "font"@, f2, f3);
            }
        }
    }
    assert(appearance_applied(p, a, bg) == q);
    if !writes_anything(a, bg) {
        assert(q == p);
        return;
    }
    // what `q` reads under each written key
    if writes_font(a) {
        lemma_get_set_same(p1, "font"@, f3);
        assert(get_key(p3, "font"@) == Some(f3));
        assert(f1 is Object);
        if face is Some {
            lemma_get_set_same(f1, "face"@, face.unwrap());
            if size is Some {
                lemma_get_set_other(f2, "size"@, "face"@, size.unwrap());
            }
            assert(get_key(f3, "face"@) == face);
        }
        if size is Some {
            lemma_get_set_same(f2, "size"@, size.unwrap());
        }
    }
    if opacity is Some {
        lemma_get_set_same(p3, "opacity"@, opacity.unwrap());
    }
    if acrylic is Some {
        lemma_get_set_same(p4, "useAcrylic"@, acrylic.unwrap());
    }
    if image is Some {
        lemma_get_set_same(p5, "backgroundImage"@, image.unwrap());
    }
    if shape is Some {
        lemma_get_set_same(p6, "cursorShape"@, shape.unwrap());
    }
    lemma_get_set_other(p3, "opacity"@, "font"@, opacity.unwrap_or(JsonV::Null));
    lemma_get_set_other(p4, "useAcrylic"@, "font"@, acrylic.unwrap_or(JsonV::Null));
    lemma_get_set_other(p4, "useAcrylic"@, "opacity"@, acrylic.unwrap_or(JsonV::Null));
    lemma_get_set_other(p5, "backgroundImage"@, "font"@, image.unwrap_or(JsonV::Null));
    lemma_get_set_other(p5, "backgroundImage"@, "opacity"@, image.unwrap_or(JsonV::Null));
    lemma_get_set_other(p5, "backgroundImage"@, "useAcrylic"@, image.unwrap_or(JsonV::Null));
    lemma_get_set_other(p6, "cursorShape"@, "font"@, shape.unwrap_or(JsonV::Null));
    lemma_get_set_other(p6, "cursorShape"@, "opacity"@, shape.unwrap_or(JsonV::Null));
    lemma_get_set_other(p6, "cursorShape"@, "useAcrylic"@, shape.unwrap_or(JsonV::Null));
    lemma_get_set_other(p6, "cursorShape"@, "backgroundImage"@, shape.unwrap_or(JsonV::Null));
    assert(q is Object);
    // the second application: each step writes what is already there
    if writes_font(a) {
        assert(get_key(q, "font"@) == Some(f3));
        assert(font_object_ready(q, a) == q);
        if face is Some {
            lemma_set_same_value(f3, "face"@, face.unwrap());
            lemma_set_same_value(q, "font"@, f3);
        }
        if size is Some {
            lemma_set_same_value(f3, "size"@, size.unwrap());
            lemma_set_same_value(q, "font"@, f3);
        }
    }
    if opacity is Some {
        lemma_set_same_value(q, "opacity"@, opacity.unwrap());
    }
    if acrylic is Some {
        lemma_set_same_value(q, "useAcrylic"@, acrylic.unwrap());
    }
    if image is Some {
        lemma_set_same_value(q, "backgroundImage"@, image.unwrap());
    }
    if shape is Some {
        lemma_set_same_value(q, "cursorShape"@, shape.unwrap());
    }
}

/// The user's home directory (`dirs::home_dir`), as text.
///
/// Read from the environment; nothing is stated of the result.
#[verifier::external_body]
fn home_dir_text() -> (r: Option<String>) {
    dirs::home_dir().map(|h| h.to_string_lossy().into_owned())
}

/// A path component that `Path::join` appends as it is on every platform:
/// not empty, not `.` or `..`, without separators or drive colon.
pub open spec fn plain_component(c: Seq<char>) -> bool {
    &&& c.len() > 0
    &&& c != "."@
    &&& c != ".."@
    &&& forall|i: int| 0 <= i < c.len() ==> c[i] != '/' && c[i] != '\\' && c[i] != ':'
}

/// Relative text that `Path::join` appends as it is: not empty, neither
/// starting with a separator (a root) nor holding a colon (a drive or other
/// prefix).
pub open spec fn relative_text(c: Seq<char>) -> bool {
    &&& c.len() > 0
    &&& c[0] != '/'
    &&& c[0] != '\\'
    &&& forall|i: int| 0 <= i < c.len() ==> c[i] != ':'
}

/// The path starts with two backslashes, as UNC and verbatim (`\\?\`)
/// paths do; `Path::join` renormalizes a verbatim base.
pub open spec fn double_backslash_prefix(p: Seq<char>) -> bool {
    p.len() >= 2 && p[0] == '\\' && p[1] == '\\'
}

/// A base that joining plain components keeps free of a double-backslash
/// prefix: it has none, and it is not a lone backslash.
pub open spec fn join_base_ok(p: Seq<char>) -> bool {
    !double_backslash_prefix(p) && p != seq!['\\']
}

/// A plain component is relative text.
pub proof fn lemma_plain_is_relative(c: Seq<char>)
    requires
        plain_component(c),
    ensures
        relative_text(c),
{
    assert(c[0] != '/' && c[0] != '\\');
}

/// Appending a plain component to a base that is fit for joining leaves a
/// path that is fit for joining.
pub proof fn lemma_join_keeps_base_ok(base: Seq<char>, c: Seq<char>, r: Seq<char>)
    requires
        join_base_ok(base),
        plain_component(c),
        join_step(base, c, r),
    ensures
        join_base_ok(r),
{
    assert(c[0] != '\\');
    if base.len() >= 2 {
        assert(r[0] == base[0] && r[1] == base[1]);
    } else if base.len() == 1 {
        assert(base[0] != '\\') by {
            if base[0] == '\\' {
                assert(base =~= seq!['\\']);
            }
        }
        assert(r[0] == base[0]);
    } else {
        assert(r == c);
        assert(r[0] == c[0]);
    }
    assert(r.len() >= 2 || r[0] != '\\');
}

/// A two-character `X:` path with an ASCII letter `X`, which Windows reads
/// as a bare drive.
pub open spec fn drive_like(base: Seq<char>) -> bool {
    &&& base.len() == 2
    &&& base[1] == ':'
    &&& (('a' <= base[0] && base[0] <= 'z') || ('A' <= base[0] && base[0] <= 'Z'))
}

/// `r` is `base` with `c` appended as `PathBuf::push` appends relative text:
/// onto an empty base as it is; after a base ending in `/` as it is; after a
/// base ending in `\` as it is (Windows, where that is a separator) or after
/// `/` (elsewhere); after a bare drive as it is (Windows) or after `/`
/// (elsewhere); after any other base, behind the platform's separator, `/`
/// or `\`.
pub open spec fn join_step(base: Seq<char>, c: Seq<char>, r: Seq<char>) -> bool {
    if base.len() == 0 {
        r == c
    } else if base[base.len() - 1] == '/' {
        r == base + c
    } else if base[base.len() - 1] == '\\' || drive_like(base) {
        r == base + c || r == base + seq!['/'] + c
    } else {
        r == base + seq!['/'] + c || r == base + seq!['\\'] + c
    }
}

/// `r` is `base` with the components appended in turn.
pub open spec fn joined_by(base: Seq<char>, parts: Seq<Seq<char>>, r: Seq<char>) -> bool
    decreases parts.len(),
{
    if parts.len() == 0 {
        r == base
    } else {
        exists|mid: Seq<char>| joined_by(base, parts.drop_last(), mid) && #[trigger] join_step(
            mid,
            parts.last(),
            r,
        )
    }
}

/// `Path::join` of UTF-8 text, as text.
///
/// Relative text (no root, no prefix) is appended to a base that does not
/// start with two backslashes as `PathBuf::push` documents it: behind the
/// platform's separator (`/`, or `\` on Windows) unless the base is empty,
/// already ends in a separator or is a bare drive (see `join_step`); a plain
/// component always ends the result, also after a verbatim base is
/// renormalized.  Nothing more is stated: an absolute or prefixed `rest`
/// replaces `base`, a rooted one keeps only its prefix, and a verbatim base
/// is rebuilt from its components.
#[verifier::external_body]
pub(crate) fn join_path(base: &str, rest: &str) -> (r: String)
    ensures
        !double_backslash_prefix(base@) && relative_text(rest@) ==> join_step(base@, rest@, r@),
        plain_component(rest@) ==> ends_with_spec(r@, rest@),
{
    std::path::Path::new(base).join(rest).to_string_lossy().into_owned()
}

/// A reading of the system clock.
#[verifier::external_type_specification]
#[verifier::external_body]
pub struct ExSystemTime(std::time::SystemTime);

/// `SystemTime::now`: the current system time; nothing is stated of it.
#[verifier::external_body]
fn system_now() -> (r: std::time::SystemTime) {
    std::time::SystemTime::now()
}

/// `SystemTime::duration_since(UNIX_EPOCH)`: the time since the Unix epoch,
/// or `None` when the clock reads before it; nothing more is stated.
#[verifier::external_body]
fn since_epoch(t: &std::time::SystemTime) -> (r: Option<std::time::Duration>) {
    t.duration_since(std::time::UNIX_EPOCH).ok()
}

/// `Duration::subsec_nanos`: the fractional part of a duration in
/// nanoseconds, which std documents to be below one billion.
#[verifier::external_body]
fn subsec_nanos(d: &std::time::Duration) -> (r: u32)
    ensures
        r < 1_000_000_000,
{
    d.subsec_nanos()
}

/// The sub-second nanoseconds of the current system time since the Unix
/// epoch (zero when the clock reads before it).
fn subsec_nanos_now() -> (r: u32)
    ensures
        r < 1_000_000_000,
{
    match since_epoch(&system_now()) {
        Some(d) => subsec_nanos(&d),
        None => 0,
    }
}

/// Expands a leading `~/` with the given home directory: the rest of the
/// path is joined onto it.
pub fn expand_tilde_with(path: &str, home: Option<&str>) -> (r: String)
    ensures
        expanded_with(
            path@,
            match home {
                Some(h) => Some(h@),
                None => None,
            },
            r@,
        ),
{
    if starts_with(path, "~/") {
        match home {
            Some(h) => {
                proof {
                    reveal_strlit("~/");
                }
                let v = to_chars(path);
                let rest = from_range(&v, 2, v.len());
                join_path(h, rest.as_str())
            },
            None => owned(path),
        }
    } else {
        owned(path)
    }
}

/// Expands a leading `~/` to the user's home directory.
pub fn expand_tilde(path: &str) -> (r: String)
    ensures
        tilde_result(path@, r@),
{
    let home = home_dir_text();
    match home {
        Some(h) => expand_tilde_with(path, Some(h.as_str())),
        None => expand_tilde_with(path, None),
    }
}

/// Index into a pool of `len` items from a clock reading.
pub fn pool_index(nanos: u32, len: usize) -> (r: usize)
    requires
        len > 0,
    ensures
        r == nanos as nat % len as nat,
        r < len,
{
    (nanos as usize) % len
}

/// Picks the path of `pool` at the clock reading `nanos` modulo the pool's
/// size and expands it with `home`; `None` for an empty pool.
pub fn pick_from_pool_with(pool: &Vec<String>, nanos: u32, home: Option<&str>) -> (r: Option<
    String,
>)
    ensures
        r is None <==> pool@.len() == 0,
        r matches Some(e) ==> expanded_with(
            pool@[(nanos as nat % pool@.len()) as int]@,
            match home {
                Some(h) => Some(h@),
                None => None,
            },
            e@,
        ),
{
    if pool.len() == 0 {
        return None;
    }
    let idx = pool_index(nanos, pool.len());
    Some(expand_tilde_with(pool[idx].as_str(), home))
}

/// Picks one path from `pool`, using the clock's sub-second nanoseconds as a
/// cheap random index, and expands it; `None` for an empty pool.
pub fn pick_from_pool(pool: &Vec<String>) -> (r: Option<String>)
    ensures
        r is None <==> pool@.len() == 0,
        r matches Some(e) ==> exists|i: int|
            0 <= i < pool@.len() && tilde_result(#[trigger] pool@[i]@, e@),
{
    let nanos = subsec_nanos_now();
    let home = home_dir_text();
    let r = match &home {
        Some(h) => pick_from_pool_with(pool, nanos, Some(h.as_str())),
        None => pick_from_pool_with(pool, nanos, None),
    };
    proof {
        if pool@.len() > 0 {
            let i = (nanos as nat % pool@.len()) as int;
            let path = pool@[i]@;
            if starts_with_spec(path, "~/"@) && home is Some {
                assert(home_joined(home.unwrap()@, path.subrange(2, path.len() as int), r.unwrap()@));
            }
            assert(tilde_result(pool@[i]@, r.unwrap()@));
        }
    }
    r
}

/// The background image to write: the explicit image, expanded; otherwise a
/// pick from the pool; otherwise none.
pub fn effective_background(a: &Appearance) -> (r: Option<String>)
    ensures
        background_ok(*a, opt_view(r)),
        r is Some <==> has_background(*a),
{
    match &a.background_image {
        Some(img) => Some(expand_tilde(img.as_str())),
        None => pick_from_pool(&a.background_image_pool),
    }
}

/// `p["font"][k] = v`, where `p["font"]` is an object.
fn set_font_key_exec(p: &mut Json, k: &str, v: Json)
    requires
        get_key(json_view(*old(p)), "font"@) matches Some(f) && f is Object,
    ensures
        json_view(*final(p)) == set_font_key(json_view(*old(p)), k@, json_view(v)),
{
    let ghost p0 = json_view(*p);
    let taken = take_key(p, "font");
    match taken {
        Some(mut font) => {
            let ghost f0 = json_view(font);
            set_key_exec(&mut font, k, v);
            proof {
                lemma_set_set(p0, "font"@, JsonV::Null, json_view(font));
            }
            set_key_exec(p, "font", font);
        },
        None => {
            assert(false);
        },
    }
}

/// Applies appearance `a`, with background image `bg`, to a profile object.
///
/// Only the fields present are written; the others keep what the profile
/// has.  Font face and size go inside a `font` object, which replaces a
/// missing or non-object `font`.
pub fn apply_appearance_with(profile: &mut Json, a: &Appearance, bg: &Option<String>)
    requires
        writes_anything(*a, opt_view(*bg)) ==> assignable(json_view(*old(profile))),
    ensures
        json_view(*final(profile)) == appearance_applied(
            json_view(*old(profile)),
            *a,
            opt_view(*bg),
        ),
{
    let ghost p0 = json_view(*profile);
    if a.font_face.is_some() || a.font_size.is_some() {
        let is_object = match get_key_exec(profile, "font") {
            Some(f) => match f {
                Json::Object(_) => true,
                _ => false,
            },
            None => false,
        };
        if !is_object {
            set_key_exec(profile, "font", Json::Object(Vec::new()));
            proof {
                lemma_get_set_same(p0, "font"@, JsonV::Object(seq![]));
                assert(json_views(Seq::<Json>::empty()) =~= Seq::<JsonV>::empty());
                assert(entry_views(Seq::<(String, Json)>::empty()) =~= Seq::<
                    (Seq<char>, JsonV),
                >::empty());
            }
        }
    }
    assert(json_view(*profile) == font_object_ready(p0, *a));
    let ghost p1 = json_view(*profile);
    if let Some(f) = &a.font_face {
        set_font_key_exec(profile, "face", Json::Str(f.clone()));
        proof {
            lemma_get_set_same(p1, "font"@, set_key(index_key(p1, "font"@), "face"@, JsonV::Str(f@)));
        }
    }
    let ghost p2 = json_view(*profile);
    if let Some(sz) = &a.font_size {
        set_font_key_exec(profile, "size", Json::Number(sz.number.clone()));
    }
    if let Some(o) = a.opacity {
        set_key_exec(profile, "opacity", Json::Number(decimal_string(o as usize)));
    }
    if let Some(b) = a.use_acrylic {
        set_key_exec(profile, "useAcrylic", Json::Bool(b));
    }
    if let Some(img) = bg {
        set_key_exec(profile, "backgroundImage", Json::Str(img.clone()));
    }
    if let Some(c) = &a.cursor_shape {
        set_key_exec(profile, "cursorShape", Json::Str(c.clone()));
    }
}

/// Applies appearance `a` to a profile object, resolving the background
/// image from the explicit path or a random pick from the pool.
pub fn apply_appearance(profile: &mut Json, a: &Appearance)
    requires
        writes_font(*a) || a.opacity is Some || a.use_acrylic is Some || has_background(*a)
            || a.cursor_shape is Some ==> assignable(json_view(*old(profile))),
    ensures
        exists|bg: Option<Seq<char>>|
            background_ok(*a, bg) && json_view(*final(profile)) == appearance_applied(
                json_view(*old(profile)),
                *a,
                bg,
            ),
{
    let bg = effective_background(a);
    apply_appearance_with(profile, a, &bg);
}

// ============================================================
// Appearance target in settings.json
// ============================================================

/// Where `apply_appearance_to_settings` wrote the appearance.
#[derive(Debug, Clone, Copy, PartialEq, Eq, Structural)]
pub enum AppearanceTarget {
    /// The target profile was updated.
    Applied,
    /// `profiles.list` has no entry with the requested name.
    ProfileNotFound,
    /// `profiles.list` is missing or not an array.
    NoProfileList,
}

/// `settings` with `profiles` and `profiles.defaults` created as empty
/// objects where missing.
pub open spec fn defaults_prepared(s: JsonV) -> JsonV {
    let s1 = if get_key(s, "profiles"@) is None {
        set_key(s, "profiles"@, JsonV::Object(seq![]))
    } else {
        s
    };
    let profs = index_key(s1, "profiles"@);
    if get_key(profs, "defaults"@) is None {
        set_key(s1, "profiles"@, set_key(profs, "defaults"@, JsonV::Object(seq![])))
    } else {
        s1
    }
}

/// `profiles.defaults` of a settings value.
pub open spec fn defaults_of(s: JsonV) -> JsonV {
    index_key(index_key(s, "profiles"@), "defaults"@)
}

/// The keyed assignments on the way to `profiles.defaults` succeed: a
/// missing `profiles` is created in an object (or null), a missing
/// `defaults` in an object (or null), and the defaults profile takes the
/// appearance when anything is written.
pub open spec fn defaults_target_ok(s: JsonV, a: Appearance, bg: Option<Seq<char>>) -> bool {
    &&& get_key(s, "profiles"@) is None ==> assignable(s)
    &&& get_key(s, "profiles"@) matches Some(profs) ==> (get_key(profs, "defaults"@) is None
        ==> assignable(profs))
    &&& writes_anything(a, bg) ==> assignable(defaults_of(defaults_prepared(s)))
}

/// `profiles.list` when it is an array.
pub open spec fn profile_list(s: JsonV) -> Option<Seq<JsonV>> {
    match get_key(s, "profiles"@) {
        Some(profs) => match get_key(profs, "list"@) {
            Some(JsonV::Array(l)) => Some(l),
            _ => None,
        },
        None => None,
    }
}

/// `settings` after applying the appearance to the target profile, and
/// where it went: `profiles.defaults` for the name `defaults` (created when
/// missing), otherwise the first `profiles.list` entry with that name.
pub open spec fn settings_with_appearance(
    s: JsonV,
    name: Seq<char>,
    a: Appearance,
    bg: Option<Seq<char>>,
) -> (JsonV, AppearanceTarget) {
    if name == "defaults"@ {
        let s2 = defaults_prepared(s);
        let profs = index_key(s2, "profiles"@);
        (
            set_key(
                s2,
                "profiles"@,
                set_key(profs, "defaults"@, appearance_applied(defaults_of(s2), a, bg)),
            ),
            AppearanceTarget::Applied,
        )
    } else {
        match profile_list(s) {
            Some(list) => {
                let i = named_index(list, name);
                if i < list.len() {
                    let profs = index_key(s, "profiles"@);
                    (
                        set_key(
                            s,
                            "profiles"@,
                            set_key(
                                profs,
                                "list"@,
                                JsonV::Array(
                                    list.update(i as int, appearance_applied(list[i as int], a, bg)),
                                ),
                            ),
                        ),
                        AppearanceTarget::Applied,
                    )
                } else {
                    (s, AppearanceTarget::ProfileNotFound)
                }
            },
            None => (s, AppearanceTarget::NoProfileList),
        }
    }
}

/// Applies the appearance to `profiles.defaults`, creating it when missing.
fn apply_to_defaults(settings: &mut Json, a: &Appearance, bg: &Option<String>)
    requires
        defaults_target_ok(json_view(*old(settings)), *a, opt_view(*bg)),
    ensures
        json_view(*final(settings)) == settings_with_appearance(
            json_view(*old(settings)),
            "defaults"@,
            *a,
            opt_view(*bg),
        ).0,
{
    let ghost s0 = json_view(*settings);
    proof {
        assert(entry_views(Seq::<(String, Json)>::empty()) =~= Seq::<(Seq<char>, JsonV)>::empty());
    }
    if get_key_exec(settings, "profiles").is_none() {
        set_key_exec(settings, "profiles", Json::Object(Vec::new()));
    }
    let ghost s1 = json_view(*settings);
    proof {
        if get_key(s0, "profiles"@) is None {
            lemma_get_set_same(s0, "profiles"@, JsonV::Object(seq![]));
        }
    }
    let taken = take_key(settings, "profiles");
    match taken {
        Some(mut profs) => {
            let ghost pr1 = json_view(profs);
            if get_key_exec(&profs, "defaults").is_none() {
                set_key_exec(&mut profs, "defaults", Json::Object(Vec::new()));
            }
            let ghost pr2 = json_view(profs);
            let ghost s2 = defaults_prepared(s0);
            proof {
                if get_key(pr1, "defaults"@) is None {
                    lemma_get_set_same(pr1, "defaults"@, JsonV::Object(seq![]));
                    lemma_get_set_same(s1, "profiles"@, pr2);
                }
                assert(index_key(s2, "profiles"@) == pr2);
            }
            let taken_d = take_key(&mut profs, "defaults");
            match taken_d {
                Some(mut d) => {
                    apply_appearance_with(&mut d, a, bg);
                    proof {
                        lemma_set_set(pr2, "defaults"@, JsonV::Null, json_view(d));
                    }
                    set_key_exec(&mut profs, "defaults", d);
                },
                None => {
                    assert(false);
                },
            }
            proof {
                lemma_set_set(s1, "profiles"@, JsonV::Null, json_view(profs));
                if get_key(pr1, "defaults"@) is None {
                    lemma_set_set(s1, "profiles"@, pr2, json_view(profs));
                }
            }
            set_key_exec(settings, "profiles", profs);
        },
        None => {
            assert(false);
        },
    }
}

/// Applies the appearance to the first `profiles.list` entry named `name`.
fn apply_to_listed(settings: &mut Json, name: &str, a: &Appearance, bg: &Option<String>) -> (r:
    AppearanceTarget)
    requires
        name@ != "defaults"@,
    ensures
        (json_view(*final(settings)), r) == settings_with_appearance(
            json_view(*old(settings)),
            name@,
            *a,
            opt_view(*bg),
        ),
{
    let ghost s0 = json_view(*settings);
    let taken = take_key(settings, "profiles");
    match taken {
        Some(mut profs) => {
            let ghost pr0 = json_view(profs);
            let taken_l = take_key(&mut profs, "list");
            let r = match taken_l {
                Some(Json::Array(mut list)) => {
                    let ghost l0 = json_views(list@);
                    let i = find_named(&list, name);
                    proof {
                        lemma_json_views(list@);
                        lemma_named_index_props(l0, name@);
                    }
                    if i < list.len() {
                        let mut entry = list.remove(i);
                        let ghost e0 = json_view(entry);
                        assert(e0 == l0[i as int]);
                        apply_appearance_with(&mut entry, a, bg);
                        list.insert(i, entry);
                        proof {
                            lemma_json_views(list@);
                            assert(json_views(list@) =~= l0.update(
                                i as int,
                                appearance_applied(l0[i as int], *a, opt_view(*bg)),
                            ));
                            lemma_set_set(pr0, "list"@, JsonV::Null, JsonV::Array(json_views(list@)));
                        }
                        set_key_exec(&mut profs, "list", Json::Array(list));
                        AppearanceTarget::Applied
                    } else {
                        proof {
                            lemma_set_set(pr0, "list"@, JsonV::Null, JsonV::Array(l0));
                            lemma_set_same_value(pr0, "list"@, JsonV::Array(l0));
                        }
                        set_key_exec(&mut profs, "list", Json::Array(list));
                        AppearanceTarget::ProfileNotFound
                    }
                },
                Some(other) => {
                    proof {
                        lemma_set_set(pr0, "list"@, JsonV::Null, json_view(other));
                        lemma_set_same_value(pr0, "list"@, json_view(other));
                    }
                    set_key_exec(&mut profs, "list", other);
                    AppearanceTarget::NoProfileList
                },
                None => AppearanceTarget::NoProfileList,
            };
            proof {
                lemma_set_set(s0, "profiles"@, JsonV::Null, json_view(profs));
                if r != AppearanceTarget::Applied {
                    lemma_set_same_value(s0, "profiles"@, pr0);
                }
            }
            set_key_exec(settings, "profiles", profs);
            r
        },
        None => AppearanceTarget::NoProfileList,
    }
}

/// Applies appearance settings, with background image `bg`, to the target
/// profile: `profiles.defaults` (created when missing) for the name
/// `defaults`, otherwise the first `profiles.list` entry with that name.  A
/// missing list or entry leaves `settings` unchanged and is reported.
pub fn apply_appearance_to_settings_with(
    settings: &mut Json,
    profile_name: &str,
    a: &Appearance,
    bg: &Option<String>,
) -> (r: AppearanceTarget)
    requires
        profile_name@ == "defaults"@ ==> defaults_target_ok(
            json_view(*old(settings)),
            *a,
            opt_view(*bg),
        ),
    ensures
        (json_view(*final(settings)), r) == settings_with_appearance(
            json_view(*old(settings)),
            profile_name@,
            *a,
            opt_view(*bg),
        ),
{
    if str_eq(profile_name, "defaults") {
        apply_to_defaults(settings, a, bg);
        AppearanceTarget::Applied
    } else {
        apply_to_listed(settings, profile_name, a, bg)
    }
}

/// Applying an appearance leaves every key it does not write as it was.
pub proof fn lemma_applied_keeps_other(p: JsonV, a: Appearance, bg: Option<Seq<char>>, k: Seq<char>)
    requires
        k != "font"@,
        k != "opacity"@,
        k != "useAcrylic"@,
        k != "backgroundImage"@,
        k != "cursorShape"@,
    ensures
        get_key(appearance_applied(p, a, bg), k) == get_key(p, k),
{
    let p1 = font_object_ready(p, a);
    if writes_font(a) && !(get_key(p, "font"@) matches Some(f) && f is Object) {
        lemma_get_set_other(p, "font"@, k, JsonV::Object(seq![]));
    }
    let p2 = match a.font_face {
        Some(f) => set_font_key(p1, "face"@, JsonV::Str(f@)),
        None => p1,
    };
    if let Some(f) = a.font_face {
        lemma_get_set_other(
            p1,
            "font"@,
            k,
            set_key(index_key(p1, "font"@), "face"@, JsonV::Str(f@)),
        );
    }
    let p3 = match a.font_size {
        Some(sz) => set_font_key(p2, "size"@, JsonV::Number(sz.number@)),
        None => p2,
    };
    if let Some(sz) = a.font_size {
        lemma_get_set_other(
            p2,
            "font"@,
            k,
            set_key(index_key(p2, "font"@), "size"@, JsonV::Number(sz.number@)),
        );
    }
    let p4 = match a.opacity {
        Some(o) => set_key(p3, "opacity"@, JsonV::Number(decimal(o as nat))),
        None => p3,
    };
    if let Some(o) = a.opacity {
        lemma_get_set_other(p3, "opacity"@, k, JsonV::Number(decimal(o as nat)));
    }
    let p5 = match a.use_acrylic {
        Some(b) => set_key(p4, "useAcrylic"@, JsonV::Bool(b)),
        None => p4,
    };
    if let Some(b) = a.use_acrylic {
        lemma_get_set_other(p4, "useAcrylic"@, k, JsonV::Bool(b));
    }
    let p6 = match bg {
        Some(img) => set_key(p5, "backgroundImage"@, JsonV::Str(img)),
        None => p5,
    };
    if let Some(img) = bg {
        lemma_get_set_other(p5, "backgroundImage"@, k, JsonV::Str(img));
    }
    if let Some(c) = a.cursor_shape {
        lemma_get_set_other(p6, "cursorShape"@, k, JsonV::Str(c@));
    }
}

/// Applying the appearance to the target profile of `settings` a second time
/// changes nothing more, wherever the first application went.
pub proof fn law_settings_appearance_idempotent(
    s: JsonV,
    name: Seq<char>,
    a: Appearance,
    bg: Option<Seq<char>>,
)
    ensures
        settings_with_appearance(settings_with_appearance(s, name, a, bg).0, name, a, bg) == (
            settings_with_appearance(s, name, a, bg).0,
            settings_with_appearance(s, name, a, bg).1,
        ),
{
    lemma_keys_distinct();
    let y = settings_with_appearance(s, name, a, bg).0;
    if name == "defaults"@ {
        let x2 = defaults_prepared(s);
        let pr = index_key(x2, "profiles"@);
        let d = defaults_of(x2);
        let d1 = appearance_applied(d, a, bg);
        let pr1 = set_key(pr, "defaults"@, d1);
        assert(y == set_key(x2, "profiles"@, pr1));
        lemma_get_set_same(x2, "profiles"@, pr1);
        lemma_get_set_same(pr, "defaults"@, d1);
        assert(defaults_prepared(y) == y);
        assert(index_key(y, "profiles"@) == pr1);
        assert(defaults_of(y) == d1);
        law_appearance_idempotent(d, a, bg);
        lemma_set_same_value(pr1, "defaults"@, d1);
        lemma_set_same_value(y, "profiles"@, pr1);
    } else {
        match profile_list(s) {
            Some(list) => {
                let i = named_index(list, name);
                lemma_named_index_props(list, name);
                if i < list.len() {
                    let pr = index_key(s, "profiles"@);
                    let e = list[i as int];
                    let e1 = appearance_applied(e, a, bg);
                    let l1 = list.update(i as int, e1);
                    let pr1 = set_key(pr, "list"@, JsonV::Array(l1));
                    assert(y == set_key(s, "profiles"@, pr1));
                    lemma_get_set_same(s, "profiles"@, pr1);
                    lemma_get_set_same(pr, "list"@, JsonV::Array(l1));
                    assert(profile_list(y) == Some(l1));
                    lemma_applied_keeps_other(e, a, bg, "name"@);
                    assert(str_at(e1, "name"@) == str_at(e, "name"@));
                    assert forall|m: int| 0 <= m < i implies str_at(
                        #[trigger] l1[m],
                        "name"@,
                    ) != Some(name) by {
                        assert(l1[m] == list[m]);
                    }
                    lemma_named_index(l1, name, i as int);
                    law_appearance_idempotent(e, a, bg);
                    assert(l1.update(i as int, appearance_applied(l1[i as int], a, bg)) =~= l1);
                    lemma_set_same_value(pr1, "list"@, JsonV::Array(l1));
                    lemma_set_same_value(y, "profiles"@, pr1);
                }
            },
            None => {},
        }
    }
}

/// Whether the `schemes` array of `settings` holds a scheme named `name`.
pub open spec fn scheme_present(settings: JsonV, name: Seq<char>) -> bool {
    match get_key(settings, "schemes"@) {
        Some(JsonV::Array(arr)) => named_index(arr, name) < arr.len(),
        _ => false,
    }
}

/// Whether upserting a scheme named `name` would replace one.
pub fn scheme_exists(settings: &Json, name: &str) -> (r: bool)
    ensures
        r == scheme_present(json_view(*settings), name@),
{
    match get_key_exec(settings, "schemes") {
        Some(v) => match v {
            Json::Array(arr) => {
                proof {
                    lemma_json_views(arr@);
                }
                find_named(arr, name) < arr.len()
            },
            _ => false,
        },
        None => false,
    }
}

/// The current target profile, shown by the dry run for context.
pub open spec fn target_profile(s: JsonV, name: Seq<char>) -> Option<JsonV> {
    if name == "defaults"@ {
        match get_key(s, "profiles"@) {
            Some(profs) => get_key(profs, "defaults"@),
            None => None,
        }
    } else {
        match profile_list(s) {
            Some(list) => {
                let i = named_index(list, name);
                if i < list.len() {
                    Some(list[i as int])
                } else {
                    None
                }
            },
            None => None,
        }
    }
}

/// The current target profile of `settings`, if it exists.
pub fn current_profile<'a>(settings: &'a Json, profile_name: &str) -> (r: Option<&'a Json>)
    ensures
        match r {
            Some(p) => target_profile(json_view(*settings), profile_name@) == Some(json_view(*p)),
            None => target_profile(json_view(*settings), profile_name@) is None,
        },
{
    let profs = match get_key_exec(settings, "profiles") {
        Some(p) => p,
        None => {
            return None;
        },
    };
    if str_eq(profile_name, "defaults") {
        return get_key_exec(profs, "defaults");
    }
    match get_key_exec(profs, "list") {
        Some(l) => match l {
            Json::Array(list) => {
                let i = find_named(list, profile_name);
                proof {
                    lemma_json_views(list@);
                }
                if i < list.len() {
                    Some(&list[i])
                } else {
                    None
                }
            },
            _ => None,
        },
        None => None,
    }
}

/// Applies appearance settings to the target profile, resolving the
/// background image from the explicit path or a random pick from the pool.
pub fn apply_appearance_to_settings(settings: &mut Json, profile_name: &str, a: &Appearance) -> (r:
    AppearanceTarget)
    requires
        profile_name@ == "defaults"@ ==> defaults_target_ok(
            json_view(*old(settings)),
            *a,
            background_marker(*a),
        ),
    ensures
        exists|bg: Option<Seq<char>>|
            background_ok(*a, bg) && (json_view(*final(settings)), r) == settings_with_appearance(
                json_view(*old(settings)),
                profile_name@,
                *a,
                bg,
            ),
{
    let bg = effective_background(a);
    apply_appearance_to_settings_with(settings, profile_name, a, &bg)
}

/// Present exactly when the appearance names a background image; stands for
/// the image in conditions that only ask whether one is written.
pub open spec fn background_marker(a: Appearance) -> Option<Seq<char>> {
    if has_background(a) {
        Some(seq![])
    } else {
        None
    }
}

// ============================================================
// The whole customization
// ============================================================

/// `settings` after the color scheme of `theme` is upserted and its
/// appearance applied to `profile`, whether a scheme was replaced, and where
/// the appearance went.
pub open spec fn customized(s: JsonV, theme: Theme, profile: Seq<char>, bg: Option<Seq<char>>) -> (
    JsonV,
    bool,
    AppearanceTarget,
) {
    let up = scheme_upserted(s, JsonV::Object(wt_scheme_entries(theme.name@, theme.palette)));
    let ap = settings_with_appearance(up.0, profile, theme.appearance, bg);
    (ap.0, up.1, ap.1)
}

/// The customization can run without a failed keyed assignment.
pub open spec fn customize_ok(s: JsonV, theme: Theme, profile: Seq<char>, bg: Option<Seq<char>>) -> bool {
    &&& assignable(s)
    &&& profile == "defaults"@ ==> defaults_target_ok(
        scheme_upserted(s, JsonV::Object(wt_scheme_entries(theme.name@, theme.palette))).0,
        theme.appearance,
        bg,
    )
}

/// Upserts the theme's color scheme and applies its appearance, with
/// background image `bg`, to the target profile.
pub fn customize_settings_with(
    settings: &mut Json,
    theme: &Theme,
    profile: &str,
    bg: &Option<String>,
) -> (r: (bool, AppearanceTarget))
    requires
        customize_ok(json_view(*old(settings)), *theme, profile@, opt_view(*bg)),
    ensures
        (json_view(*final(settings)), r.0, r.1) == customized(
            json_view(*old(settings)),
            *theme,
            profile@,
            opt_view(*bg),
        ),
{
    let scheme = build_wt_scheme(theme.name.as_str(), &theme.palette);
    let replaced = upsert_scheme(settings, scheme);
    let target = apply_appearance_to_settings_with(settings, profile, &theme.appearance, bg);
    (replaced, target)
}

/// Running the customization a second time with the same theme, profile and
/// background leaves `settings.json` as the first run left it.
pub proof fn law_customize_idempotent(
    s: JsonV,
    theme: Theme,
    profile: Seq<char>,
    bg: Option<Seq<char>>,
)
    ensures
        customized(customized(s, theme, profile, bg).0, theme, profile, bg).0 == customized(
            s,
            theme,
            profile,
            bg,
        ).0,
{
    lemma_keys_distinct();
    let sc = JsonV::Object(wt_scheme_entries(theme.name@, theme.palette));
    let es = wt_scheme_entries(theme.name@, theme.palette);
    crate::json::lemma_entry_index(es, "name"@, 0);
    assert(str_at(sc, "name"@) == Some(theme.name@));
    let s1 = scheme_upserted(s, sc).0;
    let y = settings_with_appearance(s1, profile, theme.appearance, bg).0;
    law_upsert_scheme_idempotent(s, sc);
    // the appearance step only touches `profiles`
    assert(get_key(y, "schemes"@) == get_key(s1, "schemes"@)) by {
        let x2 = defaults_prepared(s1);
        if profile == "defaults"@ {
            if get_key(s1, "profiles"@) is None {
                lemma_get_set_other(s1, "profiles"@, "schemes"@, JsonV::Object(seq![]));
            }
            let x1 = if get_key(s1, "profiles"@) is None {
                set_key(s1, "profiles"@, JsonV::Object(seq![]))
            } else {
                s1
            };
            let prs = index_key(x1, "profiles"@);
            if get_key(prs, "defaults"@) is None {
                lemma_get_set_other(
                    x1,
                    "profiles"@,
                    "schemes"@,
                    set_key(prs, "defaults"@, JsonV::Object(seq![])),
                );
            }
            lemma_get_set_other(
                x2,
                "profiles"@,
                "schemes"@,
                set_key(
                    index_key(x2, "profiles"@),
                    "defaults"@,
                    appearance_applied(defaults_of(x2), theme.appearance, bg),
                ),
            );
        } else {
            match profile_list(s1) {
                Some(list) => {
                    let i = named_index(list, profile);
                    if i < list.len() {
                        lemma_get_set_other(
                            s1,
                            "profiles"@,
                            "schemes"@,
                            set_key(
                                index_key(s1, "profiles"@),
                                "list"@,
                                JsonV::Array(
                                    list.update(
                                        i as int,
                                        appearance_applied(list[i as int], theme.appearance, bg),
                                    ),
                                ),
                            ),
                        );
                    }
                },
                None => {},
            }
        }
    }
    // so the second upsert finds the scheme in place
    match get_key(s1, "schemes"@) {
        Some(JsonV::Array(arr1)) => {
            let i = named_index(arr1, theme.name@);
            lemma_named_index_props(arr1, theme.name@);
            assert(scheme_upserted(s1, sc) == (s1, true));
            assert(i < arr1.len());
            assert(arr1.update(i as int, sc) =~= arr1) by {
                lemma_set_same_value(s1, "schemes"@, JsonV::Array(arr1));
                lemma_get_set_same(s1, "schemes"@, JsonV::Array(arr1.update(i as int, sc)));
            }
        },
        _ => {
            lemma_get_set_same(s, "schemes"@, JsonV::Array(seq![sc]));
        },
    }
    assert(y is Object) by {
        lemma_get_set_same(s, "schemes"@, JsonV::Array(seq![sc]));
    }
    if let Some(JsonV::Array(arr1)) = get_key(s1, "schemes"@) {
        let i = named_index(arr1, theme.name@);
        lemma_set_same_value(y, "schemes"@, JsonV::Array(arr1));
        assert(scheme_upserted(y, sc).0 == y);
    }
    law_settings_appearance_idempotent(s1, profile, theme.appearance, bg);
}

/// An object or null: a value that takes keyed assignment.
fn is_assignable(j: &Json) -> (r: bool)
    ensures
        r == assignable(json_view(*j)),
{
    match j {
        Json::Object(_) => true,
        Json::Null => true,
        _ => false,
    }
}

/// Whether the customization can run on `settings` without a keyed
/// assignment into a value that is neither an object nor null (where the
/// command itself would panic): the settings themselves, and on the way to
/// `profiles.defaults` when that is the target.
pub fn customize_ready(settings: &Json, theme: &Theme, profile: &str) -> (r: bool)
    ensures
        r == customize_ok(json_view(*settings), *theme, profile@, background_marker(theme.appearance)),
{
    let ghost s = json_view(*settings);
    let ghost sc = JsonV::Object(wt_scheme_entries(theme.name@, theme.palette));
    let ghost a = theme.appearance;
    let ghost bg = background_marker(a);
    if !is_assignable(settings) {
        return false;
    }
    if !str_eq(profile, "defaults") {
        return true;
    }
    let ghost s1 = scheme_upserted(s, sc).0;
    proof {
        reveal_strlit("schemes");
        reveal_strlit("profiles");
        assert("schemes"@ != "profiles"@) by {
            assert("schemes"@[1] != "profiles"@[1]);
        }
        assert(exists|x: JsonV| s1 == set_key(s, "schemes"@, x));
        let x = choose|x: JsonV| s1 == set_key(s, "schemes"@, x);
        lemma_get_set_other(s, "schemes"@, "profiles"@, x);
        assert(get_key(s1, "profiles"@) == get_key(s, "profiles"@));
        assert(s1 is Object);
    }
    let writes = theme.appearance.font_face.is_some() || theme.appearance.font_size.is_some()
        || theme.appearance.opacity.is_some() || theme.appearance.use_acrylic.is_some()
        || theme.appearance.background_image.is_some()
        || theme.appearance.background_image_pool.len() > 0
        || theme.appearance.cursor_shape.is_some();
    assert(writes == writes_anything(a, bg));
    match get_key_exec(settings, "profiles") {
        None => {
            proof {
                let e = JsonV::Object(seq![]);
                let p1 = set_key(s1, "profiles"@, e);
                lemma_get_set_same(s1, "profiles"@, e);
                assert(index_key(p1, "profiles"@) == e);
                assert(get_key(e, "defaults"@) is None);
                let p2 = set_key(p1, "profiles"@, set_key(e, "defaults"@, e));
                lemma_get_set_same(p1, "profiles"@, set_key(e, "defaults"@, e));
                lemma_get_set_same(e, "defaults"@, e);
                assert(defaults_of(defaults_prepared(s1)) == e);
            }
            true
        },
        Some(profs) => {
            let ghost pv = json_view(*profs);
            match get_key_exec(profs, "defaults") {
                None => {
                    let ok = is_assignable(profs);
                    proof {
                        let e = JsonV::Object(seq![]);
                        let p2 = set_key(s1, "profiles"@, set_key(pv, "defaults"@, e));
                        lemma_get_set_same(s1, "profiles"@, set_key(pv, "defaults"@, e));
                        lemma_get_set_same(pv, "defaults"@, e);
                        assert(defaults_of(defaults_prepared(s1)) == e);
                    }
                    ok
                },
                Some(d) => {
                    let ok = !writes || is_assignable(d);
                    proof {
                        assert(defaults_prepared(s1) == s1);
                        assert(defaults_of(defaults_prepared(s1)) == json_view(*d));
                    }
                    ok
                },
            }
        },
    }
}

/// Upserts the theme's color scheme and applies its appearance to the
/// target profile, resolving the background image as
/// `effective_background` does.
pub fn customize_settings(settings: &mut Json, theme: &Theme, profile: &str) -> (r: (
    bool,
    AppearanceTarget,
))
    requires
        customize_ok(json_view(*old(settings)), *theme, profile@, background_marker(theme.appearance)),
    ensures
        exists|bg: Option<Seq<char>>|
            background_ok(theme.appearance, bg) && (json_view(*final(settings)), r.0, r.1)
                == customized(json_view(*old(settings)), *theme, profile@, bg),
{
    let bg = effective_background(&theme.appearance);
    customize_settings_with(settings, theme, profile, &bg)
}

// ============================================================
// Dry-run summary
// ============================================================

/// One summary line: a label, a value, a newline.
pub open spec fn dr(label: Seq<char>, value: Seq<char>) -> Seq<char> {
    label + value + seq!['\n']
}

/// A summary line when the value is present, else nothing.
pub open spec fn dr_opt(label: Seq<char>, v: Option<String>) -> Seq<char> {
    match v {
        Some(x) => dr(label, x@),
        None => seq![],
    }
}

/// The color-scheme part of the dry-run summary.
pub open spec fn scheme_summary(name: Seq<char>, p: Palette, replaced: bool) -> Seq<char> {
    dr(
        "[dry-run] color scheme: would "@ + (if replaced {
            "replace"@
        } else {
            "add"@
        }) + " \""@,
        name + "\""@,
    ) + dr("[dry-run]   black:          "@, p.black@) + dr("[dry-run]   red:            "@, p.red@)
        + dr("[dry-run]   green:          "@, p.green@) + dr(
        "[dry-run]   yellow:         "@,
        p.yellow@,
    ) + dr("[dry-run]   blue:           "@, p.blue@) + dr(
        "[dry-run]   magenta/purple: "@,
        p.magenta@,
    ) + dr("[dry-run]   cyan:           "@, p.cyan@) + dr("[dry-run]   white:          "@, p.white@)
        + dr("[dry-run]   bright_black:   "@, p.bright_black@) + dr(
        "[dry-run]   bright_red:     "@,
        p.bright_red@,
    ) + dr("[dry-run]   bright_green:   "@, p.bright_green@) + dr(
        "[dry-run]   bright_yellow:  "@,
        p.bright_yellow@,
    ) + dr("[dry-run]   bright_blue:    "@, p.bright_blue@) + dr(
        "[dry-run]   bright_magenta: "@,
        p.bright_magenta@,
    ) + dr("[dry-run]   bright_cyan:    "@, p.bright_cyan@) + dr(
        "[dry-run]   bright_white:   "@,
        p.bright_white@,
    ) + dr_opt("[dry-run]   cursor:         "@, p.cursor) + dr_opt(
        "[dry-run]   selection_bg:   "@,
        p.selection_background,
    ) + dr_opt("[dry-run]   background:     "@, p.background) + dr_opt(
        "[dry-run]   foreground:     "@,
        p.foreground,
    )
}

/// The appearance names something to apply.
pub open spec fn has_appearance(a: Appearance) -> bool {
    writes_font(a) || a.opacity is Some || a.use_acrylic is Some || has_background(a)
        || a.cursor_shape is Some
}

/// How a boolean prints.
pub open spec fn bool_text(b: bool) -> Seq<char> {
    if b {
        "true"@
    } else {
        "false"@
    }
}

/// The background line of the dry-run summary: the explicit image, or the
/// pool pick with the pool's size.
pub open spec fn background_line(a: Appearance, bg: Option<Seq<char>>) -> Seq<char> {
    match bg {
        Some(e) => if a.background_image is Some {
            dr("[dry-run]   backgroundImage: "@, e)
        } else {
            dr(
                "[dry-run]   backgroundImage: "@,
                e + "  (pool pick from "@ + decimal(a.background_image_pool@.len()) + " images)"@,
            )
        },
        None => seq![],
    }
}

/// The font-size line of the dry-run summary.
pub open spec fn size_part(a: Appearance) -> Seq<char> {
    match a.font_size {
        Some(sz) => dr("[dry-run]   font.size:       "@, sz.shown@),
        None => seq![],
    }
}

/// The opacity line of the dry-run summary.
pub open spec fn opacity_part(a: Appearance) -> Seq<char> {
    match a.opacity {
        Some(o) => dr("[dry-run]   opacity:         "@, decimal(o as nat)),
        None => seq![],
    }
}

/// The acrylic line of the dry-run summary.
pub open spec fn acrylic_part(a: Appearance) -> Seq<char> {
    match a.use_acrylic {
        Some(b) => dr("[dry-run]   useAcrylic:      "@, bool_text(b)),
        None => seq![],
    }
}

/// The appearance part of the dry-run summary (nothing when the theme has
/// no appearance settings).
pub open spec fn appearance_summary(a: Appearance, profile: Seq<char>, bg: Option<Seq<char>>) -> Seq<
    char,
> {
    if has_appearance(a) {
        dr("[dry-run] appearance: would apply to profile \""@, profile + "\""@) + dr_opt(
            "[dry-run]   font.face:       "@,
            a.font_face,
        ) + size_part(a) + opacity_part(a) + acrylic_part(a) + background_line(a, bg) + dr_opt(
            "[dry-run]   cursorShape:     "@,
            a.cursor_shape,
        )
    } else {
        seq![]
    }
}

/// Appends `label`, `value` and a newline.
fn push_line(s: &mut String, label: &str, value: &str)
    ensures
        final(s)@ == old(s)@ + dr(label@, value@),
{
    s.append(label);
    s.append(value);
    s.append("\n");
    proof {
        reveal_strlit("\n");
    }
    assert(final(s)@ =~= old(s)@ + dr(label@, value@));
}

/// Appends a line when the value is present.
fn push_opt_line(s: &mut String, label: &str, value: &Option<String>)
    ensures
        final(s)@ == old(s)@ + dr_opt(label@, *value),
{
    match value {
        Some(v) => push_line(s, label, v.as_str()),
        None => {
            assert(old(s)@ + dr_opt(label@, *value) =~= old(s)@);
        },
    }
}

/// The color-scheme part of the dry-run summary.
fn scheme_summary_text(name: &str, p: &Palette, replaced: bool) -> (r: String)
    ensures
        r@ == scheme_summary(name@, *p, replaced),
{
    let mut head = String::from_str("[dry-run] color scheme: would ");
    head.append(if replaced {
        "replace"
    } else {
        "add"
    });
    head.append(" \"");
    let mut quoted = String::from_str(name);
    quoted.append("\"");
    let mut s = String::new();
    push_line(&mut s, head.as_str(), quoted.as_str());
    assert(s@ =~= dr(head@, quoted@));
    push_line(&mut s, "[dry-run]   black:          ", p.black.as_str());
    push_line(&mut s, "[dry-run]   red:            ", p.red.as_str());
    push_line(&mut s, "[dry-run]   green:          ", p.green.as_str());
    push_line(&mut s, "[dry-run]   yellow:         ", p.yellow.as_str());
    push_line(&mut s, "[dry-run]   blue:           ", p.blue.as_str());
    push_line(&mut s, "[dry-run]   magenta/purple: ", p.magenta.as_str());
    push_line(&mut s, "[dry-run]   cyan:           ", p.cyan.as_str());
    push_line(&mut s, "[dry-run]   white:          ", p.white.as_str());
    push_line(&mut s, "[dry-run]   bright_black:   ", p.bright_black.as_str());
    push_line(&mut s, "[dry-run]   bright_red:     ", p.bright_red.as_str());
    push_line(&mut s, "[dry-run]   bright_green:   ", p.bright_green.as_str());
    push_line(&mut s, "[dry-run]   bright_yellow:  ", p.bright_yellow.as_str());
    push_line(&mut s, "[dry-run]   bright_blue:    ", p.bright_blue.as_str());
    push_line(&mut s, "[dry-run]   bright_magenta: ", p.bright_magenta.as_str());
    push_line(&mut s, "[dry-run]   bright_cyan:    ", p.bright_cyan.as_str());
    push_line(&mut s, "[dry-run]   bright_white:   ", p.bright_white.as_str());
    push_opt_line(&mut s, "[dry-run]   cursor:         ", &p.cursor);
    push_opt_line(&mut s, "[dry-run]   selection_bg:   ", &p.selection_background);
    push_opt_line(&mut s, "[dry-run]   background:     ", &p.background);
    push_opt_line(&mut s, "[dry-run]   foreground:     ", &p.foreground);
    proof {
        reveal_strlit("[dry-run] color scheme: would ");
        reveal_strlit(" \"");
        reveal_strlit("\"");
        assert(head@ =~= "[dry-run] color scheme: would "@ + (if replaced {
            "replace"@
        } else {
            "add"@
        }) + " \""@);
    }
    s
}

/// Appends the font-size line.
fn push_size_part(s: &mut String, a: &Appearance)
    ensures
        final(s)@ == old(s)@ + size_part(*a),
{
    if let Some(sz) = &a.font_size {
        push_line(s, "[dry-run]   font.size:       ", sz.shown.as_str());
    } else {
        assert(old(s)@ + size_part(*a) =~= old(s)@);
    }
}

/// Appends the opacity line.
fn push_opacity_part(s: &mut String, a: &Appearance)
    ensures
        final(s)@ == old(s)@ + opacity_part(*a),
{
    if let Some(o) = a.opacity {
        let t = decimal_string(o as usize);
        push_line(s, "[dry-run]   opacity:         ", t.as_str());
    } else {
        assert(old(s)@ + opacity_part(*a) =~= old(s)@);
    }
}

/// Appends the acrylic line.
fn push_acrylic_part(s: &mut String, a: &Appearance)
    ensures
        final(s)@ == old(s)@ + acrylic_part(*a),
{
    if let Some(b) = a.use_acrylic {
        push_line(s, "[dry-run]   useAcrylic:      ", if b {
            "true"
        } else {
            "false"
        });
    } else {
        assert(old(s)@ + acrylic_part(*a) =~= old(s)@);
    }
}

/// Appends the background line.
fn push_background_line(s: &mut String, a: &Appearance, bg: &Option<String>)
    ensures
        final(s)@ == old(s)@ + background_line(*a, opt_view(*bg)),
{
    if let Some(e) = bg {
        if a.background_image.is_some() {
            push_line(s, "[dry-run]   backgroundImage: ", e.as_str());
        } else {
            let mut v = e.clone();
            v.append("  (pool pick from ");
            let n = decimal_string(a.background_image_pool.len());
            v.append(n.as_str());
            v.append(" images)");
            push_line(s, "[dry-run]   backgroundImage: ", v.as_str());
        }
    } else {
        assert(old(s)@ + background_line(*a, opt_view(*bg)) =~= old(s)@);
    }
}

/// The appearance part of the dry-run summary.
fn appearance_summary_text(a: &Appearance, profile: &str, bg: &Option<String>) -> (r: String)
    ensures
        r@ == appearance_summary(*a, profile@, opt_view(*bg)),
{
    let shown = a.font_face.is_some() || a.font_size.is_some() || a.opacity.is_some()
        || a.use_acrylic.is_some() || a.background_image.is_some()
        || a.background_image_pool.len() > 0 || a.cursor_shape.is_some();
    let mut s = String::new();
    if !shown {
        return s;
    }
    let mut quoted = String::from_str(profile);
    quoted.append("\"");
    push_line(&mut s, "[dry-run] appearance: would apply to profile \"", quoted.as_str());
    assert(s@ =~= dr("[dry-run] appearance: would apply to profile \""@, quoted@));
    proof {
        reveal_strlit("\"");
        assert(quoted@ =~= profile@ + "\""@);
    }
    push_opt_line(&mut s, "[dry-run]   font.face:       ", &a.font_face);
    push_size_part(&mut s, a);
    push_opacity_part(&mut s, a);
    push_acrylic_part(&mut s, a);
    push_background_line(&mut s, a, bg);
    push_opt_line(&mut s, "[dry-run]   cursorShape:     ", &a.cursor_shape);
    s
}

/// The dry-run summary of the customization: the scheme that would be added
/// or replaced with its colors, then the appearance that would be applied
/// (with background image `bg`) to `profile`.
pub fn dry_run_summary_with(theme: &Theme, profile: &str, scheme_replaced: bool, bg: &Option<String>) -> (r: String)
    ensures
        r@ == scheme_summary(theme.name@, theme.palette, scheme_replaced) + appearance_summary(
            theme.appearance,
            profile@,
            opt_view(*bg),
        ),
{
    let mut s = scheme_summary_text(theme.name.as_str(), &theme.palette, scheme_replaced);
    let t = appearance_summary_text(&theme.appearance, profile, bg);
    s.append(t.as_str());
    s
}

/// The dry-run summary for `settings`: whether the scheme would be replaced
/// comes from its `schemes` array, the background image from the theme (a
/// pool pick is made afresh).
pub fn dry_run_summary(theme: &Theme, settings: &Json, profile: &str) -> (r: String)
    ensures
        exists|bg: Option<Seq<char>>|
            background_ok(theme.appearance, bg) && r@ == scheme_summary(
                theme.name@,
                theme.palette,
                scheme_present(json_view(*settings), theme.name@),
            ) + appearance_summary(theme.appearance, profile@, bg),
{
    let replaced = scheme_exists(settings, theme.name.as_str());
    let bg = effective_background(&theme.appearance);
    dry_run_summary_with(theme, profile, replaced, &bg)
}

// ============================================================
// Command decisions and messages
// ============================================================

/// Why `neon setup customize-terminal` stops.
#[derive(Debug, Clone, Copy, PartialEq, Eq, Structural)]
pub enum ThemeError {
    /// The command only runs on Windows.
    NotWindows,
    /// `settings.json` holds an unterminated comment or a stray `/`, or
    /// blanking its comments left invalid UTF-8.
    CommentStrip,
}

impl ThemeError {
    /// The message printed for this error.
    pub fn message(&self) -> (r: String)
        ensures
            r@ == theme_error_message(*self),
    {
        match self {
            ThemeError::NotWindows => String::from_str(
                "customize-terminal is only supported on Windows",
            ),
            ThemeError::CommentStrip => String::from_str(
                "failed to strip comments from settings.json",
            ),
        }
    }
}

/// The message of each error.
pub open spec fn theme_error_message(e: ThemeError) -> Seq<char> {
    match e {
        ThemeError::NotWindows => "customize-terminal is only supported on Windows"@,
        ThemeError::CommentStrip => "failed to strip comments from settings.json"@,
    }
}

/// The command runs on Windows only.
pub fn check_platform(platform: Platform) -> (r: Result<(), ThemeError>)
    ensures
        r is Ok <==> platform == Platform::Windows,
        r matches Err(e) ==> e == ThemeError::NotWindows,
{
    match platform {
        Platform::Windows => Ok(()),
        _ => Err(ThemeError::NotWindows),
    }
}

/// What `json_comments::StripComments` yields when read to a string: the
/// text with `//`, `/* */` and `#` comments blanked out, or nothing when it
/// reports invalid data (an unterminated comment, a `/` that starts none) or
/// the blanked bytes are not UTF-8.
pub uninterp spec fn comments_stripped(text: Seq<char>) -> Option<Seq<char>>;

/// Reads `json_comments::StripComments` over the text to a string.
///
/// The result is named by `comments_stripped`, a function of the text alone.
#[verifier::external_body]
fn strip_comments_call(text: &str) -> (r: Option<String>)
    ensures
        match r {
            Some(out) => comments_stripped(text@) == Some(out@),
            None => comments_stripped(text@) is None,
        },
{
    let mut out = String::new();
    let mut reader = json_comments::StripComments::new(text.as_bytes());
    match std::io::Read::read_to_string(&mut reader, &mut out) {
        Ok(_) => Some(out),
        Err(_) => None,
    }
}

/// Blanks out the comments of a `settings.json` text (Windows Terminal
/// writes JSON with comments) so that it parses as JSON.
pub fn strip_settings_comments(text: &str) -> (r: Result<String, ThemeError>)
    ensures
        match r {
            Ok(out) => comments_stripped(text@) == Some(out@),
            Err(e) => comments_stripped(text@) is None && e == ThemeError::CommentStrip,
        },
{
    match strip_comments_call(text) {
        Some(out) => Ok(out),
        None => Err(ThemeError::CommentStrip),
    }
}

/// The first confirmation line after a write.
pub open spec fn applied_message_spec(name: Seq<char>, replaced: bool) -> Seq<char> {
    "\u{2713} Color scheme \""@ + name + "\" "@ + (if replaced {
        "updated"@
    } else {
        "added"@
    }) + " in settings.json"@
}

/// `✓ Color scheme "<name>" updated|added in settings.json`.
pub fn applied_message(name: &str, replaced: bool) -> (r: String)
    ensures
        r@ == applied_message_spec(name@, replaced),
{
    let mut s = String::from_str("\u{2713} Color scheme \"");
    s.append(name);
    s.append("\" ");
    s.append(if replaced {
        "updated"
    } else {
        "added"
    });
    s.append(" in settings.json");
    s
}

/// The warning printed when the appearance found no target profile.
pub open spec fn target_warning_spec(target: AppearanceTarget, profile: Seq<char>) -> Option<Seq<char>> {
    match target {
        AppearanceTarget::Applied => None,
        AppearanceTarget::ProfileNotFound => Some(
            "warning: profile '"@ + profile + "' not found in profiles.list \u{2014} appearance not applied"@,
        ),
        AppearanceTarget::NoProfileList => Some(
            "warning: profiles.list not found or not an array \u{2014} cannot apply appearance to profile '"@
                + profile + "'"@,
        ),
    }
}

/// The warning for a missing target profile, if any.
pub fn target_warning(target: AppearanceTarget, profile: &str) -> (r: Option<String>)
    ensures
        opt_view(r) == target_warning_spec(target, profile@),
{
    match target {
        AppearanceTarget::Applied => None,
        AppearanceTarget::ProfileNotFound => {
            let mut s = String::from_str("warning: profile '");
            s.append(profile);
            s.append("' not found in profiles.list \u{2014} appearance not applied");
            Some(s)
        },
        AppearanceTarget::NoProfileList => {
            let mut s = String::from_str(
                "warning: profiles.list not found or not an array \u{2014} cannot apply appearance to profile '",
            );
            s.append(profile);
            s.append("'");
            Some(s)
        },
    }
}

// ============================================================
// settings.json location
// ============================================================

/// The local application-data directory (`dirs::data_local_dir`), as text.
///
/// Read from the environment; nothing is stated of the result.
#[verifier::external_body]
fn data_local_dir_text() -> (r: Option<String>) {
    dirs::data_local_dir().map(|d| d.to_string_lossy().into_owned())
}

/// Where Windows Terminal keeps `settings.json` under the local
/// application-data directory.
pub open spec fn wt_settings_components() -> Seq<Seq<char>> {
    seq!["Packages"@, "Microsoft.WindowsTerminal_8wekyb3d8bbwe"@, "LocalState"@, "settings.json"@]
}

/// The path of Windows Terminal's `settings.json`: `wt_settings_path_in` of
/// the local application-data directory; `None` when that directory cannot
/// be determined.
pub fn wt_settings_path() -> (r: Option<String>)
    ensures
        r matches Some(p) ==> ends_with_spec(p@, "settings.json"@),
{
    match data_local_dir_text() {
        Some(dir) => Some(wt_settings_path_in(dir.as_str())),
        None => None,
    }
}

/// The path of Windows Terminal's `settings.json` under a local
/// application-data directory: the package's `LocalState/settings.json`.
pub fn wt_settings_path_in(dir: &str) -> (r: String)
    ensures
        join_base_ok(dir@) ==> joined_by(dir@, wt_settings_components(), r@),
        ends_with_spec(r@, "settings.json"@),
{
    let mut parts: Vec<&'static str> = Vec::new();
    parts.push("Packages");
    parts.push("Microsoft.WindowsTerminal_8wekyb3d8bbwe");
    parts.push("LocalState");
    parts.push("settings.json");
    proof {
        reveal_strlit("Packages");
        reveal_strlit("Microsoft.WindowsTerminal_8wekyb3d8bbwe");
        reveal_strlit("LocalState");
        reveal_strlit("settings.json");
        reveal_strlit(".");
        reveal_strlit("..");
        assert("."@.len() == 1 && ".."@.len() == 2 && "Packages"@.len() == 8);
        assert("Microsoft.WindowsTerminal_8wekyb3d8bbwe"@.len() == 39);
        assert("LocalState"@.len() == 10 && "settings.json"@.len() == 13);
        assert(str_views(parts@) =~= wt_settings_components());
    }
    join_all(dir, &parts)
}

} // verus!
