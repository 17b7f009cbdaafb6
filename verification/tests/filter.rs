use stylua_cli::filter::{
    default_glob, is_named_root, keep_path, matches_default_glob, survives_filter,
};

fn roots(list: &[&str]) -> Vec<String> {
    list.iter().map(|r| r.to_string()).collect()
}

#[test]
fn default_glob_is_the_lua_extension_at_any_depth() {
    assert_eq!(default_glob(), "**/*.lua");
}

#[test]
fn default_glob_matches_lua_files_at_any_depth() {
    assert!(matches_default_glob("a.lua"));
    assert!(matches_default_glob("src/a.lua"));
    assert!(matches_default_glob("./src/deep/er/a.lua"));
    assert!(matches_default_glob("/abs/a.lua"));
    assert!(matches_default_glob(".lua"));
}

#[test]
fn default_glob_rejects_other_files() {
    assert!(!matches_default_glob("b.txt"));
    assert!(!matches_default_glob("a.lua.bak"));
    assert!(!matches_default_glob("a.luau"));
    assert!(!matches_default_glob("lua"));
    assert!(!matches_default_glob("src/lua/readme"));
    assert!(!matches_default_glob("a.LUA"));
    assert!(!matches_default_glob(""));
}

#[test]
fn a_root_is_found_by_its_own_text() {
    let named = roots(&["a.lua", "b.txt"]);
    assert!(is_named_root(&named, "a.lua"));
    assert!(is_named_root(&named, "b.txt"));
    assert!(!is_named_root(&named, "c.txt"));
    assert!(!is_named_root(&roots(&[]), "a.lua"));
}

#[test]
fn roots_are_compared_as_paths() {
    let named = roots(&["src//a.txt", "lib/"]);
    assert!(is_named_root(&named, "src/a.txt"));
    assert!(is_named_root(&named, "lib"));
    assert!(!is_named_root(&named, "./src/a.txt"));
    assert!(!is_named_root(&named, "src/A.txt"));
}

#[test]
fn filter_decision_table() {
    // include patterns given: nothing is dropped here
    assert!(keep_path(false, false, false));
    assert!(keep_path(false, false, true));
    assert!(keep_path(false, true, false));
    assert!(keep_path(false, true, true));
    // default pattern in use
    assert!(!keep_path(true, false, false));
    assert!(keep_path(true, false, true));
    assert!(keep_path(true, true, false));
    assert!(keep_path(true, true, true));
}

#[test]
fn named_root_survives_without_the_extension() {
    let named = roots(&["a.lua", "b.txt"]);
    assert!(survives_filter(&named, true, "b.txt"));
    assert!(survives_filter(&named, true, "a.lua"));
}

#[test]
fn expanded_path_survives_only_with_the_extension() {
    let named = roots(&["src"]);
    assert!(survives_filter(&named, true, "src/a.lua"));
    assert!(!survives_filter(&named, true, "src/b.txt"));
    assert!(!survives_filter(&named, true, "src/a.lua.orig"));
}

#[test]
fn include_patterns_switch_the_filter_off() {
    let named = roots(&["src"]);
    assert!(survives_filter(&named, false, "src/b.txt"));
    assert!(survives_filter(&named, false, "src/a.lua"));
}

#[test]
fn default_glob_looks_at_the_end_of_the_path_only() {
    assert!(matches_default_glob("dir\n/a.lua"));
    assert!(!matches_default_glob("a.lua\n"));
    assert!(matches_default_glob("ü/é.lua"));
    assert!(!matches_default_glob("a.luä"));
    assert!(matches_default_glob("a.lua/b.lua"));
    assert!(!matches_default_glob("a.lua/"));
    assert!(matches_default_glob("**/*.lua"));
    assert!(matches_default_glob("a\\b.lua"));
    assert!(!matches_default_glob(".lu"));
    assert!(matches_default_glob("x..lua"));
}

#[test]
fn default_glob_agrees_with_the_extension_on_many_paths() {
    let alphabet = ['a', 'l', 'u', '.', '/', '*', '\n', 'é', 'A', ' '];
    let mut state: u32 = 12345;
    let mut matched = 0;
    for _ in 0..5000 {
        let mut path = String::new();
        state = state.wrapping_mul(1664525).wrapping_add(1013904223);
        let length = (state >> 24) % 9;
        for _ in 0..length {
            state = state.wrapping_mul(1664525).wrapping_add(1013904223);
            path.push(alphabet[((state >> 16) % 10) as usize]);
        }
        state = state.wrapping_mul(1664525).wrapping_add(1013904223);
        if (state >> 20) % 3 == 0 {
            path.push_str(".lua");
        }
        assert_eq!(matches_default_glob(&path), path.ends_with(".lua"), "path {:?}", path);
        if path.ends_with(".lua") {
            matched += 1;
        }
    }
    assert!(matched > 1000);
}
