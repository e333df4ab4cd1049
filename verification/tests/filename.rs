use zen_free_api::filename::{name_state_file, sanitize_filename};

#[test]
fn separators_and_blanks_become_underscores() {
    assert_eq!(sanitize_filename("a/b\\c:d e"), "a_b_c_d_e");
    assert_eq!(sanitize_filename("../../etc/passwd"), ".._.._etc_passwd");
    assert_eq!(sanitize_filename(""), "");
}

#[test]
fn other_characters_are_kept() {
    assert_eq!(sanitize_filename("deepseek-v4-flash-free"), "deepseek-v4-flash-free");
    assert_eq!(sanitize_filename("mimo-v2.5-free"), "mimo-v2.5-free");
    assert_eq!(sanitize_filename("modèle\t✓"), "modèle\t✓");
}

#[test]
fn sanitizing_twice_changes_nothing() {
    let once = sanitize_filename("x/y: z");
    assert_eq!(sanitize_filename(&once), once);
}

#[test]
fn state_file_names_end_in_json() {
    assert_eq!(name_state_file("deepseek-v4-flash-free"), "deepseek-v4-flash-free.json");
    assert_eq!(name_state_file("org/model"), "org%2Fmodel.json");
    assert_eq!(name_state_file("a\\b:c d%_é"), "a%5Cb%3Ac%20d%25_é.json");
    assert_eq!(name_state_file(""), ".json");
}

#[test]
fn state_file_names_are_distinct() {
    let models = ["a/b", "a\\b", "a:b", "a b", "a_b", "a%b", "a%2Fb", "a%252Fb", "ab", "a.json"];
    for (i, first) in models.iter().enumerate() {
        for second in &models[..i] {
            assert_ne!(name_state_file(first), name_state_file(second));
        }
    }
}
