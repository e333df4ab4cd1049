use zen_free_api::ids::{cut_draws, hex_id, leading_chars, project_of_digest, project_of_directory};

fn is_lower_hex(text: &str) -> bool {
    text.chars().all(|c| c.is_ascii_digit() || ('a'..='f').contains(&c))
}

#[test]
fn hex_id_has_the_length_asked_for() {
    for n in [0usize, 1, 24, 31, 32, 33, 64, 100] {
        let id = hex_id(n);
        assert_eq!(id.len(), n);
        assert!(is_lower_hex(&id));
    }
}

#[test]
fn hex_id_is_made_of_random_uuids() {
    let id = hex_id(64);
    for start in [0usize, 32] {
        assert_eq!(&id[start + 12..start + 13], "4");
        assert!("89ab".contains(&id[start + 16..start + 17]));
    }
}

#[test]
fn hex_ids_differ() {
    assert_ne!(hex_id(24), hex_id(24));
}

#[test]
fn leading_chars_cuts() {
    assert_eq!(leading_chars("abcdef", 3), "abc");
    assert_eq!(leading_chars("abcdef", 0), "");
    assert_eq!(leading_chars("abcdef", 6), "abcdef");
}

#[test]
fn project_is_the_head_of_the_md5_digest() {
    assert_eq!(project_of_directory("/"), "prj_6666cd76f9695646");
    assert_eq!(project_of_directory("/home/user/project"), "prj_90722f2638004be0");
    assert_eq!(
        project_of_digest("c3fcd3d76192e4007dfb496cca67e13b"),
        "prj_c3fcd3d76192e400"
    );
}

#[test]
fn draws_are_joined_and_cut() {
    let draws = vec!["0123".to_string(), "4567".to_string()];
    assert_eq!(cut_draws(&draws, 6), "012345");
    assert_eq!(cut_draws(&draws, 8), "01234567");
    assert_eq!(cut_draws(&draws, 0), "");
}
