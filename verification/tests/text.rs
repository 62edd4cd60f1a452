use nodle_usd::text::{
    chars_of, concat3, contains_text, decimal, digit_str, ends_with_char, has_prefix, hex8,
    join_path, same_text,
};

#[test]
fn decimal_writes_numbers_as_display_does() {
    for n in [0usize, 1, 9, 10, 11, 99, 100, 101, 1920, 1080, 65535, 1234567890, usize::MAX] {
        assert_eq!(decimal(n), n.to_string());
    }
}

#[test]
fn hex8_writes_eight_lower_case_digits() {
    assert_eq!(hex8(0), "00000000");
    assert_eq!(hex8(1), "00000001");
    assert_eq!(hex8(0x936d_a01f), "936da01f");
    assert_eq!(hex8(0xABCD_EF09), "abcdef09");
    assert_eq!(hex8(u32::MAX), "ffffffff");
}

#[test]
fn hex8_of_the_first_field_is_the_first_group_of_an_identifier() {
    let id = uuid::Uuid::parse_str("a1a2a3a4-b1b2-c1c2-d1d2-d3d4d5d6d7d8").unwrap();
    assert_eq!(hex8(id.as_fields().0), "a1a2a3a4");
    for _ in 0..32 {
        let id = uuid::Uuid::new_v4();
        let text = id.to_string();
        assert_eq!(hex8(id.as_fields().0), text.split('-').next().unwrap());
    }
}

#[test]
fn digits_are_single_characters() {
    let all: Vec<&str> = (0..16).map(digit_str).collect();
    assert_eq!(all.concat(), "0123456789abcdef");
}

#[test]
fn join_path_adds_the_separator_that_is_missing() {
    assert_eq!(join_path("/World", "ball"), "/World/ball");
    assert_eq!(join_path("/World/", "ball"), "/World/ball");
    assert_eq!(join_path("/", "ball"), "/ball");
    assert_eq!(join_path("", "ball"), "/ball");
    assert_eq!(join_path("/World", ""), "/World/");
    assert_eq!(join_path("/Wörld", "bäll"), "/Wörld/bäll");
}

#[test]
fn prefix_test_agrees_with_starts_with() {
    let texts = ["", "a", "a:", "a:b", "ab:", "stage:/x", "stage", "stäge:/x", "st"];
    for text in texts {
        for prefix in texts {
            assert_eq!(has_prefix(text, prefix), text.starts_with(prefix), "{text:?} {prefix:?}");
        }
    }
}

#[test]
fn substring_test_agrees_with_contains() {
    let texts = ["", "Light", "DistantLight", "Lightning", "Lig", "ight", "SphereLight2", "light"];
    for text in texts {
        for needle in texts {
            assert_eq!(contains_text(text, needle), text.contains(needle), "{text:?} {needle:?}");
        }
    }
}

#[test]
fn last_character_test_agrees_with_ends_with() {
    assert!(ends_with_char("/World/", '/'));
    assert!(!ends_with_char("/World", '/'));
    assert!(!ends_with_char("", '/'));
    assert!(ends_with_char("/", '/'));
    assert!(ends_with_char("né", 'é'));
}

#[test]
fn same_text_compares_whole_texts() {
    assert!(same_text("file_path", "file_path"));
    assert!(!same_text("file_path", "file_paths"));
    assert!(!same_text("file_path", "file_pat"));
    assert!(same_text("", ""));
}

#[test]
fn chars_and_concat() {
    assert_eq!(chars_of("aé/"), vec!['a', 'é', '/']);
    assert_eq!(chars_of(""), Vec::<char>::new());
    assert_eq!(concat3("Stage '", "s1", "' not found"), "Stage 's1' not found");
}
