use tempdir::name::{leaf_name, random_suffix, NUM_RAND_CHARS, SEPARATOR};

#[test]
fn names_end_in_twelve_characters_after_a_dot() {
    assert_eq!(NUM_RAND_CHARS, 12);
    assert_eq!(SEPARATOR, '.');
}

#[test]
fn leaf_name_joins_prefix_and_suffix_with_a_dot() {
    assert_eq!(leaf_name("build", "a1B2c3D4e5F6"), "build.a1B2c3D4e5F6");
    assert_eq!(leaf_name("x", "000000000000"), "x.000000000000");
}

#[test]
fn leaf_name_without_prefix_is_the_bare_suffix() {
    let name = leaf_name("", "a1B2c3D4e5F6");
    assert_eq!(name, "a1B2c3D4e5F6");
    assert!(!name.starts_with(SEPARATOR));
}

#[test]
fn leaf_name_length_is_prefix_plus_one_plus_twelve() {
    let suffix = "ZZZZZZZZZZZZ";
    assert_eq!(suffix.len(), NUM_RAND_CHARS);
    for prefix in ["a", "my_prefix", "with space", "with.dot", "-"] {
        let name = leaf_name(prefix, suffix);
        assert_eq!(name.len(), prefix.len() + 1 + 12);
        assert_eq!(name.as_bytes()[prefix.len()], b'.');
        assert!(name.starts_with(prefix));
        assert!(name.ends_with(suffix));
    }
    assert_eq!(leaf_name("", suffix).len(), 12);
}

#[test]
fn leaf_name_counts_characters_of_a_prefix_beyond_ascii() {
    let name = leaf_name("données", "abcdefghijkl");
    assert_eq!(name, "données.abcdefghijkl");
    assert_eq!(name.chars().count(), 7 + 1 + 12);
    assert_eq!(name.chars().nth(7), Some('.'));
}

#[test]
fn leaf_name_keeps_a_prefix_that_starts_with_the_separator() {
    assert_eq!(leaf_name(".hidden", "abcdefghijkl"), ".hidden.abcdefghijkl");
    assert_eq!(leaf_name(".", "abcdefghijkl"), "..abcdefghijkl");
}

#[test]
fn random_suffix_is_twelve_alphanumeric_characters() {
    let mut rng = rand::thread_rng();
    for _ in 0..200 {
        let suffix = random_suffix(&mut rng);
        assert_eq!(suffix.len(), 12);
        assert_eq!(suffix.chars().count(), NUM_RAND_CHARS);
        assert!(suffix.chars().all(|c| c.is_ascii_alphanumeric()));
    }
}

#[test]
fn random_suffix_draws_anew_each_time() {
    let mut rng = rand::thread_rng();
    let first = random_suffix(&mut rng);
    let second = random_suffix(&mut rng);
    let third = random_suffix(&mut rng);
    assert!(first != second || second != third);
}

#[test]
fn random_suffix_uses_letters_of_both_cases_and_digits() {
    let mut rng = rand::thread_rng();
    let mut drawn = String::new();
    for _ in 0..200 {
        drawn.push_str(&random_suffix(&mut rng));
    }
    assert!(drawn.chars().any(|c| c.is_ascii_uppercase()));
    assert!(drawn.chars().any(|c| c.is_ascii_lowercase()));
    assert!(drawn.chars().any(|c| c.is_ascii_digit()));
}
