use vibe_tts::names::{output_file_name, sanitize_filename, NAME_STEM_LEN};

#[test]
fn test_tts() {
    let stem = sanitize_filename("", NAME_STEM_LEN);
    assert!(!stem.is_empty());
}

#[test]
fn sanitize_keeps_plain_words() {
    assert_eq!(sanitize_filename("Hello world", 20), "Hello world");
}

#[test]
fn sanitize_collapses_and_strips() {
    assert_eq!(sanitize_filename("  a\t\n b!?c  ", 20), "a bc");
    assert_eq!(sanitize_filename("x/../y:z", 20), "xyz");
}

#[test]
fn sanitize_truncates_without_trailing_space() {
    assert_eq!(sanitize_filename("abcd efgh", 5), "abcd");
    assert_eq!(sanitize_filename("abcdefgh", 3), "abc");
    let long = "This morning, I took a walk in the park";
    let s = sanitize_filename(long, 20);
    assert_eq!(s, "This morning I took");
    assert!(s.chars().count() <= 20);
}

#[test]
fn sanitize_falls_back_on_empty_or_unsafe() {
    assert_eq!(sanitize_filename("", 20), "_");
    assert_eq!(sanitize_filename("!!! ???", 20), "_");
    assert_eq!(sanitize_filename("—…—", 20), "_");
    assert_eq!(sanitize_filename("abc", 0), "_");
}

#[test]
fn sanitize_is_idempotent() {
    let inputs = ["Hello world", "  a  b  ", "abcd efgh", "!!!", "Über café 12-3_x", ""];
    for x in inputs.iter() {
        for n in [0usize, 1, 3, 5, 20].iter() {
            let once = sanitize_filename(x, *n);
            let twice = sanitize_filename(&once, *n);
            assert_eq!(once, twice);
        }
    }
}

#[test]
fn file_names_number_repetitions_from_one() {
    assert_eq!(output_file_name("Hello world", 0), "Hello world_1.wav");
    assert_eq!(output_file_name("Hello world", 9), "Hello world_10.wav");
    assert_eq!(output_file_name("a?b", 122), "ab_123.wav");
    assert_eq!(output_file_name("", 0), "__1.wav");
}
