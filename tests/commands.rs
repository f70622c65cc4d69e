use vibe_tts::commands::add_method;

#[test]
fn test_add_method_basic() {
    assert_eq!(add_method(5, 3), 8);
}

#[test]
fn add_method_negative() {
    assert_eq!(add_method(-7, 3), -4);
}
