use paintfe::text::{chars_of, contains_chars, str_eq};

#[test]
fn chars_of_keeps_every_character() {
    assert_eq!(chars_of("añb€"), vec!['a', 'ñ', 'b', '€']);
    assert_eq!(chars_of(""), Vec::<char>::new());
}

#[test]
fn str_eq_compares_characters() {
    assert!(str_eq("Glow", "Glow"));
    assert!(str_eq("", ""));
    assert!(!str_eq("Glow", "glow"));
    assert!(!str_eq("Glow", "Glo"));
    assert!(!str_eq("Glo", "Glow"));
}

#[test]
fn contains_chars_finds_runs() {
    let hay = chars_of("hello world");
    assert!(contains_chars(&hay, &chars_of("o w")));
    assert!(contains_chars(&hay, &chars_of("hello world")));
    assert!(contains_chars(&hay, &chars_of("d")));
    assert!(contains_chars(&hay, &chars_of("")));
    assert!(!contains_chars(&hay, &chars_of("worlds")));
    assert!(!contains_chars(&hay, &chars_of("hello  world")));
    assert!(!contains_chars(&chars_of(""), &chars_of("a")));
}
