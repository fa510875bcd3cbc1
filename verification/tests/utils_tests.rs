use ncd::utils::FileNameUtils;

#[test]
fn illegal_characters_become_full_width() {
    let input = "a\"b*c/d:e<f>g?h\\i|j";
    let out = FileNameUtils::replace_illegal_filename_characters(input);
    assert_eq!(out, "a\u{FF02}b\u{FF0A}c\u{FF0F}d\u{FF1A}e\u{FF1C}f\u{FF1E}g\u{FF1F}h\u{FF3C}i\u{FFE8}j");
}

#[test]
fn whitespace_controls_become_spaces() {
    let out = FileNameUtils::replace_illegal_filename_characters("a\tb\nc\rd\u{0b}e\u{0c}f");
    assert_eq!(out, "a b c d e f");
}

#[test]
fn ordinary_characters_stay() {
    let out = FileNameUtils::replace_illegal_filename_characters("動画タイトル 2024");
    assert_eq!(out, "動画タイトル 2024");
}

#[test]
fn truncation_keeps_short_strings() {
    assert_eq!(FileNameUtils::truncate_str_by_byte_len("hello", 5), "hello");
    assert_eq!(FileNameUtils::truncate_str_by_byte_len("hello", 10), "hello");
}

#[test]
fn truncation_cuts_at_the_byte_budget() {
    assert_eq!(FileNameUtils::truncate_str_by_byte_len("hello", 3), "hel");
    assert_eq!(FileNameUtils::truncate_str_by_byte_len("hello", 0), "");
}

#[test]
fn truncation_never_splits_a_character() {
    // Each of these characters takes three bytes in UTF-8.
    assert_eq!(FileNameUtils::truncate_str_by_byte_len("あいう", 9), "あいう");
    assert_eq!(FileNameUtils::truncate_str_by_byte_len("あいう", 8), "あい");
    assert_eq!(FileNameUtils::truncate_str_by_byte_len("あいう", 7), "あい");
    assert_eq!(FileNameUtils::truncate_str_by_byte_len("あいう", 6), "あい");
    assert_eq!(FileNameUtils::truncate_str_by_byte_len("あいう", 5), "あ");
    assert_eq!(FileNameUtils::truncate_str_by_byte_len("あいう", 2), "");
}

#[test]
fn filename_truncation_keeps_the_extension() {
    // Budget 10, extension ".mp4" (4 bytes), suffix "" ⇒ 6 bytes of stem.
    assert_eq!(FileNameUtils::truncate_filename("abcdefghij.mp4", 10, ""), "abcdef.mp4");
}

#[test]
fn filename_truncation_inserts_the_suffix_before_the_extension() {
    // Budget 12, ".ts" (3) + " - 1" (4) ⇒ 5 bytes of stem.
    assert_eq!(FileNameUtils::truncate_filename("abcdefgh.ts", 12, " - 1"), "abcde - 1.ts");
}

#[test]
fn filename_truncation_without_extension() {
    assert_eq!(FileNameUtils::truncate_filename("abcdefgh", 5, ""), "abcde");
}

#[test]
fn leading_dot_names_have_no_extension() {
    assert_eq!(FileNameUtils::truncate_filename(".bashrc", 4, ""), ".bas");
}

#[test]
fn last_dot_wins_for_double_extensions() {
    assert_eq!(FileNameUtils::truncate_filename("archive.tar.gz", 9, ""), "archiv.gz");
}

#[test]
fn tight_budget_still_keeps_the_extension() {
    assert_eq!(FileNameUtils::truncate_filename("abcdef.mp4", 2, ""), ".mp4");
}
