use xtask::stamp::{escape, fingerprint, stamp, STAMP_CLOSING, STAMP_OPENING};

#[test]
fn stamp_of_a_plain_fingerprint() {
    assert_eq!(
        stamp("abc123"),
        "pub static WPILIB_COMMIT_HASH: &str = \"abc123\";\n"
    );
}

#[test]
fn stamp_holds_nothing_but_the_declaration() {
    let text = stamp("abc123");
    assert_eq!(text.lines().count(), 1);
    assert!(text.ends_with('\n'));
    assert_eq!(text.len(), STAMP_OPENING.len() + "abc123".len() + STAMP_CLOSING.len());
}

#[test]
fn stamp_of_an_empty_fingerprint() {
    assert_eq!(stamp(""), "pub static WPILIB_COMMIT_HASH: &str = \"\";\n");
}

#[test]
fn stamp_escapes_quotes_in_the_fingerprint() {
    assert_eq!(
        stamp("ab\"cd"),
        "pub static WPILIB_COMMIT_HASH: &str = \"ab\\\"cd\";\n"
    );
}

#[test]
fn stamp_of_a_full_length_hash() {
    let hash = "3b18e512dba79e4c8300dd08aeb37f8e728b8dad";
    assert_eq!(
        stamp(hash),
        format!("pub static WPILIB_COMMIT_HASH: &str = \"{hash}\";\n")
    );
}

#[test]
fn escape_of_nothing_is_nothing() {
    assert_eq!(escape(""), "");
}

#[test]
fn escape_puts_a_backslash_before_a_quote() {
    assert_eq!(escape("a\"b"), "a\\\"b");
    assert_eq!(escape("\""), "\\\"");
    assert_eq!(escape("\"\""), "\\\"\\\"");
}

#[test]
fn escape_leaves_other_characters_alone() {
    assert_eq!(escape("abc123"), "abc123");
    assert_eq!(escape("a\\b"), "a\\b");
    assert_eq!(escape("a'b\nc\td"), "a'b\nc\td");
    assert_eq!(escape("héllo ✓"), "héllo ✓");
}

#[test]
fn fingerprint_of_an_empty_listing() {
    assert_eq!(fingerprint(""), "");
}

#[test]
fn fingerprint_of_a_single_entry() {
    assert_eq!(fingerprint("100644 abc123 0\tREADME.md"), "abc123");
    assert_eq!(fingerprint("100644 abc123 0\tREADME.md\n"), "abc123");
}

#[test]
fn fingerprint_keeps_one_hash_per_line() {
    let listing = "100644 aaa111 0\ta.txt\n100755 bbb222 0\tbin/b.sh\n100644 ccc333 0\tc\n";
    assert_eq!(fingerprint(listing), "aaa111\nbbb222\nccc333");
}

#[test]
fn fingerprint_is_not_the_release_name() {
    let listing = "100644 0123456789abcdef 0\tv2022.4.1";
    assert_eq!(fingerprint(listing), "0123456789abcdef");
}

#[test]
fn fingerprint_keeps_a_line_without_a_space_whole() {
    assert_eq!(fingerprint("abc123"), "abc123");
    assert_eq!(fingerprint("one\ntwo three\nfour"), "one\nthree\nfour");
}

#[test]
fn fingerprint_ends_the_field_at_the_second_space() {
    assert_eq!(fingerprint("a b"), "b");
    assert_eq!(fingerprint("a b c d"), "b");
    assert_eq!(fingerprint("a "), "");
    assert_eq!(fingerprint(" x y"), "x");
    assert_eq!(fingerprint("a  b"), "");
}

#[test]
fn fingerprint_splits_on_spaces_only() {
    assert_eq!(fingerprint("a\tb c\td e"), "c\td");
}

#[test]
fn fingerprint_drops_every_line_break_at_the_end() {
    assert_eq!(fingerprint("100644 abc123 0\tf\n\n\n"), "abc123");
    assert_eq!(fingerprint("\n\n"), "");
    assert_eq!(fingerprint("\n"), "");
}

#[test]
fn fingerprint_keeps_line_breaks_in_the_middle() {
    assert_eq!(fingerprint("m h1 0\tf\n\nm h2 0\tg"), "h1\n\nh2");
    assert_eq!(fingerprint("\nm h2 0\tg"), "\nh2");
}

#[test]
fn fingerprint_reads_paths_outside_ascii() {
    assert_eq!(fingerprint("100644 abc 0\tdocs/übersicht.md\n100644 def 0\t写.txt"), "abc\ndef");
}

#[test]
fn fingerprint_of_a_long_listing() {
    let mut listing = String::new();
    let mut expected = String::new();
    for index in 0..20_000 {
        listing.push_str(&format!("100644 {index:040x} 0\tsrc/file{index}.h\n"));
        if index > 0 {
            expected.push('\n');
        }
        expected.push_str(&format!("{index:040x}"));
    }
    assert_eq!(fingerprint(&listing), expected);
}
