use ruby_emitter::text::{
    block, concat2, concat_strings, enclose, integer_text, join_strings, one_text, push_text,
    push_texts,
};

fn strings(items: &[&str]) -> Vec<String> {
    items.iter().map(|s| s.to_string()).collect()
}

#[test]
fn join_of_nothing_is_empty() {
    assert_eq!(join_strings(&strings(&[]), ", "), "");
}

#[test]
fn join_of_one_piece_has_no_separator() {
    assert_eq!(join_strings(&strings(&["a"]), ", "), "a");
}

#[test]
fn join_sets_separator_between_pieces() {
    assert_eq!(join_strings(&strings(&["a", "b", "c"]), ", "), "a, b, c");
    assert_eq!(join_strings(&strings(&["a", "", "c"]), "::"), "a::::c");
}

#[test]
fn join_matches_the_standard_join() {
    let parts = strings(&["while x", "y = 1", "", "end"]);
    assert_eq!(join_strings(&parts, "\n"), parts.join("\n"));
}

#[test]
fn concat_strings_sets_nothing_between() {
    assert_eq!(concat_strings(&strings(&["a", "b", "c"])), "abc");
    assert_eq!(concat_strings(&strings(&[])), "");
}

#[test]
fn enclose_and_concat2() {
    assert_eq!(enclose("[", "1, 2", "]"), "[1, 2]");
    assert_eq!(concat2("@", "name"), "@name");
}

#[test]
fn line_lists_grow_at_the_end() {
    let mut lines = one_text("a".to_string());
    push_text(&mut lines, "b".to_string());
    push_texts(&mut lines, strings(&["c", "d"]));
    assert_eq!(lines, strings(&["a", "b", "c", "d"]));
}

#[test]
fn block_sets_each_line_on_its_own() {
    assert_eq!(block("begin".to_string(), strings(&["a", "b"]), "end"), "begin\na\nb\nend");
    assert_eq!(block("begin".to_string(), strings(&[]), "end"), "begin\nend");
}

#[test]
fn integer_text_of_small_numbers() {
    assert_eq!(integer_text(0), "0");
    assert_eq!(integer_text(7), "7");
    assert_eq!(integer_text(10), "10");
    assert_eq!(integer_text(-1), "-1");
    assert_eq!(integer_text(-42), "-42");
    assert_eq!(integer_text(1234567890), "1234567890");
}

#[test]
fn integer_text_of_the_bounds() {
    assert_eq!(integer_text(i64::MAX), "9223372036854775807");
    assert_eq!(integer_text(i64::MIN), "-9223372036854775808");
}

#[test]
fn integer_text_matches_to_string() {
    let mut value: i64 = 1;
    for step in 0..62 {
        assert_eq!(integer_text(value), value.to_string());
        assert_eq!(integer_text(-value), (-value).to_string());
        assert_eq!(integer_text(value - 1), (value - 1).to_string());
        value = value * 2 + (step % 3);
    }
    for value in -1000..1000 {
        assert_eq!(integer_text(value), value.to_string());
    }
}
