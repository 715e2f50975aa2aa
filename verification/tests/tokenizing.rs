use rush::tokenizer::Parser;

fn words_of(line: &str) -> Vec<String> {
    let mut parser = Parser::new();
    parser
        .parse_words(line.to_string())
        .expect("tokenizing never fails")
}

#[test]
fn tokenize_line_of_words() {
    assert_eq!(words_of("echo hello world\n"), vec!["echo", "hello", "world"]);
}

#[test]
fn tokenize_all_whitespace_line() {
    assert_eq!(words_of("   "), Vec::<String>::new());
}

#[test]
fn tokenize_empty_line() {
    assert_eq!(words_of(""), Vec::<String>::new());
}

#[test]
fn tokenize_collapses_adjacent_separators() {
    assert_eq!(words_of("a  b\n"), vec!["a", "b"]);
}

#[test]
fn tokenize_drops_leading_and_trailing_separators() {
    assert_eq!(words_of("  a b  "), vec!["a", "b"]);
}

#[test]
fn tokenize_newlines_are_separators() {
    assert_eq!(words_of("\na\nb\n"), vec!["a", "b"]);
}

#[test]
fn tokenize_passes_punctuation_verbatim() {
    assert_eq!(words_of("cat x | sort > y"), vec!["cat", "x", "|", "sort", ">", "y"]);
}

#[test]
fn tokenize_single_word() {
    assert_eq!(words_of("pwd"), vec!["pwd"]);
}

#[test]
fn tokenize_tab_is_not_a_separator() {
    // Only the space and the line feed delimit tokens.
    assert_eq!(words_of("a\tb c\n"), vec!["a\tb", "c"]);
}

#[test]
fn tokenize_keeps_non_ascii_text_intact() {
    assert_eq!(words_of("héllo wörld\n"), vec!["héllo", "wörld"]);
}
