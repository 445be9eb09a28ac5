use interactive_editor::argument_tolkenizer::tolkenize;

fn toks(input: &str) -> Vec<String> {
    tolkenize(input).expect("input should tokenize")
}

#[test]
fn splits_on_whitespace() {
    assert_eq!(toks("vim %"), vec!["vim", "%"]);
    assert_eq!(toks("a  b   c"), vec!["a", "b", "c"]);
    assert_eq!(toks("a\tb\nc\rd"), vec!["a", "b", "c", "d"]);
}

#[test]
fn empty_and_whitespace_only_yield_empty_sequence() {
    assert_eq!(toks(""), Vec::<String>::new());
    assert_eq!(toks("   "), Vec::<String>::new());
    assert_eq!(toks(" \t \n "), Vec::<String>::new());
}

#[test]
fn double_quotes_keep_whitespace() {
    assert_eq!(toks("\"a b\" c"), vec!["a b", "c"]);
    assert_eq!(toks("editor --cmd \"run fast\""), vec!["editor", "--cmd", "run fast"]);
}

#[test]
fn single_quotes_keep_whitespace() {
    assert_eq!(toks("'a b' c"), vec!["a b", "c"]);
}

#[test]
fn quoted_segment_joins_with_surrounding_characters() {
    assert_eq!(toks("a\"b c\"d"), vec!["ab cd"]);
}

#[test]
fn escaped_quote_inside_quotes() {
    assert_eq!(toks("\"a\\\"b\""), vec!["a\"b"]);
    assert_eq!(toks("'a\\'b'"), vec!["a'b"]);
}

#[test]
fn backslash_is_plain_outside_quotes() {
    assert_eq!(toks("a\\b"), vec!["a\\b"]);
}

#[test]
fn empty_quotes_give_empty_token() {
    assert_eq!(toks("\"\""), vec![""]);
}

#[test]
fn unterminated_quote_fails() {
    assert_eq!(tolkenize("\"abc"), None);
    assert_eq!(tolkenize("'abc"), None);
    assert_eq!(tolkenize("vim \"x"), None);
    assert_eq!(tolkenize("a \"b\" 'c"), None);
}

#[test]
fn rejoining_plain_tokens_retokenizes_identically() {
    let first = toks("vim  -u \t NONE   %");
    let rejoined = first.join(" ");
    let second = toks(&rejoined);
    assert_eq!(first, second);
    assert_eq!(second, vec!["vim", "-u", "NONE", "%"]);
}
