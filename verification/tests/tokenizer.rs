use lsh::tokenizer::lsh_split_line;

fn toks(line: &str) -> Vec<String> {
    lsh_split_line(line.to_string())
}

fn owned(parts: &[&str]) -> Vec<String> {
    parts.iter().map(|p| p.to_string()).collect()
}

#[test]
fn split_cd_tmp() {
    assert_eq!(toks("  cd   /tmp  "), owned(&["cd", "/tmp"]));
}

#[test]
fn split_empty_line() {
    assert_eq!(toks(""), owned(&[]));
}

#[test]
fn split_only_delimiters() {
    assert_eq!(toks("  \t \r\n  "), owned(&[]));
}

#[test]
fn split_single_token() {
    assert_eq!(toks("ls"), owned(&["ls"]));
}

#[test]
fn split_mixed_delimiters() {
    assert_eq!(toks("a\tb\r\nc d"), owned(&["a", "b", "c", "d"]));
}

#[test]
fn split_trailing_newline() {
    assert_eq!(toks("ls -l\n"), owned(&["ls", "-l"]));
}

#[test]
fn split_keeps_order() {
    assert_eq!(toks("one two three"), owned(&["one", "two", "three"]));
}

#[test]
fn split_no_quoting() {
    assert_eq!(toks("echo \"a b\""), owned(&["echo", "\"a", "b\""]));
}

#[test]
fn split_yields_no_empty_tokens() {
    let inputs = ["", " ", "  a  ", "\t\n", "x y  z\r\n", "   lots   of   space   "];
    for input in inputs {
        for token in toks(input) {
            assert!(!token.is_empty());
        }
    }
}

#[test]
fn split_rejoin_round_trip() {
    let inputs = ["", "  cd   /tmp  ", "a\tb\r\nc d", " one ", "x  y\tz\n"];
    for input in inputs {
        let first = toks(input);
        let rejoined = first.join(" ");
        let second = lsh_split_line(rejoined);
        assert_eq!(first, second);
    }
}
