use flamingo_agent::platform::winquote::{parse_command_line, quote_arg, quote_command_line};

#[test]
fn plain_argument_is_untouched() {
    assert_eq!(quote_arg("simple"), "simple");
    assert_eq!(quote_arg(r"C:\dir\file.log"), r"C:\dir\file.log");
}

#[test]
fn empty_argument_becomes_empty_quotes() {
    assert_eq!(quote_arg(""), "\"\"");
}

#[test]
fn spaces_are_quoted() {
    assert_eq!(quote_arg("has space"), "\"has space\"");
}

#[test]
fn embedded_quotes_are_escaped() {
    assert_eq!(quote_arg(r#"say "hi""#), r#""say \"hi\"""#);
}

#[test]
fn trailing_backslashes_before_closing_quote_are_doubled() {
    assert_eq!(quote_arg(r"C:\my dir\"), r#""C:\my dir\\""#);
}

#[test]
fn backslashes_before_a_quote_are_doubled_plus_escape() {
    assert_eq!(quote_arg(r#"a\"b"#), r#""a\\\"b""#);
}

/// One case per rule that the parser implements.
#[test]
fn reference_parser_follows_the_crt_rules() {
    // Runs of whitespace separate arguments and are not themselves arguments.
    assert_eq!(parse_command_line("  a \t b  "), ["a", "b"]);
    // Quoting hides the separators.
    assert_eq!(parse_command_line(r#""has space""#), ["has space"]);
    // An empty quoted region is an argument.
    assert_eq!(parse_command_line(r#""""#), [""]);
    // 2n+1 backslashes before a quote: n backslashes and a literal quote.
    assert_eq!(parse_command_line(r#""a\"b""#), [r#"a"b"#]);
    // 2n backslashes before a quote: n backslashes, and the quote toggles.
    assert_eq!(parse_command_line(r#""c:\dir\\""#), [r"c:\dir\"]);
    // Backslashes that are not followed by a quote stay as they are.
    assert_eq!(parse_command_line(r"a\\b"), [r"a\\b"]);
}

#[test]
fn command_line_joins_with_single_spaces() {
    let args = ["--log-dir".to_string(), r"C:\Program Files\X".to_string()];
    assert_eq!(
        quote_command_line(&args),
        r#"--log-dir "C:\Program Files\X""#
    );
}

/// The 20 arguments below exercise every branch of the quoting.
const TRICKY: [&str; 20] = [
    "",
    "simple",
    "has space",
    "  padded  ",
    " ",
    "a b c",
    "\ttab",
    "new\nline",
    r#"say "hi""#,
    "\"",
    "\"\"",
    r#""quoted""#,
    r"C:\dir\file.log",
    r"C:\my dir\",
    r#"a\"b"#,
    r"\\server\share",
    r"\\server\share with space\",
    r"back\\slashes",
    r"trailing\\",
    r#"\"\\\""#,
];

#[test]
fn tricky_arguments_round_trip_through_the_reference_parser() {
    for arg in TRICKY {
        let line = format!("prog {}", quote_arg(arg));
        assert_eq!(parse_command_line(&line), ["prog", arg], "line {line:?}");
    }
}

#[test]
fn quoting_round_trips_through_the_reference_parser() {
    let all: Vec<String> = TRICKY.iter().map(|arg| arg.to_string()).collect();
    for from in 0..all.len() {
        for to in from..=all.len() {
            let args = all[from..to].to_vec();
            assert_eq!(parse_command_line(&quote_command_line(&args)), args);
        }
    }
}

/// Every list of up to three short arguments over the characters that the quoting has to
/// reason about.
#[test]
fn short_arguments_round_trip_and_stay_apart() {
    let mut words = vec![String::new()];
    for c in ['a', ' ', '\\', '"'] {
        words.push(c.to_string());
        for d in ['a', ' ', '\\', '"'] {
            words.push(format!("{c}{d}"));
        }
    }
    let mut lines = Vec::new();
    for first in &words {
        for second in &words {
            let args = [first.clone(), second.clone()];
            let line = quote_command_line(&args);
            assert_eq!(parse_command_line(&line), args);
            lines.push(line);
        }
    }
    let count = lines.len();
    lines.sort();
    lines.dedup();
    assert_eq!(lines.len(), count);
}

#[test]
fn no_arguments_make_an_empty_line() {
    assert_eq!(quote_command_line(&[]), "");
    assert!(parse_command_line("").is_empty());
}
