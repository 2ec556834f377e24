use hop::output::{plain, text_of_line, Outcome, Span, Style, EXIT_CD, EXIT_FAILURE, EXIT_OK};

#[test]
fn exit_codes_are_those_of_the_shell_protocol() {
    assert_eq!(EXIT_OK, 0);
    assert_eq!(EXIT_FAILURE, 1);
    assert_eq!(EXIT_CD, 42);
}

#[test]
fn plain_is_one_span() {
    assert_eq!(
        plain(String::from("hello")),
        vec![Span { text: String::from("hello"), style: Style::Plain }]
    );
}

#[test]
fn text_of_line_joins_the_spans() {
    let line = vec![
        Span { text: String::from("Added: "), style: Style::Plain },
        Span { text: String::from("proj"), style: Style::Name },
        Span { text: String::from(" -> "), style: Style::Plain },
        Span { text: String::from("~/code"), style: Style::Path },
    ];
    assert_eq!(text_of_line(&line), "Added: proj -> ~/code");
    assert_eq!(text_of_line(&Vec::new()), "");
}

#[test]
fn go_to_prints_the_path_alone_with_the_code_for_cd() {
    let outcome = Outcome::go_to(String::from("/home/alice/code/proj"));
    assert_eq!(outcome.stdout, vec![plain(String::from("/home/alice/code/proj"))]);
    assert!(outcome.stderr.is_empty());
    assert_eq!(outcome.code, 42);
}

#[test]
fn fail_prints_on_standard_error_only() {
    let outcome = Outcome::fail(String::from("no"), EXIT_FAILURE);
    assert!(outcome.stdout.is_empty());
    assert_eq!(outcome.stderr, vec![String::from("no")]);
    assert_eq!(outcome.code, 1);
}

#[test]
fn tell_prints_on_standard_output_and_succeeds() {
    let outcome = Outcome::tell(String::from("yes"));
    assert_eq!(outcome.stdout, vec![plain(String::from("yes"))]);
    assert!(outcome.stderr.is_empty());
    assert_eq!(outcome.code, 0);
}

#[test]
fn show_prints_the_lines_and_succeeds() {
    let lines = vec![plain(String::from("a")), plain(String::from("b"))];
    let outcome = Outcome::show(lines);
    assert_eq!(outcome.stdout, vec![plain(String::from("a")), plain(String::from("b"))]);
    assert!(outcome.stderr.is_empty());
    assert_eq!(outcome.code, 0);
}

#[test]
fn silent_prints_nothing() {
    let outcome = Outcome::silent(EXIT_OK);
    assert!(outcome.stdout.is_empty());
    assert!(outcome.stderr.is_empty());
    assert_eq!(outcome.code, 0);
}
