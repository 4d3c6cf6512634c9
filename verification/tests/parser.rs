use enigo::parser::parse;

#[test]
fn parser_test() {
    let out = parse("{+SHIFT}{{+SHIFT}} Hello {{{{{enter}}}}} World {{-SHIFT}}{-SHIFT} lol");
    assert!(out.contains("\n> shift on\n"));
    assert!(out.contains("\n> shift off\n"));
}

#[test]
fn sketch_echoes_plain_text() {
    assert_eq!(parse("Hello World"), "Hello World");
    assert_eq!(parse(""), "");
}

#[test]
fn sketch_reports_tags() {
    assert_eq!(parse("a{+SHIFT}b"), "a\n> shift on\nb");
    assert_eq!(parse("{-SHIFT}"), "\n> shift off\n");
    assert_eq!(parse("{enter}"), "\n> unknown\n");
}
