use enigo::dsl::{eval, tokenize, Action, KeyAction, KeyboardControllable, ParseError, Token};
use enigo::Key;

#[test]
fn success() {
    assert_eq!(
        tokenize("{{Hello World!}} {+CTRL}hi{-CTRL}"),
        Ok(vec![
            Token::Sequence("{Hello World!} ".into()),
            Token::KeyDown(Key::Control),
            Token::Sequence("hi".into()),
            Token::KeyUp(Key::Control),
        ])
    );
    assert_eq!(
        tokenize("{+CTRL}f{-CTRL}hi{RETURN}"),
        Ok(vec![
            Token::KeyDown(Key::Control),
            Token::Sequence("f".into()),
            Token::KeyUp(Key::Control),
            Token::Sequence("hi".into()),
            Token::KeyDown(Key::Return),
            Token::KeyUp(Key::Return),
        ])
    );
}

#[test]
fn unexpected_open() {
    assert_eq!(tokenize("{hello{}world}"), Err(ParseError::UnexpectedOpen));
}

#[test]
fn unmatched_open() {
    assert_eq!(
        tokenize("{this is going to fail"),
        Err(ParseError::UnmatchedOpen)
    );
}

#[test]
fn unmatched_close() {
    assert_eq!(
        tokenize("{+CTRL}{{this}} is going to fail}"),
        Err(ParseError::UnmatchedClose)
    );
}

#[test]
fn plain_text_is_one_sequence() {
    assert_eq!(
        tokenize("Hello World"),
        Ok(vec![Token::Sequence("Hello World".into())])
    );
    assert_eq!(tokenize(""), Ok(vec![]));
}

#[test]
fn unknown_tag_is_named() {
    assert_eq!(
        tokenize("{+TEST}{-TEST}"),
        Err(ParseError::UnknownTag("+TEST".into()))
    );
}

#[test]
fn empty_tag_is_refused() {
    assert_eq!(tokenize("{+SHIFT}Hello{}"), Err(ParseError::EmptyTag));
}

#[test]
fn unicode_needs_an_action() {
    assert_eq!(
        tokenize("{UNICODE}abc"),
        Err(ParseError::MissingUnicodeAction)
    );
}

#[test]
fn unicode_mode_enters_text_whole() {
    assert_eq!(
        tokenize("a{+UNICODE}bc{-UNICODE}d"),
        Ok(vec![
            Token::Sequence("a".into()),
            Token::Unicode("bc".into()),
            Token::Sequence("d".into()),
        ])
    );
}

#[test]
fn parse_error_messages() {
    assert_eq!(ParseError::UnknownTag("X".into()).message(), "Unknown tag");
    assert_eq!(
        ParseError::UnexpectedOpen.message(),
        "Unescaped open bracket ({) found inside tag name"
    );
    assert_eq!(
        ParseError::UnmatchedOpen.message(),
        "Unmatched open bracket ({). No matching close (})"
    );
    assert_eq!(
        ParseError::UnmatchedClose.message(),
        "Unmatched close bracket (}). No previous open ({)"
    );
    assert_eq!(ParseError::EmptyTag.message(), "Empty tag");
    assert_eq!(
        ParseError::MissingUnicodeAction.message(),
        "Missing unicode action. {+UNICODE} or {-UNICODE}"
    );
}

#[test]
fn actions_into_tokens() {
    assert_eq!(Action::Down.into_token(Key::Shift), vec![Token::KeyDown(Key::Shift)]);
    assert_eq!(Action::Up.into_token(Key::Shift), vec![Token::KeyUp(Key::Shift)]);
    assert_eq!(
        Action::Press.into_token(Key::Tab),
        vec![Token::KeyDown(Key::Tab), Token::KeyUp(Key::Tab)]
    );
}

#[derive(Default)]
struct Recorder {
    actions: Vec<String>,
}

impl KeyboardControllable for Recorder {
    fn performed(&self) -> vstd::seq::Seq<KeyAction> {
        unreachable!("the record of performed actions exists for verification only")
    }

    fn key_sequence(&mut self, sequence: &str) {
        self.actions.push(format!("seq {sequence}"));
    }

    fn key_down(&mut self, key: Key) {
        self.actions.push(format!("down {key:?}"));
    }

    fn key_up(&mut self, key: Key) {
        self.actions.push(format!("up {key:?}"));
    }

    fn key_click(&mut self, key: Key) {
        self.actions.push(format!("click {key:?}"));
    }
}

#[test]
fn eval_presses_the_tokens() {
    let mut r = Recorder::default();
    assert_eq!(eval(&mut r, "{+SHIFT}ab{-SHIFT}{+UNICODE}xy{-UNICODE}"), Ok(()));
    assert_eq!(
        r.actions,
        vec![
            "down Shift".to_string(),
            "click Unicode('a')".to_string(),
            "click Unicode('b')".to_string(),
            "up Shift".to_string(),
            "seq xy".to_string(),
        ]
    );
}

#[test]
fn eval_presses_nothing_on_error() {
    let mut r = Recorder::default();
    assert_eq!(eval(&mut r, "ab{+SHIFT"), Err(ParseError::UnmatchedOpen));
    assert!(r.actions.is_empty());
}

#[test]
fn doubled_brackets_read_back_as_text() {
    assert_eq!(
        tokenize("a{{b}}c{{{{"),
        Ok(vec![Token::Sequence("a{b}c{{".into())])
    );
}
