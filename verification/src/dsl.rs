//! A small tag language for keyboard input.
//!
//! Plain text is typed character by character. `{{` and `}}` stand for the
//! brackets themselves. A tag in brackets names a key: `{RETURN}` clicks it,
//! `{+CTRL}` presses it and `{-CTRL}` releases it. `{+UNICODE}` and
//! `{-UNICODE}` switch the text between typing single keys and entering it
//! as a whole sequence.

use vstd::prelude::*;

use crate::keycodes::Key;
use crate::text::{chars_of, push_char};

verus! {

broadcast use vstd::string::group_string_axioms;

/// An error that can occur when parsing DSL
#[derive(Debug, PartialEq, Eq)]
pub enum ParseError {
    /// When a tag doesn't exist.
    /// Example: {+TEST}{-TEST}
    UnknownTag(String),
    /// When a { is encountered inside a {TAG}.
    /// Example: {+HELLO{WORLD}
    UnexpectedOpen,
    /// When a { is never matched with a }.
    /// Example: {+SHIFT}Hello{-SHIFT
    UnmatchedOpen,
    /// Opposite of UnmatchedOpen.
    /// Example: +SHIFT}Hello{-SHIFT}
    UnmatchedClose,
    /// When {} is encountered with no tag.
    /// Example: {+SHIFT}Hello{}
    EmptyTag,
    /// When {UNICODE} is encountered without an action.
    /// Use {+UNICODE} or {-UNICODE} to enable / disable unicode
    MissingUnicodeAction,
}

/// The mathematical value of a [`ParseError`]
pub enum SpecParseError {
    UnknownTag(Seq<char>),
    UnexpectedOpen,
    UnmatchedOpen,
    UnmatchedClose,
    EmptyTag,
    MissingUnicodeAction,
}

impl View for ParseError {
    type V = SpecParseError;

    open spec fn view(&self) -> SpecParseError {
        match self {
            ParseError::UnknownTag(t) => SpecParseError::UnknownTag(t@),
            ParseError::UnexpectedOpen => SpecParseError::UnexpectedOpen,
            ParseError::UnmatchedOpen => SpecParseError::UnmatchedOpen,
            ParseError::UnmatchedClose => SpecParseError::UnmatchedClose,
            ParseError::EmptyTag => SpecParseError::EmptyTag,
            ParseError::MissingUnicodeAction => SpecParseError::MissingUnicodeAction,
        }
    }
}

/// The message that describes a parse error
pub open spec fn parse_error_message(e: SpecParseError) -> Seq<char> {
    match e {
        SpecParseError::UnknownTag(_) => "Unknown tag"@,
        SpecParseError::UnexpectedOpen => "Unescaped open bracket ({) found inside tag name"@,
        SpecParseError::UnmatchedOpen => "Unmatched open bracket ({). No matching close (})"@,
        SpecParseError::UnmatchedClose => "Unmatched close bracket (}). No previous open ({)"@,
        SpecParseError::EmptyTag => "Empty tag"@,
        SpecParseError::MissingUnicodeAction => "Missing unicode action. {+UNICODE} or {-UNICODE}"@,
    }
}

impl ParseError {
    /// The message that describes the error
    pub fn message(&self) -> (r: &'static str)
        ensures
            r@ == parse_error_message(self@),
    {
        match self {
            ParseError::UnknownTag(_) => "Unknown tag",
            ParseError::UnexpectedOpen => "Unescaped open bracket ({) found inside tag name",
            ParseError::UnmatchedOpen => "Unmatched open bracket ({). No matching close (})",
            ParseError::UnmatchedClose => "Unmatched close bracket (}). No previous open ({)",
            ParseError::EmptyTag => "Empty tag",
            ParseError::MissingUnicodeAction => "Missing unicode action. {+UNICODE} or {-UNICODE}",
        }
    }
}

/// A token of the language
#[derive(Debug, PartialEq, Eq)]
pub enum Token {
    /// Text that is typed character by character
    Sequence(String),
    /// Text that is entered as a whole
    Unicode(String),
    KeyUp(Key),
    KeyDown(Key),
}

/// The mathematical value of a [`Token`]
pub enum SpecToken {
    Sequence(Seq<char>),
    Unicode(Seq<char>),
    KeyUp(Key),
    KeyDown(Key),
}

impl View for Token {
    type V = SpecToken;

    open spec fn view(&self) -> SpecToken {
        match self {
            Token::Sequence(s) => SpecToken::Sequence(s@),
            Token::Unicode(s) => SpecToken::Unicode(s@),
            Token::KeyUp(k) => SpecToken::KeyUp(*k),
            Token::KeyDown(k) => SpecToken::KeyDown(*k),
        }
    }
}

/// The views of a sequence of tokens
pub open spec fn tokens_view(ts: Seq<Token>) -> Seq<SpecToken> {
    ts.map_values(|t: Token| t@)
}

/// What a tag does with its key
#[derive(Debug, PartialEq, Eq, Structural)]
pub enum Action {
    Down,
    Up,
    Press,
}

/// The tokens that an action on a key stands for
pub open spec fn action_tokens(action: Action, key: Key) -> Seq<SpecToken> {
    match action {
        Action::Down => seq![SpecToken::KeyDown(key)],
        Action::Up => seq![SpecToken::KeyUp(key)],
        Action::Press => seq![SpecToken::KeyDown(key), SpecToken::KeyUp(key)],
    }
}

impl Action {
    /// The tokens that this action on `key` stands for: a press, a release,
    /// or a press followed by a release
    pub fn into_token(&self, key: Key) -> (r: Vec<Token>)
        ensures
            tokens_view(r@) == action_tokens(*self, key),
    {
        let mut v: Vec<Token> = Vec::new();
        match self {
            Action::Down => v.push(Token::KeyDown(key)),
            Action::Up => v.push(Token::KeyUp(key)),
            Action::Press => {
                v.push(Token::KeyDown(key));
                v.push(Token::KeyUp(key));
            },
        }
        assert(tokens_view(v@) =~= action_tokens(*self, key));
        v
    }
}

// ---------------------------------------------------------------------------
// The meaning of an input, stated in two layers: the characters are first
// read as pieces (plain characters, tags, or a lexical error that ends the
// input), then the pieces are read left to right.

/// A lexical unit of the input
pub enum Piece {
    /// A character of text (an escaped bracket included)
    Char(char),
    /// The contents of a tag, escapes resolved
    Tag(Seq<char>),
    /// A lexical error; nothing after it is read
    Fail(SpecParseError),
}

/// Reads the rest of a tag after its first character: the characters up to
/// the first `}` that is not doubled, with `{{` and `}}` read as brackets.
/// Returns the contents and the number of characters consumed, including the
/// closing bracket.
pub open spec fn tag_body(s: Seq<char>) -> Result<(Seq<char>, int), SpecParseError>
    decreases s.len(),
{
    if s.len() == 0 {
        Err(SpecParseError::UnmatchedOpen)
    } else if s[0] == '{' {
        if s.len() >= 2 && s[1] == '{' {
            body_after(seq!['{'], 2, tag_body(s.skip(2)))
        } else {
            Err(SpecParseError::UnexpectedOpen)
        }
    } else if s[0] == '}' {
        if s.len() >= 2 && s[1] == '}' {
            body_after(seq!['}'], 2, tag_body(s.skip(2)))
        } else {
            Ok((Seq::<char>::empty(), 1))
        }
    } else {
        body_after(seq![s[0]], 1, tag_body(s.skip(1)))
    }
}

/// Puts `prefix`, read from `k` characters, in front of the rest of a tag
pub open spec fn body_after(
    prefix: Seq<char>,
    k: int,
    rest: Result<(Seq<char>, int), SpecParseError>,
) -> Result<(Seq<char>, int), SpecParseError> {
    match rest {
        Ok((b, n)) => Ok((prefix + b, k + n)),
        Err(e) => Err(e),
    }
}

/// A tag that is read consumes at least one and at most all characters
pub proof fn lemma_tag_body_len(s: Seq<char>)
    ensures
        tag_body(s) matches Ok((b, n)) ==> 1 <= n <= s.len(),
    decreases s.len(),
{
    if s.len() > 0 {
        if s[0] == '{' {
            if s.len() >= 2 && s[1] == '{' {
                lemma_tag_body_len(s.skip(2));
            }
        } else if s[0] == '}' {
            if s.len() >= 2 && s[1] == '}' {
                lemma_tag_body_len(s.skip(2));
            }
        } else {
            lemma_tag_body_len(s.skip(1));
        }
    }
}

/// True when an opening bracket at the start of `s` opens an empty tag `{}`
pub open spec fn opens_empty_tag(s: Seq<char>) -> bool {
    s.len() >= 2 && s[1] == '}' && !(s.len() >= 3 && s[2] == '}')
}

/// The pieces of an input, read left to right
pub open spec fn lex(s: Seq<char>) -> Seq<Piece>
    decreases s.len(),
{
    if s.len() == 0 {
        Seq::<Piece>::empty()
    } else if s[0] == '{' {
        if s.len() == 1 {
            seq![Piece::Fail(SpecParseError::UnmatchedOpen)]
        } else if s[1] == '{' {
            seq![Piece::Char('{')] + lex(s.skip(2))
        } else if opens_empty_tag(s) {
            seq![Piece::Fail(SpecParseError::EmptyTag)]
        } else {
            match tag_body(s.skip(2)) {
                Err(e) => seq![Piece::Fail(e)],
                Ok((body, n)) => {
                    proof {
                        lemma_tag_body_len(s.skip(2));
                    }
                    seq![Piece::Tag(seq![s[1]] + body)] + lex(s.skip(2 + n))
                },
            }
        }
    } else if s[0] == '}' {
        if s.len() >= 2 && s[1] == '}' {
            seq![Piece::Char('}')] + lex(s.skip(2))
        } else {
            seq![Piece::Fail(SpecParseError::UnmatchedClose)]
        }
    } else {
        seq![Piece::Char(s[0])] + lex(s.skip(1))
    }
}

/// The action of a tag: `+` presses, `-` releases, anything else clicks
pub open spec fn tag_action(tag: Seq<char>) -> Action {
    if tag.len() > 0 && tag[0] == '+' {
        Action::Down
    } else if tag.len() > 0 && tag[0] == '-' {
        Action::Up
    } else {
        Action::Press
    }
}

/// The name of the key in a tag: the tag without its `+` or `-`
pub open spec fn tag_key_name(tag: Seq<char>) -> Seq<char> {
    if tag_action(tag) == Action::Press {
        tag
    } else {
        tag.skip(1)
    }
}

/// The key that a tag names
pub open spec fn key_of_name(name: Seq<char>) -> Option<Key> {
    if name == "ALT"@ {
        Some(Key::Alt)
    } else if name == "BACKSPACE"@ {
        Some(Key::Backspace)
    } else if name == "CAPSLOCK"@ {
        Some(Key::CapsLock)
    } else if name == "CTRL"@ || name == "CONTROL"@ {
        Some(Key::Control)
    } else if name == "DELETE"@ || name == "DEL"@ {
        Some(Key::Delete)
    } else if name == "DOWNARROW"@ {
        Some(Key::DownArrow)
    } else if name == "END"@ {
        Some(Key::End)
    } else if name == "ESCAPE"@ {
        Some(Key::Escape)
    } else if name == "F1"@ {
        Some(Key::F1)
    } else if name == "F2"@ {
        Some(Key::F2)
    } else if name == "F3"@ {
        Some(Key::F3)
    } else if name == "F4"@ {
        Some(Key::F4)
    } else if name == "F5"@ {
        Some(Key::F5)
    } else if name == "F6"@ {
        Some(Key::F6)
    } else if name == "F7"@ {
        Some(Key::F7)
    } else if name == "F8"@ {
        Some(Key::F8)
    } else if name == "F9"@ {
        Some(Key::F9)
    } else if name == "F10"@ {
        Some(Key::F10)
    } else if name == "F11"@ {
        Some(Key::F11)
    } else if name == "F12"@ {
        Some(Key::F12)
    } else if name == "F13"@ {
        Some(Key::F13)
    } else if name == "F14"@ {
        Some(Key::F14)
    } else if name == "F15"@ {
        Some(Key::F15)
    } else if name == "F16"@ {
        Some(Key::F16)
    } else if name == "F17"@ {
        Some(Key::F17)
    } else if name == "F18"@ {
        Some(Key::F18)
    } else if name == "F19"@ {
        Some(Key::F19)
    } else if name == "F20"@ {
        Some(Key::F20)
    } else if name == "HOME"@ {
        Some(Key::Home)
    } else if name == "LEFTARROW"@ {
        Some(Key::LeftArrow)
    } else if name == "META"@ {
        Some(Key::Meta)
    } else if name == "OPTION"@ {
        Some(Key::Option)
    } else if name == "PAGEDOWN"@ {
        Some(Key::PageDown)
    } else if name == "PAGEUP"@ {
        Some(Key::PageUp)
    } else if name == "RETURN"@ {
        Some(Key::Return)
    } else if name == "RIGHTARROW"@ {
        Some(Key::RightArrow)
    } else if name == "SHIFT"@ {
        Some(Key::Shift)
    } else if name == "TAB"@ {
        Some(Key::Tab)
    } else if name == "UPARROW"@ {
        Some(Key::UpArrow)
    } else {
        None
    }
}

/// The tag names of a key: its name in capitals, and `CTRL` and `DEL` for
/// the control and delete keys. Keys without a tag have none.
pub open spec fn tag_names(key: Key) -> Set<Seq<char>> {
    match key {
        Key::Alt => set!["ALT"@],
        Key::Backspace => set!["BACKSPACE"@],
        Key::CapsLock => set!["CAPSLOCK"@],
        Key::Control => set!["CTRL"@, "CONTROL"@],
        Key::Delete => set!["DELETE"@, "DEL"@],
        Key::DownArrow => set!["DOWNARROW"@],
        Key::End => set!["END"@],
        Key::Escape => set!["ESCAPE"@],
        Key::F1 => set!["F1"@],
        Key::F2 => set!["F2"@],
        Key::F3 => set!["F3"@],
        Key::F4 => set!["F4"@],
        Key::F5 => set!["F5"@],
        Key::F6 => set!["F6"@],
        Key::F7 => set!["F7"@],
        Key::F8 => set!["F8"@],
        Key::F9 => set!["F9"@],
        Key::F10 => set!["F10"@],
        Key::F11 => set!["F11"@],
        Key::F12 => set!["F12"@],
        Key::F13 => set!["F13"@],
        Key::F14 => set!["F14"@],
        Key::F15 => set!["F15"@],
        Key::F16 => set!["F16"@],
        Key::F17 => set!["F17"@],
        Key::F18 => set!["F18"@],
        Key::F19 => set!["F19"@],
        Key::F20 => set!["F20"@],
        Key::Home => set!["HOME"@],
        Key::LeftArrow => set!["LEFTARROW"@],
        Key::Meta => set!["META"@],
        Key::Option => set!["OPTION"@],
        Key::PageDown => set!["PAGEDOWN"@],
        Key::PageUp => set!["PAGEUP"@],
        Key::Return => set!["RETURN"@],
        Key::RightArrow => set!["RIGHTARROW"@],
        Key::Shift => set!["SHIFT"@],
        Key::Tab => set!["TAB"@],
        Key::UpArrow => set!["UPARROW"@],
        _ => Set::empty(),
    }
}

/// A tag names exactly the key whose name it is: a name that is read as a
/// key is one of that key's tag names, and each tag name of a key is read
/// as that key
pub proof fn lemma_tag_names(name: Seq<char>, key: Key)
    ensures
        key_of_name(name) == Some(key) ==> tag_names(key).contains(name),
        tag_names(key).contains(name) ==> key_of_name(name) == Some(key),
{
    reveal_strlit("ALT");
    reveal_strlit("BACKSPACE");
    reveal_strlit("CAPSLOCK");
    reveal_strlit("CTRL");
    reveal_strlit("CONTROL");
    reveal_strlit("DELETE");
    reveal_strlit("DEL");
    reveal_strlit("DOWNARROW");
    reveal_strlit("END");
    reveal_strlit("ESCAPE");
    reveal_strlit("F1");
    reveal_strlit("F2");
    reveal_strlit("F3");
    reveal_strlit("F4");
    reveal_strlit("F5");
    reveal_strlit("F6");
    reveal_strlit("F7");
    reveal_strlit("F8");
    reveal_strlit("F9");
    reveal_strlit("F10");
    reveal_strlit("F11");
    reveal_strlit("F12");
    reveal_strlit("F13");
    reveal_strlit("F14");
    reveal_strlit("F15");
    reveal_strlit("F16");
    reveal_strlit("F17");
    reveal_strlit("F18");
    reveal_strlit("F19");
    reveal_strlit("F20");
    reveal_strlit("HOME");
    reveal_strlit("LEFTARROW");
    reveal_strlit("META");
    reveal_strlit("OPTION");
    reveal_strlit("PAGEDOWN");
    reveal_strlit("PAGEUP");
    reveal_strlit("RETURN");
    reveal_strlit("RIGHTARROW");
    reveal_strlit("SHIFT");
    reveal_strlit("TAB");
    reveal_strlit("UPARROW");
    assert("ALT"@ =~= seq!['A', 'L', 'T']);
    assert("BACKSPACE"@ =~= seq!['B', 'A', 'C', 'K', 'S', 'P', 'A', 'C', 'E']);
    assert("CAPSLOCK"@ =~= seq!['C', 'A', 'P', 'S', 'L', 'O', 'C', 'K']);
    assert("CTRL"@ =~= seq!['C', 'T', 'R', 'L']);
    assert("CONTROL"@ =~= seq!['C', 'O', 'N', 'T', 'R', 'O', 'L']);
    assert("DELETE"@ =~= seq!['D', 'E', 'L', 'E', 'T', 'E']);
    assert("DEL"@ =~= seq!['D', 'E', 'L']);
    assert("DOWNARROW"@ =~= seq!['D', 'O', 'W', 'N', 'A', 'R', 'R', 'O', 'W']);
    assert("END"@ =~= seq!['E', 'N', 'D']);
    assert("ESCAPE"@ =~= seq!['E', 'S', 'C', 'A', 'P', 'E']);
    assert("F1"@ =~= seq!['F', '1']);
    assert("F2"@ =~= seq!['F', '2']);
    assert("F3"@ =~= seq!['F', '3']);
    assert("F4"@ =~= seq!['F', '4']);
    assert("F5"@ =~= seq!['F', '5']);
    assert("F6"@ =~= seq!['F', '6']);
    assert("F7"@ =~= seq!['F', '7']);
    assert("F8"@ =~= seq!['F', '8']);
    assert("F9"@ =~= seq!['F', '9']);
    assert("F10"@ =~= seq!['F', '1', '0']);
    assert("F11"@ =~= seq!['F', '1', '1']);
    assert("F12"@ =~= seq!['F', '1', '2']);
    assert("F13"@ =~= seq!['F', '1', '3']);
    assert("F14"@ =~= seq!['F', '1', '4']);
    assert("F15"@ =~= seq!['F', '1', '5']);
    assert("F16"@ =~= seq!['F', '1', '6']);
    assert("F17"@ =~= seq!['F', '1', '7']);
    assert("F18"@ =~= seq!['F', '1', '8']);
    assert("F19"@ =~= seq!['F', '1', '9']);
    assert("F20"@ =~= seq!['F', '2', '0']);
    assert("HOME"@ =~= seq!['H', 'O', 'M', 'E']);
    assert("LEFTARROW"@ =~= seq!['L', 'E', 'F', 'T', 'A', 'R', 'R', 'O', 'W']);
    assert("META"@ =~= seq!['M', 'E', 'T', 'A']);
    assert("OPTION"@ =~= seq!['O', 'P', 'T', 'I', 'O', 'N']);
    assert("PAGEDOWN"@ =~= seq!['P', 'A', 'G', 'E', 'D', 'O', 'W', 'N']);
    assert("PAGEUP"@ =~= seq!['P', 'A', 'G', 'E', 'U', 'P']);
    assert("RETURN"@ =~= seq!['R', 'E', 'T', 'U', 'R', 'N']);
    assert("RIGHTARROW"@ =~= seq!['R', 'I', 'G', 'H', 'T', 'A', 'R', 'R', 'O', 'W']);
    assert("SHIFT"@ =~= seq!['S', 'H', 'I', 'F', 'T']);
    assert("TAB"@ =~= seq!['T', 'A', 'B']);
    assert("UPARROW"@ =~= seq!['U', 'P', 'A', 'R', 'R', 'O', 'W']);
    assert(key_of_name("ALT"@) == Some(Key::Alt));
    assert(key_of_name("BACKSPACE"@) == Some(Key::Backspace));
    assert(key_of_name("CAPSLOCK"@) == Some(Key::CapsLock));
    assert(key_of_name("CTRL"@) == Some(Key::Control));
    assert(key_of_name("CONTROL"@) == Some(Key::Control));
    assert(key_of_name("DELETE"@) == Some(Key::Delete));
    assert(key_of_name("DEL"@) == Some(Key::Delete));
    assert(key_of_name("DOWNARROW"@) == Some(Key::DownArrow));
    assert(key_of_name("END"@) == Some(Key::End));
    assert(key_of_name("ESCAPE"@) == Some(Key::Escape));
    assert(key_of_name("F1"@) == Some(Key::F1));
    assert(key_of_name("F2"@) == Some(Key::F2));
    assert(key_of_name("F3"@) == Some(Key::F3));
    assert(key_of_name("F4"@) == Some(Key::F4));
    assert(key_of_name("F5"@) == Some(Key::F5));
    assert(key_of_name("F6"@) == Some(Key::F6));
    assert(key_of_name("F7"@) == Some(Key::F7));
    assert(key_of_name("F8"@) == Some(Key::F8));
    assert(key_of_name("F9"@) == Some(Key::F9));
    assert(key_of_name("F10"@) == Some(Key::F10));
    assert(key_of_name("F11"@) == Some(Key::F11));
    assert(key_of_name("F12"@) == Some(Key::F12));
    assert(key_of_name("F13"@) == Some(Key::F13));
    assert(key_of_name("F14"@) == Some(Key::F14));
    assert(key_of_name("F15"@) == Some(Key::F15));
    assert(key_of_name("F16"@) == Some(Key::F16));
    assert(key_of_name("F17"@) == Some(Key::F17));
    assert(key_of_name("F18"@) == Some(Key::F18));
    assert(key_of_name("F19"@) == Some(Key::F19));
    assert(key_of_name("F20"@) == Some(Key::F20));
    assert(key_of_name("HOME"@) == Some(Key::Home));
    assert(key_of_name("LEFTARROW"@) == Some(Key::LeftArrow));
    assert(key_of_name("META"@) == Some(Key::Meta));
    assert(key_of_name("OPTION"@) == Some(Key::Option));
    assert(key_of_name("PAGEDOWN"@) == Some(Key::PageDown));
    assert(key_of_name("PAGEUP"@) == Some(Key::PageUp));
    assert(key_of_name("RETURN"@) == Some(Key::Return));
    assert(key_of_name("RIGHTARROW"@) == Some(Key::RightArrow));
    assert(key_of_name("SHIFT"@) == Some(Key::Shift));
    assert(key_of_name("TAB"@) == Some(Key::Tab));
    assert(key_of_name("UPARROW"@) == Some(Key::UpArrow));
}

/// What a tag does once read
pub enum TagEffect {
    /// Switch entering text as a whole sequence on or off
    Mode(bool),
    /// Emit these key tokens
    Keys(Seq<SpecToken>),
}

/// The effect of a tag, or the error it is
pub open spec fn tag_effect(tag: Seq<char>) -> Result<TagEffect, SpecParseError> {
    if tag.len() == 0 {
        Err(SpecParseError::EmptyTag)
    } else if tag_key_name(tag) == "UNICODE"@ {
        match tag_action(tag) {
            Action::Down => Ok(TagEffect::Mode(true)),
            Action::Up => Ok(TagEffect::Mode(false)),
            Action::Press => Err(SpecParseError::MissingUnicodeAction),
        }
    } else {
        match key_of_name(tag_key_name(tag)) {
            Some(k) => Ok(TagEffect::Keys(action_tokens(tag_action(tag), k))),
            None => Err(SpecParseError::UnknownTag(tag)),
        }
    }
}

/// The token that pending text becomes: none if there is no text
pub open spec fn flush(buf: Seq<char>, unicode: bool) -> Seq<SpecToken> {
    if buf.len() == 0 {
        Seq::<SpecToken>::empty()
    } else if unicode {
        seq![SpecToken::Unicode(buf)]
    } else {
        seq![SpecToken::Sequence(buf)]
    }
}

/// Puts tokens in front of a result
pub open spec fn prepend(
    ts: Seq<SpecToken>,
    r: Result<Seq<SpecToken>, SpecParseError>,
) -> Result<Seq<SpecToken>, SpecParseError> {
    match r {
        Ok(rest) => Ok(ts + rest),
        Err(e) => Err(e),
    }
}

/// Reads pieces left to right, with `buf` the text read since the last tag
/// and `unicode` the current text mode: text between tags becomes one token,
/// each tag its key tokens; the first error is the result
pub open spec fn interp(pieces: Seq<Piece>, buf: Seq<char>, unicode: bool) -> Result<
    Seq<SpecToken>,
    SpecParseError,
>
    decreases pieces.len(),
{
    if pieces.len() == 0 {
        Ok(flush(buf, unicode))
    } else {
        match pieces[0] {
            Piece::Char(c) => interp(pieces.drop_first(), buf.push(c), unicode),
            Piece::Fail(e) => Err(e),
            Piece::Tag(t) => match tag_effect(t) {
                Err(e) => Err(e),
                Ok(TagEffect::Mode(m)) => prepend(
                    flush(buf, unicode),
                    interp(pieces.drop_first(), Seq::<char>::empty(), m),
                ),
                Ok(TagEffect::Keys(ks)) => prepend(
                    flush(buf, unicode) + ks,
                    interp(pieces.drop_first(), Seq::<char>::empty(), unicode),
                ),
            },
        }
    }
}

/// The tokens of an input, or the first error in it
pub open spec fn spec_tokenize(input: Seq<char>) -> Result<Seq<SpecToken>, SpecParseError> {
    interp(lex(input), Seq::<char>::empty(), false)
}

proof fn lemma_prepend_prepend(a: Seq<SpecToken>, b: Seq<SpecToken>, r: Result<Seq<SpecToken>, SpecParseError>)
    ensures
        prepend(a, prepend(b, r)) == prepend(a + b, r),
{
    if let Ok(x) = r {
        assert(a + (b + x) =~= (a + b) + x);
    }
}

proof fn lemma_body_after_body_after(
    p: Seq<char>,
    k: int,
    q: Seq<char>,
    l: int,
    r: Result<(Seq<char>, int), SpecParseError>,
)
    ensures
        body_after(p, k, body_after(q, l, r)) == body_after(p + q, k + l, r),
{
    if let Ok((b, n)) = r {
        assert(p + (q + b) =~= (p + q) + b);
    }
}

proof fn lemma_lex_plain(s: Seq<char>, c: char)
    requires
        s.len() > 0,
        s[0] == c,
        c != '{',
        c != '}',
    ensures
        lex(s) == seq![Piece::Char(c)] + lex(s.skip(1)),
        lex(s).len() > 0,
        lex(s)[0] == Piece::Char(c),
        lex(s).drop_first() == lex(s.skip(1)),
{
    assert((seq![Piece::Char(c)] + lex(s.skip(1))).drop_first() =~= lex(s.skip(1)));
}

/// `s` with every bracket doubled, which is how text is written so that it
/// is typed as it is
pub open spec fn escape_brackets(s: Seq<char>) -> Seq<char>
    decreases s.len(),
{
    if s.len() == 0 {
        s
    } else if s[0] == '{' {
        seq!['{', '{'] + escape_brackets(s.skip(1))
    } else if s[0] == '}' {
        seq!['}', '}'] + escape_brackets(s.skip(1))
    } else {
        seq![s[0]] + escape_brackets(s.skip(1))
    }
}

/// Reading escaped text adds it to the pending text
proof fn lemma_interp_escaped(s: Seq<char>, buf: Seq<char>, unicode: bool)
    ensures
        interp(lex(escape_brackets(s)), buf, unicode) == Ok::<Seq<SpecToken>, SpecParseError>(
            flush(buf + s, unicode),
        ),
    decreases s.len(),
{
    if s.len() == 0 {
        assert(buf + s =~= buf);
    } else {
        let c = s[0];
        let rest = escape_brackets(s.skip(1));
        let t = escape_brackets(s);
        lemma_interp_escaped(s.skip(1), buf.push(c), unicode);
        assert(buf.push(c) + s.skip(1) =~= buf + s);
        if c == '{' || c == '}' {
            assert(t =~= seq![c, c] + rest);
            assert(t.skip(2) =~= rest);
            assert(lex(t) == seq![Piece::Char(c)] + lex(rest));
        } else {
            assert(t =~= seq![c] + rest);
            assert(t.skip(1) =~= rest);
            lemma_lex_plain(t, c);
        }
        assert((seq![Piece::Char(c)] + lex(rest)).drop_first() =~= lex(rest));
    }
}

/// Text written with its brackets doubled reads back as that text: one
/// sequence token, or no token for empty text
pub proof fn lemma_escaped_text_reads_back(s: Seq<char>)
    ensures
        spec_tokenize(escape_brackets(s)) == Ok::<Seq<SpecToken>, SpecParseError>(
            if s.len() == 0 {
                Seq::<SpecToken>::empty()
            } else {
                seq![SpecToken::Sequence(s)]
            },
        ),
{
    lemma_interp_escaped(s, Seq::<char>::empty(), false);
    assert(Seq::<char>::empty() + s =~= s);
}

// ---------------------------------------------------------------------------
// Reading an input

/// True when the characters of `v` from `start` on spell `lit`
fn name_is(v: &Vec<char>, start: usize, lit: &str) -> (r: bool)
    requires
        start <= v@.len(),
    ensures
        r == (v@.skip(start as int) == lit@),
{
    let lc = chars_of(lit);
    if v.len() - start != lc.len() {
        assert(v@.skip(start as int).len() != lit@.len());
        return false;
    }
    let mut k: usize = 0;
    while k < lc.len()
        invariant
            k <= lc@.len(),
            start <= v@.len(),
            lc@ == lit@,
            v@.len() - start == lc@.len(),
            forall|m: int| 0 <= m < k ==> v@[start + m] == lc@[m],
        decreases lc@.len() - k,
    {
        let vlen = v.len();
        assert(start + k < vlen);
        let idx: usize = start + k;
        if v[idx] != lc[k] {
            assert(v@.skip(start as int)[k as int] != lit@[k as int]);
            return false;
        }
        k = k + 1;
    }
    assert(v@.skip(start as int) =~= lit@);
    true
}

/// The key named by the characters of `tag` from `start` on
fn key_of_tag_name(tag: &Vec<char>, start: usize) -> (r: Option<Key>)
    requires
        start <= tag@.len(),
    ensures
        r == key_of_name(tag@.skip(start as int)),
{
    if name_is(tag, start, "ALT") {
        Some(Key::Alt)
    } else if name_is(tag, start, "BACKSPACE") {
        Some(Key::Backspace)
    } else if name_is(tag, start, "CAPSLOCK") {
        Some(Key::CapsLock)
    } else if name_is(tag, start, "CTRL") || name_is(tag, start, "CONTROL") {
        Some(Key::Control)
    } else if name_is(tag, start, "DELETE") || name_is(tag, start, "DEL") {
        Some(Key::Delete)
    } else if name_is(tag, start, "DOWNARROW") {
        Some(Key::DownArrow)
    } else if name_is(tag, start, "END") {
        Some(Key::End)
    } else if name_is(tag, start, "ESCAPE") {
        Some(Key::Escape)
    } else if name_is(tag, start, "F1") {
        Some(Key::F1)
    } else if name_is(tag, start, "F2") {
        Some(Key::F2)
    } else if name_is(tag, start, "F3") {
        Some(Key::F3)
    } else if name_is(tag, start, "F4") {
        Some(Key::F4)
    } else if name_is(tag, start, "F5") {
        Some(Key::F5)
    } else if name_is(tag, start, "F6") {
        Some(Key::F6)
    } else if name_is(tag, start, "F7") {
        Some(Key::F7)
    } else if name_is(tag, start, "F8") {
        Some(Key::F8)
    } else if name_is(tag, start, "F9") {
        Some(Key::F9)
    } else if name_is(tag, start, "F10") {
        Some(Key::F10)
    } else if name_is(tag, start, "F11") {
        Some(Key::F11)
    } else if name_is(tag, start, "F12") {
        Some(Key::F12)
    } else if name_is(tag, start, "F13") {
        Some(Key::F13)
    } else if name_is(tag, start, "F14") {
        Some(Key::F14)
    } else if name_is(tag, start, "F15") {
        Some(Key::F15)
    } else if name_is(tag, start, "F16") {
        Some(Key::F16)
    } else if name_is(tag, start, "F17") {
        Some(Key::F17)
    } else if name_is(tag, start, "F18") {
        Some(Key::F18)
    } else if name_is(tag, start, "F19") {
        Some(Key::F19)
    } else if name_is(tag, start, "F20") {
        Some(Key::F20)
    } else if name_is(tag, start, "HOME") {
        Some(Key::Home)
    } else if name_is(tag, start, "LEFTARROW") {
        Some(Key::LeftArrow)
    } else if name_is(tag, start, "META") {
        Some(Key::Meta)
    } else if name_is(tag, start, "OPTION") {
        Some(Key::Option)
    } else if name_is(tag, start, "PAGEDOWN") {
        Some(Key::PageDown)
    } else if name_is(tag, start, "PAGEUP") {
        Some(Key::PageUp)
    } else if name_is(tag, start, "RETURN") {
        Some(Key::Return)
    } else if name_is(tag, start, "RIGHTARROW") {
        Some(Key::RightArrow)
    } else if name_is(tag, start, "SHIFT") {
        Some(Key::Shift)
    } else if name_is(tag, start, "TAB") {
        Some(Key::Tab)
    } else if name_is(tag, start, "UPARROW") {
        Some(Key::UpArrow)
    } else {
        None
    }
}

/// A string holding the given characters
fn string_of(v: &Vec<char>) -> (r: String)
    ensures
        r@ == v@,
{
    let mut s = String::new();
    let mut k: usize = 0;
    while k < v.len()
        invariant
            k <= v@.len(),
            s@ == v@.take(k as int),
        decreases v@.len() - k,
    {
        push_char(&mut s, v[k]);
        assert(v@.take(k + 1) =~= v@.take(k as int).push(v@[k as int]));
        k = k + 1;
    }
    assert(v@.take(v@.len() as int) =~= v@);
    s
}

/// Appends the token that the pending text becomes, if any
fn flush_into(tokens: &mut Vec<Token>, buffer: String, unicode: bool)
    ensures
        tokens_view(final(tokens)@) == tokens_view(old(tokens)@) + flush(buffer@, unicode),
{
    let ghost before = tokens@;
    if !buffer.as_str().is_empty() {
        if unicode {
            tokens.push(Token::Unicode(buffer));
        } else {
            tokens.push(Token::Sequence(buffer));
        }
        assert(tokens_view(tokens@) =~= tokens_view(before) + flush(buffer@, unicode));
    } else {
        assert(tokens_view(tokens@) =~= tokens_view(before) + flush(buffer@, unicode));
    }
}

/// The effect of a tag as the reader applies it
enum ExecTagEffect {
    Mode(bool),
    Keys(Vec<Token>),
}

/// Works out what a tag does
fn read_tag(tag: &Vec<char>) -> (r: Result<ExecTagEffect, ParseError>)
    ensures
        match (r, tag_effect(tag@)) {
            (Ok(ExecTagEffect::Mode(m)), Ok(TagEffect::Mode(n))) => m == n,
            (Ok(ExecTagEffect::Keys(v)), Ok(TagEffect::Keys(ks))) => tokens_view(v@) == ks,
            (Err(e), Err(f)) => e@ == f,
            _ => false,
        },
{
    if tag.len() == 0 {
        return Err(ParseError::EmptyTag);
    }
    let action = if tag[0] == '+' {
        Action::Down
    } else if tag[0] == '-' {
        Action::Up
    } else {
        Action::Press
    };
    let start: usize = match action {
        Action::Press => 0,
        _ => 1,
    };
    assert(tag@.skip(0) =~= tag@);
    assert(tag@.skip(start as int) == tag_key_name(tag@));
    if name_is(tag, start, "UNICODE") {
        match action {
            Action::Down => Ok(ExecTagEffect::Mode(true)),
            Action::Up => Ok(ExecTagEffect::Mode(false)),
            Action::Press => Err(ParseError::MissingUnicodeAction),
        }
    } else {
        match key_of_tag_name(tag, start) {
            Some(k) => Ok(ExecTagEffect::Keys(action.into_token(k))),
            None => Err(ParseError::UnknownTag(string_of(tag))),
        }
    }
}

/// Splits the input into tokens.
///
/// Returns the tokens of the input, or the first error in it.
pub fn tokenize(input: &str) -> (r: Result<Vec<Token>, ParseError>)
    ensures
        r is Ok <==> spec_tokenize(input@) is Ok,
        r matches Ok(v) ==> spec_tokenize(input@) == Ok::<Seq<SpecToken>, SpecParseError>(tokens_view(v@)),
        r matches Err(e) ==> spec_tokenize(input@) == Err::<Seq<SpecToken>, SpecParseError>(e@),
{
    let chars = chars_of(input);
    let n = chars.len();
    let mut unicode = false;
    let mut tokens: Vec<Token> = Vec::new();
    let mut buffer = String::new();
    let mut i: usize = 0;
    assert(chars@.skip(0) =~= chars@);
    assert(tokens_view(tokens@) =~= Seq::<SpecToken>::empty());
    assert(prepend(Seq::<SpecToken>::empty(), spec_tokenize(input@)) == spec_tokenize(input@)) by {
        if let Ok(x) = spec_tokenize(input@) {
            assert(Seq::<SpecToken>::empty() + x =~= x);
        }
    };
    while i < n
        invariant
            n == chars@.len(),
            chars@ == input@,
            i <= n,
            spec_tokenize(input@) == prepend(
                tokens_view(tokens@),
                interp(lex(chars@.skip(i as int)), buffer@, unicode),
            ),
        decreases n - i,
    {
        let ghost s = chars@.skip(i as int);
        let c = chars[i];
        assert(s[0] == c);
        if c == '{' {
            if i + 1 == n {
                return Err(ParseError::UnmatchedOpen);
            }
            let next = chars[i + 1];
            assert(s[1] == next);
            if next == '{' {
                assert(s.skip(2) =~= chars@.skip(i + 2));
                let ghost pieces = lex(s);
                assert(pieces.drop_first() =~= lex(s.skip(2)));
                push_char(&mut buffer, '{');
                i = i + 2;
            } else if next == '}' && !(i + 2 < n && chars[i + 2] == '}') {
                assert(opens_empty_tag(s));
                return Err(ParseError::EmptyTag);
            } else {
                assert(!opens_empty_tag(s));
                let ghost old_tokens = tokens_view(tokens@);
                let ghost old_buffer = buffer@;
                let ghost old_unicode = unicode;
                let pending = buffer;
                buffer = String::new();
                flush_into(&mut tokens, pending, unicode);
                // read the rest of the tag
                let mut tag: Vec<char> = Vec::new();
                tag.push(next);
                let mut j: usize = i + 2;
                assert(chars@.skip(i + 2) =~= s.skip(2));
                assert(tag@.drop_first() =~= Seq::<char>::empty());
                assert(body_after(Seq::<char>::empty(), 0, tag_body(s.skip(2))) == tag_body(s.skip(2))) by {
                    if let Ok((b, m)) = tag_body(s.skip(2)) {
                        assert(Seq::<char>::empty() + b =~= b);
                    }
                };
                loop
                    invariant
                        n == chars@.len(),
                        i + 2 <= j <= n,
                        s == chars@.skip(i as int),
                        tag@.len() >= 1,
                        tag@[0] == next,
                        chars@ == input@,
                        s.len() >= 2,
                        s[0] == '{',
                        s[1] == next,
                        next != '{',
                        !opens_empty_tag(s),
                        spec_tokenize(input@) == prepend(old_tokens, interp(lex(s), old_buffer, old_unicode)),
                        tag_body(s.skip(2)) == body_after(
                            tag@.drop_first(),
                            j - (i + 2),
                            tag_body(chars@.skip(j as int)),
                        ),
                    ensures
                        i + 2 < j + 1 <= n,
                        tag_body(s.skip(2)) == Ok::<(Seq<char>, int), SpecParseError>(
                            (tag@.drop_first(), j + 1 - (i + 2)),
                        ),
                        tag@.len() >= 1,
                        tag@[0] == next,
                    decreases n - j,
                {
                    let ghost t = chars@.skip(j as int);
                    if j == n {
                        assert(t.len() == 0);
                        return Err(ParseError::UnmatchedOpen);
                    }
                    let d = chars[j];
                    assert(t[0] == d);
                    if d == '{' {
                        if j + 1 < n && chars[j + 1] == '{' {
                            assert(t[1] == '{');
                            assert(t.skip(2) =~= chars@.skip(j + 2));
                            proof {
                                lemma_body_after_body_after(
                                    tag@.drop_first(),
                                    j - (i + 2),
                                    seq!['{'],
                                    2,
                                    tag_body(chars@.skip(j + 2)),
                                );
                            }
                            let ghost before = tag@;
                            tag.push('{');
                            assert(tag@.drop_first() =~= before.drop_first() + seq!['{']);
                            j = j + 2;
                        } else {
                            assert(!(t.len() >= 2 && t[1] == '{'));
                            return Err(ParseError::UnexpectedOpen);
                        }
                    } else if d == '}' {
                        if j + 1 < n && chars[j + 1] == '}' {
                            assert(t[1] == '}');
                            assert(t.skip(2) =~= chars@.skip(j + 2));
                            proof {
                                lemma_body_after_body_after(
                                    tag@.drop_first(),
                                    j - (i + 2),
                                    seq!['}'],
                                    2,
                                    tag_body(chars@.skip(j + 2)),
                                );
                            }
                            let ghost before = tag@;
                            tag.push('}');
                            assert(tag@.drop_first() =~= before.drop_first() + seq!['}']);
                            j = j + 2;
                        } else {
                            assert(!(t.len() >= 2 && t[1] == '}'));
                            assert(tag@.drop_first() + Seq::<char>::empty() =~= tag@.drop_first());
                            break;
                        }
                    } else {
                        assert(t.skip(1) =~= chars@.skip(j + 1));
                        proof {
                            lemma_body_after_body_after(
                                tag@.drop_first(),
                                j - (i + 2),
                                seq![d],
                                1,
                                tag_body(chars@.skip(j + 1)),
                            );
                        }
                        let ghost before = tag@;
                        tag.push(d);
                        assert(tag@.drop_first() =~= before.drop_first() + seq![d]);
                        j = j + 1;
                    }
                }
                // the tag ends at position j
                let ghost pieces = lex(s);
                assert(seq![next] + tag@.drop_first() =~= tag@);
                assert(s.skip(2 + (j + 1 - (i + 2))) =~= chars@.skip(j + 1));
                assert(pieces[0] == Piece::Tag(tag@));
                assert(pieces.drop_first() =~= lex(chars@.skip(j + 1)));
                match read_tag(&tag) {
                    Err(e) => {
                        return Err(e);
                    },
                    Ok(ExecTagEffect::Mode(m)) => {
                        proof {
                            lemma_prepend_prepend(
                                old_tokens,
                                flush(old_buffer, old_unicode),
                                interp(lex(chars@.skip(j + 1)), Seq::<char>::empty(), m),
                            );
                        }
                        unicode = m;
                    },
                    Ok(ExecTagEffect::Keys(mut ks)) => {
                        let ghost kv = tokens_view(ks@);
                        let ghost mid = tokens_view(tokens@);
                        tokens.append(&mut ks);
                        assert(tokens_view(tokens@) =~= mid + kv);
                        proof {
                            lemma_prepend_prepend(
                                old_tokens,
                                flush(old_buffer, old_unicode) + kv,
                                interp(lex(chars@.skip(j + 1)), Seq::<char>::empty(), unicode),
                            );
                            assert(old_tokens + (flush(old_buffer, old_unicode) + kv) =~= mid + kv);
                        }
                    },
                }
                assert(buffer@ == Seq::<char>::empty());
                i = j + 1;
            }
        } else if c == '}' {
            if i + 1 < n && chars[i + 1] == '}' {
                assert(s[1] == '}');
                assert(s.skip(2) =~= chars@.skip(i + 2));
                let ghost pieces = lex(s);
                assert(pieces.drop_first() =~= lex(s.skip(2)));
                push_char(&mut buffer, '}');
                i = i + 2;
            } else {
                assert(!(s.len() >= 2 && s[1] == '}'));
                return Err(ParseError::UnmatchedClose);
            }
        } else {
            assert(s.skip(1) =~= chars@.skip(i + 1));
            proof {
                lemma_lex_plain(s, c);
            }
            let ghost pieces = lex(s);
            assert(pieces.drop_first() =~= lex(s.skip(1)));
            push_char(&mut buffer, c);
            i = i + 1;
        }
    }
    assert(chars@.skip(n as int) =~= Seq::<char>::empty());
    let ghost before = tokens_view(tokens@);
    flush_into(&mut tokens, buffer, unicode);
    Ok(tokens)
}

// ---------------------------------------------------------------------------
// Evaluating an input

/// An action on a keyboard
pub enum KeyAction {
    /// A whole text entered at once
    Sequence(Seq<char>),
    Down(Key),
    Up(Key),
    Click(Key),
}

/// Something that simulates keyboard input. Implementors record each
/// action in `performed`, in the order the methods are called.
pub trait KeyboardControllable {
    /// The actions performed so far, oldest first
    spec fn performed(&self) -> Seq<KeyAction>;

    /// Enters the whole text
    fn key_sequence(&mut self, sequence: &str)
        ensures
            final(self).performed() == old(self).performed().push(KeyAction::Sequence(sequence@)),
    ;

    /// Presses the key
    fn key_down(&mut self, key: Key)
        ensures
            final(self).performed() == old(self).performed().push(KeyAction::Down(key)),
    ;

    /// Releases the key
    fn key_up(&mut self, key: Key)
        ensures
            final(self).performed() == old(self).performed().push(KeyAction::Up(key)),
    ;

    /// Presses and releases the key
    fn key_click(&mut self, key: Key)
        ensures
            final(self).performed() == old(self).performed().push(KeyAction::Click(key)),
    ;
}

/// The key that enters a character
pub open spec fn unicode_key(c: char) -> Key {
    Key::Unicode(c)
}

/// Clicks of the given characters, in order
pub open spec fn char_clicks(s: Seq<char>) -> Seq<KeyAction>
    decreases s.len(),
{
    if s.len() == 0 {
        Seq::<KeyAction>::empty()
    } else {
        char_clicks(s.drop_last()).push(KeyAction::Click(unicode_key(s.last())))
    }
}

/// The keyboard actions that a token stands for: text is typed one
/// character at a time, text in unicode mode is entered as a whole
pub open spec fn token_actions(t: SpecToken) -> Seq<KeyAction> {
    match t {
        SpecToken::Sequence(s) => char_clicks(s),
        SpecToken::Unicode(s) => seq![KeyAction::Sequence(s)],
        SpecToken::KeyUp(k) => seq![KeyAction::Up(k)],
        SpecToken::KeyDown(k) => seq![KeyAction::Down(k)],
    }
}

/// The keyboard actions of a sequence of tokens, in order
pub open spec fn tokens_actions(ts: Seq<SpecToken>) -> Seq<KeyAction>
    decreases ts.len(),
{
    if ts.len() == 0 {
        Seq::<KeyAction>::empty()
    } else {
        tokens_actions(ts.drop_last()) + token_actions(ts.last())
    }
}

/// Evaluate the DSL. This tokenizes the input and presses the keys.
///
/// If the input cannot be parsed, nothing is pressed and the first error in
/// the input is returned.
pub fn eval<K: KeyboardControllable>(enigo: &mut K, input: &str) -> (r: Result<(), ParseError>)
    ensures
        r is Ok <==> spec_tokenize(input@) is Ok,
        r matches Err(e) ==> spec_tokenize(input@) == Err::<Seq<SpecToken>, SpecParseError>(e@)
            && final(enigo).performed() == old(enigo).performed(),
        spec_tokenize(input@) matches Ok(ts) ==> final(enigo).performed() == old(enigo).performed()
            + tokens_actions(ts),
{
    let tokens = match tokenize(input) {
        Ok(t) => t,
        Err(e) => {
            return Err(e);
        },
    };
    let ghost start = enigo.performed();
    let ghost tv = tokens_view(tokens@);
    let mut k: usize = 0;
    assert(tv.take(0) =~= Seq::<SpecToken>::empty());
    assert(start + Seq::<KeyAction>::empty() =~= start);
    while k < tokens.len()
        invariant
            k <= tokens@.len(),
            tv == tokens_view(tokens@),
            enigo.performed() == start + tokens_actions(tv.take(k as int)),
        decreases tokens@.len() - k,
    {
        let ghost before = enigo.performed();
        match &tokens[k] {
            Token::Sequence(buffer) => {
                let cs = chars_of(buffer.as_str());
                let mut j: usize = 0;
                assert(cs@.take(0) =~= Seq::<char>::empty());
                assert(before + Seq::<KeyAction>::empty() =~= before);
                while j < cs.len()
                    invariant
                        j <= cs@.len(),
                        enigo.performed() == before + char_clicks(cs@.take(j as int)),
                    decreases cs@.len() - j,
                {
                    enigo.key_click(Key::Unicode(cs[j]));
                    assert(cs@.take(j + 1).drop_last() =~= cs@.take(j as int));
                    assert(cs@.take(j + 1).last() == cs@[j as int]);
                    assert(char_clicks(cs@.take(j + 1)) == char_clicks(cs@.take(j as int)).push(
                        KeyAction::Click(unicode_key(cs@[j as int])),
                    ));
                    assert(before + char_clicks(cs@.take(j + 1)) =~= (before + char_clicks(cs@.take(j as int))).push(
                        KeyAction::Click(unicode_key(cs@[j as int])),
                    ));
                    j = j + 1;
                }
                assert(cs@.take(cs@.len() as int) =~= cs@);
                assert(enigo.performed() == before + token_actions(tv[k as int]));
            },
            Token::Unicode(buffer) => {
                enigo.key_sequence(buffer.as_str());
                assert(enigo.performed() =~= before + token_actions(tv[k as int]));
            },
            Token::KeyUp(key) => {
                enigo.key_up(*key);
                assert(enigo.performed() =~= before + token_actions(tv[k as int]));
            },
            Token::KeyDown(key) => {
                enigo.key_down(*key);
                assert(enigo.performed() =~= before + token_actions(tv[k as int]));
            },
        }
        assert(tv.take(k + 1).drop_last() =~= tv.take(k as int));
        assert(start + tokens_actions(tv.take(k + 1)) =~= (start + tokens_actions(tv.take(k as int)))
            + token_actions(tv[k as int]));
        k = k + 1;
    }
    assert(tv.take(tokens@.len() as int) =~= tv);
    Ok(())
}

} // verus!
