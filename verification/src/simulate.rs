//! The interfaces through which input is simulated: [`Keyboard`] and
//! [`Mouse`], and the [`Agent`] that executes [`Token`]s on them.
//!
//! Every implementation keeps a record of the input calls it served
//! ([`InputLog::calls`]), each with its result. The contracts of the
//! provided methods (`Keyboard::text`, `Agent::execute`) say which calls they
//! make, in which order, and what they return, in terms of that record.

use vstd::prelude::*;

use crate::input::{Axis, Button, Coordinate, Direction, InputError, InputResult};
use crate::keycodes::Key;
use crate::text::chars_of;

verus! {

broadcast use vstd::string::group_string_axioms;

/// One call of an input simulating method, with what it returned
pub enum InputCall {
    FastText(Seq<char>, InputResult<Option<()>>),
    Key(Key, Direction, InputResult<()>),
    Raw(u16, Direction, InputResult<()>),
    Button(Button, Direction, InputResult<()>),
    MoveMouse(i32, i32, Coordinate, InputResult<()>),
    Scroll(i32, Axis, InputResult<()>),
    MainDisplay(InputResult<(i32, i32)>),
    Location(InputResult<(i32, i32)>),
}

/// Something that records the input calls it serves
pub trait InputLog {
    /// The input calls served so far, oldest first
    spec fn calls(&self) -> Seq<InputCall>;
}

/// The key that enters a character
pub open spec fn char_key(c: char) -> Key {
    Key::Unicode(c)
}

/// `calls` are clicks of the characters of `chars`, in order, made until the
/// first one fails, and `r` is what entering them results in
pub open spec fn char_clicks_result(chars: Seq<char>, calls: Seq<InputCall>, r: InputResult<()>) -> bool
    decreases chars.len(),
{
    if chars.len() == 0 {
        calls.len() == 0 && r is Ok
    } else {
        &&& calls.len() >= 1
        &&& match calls[0] {
            InputCall::Key(k, d, res) => {
                &&& k == char_key(chars[0])
                &&& d == Direction::Click
                &&& match res {
                    Ok(_) => char_clicks_result(chars.drop_first(), calls.drop_first(), r),
                    Err(e) => calls.len() == 1 && r == Err::<(), InputError>(e),
                }
            },
            _ => false,
        }
    }
}

/// `calls` are the calls that entering `text` makes, and `r` its result:
/// nothing for an empty text; otherwise the fast text entry, and if that is
/// not available, a click of each character until one fails
pub open spec fn text_calls(text: Seq<char>, calls: Seq<InputCall>, r: InputResult<()>) -> bool {
    if text.len() == 0 {
        calls.len() == 0 && r is Ok
    } else {
        &&& calls.len() >= 1
        &&& match calls[0] {
            InputCall::FastText(t, fast) => {
                &&& t == text
                &&& match fast {
                    Ok(Some(_)) => calls.len() == 1 && r is Ok,
                    Ok(None) => char_clicks_result(text, calls.drop_first(), r),
                    Err(e) => calls.len() == 1 && r == Err::<(), InputError>(e),
                }
            },
            _ => false,
        }
    }
}

/// The key that enters a character
pub fn key_of_char(c: char) -> (k: Key)
    ensures
        k == char_key(c),
{
    Key::Unicode(c)
}

proof fn lemma_clicks_ok(chars: Seq<char>, calls: Seq<InputCall>)
    requires
        calls.len() == chars.len(),
        forall|m: int|
            0 <= m < calls.len() ==> #[trigger] calls[m] == InputCall::Key(
                char_key(chars[m]),
                Direction::Click,
                Ok(()),
            ),
    ensures
        char_clicks_result(chars, calls, Ok(())),
    decreases chars.len(),
{
    if chars.len() > 0 {
        assert forall|m: int| 0 <= m < calls.drop_first().len() implies #[trigger] calls.drop_first()[m]
            == InputCall::Key(char_key(chars.drop_first()[m]), Direction::Click, Ok(())) by {
            assert(calls[m + 1] == InputCall::Key(char_key(chars[m + 1]), Direction::Click, Ok(())));
        }
        lemma_clicks_ok(chars.drop_first(), calls.drop_first());
        assert(calls[0] == InputCall::Key(char_key(chars[0]), Direction::Click, Ok(())));
    }
}

proof fn lemma_clicks_err(chars: Seq<char>, calls: Seq<InputCall>, e: InputError)
    requires
        1 <= calls.len() <= chars.len(),
        forall|m: int|
            0 <= m < calls.len() - 1 ==> #[trigger] calls[m] == InputCall::Key(
                char_key(chars[m]),
                Direction::Click,
                Ok(()),
            ),
        calls[calls.len() - 1] == InputCall::Key(
            char_key(chars[calls.len() - 1]),
            Direction::Click,
            Err(e),
        ),
    ensures
        char_clicks_result(chars, calls, Err(e)),
    decreases chars.len(),
{
    if calls.len() > 1 {
        assert forall|m: int| 0 <= m < calls.drop_first().len() - 1 implies #[trigger] calls.drop_first()[m]
            == InputCall::Key(char_key(chars.drop_first()[m]), Direction::Click, Ok(())) by {
            assert(calls[m + 1] == InputCall::Key(char_key(chars[m + 1]), Direction::Click, Ok(())));
        }
        lemma_clicks_err(chars.drop_first(), calls.drop_first(), e);
        assert(calls[0] == InputCall::Key(char_key(chars[0]), Direction::Click, Ok(())));
    }
}

/// Contains functions to simulate key presses/releases and to input text.
///
/// For entering text, the [`Keyboard::text`] function is best. If you want to
/// enter a key without having to worry about the layout or the keymap, use
/// the [`Keyboard::key`] function. If you want a specific (physical) key to be
/// pressed, use the [`Keyboard::raw`] function.
pub trait Keyboard: InputLog {
    /// Do not use this directly. Use the [`Keyboard::text`] function.
    ///
    /// Enter the whole text string instead of entering individual keys. `None`
    /// means that fast text entry is not available.
    fn fast_text(&mut self, text: &str) -> (r: InputResult<Option<()>>)
        ensures
            final(self).calls() == old(self).calls().push(InputCall::FastText(text@, r)),
    ;

    /// Enter the text. Uses the fast text entry if it is available and falls
    /// back to clicking each character otherwise, stopping at the first
    /// failure.
    fn text(&mut self, text: &str) -> (r: InputResult<()>)
        ensures
            final(self).calls().len() >= old(self).calls().len(),
            final(self).calls().take(old(self).calls().len() as int) == old(self).calls(),
            text_calls(text@, final(self).calls().skip(old(self).calls().len() as int), r),
    {
        let ghost start = self.calls();
        if text.is_empty() {
            assert(self.calls().take(start.len() as int) =~= start);
            assert(self.calls().skip(start.len() as int) =~= Seq::<InputCall>::empty());
            return Ok(());
        }
        let fast = self.fast_text(text);
        let ghost after_fast = self.calls();
        assert(after_fast.take(start.len() as int) =~= start);
        match fast {
            Ok(Some(())) => {
                let ghost calls = after_fast.skip(start.len() as int);
                assert(calls =~= seq![InputCall::FastText(text@, fast)]);
                assert(calls[0] == InputCall::FastText(text@, fast));
                assert(text@.len() != 0);
                assert(text_calls(text@, calls, Ok(())));
                Ok(())
            },
            Ok(None) => {
                let cs = chars_of(text);
                let mut j: usize = 0;
                while j < cs.len()
                    invariant
                        j <= cs@.len(),
                        cs@ == text@,
                        start == old(self).calls(),
                        after_fast.len() == start.len() + 1,
                        after_fast.take(start.len() as int) == start,
                        after_fast[start.len() as int] == InputCall::FastText(text@, Ok(None)),
                        self.calls().len() == after_fast.len() + j,
                        self.calls().take(after_fast.len() as int) == after_fast,
                        forall|m: int|
                            0 <= m < j ==> #[trigger] self.calls()[after_fast.len() + m]
                                == InputCall::Key(char_key(cs@[m]), Direction::Click, Ok(())),
                    decreases cs@.len() - j,
                {
                    let ghost before = self.calls();
                    let key = key_of_char(cs[j]);
                    let res = self.key(key, Direction::Click);
                    assert(self.calls().take(after_fast.len() as int) =~= before.take(after_fast.len() as int));
                    match res {
                        Ok(u) => {
                            assert(key == char_key(cs@[j as int]));
                            assert(res == Ok::<(), InputError>(u));
                            assert(self.calls() == before.push(InputCall::Key(key, Direction::Click, res)));
                            assert(before.len() == after_fast.len() + j);
                            assert(self.calls()[after_fast.len() + j] == InputCall::Key(key, Direction::Click, res));
                            assert(self.calls()[after_fast.len() + j] == InputCall::Key(
                                char_key(cs@[j as int]),
                                Direction::Click,
                                Ok(()),
                            ));
                            assert forall|m: int| 0 <= m < j implies #[trigger] self.calls()[after_fast.len() + m]
                                == before[after_fast.len() + m] by {}
                        },
                        Err(e) => {
                            let ghost done = self.calls().skip(after_fast.len() as int);
                            proof {
                                assert forall|m: int| 0 <= m < done.len() - 1 implies #[trigger] done[m]
                                    == InputCall::Key(char_key(cs@[m]), Direction::Click, Ok(())) by {
                                    assert(before[after_fast.len() + m] == InputCall::Key(
                                        char_key(cs@[m]),
                                        Direction::Click,
                                        Ok(()),
                                    ));
                                }
                                lemma_clicks_err(cs@, done, e);
                                let ghost all = self.calls().skip(start.len() as int);
                                assert(all.drop_first() =~= done);
                                assert(self.calls().take(start.len() as int) =~= start);
                                assert(all[0] == after_fast[start.len() as int]);
                                assert(all[0] == InputCall::FastText(text@, Ok(None)));
                                assert(text_calls(text@, all, Err(e)));
                            }
                            return Err(e);
                        },
                    }
                    j = j + 1;
                }
                let ghost done = self.calls().skip(after_fast.len() as int);
                proof {
                    assert forall|m: int| 0 <= m < done.len() implies #[trigger] done[m]
                        == InputCall::Key(char_key(cs@[m]), Direction::Click, Ok(())) by {
                        assert(self.calls()[after_fast.len() + m] == InputCall::Key(
                            char_key(cs@[m]),
                            Direction::Click,
                            Ok(()),
                        ));
                    }
                    lemma_clicks_ok(cs@, done);
                    assert(self.calls().skip(start.len() as int).drop_first() =~= done);
                    assert(self.calls().take(start.len() as int) =~= start);
                }
                Ok(())
            },
            Err(e) => {
                assert(after_fast.skip(start.len() as int) =~= seq![InputCall::FastText(text@, fast)]);
                Err(e)
            },
        }
    }

    /// Sends an individual key event. It will enter the keysym (virtual key).
    fn key(&mut self, key: Key, direction: Direction) -> (r: InputResult<()>)
        ensures
            final(self).calls() == old(self).calls().push(InputCall::Key(key, direction, r)),
    ;

    /// Sends a raw keycode. The keycode may or may not be mapped on the
    /// current layout.
    fn raw(&mut self, keycode: u16, direction: Direction) -> (r: InputResult<()>)
        ensures
            final(self).calls() == old(self).calls().push(InputCall::Raw(keycode, direction, r)),
    ;
}

/// Contains functions to control the mouse and to get the size of the
/// display. The origin of the coordinate system is the top-left corner of
/// the main screen; x grows to the right and y down, in pixels.
pub trait Mouse: InputLog {
    /// Sends an individual mouse button event
    fn button(&mut self, button: Button, direction: Direction) -> (r: InputResult<()>)
        ensures
            final(self).calls() == old(self).calls().push(InputCall::Button(button, direction, r)),
    ;

    /// Move the mouse cursor to the specified x and y coordinates, either
    /// absolute or relative to the current position
    fn move_mouse(&mut self, x: i32, y: i32, coordinate: Coordinate) -> (r: InputResult<()>)
        ensures
            final(self).calls() == old(self).calls().push(InputCall::MoveMouse(x, y, coordinate, r)),
    ;

    /// Send a mouse scroll event of `length` wheel clicks. Positive lengths
    /// scroll down or to the right, negative ones up or to the left.
    fn scroll(&mut self, length: i32, axis: Axis) -> (r: InputResult<()>)
        ensures
            final(self).calls() == old(self).calls().push(InputCall::Scroll(length, axis, r)),
    ;

    /// Get the (width, height) of the main display in pixels
    fn main_display(&mut self) -> (r: InputResult<(i32, i32)>)
        ensures
            final(self).calls() == old(self).calls().push(InputCall::MainDisplay(r)),
    ;

    /// Get the location of the mouse in pixels
    fn location(&mut self) -> (r: InputResult<(i32, i32)>)
        ensures
            final(self).calls() == old(self).calls().push(InputCall::Location(r)),
    ;
}

/// An instruction for an [`Agent`]
#[derive(Debug, Clone, PartialEq, Eq, Hash)]
pub enum Token {
    /// Call the [`Keyboard::text`] fn with the string as text
    Text(String),
    /// Call the [`Keyboard::key`] fn with the given key and direction
    Key(Key, Direction),
    /// Call the [`Keyboard::raw`] fn with the given keycode and direction
    Raw(u16, Direction),
    /// Call the [`Mouse::button`] fn with the given mouse button and direction
    Button(Button, Direction),
    /// Call the [`Mouse::move_mouse`] fn with the x and y values and whether
    /// they are absolute or relative to the current position
    MoveMouse(i32, i32, Coordinate),
    /// Call the [`Mouse::scroll`] fn
    Scroll(i32, Axis),
    /// Call the [`Mouse::location`] fn and compare the return values with
    /// the EXPECTED location of the mouse in this variant
    Location(i32, i32),
    /// Call the [`Mouse::main_display`] fn and compare the return values with
    /// the EXPECTED size of the main display in this variant
    MainDisplay(i32, i32),
}

/// What a query for a location or a size results in: its error, if any
pub open spec fn query_outcome(q: InputResult<(i32, i32)>) -> InputResult<()> {
    match q {
        Ok(_) => Ok(()),
        Err(e) => Err(e),
    }
}

/// `calls` are the input calls that executing `token` makes, and `r` its
/// result
pub open spec fn execute_calls(token: Token, calls: Seq<InputCall>, r: InputResult<()>) -> bool {
    match token {
        Token::Text(t) => text_calls(t@, calls, r),
        Token::Key(k, d) => calls == seq![InputCall::Key(k, d, r)],
        Token::Raw(c, d) => calls == seq![InputCall::Raw(c, d, r)],
        Token::Button(b, d) => calls == seq![InputCall::Button(b, d, r)],
        Token::MoveMouse(x, y, c) => calls == seq![InputCall::MoveMouse(x, y, c, r)],
        Token::Scroll(l, a) => calls == seq![InputCall::Scroll(l, a, r)],
        Token::Location(_, _) => calls.len() == 1 && (calls[0] matches InputCall::Location(q) && r
            == query_outcome(q)),
        Token::MainDisplay(_, _) => calls.len() == 1 && (calls[0] matches InputCall::MainDisplay(q) && r
            == query_outcome(q)),
    }
}

/// Something that can simulate both keyboard and mouse input
pub trait Agent: Keyboard + Mouse {
    /// Execute the action associated with the token. A [`Token::Text`] will
    /// enter text, a [`Token::Scroll`] will scroll and so forth. The
    /// [`Token::Location`] and [`Token::MainDisplay`] tokens only query the
    /// system once: they return its error, if there is one, and succeed
    /// otherwise, also when the values differ from the expected ones.
    fn execute(&mut self, token: &Token) -> (r: InputResult<()>)
        ensures
            final(self).calls().len() >= old(self).calls().len(),
            final(self).calls().take(old(self).calls().len() as int) == old(self).calls(),
            execute_calls(*token, final(self).calls().skip(old(self).calls().len() as int), r),
    {
        let ghost start = self.calls();
        match token {
            Token::Text(text) => self.text(text.as_str()),
            Token::Key(key, direction) => {
                let r = self.key(*key, *direction);
                assert(self.calls().take(start.len() as int) =~= start);
                assert(self.calls().skip(start.len() as int) =~= seq![InputCall::Key(*key, *direction, r)]);
                r
            },
            Token::Raw(keycode, direction) => {
                let r = self.raw(*keycode, *direction);
                assert(self.calls().take(start.len() as int) =~= start);
                assert(self.calls().skip(start.len() as int) =~= seq![InputCall::Raw(*keycode, *direction, r)]);
                r
            },
            Token::Button(button, direction) => {
                let r = self.button(*button, *direction);
                assert(self.calls().take(start.len() as int) =~= start);
                assert(self.calls().skip(start.len() as int) =~= seq![InputCall::Button(*button, *direction, r)]);
                r
            },
            Token::MoveMouse(x, y, coordinate) => {
                let r = self.move_mouse(*x, *y, *coordinate);
                assert(self.calls().take(start.len() as int) =~= start);
                assert(self.calls().skip(start.len() as int) =~= seq![InputCall::MoveMouse(*x, *y, *coordinate, r)]);
                r
            },
            Token::Scroll(length, axis) => {
                let r = self.scroll(*length, *axis);
                assert(self.calls().take(start.len() as int) =~= start);
                assert(self.calls().skip(start.len() as int) =~= seq![InputCall::Scroll(*length, *axis, r)]);
                r
            },
            Token::Location(_expected_x, _expected_y) => {
                let q = self.location();
                assert(self.calls().take(start.len() as int) =~= start);
                assert(self.calls().skip(start.len() as int) =~= seq![InputCall::Location(q)]);
                match q {
                    Ok(_) => Ok(()),
                    Err(e) => Err(e),
                }
            },
            Token::MainDisplay(_expected_width, _expected_height) => {
                let q = self.main_display();
                assert(self.calls().take(start.len() as int) =~= start);
                assert(self.calls().skip(start.len() as int) =~= seq![InputCall::MainDisplay(q)]);
                match q {
                    Ok(_) => Ok(()),
                    Err(e) => Err(e),
                }
            },
        }
    }
}

} // verus!
