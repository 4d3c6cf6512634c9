use enigo::x11::scroll_by_clicks;
use enigo::{
    Agent, InputCall, Axis, Button, Coordinate, Direction, InputError, InputLog, InputResult, Key, Keyboard,
    Mouse, Token,
};

/// Records the calls it serves; fast text entry is optional and a key can
/// be made to fail
struct Fake {
    fast: bool,
    failing_key: Option<Key>,
    failing_clicks_after: Option<usize>,
    log: Vec<String>,
}

impl Fake {
    fn new(fast: bool) -> Self {
        Fake { fast, failing_key: None, failing_clicks_after: None, log: Vec::new() }
    }
}

impl InputLog for Fake {
    fn calls(&self) -> vstd::seq::Seq<InputCall> {
        unreachable!("the record of input calls exists for verification only")
    }
}

impl Keyboard for Fake {
    fn fast_text(&mut self, text: &str) -> InputResult<Option<()>> {
        self.log.push(format!("fast {text}"));
        Ok(if self.fast { Some(()) } else { None })
    }

    fn key(&mut self, key: Key, direction: Direction) -> InputResult<()> {
        self.log.push(format!("key {key:?} {direction:?}"));
        if Some(key) == self.failing_key {
            return Err(InputError::Simulate("key failed"));
        }
        Ok(())
    }

    fn raw(&mut self, keycode: u16, direction: Direction) -> InputResult<()> {
        self.log.push(format!("raw {keycode} {direction:?}"));
        Ok(())
    }
}

impl Mouse for Fake {
    fn button(&mut self, button: Button, direction: Direction) -> InputResult<()> {
        self.log.push(format!("button {button:?} {direction:?}"));
        if Some(self.log.len()) == self.failing_clicks_after.map(|n| n + 1) {
            return Err(InputError::Simulate("button failed"));
        }
        Ok(())
    }

    fn move_mouse(&mut self, x: i32, y: i32, coordinate: Coordinate) -> InputResult<()> {
        self.log.push(format!("move {x} {y} {coordinate:?}"));
        Ok(())
    }

    fn scroll(&mut self, length: i32, axis: Axis) -> InputResult<()> {
        self.log.push(format!("scroll {length} {axis:?}"));
        Ok(())
    }

    fn main_display(&mut self) -> InputResult<(i32, i32)> {
        Ok((1920, 1080))
    }

    fn location(&mut self) -> InputResult<(i32, i32)> {
        Err(InputError::Simulate("no location"))
    }
}

impl Agent for Fake {}

#[test]
fn text_uses_fast_entry_when_available() {
    let mut f = Fake::new(true);
    assert_eq!(f.text("hi"), Ok(()));
    assert_eq!(f.log, vec!["fast hi".to_string()]);
}

#[test]
fn text_falls_back_to_clicks() {
    let mut f = Fake::new(false);
    assert_eq!(f.text("hi"), Ok(()));
    assert_eq!(
        f.log,
        vec![
            "fast hi".to_string(),
            "key Unicode('h') Click".to_string(),
            "key Unicode('i') Click".to_string(),
        ]
    );
}

#[test]
fn text_stops_at_the_first_failing_character() {
    let mut f = Fake::new(false);
    f.failing_key = Some(Key::Unicode('b'));
    assert_eq!(f.text("abc"), Err(InputError::Simulate("key failed")));
    assert_eq!(
        f.log,
        vec![
            "fast abc".to_string(),
            "key Unicode('a') Click".to_string(),
            "key Unicode('b') Click".to_string(),
        ]
    );
}

#[test]
fn empty_text_does_nothing() {
    let mut f = Fake::new(true);
    assert_eq!(f.text(""), Ok(()));
    assert!(f.log.is_empty());
}

#[test]
fn tokens_are_executed() {
    let mut f = Fake::new(true);
    assert_eq!(f.execute(&Token::Key(Key::Tab, Direction::Press)), Ok(()));
    assert_eq!(f.execute(&Token::Raw(38, Direction::Release)), Ok(()));
    assert_eq!(f.execute(&Token::Button(Button::Right, Direction::Click)), Ok(()));
    assert_eq!(f.execute(&Token::MoveMouse(3, -4, Coordinate::Rel)), Ok(()));
    assert_eq!(f.execute(&Token::Scroll(-2, Axis::Horizontal)), Ok(()));
    assert_eq!(f.execute(&Token::Text("ok".to_string())), Ok(()));
    assert_eq!(f.execute(&Token::MainDisplay(1, 1)), Ok(()));
    assert_eq!(
        f.execute(&Token::Location(0, 0)),
        Err(InputError::Simulate("no location"))
    );
    assert_eq!(
        f.log,
        vec![
            "key Tab Press".to_string(),
            "raw 38 Release".to_string(),
            "button Right Click".to_string(),
            "move 3 -4 Rel".to_string(),
            "scroll -2 Horizontal".to_string(),
            "fast ok".to_string(),
        ]
    );
}

#[test]
fn scrolling_clicks_the_wheel_button() {
    let mut f = Fake::new(true);
    assert_eq!(scroll_by_clicks(&mut f, -3, Axis::Vertical), Ok(()));
    assert_eq!(scroll_by_clicks(&mut f, 0, Axis::Horizontal), Ok(()));
    assert_eq!(scroll_by_clicks(&mut f, 1, Axis::Horizontal), Ok(()));
    assert_eq!(
        f.log,
        vec![
            "button ScrollUp Click".to_string(),
            "button ScrollUp Click".to_string(),
            "button ScrollUp Click".to_string(),
            "button ScrollRight Click".to_string(),
        ]
    );
}

#[test]
fn scrolling_stops_at_the_first_failed_click() {
    let mut f = Fake::new(true);
    f.failing_clicks_after = Some(1);
    assert_eq!(
        scroll_by_clicks(&mut f, 5, Axis::Vertical),
        Err(InputError::Simulate("button failed"))
    );
    assert_eq!(
        f.log,
        vec!["button ScrollDown Click".to_string(), "button ScrollDown Click".to_string()]
    );
}
