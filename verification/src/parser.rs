//! A first sketch of the tag language: text is echoed, `{{` and `}}` stand
//! for braces, and a tag in braces is reported as a shift change or as
//! unknown.

use vstd::prelude::*;

use crate::text::{chars_of, push_char, push_str};

verus! {

broadcast use vstd::string::group_string_axioms;

/// What the sketch reports for a tag
pub open spec fn tag_report(tag: Seq<char>) -> Seq<char> {
    if tag == "+SHIFT"@ {
        "\n> shift on\n"@
    } else if tag == "-SHIFT"@ {
        "\n> shift off\n"@
    } else {
        "\n> unknown\n"@
    }
}

/// The state of the sketch: the tag being read, if any, whether the last
/// character opened a brace and whether a lone closing brace was seen
pub type SketchState = (Option<Seq<char>>, bool, bool);

/// A character that is not a brace goes into the tag being read, if any,
/// and is reported otherwise
pub open spec fn take_char(tag: Option<Seq<char>>, c: char) -> (Option<Seq<char>>, Seq<char>) {
    match tag {
        Some(t) => (Some(t.push(c)), Seq::empty()),
        None => (None, seq![c]),
    }
}

/// One character: the new state and the text it reports
pub open spec fn sketch_step(st: SketchState, c: char) -> (SketchState, Seq<char>) {
    let (tag, open, close) = st;
    if c == '{' && !open {
        // a brace opens a tag, or is the first of `{{`
        ((tag, true, close), Seq::empty())
    } else if c == '{' {
        // `{{` stands for a brace
        let (t, out) = take_char(tag, c);
        ((t, false, close), out)
    } else {
        // any other character after an opening brace starts a tag
        let tag = if open && tag is None {
            Some(Seq::<char>::empty())
        } else {
            tag
        };
        if c == '}' && close {
            // the brace after a lone closing brace is dropped
            ((tag, false, false), Seq::empty())
        } else if c == '}' && tag is Some {
            // a closing brace ends the tag and reports it
            ((None, false, false), tag_report(tag->0))
        } else if c == '}' {
            // a lone closing brace is echoed
            ((None, false, true), seq!['}'])
        } else {
            let (t, out) = take_char(tag, c);
            ((t, false, close), out)
        }
    }
}

/// The state after the characters and the text they report
pub open spec fn sketch_run(s: Seq<char>) -> (SketchState, Seq<char>)
    decreases s.len(),
{
    if s.len() == 0 {
        ((None, false, false), Seq::empty())
    } else {
        let (st, out) = sketch_run(s.drop_last());
        let (st2, more) = sketch_step(st, s.last());
        (st2, out + more)
    }
}

/// Whether the characters of `v` are those of `s`
fn chars_are(v: &Vec<char>, s: &str) -> (r: bool)
    ensures
        r == (v@ == s@),
{
    let w = chars_of(s);
    if v.len() != w.len() {
        return false;
    }
    let mut i: usize = 0;
    while i < v.len()
        invariant
            w@ == s@,
            v@.len() == w@.len(),
            i <= v@.len(),
            forall|k: int| 0 <= k < i ==> v@[k] == w@[k],
        decreases v@.len() - i,
    {
        if v[i] != w[i] {
            return false;
        }
        i = i + 1;
    }
    assert(v@ =~= s@);
    true
}

/// The text that the sketch reports for a string: the characters outside
/// tags, and a line for every tag
pub fn parse(string: &str) -> (r: String)
    ensures
        r@ == sketch_run(string@).1,
{
    let chars = chars_of(string);
    let mut out = String::new();
    let mut capture: Option<Vec<char>> = None;
    let mut escape_open = false;
    let mut escape_close = false;
    let mut i: usize = 0;
    while i < chars.len()
        invariant
            chars@ == string@,
            i <= chars@.len(),
            ({
                let (st, text) = sketch_run(chars@.take(i as int));
                &&& out@ == text
                &&& st.0 == match capture {
                    Some(v) => Some(v@),
                    None => None::<Seq<char>>,
                }
                &&& st.1 == escape_open
                &&& st.2 == escape_close
            }),
        decreases chars@.len() - i,
    {
        let c = chars[i];
        proof {
            assert(chars@.take(i + 1).drop_last() =~= chars@.take(i as int));
            assert(chars@.take(i + 1).last() == c);
        }
        let ghost before = out@;
        if !escape_open && c == '{' {
            escape_open = true;
            assert(out@ =~= before + Seq::<char>::empty());
        } else {
            if escape_open && c != '{' && capture.is_none() {
                capture = Some(Vec::new());
            }
            escape_open = false;
            if c == '}' && escape_close {
                escape_close = false;
                assert(out@ =~= before + Seq::<char>::empty());
            } else if c == '}' && capture.is_some() {
                let tag = capture.unwrap();
                if chars_are(&tag, "+SHIFT") {
                    push_str(&mut out, "\n> shift on\n");
                } else if chars_are(&tag, "-SHIFT") {
                    push_str(&mut out, "\n> shift off\n");
                } else {
                    push_str(&mut out, "\n> unknown\n");
                }
                capture = None;
            } else {
                if c == '}' {
                    escape_close = true;
                }
                match capture {
                    Some(mut t) => {
                        t.push(c);
                        capture = Some(t);
                        assert(out@ =~= before + Seq::<char>::empty());
                    },
                    None => {
                        push_char(&mut out, c);
                        assert(out@ =~= before + seq![c]);
                    },
                }
            }
        }
        i = i + 1;
    }
    assert(chars@.take(chars@.len() as int) =~= chars@);
    out
}

/// Text without braces is echoed unchanged and leaves the sketch in its
/// initial state
pub proof fn lemma_plain_text_echoes(s: Seq<char>)
    requires
        forall|i: int| 0 <= i < s.len() ==> s[i] != '{' && s[i] != '}',
    ensures
        sketch_run(s) == ((None::<Seq<char>>, false, false), s),
    decreases s.len(),
{
    if s.len() > 0 {
        lemma_plain_text_echoes(s.drop_last());
        assert(Seq::<char>::empty() + s.drop_last() =~= s.drop_last());
        assert(s.drop_last() + seq![s.last()] =~= s);
    }
}

} // verus!
