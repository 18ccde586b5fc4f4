use vstd::prelude::*;
use vstd::string::*;
use crate::Choice;
use crate::style::{is_painted, render};
use crate::text::{trim, trimmed};

verus! {

/// An accepted answer to a yes/no prompt. Every other line is rejected and
/// the prompt is shown again.
#[derive(Clone, Copy, Debug, PartialEq, Eq, Structural)]
pub enum Answer {
    Yes,
    No,
    Empty,
}

/// The answer that a line gives once trimmed: empty, `y` or `n` in either
/// case; `None` for any other line.
pub open spec fn line_answer(line: Seq<char>) -> Option<Answer> {
    let t = trimmed(line);
    if t.len() == 0 {
        Some(Answer::Empty)
    } else if t == seq!['y'] || t == seq!['Y'] {
        Some(Answer::Yes)
    } else if t == seq!['n'] || t == seq!['N'] {
        Some(Answer::No)
    } else {
        None
    }
}

/// The value of an accepted answer; the empty answer takes the default.
pub open spec fn answer_value(a: Answer, default: bool) -> bool {
    match a {
        Answer::Yes => true,
        Answer::No => false,
        Answer::Empty => default,
    }
}

/// Reads a typed line as an answer, or rejects it.
pub fn parse_answer(line: &str) -> (r: Option<Answer>)
    ensures
        r == line_answer(line@),
{
    let t = trim(line);
    let n = t.unicode_len();
    if n == 0 {
        Some(Answer::Empty)
    } else if n == 1 {
        let c = t.get_char(0);
        assert(t@ =~= seq![c]);
        if c == 'y' || c == 'Y' {
            Some(Answer::Yes)
        } else if c == 'n' || c == 'N' {
            Some(Answer::No)
        } else {
            None
        }
    } else {
        assert(t@.len() != 1);
        None
    }
}

/// The value that a yes/no prompt returns for an accepted answer.
pub fn resolve(a: Answer, default: bool) -> (r: bool)
    ensures
        r == answer_value(a, default),
{
    match a {
        Answer::Yes => true,
        Answer::No => false,
        Answer::Empty => default,
    }
}

/// The text shown by a yes/no prompt: the whole prompt painted in the style,
/// or, without a style, the prompt trimmed.
pub fn prompt_text(prompt: &str, style: Option<Choice>) -> (r: String)
    ensures
        match style {
            Some(s) => is_painted(prompt@, r@),
            None => r@ == trimmed(prompt@),
        },
{
    match style {
        Some(s) => render(prompt, s),
        None => String::from_str(trim(prompt)),
    }
}

/// Runs a yes/no prompt over the lines typed in turn. The result is the
/// index of the first accepted line, which is also the number of times the
/// prompt was shown again, with the value returned; `None` when every line
/// is rejected and the prompt would still be waiting.
pub fn first_answer(lines: &Vec<String>, default: bool) -> (r: Option<(usize, bool)>)
    ensures
        match r {
            Some((i, v)) => {
                &&& i < lines@.len()
                &&& line_answer(lines@[i as int]@) is Some
                &&& v == answer_value(line_answer(lines@[i as int]@).unwrap(), default)
                &&& forall|j: int| 0 <= j < i ==> line_answer(#[trigger] lines@[j]@) is None
            },
            None => forall|j: int| 0 <= j < lines@.len() ==> line_answer(#[trigger] lines@[j]@) is None,
        },
{
    let mut i: usize = 0;
    while i < lines.len()
        invariant
            i <= lines@.len(),
            forall|j: int| 0 <= j < i ==> line_answer(#[trigger] lines@[j]@) is None,
        decreases lines@.len() - i,
    {
        match parse_answer(lines[i].as_str()) {
            Some(a) => {
                return Some((i, resolve(a, default)));
            },
            None => {},
        }
        i = i + 1;
    }
    None
}

} // verus!
