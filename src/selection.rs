use vstd::prelude::*;
use vstd::string::*;
use crate::Choice;
use crate::style::{is_painted, render};
use crate::text::{trim, trimmed};

verus! {

/// `prompt: [choices]: `, the line that a selection prompt shows.
pub open spec fn compose(prompt: Seq<char>, choices: Seq<char>) -> Seq<char> {
    prompt + ": ["@ + choices + "]: "@
}

/// What a selection prompt returns for a typed line: the line trimmed, or
/// the default exactly as given when nothing but white space was typed.
pub open spec fn selection_value(input: Seq<char>, default: Seq<char>) -> Seq<char> {
    if trimmed(input).len() == 0 {
        default
    } else {
        trimmed(input)
    }
}

/// The line shown by a selection prompt. With a style only the choices are
/// painted and the prompt is kept as given; without one both are trimmed.
pub fn selection_line(prompt: &str, choices: &str, style: Option<Choice>) -> (r: String)
    ensures
        match style {
            Some(s) => exists|c: Seq<char>| is_painted(choices@, c) && r@ == compose(prompt@, c),
            None => r@ == compose(trimmed(prompt@), trimmed(choices@)),
        },
{
    let mut line = match style {
        Some(_) => String::from_str(prompt),
        None => String::from_str(trim(prompt)),
    };
    line.append(": [");
    match style {
        Some(s) => {
            let painted = render(choices, s);
            line.append(painted.as_str());
            line.append("]: ");
            assert(is_painted(choices@, painted@) && line@ == compose(prompt@, painted@));
        },
        None => {
            line.append(trim(choices));
            line.append("]: ");
        },
    }
    line
}

/// The value a selection prompt returns for the line typed. Any line is
/// accepted; the choices are not checked.
pub fn selection_result(input: &str, default: &str) -> (r: String)
    ensures
        r@ == selection_value(input@, default@),
{
    let t = trim(input);
    if t.unicode_len() == 0 {
        String::from_str(default)
    } else {
        String::from_str(t)
    }
}

} // verus!
