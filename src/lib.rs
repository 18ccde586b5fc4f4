//! Prompting for user input on a terminal.
//!
//! The library holds the decisions of each prompt: what line is shown, how a
//! typed line is read as an answer, and what is returned. Writing, flushing
//! and reading the terminal stay with the caller.
use vstd::prelude::*;

pub mod text;
pub mod style;
pub mod boolean;
pub mod selection;

verus! {

/// The eight base colors that a prompt can be painted in.
#[derive(Clone, Copy, Debug, PartialEq, Eq, Structural)]
pub enum ChoiceColor {
    Black,
    Red,
    Green,
    Yellow,
    Blue,
    Magenta,
    Cyan,
    White,
}

/// How a color is applied: as the text color or as its background, each in
/// the plain or the bright shade.
#[derive(Clone, Copy, Debug, PartialEq, Eq, Structural)]
pub enum Choice {
    Normal(ChoiceColor),
    On(ChoiceColor),
    Bright(ChoiceColor),
    OnBright(ChoiceColor),
}

} // verus!
