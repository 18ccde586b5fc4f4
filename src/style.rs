use vstd::prelude::*;
use colored::Colorize;
use crate::{Choice, ChoiceColor};

verus! {

/// The name under which the painting library knows a color, in its plain or
/// bright shade.
pub open spec fn color_name(c: ChoiceColor, bright: bool) -> Seq<char> {
    match (c, bright) {
        (ChoiceColor::Black, false) => "black"@,
        (ChoiceColor::Red, false) => "red"@,
        (ChoiceColor::Green, false) => "green"@,
        (ChoiceColor::Yellow, false) => "yellow"@,
        (ChoiceColor::Blue, false) => "blue"@,
        (ChoiceColor::Magenta, false) => "magenta"@,
        (ChoiceColor::Cyan, false) => "cyan"@,
        (ChoiceColor::White, false) => "white"@,
        (ChoiceColor::Black, true) => "bright black"@,
        (ChoiceColor::Red, true) => "bright red"@,
        (ChoiceColor::Green, true) => "bright green"@,
        (ChoiceColor::Yellow, true) => "bright yellow"@,
        (ChoiceColor::Blue, true) => "bright blue"@,
        (ChoiceColor::Magenta, true) => "bright magenta"@,
        (ChoiceColor::Cyan, true) => "bright cyan"@,
        (ChoiceColor::White, true) => "bright white"@,
    }
}

/// Where a style puts its color (`true`: the background) and which color it is.
pub open spec fn style_target(s: Choice) -> (bool, Seq<char>) {
    match s {
        Choice::Normal(c) => (false, color_name(c, false)),
        Choice::On(c) => (true, color_name(c, false)),
        Choice::Bright(c) => (false, color_name(c, true)),
        Choice::OnBright(c) => (true, color_name(c, true)),
    }
}

/// The sequence that ends a painted span.
pub open spec fn reset_code() -> Seq<char> {
    seq!['\u{1b}', '[', '0', 'm']
}

/// `r` is `text` as painting may leave it: unchanged where the terminal
/// takes no colors, else opened by an escape sequence and, for a text that
/// holds no escape character of its own, ending in the text and the reset.
pub open spec fn is_painted(text: Seq<char>, r: Seq<char>) -> bool {
    r == text || (r.len() > 0 && r[0] == '\u{1b}' && (!text.contains('\u{1b}') ==> exists|p: Seq<char>|
        r == p + text + reset_code()))
}

/// The painting library's name for a color.
pub fn color_name_of(c: ChoiceColor, bright: bool) -> (r: &'static str)
    ensures
        r@ == color_name(c, bright),
{
    match (c, bright) {
        (ChoiceColor::Black, false) => "black",
        (ChoiceColor::Red, false) => "red",
        (ChoiceColor::Green, false) => "green",
        (ChoiceColor::Yellow, false) => "yellow",
        (ChoiceColor::Blue, false) => "blue",
        (ChoiceColor::Magenta, false) => "magenta",
        (ChoiceColor::Cyan, false) => "cyan",
        (ChoiceColor::White, false) => "white",
        (ChoiceColor::Black, true) => "bright black",
        (ChoiceColor::Red, true) => "bright red",
        (ChoiceColor::Green, true) => "bright green",
        (ChoiceColor::Yellow, true) => "bright yellow",
        (ChoiceColor::Blue, true) => "bright blue",
        (ChoiceColor::Magenta, true) => "bright magenta",
        (ChoiceColor::Cyan, true) => "bright cyan",
        (ChoiceColor::White, true) => "bright white",
    }
}

/// Where a style puts its color and which color it is.
pub fn target_of(s: Choice) -> (r: (bool, &'static str))
    ensures
        (r.0, r.1@) == style_target(s),
{
    match s {
        Choice::Normal(c) => (false, color_name_of(c, false)),
        Choice::On(c) => (true, color_name_of(c, false)),
        Choice::Bright(c) => (false, color_name_of(c, true)),
        Choice::OnBright(c) => (true, color_name_of(c, true)),
    }
}

/// Relies on `colored::Colorize::color`, which parses the color from its
/// name, and the `Display` of the `ColoredString` it returns: the text as is
/// where colors are off, else style codes, the text (inner resets escaped)
/// and the reset sequence. Colors are assumed not to be switched on or off
/// from another thread while it formats.
#[verifier::external_body]
fn paint_text(text: &str, color: &str) -> (r: String)
    ensures
        is_painted(text@, r@),
{
    text.color(color).to_string()
}

/// Relies on `colored::Colorize::on_color` and the `Display` of the
/// `ColoredString` it returns, as `paint_text` does.
#[verifier::external_body]
fn paint_background(text: &str, color: &str) -> (r: String)
    ensures
        is_painted(text@, r@),
{
    text.on_color(color).to_string()
}

/// Paints `text` in the style `s`. Whether escape codes are written depends
/// on the terminal and its environment; the text itself is always kept.
pub fn render(text: &str, s: Choice) -> (r: String)
    ensures
        is_painted(text@, r@),
{
    let (background, color) = target_of(s);
    if background {
        paint_background(text, color)
    } else {
        paint_text(text, color)
    }
}

/// No two colors, in either shade, share a name.
proof fn lemma_color_names_distinct(c1: ChoiceColor, b1: bool, c2: ChoiceColor, b2: bool)
    requires
        c1 != c2 || b1 != b2,
    ensures
        color_name(c1, b1) != color_name(c2, b2),
{
    reveal_strlit("black");
    reveal_strlit("red");
    reveal_strlit("green");
    reveal_strlit("yellow");
    reveal_strlit("blue");
    reveal_strlit("magenta");
    reveal_strlit("cyan");
    reveal_strlit("white");
    reveal_strlit("bright black");
    reveal_strlit("bright red");
    reveal_strlit("bright green");
    reveal_strlit("bright yellow");
    reveal_strlit("bright blue");
    reveal_strlit("bright magenta");
    reveal_strlit("bright cyan");
    reveal_strlit("bright white");
    let n1 = color_name(c1, b1);
    let n2 = color_name(c2, b2);
    if n1 == n2 {
        assert(n1.len() == n2.len());
        assert(n1[0] == n2[0]);
        if n1.len() > 7 {
            assert(n1[7] == n2[7]);
        }
    }
}

/// Distinct styles hand distinct colors, or the same color to a different
/// layer, to the painting library.
pub proof fn lemma_style_targets_distinct(a: Choice, b: Choice)
    requires
        a != b,
    ensures
        style_target(a) != style_target(b),
{
    match (a, b) {
        (Choice::Normal(x), Choice::Normal(y)) => lemma_color_names_distinct(x, false, y, false),
        (Choice::On(x), Choice::On(y)) => lemma_color_names_distinct(x, false, y, false),
        (Choice::Bright(x), Choice::Bright(y)) => lemma_color_names_distinct(x, true, y, true),
        (Choice::OnBright(x), Choice::OnBright(y)) => lemma_color_names_distinct(x, true, y, true),
        (Choice::Normal(x), Choice::Bright(y)) => lemma_color_names_distinct(x, false, y, true),
        (Choice::Bright(x), Choice::Normal(y)) => lemma_color_names_distinct(x, true, y, false),
        (Choice::On(x), Choice::OnBright(y)) => lemma_color_names_distinct(x, false, y, true),
        (Choice::OnBright(x), Choice::On(y)) => lemma_color_names_distinct(x, true, y, false),
        _ => {},
    }
}

} // verus!
