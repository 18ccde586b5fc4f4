use cumaea::boolean::{first_answer, parse_answer, prompt_text, resolve, Answer};
use cumaea::selection::{selection_line, selection_result};
use cumaea::style::{color_name_of, render, target_of};
use cumaea::{Choice, ChoiceColor};

const COLORS: [ChoiceColor; 8] = [
    ChoiceColor::Black,
    ChoiceColor::Red,
    ChoiceColor::Green,
    ChoiceColor::Yellow,
    ChoiceColor::Blue,
    ChoiceColor::Magenta,
    ChoiceColor::Cyan,
    ChoiceColor::White,
];

fn all_styles() -> Vec<Choice> {
    let mut v = Vec::new();
    for c in COLORS {
        v.push(Choice::Normal(c));
        v.push(Choice::On(c));
        v.push(Choice::Bright(c));
        v.push(Choice::OnBright(c));
    }
    v
}

fn lines(xs: &[&str]) -> Vec<String> {
    xs.iter().map(|s| s.to_string()).collect()
}

#[test]
fn yes_after_two_rejected_lines() {
    assert_eq!(first_answer(&lines(&["x", "q", "Y"]), false), Some((2, true)));
}

#[test]
fn empty_line_takes_default() {
    assert_eq!(first_answer(&lines(&[""]), false), Some((0, false)));
    assert_eq!(first_answer(&lines(&["   "]), true), Some((0, true)));
}

#[test]
fn no_ignores_default() {
    assert_eq!(first_answer(&lines(&["n"]), true), Some((0, false)));
    assert_eq!(first_answer(&lines(&["n"]), false), Some((0, false)));
}

#[test]
fn answers_ignore_case_and_white_space() {
    assert_eq!(parse_answer("Y"), Some(Answer::Yes));
    assert_eq!(parse_answer("y"), Some(Answer::Yes));
    assert_eq!(parse_answer("N"), Some(Answer::No));
    assert_eq!(parse_answer(" \tn \n"), Some(Answer::No));
    assert_eq!(parse_answer("\n"), Some(Answer::Empty));
    assert_eq!(parse_answer("yes"), None);
    assert_eq!(parse_answer("x"), None);
}

#[test]
fn reprompts_count_rejected_lines() {
    assert_eq!(first_answer(&lines(&["a", "bb", "yy", "no", "N", "y"]), true), Some((4, false)));
    assert_eq!(first_answer(&lines(&["a", "b"]), true), None);
    assert_eq!(first_answer(&lines(&[]), true), None);
}

#[test]
fn resolve_values() {
    assert!(resolve(Answer::Yes, false));
    assert!(!resolve(Answer::No, true));
    assert!(resolve(Answer::Empty, true));
    assert!(!resolve(Answer::Empty, false));
}

#[test]
fn selection_empty_gives_default_unchanged() {
    assert_eq!(selection_result("", "D"), "D");
    assert_eq!(selection_result("  \n", " De "), " De ");
}

#[test]
fn selection_input_is_trimmed() {
    assert_eq!(selection_result("  b  ", "D"), "b");
    assert_eq!(selection_result("anything at all\n", "D"), "anything at all");
}

#[test]
fn selection_line_without_style() {
    assert_eq!(
        selection_line("Choose", "(a)pples, (D)efault", None),
        "Choose: [(a)pples, (D)efault]: "
    );
    assert_eq!(selection_line("  Choose ", " x, y ", None), "Choose: [x, y]: ");
}

#[test]
fn selection_line_paints_only_choices() {
    colored::control::set_override(true);
    assert_eq!(
        selection_line(" Choose", "(a)pples", Some(Choice::Normal(ChoiceColor::Cyan))),
        " Choose: [\u{1b}[36m(a)pples\u{1b}[0m]: "
    );
}

#[test]
fn prompt_text_trims_without_style() {
    assert_eq!(prompt_text("  Approved? (Y/n) >>> ", None), "Approved? (Y/n) >>>");
}

#[test]
fn prompt_text_paints_whole_prompt() {
    colored::control::set_override(true);
    assert_eq!(
        prompt_text("Go? ", Some(Choice::Bright(ChoiceColor::Green))),
        "\u{1b}[92mGo? \u{1b}[0m"
    );
}

#[test]
fn render_applies_each_layer() {
    colored::control::set_override(true);
    assert_eq!(render("hi", Choice::Normal(ChoiceColor::Red)), "\u{1b}[31mhi\u{1b}[0m");
    assert_eq!(render("hi", Choice::On(ChoiceColor::Red)), "\u{1b}[41mhi\u{1b}[0m");
    assert_eq!(render("hi", Choice::Bright(ChoiceColor::Red)), "\u{1b}[91mhi\u{1b}[0m");
    assert_eq!(render("hi", Choice::OnBright(ChoiceColor::Red)), "\u{1b}[101mhi\u{1b}[0m");
}

#[test]
fn render_styles_distinct_and_deterministic() {
    colored::control::set_override(true);
    let styles = all_styles();
    let outs: Vec<String> = styles.iter().map(|s| render("text", *s)).collect();
    for (i, s) in styles.iter().enumerate() {
        assert!(outs[i].contains("text"));
        assert_eq!(render("text", *s), outs[i]);
        for j in 0..i {
            assert_ne!(outs[i], outs[j]);
        }
    }
}

#[test]
fn render_plain_when_colors_off() {
    colored::control::set_override(false);
    for s in all_styles() {
        assert_eq!(render("text", s), "text");
    }
}

#[test]
fn targets_are_distinct() {
    let styles = all_styles();
    for i in 0..styles.len() {
        for j in 0..i {
            assert_ne!(target_of(styles[i]), target_of(styles[j]));
        }
    }
    assert_eq!(target_of(Choice::OnBright(ChoiceColor::Blue)), (true, "bright blue"));
    assert_eq!(color_name_of(ChoiceColor::Magenta, false), "magenta");
}
