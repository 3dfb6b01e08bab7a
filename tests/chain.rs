use std::str::FromStr;
use wasn::chain::{next_step, result_line, split_line};
use wasn::number::normalize;
use wasn::{ErrorCode, Operator};

#[test]
fn split_blank_line_ends() {
    assert_eq!(split_line(""), None);
    assert_eq!(split_line("   \t "), None);
}

#[test]
fn split_two_tokens() {
    assert_eq!(split_line("+ 5"), Some(("+", "5")));
    assert_eq!(split_line("  plus \t 3,5  "), Some(("plus", "3,5")));
    assert_eq!(split_line("cat dog"), Some(("cat", "dog")));
}

#[test]
fn split_joined_tokens() {
    assert_eq!(split_line("+5"), Some(("+", "5")));
    assert_eq!(split_line("mal2,5"), Some(("mal", "2,5")));
    assert_eq!(split_line("*.5"), Some(("*", ".5")));
    assert_eq!(split_line(" **3 "), Some(("**", "3")));
}

#[test]
fn split_leading_digit_ends() {
    assert_eq!(split_line("5"), None);
    assert_eq!(split_line(".5"), None);
}

#[test]
fn split_without_operand_ends() {
    assert_eq!(split_line("plus"), None);
    assert_eq!(split_line("-"), None);
}

#[test]
fn split_too_many_tokens_ends() {
    assert_eq!(split_line("+ 5 6"), None);
    assert_eq!(split_line("a b c d"), None);
}

#[test]
fn split_sign_stays_with_operator() {
    assert_eq!(split_line("-5"), Some(("-", "5")));
    assert_eq!(split_line("+-5"), Some(("+-", "5")));
    assert_eq!(split_line(",5"), Some((",", "5")));
}

#[test]
fn split_unicode_whitespace() {
    assert_eq!(split_line("\u{3000}+\u{a0}5\u{2009}"), Some(("+", "5")));
}

#[test]
fn step_applies_operator() {
    let step = next_step("*4").unwrap();
    assert_eq!(step, Some((Operator::Mul, "4")));
    assert_eq!(next_step("durch 2").unwrap(), Some((Operator::Div, "2")));
}

#[test]
fn step_ends_on_blank_or_unsplittable() {
    assert_eq!(next_step("").unwrap(), None);
    assert_eq!(next_step("+ 1 2").unwrap(), None);
    assert_eq!(next_step("12").unwrap(), None);
}

#[test]
fn step_rejects_unknown_operator() {
    let e = next_step("cat 5").unwrap_err();
    assert_eq!(e.code(), ErrorCode::CannotParseOperator);
    assert_eq!(e.message(), "unable to parse operator: cat");
}

#[test]
fn result_line_format() {
    assert_eq!(result_line("3", Operator::Add, "2", "5"), "3 + 2 = 5");
    assert_eq!(result_line("2", Operator::parse("hoch").unwrap(), "3", "8"), "2 ^ 3 = 8");
}

#[test]
fn comma_and_point_operands_add_up() {
    let a = f64::from_str(&normalize("1.2")).unwrap();
    let b = f64::from_str(&normalize("1,2")).unwrap();
    assert_eq!(a, b);
    let op = Operator::parse("+").unwrap();
    let line = result_line(&a.to_string(), op, &b.to_string(), &(a + b).to_string());
    assert_eq!(line, "1.2 + 1.2 = 2.4");
}

#[test]
fn chained_session() {
    let a = f64::from_str(&normalize("3")).unwrap();
    let b = f64::from_str(&normalize("2")).unwrap();
    let r = a + b;
    assert_eq!(result_line(&a.to_string(), Operator::Add, &b.to_string(), &r.to_string()), "3 + 2 = 5");
    let (op, operand) = next_step("*4").unwrap().unwrap();
    assert_eq!(op, Operator::Mul);
    let b2 = f64::from_str(&normalize(operand)).unwrap();
    let r2 = r * b2;
    assert_eq!(result_line(&r.to_string(), op, &b2.to_string(), &r2.to_string()), "5 * 4 = 20");
    assert_eq!(next_step("").unwrap(), None);
}

#[test]
fn division_by_zero_prints_infinity() {
    let a = f64::from_str(&normalize("10")).unwrap();
    let b = f64::from_str(&normalize("0")).unwrap();
    let op = Operator::parse("/").unwrap();
    let line = result_line(&a.to_string(), op, &b.to_string(), &(a / b).to_string());
    assert_eq!(line, "10 / 0 = inf");
}
