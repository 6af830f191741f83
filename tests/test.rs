use std::str::FromStr;

use anyhow::{Context, Result};
use proc_macro2::{TokenStream, TokenTree};
use tern::t;

fn squash(text: String) -> String {
    text.chars().filter(|c| !c.is_whitespace()).collect()
}

fn expand(src: &str) -> String {
    squash(t(TokenStream::from_str(src).unwrap()).to_string())
}

fn render(src: &str) -> String {
    squash(TokenStream::from_str(src).unwrap().to_string())
}

#[test]
fn normal() {
    let a = 20;
    let b = 30;
    let c = 40;

    assert_eq!(expand("a > b ? b : c"), render("if a > b { b } else { c }"));
    let res = if a > b { b } else { c };
    assert_eq!(res, c);

    assert_eq!(expand("a>b?b:c"), render("if a > b { b } else { c }"));
    let res = if a > b { b } else { c };
    assert_eq!(res, c);
}

#[test]
fn negated() {
    let a = 20;
    let b = 30;
    let c = 40;

    assert_eq!(expand("!(a > b) ? b : c"), render("if !(a > b) { b } else { c }"));
    let res = if !(a > b) { b } else { c };
    assert_eq!(res, b);
}

#[test]
fn nested() {
    let a = 40;
    let b = 30;
    let c = 20;

    assert_eq!(
        expand("b > a ? b : t!(c > b ? c : a)"),
        render("if b > a { b } else { t!(c > b ? c : a) }")
    );
    assert_eq!(expand("c > b ? c : a"), render("if c > b { c } else { a }"));
    let res = if b > a { b } else { if c > b { c } else { a } };
    assert_eq!(res, a);

    assert_eq!(
        expand("b>a?b:t!(c>b?c:a)"),
        render("if b > a { b } else { t!(c>b?c:a) }")
    );
    assert_eq!(expand("c>b?c:a"), render("if c > b { c } else { a }"));
    let res = if b > a { b } else { if c > b { c } else { a } };
    assert_eq!(res, a);

    assert_eq!(
        expand(r#"b == a ? "b == a" : t!(b > a ? "b > a" : t!(c > b ? "c > b" : "other"))"#),
        render(r#"if b == a { "b == a" } else { t!(b > a ? "b > a" : t!(c > b ? "c > b" : "other")) }"#)
    );
    assert_eq!(
        expand(r#"b > a ? "b > a" : t!(c > b ? "c > b" : "other")"#),
        render(r#"if b > a { "b > a" } else { t!(c > b ? "c > b" : "other") }"#)
    );
    assert_eq!(
        expand(r#"c > b ? "c > b" : "other""#),
        render(r#"if c > b { "c > b" } else { "other" }"#)
    );
    let res = if b == a {
        "b == a"
    } else {
        if b > a {
            "b > a"
        } else {
            if c > b { "c > b" } else { "other" }
        }
    };
    assert_eq!(res, "other");
}

#[test]
fn complex_type() -> Result<()> {
    let v = vec![1, 3, 5, 7];

    assert_eq!(
        expand(r#"(*v.get(0).context("no first")?) == 1 ? "equals 1" : "not 1""#),
        render(r#"if (*v.get(0).context("no first")?) == 1 { "equals 1" } else { "not 1" }"#)
    );
    let res = if (*v.get(0).context("no first")?) == 1 { "equals 1" } else { "not 1" };

    assert_eq!(res, "equals 1");

    Ok(())
}

#[test]
fn paths() -> Result<()> {
    let v = vec![10, 3, 5, 7];

    assert_eq!(
        expand(r#"(*v.get(0).context("no first")?) == inner::NUM ? "equals 10" : "not 10""#),
        render(r#"if (*v.get(0).context("no first")?) == inner::NUM { "equals 10" } else { "not 10" }"#)
    );
    let res = if (*v.get(0).context("no first")?) == crate::NUM { "equals 10" } else { "not 10" };
    assert_eq!(res, "equals 10");

    assert_eq!(
        expand(
            r#"(*v.get(0).context("no first")? as inner::Test) == inner::NUM
            ? "equals 10"
            : "not 10""#
        ),
        render(
            r#"if (*v.get(0).context("no first")? as inner::Test) == inner::NUM { "equals 10" } else { "not 10" }"#
        )
    );
    let res = if (*v.get(0).context("no first")? as crate::Test) == crate::NUM {
        "equals 10"
    } else {
        "not 10"
    };
    assert_eq!(res, "equals 10");

    assert_eq!(
        expand(
            r#"(*v.get(0).context("no first")?) == <inner::Test as inner::Trait1>::new()
            ? "equals 10"
            : "not 10""#
        ),
        render(
            r#"if (*v.get(0).context("no first")?) == <inner::Test as inner::Trait1>::new() { "equals 10" } else { "not 10" }"#
        )
    );
    let res = if (*v.get(0).context("no first")?) == <crate::Test as crate::Trait1>::new() {
        "equals 10"
    } else {
        "not 10"
    };
    assert_eq!(res, "equals 10");

    Ok(())
}

type Test = usize;
const NUM: usize = 10;

trait Trait1 {
    fn new() -> usize;
}

impl Trait1 for Test {
    fn new() -> usize {
        10
    }
}
