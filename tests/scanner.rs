use std::str::FromStr;

use proc_macro2::{TokenStream, TokenTree};
use tern::scan::{scan_condition, scan_true_branch, split_ternary, Clause, Split, TernaryError, TokenKind};
use tern::ternary::{split_segments, t, Ternary};

use TokenKind::{Group, Other, Punct};

fn trees(src: &str) -> Vec<TokenTree> {
    TokenStream::from_str(src).unwrap().into_iter().collect()
}

fn parse_error(src: &str) -> Option<TernaryError> {
    Ternary::parse(trees(src)).err()
}

fn squash(text: String) -> String {
    text.chars().filter(|c| !c.is_whitespace()).collect()
}

fn expand(src: &str) -> String {
    squash(t(TokenStream::from_str(src).unwrap()).to_string())
}

fn expand_raw(src: &str) -> String {
    t(TokenStream::from_str(src).unwrap()).to_string()
}

fn render(src: &str) -> String {
    squash(TokenStream::from_str(src).unwrap().to_string())
}

#[test]
fn split_plain() {
    let kinds = vec![Other, Punct('>'), Other, Punct('?'), Other, Punct(':'), Other];
    assert_eq!(split_ternary(&kinds), Ok(Split { question: 3, colon: 5 }));
}

#[test]
fn split_try_operator_before_separator() {
    let kinds = vec![Other, Group, Punct('?'), Punct('?'), Other, Punct(':'), Other];
    assert_eq!(split_ternary(&kinds), Ok(Split { question: 3, colon: 5 }));
    assert_eq!(expand("f()?? 1 : 2"), render("if f()? { 1 } else { 2 }"));
}

#[test]
fn split_path_in_true_branch() {
    let kinds = vec![Other, Punct('?'), Other, Punct(':'), Punct(':'), Other, Punct(':'), Other];
    assert_eq!(split_ternary(&kinds), Ok(Split { question: 1, colon: 6 }));
    assert_eq!(expand("c ? a::B : d"), render("if c { a::B } else { d }"));
    assert_eq!(
        expand("c ? <u8 as Default>::default() : 1"),
        render("if c { <u8 as Default>::default() } else { 1 }")
    );
}

#[test]
fn group_contents_are_opaque() {
    let kinds = vec![Group, Punct('?'), Group, Punct(':'), Group];
    assert_eq!(split_ternary(&kinds), Ok(Split { question: 1, colon: 3 }));
    assert_eq!(
        expand("m!(a ? b : c) ? n![x ? y : z] : o!{p ? q : r}"),
        render("if m!(a ? b : c) { n![x ? y : z] } else { o!{p ? q : r} }")
    );
}

#[test]
fn whitespace_does_not_matter() {
    assert_eq!(expand("a > b ? b : c"), expand("a>b?b:c"));
    assert_eq!(split_ternary(&vec![Other, Punct('>'), Other, Punct('?'), Other, Punct(':'), Other]).ok(), Some(Split { question: 3, colon: 5 }));
}

#[test]
fn missing_false_clause() {
    let kinds = vec![Other, Punct('>'), Other, Punct('?'), Other];
    assert_eq!(split_ternary(&kinds), Err(TernaryError::UnterminatedSegment(Clause::TrueBranch)));
    assert_eq!(parse_error("a > b ? b"), Some(TernaryError::UnterminatedSegment(Clause::TrueBranch)));
    assert!(expand_raw("a > b ? b").contains("expected `:` after the true branch"));
}

#[test]
fn missing_question_mark() {
    assert_eq!(split_ternary(&vec![]), Err(TernaryError::UnterminatedSegment(Clause::Condition)));
    assert_eq!(parse_error(""), Some(TernaryError::UnterminatedSegment(Clause::Condition)));
    assert_eq!(parse_error("a > b"), Some(TernaryError::UnterminatedSegment(Clause::Condition)));
    assert_eq!(parse_error("x?? a : b ??"), None);
    assert_eq!(parse_error("x ??"), Some(TernaryError::UnterminatedSegment(Clause::TrueBranch)));
}

#[test]
fn malformed_clauses() {
    assert_eq!(parse_error("? a : b"), Some(TernaryError::MalformedExpression(Clause::Condition)));
    assert_eq!(parse_error("a ? : b"), Some(TernaryError::MalformedExpression(Clause::TrueBranch)));
    assert_eq!(parse_error("a ? b :"), Some(TernaryError::MalformedExpression(Clause::FalseBranch)));
    assert_eq!(parse_error("a ? b : c d"), Some(TernaryError::MalformedExpression(Clause::FalseBranch)));
    assert_eq!(parse_error("a + ? b : c"), Some(TernaryError::MalformedExpression(Clause::Condition)));
    assert!(parse_error("a ? b : c").is_none());
}

#[test]
fn scanners_start_where_asked() {
    let kinds = vec![Punct('?'), Other, Punct('?'), Other, Punct(':'), Punct(':'), Punct(':')];
    assert_eq!(scan_condition(&kinds, 0), Some(0));
    assert_eq!(scan_condition(&kinds, 1), Some(2));
    assert_eq!(scan_condition(&kinds, 3), None);
    assert_eq!(scan_true_branch(&kinds, 0), Some(6));
    assert_eq!(scan_true_branch(&kinds, 5), None);
    assert_eq!(scan_true_branch(&kinds, 6), Some(6));
    assert_eq!(scan_true_branch(&kinds, 7), None);
}

#[test]
fn segments_drop_the_separators() {
    let tokens = vec![1, 2, 3, 4, 5, 6, 7];
    let (c, t, f) = split_segments(tokens, Split { question: 2, colon: 4 });
    assert_eq!(c, vec![1, 2]);
    assert_eq!(t, vec![4]);
    assert_eq!(f, vec![6, 7]);
    let (c, t, f) = split_segments(vec![1, 2, 3], Split { question: 0, colon: 1 });
    assert!(c.is_empty());
    assert!(t.is_empty());
    assert_eq!(f, vec![3]);
}

#[test]
fn error_messages_name_the_clause() {
    assert_eq!(TernaryError::UnterminatedSegment(Clause::Condition).message(), "expected `?` after the condition");
    assert_eq!(TernaryError::MalformedExpression(Clause::FalseBranch).message(), "the false branch is not an expression");
    assert!(expand_raw("a > b").contains("expected `?` after the condition"));
    assert!(expand_raw("a ? b : c d").contains("the false branch is not an expression"));
}
