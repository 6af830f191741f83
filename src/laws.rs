use proc_macro2::{Span, TokenStream, TokenTree};
use vstd::prelude::*;

use crate::scan::{
    colon_from, ends_condition, is_punct, question_from, ternary_split, TernaryError, TokenKind,
};
use crate::ternary::{
    expansion, expr_of, kind_of, kinds_of, message_text, parse_outcome, parses_as_expr,
    segments_outcome, ternary_output, trees_in,
};

verus! {

/// No `?` of the condition ends it early: each one is followed by another `?`,
/// or is the last token and so followed by the separator.
pub open spec fn condition_unambiguous(c: Seq<TokenKind>) -> bool {
    forall|j: int|
        0 <= j < c.len() && is_punct(#[trigger] c[j], '?') && j + 1 < c.len() ==> is_punct(
            c[j + 1],
            '?',
        )
}

/// No `:` of the true branch ends it early: every one is part of a `::` pair,
/// and the branch does not begin with `?`, which would swallow the separator.
pub open spec fn branch_unambiguous(t: Seq<TokenKind>) -> bool {
    colon_from(t, 0) is None && (t.len() > 0 ==> !is_punct(t[0], '?'))
}

pub open spec fn no_punct(s: Seq<TokenKind>, c: char) -> bool {
    forall|j: int| 0 <= j < s.len() ==> !is_punct(#[trigger] s[j], c)
}

/// `condition ? if_true : if_false` as one token sequence.
pub open spec fn ternary_tokens(c: Seq<TokenKind>, t: Seq<TokenKind>, f: Seq<TokenKind>) -> Seq<
    TokenKind,
> {
    c + seq![TokenKind::Punct('?')] + t + seq![TokenKind::Punct(':')] + f
}

proof fn lemma_question_reaches(s: Seq<TokenKind>, i: nat, k: nat)
    requires
        i <= k,
        ends_condition(s, k as int),
        forall|j: int| i <= j < k ==> !ends_condition(s, j),
    ensures
        question_from(s, i) == Some(k),
    decreases k - i,
{
    if i < k {
        lemma_question_reaches(s, i + 1, k);
    }
}

/// A part `t` of `s` that holds no terminating `:` is scanned over whole.
proof fn lemma_colon_passes(s: Seq<TokenKind>, t: Seq<TokenKind>, off: nat, i: nat)
    requires
        off + t.len() <= s.len(),
        s.subrange(off as int, (off + t.len()) as int) == t,
        i <= t.len(),
        colon_from(t, i) is None,
    ensures
        colon_from(s, off + i) == colon_from(s, off + t.len()),
    decreases t.len() - i,
{
    if i < t.len() {
        assert(s[(off + i) as int] == t[i as int]);
        if is_punct(t[i as int], ':') {
            assert(s[(off + i + 1) as int] == t[(i + 1) as int]);
            lemma_colon_passes(s, t, off, i + 2);
        } else {
            lemma_colon_passes(s, t, off, i + 1);
        }
    }
}

proof fn lemma_colon_skips(s: Seq<TokenKind>, i: nat)
    requires
        i <= s.len(),
        forall|j: int| i <= j < s.len() ==> !is_punct(#[trigger] s[j], ':'),
    ensures
        colon_from(s, i) is None,
    decreases s.len() - i,
{
    if i < s.len() {
        lemma_colon_skips(s, i + 1);
    }
}

/// Splitting `c ? t : f` gives back exactly `c`, `t` and `f` whenever neither
/// the condition nor the true branch holds a separator that could end it early
/// and the false branch does not begin with `:`.
pub proof fn lemma_split_recovers_clauses(c: Seq<TokenKind>, t: Seq<TokenKind>, f: Seq<TokenKind>)
    requires
        condition_unambiguous(c),
        branch_unambiguous(t),
        f.len() > 0 ==> !is_punct(f[0], ':'),
    ensures
        ternary_split(ternary_tokens(c, t, f)) == Ok::<(nat, nat), TernaryError>(
            (c.len(), c.len() + 1 + t.len()),
        ),
        ternary_tokens(c, t, f).subrange(0, c.len() as int) == c,
        ternary_tokens(c, t, f).subrange((c.len() + 1) as int, (c.len() + 1 + t.len()) as int) == t,
        ternary_tokens(c, t, f).subrange(
            (c.len() + 2 + t.len()) as int,
            ternary_tokens(c, t, f).len() as int,
        ) == f,
{
    let s = ternary_tokens(c, t, f);
    let q: int = c.len() as int;
    assert(s[q] == TokenKind::Punct('?'));
    assert forall|j: int| 0 <= j < q implies !ends_condition(s, j) by {
        assert(s[j] == c[j]);
        if j + 1 < q {
            assert(s[j + 1] == c[j + 1]);
        }
    }
    if t.len() > 0 {
        assert(s[q + 1] == t[0]);
    } else {
        assert(s[q + 1] == TokenKind::Punct(':'));
    }
    lemma_question_reaches(s, 0, q as nat);
    assert(s.subrange(q + 1, q + 1 + t.len()) =~= t);
    lemma_colon_passes(s, t, (q + 1) as nat, 0);
    let k: int = q + 1 + t.len();
    assert(s[k] == TokenKind::Punct(':'));
    if f.len() > 0 {
        assert(s[k + 1] == f[0]);
    }
    assert(s.subrange(0, q) =~= c);
    assert(s.subrange(k + 1, s.len() as int) =~= f);
}

/// A condition that ends in the postfix try operator, right before the
/// separator, is split at the second `?` of the pair, not the first.
pub proof fn lemma_try_operator_before_separator(
    c: Seq<TokenKind>,
    t: Seq<TokenKind>,
    f: Seq<TokenKind>,
)
    requires
        no_punct(c, '?'),
        no_punct(t, '?'),
        no_punct(t, ':'),
        f.len() > 0 ==> !is_punct(f[0], ':'),
    ensures
        ternary_split(ternary_tokens(c + seq![TokenKind::Punct('?')], t, f)) == Ok::<
            (nat, nat),
            TernaryError,
        >((c.len() + 1, c.len() + 2 + t.len())),
{
    let c2 = c + seq![TokenKind::Punct('?')];
    assert forall|j: int| 0 <= j < c2.len() && is_punct(#[trigger] c2[j], '?') implies j + 1
        >= c2.len() by {
        if j < c.len() {
            assert(c2[j] == c[j]);
        }
    }
    lemma_colon_skips(t, 0);
    lemma_split_recovers_clauses(c2, t, f);
}

/// A `::` pair in the true branch, as in a qualified path, is never taken for
/// the `:` that ends the branch.
pub proof fn lemma_path_in_true_branch(
    c: Seq<TokenKind>,
    p: Seq<TokenKind>,
    q: Seq<TokenKind>,
    f: Seq<TokenKind>,
)
    requires
        no_punct(c, '?'),
        no_punct(p, '?'),
        no_punct(p, ':'),
        no_punct(q, ':'),
        f.len() > 0 ==> !is_punct(f[0], ':'),
    ensures
        ternary_split(
            ternary_tokens(c, p + seq![TokenKind::Punct(':'), TokenKind::Punct(':')] + q, f),
        ) == Ok::<(nat, nat), TernaryError>(
            (c.len(), c.len() + 3 + p.len() + q.len()),
        ),
{
    let pair = seq![TokenKind::Punct(':'), TokenKind::Punct(':')];
    let t = p + pair + q;
    let m: int = p.len() as int;
    assert(t.subrange(0, m) =~= p);
    lemma_colon_skips(p, 0);
    lemma_colon_passes(t, p, 0, 0);
    assert(t[m] == TokenKind::Punct(':'));
    assert(t[m + 1] == TokenKind::Punct(':'));
    assert forall|j: int| m + 2 <= j < t.len() implies !is_punct(#[trigger] t[j], ':') by {
        assert(t[j] == q[j - m - 2]);
    }
    lemma_colon_skips(t, (m + 2) as nat);
    if p.len() > 0 {
        assert(t[0] == p[0]);
    }
    lemma_split_recovers_clauses(c, t, f);
}

/// Parsing `c ? t : f` hands the parser exactly the tokens of `c`, `t` and
/// `f`, under the conditions of `lemma_split_recovers_clauses` on their kinds.
pub proof fn lemma_parse_recovers_clauses(
    c: Seq<TokenTree>,
    question: TokenTree,
    t: Seq<TokenTree>,
    colon: TokenTree,
    f: Seq<TokenTree>,
)
    requires
        kind_of(question) == TokenKind::Punct('?'),
        kind_of(colon) == TokenKind::Punct(':'),
        condition_unambiguous(kinds_of(c)),
        branch_unambiguous(kinds_of(t)),
        f.len() > 0 ==> !is_punct(kind_of(f[0]), ':'),
    ensures
        parse_outcome(c + seq![question] + t + seq![colon] + f) == segments_outcome(c, t, f),
{
    let toks = c + seq![question] + t + seq![colon] + f;
    let (kc, kt, kf) = (kinds_of(c), kinds_of(t), kinds_of(f));
    assert(kinds_of(toks) =~= ternary_tokens(kc, kt, kf));
    if f.len() > 0 {
        assert(kf[0] == kind_of(f[0]));
    }
    lemma_split_recovers_clauses(kc, kt, kf);
    let m: int = c.len() as int;
    let k: int = m + 1 + t.len();
    assert(toks.subrange(0, m) =~= c);
    assert(toks.subrange(m + 1, k) =~= t);
    assert(toks.subrange(k + 1, toks.len() as int) =~= f);
}

/// The postfix try operator at the end of the condition, right before the
/// separator, stays in the condition: the parser gets `c?`, `t` and `f`.
pub proof fn lemma_parse_try_operator_before_separator(
    c: Seq<TokenTree>,
    try_op: TokenTree,
    question: TokenTree,
    t: Seq<TokenTree>,
    colon: TokenTree,
    f: Seq<TokenTree>,
)
    requires
        kind_of(try_op) == TokenKind::Punct('?'),
        kind_of(question) == TokenKind::Punct('?'),
        kind_of(colon) == TokenKind::Punct(':'),
        no_punct(kinds_of(c), '?'),
        no_punct(kinds_of(t), '?'),
        no_punct(kinds_of(t), ':'),
        f.len() > 0 ==> !is_punct(kind_of(f[0]), ':'),
    ensures
        parse_outcome(c + seq![try_op, question] + t + seq![colon] + f) == segments_outcome(
            c + seq![try_op],
            t,
            f,
        ),
{
    let toks = c + seq![try_op, question] + t + seq![colon] + f;
    let (kc, kt, kf) = (kinds_of(c), kinds_of(t), kinds_of(f));
    assert(kinds_of(toks) =~= ternary_tokens(kc + seq![TokenKind::Punct('?')], kt, kf));
    if f.len() > 0 {
        assert(kf[0] == kind_of(f[0]));
    }
    lemma_try_operator_before_separator(kc, kt, kf);
    let m: int = c.len() as int;
    let k: int = m + 2 + t.len();
    assert(toks.subrange(0, m + 1) =~= c + seq![try_op]);
    assert(toks.subrange(m + 2, k) =~= t);
    assert(toks.subrange(k + 1, toks.len() as int) =~= f);
}

/// A `::` pair in the true branch stays in it: the parser gets the whole path.
pub proof fn lemma_parse_path_in_true_branch(
    c: Seq<TokenTree>,
    question: TokenTree,
    p: Seq<TokenTree>,
    first: TokenTree,
    second: TokenTree,
    q: Seq<TokenTree>,
    colon: TokenTree,
    f: Seq<TokenTree>,
)
    requires
        kind_of(question) == TokenKind::Punct('?'),
        kind_of(first) == TokenKind::Punct(':'),
        kind_of(second) == TokenKind::Punct(':'),
        kind_of(colon) == TokenKind::Punct(':'),
        no_punct(kinds_of(c), '?'),
        no_punct(kinds_of(p), '?'),
        no_punct(kinds_of(p), ':'),
        no_punct(kinds_of(q), ':'),
        f.len() > 0 ==> !is_punct(kind_of(f[0]), ':'),
    ensures
        parse_outcome(c + seq![question] + (p + seq![first, second] + q) + seq![colon] + f)
            == segments_outcome(c, p + seq![first, second] + q, f),
{
    let t = p + seq![first, second] + q;
    let toks = c + seq![question] + t + seq![colon] + f;
    let (kc, kp, kq, kf) = (kinds_of(c), kinds_of(p), kinds_of(q), kinds_of(f));
    assert(kinds_of(toks) =~= ternary_tokens(
        kc,
        kp + seq![TokenKind::Punct(':'), TokenKind::Punct(':')] + kq,
        kf,
    ));
    if f.len() > 0 {
        assert(kf[0] == kind_of(f[0]));
    }
    lemma_path_in_true_branch(kc, kp, kq, kf);
    let m: int = c.len() as int;
    let k: int = m + 1 + t.len();
    assert(toks.subrange(0, m) =~= c);
    assert(toks.subrange(m + 1, k) =~= t);
    assert(toks.subrange(k + 1, toks.len() as int) =~= f);
}

/// When the clauses of `c ? t : f` are found and each parses, `t` emits
/// `if c { t } else { f }` built from those parses.
pub proof fn lemma_expansion_of_clauses(
    input: TokenStream,
    span: Span,
    c: Seq<TokenTree>,
    question: TokenTree,
    t: Seq<TokenTree>,
    colon: TokenTree,
    f: Seq<TokenTree>,
)
    requires
        trees_in(input) == c + seq![question] + t + seq![colon] + f,
        kind_of(question) == TokenKind::Punct('?'),
        kind_of(colon) == TokenKind::Punct(':'),
        condition_unambiguous(kinds_of(c)),
        branch_unambiguous(kinds_of(t)),
        f.len() > 0 ==> !is_punct(kind_of(f[0]), ':'),
        parses_as_expr(c),
        parses_as_expr(t),
        parses_as_expr(f),
    ensures
        ternary_output(input, span) == expansion(expr_of(c), expr_of(t), expr_of(f), span),
{
    lemma_parse_recovers_clauses(c, question, t, colon, f);
}

/// An input whose separators are missing expands to nothing but the compiler
/// error of the clause left unterminated.
pub proof fn lemma_unterminated_gives_error(input: TokenStream, span: Span)
    requires
        ternary_split(kinds_of(trees_in(input))) is Err,
    ensures
        ternary_output(input, span) == crate::ternary::error_stream_of(
            message_text(ternary_split(kinds_of(trees_in(input)))->Err_0),
            span,
        ),
{
}

} // verus!
