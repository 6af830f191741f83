use proc_macro2::{Delimiter, Group, Ident, Span, TokenStream, TokenTree};
use quote::ToTokens;
use syn::Expr;
use vstd::prelude::*;

use crate::scan::{split_ternary, ternary_split, Clause, Split, TernaryError, TokenKind};

verus! {

#[verifier::external_type_specification]
#[verifier::external_body]
pub struct ExTokenTree(TokenTree);

#[verifier::external_type_specification]
#[verifier::external_body]
pub struct ExTokenStream(TokenStream);

#[verifier::external_type_specification]
#[verifier::external_body]
pub struct ExSpan(Span);

#[verifier::external_type_specification]
#[verifier::external_body]
pub struct ExExpr(Expr);

#[verifier::external_type_specification]
#[verifier::external_body]
pub struct ExSynError(syn::Error);

/// The top-level token trees of a stream, groups left whole.
pub uninterp spec fn trees_in(ts: TokenStream) -> Seq<TokenTree>;

/// What the scanner reads of one token tree.
pub uninterp spec fn kind_of(tree: TokenTree) -> TokenKind;

/// Whether a token sequence parses, whole, as one expression.
pub uninterp spec fn parses_as_expr(trees: Seq<TokenTree>) -> bool;

/// The expression that a token sequence parses as.
pub uninterp spec fn expr_of(trees: Seq<TokenTree>) -> Expr;

/// An identifier (here a keyword) with the given span.
pub uninterp spec fn keyword_of(name: Seq<char>, span: Span) -> TokenTree;

/// The tokens that print an expression.
pub uninterp spec fn trees_of(e: Expr) -> Seq<TokenTree>;

/// An expression's tokens in braces, the braces carrying the given span.
pub uninterp spec fn braced_of(e: Expr, span: Span) -> TokenTree;

/// A stream made of the given token trees.
pub uninterp spec fn stream_of(trees: Seq<TokenTree>) -> TokenStream;

/// The tokens of a compiler error carrying `msg` at the given span.
pub uninterp spec fn error_stream_of(msg: Seq<char>, span: Span) -> TokenStream;

/// Relies on proc_macro2's `IntoIterator` for `TokenStream`: the top-level
/// token trees of the stream, groups left whole.
#[verifier::external_body]
fn token_trees(ts: TokenStream) -> (r: Vec<TokenTree>)
    ensures
        r@ == trees_in(ts),
{
    ts.into_iter().collect()
}

/// Relies on proc_macro2's `TokenTree` variants and `Punct::as_char`: the
/// kind depends on the tree alone.
#[verifier::external_body]
fn token_kind(tree: &TokenTree) -> (r: TokenKind)
    ensures
        r == kind_of(*tree),
{
    match tree {
        TokenTree::Punct(p) => TokenKind::Punct(p.as_char()),
        TokenTree::Group(_) => TokenKind::Group,
        TokenTree::Ident(_) => TokenKind::Other,
        TokenTree::Literal(_) => TokenKind::Other,
    }
}

/// Relies on syn::parse2 for `Expr`: the whole sequence must parse as one
/// expression, and an empty one never does.
#[verifier::external_body]
fn parse_expr(trees: Vec<TokenTree>) -> (r: Result<Expr, syn::Error>)
    ensures
        r is Ok <==> parses_as_expr(trees@),
        r matches Ok(e) ==> e == expr_of(trees@),
        trees@.len() == 0 ==> r is Err,
{
    syn::parse2(trees.into_iter().collect())
}

/// Relies on proc_macro2's `Span::call_site`.
#[verifier::external_body]
fn call_site() -> (r: Span) {
    Span::call_site()
}

/// Relies on proc_macro2's `Ident::new`, which accepts keywords.
#[verifier::external_body]
fn keyword(name: &str, span: Span) -> (r: TokenTree)
    requires
        name@ == "if"@ || name@ == "else"@,
    ensures
        r == keyword_of(name@, span),
{
    TokenTree::Ident(Ident::new(name, span))
}

/// Relies on quote's `ToTokens::to_token_stream` for `Expr`: its tokens.
#[verifier::external_body]
fn expr_trees(e: &Expr) -> (r: Vec<TokenTree>)
    ensures
        r@ == trees_of(*e),
{
    e.to_token_stream().into_iter().collect()
}

/// Relies on quote's `ToTokens::to_token_stream` for `Expr` and proc_macro2's
/// `Group::new` and `Group::set_span`: the expression's tokens in braces.
#[verifier::external_body]
fn braced(e: &Expr, span: Span) -> (r: TokenTree)
    ensures
        r == braced_of(*e, span),
{
    let mut group = Group::new(Delimiter::Brace, e.to_token_stream());
    group.set_span(span);
    TokenTree::Group(group)
}

/// Relies on proc_macro2's `FromIterator<TokenTree>` for `TokenStream`.
#[verifier::external_body]
fn token_stream(trees: Vec<TokenTree>) -> (r: TokenStream)
    ensures
        r == stream_of(trees@),
{
    trees.into_iter().collect()
}

/// Relies on syn's `Error::new` and `Error::to_compile_error`: a compiler
/// error carrying `msg` at `span`.
#[verifier::external_body]
fn error_tokens(msg: &str, span: Span) -> (r: TokenStream)
    ensures
        r == error_stream_of(msg@, span),
{
    syn::Error::new(span, msg).to_compile_error()
}

/// The kind of each token.
pub open spec fn kinds_of(tokens: Seq<TokenTree>) -> Seq<TokenKind> {
    tokens.map_values(|tree: TokenTree| kind_of(tree))
}

/// The three clauses parsed in order; the first that does not parse is the
/// error.
pub open spec fn segments_outcome(
    c: Seq<TokenTree>,
    t: Seq<TokenTree>,
    f: Seq<TokenTree>,
) -> Result<(Expr, Expr, Expr), TernaryError> {
    if !parses_as_expr(c) {
        Err(TernaryError::MalformedExpression(Clause::Condition))
    } else if !parses_as_expr(t) {
        Err(TernaryError::MalformedExpression(Clause::TrueBranch))
    } else if !parses_as_expr(f) {
        Err(TernaryError::MalformedExpression(Clause::FalseBranch))
    } else {
        Ok((expr_of(c), expr_of(t), expr_of(f)))
    }
}

/// `tokens`, whose kinds are `kinds`, cut at the separators and parsed.
pub open spec fn clauses_outcome(tokens: Seq<TokenTree>, kinds: Seq<TokenKind>) -> Result<
    (Expr, Expr, Expr),
    TernaryError,
> {
    match ternary_split(kinds) {
        Err(e) => Err(e),
        Ok((q, c)) => segments_outcome(
            tokens.subrange(0, q as int),
            tokens.subrange((q + 1) as int, c as int),
            tokens.subrange((c + 1) as int, tokens.len() as int),
        ),
    }
}

/// What parsing `condition ? if_true : if_false` from `tokens` gives.
pub open spec fn parse_outcome(tokens: Seq<TokenTree>) -> Result<(Expr, Expr, Expr), TernaryError> {
    clauses_outcome(tokens, kinds_of(tokens))
}

/// `if condition { if_true } else { if_false }`, the keywords and braces
/// carrying `span`.
pub open spec fn expansion(condition: Expr, if_true: Expr, if_false: Expr, span: Span) -> TokenStream {
    stream_of(
        seq![keyword_of("if"@, span)] + trees_of(condition) + seq![
            braced_of(if_true, span),
            keyword_of("else"@, span),
            braced_of(if_false, span),
        ],
    )
}

/// What `t` gives for `input` when its output is placed at `span`.
pub open spec fn ternary_output(input: TokenStream, span: Span) -> TokenStream {
    match parse_outcome(trees_in(input)) {
        Ok((c, t, f)) => expansion(c, t, f, span),
        Err(e) => error_stream_of(message_text(e), span),
    }
}

/// Cuts `tokens` at the two separators of `split`, which are dropped: the
/// condition, the true branch and the false branch, in that order.
pub fn split_segments<T>(tokens: Vec<T>, split: Split) -> (r: (Vec<T>, Vec<T>, Vec<T>))
    requires
        split.question < split.colon < tokens@.len(),
    ensures
        r.0@ == tokens@.subrange(0, split.question as int),
        r.1@ == tokens@.subrange(split.question + 1, split.colon as int),
        r.2@ == tokens@.subrange(split.colon + 1, tokens@.len() as int),
{
    let mut condition = tokens;
    let mut after_question = condition.split_off(split.question);
    let mut if_true = after_question.split_off(1);
    let mut after_colon = if_true.split_off(split.colon - split.question - 1);
    let if_false = after_colon.split_off(1);
    proof {
        assert(if_true@ =~= tokens@.subrange(split.question + 1, split.colon as int));
        assert(if_false@ =~= tokens@.subrange(split.colon + 1, tokens@.len() as int));
    }
    (condition, if_true, if_false)
}

/// The three parsed clauses of `condition ? if_true : if_false`.
pub struct Ternary {
    pub condition: Expr,
    pub if_true: Expr,
    pub if_false: Expr,
}

impl Ternary {
    /// Splits `tokens`, whose kinds are `kinds`, at the two separators and
    /// parses each clause as an expression.
    pub fn from_classified(tokens: Vec<TokenTree>, kinds: &Vec<TokenKind>) -> (r: Result<
        Ternary,
        TernaryError,
    >)
        requires
            tokens@.len() == kinds@.len(),
        ensures
            match r {
                Ok(tn) => clauses_outcome(tokens@, kinds@) == Ok::<
                    (Expr, Expr, Expr),
                    TernaryError,
                >((tn.condition, tn.if_true, tn.if_false)),
                Err(e) => clauses_outcome(tokens@, kinds@) == Err::<(Expr, Expr, Expr), TernaryError>(
                    e,
                ),
            },
    {
        let split = match split_ternary(kinds) {
            Ok(sp) => sp,
            Err(e) => return Err(e),
        };
        let (condition, if_true, if_false) = split_segments(tokens, split);
        let condition = match parse_expr(condition) {
            Ok(e) => e,
            Err(_) => return Err(TernaryError::MalformedExpression(Clause::Condition)),
        };
        let if_true = match parse_expr(if_true) {
            Ok(e) => e,
            Err(_) => return Err(TernaryError::MalformedExpression(Clause::TrueBranch)),
        };
        let if_false = match parse_expr(if_false) {
            Ok(e) => e,
            Err(_) => return Err(TernaryError::MalformedExpression(Clause::FalseBranch)),
        };
        Ok(Ternary { condition, if_true, if_false })
    }

    /// Classifies each token and parses `condition ? if_true : if_false`.
    pub fn parse(tokens: Vec<TokenTree>) -> (r: Result<Ternary, TernaryError>)
        ensures
            match r {
                Ok(tn) => parse_outcome(tokens@) == Ok::<(Expr, Expr, Expr), TernaryError>(
                    (tn.condition, tn.if_true, tn.if_false),
                ),
                Err(e) => parse_outcome(tokens@) == Err::<(Expr, Expr, Expr), TernaryError>(e),
            },
    {
        let mut kinds: Vec<TokenKind> = Vec::new();
        let n = tokens.len();
        let mut i: usize = 0;
        while i < n
            invariant
                n == tokens@.len(),
                i <= n,
                kinds@ == kinds_of(tokens@.subrange(0, i as int)),
            decreases n - i,
        {
            kinds.push(token_kind(&tokens[i]));
            proof {
                assert(kinds_of(tokens@.subrange(0, i + 1)) =~= kinds_of(tokens@.subrange(0, i as int)).push(kind_of(tokens@[i as int])));
            }
            i = i + 1;
        }
        proof {
            assert(tokens@.subrange(0, n as int) =~= tokens@);
        }
        Ternary::from_classified(tokens, &kinds)
    }

    /// `if condition { if_true } else { if_false }`, the keywords and braces
    /// carrying `span`.
    pub fn expand(&self, span: Span) -> (r: TokenStream)
        ensures
            r == expansion(self.condition, self.if_true, self.if_false, span),
    {
        let mut out: Vec<TokenTree> = Vec::new();
        out.push(keyword("if", span));
        let mut condition = expr_trees(&self.condition);
        out.append(&mut condition);
        out.push(braced(&self.if_true, span));
        out.push(keyword("else", span));
        out.push(braced(&self.if_false, span));
        proof {
            assert(out@ =~= seq![keyword_of("if"@, span)] + trees_of(self.condition) + seq![
                braced_of(self.if_true, span),
                keyword_of("else"@, span),
                braced_of(self.if_false, span),
            ]);
        }
        token_stream(out)
    }
}

/// The description of each error, naming the clause at fault.
pub open spec fn message_text(e: TernaryError) -> Seq<char> {
    match e {
        TernaryError::UnterminatedSegment(Clause::Condition) => "expected `?` after the condition"@,
        TernaryError::UnterminatedSegment(Clause::TrueBranch) => "expected `:` after the true branch"@,
        TernaryError::UnterminatedSegment(Clause::FalseBranch) => "unterminated false branch"@,
        TernaryError::MalformedExpression(Clause::Condition) => "the condition is not an expression"@,
        TernaryError::MalformedExpression(Clause::TrueBranch) => "the true branch is not an expression"@,
        TernaryError::MalformedExpression(Clause::FalseBranch) => "the false branch is not an expression"@,
    }
}

impl TernaryError {
    /// A one-line description of the error, naming the clause.
    pub fn message(&self) -> (r: &'static str)
        ensures
            r@ == message_text(*self),
    {
        match self {
            TernaryError::UnterminatedSegment(Clause::Condition) => "expected `?` after the condition",
            TernaryError::UnterminatedSegment(Clause::TrueBranch) => "expected `:` after the true branch",
            TernaryError::UnterminatedSegment(Clause::FalseBranch) => "unterminated false branch",
            TernaryError::MalformedExpression(Clause::Condition) => "the condition is not an expression",
            TernaryError::MalformedExpression(Clause::TrueBranch) => "the true branch is not an expression",
            TernaryError::MalformedExpression(Clause::FalseBranch) => "the false branch is not an expression",
        }
    }
}

/// Rewrites `condition ? if_true : if_false` into
/// `if condition { if_true } else { if_false }`, or into a compiler error
/// that names the clause at fault, all placed at the call site.
pub fn t(input: TokenStream) -> (r: TokenStream)
    ensures
        exists|span: Span| r == #[trigger] ternary_output(input, span),
{
    let span = call_site();
    let r = match Ternary::parse(token_trees(input)) {
        Ok(ternary) => ternary.expand(span),
        Err(e) => error_tokens(e.message(), span),
    };
    assert(r == ternary_output(input, span));
    r
}

} // verus!
