use vstd::prelude::*;

verus! {

/// What the scanner reads of a token: one punctuation character, a
/// bracket-delimited group (opaque, whatever it holds), or anything else.
#[derive(Clone, Copy, Debug, PartialEq, Eq, Structural)]
pub enum TokenKind {
    Punct(char),
    Group,
    Other,
}

/// The three clauses of `condition ? if_true : if_false`.
#[derive(Clone, Copy, Debug, PartialEq, Eq, Structural)]
pub enum Clause {
    Condition,
    TrueBranch,
    FalseBranch,
}

#[derive(Clone, Copy, Debug, PartialEq, Eq, Structural)]
pub enum TernaryError {
    /// The input ended before the terminator of this clause.
    UnterminatedSegment(Clause),
    /// The tokens of this clause do not form an expression.
    MalformedExpression(Clause),
}

/// Positions of the two separators: the `?` that ends the condition and the
/// `:` that ends the true branch.
#[derive(Clone, Copy, Debug, PartialEq, Eq, Structural)]
pub struct Split {
    pub question: usize,
    pub colon: usize,
}

impl View for Split {
    type V = (nat, nat);

    open spec fn view(&self) -> (nat, nat) {
        (self.question as nat, self.colon as nat)
    }
}

pub open spec fn is_punct(k: TokenKind, c: char) -> bool {
    k == TokenKind::Punct(c)
}

/// A `?` ends the condition unless the token right after it is `?` too: then
/// it is the postfix try operator of the condition itself.
pub open spec fn ends_condition(s: Seq<TokenKind>, i: int) -> bool {
    0 <= i < s.len() && is_punct(s[i], '?') && !(i + 1 < s.len() && is_punct(s[i + 1], '?'))
}

/// The first position at or after `i` where the condition ends.
pub open spec fn question_from(s: Seq<TokenKind>, i: nat) -> Option<nat>
    decreases s.len() - i,
{
    if i >= s.len() {
        None
    } else if ends_condition(s, i as int) {
        Some(i)
    } else {
        question_from(s, i + 1)
    }
}

/// Where the true branch, scanned from `i`, ends: at a `:` that is not the
/// start of a `::` pair. A `::` pair is path syntax and is passed over whole.
pub open spec fn colon_from(s: Seq<TokenKind>, i: nat) -> Option<nat>
    decreases s.len() - i,
{
    if i >= s.len() {
        None
    } else if is_punct(s[i as int], ':') {
        if i + 1 < s.len() && is_punct(s[(i + 1) as int], ':') {
            colon_from(s, i + 2)
        } else {
            Some(i)
        }
    } else {
        colon_from(s, i + 1)
    }
}

/// The separators of a whole invocation, or the clause left unterminated.
pub open spec fn ternary_split(s: Seq<TokenKind>) -> Result<(nat, nat), TernaryError> {
    match question_from(s, 0) {
        None => Err(TernaryError::UnterminatedSegment(Clause::Condition)),
        Some(q) => match colon_from(s, q + 1) {
            None => Err(TernaryError::UnterminatedSegment(Clause::TrueBranch)),
            Some(c) => Ok((q, c)),
        },
    }
}

pub open spec fn opt_nat(o: Option<usize>) -> Option<nat> {
    match o {
        Some(x) => Some(x as nat),
        None => None,
    }
}

pub proof fn lemma_question_from_bounds(s: Seq<TokenKind>, i: nat)
    ensures
        question_from(s, i) matches Some(q) ==> i <= q < s.len() && ends_condition(s, q as int),
    decreases s.len() - i,
{
    if i < s.len() && !ends_condition(s, i as int) {
        lemma_question_from_bounds(s, i + 1);
    }
}

pub proof fn lemma_colon_from_bounds(s: Seq<TokenKind>, i: nat)
    ensures
        colon_from(s, i) matches Some(c) ==> i <= c < s.len() && is_punct(s[c as int], ':')
            && !(c + 1 < s.len() && is_punct(s[(c + 1) as int], ':')),
    decreases s.len() - i,
{
    if i < s.len() {
        if is_punct(s[i as int], ':') {
            if i + 1 < s.len() && is_punct(s[(i + 1) as int], ':') {
                lemma_colon_from_bounds(s, i + 2);
            }
        } else {
            lemma_colon_from_bounds(s, i + 1);
        }
    }
}

/// Scans the condition from `start`: the position of the `?` that ends it,
/// or `None` when the input runs out first.
pub fn scan_condition(kinds: &Vec<TokenKind>, start: usize) -> (r: Option<usize>)
    ensures
        opt_nat(r) == question_from(kinds@, start as nat),
{
    let n = kinds.len();
    let mut i: usize = start;
    while i < n
        invariant
            n == kinds@.len(),
            start <= i,
            question_from(kinds@, i as nat) == question_from(kinds@, start as nat),
        decreases n - i,
    {
        let next_is_question = i + 1 < n && kinds[i + 1] == TokenKind::Punct('?');
        if kinds[i] == TokenKind::Punct('?') && !next_is_question {
            return Some(i);
        }
        i = i + 1;
    }
    None
}

/// Scans the true branch from `start`: the position of the `:` that ends it,
/// or `None` when the input runs out first.
pub fn scan_true_branch(kinds: &Vec<TokenKind>, start: usize) -> (r: Option<usize>)
    ensures
        opt_nat(r) == colon_from(kinds@, start as nat),
{
    let n = kinds.len();
    let mut i: usize = start;
    while i < n
        invariant
            n == kinds@.len(),
            colon_from(kinds@, i as nat) == colon_from(kinds@, start as nat),
        decreases n - i,
    {
        if kinds[i] == TokenKind::Punct(':') {
            if i + 1 < n && kinds[i + 1] == TokenKind::Punct(':') {
                i = i + 2;
            } else {
                return Some(i);
            }
        } else {
            i = i + 1;
        }
    }
    None
}

/// Finds both separators of `condition ? if_true : if_false`.
pub fn split_ternary(kinds: &Vec<TokenKind>) -> (r: Result<Split, TernaryError>)
    ensures
        match r {
            Ok(sp) => ternary_split(kinds@) == Ok::<(nat, nat), TernaryError>(sp@),
            Err(e) => ternary_split(kinds@) == Err::<(nat, nat), TernaryError>(e),
        },
        r matches Ok(sp) ==> sp.question < sp.colon < kinds@.len(),
{
    let n = kinds.len();
    match scan_condition(kinds, 0) {
        None => Err(TernaryError::UnterminatedSegment(Clause::Condition)),
        Some(q) => {
            proof {
                lemma_question_from_bounds(kinds@, 0);
                assert(q < n);
            }
            match scan_true_branch(kinds, q + 1) {
                None => Err(TernaryError::UnterminatedSegment(Clause::TrueBranch)),
                Some(c) => {
                    proof {
                        lemma_colon_from_bounds(kinds@, (q + 1) as nat);
                    }
                    Ok(Split { question: q, colon: c })
                },
            }
        },
    }
}

} // verus!
