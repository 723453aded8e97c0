use vstd::prelude::*;

use crate::expr::node::{tree_view, ExprNode};
use crate::expr::shape::NodeView;

verus! {

/// One token of a flat infix expression: an already built operand, an
/// operator, or a parenthesis.
pub enum Token<S> {
    /// An operand: any expression, treated as a single unit by the
    /// surrounding operators.
    Atom(ExprNode<S>),
    /// The negation operator `!`, binding only to the operand or
    /// parenthesized group immediately following it.
    Not,
    /// The conjunction operator `&`, left-associative, binding tighter
    /// than `|`.
    And,
    /// The alternative operator `|`, left-associative, binding loosest.
    Or,
    /// An opening parenthesis, overriding all precedence.
    LParen,
    /// A closing parenthesis.
    RParen,
}

/// The abstract form of a token: its atom reduced to the abstract tree
/// it stands for.
pub enum TokenView {
    /// An operand.
    Atom { n: NodeView },
    /// The negation operator.
    Not,
    /// The conjunction operator.
    And,
    /// The alternative operator.
    Or,
    /// An opening parenthesis.
    LParen,
    /// A closing parenthesis.
    RParen,
}

impl<S> View for Token<S> {
    type V = TokenView;

    open spec fn view(&self) -> TokenView {
        match self {
            Token::Atom(e) => TokenView::Atom { n: tree_view(*e) },
            Token::Not => TokenView::Not,
            Token::And => TokenView::And,
            Token::Or => TokenView::Or,
            Token::LParen => TokenView::LParen,
            Token::RParen => TokenView::RParen,
        }
    }
}

/// Why a token sequence was rejected. Malformed sequences are rejected
/// when the expression is compiled, never at evaluation time.
#[derive(Clone, Copy, PartialEq, Eq, Structural, Debug)]
pub enum CompileError {
    /// An operand was expected — at the start, after an operator or
    /// after `(` — but an operator, a `)` or the end of the sequence
    /// was found; this covers consecutive binary operators and leading
    /// or trailing dangling operators.
    MissingOperand,
    /// A `(` group was still open when the sequence ended.
    UnmatchedParen,
    /// A token was left over after a complete expression: an operand
    /// or `(` right after a complete operand, or a `)` with no open
    /// `(`.
    UnexpectedToken,
}

// The grammar, in precedence-climbing form. Each function takes the
// remaining token sequence and returns the parsed tree together with
// the tokens it did not consume. The `rest.len() < t.len()` tests only
// serve the termination measure; `lemma_parse_shrinks` proves that a
// successful parse always consumes at least one token, so the
// `arbitrary()` branches are never reached.

/// Parses one operand: an atom, or a parenthesized group, which is
/// compiled completely before the surrounding operators see it.
pub open spec fn spec_parse_primary(t: Seq<TokenView>) -> Result<
    (NodeView, Seq<TokenView>),
    CompileError,
>
    decreases t.len(), 0int,
{
    if t.len() == 0 {
        Err(CompileError::MissingOperand)
    } else {
        match t[0] {
            TokenView::Atom { n } => Ok((n, t.skip(1))),
            TokenView::LParen => match spec_parse_or(t.skip(1)) {
                Ok((n, rest)) => if rest.len() > 0 && rest[0] is RParen {
                    Ok((n, rest.skip(1)))
                } else if rest.len() == 0 {
                    Err(CompileError::UnmatchedParen)
                } else {
                    Err(CompileError::UnexpectedToken)
                },
                Err(e) => Err(e),
            },
            _ => Err(CompileError::MissingOperand),
        }
    }
}

/// Parses a chain of leading `!` applied to one operand.
pub open spec fn spec_parse_unary(t: Seq<TokenView>) -> Result<
    (NodeView, Seq<TokenView>),
    CompileError,
>
    decreases t.len(), 1int,
{
    if t.len() == 0 {
        Err(CompileError::MissingOperand)
    } else if t[0] is Not {
        match spec_parse_unary(t.skip(1)) {
            Ok((n, rest)) => Ok((NodeView::Not { sub: Box::new(n) }, rest)),
            Err(e) => Err(e),
        }
    } else {
        spec_parse_primary(t)
    }
}

/// Parses a `&` level expression: one unary operand followed by any
/// number of `& operand`, chained left-associatively.
pub open spec fn spec_parse_and(t: Seq<TokenView>) -> Result<
    (NodeView, Seq<TokenView>),
    CompileError,
>
    decreases t.len(), 2int,
{
    match spec_parse_unary(t) {
        Ok((n, rest)) => if rest.len() < t.len() {
            spec_parse_and_more(n, rest)
        } else {
            arbitrary()
        },
        Err(e) => Err(e),
    }
}

/// Extends an already parsed `&` chain while the next token is `&`.
pub open spec fn spec_parse_and_more(acc: NodeView, t: Seq<TokenView>) -> Result<
    (NodeView, Seq<TokenView>),
    CompileError,
>
    decreases t.len(), 4int,
{
    if t.len() > 0 && t[0] is And {
        match spec_parse_unary(t.skip(1)) {
            Ok((n, rest)) => if rest.len() < t.len() {
                spec_parse_and_more(
                    (NodeView::And { lhs: Box::new(acc), rhs: Box::new(n) }),
                    rest,
                )
            } else {
                arbitrary()
            },
            Err(e) => Err(e),
        }
    } else {
        Ok((acc, t))
    }
}

/// Parses a `|` level expression: one `&` level operand followed by any
/// number of `| operand`, chained left-associatively.
pub open spec fn spec_parse_or(t: Seq<TokenView>) -> Result<
    (NodeView, Seq<TokenView>),
    CompileError,
>
    decreases t.len(), 3int,
{
    match spec_parse_and(t) {
        Ok((n, rest)) => if rest.len() < t.len() {
            spec_parse_or_more(n, rest)
        } else {
            arbitrary()
        },
        Err(e) => Err(e),
    }
}

/// Extends an already parsed `|` chain while the next token is `|`.
pub open spec fn spec_parse_or_more(acc: NodeView, t: Seq<TokenView>) -> Result<
    (NodeView, Seq<TokenView>),
    CompileError,
>
    decreases t.len(), 4int,
{
    if t.len() > 0 && t[0] is Or {
        match spec_parse_and(t.skip(1)) {
            Ok((n, rest)) => if rest.len() < t.len() {
                spec_parse_or_more((NodeView::Or { lhs: Box::new(acc), rhs: Box::new(n) }), rest)
            } else {
                arbitrary()
            },
            Err(e) => Err(e),
        }
    } else {
        Ok((acc, t))
    }
}

/// What compiling a token sequence yields: the parse of the whole
/// sequence, with nothing left over.
pub open spec fn spec_compile(t: Seq<TokenView>) -> Result<NodeView, CompileError> {
    match spec_parse_or(t) {
        Ok((n, rest)) => if rest.len() == 0 {
            Ok(n)
        } else {
            Err(CompileError::UnexpectedToken)
        },
        Err(e) => Err(e),
    }
}

/// A successful parse of an operand consumes at least one token, and
/// the chain extenders never give tokens back; so every termination
/// test in the parse functions passes and their `arbitrary()` branches
/// are dead.
pub proof fn lemma_parse_shrinks(t: Seq<TokenView>, acc: NodeView)
    ensures
        (match spec_parse_primary(t) {
            Ok((_, rest)) => rest.len() < t.len(),
            Err(_) => true,
        }),
        (match spec_parse_unary(t) {
            Ok((_, rest)) => rest.len() < t.len(),
            Err(_) => true,
        }),
        (match spec_parse_and(t) {
            Ok((_, rest)) => rest.len() < t.len(),
            Err(_) => true,
        }),
        (match spec_parse_or(t) {
            Ok((_, rest)) => rest.len() < t.len(),
            Err(_) => true,
        }),
        (match spec_parse_and_more(acc, t) {
            Ok((_, rest)) => rest.len() <= t.len(),
            Err(_) => true,
        }),
        (match spec_parse_or_more(acc, t) {
            Ok((_, rest)) => rest.len() <= t.len(),
            Err(_) => true,
        }),
    decreases t.len(),
{
    if t.len() == 0 {
        return ;
    }
    lemma_parse_shrinks(t.skip(1), acc);
    // The `..._more` extenders at this length recurse on a strictly
    // shorter sequence after a successful operand parse.
    if t[0] is And {
        match spec_parse_unary(t.skip(1)) {
            Ok((n, rest)) => {
                lemma_parse_shrinks(
                    rest,
                    (NodeView::And { lhs: Box::new(acc), rhs: Box::new(n) }),
                );
            },
            Err(_) => {
            },
        }
    }
    if t[0] is Or {
        match spec_parse_and(t.skip(1)) {
            Ok((n, rest)) => {
                lemma_parse_shrinks(
                    rest,
                    (NodeView::Or { lhs: Box::new(acc), rhs: Box::new(n) }),
                );
            },
            Err(_) => {
            },
        }
    }
    match spec_parse_unary(t) {
        Ok((n, rest)) => {
            lemma_parse_shrinks(rest, n);
        },
        Err(_) => {
        },
    }
    match spec_parse_and(t) {
        Ok((n, rest)) => {
            lemma_parse_shrinks(rest, n);
        },
        Err(_) => {
        },
    }
}

/// The abstract form of a token sequence.
pub open spec fn toks_view<S>(toks: Vec<Token<S>>) -> Seq<TokenView> {
    toks@.map_values(|tok: Token<S>| tok@)
}

/// Parses one operand from the front of `toks`, as
/// [`spec_parse_primary`] states it.
fn parse_primary<S>(toks: &mut Vec<Token<S>>) -> (r: Result<ExprNode<S>, CompileError>)
    ensures
        (match r {
            Ok(n) => spec_parse_primary(toks_view(*old(toks))) == Ok::<_, CompileError>(
                (tree_view(n), toks_view(*final(toks))),
            ) && final(toks)@.len() < old(toks)@.len(),
            Err(e) => spec_parse_primary(toks_view(*old(toks))) == Err::<
                (NodeView, Seq<TokenView>),
                _,
            >(e),
        }),
    decreases old(toks)@.len(), 0int,
{
    if toks.len() == 0 {
        return Err(CompileError::MissingOperand);
    }
    let ghost pre = toks_view(*toks);
    let tok = toks.remove(0);
    proof {
        assert(toks_view(*toks) =~= pre.skip(1));
    }
    match tok {
        Token::Atom(n) => {
            proof {
                assert(pre[0] == (TokenView::Atom { n: tree_view(n) }));
            }
            Ok(n)
        },
        Token::LParen => match parse_or(toks) {
            Ok(n) => {
                if toks.len() == 0 {
                    Err(CompileError::UnmatchedParen)
                } else {
                    let ghost mid = toks_view(*toks);
                    let tok2 = toks.remove(0);
                    proof {
                        assert(toks_view(*toks) =~= mid.skip(1));
                    }
                    match tok2 {
                        Token::RParen => Ok(n),
                        _ => Err(CompileError::UnexpectedToken),
                    }
                }
            },
            Err(e) => Err(e),
        },
        _ => Err(CompileError::MissingOperand),
    }
}

/// Parses a chain of leading `!` applied to one operand, as
/// [`spec_parse_unary`] states it.
fn parse_unary<S>(toks: &mut Vec<Token<S>>) -> (r: Result<ExprNode<S>, CompileError>)
    ensures
        (match r {
            Ok(n) => spec_parse_unary(toks_view(*old(toks))) == Ok::<_, CompileError>(
                (tree_view(n), toks_view(*final(toks))),
            ) && final(toks)@.len() < old(toks)@.len(),
            Err(e) => spec_parse_unary(toks_view(*old(toks))) == Err::<
                (NodeView, Seq<TokenView>),
                _,
            >(e),
        }),
    decreases old(toks)@.len(), 1int,
{
    if toks.len() == 0 {
        return Err(CompileError::MissingOperand);
    }
    let ghost pre = toks_view(*toks);
    let tok = toks.remove(0);
    proof {
        assert(toks_view(*toks) =~= pre.skip(1));
    }
    match tok {
        Token::Not => match parse_unary(toks) {
            Ok(n) => Ok(ExprNode::Not(Box::new(n))),
            Err(e) => Err(e),
        },
        other => {
            toks.insert(0, other);
            proof {
                assert(toks_view(*toks) =~= pre);
            }
            parse_primary(toks)
        },
    }
}

/// Parses a `&` level expression, as [`spec_parse_and`] states it.
fn parse_and<S>(toks: &mut Vec<Token<S>>) -> (r: Result<ExprNode<S>, CompileError>)
    ensures
        (match r {
            Ok(n) => spec_parse_and(toks_view(*old(toks))) == Ok::<_, CompileError>(
                (tree_view(n), toks_view(*final(toks))),
            ) && final(toks)@.len() < old(toks)@.len(),
            Err(e) => spec_parse_and(toks_view(*old(toks))) == Err::<
                (NodeView, Seq<TokenView>),
                _,
            >(e),
        }),
    decreases old(toks)@.len(), 2int,
{
    match parse_unary(toks) {
        Ok(n) => parse_and_more(n, toks),
        Err(e) => Err(e),
    }
}

/// Extends a parsed `&` chain while the next token is `&`, as
/// [`spec_parse_and_more`] states it.
fn parse_and_more<S>(acc: ExprNode<S>, toks: &mut Vec<Token<S>>) -> (r: Result<
    ExprNode<S>,
    CompileError,
>)
    ensures
        (match r {
            Ok(n) => spec_parse_and_more(tree_view(acc), toks_view(*old(toks))) == Ok::<
                _,
                CompileError,
            >((tree_view(n), toks_view(*final(toks)))) && final(toks)@.len() <= old(toks)@.len(),
            Err(e) => spec_parse_and_more(tree_view(acc), toks_view(*old(toks))) == Err::<
                (NodeView, Seq<TokenView>),
                _,
            >(e),
        }),
    decreases old(toks)@.len(), 4int,
{
    if toks.len() == 0 {
        return Ok(acc);
    }
    let ghost pre = toks_view(*toks);
    let tok = toks.remove(0);
    proof {
        assert(toks_view(*toks) =~= pre.skip(1));
    }
    match tok {
        Token::And => match parse_unary(toks) {
            Ok(n) => parse_and_more(ExprNode::And(Box::new(acc), Box::new(n)), toks),
            Err(e) => Err(e),
        },
        other => {
            toks.insert(0, other);
            proof {
                assert(toks_view(*toks) =~= pre);
            }
            Ok(acc)
        },
    }
}

/// Parses a `|` level expression, as [`spec_parse_or`] states it.
fn parse_or<S>(toks: &mut Vec<Token<S>>) -> (r: Result<ExprNode<S>, CompileError>)
    ensures
        (match r {
            Ok(n) => spec_parse_or(toks_view(*old(toks))) == Ok::<_, CompileError>(
                (tree_view(n), toks_view(*final(toks))),
            ) && final(toks)@.len() < old(toks)@.len(),
            Err(e) => spec_parse_or(toks_view(*old(toks))) == Err::<
                (NodeView, Seq<TokenView>),
                _,
            >(e),
        }),
    decreases old(toks)@.len(), 3int,
{
    match parse_and(toks) {
        Ok(n) => parse_or_more(n, toks),
        Err(e) => Err(e),
    }
}

/// Extends a parsed `|` chain while the next token is `|`, as
/// [`spec_parse_or_more`] states it.
fn parse_or_more<S>(acc: ExprNode<S>, toks: &mut Vec<Token<S>>) -> (r: Result<
    ExprNode<S>,
    CompileError,
>)
    ensures
        (match r {
            Ok(n) => spec_parse_or_more(tree_view(acc), toks_view(*old(toks))) == Ok::<
                _,
                CompileError,
            >((tree_view(n), toks_view(*final(toks)))) && final(toks)@.len() <= old(toks)@.len(),
            Err(e) => spec_parse_or_more(tree_view(acc), toks_view(*old(toks))) == Err::<
                (NodeView, Seq<TokenView>),
                _,
            >(e),
        }),
    decreases old(toks)@.len(), 4int,
{
    if toks.len() == 0 {
        return Ok(acc);
    }
    let ghost pre = toks_view(*toks);
    let tok = toks.remove(0);
    proof {
        assert(toks_view(*toks) =~= pre.skip(1));
    }
    match tok {
        Token::Or => match parse_and(toks) {
            Ok(n) => parse_or_more(ExprNode::Or(Box::new(acc), Box::new(n)), toks),
            Err(e) => Err(e),
        },
        other => {
            toks.insert(0, other);
            proof {
                assert(toks_view(*toks) =~= pre);
            }
            Ok(acc)
        },
    }
}

/// Compiles a flat infix token sequence into an expression tree under
/// the usual precedence: `!` binds only to the operand right after it,
/// `&` binds tighter than `|`, both chain left-associatively, and
/// parentheses override everything. A malformed sequence — consecutive
/// binary operators, a dangling operator, unbalanced parentheses — is
/// rejected here, never at evaluation time, exactly as
/// [`spec_compile`] states.
pub fn compile<S>(tokens: Vec<Token<S>>) -> (r: Result<ExprNode<S>, CompileError>)
    ensures
        (match r {
            Ok(n) => spec_compile(toks_view(tokens)) == Ok::<_, CompileError>(tree_view(n)),
            Err(e) => spec_compile(toks_view(tokens)) == Err::<NodeView, _>(e),
        }),
{
    let mut toks = tokens;
    match parse_or(&mut toks) {
        Ok(n) => {
            if toks.len() == 0 {
                Ok(n)
            } else {
                Err(CompileError::UnexpectedToken)
            }
        },
        Err(e) => Err(e),
    }
}

/// The flat token form of a tree, parenthesized exactly as
/// [`spec_render`](crate::expr::shape::spec_render) renders it: leaves
/// become atom tokens, `!` is prefixed, and every binary node is
/// wrapped in parentheses.
pub open spec fn tokens_of(n: NodeView) -> Seq<TokenView>
    decreases n,
{
    match n {
        NodeView::Value { m } => seq![TokenView::Atom { n: NodeView::Value { m } }],
        NodeView::Tagged { m, text } => seq![TokenView::Atom { n: NodeView::Tagged { m, text } }],
        NodeView::Not { sub } => seq![TokenView::Not] + tokens_of(*sub),
        NodeView::And { lhs, rhs } => seq![TokenView::LParen] + tokens_of(*lhs)
            + seq![TokenView::And] + tokens_of(*rhs) + seq![TokenView::RParen],
        NodeView::Or { lhs, rhs } => seq![TokenView::LParen] + tokens_of(*lhs)
            + seq![TokenView::Or] + tokens_of(*rhs) + seq![TokenView::RParen],
    }
}

/// The token form of a tree holds at least one token.
proof fn lemma_tokens_of_nonempty(n: NodeView)
    ensures
        tokens_of(n).len() >= 1,
{
    match n {
        NodeView::Value { .. } => {
        },
        NodeView::Tagged { .. } => {
        },
        NodeView::Not { .. } => {
        },
        NodeView::And { .. } => {
        },
        NodeView::Or { .. } => {
        },
    }
}

/// The token form of any tree is self-delimiting: parsed as one
/// operand, it gives back exactly that tree and leaves any following
/// tokens untouched.
proof fn lemma_parse_tokens_of(n: NodeView, rest: Seq<TokenView>)
    ensures
        spec_parse_unary(tokens_of(n) + rest) == Ok::<_, CompileError>((n, rest)),
    decreases n,
{
    let t = tokens_of(n) + rest;
    match n {
        NodeView::Value { m } => {
            assert(t[0] == (TokenView::Atom { n: NodeView::Value { m } }));
            assert(t.skip(1) =~= rest);
            assert(spec_parse_primary(t) == Ok::<_, CompileError>((n, t.skip(1))));
        },
        NodeView::Tagged { m, text } => {
            assert(t[0] == (TokenView::Atom { n: NodeView::Tagged { m, text } }));
            assert(t.skip(1) =~= rest);
            assert(spec_parse_primary(t) == Ok::<_, CompileError>((n, t.skip(1))));
        },
        NodeView::Not { sub } => {
            assert(t.skip(1) =~= tokens_of(*sub) + rest);
            lemma_parse_tokens_of(*sub, rest);
        },
        NodeView::And { lhs, rhs } => {
            let r2 = seq![TokenView::RParen] + rest;
            let r1 = seq![TokenView::And] + tokens_of(*rhs) + r2;
            let t1 = tokens_of(*lhs) + r1;
            assert(t.skip(1) =~= t1);
            lemma_parse_tokens_of(*lhs, r1);
            lemma_tokens_of_nonempty(*lhs);
            assert(r1.skip(1) =~= tokens_of(*rhs) + r2);
            lemma_parse_tokens_of(*rhs, r2);
            lemma_tokens_of_nonempty(*rhs);
            assert(spec_parse_and(t1) == Ok::<_, CompileError>((n, r2)));
            assert(spec_parse_or(t1) == Ok::<_, CompileError>((n, r2)));
            assert(r2.skip(1) =~= rest);
        },
        NodeView::Or { lhs, rhs } => {
            let r2 = seq![TokenView::RParen] + rest;
            let r1 = seq![TokenView::Or] + tokens_of(*rhs) + r2;
            let t1 = tokens_of(*lhs) + r1;
            assert(t.skip(1) =~= t1);
            lemma_parse_tokens_of(*lhs, r1);
            lemma_tokens_of_nonempty(*lhs);
            assert(r1.skip(1) =~= tokens_of(*rhs) + r2);
            lemma_parse_tokens_of(*rhs, r2);
            lemma_tokens_of_nonempty(*rhs);
            assert(spec_parse_and(t1) == Ok::<_, CompileError>((*lhs, r1)));
            assert(spec_parse_or(t1) == Ok::<_, CompileError>((n, r2)));
            assert(r2.skip(1) =~= rest);
        },
    }
}

/// Rendering and structure mirror each other exactly: compiling the
/// fully parenthesized token form of any tree gives back that tree,
/// whole and unchanged. In particular the canonical form is
/// unambiguous.
pub proof fn lemma_compile_round_trip(n: NodeView)
    ensures
        spec_compile(tokens_of(n)) == Ok::<_, CompileError>(n),
{
    lemma_parse_tokens_of(n, Seq::empty());
    assert(tokens_of(n) + Seq::<TokenView>::empty() =~= tokens_of(n));
    lemma_tokens_of_nonempty(n);
}

} // verus!
