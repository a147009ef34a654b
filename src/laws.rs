use vstd::prelude::*;
use crate::ast::{Expr, Node};
use crate::parser::{apply_op, climb, expr_at, juxtaposed, operand, parse_text, parse_tokens, outcome, Failure, ParseError};
use crate::token::{prec_of, OperPrec, Tok};

verus! {

/// Trees built of numbers, `+ - * /` alone.
pub open spec fn is_arith(e: Expr) -> bool
    decreases e,
{
    match e {
        Expr::Add(a, b) | Expr::Subtract(a, b) | Expr::Multiply(a, b) | Expr::Divide(a, b) =>
            is_arith(*a) && is_arith(*b),
        Expr::Number(_) => true,
        _ => false,
    }
}

/// How strongly the top of a tree binds when written out: sums and
/// differences 1, products and quotients 2, numbers 3.
pub open spec fn level_of(e: Expr) -> nat {
    match e {
        Expr::Add(..) | Expr::Subtract(..) => 1,
        Expr::Multiply(..) | Expr::Divide(..) => 2,
        _ => 3,
    }
}

/// The operator token at the top of a tree.
pub open spec fn op_token(e: Expr) -> Tok {
    match e {
        Expr::Add(..) => Tok::Add,
        Expr::Subtract(..) => Tok::Subtract,
        Expr::Multiply(..) => Tok::Multiply,
        _ => Tok::Divide,
    }
}

/// The usual infix notation of a tree: `* /` bind more strongly than `+ -`,
/// operators of one level group from the left, and a group is put in
/// parentheses where the tree needs it, and also wherever `extra` asks for a
/// pair that is not needed. `at` names the place of `e` in the whole tree:
/// the path of left (0) and right (1) steps from the root.
pub open spec fn show(e: Expr, at: Seq<nat>, extra: spec_fn(Seq<nat>) -> bool) -> Seq<Tok>
    decreases e, 1nat,
{
    match e {
        Expr::Add(a, b) | Expr::Subtract(a, b) | Expr::Multiply(a, b) | Expr::Divide(a, b) =>
            show_at(*a, level_of(e), at.push(0), extra) + seq![op_token(e)] + show_at(
                *b,
                level_of(e) + 1,
                at.push(1),
                extra,
            ),
        Expr::Number(n) => seq![Tok::Num(n)],
        _ => Seq::empty(),
    }
}

/// `e` written where it must bind at least as strongly as level `k`.
pub open spec fn show_at(e: Expr, k: nat, at: Seq<nat>, extra: spec_fn(Seq<nat>) -> bool) -> Seq<
    Tok,
>
    decreases e, 2nat,
{
    if level_of(e) >= k && !extra(at) {
        show(e, at, extra)
    } else {
        seq![Tok::LeftParen] + show(e, at, extra) + seq![Tok::RightParen]
    }
}

/// What may follow the written form of a tree of level `k`: a token that
/// binds no more strongly, and no opening parenthesis.
pub open spec fn may_follow(r: Seq<Tok>, k: nat) -> bool {
    r.len() > 0 && !(r[0] is LeftParen) && prec_of(r[0]).level() <= k
}

proof fn lemma_show_at(
    e: Expr,
    k: nat,
    at: Seq<nat>,
    extra: spec_fn(Seq<nat>) -> bool,
    p: OperPrec,
    r: Seq<Tok>,
)
    requires
        is_arith(e),
        p.level() < k,
        may_follow(r, k),
    ensures
        expr_at(show_at(e, k, at, extra) + r, p) == climb(r, p, e),
    decreases e, 1nat,
{
    if level_of(e) >= k && !extra(at) {
        lemma_show(e, at, extra, p, r);
    } else {
        let inner = show(e, at, extra) + seq![Tok::RightParen] + r;
        let ts = show_at(e, k, at, extra) + r;
        assert(ts =~= seq![Tok::LeftParen] + inner);
        assert(ts.drop_first() =~= inner);
        lemma_show(e, at, extra, OperPrec::DefaultZero, seq![Tok::RightParen] + r);
        assert(show(e, at, extra) + (seq![Tok::RightParen] + r) =~= inner);
        let after = seq![Tok::RightParen] + r;
        assert(after.drop_first() =~= r);
        assert(climb(after, OperPrec::DefaultZero, e) == Ok::<(Expr, Seq<Tok>), Failure>((e, after)));
        assert(juxtaposed(r, e) == Ok::<(Expr, Seq<Tok>), Failure>((e, r)));
        assert(operand(ts) == Ok::<(Expr, Seq<Tok>), Failure>((e, r)));
    }
}

proof fn lemma_show(
    e: Expr,
    at: Seq<nat>,
    extra: spec_fn(Seq<nat>) -> bool,
    p: OperPrec,
    r: Seq<Tok>,
)
    requires
        is_arith(e),
        p.level() < level_of(e),
        may_follow(r, level_of(e)),
    ensures
        expr_at(show(e, at, extra) + r, p) == climb(r, p, e),
    decreases e, 0nat,
{
    match e {
        Expr::Number(n) => {
            let ts = show(e, at, extra) + r;
            assert(ts.drop_first() =~= r);
            assert(operand(ts) == juxtaposed(r, e));
        },
        Expr::Add(a, b) | Expr::Subtract(a, b) | Expr::Multiply(a, b) | Expr::Divide(a, b) => {
            let k = level_of(e);
            let op = op_token(e);
            let tail = seq![op] + show_at(*b, k + 1, at.push(1), extra) + r;
            assert(show(e, at, extra) + r =~= show_at(*a, k, at.push(0), extra) + tail);
            lemma_show_at(*a, k, at.push(0), extra, p, tail);
            assert(tail.drop_first() =~= show_at(*b, k + 1, at.push(1), extra) + r);
            let q = if k == 1 { OperPrec::AddSub } else { OperPrec::MulDiv };
            lemma_show_at(*b, k + 1, at.push(1), extra, q, r);
            assert(apply_op(tail, *a) == Ok::<(Expr, Seq<Tok>), Failure>((e, r)));
        },
        _ => {},
    }
}

/// Written in the usual infix notation, every tree of numbers and `+ - * /`
/// parses back to itself: products and quotients bind more strongly than sums
/// and differences, operators of one level group from the left, and
/// parenthesised groups are taken whole, whether or not the parentheses are
/// needed.
pub proof fn standard_notation_parses_back(e: Expr, extra: spec_fn(Seq<nat>) -> bool)
    requires
        is_arith(e),
    ensures
        parse_tokens(show(e, Seq::empty(), extra) + seq![Tok::EOF]) == Ok::<Expr, Failure>(e),
{
    lemma_show(e, Seq::empty(), extra, OperPrec::DefaultZero, seq![Tok::EOF]);
}

/// A parenthesised group put right after a number, or after another group,
/// multiplies it: `n(e)` is `n * e`, and `(d)(e)` is `d * e`.
pub proof fn juxtaposed_group_multiplies(
    n: Seq<char>,
    d: Expr,
    e: Expr,
    extra: spec_fn(Seq<nat>) -> bool,
)
    requires
        is_arith(d),
        is_arith(e),
    ensures
        parse_tokens(seq![Tok::Num(n)] + group(e, extra) + seq![Tok::EOF]) == Ok::<Expr, Failure>(
            Expr::Multiply(Box::new(Expr::Number(n)), Box::new(e)),
        ),
        parse_tokens(group(d, extra) + group(e, extra) + seq![Tok::EOF]) == Ok::<Expr, Failure>(
            Expr::Multiply(Box::new(d), Box::new(e)),
        ),
{
    let eof = seq![Tok::EOF];
    let ge = group(e, extra);
    lemma_show_at(e, 4, Seq::empty(), extra, OperPrec::MulDiv, eof);
    assert(climb(eof, OperPrec::MulDiv, e) == Ok::<(Expr, Seq<Tok>), Failure>((e, eof)));
    let after = ge + eof;
    assert(juxtaposed(after, Expr::Number(n)) == Ok::<(Expr, Seq<Tok>), Failure>(
        (Expr::Multiply(Box::new(Expr::Number(n)), Box::new(e)), eof),
    ));
    let ts = seq![Tok::Num(n)] + ge + eof;
    assert(ts.drop_first() =~= after);
    assert(operand(ts) == juxtaposed(after, Expr::Number(n)));
    let ne = Expr::Multiply(Box::new(Expr::Number(n)), Box::new(e));
    assert(climb(eof, OperPrec::DefaultZero, ne) == Ok::<(Expr, Seq<Tok>), Failure>((ne, eof)));

    let us = group(d, extra) + ge + eof;
    let r2 = seq![Tok::RightParen] + after;
    lemma_show(d, Seq::empty(), extra, OperPrec::DefaultZero, r2);
    assert(us.drop_first() =~= show(d, Seq::empty(), extra) + r2);
    assert(climb(r2, OperPrec::DefaultZero, d) == Ok::<(Expr, Seq<Tok>), Failure>((d, r2)));
    assert(r2.drop_first() =~= after);
    let de = Expr::Multiply(Box::new(d), Box::new(e));
    assert(juxtaposed(after, d) == Ok::<(Expr, Seq<Tok>), Failure>((de, eof)));
    assert(operand(us) == Ok::<(Expr, Seq<Tok>), Failure>((de, eof)));
    assert(climb(eof, OperPrec::DefaultZero, de) == Ok::<(Expr, Seq<Tok>), Failure>((de, eof)));
}

/// `e` in parentheses.
pub open spec fn group(e: Expr, extra: spec_fn(Seq<nat>) -> bool) -> Seq<Tok> {
    seq![Tok::LeftParen] + show(e, Seq::empty(), extra) + seq![Tok::RightParen]
}

/// Parsing is a function of the text: two parses of one text give the same
/// tree, or fail alike, with the same kind and the same message.
pub proof fn parsing_is_deterministic(
    s: Seq<char>,
    r1: Result<Node, ParseError>,
    r2: Result<Node, ParseError>,
)
    requires
        outcome(&r1) == parse_text(s),
        outcome(&r2) == parse_text(s),
    ensures
        outcome(&r1) == outcome(&r2),
{
}

/// A chain of powers groups from the right: `a^b^c` is `a^(b^c)`.
pub proof fn chained_powers_group_from_the_right(a: Seq<char>, b: Seq<char>, c: Seq<char>)
    ensures
        parse_tokens(
            seq![Tok::Num(a), Tok::Power, Tok::Num(b), Tok::Power, Tok::Num(c), Tok::EOF],
        ) == Ok::<Expr, Failure>(
            Expr::Power(
                Box::new(Expr::Number(a)),
                Box::new(Expr::Power(Box::new(Expr::Number(b)), Box::new(Expr::Number(c)))),
            ),
        ),
{
    let ts = seq![Tok::Num(a), Tok::Power, Tok::Num(b), Tok::Power, Tok::Num(c), Tok::EOF];
    let t1 = seq![Tok::Power, Tok::Num(b), Tok::Power, Tok::Num(c), Tok::EOF];
    let t2 = seq![Tok::Num(b), Tok::Power, Tok::Num(c), Tok::EOF];
    let t3 = seq![Tok::Power, Tok::Num(c), Tok::EOF];
    let t4 = seq![Tok::Num(c), Tok::EOF];
    let t5 = seq![Tok::EOF];
    let (na, nb, nc) = (Expr::Number(a), Expr::Number(b), Expr::Number(c));
    let bc = Expr::Power(Box::new(nb), Box::new(nc));
    assert(ts.drop_first() =~= t1 && t1.drop_first() =~= t2 && t2.drop_first() =~= t3);
    assert(t3.drop_first() =~= t4 && t4.drop_first() =~= t5);
    assert(operand(t4) == Ok::<(Expr, Seq<Tok>), Failure>((nc, t5)));
    assert(expr_at(t4, OperPrec::MulDiv) == Ok::<(Expr, Seq<Tok>), Failure>((nc, t5)));
    assert(apply_op(t3, nb) == Ok::<(Expr, Seq<Tok>), Failure>((bc, t5)));
    assert(operand(t2) == Ok::<(Expr, Seq<Tok>), Failure>((nb, t3)));
    assert(climb(t5, OperPrec::MulDiv, bc) == Ok::<(Expr, Seq<Tok>), Failure>((bc, t5)));
    assert(expr_at(t2, OperPrec::MulDiv) == Ok::<(Expr, Seq<Tok>), Failure>((bc, t5)));
    assert(operand(ts) == Ok::<(Expr, Seq<Tok>), Failure>((na, t1)));
    let abc = Expr::Power(Box::new(na), Box::new(bc));
    assert(apply_op(t1, na) == Ok::<(Expr, Seq<Tok>), Failure>((abc, t5)));
    assert(climb(t5, OperPrec::DefaultZero, abc) == Ok::<(Expr, Seq<Tok>), Failure>((abc, t5)));
}

/// Negation takes the operand right after it and nothing more: `-a^b` is
/// `(-a)^b`.
pub proof fn negation_takes_the_next_operand(a: Seq<char>, b: Seq<char>)
    ensures
        parse_tokens(seq![Tok::Subtract, Tok::Num(a), Tok::Power, Tok::Num(b), Tok::EOF])
            == Ok::<Expr, Failure>(
            Expr::Power(
                Box::new(Expr::Negative(Box::new(Expr::Number(a)))),
                Box::new(Expr::Number(b)),
            ),
        ),
{
    let ts = seq![Tok::Subtract, Tok::Num(a), Tok::Power, Tok::Num(b), Tok::EOF];
    let t1 = seq![Tok::Num(a), Tok::Power, Tok::Num(b), Tok::EOF];
    let t2 = seq![Tok::Power, Tok::Num(b), Tok::EOF];
    let t3 = seq![Tok::Num(b), Tok::EOF];
    let t4 = seq![Tok::EOF];
    let (na, nb) = (Expr::Number(a), Expr::Number(b));
    let neg = Expr::Negative(Box::new(na));
    let pw = Expr::Power(Box::new(neg), Box::new(nb));
    assert(ts.drop_first() =~= t1 && t1.drop_first() =~= t2 && t2.drop_first() =~= t3);
    assert(t3.drop_first() =~= t4);
    assert(operand(t1) == Ok::<(Expr, Seq<Tok>), Failure>((na, t2)));
    assert(climb(t2, OperPrec::Negative, na) == Ok::<(Expr, Seq<Tok>), Failure>((na, t2)));
    assert(expr_at(t1, OperPrec::Negative) == Ok::<(Expr, Seq<Tok>), Failure>((na, t2)));
    assert(operand(ts) == Ok::<(Expr, Seq<Tok>), Failure>((neg, t2)));
    assert(operand(t3) == Ok::<(Expr, Seq<Tok>), Failure>((nb, t4)));
    assert(expr_at(t3, OperPrec::MulDiv) == Ok::<(Expr, Seq<Tok>), Failure>((nb, t4)));
    assert(apply_op(t2, neg) == Ok::<(Expr, Seq<Tok>), Failure>((pw, t4)));
    assert(climb(t4, OperPrec::DefaultZero, pw) == Ok::<(Expr, Seq<Tok>), Failure>((pw, t4)));
}

} // verus!
