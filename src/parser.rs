use vstd::prelude::*;
use vstd::string::StringExecFns;
use crate::ast::{Expr, Node};
use crate::token::{prec_of, tok_name, OperPrec, Tok, Token};
use crate::tokenizer::{lex, Tokenizer};

verus! {

/// The two kinds of failure, without their messages.
#[derive(Debug, Clone, Copy, PartialEq, Eq, Structural)]
pub enum Fail {
    UnableToParse,
    InvalidOperator,
}

/// Why an expression could not be parsed, with a descriptive message.
///
/// `UnableToParse`: no number, parenthesis or negation stands where an operand
/// is expected. `InvalidOperator`: something else stands where an operator or a
/// closing parenthesis is expected, a token is left over after a complete
/// expression, or an unrecognised character was reached where one more token
/// was needed.
#[derive(Debug)]
pub enum ParseError {
    UnableToParse(String),
    InvalidOperator(String),
}

/// A failure as the grammar describes it: its kind and its message.
pub struct Failure {
    pub kind: Fail,
    pub message: Seq<char>,
}

/// No operand stands where one is expected.
pub open spec fn unable() -> Failure {
    Failure { kind: Fail::UnableToParse, message: "Unable to parse"@ }
}

/// The tokens ran out, at an unrecognised character, where one more was needed.
pub open spec fn invalid_char() -> Failure {
    Failure { kind: Fail::InvalidOperator, message: "Invalid character"@ }
}

/// A token stands where an operator is expected but is none.
pub open spec fn not_an_operator(t: Tok) -> Failure {
    Failure { kind: Fail::InvalidOperator, message: "Please enter valid operator "@ + tok_name(t) }
}

/// A token stands where a closing parenthesis must.
pub open spec fn unclosed(t: Tok) -> Failure {
    Failure { kind: Fail::InvalidOperator, message: "Expected RightParen, got "@ + tok_name(t) }
}

/// A token follows a complete expression.
pub open spec fn left_over(t: Tok) -> Failure {
    Failure { kind: Fail::InvalidOperator, message: "Expected EOF, got "@ + tok_name(t) }
}

impl ParseError {
    /// The failure that this error reports.
    pub open spec fn failure(&self) -> Failure {
        Failure { kind: self.fail(), message: self.message() }
    }

    pub open spec fn fail(&self) -> Fail {
        match self {
            ParseError::UnableToParse(_) => Fail::UnableToParse,
            ParseError::InvalidOperator(_) => Fail::InvalidOperator,
        }
    }

    pub open spec fn message(&self) -> Seq<char> {
        match self {
            ParseError::UnableToParse(m) => m@,
            ParseError::InvalidOperator(m) => m@,
        }
    }

    /// The error as a line of text: its kind, then its message in parentheses.
    pub fn describe(&self) -> (r: String)
        ensures
            r@ == match self.fail() {
                Fail::UnableToParse => "Unable to parse input ("@,
                Fail::InvalidOperator => "Invalid operator ("@,
            } + self.message() + ")"@,
    {
        let (head, msg) = match self {
            ParseError::UnableToParse(m) => (String::from_str("Unable to parse input ("), m),
            ParseError::InvalidOperator(m) => (String::from_str("Invalid operator ("), m),
        };
        head.concat(msg.as_str()).concat(")")
    }
}

/// The outcome of parsing a prefix of a token sequence: the tree and the
/// tokens after it.
pub type Parsed = Result<(Expr, Seq<Tok>), Failure>;

/// The tree that a binary operator token builds from its two operands.
pub open spec fn binary(op: Tok, l: Expr, r: Expr) -> Expr {
    match op {
        Tok::Add => Expr::Add(Box::new(l), Box::new(r)),
        Tok::Subtract => Expr::Subtract(Box::new(l), Box::new(r)),
        Tok::Multiply => Expr::Multiply(Box::new(l), Box::new(r)),
        Tok::Divide => Expr::Divide(Box::new(l), Box::new(r)),
        _ => Expr::Power(Box::new(l), Box::new(r)),
    }
}

pub open spec fn is_binary_op(t: Tok) -> bool {
    t is Add || t is Subtract || t is Multiply || t is Divide || t is Power
}

/// The level at which the right operand of a binary operator is parsed: only
/// operators that bind more strongly join it. `+ -` take everything above
/// them; `* /` take powers; `^` takes further powers, which makes a chain of
/// powers group from the right.
pub open spec fn right_prec(op: Tok) -> OperPrec {
    if op is Add || op is Subtract {
        OperPrec::AddSub
    } else {
        OperPrec::MulDiv
    }
}

/// An expression at the front of `ts`, built of operators that bind more
/// strongly than `p`: one operand, then as many operators as bind.
///
/// Every successful step here consumes at least one token; the fallback
/// branches on lengths only make that visible to the termination check.
pub open spec fn expr_at(ts: Seq<Tok>, p: OperPrec) -> Parsed
    decreases ts.len(), 2nat,
{
    match operand(ts) {
        Err(f) => Err(f),
        Ok((l, rest)) => if rest.len() < ts.len() {
            climb(rest, p, l)
        } else {
            Err(unable())
        },
    }
}

/// Folds operators that bind more strongly than `p` onto the left operand
/// `l`, from left to right.
pub open spec fn climb(ts: Seq<Tok>, p: OperPrec, l: Expr) -> Parsed
    decreases ts.len(), 3nat,
{
    if ts.len() > 0 && p.level() < prec_of(ts[0]).level() {
        match apply_op(ts, l) {
            Err(f) => Err(f),
            Ok((n, rest)) => if rest.len() < ts.len() {
                climb(rest, p, n)
            } else {
                Err(unable())
            },
        }
    } else {
        Ok((l, ts))
    }
}

/// The operator at the front of `ts` applied to `l` and the operand after it.
pub open spec fn apply_op(ts: Seq<Tok>, l: Expr) -> Parsed
    decreases ts.len(), 0nat,
{
    if ts.len() == 0 {
        Err(invalid_char())
    } else if !is_binary_op(ts[0]) {
        Err(not_an_operator(ts[0]))
    } else if ts.len() < 2 {
        Err(invalid_char())
    } else {
        match expr_at(ts.drop_first(), right_prec(ts[0])) {
            Err(f) => Err(f),
            Ok((r, rest)) => Ok((binary(ts[0], l, r), rest)),
        }
    }
}

/// One operand at the front of `ts`: a negated operand, a parenthesised
/// expression, or a number; the last two may be followed by a parenthesised
/// factor that multiplies them.
pub open spec fn operand(ts: Seq<Tok>) -> Parsed
    decreases ts.len(), 1nat,
{
    if ts.len() == 0 {
        Err(unable())
    } else if ts[0] is Subtract || ts[0] is LeftParen || ts[0] is Num {
        if ts.len() < 2 {
            Err(invalid_char())
        } else if ts[0] is Subtract {
            match expr_at(ts.drop_first(), OperPrec::Negative) {
                Err(f) => Err(f),
                Ok((e, rest)) => Ok((Expr::Negative(Box::new(e)), rest)),
            }
        } else if ts[0] is LeftParen {
            match expr_at(ts.drop_first(), OperPrec::DefaultZero) {
                Err(f) => Err(f),
                Ok((e, rest)) => if rest.len() == 0 {
                    Err(invalid_char())
                } else if !(rest[0] is RightParen) {
                    Err(unclosed(rest[0]))
                } else if rest.len() < 2 {
                    Err(invalid_char())
                } else if rest.len() <= ts.len() {
                    juxtaposed(rest.drop_first(), e)
                } else {
                    Err(unable())
                },
            }
        } else {
            juxtaposed(ts.drop_first(), Expr::Number(ts[0]->Num_0))
        }
    } else {
        Err(unable())
    }
}

/// `e` multiplied by the factor that starts at the front of `ts` where that
/// is an opening parenthesis; `e` alone otherwise.
pub open spec fn juxtaposed(ts: Seq<Tok>, e: Expr) -> Parsed
    decreases ts.len(), 3nat,
{
    if ts.len() > 0 && ts[0] is LeftParen {
        match expr_at(ts, OperPrec::MulDiv) {
            Err(f) => Err(f),
            Ok((r, rest)) => Ok((Expr::Multiply(Box::new(e), Box::new(r)), rest)),
        }
    } else {
        Ok((e, ts))
    }
}

/// The tree of a whole token sequence: one expression, then the end of the
/// input. Any token left over after the expression is a failure.
pub open spec fn parse_tokens(ts: Seq<Tok>) -> Result<Expr, Failure> {
    match expr_at(ts, OperPrec::DefaultZero) {
        Err(f) => Err(f),
        Ok((e, rest)) => if rest.len() == 0 {
            Err(invalid_char())
        } else if rest[0] is EOF {
            Ok(e)
        } else {
            Err(left_over(rest[0]))
        },
    }
}

/// The tree of a text, or the failure that parsing it meets.
pub open spec fn parse_text(s: Seq<char>) -> Result<Expr, Failure> {
    if lex(s).len() == 0 {
        Err(invalid_char())
    } else {
        parse_tokens(lex(s))
    }
}

/// Builds the syntax tree of an expression, pulling tokens one at a time.
pub struct Parser {
    tokenizer: Tokenizer,
    current_token: Token,
}

/// Whether `r`, with `rest` the tokens left afterwards, is what `outcome`
/// describes: the same tree and the same tokens left, or the same failure.
pub open spec fn matches_outcome(outcome: Parsed, r: Result<Node, ParseError>, rest: Seq<Tok>) -> bool {
    match outcome {
        Ok((e, after)) => r is Ok && r->Ok_0@ == e && rest == after,
        Err(f) => r is Err && r->Err_0.failure() == f,
    }
}

/// A parse result in mathematical form: the tree, or the failure.
pub open spec fn outcome(r: &Result<Node, ParseError>) -> Result<Expr, Failure> {
    match r {
        Ok(n) => Ok(n@),
        Err(e) => Err(e.failure()),
    }
}

impl Parser {
    /// The tokens still to be parsed, the current one first. Once the current
    /// token is `EOF` nothing more is read.
    pub closed spec fn tokens(&self) -> Seq<Tok> {
        if self.current_token@ is EOF {
            seq![Tok::EOF]
        } else {
            seq![self.current_token@] + self.tokenizer.remaining()
        }
    }

    pub closed spec fn wf(&self) -> bool {
        self.tokenizer.wf()
    }

    /// Starts parsing `expr` by reading its first token. Fails with
    /// `InvalidOperator` where the text starts with an unrecognised character.
    pub fn new(expr: &str) -> (r: Result<Self, ParseError>)
        ensures
            match r {
                Ok(p) => p.wf() && lex(expr@).len() > 0 && p.tokens() == lex(expr@),
                Err(e) => lex(expr@).len() == 0 && e.failure() == invalid_char(),
            },
    {
        let mut lexer = Tokenizer::new(expr);
        let current_token = match lexer.next() {
            Some(token) => token,
            None => return Err(ParseError::InvalidOperator(String::from_str("Invalid character"))),
        };
        Ok(Parser { tokenizer: lexer, current_token })
    }

    /// Parses the whole expression, which must take up all of the input.
    pub fn parse(&mut self) -> (r: Result<Node, ParseError>)
        requires
            old(self).wf(),
        ensures
            final(self).wf(),
            outcome(&r) == parse_tokens(old(self).tokens()),
    {
        let tree = match self.generate_ast(OperPrec::DefaultZero) {
            Ok(n) => n,
            Err(e) => return Err(e),
        };
        if let Token::EOF = self.current_token {
            Ok(tree)
        } else {
            let msg = String::from_str("Expected EOF, got ").concat(self.current_token.name().as_str());
            Err(ParseError::InvalidOperator(msg))
        }
    }

    fn generate_ast(&mut self, oper_prec: OperPrec) -> (r: Result<Node, ParseError>)
        requires
            old(self).wf(),
        ensures
            final(self).wf(),
            matches_outcome(expr_at(old(self).tokens(), oper_prec), r, final(self).tokens()),
            r is Ok ==> final(self).tokens().len() < old(self).tokens().len(),
        decreases old(self).tokens().len(), 2nat,
    {
        let mut left_expr = match self.parse_number() {
            Ok(n) => n,
            Err(e) => return Err(e),
        };
        loop
            invariant
                self.wf(),
                self.tokens().len() < old(self).tokens().len(),
                expr_at(old(self).tokens(), oper_prec) == climb(self.tokens(), oper_prec, left_expr@),
            decreases self.tokens().len(),
        {
            let prec = self.current_token.get_oper_prec();
            if !oper_prec.lt(&prec) {
                return Ok(left_expr);
            }
            left_expr = match self.node_from_token(left_expr) {
                Ok(n) => n,
                Err(e) => return Err(e),
            };
        }
    }

    fn parse_number(&mut self) -> (r: Result<Node, ParseError>)
        requires
            old(self).wf(),
        ensures
            final(self).wf(),
            matches_outcome(operand(old(self).tokens()), r, final(self).tokens()),
            r is Ok ==> final(self).tokens().len() < old(self).tokens().len(),
        decreases old(self).tokens().len(), 1nat,
    {
        match &self.current_token {
            Token::Subtract => {
                match self.next_token() {
                    Ok(()) => {},
                    Err(e) => return Err(e),
                }
                let expr = match self.generate_ast(OperPrec::Negative) {
                    Ok(n) => n,
                    Err(e) => return Err(e),
                };
                Ok(Node::Negative(Box::new(expr)))
            },
            Token::LeftParen => {
                match self.next_token() {
                    Ok(()) => {},
                    Err(e) => return Err(e),
                }
                let expr = match self.generate_ast(OperPrec::DefaultZero) {
                    Ok(n) => n,
                    Err(e) => return Err(e),
                };
                match self.check_paren() {
                    Ok(()) => {},
                    Err(e) => return Err(e),
                }
                self.implicit_product(expr)
            },
            Token::Num(num) => {
                let num = num.clone();
                match self.next_token() {
                    Ok(()) => {},
                    Err(e) => return Err(e),
                }
                self.implicit_product(Node::Number(num))
            },
            _ => Err(ParseError::UnableToParse(String::from_str("Unable to parse"))),
        }
    }

    /// Multiplies `left` by the parenthesised factor that follows it, if one does.
    fn implicit_product(&mut self, left: Node) -> (r: Result<Node, ParseError>)
        requires
            old(self).wf(),
        ensures
            final(self).wf(),
            matches_outcome(juxtaposed(old(self).tokens(), left@), r, final(self).tokens()),
            r is Ok ==> final(self).tokens().len() <= old(self).tokens().len(),
        decreases old(self).tokens().len(), 3nat,
    {
        if let Token::LeftParen = self.current_token {
            let right = match self.generate_ast(OperPrec::MulDiv) {
                Ok(n) => n,
                Err(e) => return Err(e),
            };
            Ok(Node::Multiply(Box::new(left), Box::new(right)))
        } else {
            Ok(left)
        }
    }

    fn node_from_token(&mut self, left_expr: Node) -> (r: Result<Node, ParseError>)
        requires
            old(self).wf(),
        ensures
            final(self).wf(),
            matches_outcome(apply_op(old(self).tokens(), left_expr@), r, final(self).tokens()),
            r is Ok ==> final(self).tokens().len() < old(self).tokens().len(),
            !is_binary_op(old(self).tokens()[0]) ==> *final(self) == *old(self),
        decreases old(self).tokens().len(), 0nat,
    {
        let op: u8 = match self.current_token {
            Token::Add => 0,
            Token::Subtract => 1,
            Token::Multiply => 2,
            Token::Divide => 3,
            Token::Power => 4,
            _ => {
                let msg = String::from_str("Please enter valid operator ").concat(
                    self.current_token.name().as_str(),
                );
                return Err(ParseError::InvalidOperator(msg));
            },
        };
        match self.next_token() {
            Ok(()) => {},
            Err(e) => return Err(e),
        }
        let prec = if op <= 1 {
            OperPrec::AddSub
        } else {
            OperPrec::MulDiv
        };
        let right_expr = match self.generate_ast(prec) {
            Ok(n) => n,
            Err(e) => return Err(e),
        };
        let (l, r) = (Box::new(left_expr), Box::new(right_expr));
        Ok(
            if op == 0 {
                Node::Add(l, r)
            } else if op == 1 {
                Node::Subtract(l, r)
            } else if op == 2 {
                Node::Multiply(l, r)
            } else if op == 3 {
                Node::Divide(l, r)
            } else {
                Node::Power(l, r)
            },
        )
    }

    /// Consumes the closing parenthesis that must stand here.
    fn check_paren(&mut self) -> (r: Result<(), ParseError>)
        requires
            old(self).wf(),
        ensures
            final(self).wf(),
            old(self).tokens()[0] is RightParen && old(self).tokens().len() >= 2 ==> r is Ok
                && final(self).tokens() == old(self).tokens().drop_first(),
            old(self).tokens()[0] is RightParen && old(self).tokens().len() < 2 ==> r is Err
                && r->Err_0.failure() == invalid_char() && *final(self) == *old(self),
            !(old(self).tokens()[0] is RightParen) ==> r is Err && r->Err_0.failure() == unclosed(
                old(self).tokens()[0],
            ) && *final(self) == *old(self),
    {
        if let Token::RightParen = self.current_token {
            self.next_token()
        } else {
            let msg = String::from_str("Expected RightParen, got ").concat(
                self.current_token.name().as_str(),
            );
            Err(ParseError::InvalidOperator(msg))
        }
    }

    /// Reads the token after the current one, which must not be `EOF`.
    fn next_token(&mut self) -> (r: Result<(), ParseError>)
        requires
            old(self).wf(),
            !(old(self).current_token@ is EOF),
        ensures
            final(self).wf(),
            old(self).tokens().len() >= 2 ==> r is Ok && final(self).tokens()
                == old(self).tokens().drop_first(),
            old(self).tokens().len() < 2 ==> r is Err && r->Err_0.failure() == invalid_char()
                && *final(self) == *old(self),
    {
        let next_token = match self.tokenizer.next() {
            Some(token) => token,
            None => return Err(ParseError::InvalidOperator(String::from_str("Invalid character"))),
        };
        self.current_token = next_token;
        proof {
            assert(old(self).tokens().drop_first() =~= old(self).tokenizer.remaining());
        }
        Ok(())
    }
}

} // verus!
