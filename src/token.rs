use vstd::prelude::*;
use vstd::string::StringExecFns;

verus! {

/// One lexical unit of an arithmetic expression.
///
/// A number keeps the characters it was written with (digits, optionally a
/// decimal point and more digits); turning them into a machine number is left
/// to whoever evaluates the tree.
#[derive(Debug, Clone, PartialEq)]
pub enum Token {
    Add,
    Subtract,
    Multiply,
    Divide,
    Power,
    LeftParen,
    RightParen,
    EOF,
    Num(String),
}

/// The mathematical form of a token: a number is the sequence of its characters.
pub enum Tok {
    Add,
    Subtract,
    Multiply,
    Divide,
    Power,
    LeftParen,
    RightParen,
    EOF,
    Num(Seq<char>),
}

/// Binding strength of an operator, from weakest to strongest.
#[derive(Debug, Clone, Copy, PartialEq, Eq, Structural, PartialOrd, Ord)]
pub enum OperPrec {
    DefaultZero,
    AddSub,
    MulDiv,
    Power,
    Negative,
}

impl OperPrec {
    /// The position of the level in the order `DefaultZero < AddSub < MulDiv < Power < Negative`.
    pub open spec fn level(self) -> nat {
        match self {
            OperPrec::DefaultZero => 0,
            OperPrec::AddSub => 1,
            OperPrec::MulDiv => 2,
            OperPrec::Power => 3,
            OperPrec::Negative => 4,
        }
    }

    /// Executable form of `level`, used to compare two levels.
    pub fn rank(&self) -> (r: u8)
        ensures
            r as nat == self.level(),
    {
        match self {
            OperPrec::DefaultZero => 0,
            OperPrec::AddSub => 1,
            OperPrec::MulDiv => 2,
            OperPrec::Power => 3,
            OperPrec::Negative => 4,
        }
    }

    /// Whether `self` binds strictly more weakly than `other`.
    pub fn lt(&self, other: &OperPrec) -> (r: bool)
        ensures
            r == (self.level() < other.level()),
    {
        self.rank() < other.rank()
    }
}

/// The precedence class of a token: `+ -` add/subtract, `* /` multiply/divide,
/// `^` power, everything else the lowest level.
pub open spec fn prec_of(t: Tok) -> OperPrec {
    match t {
        Tok::Add | Tok::Subtract => OperPrec::AddSub,
        Tok::Multiply | Tok::Divide => OperPrec::MulDiv,
        Tok::Power => OperPrec::Power,
        _ => OperPrec::DefaultZero,
    }
}

impl View for Token {
    type V = Tok;

    open spec fn view(&self) -> Tok {
        match self {
            Token::Add => Tok::Add,
            Token::Subtract => Tok::Subtract,
            Token::Multiply => Tok::Multiply,
            Token::Divide => Tok::Divide,
            Token::Power => Tok::Power,
            Token::LeftParen => Tok::LeftParen,
            Token::RightParen => Tok::RightParen,
            Token::EOF => Tok::EOF,
            Token::Num(s) => Tok::Num(s@),
        }
    }
}

/// How a token is named in messages: its kind, and for a number its text.
pub open spec fn tok_name(t: Tok) -> Seq<char> {
    match t {
        Tok::Add => "Add"@,
        Tok::Subtract => "Subtract"@,
        Tok::Multiply => "Multiply"@,
        Tok::Divide => "Divide"@,
        Tok::Power => "Power"@,
        Tok::LeftParen => "LeftParen"@,
        Tok::RightParen => "RightParen"@,
        Tok::EOF => "EOF"@,
        Tok::Num(s) => "Num("@ + s + ")"@,
    }
}

impl Token {
    /// The name of this token as messages show it.
    pub fn name(&self) -> (r: String)
        ensures
            r@ == tok_name(self@),
    {
        match self {
            Token::Add => String::from_str("Add"),
            Token::Subtract => String::from_str("Subtract"),
            Token::Multiply => String::from_str("Multiply"),
            Token::Divide => String::from_str("Divide"),
            Token::Power => String::from_str("Power"),
            Token::LeftParen => String::from_str("LeftParen"),
            Token::RightParen => String::from_str("RightParen"),
            Token::EOF => String::from_str("EOF"),
            Token::Num(s) => String::from_str("Num(").concat(s.as_str()).concat(")"),
        }
    }

    /// The precedence class of this token.
    pub fn get_oper_prec(&self) -> (r: OperPrec)
        ensures
            r == prec_of(self@),
    {
        match self {
            Token::Add | Token::Subtract => OperPrec::AddSub,
            Token::Multiply | Token::Divide => OperPrec::MulDiv,
            Token::Power => OperPrec::Power,
            _ => OperPrec::DefaultZero,
        }
    }
}

} // verus!
