use vstd::prelude::*;

verus! {

/// A node of the syntax tree. Each node owns its operands; a number keeps the
/// characters it was written with.
#[derive(Debug, PartialEq)]
pub enum Node {
    Add(Box<Node>, Box<Node>),
    Subtract(Box<Node>, Box<Node>),
    Multiply(Box<Node>, Box<Node>),
    Divide(Box<Node>, Box<Node>),
    Power(Box<Node>, Box<Node>),
    Negative(Box<Node>),
    Number(String),
}

/// The mathematical form of a syntax tree.
pub enum Expr {
    Add(Box<Expr>, Box<Expr>),
    Subtract(Box<Expr>, Box<Expr>),
    Multiply(Box<Expr>, Box<Expr>),
    Divide(Box<Expr>, Box<Expr>),
    Power(Box<Expr>, Box<Expr>),
    Negative(Box<Expr>),
    Number(Seq<char>),
}

/// The tree that a node stands for.
pub open spec fn expr_of(n: Node) -> Expr
    decreases n,
{
    match n {
        Node::Add(a, b) => Expr::Add(Box::new(expr_of(*a)), Box::new(expr_of(*b))),
        Node::Subtract(a, b) => Expr::Subtract(Box::new(expr_of(*a)), Box::new(expr_of(*b))),
        Node::Multiply(a, b) => Expr::Multiply(Box::new(expr_of(*a)), Box::new(expr_of(*b))),
        Node::Divide(a, b) => Expr::Divide(Box::new(expr_of(*a)), Box::new(expr_of(*b))),
        Node::Power(a, b) => Expr::Power(Box::new(expr_of(*a)), Box::new(expr_of(*b))),
        Node::Negative(a) => Expr::Negative(Box::new(expr_of(*a))),
        Node::Number(s) => Expr::Number(s@),
    }
}

impl View for Node {
    type V = Expr;

    open spec fn view(&self) -> Expr {
        expr_of(*self)
    }
}

} // verus!
