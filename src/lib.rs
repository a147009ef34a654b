pub mod ast;
pub mod laws;
pub mod parser;
pub mod token;
pub mod tokenizer;

use vstd::prelude::*;
use crate::ast::Node;
use crate::parser::{outcome, parse_text, ParseError, Parser};

verus! {

/// Parses a whole expression text into its syntax tree. The result depends on
/// the characters of the text alone.
///
/// Whitespace between tokens is skipped. An unrecognised character ends the
/// token stream, and reaching it is an `InvalidOperator` failure, as running
/// out of tokens is. A chain of powers groups from the right; negation takes
/// only the operand right after it. A token left over after a complete
/// expression is an `InvalidOperator` failure. Numbers keep their text: turning them into machine numbers,
/// and what division by zero gives, is up to whoever evaluates the tree.
pub fn parse_expression(text: &str) -> (r: Result<Node, ParseError>)
    ensures
        outcome(&r) == parse_text(text@),
{
    let mut parser = match Parser::new(text) {
        Ok(p) => p,
        Err(e) => return Err(e),
    };
    parser.parse()
}

} // verus!
