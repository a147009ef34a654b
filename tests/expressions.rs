use parsemath::ast::Node;
use parsemath::parse_expression;
use parsemath::parser::{ParseError, Parser};
use parsemath::token::{OperPrec, Token};
use parsemath::tokenizer::Tokenizer;

fn value(n: &Node) -> f64 {
    match n {
        Node::Add(a, b) => value(a) + value(b),
        Node::Subtract(a, b) => value(a) - value(b),
        Node::Multiply(a, b) => value(a) * value(b),
        Node::Divide(a, b) => value(a) / value(b),
        Node::Power(a, b) => value(a).powf(value(b)),
        Node::Negative(a) => -value(a),
        Node::Number(s) => s.parse::<f64>().unwrap(),
    }
}

fn evaluate(text: &str) -> Result<f64, ParseError> {
    parse_expression(text).map(|n| value(&n))
}

fn num(s: &str) -> Box<Node> {
    Box::new(Node::Number(s.to_string()))
}

#[test]
fn products_bind_more_strongly_than_sums() {
    assert_eq!(evaluate("1+2*3").unwrap(), 7.0);
    assert_eq!(evaluate("(1+2)*3").unwrap(), 9.0);
    assert_eq!(evaluate("10/4-1").unwrap(), 1.5);
    assert_eq!(evaluate("2*3+4*5").unwrap(), 26.0);
    assert_eq!(evaluate("((7))").unwrap(), 7.0);
    assert_eq!(
        parse_expression("1+2*3").unwrap(),
        Node::Add(num("1"), Box::new(Node::Multiply(num("2"), num("3"))))
    );
}

#[test]
fn subtraction_groups_from_the_left() {
    assert_eq!(evaluate("8 - 3 - 2").unwrap(), 3.0);
    assert_eq!(evaluate("16/4/2").unwrap(), 2.0);
    assert_eq!(
        parse_expression("8-3-2").unwrap(),
        Node::Subtract(Box::new(Node::Subtract(num("8"), num("3"))), num("2"))
    );
}

#[test]
fn implicit_multiplication() {
    assert_eq!(evaluate("2(3+4)").unwrap(), 14.0);
    assert_eq!(evaluate("3(3+4)").unwrap(), 21.0);
    assert_eq!(evaluate("(1+2)(3+4)").unwrap(), 21.0);
    assert_eq!(
        parse_expression("2(3)").unwrap(),
        Node::Multiply(num("2"), num("3"))
    );
}

#[test]
fn unary_negation() {
    assert_eq!(evaluate("-3+5").unwrap(), 2.0);
    assert_eq!(evaluate("-(2+3)").unwrap(), -5.0);
    assert_eq!(
        parse_expression("-3+5").unwrap(),
        Node::Add(Box::new(Node::Negative(num("3"))), num("5"))
    );
}

#[test]
fn negation_applies_before_a_power() {
    assert_eq!(evaluate("-2^2").unwrap(), 4.0);
    assert_eq!(
        parse_expression("-2^2").unwrap(),
        Node::Power(Box::new(Node::Negative(num("2"))), num("2"))
    );
}

#[test]
fn powers() {
    assert_eq!(evaluate("2^3").unwrap(), 8.0);
    assert_eq!(evaluate("2*2^3").unwrap(), 16.0);
    assert_eq!(evaluate("2^3*2").unwrap(), 16.0);
    assert_eq!(evaluate("4^0.5").unwrap(), 2.0);
}

#[test]
fn chained_powers_group_from_the_right() {
    assert_eq!(evaluate("2^3^2").unwrap(), 512.0);
    assert_eq!(
        parse_expression("2^3^2").unwrap(),
        Node::Power(num("2"), Box::new(Node::Power(num("3"), num("2"))))
    );
}

#[test]
fn division_by_zero_gives_infinity() {
    let v = evaluate("1/0").unwrap();
    assert!(v.is_infinite() && v > 0.0);
    assert!(evaluate("0/0").unwrap().is_nan());
}

#[test]
fn trailing_operator_is_unable_to_parse() {
    assert!(matches!(evaluate("3 + "), Err(ParseError::UnableToParse(_))));
    assert!(matches!(evaluate(""), Err(ParseError::UnableToParse(_))));
    assert!(matches!(evaluate("*2"), Err(ParseError::UnableToParse(_))));
}

#[test]
fn unmatched_parenthesis_is_invalid_operator() {
    assert!(matches!(evaluate("(1+2"), Err(ParseError::InvalidOperator(_))));
    assert!(matches!(evaluate("(1+2]"), Err(ParseError::InvalidOperator(_))));
}

#[test]
fn unrecognised_character_is_invalid_operator() {
    assert!(matches!(evaluate("2+x"), Err(ParseError::InvalidOperator(_))));
    assert!(matches!(Parser::new("x+1"), Err(ParseError::InvalidOperator(_))));
    assert!(matches!(evaluate("3.+1"), Err(ParseError::InvalidOperator(_))));
}

#[test]
fn tokens_left_over_are_invalid_operator() {
    assert!(matches!(evaluate("1+2)"), Err(ParseError::InvalidOperator(_))));
    assert!(matches!(evaluate("(1+2)3"), Err(ParseError::InvalidOperator(_))));
    let e = parse_expression("2 3").unwrap_err();
    assert_eq!(e.describe(), "Invalid operator (Expected EOF, got Num(3))");
    let mut p = Parser::new("1+2)").unwrap();
    assert!(matches!(p.parse(), Err(ParseError::InvalidOperator(_))));
}

#[test]
fn evaluating_twice_gives_identical_bits() {
    for text in ["1/3+2^0.5", "-(2.5*4)(1/7)", "1/0", "0/0"] {
        let a = evaluate(text).unwrap();
        let b = evaluate(text).unwrap();
        assert_eq!(a.to_bits(), b.to_bits());
    }
}

#[test]
fn parser_new_then_parse() {
    let mut p = Parser::new("1.5*(2+2)").unwrap();
    let tree = p.parse().unwrap();
    assert_eq!(value(&tree), 6.0);
}

#[test]
fn tokenizer_reads_numbers_and_operators() {
    let mut t = Tokenizer::new(" 12.5+(3)^ 40");
    assert_eq!(t.next(), Some(Token::Num("12.5".to_string())));
    assert_eq!(t.next(), Some(Token::Add));
    assert_eq!(t.next(), Some(Token::LeftParen));
    assert_eq!(t.next(), Some(Token::Num("3".to_string())));
    assert_eq!(t.next(), Some(Token::RightParen));
    assert_eq!(t.next(), Some(Token::Power));
    assert_eq!(t.next(), Some(Token::Num("40".to_string())));
    assert_eq!(t.next(), Some(Token::EOF));
    assert_eq!(t.next(), Some(Token::EOF));
}

#[test]
fn tokenizer_stops_at_an_unrecognised_character() {
    let mut t = Tokenizer::new("1.2.3");
    assert_eq!(t.next(), Some(Token::Num("1.2".to_string())));
    assert_eq!(t.next(), None);
    let mut u = Tokenizer::new("-/*");
    assert_eq!(u.next(), Some(Token::Subtract));
    assert_eq!(u.next(), Some(Token::Divide));
    assert_eq!(u.next(), Some(Token::Multiply));
    assert_eq!(u.next(), Some(Token::EOF));
}

#[test]
fn operator_precedence_classes() {
    assert_eq!(Token::Add.get_oper_prec(), OperPrec::AddSub);
    assert_eq!(Token::Subtract.get_oper_prec(), OperPrec::AddSub);
    assert_eq!(Token::Multiply.get_oper_prec(), OperPrec::MulDiv);
    assert_eq!(Token::Divide.get_oper_prec(), OperPrec::MulDiv);
    assert_eq!(Token::Power.get_oper_prec(), OperPrec::Power);
    assert_eq!(Token::Num("1".to_string()).get_oper_prec(), OperPrec::DefaultZero);
    assert_eq!(Token::EOF.get_oper_prec(), OperPrec::DefaultZero);
    assert!(OperPrec::AddSub.lt(&OperPrec::MulDiv));
    assert!(!OperPrec::Negative.lt(&OperPrec::Power));
    assert_eq!(OperPrec::Power.rank(), 3);
}

#[test]
fn token_names() {
    assert_eq!(Token::Num("12.5".to_string()).name(), "Num(12.5)");
    assert_eq!(Token::RightParen.name(), "RightParen");
    assert_eq!(Token::EOF.name(), "EOF");
}

#[test]
fn redundant_parentheses_change_nothing() {
    assert_eq!(parse_expression("((1)+(2*3))").unwrap(), parse_expression("1+2*3").unwrap());
    assert_eq!(evaluate("(8-3)-2").unwrap(), 3.0);
}

#[test]
fn failing_twice_gives_the_same_error() {
    for text in ["3+", "(1+2", "1+2)", "2+x", ""] {
        let a = parse_expression(text).unwrap_err().describe();
        let b = parse_expression(text).unwrap_err().describe();
        assert_eq!(a, b);
    }
}

#[test]
fn error_descriptions() {
    let e = parse_expression("3+").unwrap_err();
    assert_eq!(e.describe(), "Unable to parse input (Unable to parse)");
    let f = parse_expression("(1").unwrap_err();
    assert_eq!(f.describe(), "Invalid operator (Expected RightParen, got EOF)");
    let g = parse_expression("(1*2").unwrap_err();
    assert_eq!(g.describe(), "Invalid operator (Expected RightParen, got EOF)");
    let h = parse_expression("2+x").unwrap_err();
    assert_eq!(h.describe(), "Invalid operator (Invalid character)");
}

