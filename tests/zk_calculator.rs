use zk_calculator::errors::{CircuitError, ParserError};
use zk_calculator::field::FieldElement;
use zk_calculator::operator::Operator;
use zk_calculator::zk_calculator::{parse_operand, Operation, ZkCalculator};

fn parsed(line: &str) -> Result<Option<Operation>, ParserError> {
    let mut calc = ZkCalculator::new();
    calc.parse(line.to_string()).map(|_| calc.operation)
}

#[test]
fn parses_a_plain_line() {
    assert_eq!(parsed("2 + 3"), Ok(Some(Operation { a: 2, b: 3, operator: Operator::Add })));
    assert_eq!(parsed("2 - 3\n"), Ok(Some(Operation { a: 2, b: 3, operator: Operator::Sub })));
    assert_eq!(parsed("  7\t*\u{3000}8  "), Ok(Some(Operation { a: 7, b: 8, operator: Operator::Mul })));
    assert_eq!(parsed("+5 * 0"), Ok(Some(Operation { a: 5, b: 0, operator: Operator::Mul })));
}

#[test]
fn reports_each_parser_error() {
    assert_eq!(parsed(""), Err(ParserError::NotEnoughInputs));
    assert_eq!(parsed("   "), Err(ParserError::NotEnoughInputs));
    assert_eq!(parsed("2"), Err(ParserError::NotEnoughInputs));
    assert_eq!(parsed("2 +"), Err(ParserError::NotEnoughInputs));
    assert_eq!(parsed("2 + 3 4"), Err(ParserError::TooManyInputs));
    assert_eq!(parsed("x + 3"), Err(ParserError::InvalidOperand));
    assert_eq!(parsed("2 + y"), Err(ParserError::InvalidOperand));
    assert_eq!(parsed("2 / 3"), Err(ParserError::InvalidOperator));
    assert_eq!(parsed("2 ++ 3"), Err(ParserError::InvalidOperator));
    assert_eq!(parsed("-2 + 3"), Err(ParserError::InvalidOperand));
    assert_eq!(parsed("x"), Err(ParserError::InvalidOperand));
    assert_eq!(parsed("2 /"), Err(ParserError::InvalidOperator));
}

#[test]
fn a_failed_parse_keeps_the_previous_operation() {
    let mut calc = ZkCalculator::new();
    assert_eq!(calc.parse("4 * 5".to_string()), Ok(()));
    assert_eq!(calc.parse("4 * ".to_string()), Err(ParserError::NotEnoughInputs));
    assert_eq!(calc.operation, Some(Operation { a: 4, b: 5, operator: Operator::Mul }));
}

#[test]
fn operands_are_bounded_by_u64() {
    let max: Vec<char> = "18446744073709551615".chars().collect();
    assert_eq!(parse_operand(&max), Ok(u64::MAX));
    let over: Vec<char> = "18446744073709551616".chars().collect();
    assert_eq!(parse_operand(&over), Err(ParserError::InvalidOperand));
    let plus: Vec<char> = "+".chars().collect();
    assert_eq!(parse_operand(&plus), Err(ParserError::InvalidOperand));
    let zeros: Vec<char> = "007".chars().collect();
    assert_eq!(parse_operand(&zeros), Ok(7));
}

#[test]
fn operators_from_chars_and_tokens() {
    assert_eq!(Operator::from_char('+'), Ok(Operator::Add));
    assert_eq!(Operator::from_char('-'), Ok(Operator::Sub));
    assert_eq!(Operator::from_char('*'), Ok(Operator::Mul));
    assert_eq!(Operator::from_char('/'), Err(ParserError::InvalidOperator));
    assert_eq!(Operator::from_token(&['*']), Ok(Operator::Mul));
    assert_eq!(Operator::from_token(&['*', '*']), Err(ParserError::InvalidOperator));
    assert_eq!(Operator::from_token(&[]), Err(ParserError::InvalidOperator));
}

#[test]
fn runs_the_circuit_on_the_parsed_operation() {
    let mut calc = ZkCalculator::new();
    calc.parse("2 + 3".to_string()).unwrap();
    assert_eq!(calc.run_circuit().unwrap(), FieldElement::from_u64(5));
    calc.parse("2 * 3".to_string()).unwrap();
    assert_eq!(calc.run_circuit().unwrap(), FieldElement::from_u64(6));
    calc.parse("2 - 3".to_string()).unwrap();
    let c = calc.run_circuit().unwrap();
    assert_eq!(c.add(&FieldElement::one()), FieldElement::zero());
}

#[test]
fn running_without_an_operation_fails() {
    let calc = ZkCalculator::new();
    assert!(matches!(calc.run_circuit(), Err(CircuitError::NoOperation)));
}

#[test]
fn parser_errors_have_messages() {
    assert_eq!(ParserError::InvalidOperand.message(), "invalid operand, operand must be numeric");
    assert_eq!(ParserError::TooManyInputs.message(), "too many inputs, valid format is `a operator b`");
}
