//! Reading an operation `a op b` from a line, and proving it with the
//! calculator circuit.

use crate::calculator_circuit::{
    lemma_correct_result_verifies, proved_table, CalculatorCircuit, MockProver,
};
use crate::errors::{CircuitError, ParserError};
use crate::field::FieldElement;
use crate::operator::Operator;
use crate::plonk::empty_shape;
use crate::value::Value;
use vstd::prelude::*;

verus! {

/// Whether `c` has the Unicode `White_Space` property.
pub open spec fn is_white_space(c: char) -> bool {
    let u = c as u32;
    (9 <= u <= 13) || u == 32 || u == 0x85 || u == 0xA0 || u == 0x1680 || (0x2000 <= u <= 0x200A)
        || u == 0x2028 || u == 0x2029 || u == 0x202F || u == 0x205F || u == 0x3000
}

/// Whether `c` has the Unicode `White_Space` property.
pub fn is_white_space_char(c: char) -> (r: bool)
    ensures
        r == is_white_space(c),
{
    let u = c as u32;
    (9 <= u && u <= 13) || u == 32 || u == 0x85 || u == 0xA0 || u == 0x1680 || (0x2000 <= u && u
        <= 0x200A) || u == 0x2028 || u == 0x2029 || u == 0x202F || u == 0x205F || u == 0x3000
}

/// The number of non-space characters from position `i` on.
pub open spec fn word_len(s: Seq<char>, i: int) -> nat
    decreases s.len() - i,
{
    if 0 <= i < s.len() && !is_white_space(s[i]) {
        1 + word_len(s, i + 1)
    } else {
        0
    }
}

/// The whitespace-separated tokens of `s` from position `i` on.
pub open spec fn tokens_from(s: Seq<char>, i: int) -> Seq<Seq<char>>
    decreases s.len() - i,
{
    if i < 0 || i >= s.len() {
        seq![]
    } else if is_white_space(s[i]) {
        tokens_from(s, i + 1)
    } else if i + 1 + word_len(s, i + 1) > s.len() {
        seq![]
    } else {
        let e = i + 1 + word_len(s, i + 1);
        seq![s.subrange(i, e)] + tokens_from(s, e)
    }
}

/// The whitespace-separated tokens of `s`.
pub open spec fn tokens(s: Seq<char>) -> Seq<Seq<char>> {
    tokens_from(s, 0)
}

/// A word never runs past the end.
proof fn lemma_word_len(s: Seq<char>, i: int)
    requires
        0 <= i <= s.len(),
    ensures
        i + word_len(s, i) <= s.len(),
    decreases s.len() - i,
{
    if i < s.len() && !is_white_space(s[i]) {
        lemma_word_len(s, i + 1);
    }
}

/// The next token at or after position `i`: its start and end, or
/// `start == s.len()` when none is left.
fn next_token(s: &Vec<char>, i: usize) -> (r: (usize, usize))
    requires
        i <= s@.len(),
    ensures
        i <= r.0 <= r.1 <= s@.len(),
        r.0 == s@.len() ==> tokens_from(s@, i as int) == Seq::<Seq<char>>::empty(),
        r.0 < s@.len() ==> r.0 < r.1 && tokens_from(s@, i as int) == seq![s@.subrange(r.0 as int, r.1 as int)]
            + tokens_from(s@, r.1 as int),
{
    let mut j = i;
    while j < s.len() && is_white_space_char(s[j])
        invariant
            i <= j <= s@.len(),
            tokens_from(s@, i as int) == tokens_from(s@, j as int),
        decreases s@.len() - j,
    {
        j = j + 1;
    }
    if j == s.len() {
        return (j, j);
    }
    let start = j;
    j = j + 1;
    proof {
        lemma_word_len(s@, j as int);
    }
    let ghost end = start + 1 + word_len(s@, start + 1);
    while j < s.len() && !is_white_space_char(s[j])
        invariant
            start < j <= s@.len(),
            end == j + word_len(s@, j as int),
        decreases s@.len() - j,
    {
        j = j + 1;
    }
    (start, j)
}

/// The characters of `s` from `start` to `end`.
fn token_at(s: &Vec<char>, start: usize, end: usize) -> (r: Vec<char>)
    requires
        start <= end <= s@.len(),
    ensures
        r@ == s@.subrange(start as int, end as int),
{
    let mut r: Vec<char> = Vec::new();
    let mut i = start;
    while i < end
        invariant
            start <= i <= end <= s@.len(),
            r@ == s@.subrange(start as int, i as int),
        decreases end - i,
    {
        r.push(s[i]);
        i = i + 1;
    }
    r
}

/// The value of a digit character.
pub open spec fn digit_value(c: char) -> nat {
    ((c as u32) - ('0' as u32)) as nat
}

/// Whether every character is a decimal digit.
pub open spec fn all_digits(t: Seq<char>) -> bool {
    forall|i: int| 0 <= i < t.len() ==> '0' <= #[trigger] t[i] <= '9'
}

/// The number that a string of decimal digits denotes.
pub open spec fn decimal_value(t: Seq<char>) -> nat
    decreases t.len(),
{
    if t.len() == 0 {
        0
    } else {
        decimal_value(t.drop_last()) * 10 + digit_value(t.last())
    }
}

/// The digits of an operand: the token without one leading `+`.
pub open spec fn operand_digits(t: Seq<char>) -> Seq<char> {
    if t.len() > 0 && t[0] == '+' {
        t.drop_first()
    } else {
        t
    }
}

/// The `u64` that a token denotes: an optional `+` and one or more decimal
/// digits, with a value below `2^64`.
pub open spec fn spec_parse_operand(t: Seq<char>) -> Option<u64> {
    let d = operand_digits(t);
    if d.len() > 0 && all_digits(d) && decimal_value(d) <= u64::MAX {
        Some(decimal_value(d) as u64)
    } else {
        None
    }
}

/// Reads a token as an operand.
pub fn parse_operand(token: &Vec<char>) -> (r: Result<u64, ParserError>)
    ensures
        match spec_parse_operand(token@) {
            Some(n) => r == Ok::<u64, ParserError>(n),
            None => r == Err::<u64, ParserError>(ParserError::InvalidOperand),
        },
{
    let ghost d = operand_digits(token@);
    let first: usize = if token.len() > 0 && token[0] == '+' {
        1
    } else {
        0
    };
    assert(d =~= token@.subrange(first as int, token@.len() as int));
    if first == token.len() {
        return Err(ParserError::InvalidOperand);
    }
    let mut value: u64 = 0;
    let mut i = first;
    while i < token.len()
        invariant
            first <= i <= token@.len(),
            d == operand_digits(token@),
            d == token@.subrange(first as int, token@.len() as int),
            all_digits(token@.subrange(first as int, i as int)),
            value == decimal_value(token@.subrange(first as int, i as int)),
        decreases token@.len() - i,
    {
        let c = token[i];
        let ghost prefix = token@.subrange(first as int, i as int);
        let ghost next = token@.subrange(first as int, i + 1);
        assert(next.drop_last() =~= prefix);
        if c < '0' || c > '9' {
            assert(d[i - first] == c);
            assert(!all_digits(d));
            return Err(ParserError::InvalidOperand);
        }
        let digit = (c as u32 - '0' as u32) as u64;
        if value > (u64::MAX - digit) / 10 {
            proof {
                if all_digits(d) {
                    lemma_decimal_value_prefix(d, (i + 1 - first) as int);
                    assert(d.subrange(0, (i + 1 - first) as int) =~= next);
                    assert(decimal_value(next) == value * 10 + digit);
                }
            }
            return Err(ParserError::InvalidOperand);
        }
        value = value * 10 + digit;
        i = i + 1;
    }
    assert(token@.subrange(first as int, i as int) =~= d);
    Ok(value)
}

/// A decimal string's value is at least the value of any of its prefixes.
proof fn lemma_decimal_value_prefix(d: Seq<char>, n: int)
    requires
        0 <= n <= d.len(),
        all_digits(d),
    ensures
        decimal_value(d) >= decimal_value(d.subrange(0, n)),
    decreases d.len(),
{
    if n < d.len() {
        assert(d.drop_last().subrange(0, n) =~= d.subrange(0, n));
        lemma_decimal_value_prefix(d.drop_last(), n);
    } else {
        assert(d.subrange(0, n) =~= d);
    }
}

/// Two operands and an operator, read from a line.
#[derive(Clone, Copy, Debug, PartialEq, Eq, Structural)]
pub struct Operation {
    pub a: u64,
    pub b: u64,
    pub operator: Operator,
}

/// What a line reads as: exactly three tokens, an operand, an operator and
/// an operand. The first problem met from the left decides the error.
pub open spec fn spec_parse(s: Seq<char>) -> Result<Operation, ParserError> {
    let ts = tokens(s);
    if ts.len() < 1 {
        Err(ParserError::NotEnoughInputs)
    } else if spec_parse_operand(ts[0]) is None {
        Err(ParserError::InvalidOperand)
    } else if ts.len() < 2 {
        Err(ParserError::NotEnoughInputs)
    } else if Operator::spec_from_token(ts[1]) is None {
        Err(ParserError::InvalidOperator)
    } else if ts.len() < 3 {
        Err(ParserError::NotEnoughInputs)
    } else if spec_parse_operand(ts[2]) is None {
        Err(ParserError::InvalidOperand)
    } else if ts.len() > 3 {
        Err(ParserError::TooManyInputs)
    } else {
        Ok(
            Operation {
                a: spec_parse_operand(ts[0])->0,
                operator: Operator::spec_from_token(ts[1])->0,
                b: spec_parse_operand(ts[2])->0,
            },
        )
    }
}

/// The characters of a string.
pub fn chars_of(s: &str) -> (r: Vec<char>)
    ensures
        r@ == s@,
{
    let mut r: Vec<char> = Vec::new();
    for c in it: s.chars()
        invariant
            r@ == it.seq().take(it.index() as int),
    {
        r.push(c);
    }
    r
}

/// Reads a line into an operation and proves it with the circuit.
pub struct ZkCalculator {
    pub operation: Option<Operation>,
}

impl ZkCalculator {
    /// A calculator with no operation yet.
    pub fn new() -> (r: ZkCalculator)
        ensures
            r.operation is None,
    {
        ZkCalculator { operation: None }
    }

    /// Reads `a op b` from a line and keeps it; on an error the calculator
    /// is left as it was.
    pub fn parse(&mut self, input: String) -> (r: Result<(), ParserError>)
        ensures
            match spec_parse(input@) {
                Ok(op) => r is Ok && final(self).operation == Some(op),
                Err(e) => r == Err::<(), ParserError>(e) && final(self).operation == old(self).operation,
            },
    {
        let s = chars_of(input.as_str());
        let ghost ts = tokens(s@);
        let (s0, e0) = next_token(&s, 0);
        if s0 == s.len() {
            return Err(ParserError::NotEnoughInputs);
        }
        let ghost t0 = s@.subrange(s0 as int, e0 as int);
        assert(ts[0] == t0);
        let a = parse_operand(&token_at(&s, s0, e0))?;
        let (s1, e1) = next_token(&s, e0);
        if s1 == s.len() {
            return Err(ParserError::NotEnoughInputs);
        }
        let ghost t1 = s@.subrange(s1 as int, e1 as int);
        assert(ts == seq![t0] + (seq![t1] + tokens_from(s@, e1 as int)));
        assert(ts[1] == t1);
        let operator = Operator::from_token(token_at(&s, s1, e1).as_slice())?;
        let (s2, e2) = next_token(&s, e1);
        if s2 == s.len() {
            return Err(ParserError::NotEnoughInputs);
        }
        let ghost t2 = s@.subrange(s2 as int, e2 as int);
        assert(ts == seq![t0] + (seq![t1] + (seq![t2] + tokens_from(s@, e2 as int))));
        assert(ts[2] == t2);
        let b = parse_operand(&token_at(&s, s2, e2))?;
        let (s3, e3) = next_token(&s, e2);
        if s3 < s.len() {
            return Err(ParserError::TooManyInputs);
        }
        assert(ts.len() == 3);
        self.operation = Some(Operation { a, b, operator });
        Ok(())
    }

    /// Proves the kept operation: lays out the circuit with `k = 4` and the
    /// result as the public value, checks it, and returns the result.
    pub fn run_circuit(&self) -> (r: Result<FieldElement, CircuitError>)
        ensures
            self.operation is None ==> r matches Err(CircuitError::NoOperation),
            self.operation matches Some(op) ==> r matches Ok(c) && c.wf() && c@
                == op.operator.spec_apply(op.a as nat, op.b as nat),
    {
        let op = match &self.operation {
            Some(op) => *op,
            None => return Err(CircuitError::NoOperation),
        };
        let a = FieldElement::from_u64(op.a);
        let b = FieldElement::from_u64(op.b);
        let c = op.operator.apply(&a, &b);
        let circuit = CalculatorCircuit {
            a: Value::known(a.clone()),
            b: Value::known(b.clone()),
            operator: op.operator,
        };
        let mut public: Vec<FieldElement> = Vec::new();
        public.push(c.clone());
        let mut instance: Vec<Vec<FieldElement>> = Vec::new();
        instance.push(public);
        assert(instance@[0]@ =~= seq![c]);
        let prover = match MockProver::run(4, &circuit, instance) {
            Ok(p) => p,
            Err(e) => return Err(CircuitError::ProverError(e)),
        };
        proof {
            lemma_correct_result_verifies(a, b, op.operator, c, prover.instance@);
        }
        match prover.verify() {
            Ok(()) => Ok(c),
            Err(v) => Err(CircuitError::VerifierError(v)),
        }
    }
}

} // verus!
