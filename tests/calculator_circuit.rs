use zk_calculator::calculator_circuit::{CalculatorCircuit, MockProver};
use zk_calculator::field::FieldElement;
use zk_calculator::operator::Operator;
use zk_calculator::plonk::{
    verify_table, ColumnRef, ConstraintSystem, CopyConstraint, Error, Gate, Layouter, VerifyFailure,
};
use zk_calculator::value::Value;

fn circuit(a: u64, b: u64, operator: Operator) -> CalculatorCircuit {
    CalculatorCircuit {
        operator,
        a: Value::known(FieldElement::from_u64(a)),
        b: Value::known(FieldElement::from_u64(b)),
    }
}

fn verify(k: u32, circuit: &CalculatorCircuit, public: Vec<FieldElement>) -> Result<(), Vec<VerifyFailure>> {
    MockProver::run(k, circuit, vec![public]).unwrap().verify()
}

#[test]
fn test_add() {
    let k = 4;

    let a = FieldElement::from_u64(2);
    let b = FieldElement::from_u64(3);
    let c = a.add(&b);

    let circuit = CalculatorCircuit {
        operator: Operator::Add,
        a: Value::known(a),
        b: Value::known(b),
    };

    let mut public_inputs = vec![c];

    let prover = MockProver::run(k, &circuit, vec![public_inputs.clone()]).unwrap();
    assert_eq!(prover.verify(), Ok(()));

    public_inputs[0] = public_inputs[0].add(&FieldElement::one());

    let prover = MockProver::run(k, &circuit, vec![public_inputs]).unwrap();
    assert!(prover.verify().is_err());
}

#[test]
fn test_mul() {
    let k = 4;

    let a = FieldElement::from_u64(2);
    let b = FieldElement::from_u64(3);
    let c = a.mul(&b);

    let circuit = CalculatorCircuit {
        operator: Operator::Mul,
        a: Value::known(a),
        b: Value::known(b),
    };

    let mut public_inputs = vec![c];

    let prover = MockProver::run(k, &circuit, vec![public_inputs.clone()]).unwrap();
    assert_eq!(prover.verify(), Ok(()));

    public_inputs[0] = public_inputs[0].add(&FieldElement::one());

    let prover = MockProver::run(k, &circuit, vec![public_inputs]).unwrap();
    assert!(prover.verify().is_err());
}

#[test]
fn test_sub() {
    let k = 4;

    let a = FieldElement::from_u64(2);
    let b = FieldElement::from_u64(3);
    let c = a.sub(&b);

    let circuit = CalculatorCircuit {
        operator: Operator::Sub,
        a: Value::known(a),
        b: Value::known(b),
    };

    let mut public_inputs = vec![c];

    let prover = MockProver::run(k, &circuit, vec![public_inputs.clone()]).unwrap();
    assert_eq!(prover.verify(), Ok(()));

    public_inputs[0] = public_inputs[0].add(&FieldElement::one());

    let prover = MockProver::run(k, &circuit, vec![public_inputs]).unwrap();
    assert!(prover.verify().is_err());
}

#[test]
fn add_with_five_verifies() {
    let c = circuit(2, 3, Operator::Add);
    assert_eq!(verify(4, &c, vec![FieldElement::from_u64(5)]), Ok(()));
}

#[test]
fn add_with_six_fails_on_the_public_link() {
    let c = circuit(2, 3, Operator::Add);
    let failures = verify(4, &c, vec![FieldElement::from_u64(6)]).unwrap_err();
    assert_eq!(failures.len(), 1);
    assert!(matches!(failures[0], VerifyFailure::Instance { row: 0, .. }));
}

#[test]
fn mul_with_six_verifies() {
    let c = circuit(2, 3, Operator::Mul);
    assert_eq!(verify(4, &c, vec![FieldElement::from_u64(6)]), Ok(()));
}

#[test]
fn sub_wraps_modulo_the_prime() {
    let two = FieldElement::from_u64(2);
    let three = FieldElement::from_u64(3);
    let minus_one = two.sub(&three);
    assert!(minus_one != FieldElement::from_u64(1));
    assert_eq!(minus_one.add(&FieldElement::one()), FieldElement::zero());
    assert_eq!(minus_one.add(&three), two);
    let c = circuit(2, 3, Operator::Sub);
    assert_eq!(verify(4, &c, vec![minus_one]), Ok(()));
    assert!(verify(4, &c, vec![FieldElement::from_u64(1)]).is_err());
}

#[test]
fn k_too_small_fails_before_verification() {
    let c = circuit(2, 3, Operator::Add);
    for k in 0..3u32 {
        let r = MockProver::run(k, &c, vec![vec![FieldElement::from_u64(5)]]);
        assert!(matches!(r, Err(Error::NotEnoughRowsAvailable { current_k }) if current_k == k));
    }
    assert!(MockProver::run(3, &c, vec![vec![FieldElement::from_u64(5)]]).is_ok());
}

#[test]
fn public_values_must_be_one_column() {
    let c = circuit(2, 3, Operator::Add);
    assert!(matches!(MockProver::run(4, &c, vec![]), Err(Error::InvalidInstances)));
    let two_columns = vec![vec![FieldElement::from_u64(5)], vec![]];
    assert!(matches!(MockProver::run(4, &c, two_columns), Err(Error::InvalidInstances)));
}

#[test]
fn every_operator_verifies_its_own_result_only() {
    let pairs: [(u64, u64); 4] = [(0, 0), (7, 11), (u64::MAX, 1), (123456789, 987654321)];
    for (a, b) in pairs {
        for op in [Operator::Add, Operator::Sub, Operator::Mul] {
            let fa = FieldElement::from_u64(a);
            let fb = FieldElement::from_u64(b);
            let result = op.apply(&fa, &fb);
            let c = circuit(a, b, op);
            assert_eq!(verify(5, &c, vec![result.clone()]), Ok(()));
            let wrong = result.add(&FieldElement::one());
            assert!(verify(5, &c, vec![wrong]).is_err());
        }
    }
}

#[test]
fn empty_public_column_reads_as_zero() {
    let c = circuit(3, 3, Operator::Sub);
    assert_eq!(verify(4, &c, vec![]), Ok(()));
    let c = circuit(3, 4, Operator::Sub);
    assert!(verify(4, &c, vec![]).is_err());
}

#[test]
fn configuring_twice_gives_the_same_layout() {
    let mut first = ConstraintSystem::new();
    let mut second = ConstraintSystem::new();
    let c1 = CalculatorCircuit::configure(&mut first);
    let c2 = CalculatorCircuit::configure(&mut second);
    assert_eq!(c1, c2);
    assert_eq!(first.num_advice_columns, second.num_advice_columns);
    assert_eq!(first.num_instance_columns, second.num_instance_columns);
    assert_eq!(first.num_selectors, second.num_selectors);
    assert_eq!(first.gates, second.gates);
    assert_eq!(first.equality, second.equality);
    assert_eq!(first.num_advice_columns, 2);
    assert_eq!(first.num_selectors, 3);
    assert_eq!(first.gates.len(), 3);
}

#[test]
fn without_witnesses_keeps_the_layout() {
    let c = circuit(2, 3, Operator::Mul);
    let w = c.without_witnesses();
    assert_eq!(w.operator, Operator::Mul);
    assert!(matches!(w.a, Value::Unknown));
    assert!(matches!(w.b, Value::Unknown));
    let p = MockProver::run(4, &c, vec![vec![FieldElement::from_u64(6)]]).unwrap();
    let q = MockProver::run(4, &w, vec![vec![FieldElement::from_u64(6)]]).unwrap();
    let cells_p: Vec<_> = p.layout.assigned.iter().map(|n| n.cell).collect();
    let cells_q: Vec<_> = q.layout.assigned.iter().map(|n| n.cell).collect();
    assert_eq!(cells_p, cells_q);
    assert_eq!(p.layout.enabled, q.layout.enabled);
    assert_eq!(p.layout.copies, q.layout.copies);
    assert_eq!(p.layout.links, q.layout.links);
    assert!(q.verify().is_err());
}

#[test]
fn add_selector_does_not_switch_on_the_other_gates() {
    let c = circuit(2, 3, Operator::Add);
    let p = MockProver::run(4, &c, vec![vec![FieldElement::from_u64(5)]]).unwrap();
    assert_eq!(p.layout.enabled.len(), 1);
    let on = p.layout.enabled[0].selector;
    for g in p.cs.gates.iter() {
        if g.selector == on {
            assert_eq!(g.operator, Operator::Add);
        }
    }
    // 2 - 3 and 2 * 3 both differ from 5, yet the table verifies.
    assert_eq!(p.verify(), Ok(()));
}

#[test]
fn unknown_inputs_give_an_unknown_result() {
    let known = Value::known(FieldElement::from_u64(4));
    let r = known.apply(Operator::Mul, &Value::unknown());
    assert!(matches!(r, Value::Unknown));
    let r = known.apply(Operator::Mul, &known);
    assert!(matches!(r, Value::Known(f) if f == FieldElement::from_u64(16)));
}

#[test]
fn a_hand_made_table_reports_each_broken_constraint() {
    let mut cs = ConstraintSystem::new();
    let a = cs.advice_column();
    let b = cs.advice_column();
    let instance = cs.instance_column();
    let sel = cs.selector();
    cs.create_gate(Gate { operator: Operator::Mul, lhs: a, rhs: b, out: a, selector: sel });
    cs.enable_equality(ColumnRef::Advice(a.index));
    cs.enable_equality(ColumnRef::Advice(b.index));
    cs.enable_equality(ColumnRef::Instance(instance.index));

    let mut layout = Layouter::new(4, 15);
    let base = layout.assign_region(2).unwrap();
    assert_eq!(base, 0);
    layout.enable_selector(sel, base);
    let x = layout.assign_advice(a, 0, Value::known(FieldElement::from_u64(3)));
    let y = layout.assign_advice(b, 0, Value::known(FieldElement::from_u64(4)));
    let out = layout.assign_advice(a, 1, Value::known(FieldElement::from_u64(13)));
    let z = layout.assign_advice(b, 1, Value::known(FieldElement::from_u64(5)));
    layout.copies.push(CopyConstraint { left: y.cell, right: z.cell });
    layout.constrain_instance(out.cell, instance, 0);
    let _ = x;

    let failures = verify_table(&cs, &layout, &vec![vec![FieldElement::from_u64(12)]]).unwrap_err();
    assert_eq!(failures.len(), 3);
    assert!(failures.contains(&VerifyFailure::ConstraintNotSatisfied { operator: Operator::Mul, row: 0 }));
    assert!(failures.contains(&VerifyFailure::Permutation { left: y.cell, right: z.cell }));
    assert!(failures.contains(&VerifyFailure::Instance { cell: out.cell, column: instance, row: 0 }));

    assert!(matches!(layout.assign_region(14), Err(Error::NotEnoughRowsAvailable { current_k: 4 })));
    assert_eq!(layout.assign_region(13), Ok(2));
}
