//! The calculator circuit: two private inputs, an operator, and the result
//! exposed at row 0 of the instance column; and a prover that lays it out
//! and checks it against public values.

use crate::chips::{arithmetic_config, arithmetic_shape, region_table, ArithmeticChip, ArithmeticConfig};
use crate::field::{lemma_element_of, FieldElement};
use crate::operator::Operator;
use crate::plonk::{
    all_failures,
    all_reported,
    empty_shape, empty_table, gate_pair_holds, instance_wf, link_holds, lookup, satisfied, verify_table,
    Cell, Column, ColumnRef, ConstraintSystem, CopyConstraint, EnabledSelector, Error, InstanceColumn,
    InstanceLink, Layouter, Number, Shape, Table, VerifyFailure, copy_holds,
};
use crate::value::{value_apply, Value};
use vstd::prelude::*;

verus! {

/// Proves knowledge of `a` and `b` with `a operator b` equal to a public value.
pub struct CalculatorCircuit {
    pub a: Value,
    pub b: Value,
    pub operator: Operator,
}

/// The configuration that the circuit builds on a system of shape `s`: two
/// fresh advice columns and a fresh instance column.
pub open spec fn calculator_config(s: Shape) -> ArithmeticConfig {
    arithmetic_config(
        s,
        Column { index: s.num_advice_columns as usize },
        Column { index: (s.num_advice_columns + 1) as usize },
        InstanceColumn { index: s.num_instance_columns as usize },
    )
}

/// The shape after the circuit is configured on a system of shape `s`.
pub open spec fn calculator_shape(s: Shape) -> Shape {
    arithmetic_shape(
        Shape {
            num_advice_columns: s.num_advice_columns + 2,
            num_instance_columns: s.num_instance_columns + 1,
            ..s
        },
        Column { index: s.num_advice_columns as usize },
        Column { index: (s.num_advice_columns + 1) as usize },
        InstanceColumn { index: s.num_instance_columns as usize },
    )
}

/// What a synthesis starting at row `r0` of table `t0` writes: `a` at `r0`,
/// `b` at `r0 + 1`, the operator region at `r0 + 2` over copies of both, and
/// a link from the result to row 0 of the instance column.
pub open spec fn synthesized_table(
    t0: Table,
    r0: int,
    config: ArithmeticConfig,
    a: Value,
    b: Value,
    operator: Operator,
) -> Table {
    let na = Number { cell: Cell { column: config.a.index, row: r0 as usize }, value: a };
    let nb = Number { cell: Cell { column: config.a.index, row: (r0 + 1) as usize }, value: b };
    let t1 = Table { assigned: t0.assigned.push(na).push(nb), ..t0 };
    let t2 = region_table(t1, config.operator_config(operator), r0 + 2, na, nb);
    let out = Cell { column: config.a.index, row: (r0 + 3) as usize };
    Table {
        links: t2.links.push(InstanceLink { cell: out, column: config.instance, row: 0 }),
        ..t2
    }
}

/// The number of rows a synthesis takes.
pub open spec fn synthesis_rows() -> nat {
    4
}

impl CalculatorCircuit {
    /// Known inputs are canonical.
    pub open spec fn wf(&self) -> bool {
        self.a.wf() && self.b.wf()
    }

    /// The same circuit with both inputs unknown.
    pub open spec fn spec_without_witnesses(&self) -> CalculatorCircuit {
        CalculatorCircuit { a: Value::Unknown, b: Value::Unknown, operator: self.operator }
    }

    /// The same circuit with both inputs unknown: what lays out its shape
    /// without the secret values.
    pub fn without_witnesses(&self) -> (r: CalculatorCircuit)
        ensures
            r == self.spec_without_witnesses(),
            r.wf(),
    {
        CalculatorCircuit { a: Value::unknown(), b: Value::unknown(), operator: self.operator }
    }

    /// Allocates two advice columns and an instance column and configures the
    /// arithmetic chip over them. The result does not depend on any circuit.
    pub fn configure(meta: &mut ConstraintSystem) -> (r: ArithmeticConfig)
        requires
            old(meta).num_advice_columns + 2 <= usize::MAX,
            old(meta).num_instance_columns + 1 <= usize::MAX,
            old(meta).num_selectors + 3 <= usize::MAX,
        ensures
            r == calculator_config(old(meta)@),
            r.wf(),
            final(meta)@ == calculator_shape(old(meta)@),
    {
        let a = meta.advice_column();
        let b = meta.advice_column();
        let instance = meta.instance_column();
        ArithmeticChip::configure(meta, a, b, instance)
    }

    /// Loads both inputs, applies the operator and exposes the result at
    /// row 0 of the instance column. Fails when the layouter has fewer than
    /// four rows left.
    pub fn synthesize(&self, config: ArithmeticConfig, layouter: &mut Layouter) -> (r: Result<(), Error>)
        requires
            self.wf(),
            config.wf(),
            old(layouter).wf(),
        ensures
            final(layouter).wf(),
            final(layouter).k == old(layouter).k,
            final(layouter).usable_rows == old(layouter).usable_rows,
            old(layouter).next_row + synthesis_rows() <= old(layouter).usable_rows ==> {
                &&& r is Ok
                &&& final(layouter).next_row == old(layouter).next_row + synthesis_rows()
                &&& final(layouter).table() == synthesized_table(
                    old(layouter).table(),
                    old(layouter).next_row as int,
                    config,
                    self.a,
                    self.b,
                    self.operator,
                )
            },
            old(layouter).next_row + synthesis_rows() > old(layouter).usable_rows ==> r
                == Err::<(), Error>(Error::NotEnoughRowsAvailable { current_k: old(layouter).k }),
    {
        let chip = ArithmeticChip::construct(config);
        let a = chip.load_private(layouter, self.a.clone())?;
        let b = chip.load_private(layouter, self.b.clone())?;
        let c = chip.apply(self.operator, layouter, &a, &b)?;
        chip.expose_public(layouter, &c, 0)
    }
}

/// The height `2^k` of a circuit, saturated at `2^30`.
pub open spec fn circuit_height(k: nat) -> nat
    decreases k,
{
    if k == 0 {
        1
    } else if circuit_height((k - 1) as nat) <= 0x2000_0000 {
        2 * circuit_height((k - 1) as nat)
    } else {
        circuit_height((k - 1) as nat)
    }
}

/// The circuit is eight rows high or more exactly when `k` is three or more.
proof fn lemma_height(k: nat)
    ensures
        k < 3 ==> circuit_height(k) <= 4,
        k >= 3 ==> circuit_height(k) >= 8,
        1 <= circuit_height(k) <= 0x4000_0000,
    decreases k,
{
    reveal_with_fuel(circuit_height, 4);
    if k > 0 {
        lemma_height((k - 1) as nat);
    }
}

/// `2^k`, saturated at `2^30`.
pub fn height(k: u32) -> (r: usize)
    ensures
        r == circuit_height(k as nat),
{
    let mut h: usize = 1;
    let mut i: u32 = 0;
    while i < k
        invariant
            i <= k,
            h == circuit_height(i as nat),
        decreases k - i,
    {
        proof {
            lemma_height(i as nat);
        }
        if h <= 0x2000_0000 {
            h = 2 * h;
        }
        i = i + 1;
    }
    h
}

/// A laid-out calculator circuit with its public values, ready to be checked.
pub struct MockProver {
    pub cs: ConstraintSystem,
    pub layout: Layouter,
    pub instance: Vec<Vec<FieldElement>>,
}

impl MockProver {
    /// The layout is well formed and leaves room past its rows.
    pub open spec fn wf(&self) -> bool {
        &&& self.layout.wf()
        &&& self.layout.usable_rows < usize::MAX
        &&& forall|i: int|
            0 <= i < self.layout.enabled@.len() ==> (#[trigger] self.layout.enabled@[i]).row
                < usize::MAX
        &&& instance_wf(self.instance@)
    }

    /// Configures the circuit on a fresh system and synthesizes it into a
    /// circuit of height `2^k`, of which all rows but the last are usable.
    /// Fails when the public values are not one column, or when `2^k` is not
    /// above the four rows that the circuit takes (`k < 3`).
    pub fn run(k: u32, circuit: &CalculatorCircuit, instance: Vec<Vec<FieldElement>>) -> (r: Result<
        MockProver,
        Error,
    >)
        requires
            circuit.wf(),
            instance_wf(instance@),
        ensures
            instance@.len() != 1 ==> r == Err::<MockProver, Error>(Error::InvalidInstances),
            instance@.len() == 1 && k < 3 ==> r == Err::<MockProver, Error>(
                Error::NotEnoughRowsAvailable { current_k: k },
            ),
            instance@.len() == 1 && k >= 3 ==> {
                &&& r matches Ok(p)
                &&& p.wf()
                &&& p.cs@ == calculator_shape(empty_shape())
                &&& p.layout.table() == synthesized_table(
                    empty_table(),
                    0,
                    calculator_config(empty_shape()),
                    circuit.a,
                    circuit.b,
                    circuit.operator,
                )
                &&& p.instance@ == instance@
            },
    {
        let mut cs = ConstraintSystem::new();
        let config = CalculatorCircuit::configure(&mut cs);
        if instance.len() != 1 {
            return Err(Error::InvalidInstances);
        }
        let n = height(k);
        proof {
            lemma_height(k as nat);
        }
        let mut layout = Layouter::new(k, n - 1);
        circuit.synthesize(config, &mut layout)?;
        let p = MockProver { cs, layout, instance };
        assert(p.layout.enabled@.len() == 1);
        Ok(p)
    }

    /// Checks the layout against the constraint system and the public
    /// values, listing every constraint that fails.
    pub fn verify(&self) -> (r: Result<(), Vec<VerifyFailure>>)
        requires
            self.wf(),
        ensures
            r is Ok <==> satisfied(self.cs@, self.layout.table(), self.instance@),
            r matches Err(v) ==> v@.len() > 0 && all_failures(
                self.cs@,
                self.layout.table(),
                self.instance@,
                v@,
            ) && all_reported(self.cs@, self.layout.table(), self.instance@, v@),
    {
        verify_table(&self.cs, &self.layout, &self.instance)
    }
}

/// The table that proving `a operator b` writes on a fresh layout.
pub open spec fn proved_table(a: Value, b: Value, operator: Operator) -> Table {
    synthesized_table(empty_table(), 0, calculator_config(empty_shape()), a, b, operator)
}

/// The equality-enabled columns of the configured circuit.
proof fn lemma_equality_columns()
    ensures
        calculator_shape(empty_shape()).equality.contains(ColumnRef::Advice(0)),
        calculator_shape(empty_shape()).equality.contains(ColumnRef::Advice(1)),
        calculator_shape(empty_shape()).equality.contains(ColumnRef::Instance(0)),
{
    let e = calculator_shape(empty_shape()).equality;
    assert(e[0] == ColumnRef::Advice(0));
    assert(e[1] == ColumnRef::Advice(1));
    assert(e[2] == ColumnRef::Instance(0));
}

/// With known inputs, the cells of the proved table hold `a` at rows 0 and
/// 2 of column 0, `b` at row 1 of column 0 and row 2 of column 1, and the
/// result at row 3 of column 0.
proof fn lemma_proved_cells(a: FieldElement, b: FieldElement, operator: Operator)
    requires
        a.wf(),
        b.wf(),
    ensures
        ({
            let s = proved_table(Value::Known(a), Value::Known(b), operator).assigned;
            &&& lookup(s, 0, 0) == Some(a@)
            &&& lookup(s, 0, 1) == Some(b@)
            &&& lookup(s, 0, 2) == Some(a@)
            &&& lookup(s, 1, 2) == Some(b@)
            &&& lookup(s, 0, 3) == value_apply(operator, Value::Known(a), Value::Known(b)).spec_known()
        }),
{
    reveal_with_fuel(lookup, 6);
}

/// Proving `a operator b` with its true result `c` as the public value
/// satisfies every constraint of the circuit.
pub proof fn lemma_correct_result_verifies(
    a: FieldElement,
    b: FieldElement,
    operator: Operator,
    c: FieldElement,
    instance: Seq<Vec<FieldElement>>,
)
    requires
        a.wf(),
        b.wf(),
        c.wf(),
        c@ == operator.spec_apply(a@, b@),
        instance.len() == 1,
        instance[0]@ == seq![c],
    ensures
        satisfied(
            calculator_shape(empty_shape()),
            proved_table(Value::Known(a), Value::Known(b), operator),
            instance,
        ),
{
    lemma_element_of(c);
    lemma_equality_columns();
    lemma_proved_cells(a, b, operator);
    let shape = calculator_shape(empty_shape());
    let t = proved_table(Value::Known(a), Value::Known(b), operator);
    assert forall|i: int, j: int|
        0 <= i < t.enabled.len() && 0 <= j < shape.gates.len() implies #[trigger] gate_pair_holds(
        shape,
        t,
        i,
        j,
    ) by {}
    assert forall|i: int| 0 <= i < t.copies.len() implies copy_holds(shape, t, #[trigger] t.copies[i]) by {}
    assert forall|i: int| 0 <= i < t.links.len() implies link_holds(
        shape,
        t,
        instance,
        #[trigger] t.links[i],
    ) by {}
}

/// Proving `a operator b` against a public value other than its result
/// fails: the link from the result to the public value breaks.
pub proof fn lemma_wrong_result_fails(
    a: FieldElement,
    b: FieldElement,
    operator: Operator,
    c: FieldElement,
    wrong: FieldElement,
    instance: Seq<Vec<FieldElement>>,
)
    requires
        a.wf(),
        b.wf(),
        c.wf(),
        wrong.wf(),
        c@ == operator.spec_apply(a@, b@),
        wrong@ != c@,
        instance.len() == 1,
        instance[0]@ == seq![wrong],
    ensures
        !satisfied(
            calculator_shape(empty_shape()),
            proved_table(Value::Known(a), Value::Known(b), operator),
            instance,
        ),
{
    lemma_element_of(c);
    lemma_proved_cells(a, b, operator);
    let shape = calculator_shape(empty_shape());
    let t = proved_table(Value::Known(a), Value::Known(b), operator);
    assert(!link_holds(shape, t, instance, t.links[0]));
}

/// Selector isolation: in a proved table, every switched-on selector belongs
/// to the circuit's own operator, so the other operators' gates ask nothing.
pub proof fn lemma_selector_isolation(a: Value, b: Value, operator: Operator)
    ensures
        ({
            let shape = calculator_shape(empty_shape());
            let t = proved_table(a, b, operator);
            forall|i: int, j: int|
                0 <= i < t.enabled.len() && 0 <= j < shape.gates.len() && #[trigger] shape.gates[j].selector
                    == #[trigger] t.enabled[i].selector ==> shape.gates[j].operator == operator
        }),
{
}

/// The shape of a table: its cells, selectors, copies and links, without the
/// values.
pub open spec fn table_layout(t: Table) -> (Seq<Cell>, Seq<EnabledSelector>, Seq<CopyConstraint>, Seq<InstanceLink>) {
    (t.assigned.map_values(|n: Number| n.cell), t.enabled, t.copies, t.links)
}

/// Laying out a circuit without its witnesses writes the same cells,
/// selectors, copies and links as laying out the circuit itself.
pub proof fn lemma_without_witnesses_same_layout(
    circuit: CalculatorCircuit,
    t0: Table,
    r0: int,
    config: ArithmeticConfig,
)
    ensures
        ({
            let w = circuit.spec_without_witnesses();
            table_layout(synthesized_table(t0, r0, config, circuit.a, circuit.b, circuit.operator))
                == table_layout(synthesized_table(t0, r0, config, w.a, w.b, w.operator))
        }),
{
    let w = circuit.spec_without_witnesses();
    let t1 = synthesized_table(t0, r0, config, circuit.a, circuit.b, circuit.operator);
    let t2 = synthesized_table(t0, r0, config, w.a, w.b, w.operator);
    assert(t1.assigned.map_values(|n: Number| n.cell) =~= t2.assigned.map_values(|n: Number| n.cell));
}

/// Configuring is repeatable: two systems with the same numbers of columns
/// and selectors get the same configuration and the same added columns,
/// selectors, gates and equality-enabled columns, whatever they held before.
pub proof fn lemma_configure_repeatable(s1: Shape, s2: Shape)
    requires
        s1.num_advice_columns == s2.num_advice_columns,
        s1.num_instance_columns == s2.num_instance_columns,
        s1.num_selectors == s2.num_selectors,
    ensures
        calculator_config(s1) == calculator_config(s2),
        calculator_shape(s1).num_advice_columns == calculator_shape(s2).num_advice_columns,
        calculator_shape(s1).num_instance_columns == calculator_shape(s2).num_instance_columns,
        calculator_shape(s1).num_selectors == calculator_shape(s2).num_selectors,
        calculator_shape(s1).gates.skip(s1.gates.len() as int) == calculator_shape(s2).gates.skip(
            s2.gates.len() as int,
        ),
        calculator_shape(s1).equality.skip(s1.equality.len() as int) == calculator_shape(
            s2,
        ).equality.skip(s2.equality.len() as int),
{
    assert(calculator_shape(s1).gates.skip(s1.gates.len() as int) =~= calculator_shape(s2).gates.skip(
        s2.gates.len() as int,
    ));
    assert(calculator_shape(s1).equality.skip(s1.equality.len() as int) =~= calculator_shape(
        s2,
    ).equality.skip(s2.equality.len() as int));
}

} // verus!
