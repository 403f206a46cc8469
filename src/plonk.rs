//! The constraint system: columns, selectors and gates, the table that a
//! synthesis fills, and what it means for a table to satisfy the system.

use crate::field::FieldElement;
use crate::operator::Operator;
use crate::value::Value;
use vstd::prelude::*;

verus! {

/// An advice (private) column.
#[derive(Clone, Copy, Debug, PartialEq, Eq, Structural)]
pub struct Column {
    pub index: usize,
}

/// An instance (public) column.
#[derive(Clone, Copy, Debug, PartialEq, Eq, Structural)]
pub struct InstanceColumn {
    pub index: usize,
}

/// A per-row flag that switches a gate on.
#[derive(Clone, Copy, Debug, PartialEq, Eq, Structural)]
pub struct Selector {
    pub index: usize,
}

/// A column of either kind, as it takes part in copy constraints.
#[derive(Clone, Copy, Debug, PartialEq, Eq, Structural)]
pub enum ColumnRef {
    Advice(usize),
    Instance(usize),
}

/// The identity `selector * (lhs[row] op rhs[row] - out[row + 1]) = 0`.
#[derive(Clone, Copy, Debug, PartialEq, Eq, Structural)]
pub struct Gate {
    pub operator: Operator,
    pub lhs: Column,
    pub rhs: Column,
    pub out: Column,
    pub selector: Selector,
}

/// The shape of a constraint system.
pub struct Shape {
    pub num_advice_columns: nat,
    pub num_instance_columns: nat,
    pub num_selectors: nat,
    pub gates: Seq<Gate>,
    pub equality: Seq<ColumnRef>,
}

/// A builder of the shape of a circuit.
pub struct ConstraintSystem {
    pub num_advice_columns: usize,
    pub num_instance_columns: usize,
    pub num_selectors: usize,
    pub gates: Vec<Gate>,
    pub equality: Vec<ColumnRef>,
}

impl View for ConstraintSystem {
    type V = Shape;

    open spec fn view(&self) -> Shape {
        Shape {
            num_advice_columns: self.num_advice_columns as nat,
            num_instance_columns: self.num_instance_columns as nat,
            num_selectors: self.num_selectors as nat,
            gates: self.gates@,
            equality: self.equality@,
        }
    }
}

/// The shape with nothing in it.
pub open spec fn empty_shape() -> Shape {
    Shape {
        num_advice_columns: 0,
        num_instance_columns: 0,
        num_selectors: 0,
        gates: Seq::empty(),
        equality: Seq::empty(),
    }
}

impl ConstraintSystem {
    /// An empty constraint system.
    pub fn new() -> (r: ConstraintSystem)
        ensures
            r@ == empty_shape(),
    {
        ConstraintSystem {
            num_advice_columns: 0,
            num_instance_columns: 0,
            num_selectors: 0,
            gates: Vec::new(),
            equality: Vec::new(),
        }
    }

    /// Allocates the next advice column.
    pub fn advice_column(&mut self) -> (r: Column)
        requires
            old(self).num_advice_columns < usize::MAX,
        ensures
            r.index == old(self).num_advice_columns,
            final(self)@ == (Shape {
                num_advice_columns: old(self)@.num_advice_columns + 1,
                ..old(self)@
            }),
    {
        let r = Column { index: self.num_advice_columns };
        self.num_advice_columns = self.num_advice_columns + 1;
        r
    }

    /// Allocates the next instance column.
    pub fn instance_column(&mut self) -> (r: InstanceColumn)
        requires
            old(self).num_instance_columns < usize::MAX,
        ensures
            r.index == old(self).num_instance_columns,
            final(self)@ == (Shape {
                num_instance_columns: old(self)@.num_instance_columns + 1,
                ..old(self)@
            }),
    {
        let r = InstanceColumn { index: self.num_instance_columns };
        self.num_instance_columns = self.num_instance_columns + 1;
        r
    }

    /// Allocates the next selector.
    pub fn selector(&mut self) -> (r: Selector)
        requires
            old(self).num_selectors < usize::MAX,
        ensures
            r.index == old(self).num_selectors,
            final(self)@ == (Shape { num_selectors: old(self)@.num_selectors + 1, ..old(self)@ }),
    {
        let r = Selector { index: self.num_selectors };
        self.num_selectors = self.num_selectors + 1;
        r
    }

    /// Registers a gate.
    pub fn create_gate(&mut self, gate: Gate)
        ensures
            final(self)@ == (Shape { gates: old(self)@.gates.push(gate), ..old(self)@ }),
    {
        self.gates.push(gate);
    }

    /// Lets a column take part in copy constraints.
    pub fn enable_equality(&mut self, column: ColumnRef)
        ensures
            final(self)@ == (Shape { equality: old(self)@.equality.push(column), ..old(self)@ }),
    {
        self.equality.push(column);
    }

    /// Whether a column takes part in copy constraints.
    pub fn has_equality(&self, column: ColumnRef) -> (r: bool)
        ensures
            r == self@.equality.contains(column),
    {
        let mut i: usize = 0;
        while i < self.equality.len()
            invariant
                0 <= i <= self.equality@.len(),
                forall|j: int| 0 <= j < i ==> self.equality@[j] != column,
            decreases self.equality@.len() - i,
        {
            if self.equality[i] == column {
                assert(self.equality@[i as int] == column);
                return true;
            }
            i = i + 1;
        }
        false
    }
}

/// A cell of an advice column.
#[derive(Clone, Copy, Debug, PartialEq, Eq, Structural)]
pub struct Cell {
    pub column: usize,
    pub row: usize,
}

/// An assigned advice cell and the value written into it.
#[derive(Debug)]
pub struct Number {
    pub cell: Cell,
    pub value: Value,
}

impl Clone for Number {
    fn clone(&self) -> (r: Number)
        ensures
            r == *self,
    {
        Number { cell: self.cell, value: self.value.clone() }
    }
}

/// A selector switched on at a row.
#[derive(Clone, Copy, Debug, PartialEq, Eq, Structural)]
pub struct EnabledSelector {
    pub selector: Selector,
    pub row: usize,
}

/// Two advice cells that must hold the same value.
#[derive(Clone, Copy, Debug, PartialEq, Eq, Structural)]
pub struct CopyConstraint {
    pub left: Cell,
    pub right: Cell,
}

/// An advice cell that must equal a cell of an instance column.
#[derive(Clone, Copy, Debug, PartialEq, Eq, Structural)]
pub struct InstanceLink {
    pub cell: Cell,
    pub column: InstanceColumn,
    pub row: usize,
}

/// What a synthesis wrote: assignments in order, switched-on selectors, copy
/// constraints and links to public values.
pub struct Table {
    pub assigned: Seq<Number>,
    pub enabled: Seq<EnabledSelector>,
    pub copies: Seq<CopyConstraint>,
    pub links: Seq<InstanceLink>,
}

/// A failure to lay out a circuit.
#[derive(Clone, Copy, Debug, PartialEq, Eq, Structural)]
pub enum Error {
    /// The circuit needs more rows than `2^current_k` offers.
    NotEnoughRowsAvailable { current_k: u32 },
    /// The public values do not match the instance columns.
    InvalidInstances,
}

/// A constraint that a table breaks.
#[derive(Clone, Copy, Debug, PartialEq, Eq, Structural)]
pub enum VerifyFailure {
    /// The identity of this operator does not hold at this row.
    ConstraintNotSatisfied { operator: Operator, row: usize },
    /// Two cells of a copy constraint differ, or one is not assigned.
    Permutation { left: Cell, right: Cell },
    /// An advice cell differs from the public value it is linked to.
    Instance { cell: Cell, column: InstanceColumn, row: usize },
}

/// Lays out regions one after another and records what is written.
pub struct Layouter {
    pub k: u32,
    pub usable_rows: usize,
    pub next_row: usize,
    pub assigned: Vec<Number>,
    pub enabled: Vec<EnabledSelector>,
    pub copies: Vec<CopyConstraint>,
    pub links: Vec<InstanceLink>,
}

/// The table with nothing in it.
pub open spec fn empty_table() -> Table {
    Table {
        assigned: Seq::empty(),
        enabled: Seq::empty(),
        copies: Seq::empty(),
        links: Seq::empty(),
    }
}

/// Every value of a sequence of assignments is canonical.
pub open spec fn values_wf(assigned: Seq<Number>) -> bool {
    forall|i: int| 0 <= i < assigned.len() ==> (#[trigger] assigned[i]).value.wf()
}

impl Layouter {
    /// The rows in use lie within the usable ones, and values are canonical.
    pub open spec fn wf(&self) -> bool {
        &&& self.next_row <= self.usable_rows
        &&& values_wf(self.assigned@)
    }

    /// What has been written so far.
    pub open spec fn table(&self) -> Table {
        Table {
            assigned: self.assigned@,
            enabled: self.enabled@,
            copies: self.copies@,
            links: self.links@,
        }
    }

    /// An empty layouter over `usable_rows` rows of a circuit of height `2^k`.
    pub fn new(k: u32, usable_rows: usize) -> (r: Layouter)
        ensures
            r.wf(),
            r.k == k,
            r.usable_rows == usable_rows,
            r.next_row == 0,
            r.table() == empty_table(),
    {
        let r = Layouter {
            k,
            usable_rows,
            next_row: 0,
            assigned: Vec::new(),
            enabled: Vec::new(),
            copies: Vec::new(),
            links: Vec::new(),
        };
        assert(r.table().assigned =~= Seq::<Number>::empty());
        r
    }

    /// Reserves `height` fresh rows and returns the first of them.
    pub fn assign_region(&mut self, height: usize) -> (r: Result<usize, Error>)
        requires
            old(self).wf(),
        ensures
            final(self).wf(),
            final(self).k == old(self).k,
            final(self).usable_rows == old(self).usable_rows,
            final(self).table() == old(self).table(),
            old(self).next_row + height <= old(self).usable_rows ==> r == Ok::<usize, Error>(
                old(self).next_row,
            ) && final(self).next_row == old(self).next_row + height,
            old(self).next_row + height > old(self).usable_rows ==> r == Err::<usize, Error>(
                Error::NotEnoughRowsAvailable { current_k: old(self).k },
            ) && final(self).next_row == old(self).next_row,
    {
        if height > self.usable_rows - self.next_row {
            Err(Error::NotEnoughRowsAvailable { current_k: self.k })
        } else {
            let base = self.next_row;
            self.next_row = self.next_row + height;
            Ok(base)
        }
    }

    /// Writes `value` into the cell of `column` at `row`.
    pub fn assign_advice(&mut self, column: Column, row: usize, value: Value) -> (r: Number)
        requires
            old(self).wf(),
            value.wf(),
        ensures
            final(self).wf(),
            r == (Number { cell: Cell { column: column.index, row }, value }),
            final(self).k == old(self).k,
            final(self).usable_rows == old(self).usable_rows,
            final(self).next_row == old(self).next_row,
            final(self).table() == (Table {
                assigned: old(self).assigned@.push(r),
                ..old(self).table()
            }),
    {
        let r = Number { cell: Cell { column: column.index, row }, value };
        self.assigned.push(r.clone());
        assert(values_wf(self.assigned@)) by {
            assert forall|i: int| 0 <= i < self.assigned@.len() implies (
            #[trigger] self.assigned@[i]).value.wf() by {
                if i < old(self).assigned@.len() {
                    assert(old(self).assigned@[i] == self.assigned@[i]);
                }
            }
        }
        r
    }

    /// Switches `selector` on at `row`.
    pub fn enable_selector(&mut self, selector: Selector, row: usize)
        requires
            old(self).wf(),
        ensures
            final(self).wf(),
            final(self).k == old(self).k,
            final(self).usable_rows == old(self).usable_rows,
            final(self).next_row == old(self).next_row,
            final(self).table() == (Table {
                enabled: old(self).enabled@.push(EnabledSelector { selector, row }),
                ..old(self).table()
            }),
    {
        self.enabled.push(EnabledSelector { selector, row });
    }

    /// Writes the value of `from` into the cell of `column` at `row`, and
    /// constrains the two cells to be equal.
    pub fn copy_advice(&mut self, from: &Number, column: Column, row: usize) -> (r: Number)
        requires
            old(self).wf(),
            from.value.wf(),
        ensures
            final(self).wf(),
            r == (Number { cell: Cell { column: column.index, row }, value: from.value }),
            final(self).k == old(self).k,
            final(self).usable_rows == old(self).usable_rows,
            final(self).next_row == old(self).next_row,
            final(self).table() == (Table {
                assigned: old(self).assigned@.push(r),
                copies: old(self).copies@.push(CopyConstraint { left: from.cell, right: r.cell }),
                ..old(self).table()
            }),
    {
        let r = self.assign_advice(column, row, from.value.clone());
        self.copies.push(CopyConstraint { left: from.cell, right: r.cell });
        r
    }

    /// Constrains `cell` to equal the public value at `row` of `column`.
    pub fn constrain_instance(&mut self, cell: Cell, column: InstanceColumn, row: usize)
        requires
            old(self).wf(),
        ensures
            final(self).wf(),
            final(self).k == old(self).k,
            final(self).usable_rows == old(self).usable_rows,
            final(self).next_row == old(self).next_row,
            final(self).table() == (Table {
                links: old(self).links@.push(InstanceLink { cell, column, row }),
                ..old(self).table()
            }),
    {
        self.links.push(InstanceLink { cell, column, row });
    }
}

/// The value last written into the cell of `column` at `row`; `None` when
/// the cell was never written or holds an unknown value.
pub open spec fn lookup(assigned: Seq<Number>, column: int, row: int) -> Option<nat>
    decreases assigned.len(),
{
    if assigned.len() == 0 {
        None
    } else if assigned.last().cell.column == column && assigned.last().cell.row == row {
        assigned.last().value.spec_known()
    } else {
        lookup(assigned.drop_last(), column, row)
    }
}

/// The identity of `g` holds at `row`: its three cells are known and
/// `out[row + 1] == lhs[row] op rhs[row]`.
pub open spec fn gate_holds(g: Gate, assigned: Seq<Number>, row: int) -> bool {
    match (
        lookup(assigned, g.lhs.index as int, row),
        lookup(assigned, g.rhs.index as int, row),
        lookup(assigned, g.out.index as int, row + 1),
    ) {
        (Some(l), Some(r), Some(o)) => o == g.operator.spec_apply(l, r),
        _ => false,
    }
}

/// Gate `j` holds wherever selector entry `i` switches it on.
pub open spec fn gate_pair_holds(shape: Shape, t: Table, i: int, j: int) -> bool {
    shape.gates[j].selector == t.enabled[i].selector ==> gate_holds(
        shape.gates[j],
        t.assigned,
        t.enabled[i].row as int,
    )
}

/// Every gate holds at every row where its selector is on; where it is off
/// it asks nothing.
pub open spec fn gates_hold(shape: Shape, t: Table) -> bool {
    forall|i: int, j: int|
        0 <= i < t.enabled.len() && 0 <= j < shape.gates.len() ==> #[trigger] gate_pair_holds(
            shape,
            t,
            i,
            j,
        )
}

/// Both cells lie in equality-enabled columns and hold the same known value.
pub open spec fn copy_holds(shape: Shape, t: Table, c: CopyConstraint) -> bool {
    &&& shape.equality.contains(ColumnRef::Advice(c.left.column))
    &&& shape.equality.contains(ColumnRef::Advice(c.right.column))
    &&& lookup(t.assigned, c.left.column as int, c.left.row as int) is Some
    &&& lookup(t.assigned, c.left.column as int, c.left.row as int) == lookup(
        t.assigned,
        c.right.column as int,
        c.right.row as int,
    )
}

/// The public value at `row` of instance column `column`: rows past the
/// given values hold zero.
pub open spec fn instance_value(instance: Seq<Vec<FieldElement>>, column: int, row: int) -> nat {
    if 0 <= row < instance[column]@.len() {
        instance[column]@[row]@
    } else {
        0
    }
}

/// The advice cell holds the public value that it is linked to.
pub open spec fn link_holds(
    shape: Shape,
    t: Table,
    instance: Seq<Vec<FieldElement>>,
    l: InstanceLink,
) -> bool {
    &&& shape.equality.contains(ColumnRef::Advice(l.cell.column))
    &&& shape.equality.contains(ColumnRef::Instance(l.column.index))
    &&& l.column.index < instance.len()
    &&& lookup(t.assigned, l.cell.column as int, l.cell.row as int) == Some(
        instance_value(instance, l.column.index as int, l.row as int),
    )
}

/// Every copy constraint holds.
pub open spec fn copies_hold(shape: Shape, t: Table) -> bool {
    forall|i: int| 0 <= i < t.copies.len() ==> copy_holds(shape, t, #[trigger] t.copies[i])
}

/// Every link to a public value holds.
pub open spec fn links_hold(shape: Shape, t: Table, instance: Seq<Vec<FieldElement>>) -> bool {
    forall|i: int| 0 <= i < t.links.len() ==> link_holds(shape, t, instance, #[trigger] t.links[i])
}

/// The table satisfies the constraint system with these public values.
pub open spec fn satisfied(shape: Shape, t: Table, instance: Seq<Vec<FieldElement>>) -> bool {
    &&& gates_hold(shape, t)
    &&& copies_hold(shape, t)
    &&& links_hold(shape, t, instance)
}

/// The failure names a constraint that the table breaks.
pub open spec fn is_failure(
    shape: Shape,
    t: Table,
    instance: Seq<Vec<FieldElement>>,
    f: VerifyFailure,
) -> bool {
    match f {
        VerifyFailure::ConstraintNotSatisfied { operator, row } => exists|i: int, j: int|
            0 <= i < t.enabled.len() && 0 <= j < shape.gates.len() && t.enabled[i].row == row
                && shape.gates[j].operator == operator && !#[trigger] gate_pair_holds(shape, t, i, j),
        VerifyFailure::Permutation { left, right } => exists|i: int|
            0 <= i < t.copies.len() && #[trigger] t.copies[i] == (CopyConstraint { left, right })
                && !copy_holds(shape, t, t.copies[i]),
        VerifyFailure::Instance { cell, column, row } => exists|i: int|
            0 <= i < t.links.len() && #[trigger] t.links[i] == (InstanceLink { cell, column, row })
                && !link_holds(shape, t, instance, t.links[i]),
    }
}

/// Every failure of a list names a constraint that the table breaks.
pub open spec fn all_failures(
    shape: Shape,
    t: Table,
    instance: Seq<Vec<FieldElement>>,
    v: Seq<VerifyFailure>,
) -> bool {
    forall|k: int| 0 <= k < v.len() ==> is_failure(shape, t, instance, #[trigger] v[k])
}

/// Gate `j` holds at selector entry `i`, or the list names it.
pub open spec fn gate_reported(shape: Shape, t: Table, v: Seq<VerifyFailure>, i: int, j: int) -> bool {
    gate_pair_holds(shape, t, i, j) || v.contains(
        VerifyFailure::ConstraintNotSatisfied {
            operator: shape.gates[j].operator,
            row: t.enabled[i].row,
        },
    )
}

/// Copy constraint `i` holds, or the list names it.
pub open spec fn copy_reported(shape: Shape, t: Table, v: Seq<VerifyFailure>, i: int) -> bool {
    copy_holds(shape, t, t.copies[i]) || v.contains(
        VerifyFailure::Permutation { left: t.copies[i].left, right: t.copies[i].right },
    )
}

/// Link `i` holds, or the list names it.
pub open spec fn link_reported(
    shape: Shape,
    t: Table,
    instance: Seq<Vec<FieldElement>>,
    v: Seq<VerifyFailure>,
    i: int,
) -> bool {
    link_holds(shape, t, instance, t.links[i]) || v.contains(
        VerifyFailure::Instance {
            cell: t.links[i].cell,
            column: t.links[i].column,
            row: t.links[i].row,
        },
    )
}

/// Every constraint that the table breaks is named in the list.
pub open spec fn all_reported(
    shape: Shape,
    t: Table,
    instance: Seq<Vec<FieldElement>>,
    v: Seq<VerifyFailure>,
) -> bool {
    &&& forall|i: int, j: int|
        0 <= i < t.enabled.len() && 0 <= j < shape.gates.len() ==> #[trigger] gate_reported(
            shape,
            t,
            v,
            i,
            j,
        )
    &&& forall|i: int| 0 <= i < t.copies.len() ==> #[trigger] copy_reported(shape, t, v, i)
    &&& forall|i: int| 0 <= i < t.links.len() ==> #[trigger] link_reported(shape, t, instance, v, i)
}

/// What a list holds, it still holds after a push.
proof fn lemma_push_contains(v: Seq<VerifyFailure>, x: VerifyFailure)
    ensures
        forall|y: VerifyFailure| v.contains(y) ==> #[trigger] v.push(x).contains(y),
        v.push(x).contains(x),
{
    assert(v.push(x)[v.len() as int] == x);
    assert forall|y: VerifyFailure| v.contains(y) implies #[trigger] v.push(x).contains(y) by {
        let k = choose|k: int| 0 <= k < v.len() && v[k] == y;
        assert(v.push(x)[k] == y);
    }
}

/// Every public value is canonical.
pub open spec fn instance_wf(instance: Seq<Vec<FieldElement>>) -> bool {
    forall|c: int, r: int|
        0 <= c < instance.len() && 0 <= r < instance[c]@.len() ==> (#[trigger] instance[c]@[r]).wf()
}

impl Layouter {
    /// The value last written into the cell of `column` at `row`.
    pub fn lookup(&self, column: usize, row: usize) -> (r: Option<FieldElement>)
        requires
            values_wf(self.assigned@),
        ensures
            match r {
                Some(f) => f.wf() && lookup(self.assigned@, column as int, row as int) == Some(
                    f@,
                ),
                None => lookup(self.assigned@, column as int, row as int) is None,
            },
    {
        let ghost s = self.assigned@;
        let mut i: usize = self.assigned.len();
        assert(s.subrange(0, i as int) =~= s);
        while i > 0
            invariant
                i <= s.len(),
                s == self.assigned@,
                values_wf(s),
                lookup(s, column as int, row as int) == lookup(
                    s.subrange(0, i as int),
                    column as int,
                    row as int,
                ),
            decreases i,
        {
            let n = &self.assigned[i - 1];
            assert(s.subrange(0, i as int).last() == s[i - 1]);
            assert(s.subrange(0, i as int).drop_last() =~= s.subrange(0, i - 1));
            if n.cell.column == column && n.cell.row == row {
                assert(s[i - 1].value.wf());
                return match &n.value {
                    Value::Known(f) => Some(f.clone()),
                    Value::Unknown => None,
                };
            }
            i = i - 1;
        }
        None
    }

    /// Whether the identity of `g` holds at `row`.
    pub fn gate_holds(&self, g: &Gate, row: usize) -> (r: bool)
        requires
            values_wf(self.assigned@),
            row < usize::MAX,
        ensures
            r == gate_holds(*g, self.assigned@, row as int),
    {
        let lhs = self.lookup(g.lhs.index, row);
        let rhs = self.lookup(g.rhs.index, row);
        let out = self.lookup(g.out.index, row + 1);
        match (lhs, rhs, out) {
            (Some(l), Some(r), Some(o)) => g.operator.apply(&l, &r).equals(&o),
            _ => false,
        }
    }
}

/// Checks a table against a constraint system and public values, and lists
/// every constraint that fails.
pub fn verify_table(cs: &ConstraintSystem, layout: &Layouter, instance: &Vec<Vec<FieldElement>>) -> (r:
    Result<(), Vec<VerifyFailure>>)
    requires
        layout.wf(),
        layout.usable_rows < usize::MAX,
        forall|i: int| 0 <= i < layout.enabled@.len() ==> (#[trigger] layout.enabled@[i]).row < usize::MAX,
        instance_wf(instance@),
    ensures
        r is Ok <==> satisfied(cs@, layout.table(), instance@),
        r matches Err(v) ==> v@.len() > 0 && all_failures(cs@, layout.table(), instance@, v@)
            && all_reported(cs@, layout.table(), instance@, v@),
{
    let ghost shape = cs@;
    let ghost t = layout.table();
    let mut failures: Vec<VerifyFailure> = Vec::new();
    let mut i: usize = 0;
    while i < layout.enabled.len()
        invariant
            shape == cs@,
            t == layout.table(),
            all_failures(shape, t, instance@, failures@),
            values_wf(layout.assigned@),
            forall|i: int| 0 <= i < layout.enabled@.len() ==> (#[trigger] layout.enabled@[i]).row < usize::MAX,
            0 <= i <= t.enabled.len(),
            forall|a: int, b: int|
                0 <= a < i && 0 <= b < shape.gates.len() ==> #[trigger] gate_reported(
                    shape,
                    t,
                    failures@,
                    a,
                    b,
                ),
            failures@.len() == 0 <==> forall|a: int, b: int|
                0 <= a < i && 0 <= b < shape.gates.len() ==> #[trigger] gate_pair_holds(
                    shape,
                    t,
                    a,
                    b,
                ),
        decreases t.enabled.len() - i,
    {
        let e = layout.enabled[i];
        let mut j: usize = 0;
        while j < cs.gates.len()
            invariant
                shape == cs@,
                t == layout.table(),
            all_failures(shape, t, instance@, failures@),
                values_wf(layout.assigned@),
                e == t.enabled[i as int],
                e.row < usize::MAX,
                0 <= i < t.enabled.len(),
                0 <= j <= shape.gates.len(),
                forall|a: int, b: int|
                    0 <= a < i && 0 <= b < shape.gates.len() ==> #[trigger] gate_reported(
                        shape,
                        t,
                        failures@,
                        a,
                        b,
                    ),
                forall|b: int| 0 <= b < j ==> #[trigger] gate_reported(shape, t, failures@, i as int, b),
                failures@.len() == 0 <==> (forall|a: int, b: int|
                    0 <= a < i && 0 <= b < shape.gates.len() ==> #[trigger] gate_pair_holds(
                        shape,
                        t,
                        a,
                        b,
                    )) && (forall|b: int| 0 <= b < j ==> #[trigger] gate_pair_holds(shape, t, i as int, b)),
            decreases shape.gates.len() - j,
        {
            let g = cs.gates[j];
            if g.selector == e.selector {
                if !layout.gate_holds(&g, e.row) {
                    assert(!gate_pair_holds(shape, t, i as int, j as int));
                    let f = VerifyFailure::ConstraintNotSatisfied { operator: g.operator, row: e.row };
                    assert(is_failure(shape, t, instance@, f));
                    let ghost before = failures@;
                    failures.push(f);
                    proof {
                        lemma_push_contains(before, f);
                        assert forall|a: int, b: int|
                            0 <= a < i && 0 <= b < shape.gates.len() implies #[trigger] gate_reported(
                            shape,
                            t,
                            failures@,
                            a,
                            b,
                        ) by {
                            assert(gate_reported(shape, t, before, a, b));
                        }
                        assert forall|b: int| 0 <= b < j implies #[trigger] gate_reported(
                            shape,
                            t,
                            failures@,
                            i as int,
                            b,
                        ) by {
                            assert(gate_reported(shape, t, before, i as int, b));
                        }
                    }
                }
            }
            proof {
                assert(gate_pair_holds(shape, t, i as int, j as int) || failures@.len() > 0);
                assert(gate_reported(shape, t, failures@, i as int, j as int));
            }
            j = j + 1;
        }
        proof {
            if failures@.len() == 0 {
                assert forall|a: int, b: int|
                    0 <= a < i + 1 && 0 <= b < shape.gates.len() implies #[trigger] gate_pair_holds(
                    shape,
                    t,
                    a,
                    b,
                ) by {
                    if a == i {
                        assert(gate_pair_holds(shape, t, i as int, b));
                    }
                }
            }
            assert forall|a: int, b: int|
                0 <= a < i + 1 && 0 <= b < shape.gates.len() implies #[trigger] gate_reported(
                shape,
                t,
                failures@,
                a,
                b,
            ) by {
                if a == i {
                    assert(gate_reported(shape, t, failures@, i as int, b));
                }
            }
        }
        i = i + 1;
    }
    let ghost gate_failures = failures@.len();
    let mut i: usize = 0;
    while i < layout.copies.len()
        invariant
            shape == cs@,
            t == layout.table(),
            all_failures(shape, t, instance@, failures@),
            values_wf(layout.assigned@),
            0 <= i <= t.copies.len(),
            forall|a: int, b: int|
                0 <= a < t.enabled.len() && 0 <= b < shape.gates.len() ==> #[trigger] gate_reported(
                    shape,
                    t,
                    failures@,
                    a,
                    b,
                ),
            forall|a: int| 0 <= a < i ==> #[trigger] copy_reported(shape, t, failures@, a),
            gate_failures == 0 <==> gates_hold(shape, t),
            failures@.len() == 0 <==> (gate_failures == 0 && forall|a: int|
                0 <= a < i ==> copy_holds(shape, t, #[trigger] t.copies[a])),
        decreases t.copies.len() - i,
    {
        let c = layout.copies[i];
        let ok = if cs.has_equality(ColumnRef::Advice(c.left.column)) && cs.has_equality(
            ColumnRef::Advice(c.right.column),
        ) {
            match (layout.lookup(c.left.column, c.left.row), layout.lookup(c.right.column, c.right.row)) {
                (Some(x), Some(y)) => x.equals(&y),
                _ => false,
            }
        } else {
            false
        };
        assert(ok == copy_holds(shape, t, t.copies[i as int]));
        if !ok {
            let f = VerifyFailure::Permutation { left: c.left, right: c.right };
            assert(t.copies[i as int] == (CopyConstraint { left: c.left, right: c.right }));
            assert(is_failure(shape, t, instance@, f));
            let ghost before = failures@;
            failures.push(f);
            proof {
                lemma_push_contains(before, f);
                assert forall|a: int, b: int|
                    0 <= a < t.enabled.len() && 0 <= b < shape.gates.len() implies #[trigger] gate_reported(
                    shape,
                    t,
                    failures@,
                    a,
                    b,
                ) by {
                    assert(gate_reported(shape, t, before, a, b));
                }
                assert forall|a: int| 0 <= a < i implies #[trigger] copy_reported(
                    shape,
                    t,
                    failures@,
                    a,
                ) by {
                    assert(copy_reported(shape, t, before, a));
                }
            }
        }
        assert(copy_reported(shape, t, failures@, i as int));
        i = i + 1;
    }
    let ghost copy_failures = failures@.len();
    let mut i: usize = 0;
    while i < layout.links.len()
        invariant
            shape == cs@,
            t == layout.table(),
            all_failures(shape, t, instance@, failures@),
            values_wf(layout.assigned@),
            instance_wf(instance@),
            0 <= i <= t.links.len(),
            forall|a: int, b: int|
                0 <= a < t.enabled.len() && 0 <= b < shape.gates.len() ==> #[trigger] gate_reported(
                    shape,
                    t,
                    failures@,
                    a,
                    b,
                ),
            forall|a: int| 0 <= a < t.copies.len() ==> #[trigger] copy_reported(shape, t, failures@, a),
            forall|a: int| 0 <= a < i ==> #[trigger] link_reported(shape, t, instance@, failures@, a),
            gate_failures == 0 <==> gates_hold(shape, t),
            copy_failures == 0 <==> (gates_hold(shape, t) && copies_hold(shape, t)),
            failures@.len() == 0 <==> (copy_failures == 0 && forall|a: int|
                0 <= a < i ==> link_holds(shape, t, instance@, #[trigger] t.links[a])),
        decreases t.links.len() - i,
    {
        let l = layout.links[i];
        let ok = if cs.has_equality(ColumnRef::Advice(l.cell.column)) && cs.has_equality(
            ColumnRef::Instance(l.column.index),
        ) && l.column.index < instance.len() {
            let column = &instance[l.column.index];
            let expected = if l.row < column.len() {
                column[l.row].clone()
            } else {
                FieldElement::zero()
            };
            match layout.lookup(l.cell.column, l.cell.row) {
                Some(x) => x.equals(&expected),
                None => false,
            }
        } else {
            false
        };
        assert(ok == link_holds(shape, t, instance@, t.links[i as int]));
        if !ok {
            let f = VerifyFailure::Instance { cell: l.cell, column: l.column, row: l.row };
            assert(t.links[i as int] == (InstanceLink { cell: l.cell, column: l.column, row: l.row }));
            assert(is_failure(shape, t, instance@, f));
            let ghost before = failures@;
            failures.push(f);
            proof {
                lemma_push_contains(before, f);
                assert forall|a: int, b: int|
                    0 <= a < t.enabled.len() && 0 <= b < shape.gates.len() implies #[trigger] gate_reported(
                    shape,
                    t,
                    failures@,
                    a,
                    b,
                ) by {
                    assert(gate_reported(shape, t, before, a, b));
                }
                assert forall|a: int| 0 <= a < t.copies.len() implies #[trigger] copy_reported(
                    shape,
                    t,
                    failures@,
                    a,
                ) by {
                    assert(copy_reported(shape, t, before, a));
                }
                assert forall|a: int| 0 <= a < i implies #[trigger] link_reported(
                    shape,
                    t,
                    instance@,
                    failures@,
                    a,
                ) by {
                    assert(link_reported(shape, t, instance@, before, a));
                }
            }
        }
        assert(link_reported(shape, t, instance@, failures@, i as int));
        i = i + 1;
    }
    if failures.len() == 0 {
        Ok(())
    } else {
        Err(failures)
    }
}

} // verus!
