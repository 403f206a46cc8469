//! The chips: one gate per operator, and the arithmetic chip that puts the
//! three gates behind a shared pair of advice columns and an instance column.

use crate::operator::Operator;
use crate::plonk::{
    Cell, Column, ColumnRef, ConstraintSystem, CopyConstraint, EnabledSelector, Error, Gate,
    InstanceColumn, InstanceLink, Layouter, Number, Selector, Shape, Table,
};
use crate::value::{value_apply, Value};
use vstd::prelude::*;

verus! {

/// The columns and the selector of one operator gate.
#[derive(Clone, Copy, Debug, PartialEq, Eq, Structural)]
pub struct OperatorConfig {
    pub operator: Operator,
    /// Holds the left operand, and the result one row below it.
    pub a: Column,
    /// Holds the right operand.
    pub b: Column,
    pub selector: Selector,
}

impl OperatorConfig {
    /// The identity that this configuration registers.
    pub open spec fn gate(self) -> Gate {
        Gate { operator: self.operator, lhs: self.a, rhs: self.b, out: self.a, selector: self.selector }
    }
}

/// The table after an operator region at row `base` has been written: the
/// selector on at `base`, both operands copied into row `base`, and the
/// result in column `a` at row `base + 1`.
pub open spec fn region_table(t: Table, config: OperatorConfig, base: int, a: Number, b: Number) -> Table {
    let na = Number { cell: Cell { column: config.a.index, row: base as usize }, value: a.value };
    let nb = Number { cell: Cell { column: config.b.index, row: base as usize }, value: b.value };
    let out = Number {
        cell: Cell { column: config.a.index, row: (base + 1) as usize },
        value: value_apply(config.operator, a.value, b.value),
    };
    Table {
        assigned: t.assigned.push(na).push(nb).push(out),
        enabled: t.enabled.push(EnabledSelector { selector: config.selector, row: base as usize }),
        copies: t.copies.push(CopyConstraint { left: a.cell, right: na.cell }).push(
            CopyConstraint { left: b.cell, right: nb.cell },
        ),
        links: t.links,
    }
}

/// The shape after one operator gate is configured.
pub open spec fn operator_shape(s: Shape, operator: Operator, a: Column, b: Column) -> Shape {
    Shape {
        num_selectors: s.num_selectors + 1,
        gates: s.gates.push(
            OperatorConfig {
                operator,
                a,
                b,
                selector: Selector { index: s.num_selectors as usize },
            }.gate(),
        ),
        ..s
    }
}

/// A chip that applies one operator.
pub struct OperatorChip {
    pub config: OperatorConfig,
}

impl OperatorChip {
    /// A chip over a configuration.
    pub fn construct(config: OperatorConfig) -> (r: OperatorChip)
        ensures
            r.config == config,
    {
        OperatorChip { config }
    }

    /// The chip's configuration.
    pub fn config(&self) -> (r: OperatorConfig)
        ensures
            r == self.config,
    {
        self.config
    }

    /// Takes a fresh selector and registers the identity
    /// `selector * (a[cur] op b[cur] - a[next]) = 0`.
    pub fn configure(meta: &mut ConstraintSystem, operator: Operator, a: Column, b: Column) -> (r:
        OperatorConfig)
        requires
            old(meta).num_selectors < usize::MAX,
        ensures
            r == (OperatorConfig {
                operator,
                a,
                b,
                selector: Selector { index: old(meta).num_selectors },
            }),
            final(meta)@ == operator_shape(old(meta)@, operator, a, b),
    {
        let selector = meta.selector();
        let config = OperatorConfig { operator, a, b, selector };
        meta.create_gate(Gate { operator, lhs: a, rhs: b, out: a, selector });
        config
    }

    /// Lays out a region of two rows: switches the selector on, copies the
    /// operands into the first row and writes `a op b` below `a`. The result
    /// is unknown when an operand is. Fails when no two rows are left.
    pub fn apply(&self, layouter: &mut Layouter, a: &Number, b: &Number) -> (r: Result<Number, Error>)
        requires
            old(layouter).wf(),
            a.value.wf(),
            b.value.wf(),
        ensures
            final(layouter).wf(),
            final(layouter).k == old(layouter).k,
            final(layouter).usable_rows == old(layouter).usable_rows,
            old(layouter).next_row + 2 <= old(layouter).usable_rows ==> {
                &&& r matches Ok(n)
                &&& n == (Number {
                    cell: Cell { column: self.config.a.index, row: (old(layouter).next_row + 1) as usize },
                    value: value_apply(self.config.operator, a.value, b.value),
                })
                &&& final(layouter).next_row == old(layouter).next_row + 2
                &&& final(layouter).table() == region_table(
                    old(layouter).table(),
                    self.config,
                    old(layouter).next_row as int,
                    *a,
                    *b,
                )
            },
            old(layouter).next_row + 2 > old(layouter).usable_rows ==> r == Err::<Number, Error>(
                Error::NotEnoughRowsAvailable { current_k: old(layouter).k },
            ),
    {
        let config = self.config;
        let base = layouter.assign_region(2)?;
        layouter.enable_selector(config.selector, base);
        let lhs = layouter.copy_advice(a, config.a, base);
        let rhs = layouter.copy_advice(b, config.b, base);
        let c = lhs.value.apply(config.operator, &rhs.value);
        let out = layouter.assign_advice(config.a, base + 1, c);
        Ok(out)
    }
}

/// The columns and the three operator gates of the arithmetic chip.
#[derive(Clone, Copy, Debug, PartialEq, Eq, Structural)]
pub struct ArithmeticConfig {
    /// Holds the loaded values, left operands and results.
    pub a: Column,
    /// Holds the right operands.
    pub b: Column,
    /// Holds the public result.
    pub instance: InstanceColumn,
    pub add_config: OperatorConfig,
    pub sub_config: OperatorConfig,
    pub mul_config: OperatorConfig,
}

impl ArithmeticConfig {
    /// Each operator's configuration carries that operator, over the shared columns.
    pub open spec fn wf(self) -> bool {
        &&& self.add_config.operator == Operator::Add
        &&& self.sub_config.operator == Operator::Sub
        &&& self.mul_config.operator == Operator::Mul
        &&& self.add_config.a == self.a && self.add_config.b == self.b
        &&& self.sub_config.a == self.a && self.sub_config.b == self.b
        &&& self.mul_config.a == self.a && self.mul_config.b == self.b
    }

    /// The configuration of an operator.
    pub open spec fn operator_config(self, operator: Operator) -> OperatorConfig {
        match operator {
            Operator::Add => self.add_config,
            Operator::Sub => self.sub_config,
            Operator::Mul => self.mul_config,
        }
    }
}

/// The configuration that the arithmetic chip builds on a system of shape `s`:
/// the selectors of `+`, `-` and `*` are the next three.
pub open spec fn arithmetic_config(s: Shape, a: Column, b: Column, instance: InstanceColumn) -> ArithmeticConfig {
    ArithmeticConfig {
        a,
        b,
        instance,
        add_config: OperatorConfig {
            operator: Operator::Add,
            a,
            b,
            selector: Selector { index: s.num_selectors as usize },
        },
        sub_config: OperatorConfig {
            operator: Operator::Sub,
            a,
            b,
            selector: Selector { index: (s.num_selectors + 1) as usize },
        },
        mul_config: OperatorConfig {
            operator: Operator::Mul,
            a,
            b,
            selector: Selector { index: (s.num_selectors + 2) as usize },
        },
    }
}

/// The shape after the arithmetic chip is configured on a system of shape `s`:
/// three gates, and equality on both advice columns and the instance column.
pub open spec fn arithmetic_shape(s: Shape, a: Column, b: Column, instance: InstanceColumn) -> Shape {
    let s3 = operator_shape(
        operator_shape(operator_shape(s, Operator::Add, a, b), Operator::Sub, a, b),
        Operator::Mul,
        a,
        b,
    );
    Shape {
        equality: s3.equality.push(ColumnRef::Advice(a.index)).push(ColumnRef::Advice(b.index)).push(
            ColumnRef::Instance(instance.index),
        ),
        ..s3
    }
}

/// The chip that loads private values, applies an operator and exposes a
/// result as public.
pub struct ArithmeticChip {
    pub config: ArithmeticConfig,
}

impl ArithmeticChip {
    /// A chip over a configuration.
    pub fn construct(config: ArithmeticConfig) -> (r: ArithmeticChip)
        ensures
            r.config == config,
    {
        ArithmeticChip { config }
    }

    /// The chip's configuration.
    pub fn config(&self) -> (r: ArithmeticConfig)
        ensures
            r == self.config,
    {
        self.config
    }

    /// Configures the gates of `+`, `-` and `*` over the columns `a` and `b`,
    /// and lets `a`, `b` and `instance` take part in copy constraints.
    pub fn configure(meta: &mut ConstraintSystem, a: Column, b: Column, instance: InstanceColumn) -> (r:
        ArithmeticConfig)
        requires
            old(meta).num_selectors + 3 <= usize::MAX,
        ensures
            r == arithmetic_config(old(meta)@, a, b, instance),
            r.wf(),
            final(meta)@ == arithmetic_shape(old(meta)@, a, b, instance),
    {
        let add_config = OperatorChip::configure(meta, Operator::Add, a, b);
        let sub_config = OperatorChip::configure(meta, Operator::Sub, a, b);
        let mul_config = OperatorChip::configure(meta, Operator::Mul, a, b);
        meta.enable_equality(ColumnRef::Advice(a.index));
        meta.enable_equality(ColumnRef::Advice(b.index));
        meta.enable_equality(ColumnRef::Instance(instance.index));
        ArithmeticConfig { a, b, instance, add_config, sub_config, mul_config }
    }

    /// Writes a private value into column `a` of a fresh one-row region.
    pub fn load_private(&self, layouter: &mut Layouter, value: Value) -> (r: Result<Number, Error>)
        requires
            old(layouter).wf(),
            value.wf(),
        ensures
            final(layouter).wf(),
            final(layouter).k == old(layouter).k,
            final(layouter).usable_rows == old(layouter).usable_rows,
            old(layouter).next_row + 1 <= old(layouter).usable_rows ==> {
                &&& r matches Ok(n)
                &&& n == (Number {
                    cell: Cell { column: self.config.a.index, row: old(layouter).next_row },
                    value,
                })
                &&& final(layouter).next_row == old(layouter).next_row + 1
                &&& final(layouter).table() == (Table {
                    assigned: old(layouter).table().assigned.push(n),
                    ..old(layouter).table()
                })
            },
            old(layouter).next_row + 1 > old(layouter).usable_rows ==> r == Err::<Number, Error>(
                Error::NotEnoughRowsAvailable { current_k: old(layouter).k },
            ),
    {
        let base = layouter.assign_region(1)?;
        Ok(layouter.assign_advice(self.config.a, base, value))
    }

    /// Applies `operator` to two loaded numbers through its gate.
    pub fn apply(&self, operator: Operator, layouter: &mut Layouter, a: &Number, b: &Number) -> (r:
        Result<Number, Error>)
        requires
            self.config.wf(),
            self.config.wf(),
            old(layouter).wf(),
            a.value.wf(),
            b.value.wf(),
        ensures
            final(layouter).wf(),
            final(layouter).k == old(layouter).k,
            final(layouter).usable_rows == old(layouter).usable_rows,
            old(layouter).next_row + 2 <= old(layouter).usable_rows ==> {
                &&& r matches Ok(n)
                &&& n == (Number {
                    cell: Cell { column: self.config.a.index, row: (old(layouter).next_row + 1) as usize },
                    value: value_apply(operator, a.value, b.value),
                })
                &&& final(layouter).next_row == old(layouter).next_row + 2
                &&& final(layouter).table() == region_table(
                    old(layouter).table(),
                    self.config.operator_config(operator),
                    old(layouter).next_row as int,
                    *a,
                    *b,
                )
            },
            old(layouter).next_row + 2 > old(layouter).usable_rows ==> r == Err::<Number, Error>(
                Error::NotEnoughRowsAvailable { current_k: old(layouter).k },
            ),
    {
        let config = match operator {
            Operator::Add => self.config.add_config,
            Operator::Sub => self.config.sub_config,
            Operator::Mul => self.config.mul_config,
        };
        OperatorChip::construct(config).apply(layouter, a, b)
    }

    /// Constrains a number to equal the public value at `row` of the
    /// instance column.
    pub fn expose_public(&self, layouter: &mut Layouter, num: &Number, row: usize) -> (r: Result<
        (),
        Error,
    >)
        requires
            old(layouter).wf(),
        ensures
            r is Ok,
            final(layouter).wf(),
            final(layouter).k == old(layouter).k,
            final(layouter).usable_rows == old(layouter).usable_rows,
            final(layouter).next_row == old(layouter).next_row,
            final(layouter).table() == (Table {
                links: old(layouter).table().links.push(
                    InstanceLink { cell: num.cell, column: self.config.instance, row },
                ),
                ..old(layouter).table()
            }),
    {
        layouter.constrain_instance(num.cell, self.config.instance, row);
        Ok(())
    }
}

} // verus!
