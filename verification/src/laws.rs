//! Proved properties of the compiler, stated over the mathematical
//! models of its inputs and outputs.

use vstd::prelude::*;

use crate::compile::{compile_filter, SubSelect};
use crate::filter::{
    order_of, FilterView, Order, ScalarConditionView, ScalarFilterView, SortOrder,
};
use crate::tree::{ConditionTreeView, ConditionView};
use crate::value::{native_value_view, PrismaValueView};

verus! {

/// Equality against null compiles to a null check, and equality against
/// any non-null value to an equality leaf on the value's native form.
pub proof fn law_equals<M: SubSelect>(field: Seq<char>, v: PrismaValueView, model: M)
    ensures
        v is Null ==> compile_filter(
            FilterView::Scalar(
                ScalarFilterView { field, condition: ScalarConditionView::Equals(v) },
            ),
            model,
        ) == ConditionTreeView::Single(ConditionView::IsNull { field }),
        !(v is Null) ==> compile_filter(
            FilterView::Scalar(
                ScalarFilterView { field, condition: ScalarConditionView::Equals(v) },
            ),
            model,
        ) == ConditionTreeView::Single(
            ConditionView::Equals { field, value: native_value_view(v) },
        ),
{
}

/// Inequality against null compiles to a not-null check, and inequality
/// against any non-null value to an inequality leaf on the value's native
/// form.
pub proof fn law_not_equals<M: SubSelect>(field: Seq<char>, v: PrismaValueView, model: M)
    ensures
        v is Null ==> compile_filter(
            FilterView::Scalar(
                ScalarFilterView { field, condition: ScalarConditionView::NotEquals(v) },
            ),
            model,
        ) == ConditionTreeView::Single(ConditionView::IsNotNull { field }),
        !(v is Null) ==> compile_filter(
            FilterView::Scalar(
                ScalarFilterView { field, condition: ScalarConditionView::NotEquals(v) },
            ),
            model,
        ) == ConditionTreeView::Single(
            ConditionView::NotEquals { field, value: native_value_view(v) },
        ),
{
}

/// A one-element null list under `In` compiles to a null check, and under
/// `NotIn` to a not-null check.
pub proof fn law_in_single_null<M: SubSelect>(field: Seq<char>, model: M)
    ensures
        compile_filter(
            FilterView::Scalar(
                ScalarFilterView {
                    field,
                    condition: ScalarConditionView::In(seq![PrismaValueView::Null]),
                },
            ),
            model,
        ) == ConditionTreeView::Single(ConditionView::IsNull { field }),
        compile_filter(
            FilterView::Scalar(
                ScalarFilterView {
                    field,
                    condition: ScalarConditionView::NotIn(seq![PrismaValueView::Null]),
                },
            ),
            model,
        ) == ConditionTreeView::Single(ConditionView::IsNotNull { field }),
{
}

/// Every other list under `In` — in particular a multi-element list that
/// contains null — compiles to a selection leaf over the natives of the
/// whole list, order and duplicates preserved.
pub proof fn law_in_selection<M: SubSelect>(field: Seq<char>, vs: Seq<PrismaValueView>, model: M)
    requires
        !(vs.len() == 1 && vs[0] is Null),
    ensures
        compile_filter(
            FilterView::Scalar(
                ScalarFilterView { field, condition: ScalarConditionView::In(vs) },
            ),
            model,
        ) == ConditionTreeView::Single(
            ConditionView::InSelection {
                field,
                values: vs.map_values(|v: PrismaValueView| native_value_view(v)),
            },
        ),
        compile_filter(
            FilterView::Scalar(
                ScalarFilterView { field, condition: ScalarConditionView::NotIn(vs) },
            ),
            model,
        ) == ConditionTreeView::Single(
            ConditionView::NotInSelection {
                field,
                values: vs.map_values(|v: PrismaValueView| native_value_view(v)),
            },
        ),
{
}

/// An empty AND list compiles to the always-true tree, and so does an
/// empty OR list: the identity element is reused for both, a deliberate
/// asymmetry of the combinator.
pub proof fn law_empty_list<M: SubSelect>(model: M)
    ensures
        compile_filter(FilterView::And(Seq::empty()), model) == ConditionTreeView::NoCondition,
        compile_filter(FilterView::Or(Seq::empty()), model) == ConditionTreeView::NoCondition,
{
}

/// A one-element AND or OR list compiles to the element's own tree, with
/// no wrapping node.
pub proof fn law_single_list<M: SubSelect>(f: FilterView, model: M)
    ensures
        compile_filter(FilterView::And(seq![f]), model) == compile_filter(f, model),
        compile_filter(FilterView::Or(seq![f]), model) == compile_filter(f, model),
{
}

/// A list of two or more sub-filters folds right-associatively: the first
/// element's tree is the outermost left operand, and the rest fold as the
/// right operand.
pub proof fn law_fold_unrolls<M: SubSelect>(fs: Seq<FilterView>, model: M)
    requires
        fs.len() >= 2,
    ensures
        compile_filter(FilterView::And(fs), model) == ConditionTreeView::And(
            Box::new(compile_filter(fs[0], model)),
            Box::new(compile_filter(FilterView::And(fs.subrange(1, fs.len() as int)), model)),
        ),
        compile_filter(FilterView::Or(fs), model) == ConditionTreeView::Or(
            Box::new(compile_filter(fs[0], model)),
            Box::new(compile_filter(FilterView::Or(fs.subrange(1, fs.len() as int)), model)),
        ),
{
}

/// A three-element AND list compiles to
/// `And(c1, And(c2, c3))` where `ci` is the tree of the i-th element.
pub proof fn law_and_three<M: SubSelect>(
    f1: FilterView,
    f2: FilterView,
    f3: FilterView,
    model: M,
)
    ensures
        compile_filter(FilterView::And(seq![f1, f2, f3]), model) == ConditionTreeView::And(
            Box::new(compile_filter(f1, model)),
            Box::new(
                ConditionTreeView::And(
                    Box::new(compile_filter(f2, model)),
                    Box::new(compile_filter(f3, model)),
                ),
            ),
        ),
{
    let fs = seq![f1, f2, f3];
    law_fold_unrolls(fs, model);
    assert(fs.subrange(1, 3) =~= seq![f2, f3]);
    law_fold_unrolls(seq![f2, f3], model);
    assert(seq![f2, f3].subrange(1, 2) =~= seq![f3]);
    law_single_list(f3, model);
}

/// A NOT filter compiles to the negation of the implicit conjunction of
/// its sub-filters.
pub proof fn law_not<M: SubSelect>(fs: Seq<FilterView>, model: M)
    ensures
        compile_filter(FilterView::Not(fs), model) == ConditionTreeView::Not(
            Box::new(compile_filter(FilterView::And(fs), model)),
        ),
{
}

/// A two-element NOT list compiles to `Not(And(c1, c2))`.
pub proof fn law_not_pair<M: SubSelect>(f1: FilterView, f2: FilterView, model: M)
    ensures
        compile_filter(FilterView::Not(seq![f1, f2]), model) == ConditionTreeView::Not(
            Box::new(
                ConditionTreeView::And(
                    Box::new(compile_filter(f1, model)),
                    Box::new(compile_filter(f2, model)),
                ),
            ),
        ),
{
    law_not(seq![f1, f2], model);
    law_fold_unrolls(seq![f1, f2], model);
    assert(seq![f1, f2].subrange(1, 2) =~= seq![f2]);
    law_single_list(f2, model);
}

/// The boolean constants compile to the constant trees: true to
/// always-true, false to always-false.
pub proof fn law_bool_constant<M: SubSelect>(b: bool, model: M)
    ensures
        compile_filter(FilterView::BoolConstant(b), model) == if b {
            ConditionTreeView::NoCondition
        } else {
            ConditionTreeView::NegativeCondition
        },
{
}

/// Ascending maps to the ascending token and descending to the
/// descending token; the sort order has no third case.
pub proof fn law_sort_order()
    ensures
        order_of(SortOrder::Asc) == Order::Asc,
        order_of(SortOrder::Desc) == Order::Desc,
        forall|s: SortOrder| (#[trigger] order_of(s)) == if s == SortOrder::Asc {
            Order::Asc
        } else {
            Order::Desc
        },
{
    assert forall|s: SortOrder|
        (#[trigger] order_of(s)) == if s == SortOrder::Asc {
            Order::Asc
        } else {
            Order::Desc
        } by {
        match s {
            SortOrder::Asc => {},
            SortOrder::Desc => {},
        }
    }
}

} // verus!

