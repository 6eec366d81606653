//! The filter compiler itself.
//!
//! The dispatcher inspects a filter's variant and routes it to the scalar
//! translator, the logical combinator, the boolean-constant rule, or the
//! relation-filter delegate. AND and OR lists fold into a
//! right-associated binary tree whose outermost left operand is the first
//! list element; NOT builds the implicit conjunction of its sub-filters
//! and negates it.

use vstd::prelude::*;

use crate::filter::{
    filters_view, lemma_filters_view, prisma_values_view, AndFilter, Filter, FilterView, NotFilter,
    OrFilter, RelationFilter, RelationFilterView, ScalarCondition, ScalarConditionView,
    ScalarFilter, ScalarFilterView,
};
use crate::tree::{database_values_view, ConditionTree, ConditionTreeView, ConditionView};
use crate::value::{
    lemma_native_value_view, native_value_view, DatabaseValue, PrismaValue, PrismaValueView,
    display_view,
};

verus! {

/// The number of constructors in a filter, the compiler's termination
/// measure.
pub open spec fn filter_size(f: Filter) -> nat
    decreases f,
{
    match f {
        Filter::And(af) => 2 + filters_size(af.filters@),
        Filter::Or(of) => 2 + filters_size(of.filters@),
        Filter::Not(nf) => 2 + filters_size(nf.filters@),
        Filter::Scalar(_) => 1,
        Filter::Relation(_) => 1,
        Filter::BoolConstant(_) => 1,
    }
}

/// The summed size of a list of filters.
pub open spec fn filters_size(s: Seq<Filter>) -> nat
    decreases s,
{
    if s.len() == 0 {
        0
    } else {
        filter_size(s[0]) + filters_size(s.subrange(1, s.len() as int))
    }
}

/// The owning model, in its role as the collaborator that resolves a
/// relation filter to a correlated sub-select predicate. The compiler
/// does not inspect or transform the returned tree.
pub trait SubSelect: Sized {
    /// The sub-select predicate this model resolves a relation filter to.
    spec fn sub_select_spec(&self, rf: RelationFilterView) -> ConditionTreeView;

    /// Build the sub-select predicate for a relation filter.
    fn as_sub_select(&self, rf: RelationFilter) -> (r: ConditionTree)
        ensures
            r@ == self.sub_select_spec(rf@),
    ;
}

/// A minimal model reference that carries the model name alone. It holds
/// no relation metadata, so it resolves every relation filter to the
/// empty (always-true) condition.
#[derive(Debug, PartialEq, Eq)]
pub struct ModelRef {
    pub name: String,
}

impl SubSelect for ModelRef {
    open spec fn sub_select_spec(&self, rf: RelationFilterView) -> ConditionTreeView {
        ConditionTreeView::NoCondition
    }

    fn as_sub_select(&self, rf: RelationFilter) -> (r: ConditionTree) {
        ConditionTree::NoCondition
    }
}

/// The leaf condition a scalar comparison translates to.
///
/// Equality against null becomes a null check; a one-element null list
/// under `In`/`NotIn` likewise. Pattern operators compare against the
/// operand's display text; ordering and the remaining list operators use
/// the operand's native value, with order and duplicates preserved.
pub open spec fn scalar_leaf(field: Seq<char>, c: ScalarConditionView) -> ConditionView {
    match c {
        ScalarConditionView::Equals(v) => if v is Null {
            ConditionView::IsNull { field }
        } else {
            ConditionView::Equals { field, value: native_value_view(v) }
        },
        ScalarConditionView::NotEquals(v) => if v is Null {
            ConditionView::IsNotNull { field }
        } else {
            ConditionView::NotEquals { field, value: native_value_view(v) }
        },
        ScalarConditionView::Contains(v) => ConditionView::Like {
            field,
            pattern: display_view(v),
        },
        ScalarConditionView::NotContains(v) => ConditionView::NotLike {
            field,
            pattern: display_view(v),
        },
        ScalarConditionView::StartsWith(v) => ConditionView::BeginsWith {
            field,
            pattern: display_view(v),
        },
        ScalarConditionView::NotStartsWith(v) => ConditionView::NotBeginsWith {
            field,
            pattern: display_view(v),
        },
        ScalarConditionView::EndsWith(v) => ConditionView::EndsWith {
            field,
            pattern: display_view(v),
        },
        ScalarConditionView::NotEndsWith(v) => ConditionView::NotEndsWith {
            field,
            pattern: display_view(v),
        },
        ScalarConditionView::LessThan(v) => ConditionView::LessThan {
            field,
            value: native_value_view(v),
        },
        ScalarConditionView::LessThanOrEquals(v) => ConditionView::LessThanOrEquals {
            field,
            value: native_value_view(v),
        },
        ScalarConditionView::GreaterThan(v) => ConditionView::GreaterThan {
            field,
            value: native_value_view(v),
        },
        ScalarConditionView::GreaterThanOrEquals(v) => ConditionView::GreaterThanOrEquals {
            field,
            value: native_value_view(v),
        },
        ScalarConditionView::In(vs) => if vs.len() == 1 && vs[0] is Null {
            ConditionView::IsNull { field }
        } else {
            ConditionView::InSelection {
                field,
                values: vs.map_values(|v: PrismaValueView| native_value_view(v)),
            }
        },
        ScalarConditionView::NotIn(vs) => if vs.len() == 1 && vs[0] is Null {
            ConditionView::IsNotNull { field }
        } else {
            ConditionView::NotInSelection {
                field,
                values: vs.map_values(|v: PrismaValueView| native_value_view(v)),
            }
        },
    }
}

/// The single-leaf tree a scalar filter compiles to.
pub open spec fn scalar_condition_tree(sf: ScalarFilterView) -> ConditionTreeView {
    ConditionTreeView::Single(scalar_leaf(sf.field, sf.condition))
}

/// The condition tree a filter compiles to, against the given model.
pub open spec fn compile_filter<M: SubSelect>(f: FilterView, model: M) -> ConditionTreeView
    decreases f, 0nat,
{
    match f {
        FilterView::And(fs) => fold_filters(fs, false, model),
        FilterView::Or(fs) => fold_filters(fs, true, model),
        FilterView::Not(fs) => ConditionTreeView::Not(Box::new(fold_filters(fs, false, model))),
        FilterView::Scalar(sf) => scalar_condition_tree(sf),
        FilterView::Relation(rf) => model.sub_select_spec(*rf),
        FilterView::BoolConstant(b) => if b {
            ConditionTreeView::NoCondition
        } else {
            ConditionTreeView::NegativeCondition
        },
    }
}

/// The right-associated fold of a list of compiled sub-filters. The empty
/// list folds to the always-true tree; a one-element list folds to that
/// element's own tree, with no wrapping node.
pub open spec fn fold_filters<M: SubSelect>(
    fs: Seq<FilterView>,
    disjunction: bool,
    model: M,
) -> ConditionTreeView
    decreases fs, 1nat,
{
    if fs.len() == 0 {
        ConditionTreeView::NoCondition
    } else if fs.len() == 1 {
        compile_filter(fs[0], model)
    } else {
        let left = compile_filter(fs[0], model);
        let right = fold_filters(fs.subrange(1, fs.len() as int), disjunction, model);
        if disjunction {
            ConditionTreeView::Or(Box::new(left), Box::new(right))
        } else {
            ConditionTreeView::And(Box::new(left), Box::new(right))
        }
    }
}

/// Compilation into a condition tree, against an owning model of type
/// `M`.
pub trait IntoConditionTree<M: SubSelect>: Sized {
    /// The tree this value compiles to, over the models.
    spec fn condition_tree_spec(&self, model: &M) -> ConditionTreeView;

    /// Compile this value into its condition tree.
    fn into_condition_tree(self, model: &M) -> (r: ConditionTree)
        ensures
            r@ == self.condition_tree_spec(model),
    ;
}

fn compile_filter_exec<M: SubSelect>(f: Filter, model: &M) -> (r: ConditionTree)
    ensures
        r@ == compile_filter(f@, *model),
    decreases filter_size(f), 0nat,
{
    match f {
        Filter::And(af) => fold_filters_exec(af.filters, false, model),
        Filter::Or(of) => fold_filters_exec(of.filters, true, model),
        Filter::Not(nf) => ConditionTree::not(fold_filters_exec(nf.filters, false, model)),
        Filter::Scalar(sf) => sf.into_condition_tree(),
        Filter::Relation(rf) => model.as_sub_select(*rf),
        Filter::BoolConstant(b) => if b {
            ConditionTree::NoCondition
        } else {
            ConditionTree::NegativeCondition
        },
    }
}

fn fold_filters_exec<M: SubSelect>(
    mut filters: Vec<Filter>,
    disjunction: bool,
    model: &M,
) -> (r: ConditionTree)
    ensures
        r@ == fold_filters(filters_view(filters@), disjunction, *model),
    decreases filters_size(filters@), 1nat,
{
    let ghost orig = filters@;
    if filters.len() == 0 {
        ConditionTree::NoCondition
    } else {
        let first = filters.remove(0);
        proof {
            assert(filters@ =~= orig.subrange(1, orig.len() as int));
            lemma_filters_view(orig);
        }
        let left = compile_filter_exec(first, model);
        if filters.len() == 0 {
            proof {
                assert(filters_view(orig).len() == 1);
                assert(fold_filters(filters_view(orig), disjunction, *model) == compile_filter(
                    first@,
                    *model,
                ));
            }
            left
        } else {
            proof {
                assert(filters_size(orig) == filter_size(orig[0]) + filters_size(
                    orig.subrange(1, orig.len() as int),
                ));
                assert(filter_size(first) >= 1);
            }
            let right = fold_filters_exec(filters, disjunction, model);
            proof {
                assert(filters_view(orig).subrange(1, filters_view(orig).len() as int)
                    =~= filters_view(orig.subrange(1, orig.len() as int))) by {
                    lemma_filters_view(orig.subrange(1, orig.len() as int));
                }
            }
            if disjunction {
                ConditionTree::or(left, right)
            } else {
                ConditionTree::and(left, right)
            }
        }
    }
}

impl<M: SubSelect> IntoConditionTree<M> for Filter {
    open spec fn condition_tree_spec(&self, model: &M) -> ConditionTreeView {
        compile_filter(self@, *model)
    }

    fn into_condition_tree(self, model: &M) -> (r: ConditionTree) {
        compile_filter_exec(self, model)
    }
}

impl<M: SubSelect> IntoConditionTree<M> for AndFilter {
    open spec fn condition_tree_spec(&self, model: &M) -> ConditionTreeView {
        fold_filters(self@, false, *model)
    }

    fn into_condition_tree(self, model: &M) -> (r: ConditionTree) {
        fold_filters_exec(self.filters, false, model)
    }
}

impl<M: SubSelect> IntoConditionTree<M> for OrFilter {
    open spec fn condition_tree_spec(&self, model: &M) -> ConditionTreeView {
        fold_filters(self@, true, *model)
    }

    fn into_condition_tree(self, model: &M) -> (r: ConditionTree) {
        fold_filters_exec(self.filters, true, model)
    }
}

impl<M: SubSelect> IntoConditionTree<M> for NotFilter {
    open spec fn condition_tree_spec(&self, model: &M) -> ConditionTreeView {
        ConditionTreeView::Not(Box::new(fold_filters(self@, false, *model)))
    }

    fn into_condition_tree(self, model: &M) -> (r: ConditionTree) {
        let cond = AndFilter { filters: self.filters }.into_condition_tree(model);
        ConditionTree::not(cond)
    }
}

impl<M: SubSelect> IntoConditionTree<M> for RelationFilter {
    open spec fn condition_tree_spec(&self, model: &M) -> ConditionTreeView {
        model.sub_select_spec(self@)
    }

    fn into_condition_tree(self, model: &M) -> (r: ConditionTree) {
        model.as_sub_select(self)
    }
}

impl PrismaValue {
    /// Whether this value is the null marker.
    pub fn is_null_value(&self) -> (b: bool)
        ensures
            b == (self@ is Null),
    {
        matches!(self, PrismaValue::Null)
    }
}

/// The native database values of a list of scalar values, order and
/// duplicates preserved.
fn to_database_values(values: Vec<PrismaValue>) -> (out: Vec<DatabaseValue>)
    ensures
        database_values_view(out@) == prisma_values_view(values@).map_values(
            |v: PrismaValueView| native_value_view(v),
        ),
{
    let ghost orig = values@;
    let mut values = values;
    let mut out: Vec<DatabaseValue> = Vec::new();
    while values.len() > 0
        invariant
            out@.len() + values@.len() == orig.len(),
            values@ =~= orig.subrange(out@.len() as int, orig.len() as int),
            forall|i: int| 0 <= i < out@.len() ==> out@[i]@ == native_value_view(orig[i]@),
        decreases values@.len(),
    {
        let v = values.remove(0);
        proof {
            lemma_native_value_view(v);
        }
        out.push(DatabaseValue::from(v));
        proof {
            assert(values@ =~= orig.subrange(out@.len() as int, orig.len() as int));
        }
    }
    proof {
        assert(database_values_view(out@) =~= prisma_values_view(orig).map_values(
            |v: PrismaValueView| native_value_view(v),
        ));
    }
    out
}

impl ScalarFilter {
    /// Translate this scalar comparison into its single-leaf condition
    /// tree.
    pub fn into_condition_tree(self) -> (r: ConditionTree)
        ensures
            r@ == scalar_condition_tree(self@),
    {
        let ScalarFilter { field, condition } = self;
        match condition {
            ScalarCondition::Equals(v) => {
                if v.is_null_value() {
                    ConditionTree::single(field.is_null())
                } else {
                    proof {
                        lemma_native_value_view(v);
                    }
                    ConditionTree::single(field.equals(DatabaseValue::from(v)))
                }
            },
            ScalarCondition::NotEquals(v) => {
                if v.is_null_value() {
                    ConditionTree::single(field.is_not_null())
                } else {
                    proof {
                        lemma_native_value_view(v);
                    }
                    ConditionTree::single(field.not_equals(DatabaseValue::from(v)))
                }
            },
            ScalarCondition::Contains(v) => {
                let text = v.to_display_string();
                ConditionTree::single(field.like(text))
            },
            ScalarCondition::NotContains(v) => {
                let text = v.to_display_string();
                ConditionTree::single(field.not_like(text))
            },
            ScalarCondition::StartsWith(v) => {
                let text = v.to_display_string();
                ConditionTree::single(field.begins_with(text))
            },
            ScalarCondition::NotStartsWith(v) => {
                let text = v.to_display_string();
                ConditionTree::single(field.not_begins_with(text))
            },
            ScalarCondition::EndsWith(v) => {
                let text = v.to_display_string();
                ConditionTree::single(field.ends_into(text))
            },
            ScalarCondition::NotEndsWith(v) => {
                let text = v.to_display_string();
                ConditionTree::single(field.not_ends_into(text))
            },
            ScalarCondition::LessThan(v) => {
                proof {
                    lemma_native_value_view(v);
                }
                ConditionTree::single(field.less_than(DatabaseValue::from(v)))
            },
            ScalarCondition::LessThanOrEquals(v) => {
                proof {
                    lemma_native_value_view(v);
                }
                ConditionTree::single(field.less_than_or_equals(DatabaseValue::from(v)))
            },
            ScalarCondition::GreaterThan(v) => {
                proof {
                    lemma_native_value_view(v);
                }
                ConditionTree::single(field.greater_than(DatabaseValue::from(v)))
            },
            ScalarCondition::GreaterThanOrEquals(v) => {
                proof {
                    lemma_native_value_view(v);
                }
                ConditionTree::single(field.greater_than_or_equals(DatabaseValue::from(v)))
            },
            ScalarCondition::In(values) => {
                if values.len() == 1 && values[0].is_null_value() {
                    ConditionTree::single(field.is_null())
                } else {
                    ConditionTree::single(field.in_selection(to_database_values(values)))
                }
            },
            ScalarCondition::NotIn(values) => {
                if values.len() == 1 && values[0].is_null_value() {
                    ConditionTree::single(field.is_not_null())
                } else {
                    ConditionTree::single(field.not_in_selection(to_database_values(values)))
                }
            },
        }
    }
}

} // verus!
