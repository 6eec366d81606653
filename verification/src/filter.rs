//! The filter expressions the compiler consumes, and the sort order
//! mapping.
//!
//! A filter is a closed recursive tagged union; every value of these
//! types is well formed by construction, so compilation is total.

use vstd::prelude::*;

use crate::tree::FieldRef;
use crate::value::{PrismaValue, PrismaValueView};

verus! {

/// One scalar comparison: an operator together with its operand. The
/// list-valued operators carry an ordered list of values; all others
/// carry a single value.
#[derive(Debug, PartialEq, Eq)]
pub enum ScalarCondition {
    Equals(PrismaValue),
    NotEquals(PrismaValue),
    Contains(PrismaValue),
    NotContains(PrismaValue),
    StartsWith(PrismaValue),
    NotStartsWith(PrismaValue),
    EndsWith(PrismaValue),
    NotEndsWith(PrismaValue),
    LessThan(PrismaValue),
    LessThanOrEquals(PrismaValue),
    GreaterThan(PrismaValue),
    GreaterThanOrEquals(PrismaValue),
    In(Vec<PrismaValue>),
    NotIn(Vec<PrismaValue>),
}

/// Mathematical model of a [`ScalarCondition`].
#[verifier::ext_equal]
pub enum ScalarConditionView {
    Equals(PrismaValueView),
    NotEquals(PrismaValueView),
    Contains(PrismaValueView),
    NotContains(PrismaValueView),
    StartsWith(PrismaValueView),
    NotStartsWith(PrismaValueView),
    EndsWith(PrismaValueView),
    NotEndsWith(PrismaValueView),
    LessThan(PrismaValueView),
    LessThanOrEquals(PrismaValueView),
    GreaterThan(PrismaValueView),
    GreaterThanOrEquals(PrismaValueView),
    In(Seq<PrismaValueView>),
    NotIn(Seq<PrismaValueView>),
}

/// The models of a list of scalar values, in order.
pub open spec fn prisma_values_view(s: Seq<PrismaValue>) -> Seq<PrismaValueView> {
    s.map_values(|v: PrismaValue| v@)
}

impl View for ScalarCondition {
    type V = ScalarConditionView;

    open spec fn view(&self) -> ScalarConditionView {
        match self {
            ScalarCondition::Equals(v) => ScalarConditionView::Equals(v@),
            ScalarCondition::NotEquals(v) => ScalarConditionView::NotEquals(v@),
            ScalarCondition::Contains(v) => ScalarConditionView::Contains(v@),
            ScalarCondition::NotContains(v) => ScalarConditionView::NotContains(v@),
            ScalarCondition::StartsWith(v) => ScalarConditionView::StartsWith(v@),
            ScalarCondition::NotStartsWith(v) => ScalarConditionView::NotStartsWith(v@),
            ScalarCondition::EndsWith(v) => ScalarConditionView::EndsWith(v@),
            ScalarCondition::NotEndsWith(v) => ScalarConditionView::NotEndsWith(v@),
            ScalarCondition::LessThan(v) => ScalarConditionView::LessThan(v@),
            ScalarCondition::LessThanOrEquals(v) => ScalarConditionView::LessThanOrEquals(v@),
            ScalarCondition::GreaterThan(v) => ScalarConditionView::GreaterThan(v@),
            ScalarCondition::GreaterThanOrEquals(v) => ScalarConditionView::GreaterThanOrEquals(
                v@,
            ),
            ScalarCondition::In(vs) => ScalarConditionView::In(prisma_values_view(vs@)),
            ScalarCondition::NotIn(vs) => ScalarConditionView::NotIn(prisma_values_view(vs@)),
        }
    }
}

/// A single field/operator/operand triple, the smallest unit of a filter.
#[derive(Debug, PartialEq, Eq)]
pub struct ScalarFilter {
    pub field: FieldRef,
    pub condition: ScalarCondition,
}

/// Mathematical model of a [`ScalarFilter`].
#[verifier::ext_equal]
pub struct ScalarFilterView {
    pub field: Seq<char>,
    pub condition: ScalarConditionView,
}

impl View for ScalarFilter {
    type V = ScalarFilterView;

    open spec fn view(&self) -> ScalarFilterView {
        ScalarFilterView { field: self.field@, condition: self.condition@ }
    }
}

/// An ordered conjunction of sub-filters.
#[derive(Debug, PartialEq, Eq)]
pub struct AndFilter {
    pub filters: Vec<Filter>,
}

/// An ordered disjunction of sub-filters.
#[derive(Debug, PartialEq, Eq)]
pub struct OrFilter {
    pub filters: Vec<Filter>,
}

/// A negation: its sub-filters are read as an implicit conjunction, and
/// the whole conjunction is negated.
#[derive(Debug, PartialEq, Eq)]
pub struct NotFilter {
    pub filters: Vec<Filter>,
}

/// A filter that constrains rows through related records. The compiler
/// does not interpret it; it delegates the construction of the
/// correlated sub-select to the owning model.
#[derive(Debug, PartialEq, Eq)]
pub struct RelationFilter {
    /// The relation field being traversed.
    pub field: FieldRef,
    /// The filter applied to the related records.
    pub nested_filter: Box<Filter>,
}

/// Mathematical model of a [`RelationFilter`].
#[verifier::ext_equal]
pub struct RelationFilterView {
    pub field: Seq<char>,
    pub nested_filter: Box<FilterView>,
}

/// A query filter: a closed recursive tagged union.
#[derive(Debug, PartialEq, Eq)]
pub enum Filter {
    And(AndFilter),
    Or(OrFilter),
    Not(NotFilter),
    Scalar(ScalarFilter),
    Relation(Box<RelationFilter>),
    BoolConstant(bool),
}

/// Mathematical model of a [`Filter`].
#[verifier::ext_equal]
pub enum FilterView {
    And(Seq<FilterView>),
    Or(Seq<FilterView>),
    Not(Seq<FilterView>),
    Scalar(ScalarFilterView),
    Relation(Box<RelationFilterView>),
    BoolConstant(bool),
}

/// The model of a filter.
pub open spec fn filter_view(f: Filter) -> FilterView
    decreases f,
{
    match f {
        Filter::And(af) => FilterView::And(filters_view(af.filters@)),
        Filter::Or(of) => FilterView::Or(filters_view(of.filters@)),
        Filter::Not(nf) => FilterView::Not(filters_view(nf.filters@)),
        Filter::Scalar(sf) => FilterView::Scalar(sf@),
        Filter::Relation(rf) => FilterView::Relation(
            Box::new(
                RelationFilterView {
                    field: rf.field@,
                    nested_filter: Box::new(filter_view(*rf.nested_filter)),
                },
            ),
        ),
        Filter::BoolConstant(b) => FilterView::BoolConstant(b),
    }
}

/// The models of a list of filters, in order.
pub open spec fn filters_view(s: Seq<Filter>) -> Seq<FilterView>
    decreases s,
{
    if s.len() == 0 {
        Seq::empty()
    } else {
        seq![filter_view(s[0])] + filters_view(s.subrange(1, s.len() as int))
    }
}

/// A list of filters has one model per element, in order.
pub proof fn lemma_filters_view(s: Seq<Filter>)
    ensures
        filters_view(s).len() == s.len(),
        forall|i: int| 0 <= i < s.len() ==> filters_view(s)[i] == filter_view(s[i]),
    decreases s,
{
    if s.len() > 0 {
        lemma_filters_view(s.subrange(1, s.len() as int));
    }
}

impl View for Filter {
    type V = FilterView;

    open spec fn view(&self) -> FilterView {
        filter_view(*self)
    }
}

impl View for AndFilter {
    type V = Seq<FilterView>;

    open spec fn view(&self) -> Seq<FilterView> {
        filters_view(self.filters@)
    }
}

impl View for OrFilter {
    type V = Seq<FilterView>;

    open spec fn view(&self) -> Seq<FilterView> {
        filters_view(self.filters@)
    }
}

impl View for NotFilter {
    type V = Seq<FilterView>;

    open spec fn view(&self) -> Seq<FilterView> {
        filters_view(self.filters@)
    }
}

impl View for RelationFilter {
    type V = RelationFilterView;

    open spec fn view(&self) -> RelationFilterView {
        RelationFilterView {
            field: self.field@,
            nested_filter: Box::new(filter_view(*self.nested_filter)),
        }
    }
}

/// The order in which records are requested.
#[derive(Clone, Copy, Debug, PartialEq, Eq, Structural)]
pub enum SortOrder {
    Asc,
    Desc,
}

/// The renderer's ordering token.
#[derive(Clone, Copy, Debug, PartialEq, Eq, Structural)]
pub enum Order {
    Asc,
    Desc,
}

/// The ordering token for a sort order: ascending maps to ascending,
/// descending to descending, and there is no third case.
pub open spec fn order_of(s: SortOrder) -> Order {
    match s {
        SortOrder::Asc => Order::Asc,
        SortOrder::Desc => Order::Desc,
    }
}

impl From<SortOrder> for Order {
    fn from(s: SortOrder) -> (r: Order) {
        match s {
            SortOrder::Asc => Order::Asc,
            SortOrder::Desc => Order::Desc,
        }
    }
}

impl vstd::std_specs::convert::FromSpecImpl<SortOrder> for Order {
    open spec fn obeys_from_spec() -> bool {
        true
    }

    open spec fn from_spec(s: SortOrder) -> Order {
        order_of(s)
    }
}

} // verus!
