//! The condition tree: the compiler's sole output type.
//!
//! A condition tree is a recursive boolean structure whose leaves are
//! single-field predicates. The downstream renderer turns it into the
//! WHERE clause of a query; this crate only builds it.

use vstd::prelude::*;

use crate::value::{DatabaseValue, DatabaseValueView};

verus! {

/// A reference to the field (column) a leaf condition constrains. It
/// exposes one builder method per leaf predicate.
#[derive(Debug, PartialEq, Eq)]
pub struct FieldRef {
    pub name: String,
}

impl View for FieldRef {
    type V = Seq<char>;

    open spec fn view(&self) -> Seq<char> {
        self.name@
    }
}

/// A single, non-compound predicate over one field.
#[derive(Debug, PartialEq, Eq)]
pub enum Condition {
    IsNull { field: FieldRef },
    IsNotNull { field: FieldRef },
    Equals { field: FieldRef, value: DatabaseValue },
    NotEquals { field: FieldRef, value: DatabaseValue },
    Like { field: FieldRef, pattern: String },
    NotLike { field: FieldRef, pattern: String },
    BeginsWith { field: FieldRef, pattern: String },
    NotBeginsWith { field: FieldRef, pattern: String },
    EndsWith { field: FieldRef, pattern: String },
    NotEndsWith { field: FieldRef, pattern: String },
    LessThan { field: FieldRef, value: DatabaseValue },
    LessThanOrEquals { field: FieldRef, value: DatabaseValue },
    GreaterThan { field: FieldRef, value: DatabaseValue },
    GreaterThanOrEquals { field: FieldRef, value: DatabaseValue },
    InSelection { field: FieldRef, values: Vec<DatabaseValue> },
    NotInSelection { field: FieldRef, values: Vec<DatabaseValue> },
}

/// Mathematical model of a [`Condition`].
#[verifier::ext_equal]
pub enum ConditionView {
    IsNull { field: Seq<char> },
    IsNotNull { field: Seq<char> },
    Equals { field: Seq<char>, value: DatabaseValueView },
    NotEquals { field: Seq<char>, value: DatabaseValueView },
    Like { field: Seq<char>, pattern: Seq<char> },
    NotLike { field: Seq<char>, pattern: Seq<char> },
    BeginsWith { field: Seq<char>, pattern: Seq<char> },
    NotBeginsWith { field: Seq<char>, pattern: Seq<char> },
    EndsWith { field: Seq<char>, pattern: Seq<char> },
    NotEndsWith { field: Seq<char>, pattern: Seq<char> },
    LessThan { field: Seq<char>, value: DatabaseValueView },
    LessThanOrEquals { field: Seq<char>, value: DatabaseValueView },
    GreaterThan { field: Seq<char>, value: DatabaseValueView },
    GreaterThanOrEquals { field: Seq<char>, value: DatabaseValueView },
    InSelection { field: Seq<char>, values: Seq<DatabaseValueView> },
    NotInSelection { field: Seq<char>, values: Seq<DatabaseValueView> },
}

/// The models of a list of database values, in order.
pub open spec fn database_values_view(s: Seq<DatabaseValue>) -> Seq<DatabaseValueView> {
    s.map_values(|d: DatabaseValue| d@)
}

impl View for Condition {
    type V = ConditionView;

    open spec fn view(&self) -> ConditionView {
        match self {
            Condition::IsNull { field } => ConditionView::IsNull { field: field@ },
            Condition::IsNotNull { field } => ConditionView::IsNotNull { field: field@ },
            Condition::Equals { field, value } => ConditionView::Equals {
                field: field@,
                value: value@,
            },
            Condition::NotEquals { field, value } => ConditionView::NotEquals {
                field: field@,
                value: value@,
            },
            Condition::Like { field, pattern } => ConditionView::Like {
                field: field@,
                pattern: pattern@,
            },
            Condition::NotLike { field, pattern } => ConditionView::NotLike {
                field: field@,
                pattern: pattern@,
            },
            Condition::BeginsWith { field, pattern } => ConditionView::BeginsWith {
                field: field@,
                pattern: pattern@,
            },
            Condition::NotBeginsWith { field, pattern } => ConditionView::NotBeginsWith {
                field: field@,
                pattern: pattern@,
            },
            Condition::EndsWith { field, pattern } => ConditionView::EndsWith {
                field: field@,
                pattern: pattern@,
            },
            Condition::NotEndsWith { field, pattern } => ConditionView::NotEndsWith {
                field: field@,
                pattern: pattern@,
            },
            Condition::LessThan { field, value } => ConditionView::LessThan {
                field: field@,
                value: value@,
            },
            Condition::LessThanOrEquals { field, value } => ConditionView::LessThanOrEquals {
                field: field@,
                value: value@,
            },
            Condition::GreaterThan { field, value } => ConditionView::GreaterThan {
                field: field@,
                value: value@,
            },
            Condition::GreaterThanOrEquals { field, value } => ConditionView::GreaterThanOrEquals {
                field: field@,
                value: value@,
            },
            Condition::InSelection { field, values } => ConditionView::InSelection {
                field: field@,
                values: database_values_view(values@),
            },
            Condition::NotInSelection { field, values } => ConditionView::NotInSelection {
                field: field@,
                values: database_values_view(values@),
            },
        }
    }
}

impl FieldRef {
    pub fn is_null(self) -> (c: Condition)
        ensures
            c@ == (ConditionView::IsNull { field: self@ }),
    {
        Condition::IsNull { field: self }
    }

    pub fn is_not_null(self) -> (c: Condition)
        ensures
            c@ == (ConditionView::IsNotNull { field: self@ }),
    {
        Condition::IsNotNull { field: self }
    }

    pub fn equals(self, value: DatabaseValue) -> (c: Condition)
        ensures
            c@ == (ConditionView::Equals { field: self@, value: value@ }),
    {
        Condition::Equals { field: self, value }
    }

    pub fn not_equals(self, value: DatabaseValue) -> (c: Condition)
        ensures
            c@ == (ConditionView::NotEquals { field: self@, value: value@ }),
    {
        Condition::NotEquals { field: self, value }
    }

    pub fn like(self, pattern: String) -> (c: Condition)
        ensures
            c@ == (ConditionView::Like { field: self@, pattern: pattern@ }),
    {
        Condition::Like { field: self, pattern }
    }

    pub fn not_like(self, pattern: String) -> (c: Condition)
        ensures
            c@ == (ConditionView::NotLike { field: self@, pattern: pattern@ }),
    {
        Condition::NotLike { field: self, pattern }
    }

    pub fn begins_with(self, pattern: String) -> (c: Condition)
        ensures
            c@ == (ConditionView::BeginsWith { field: self@, pattern: pattern@ }),
    {
        Condition::BeginsWith { field: self, pattern }
    }

    pub fn not_begins_with(self, pattern: String) -> (c: Condition)
        ensures
            c@ == (ConditionView::NotBeginsWith { field: self@, pattern: pattern@ }),
    {
        Condition::NotBeginsWith { field: self, pattern }
    }

    pub fn ends_into(self, pattern: String) -> (c: Condition)
        ensures
            c@ == (ConditionView::EndsWith { field: self@, pattern: pattern@ }),
    {
        Condition::EndsWith { field: self, pattern }
    }

    pub fn not_ends_into(self, pattern: String) -> (c: Condition)
        ensures
            c@ == (ConditionView::NotEndsWith { field: self@, pattern: pattern@ }),
    {
        Condition::NotEndsWith { field: self, pattern }
    }

    pub fn less_than(self, value: DatabaseValue) -> (c: Condition)
        ensures
            c@ == (ConditionView::LessThan { field: self@, value: value@ }),
    {
        Condition::LessThan { field: self, value }
    }

    pub fn less_than_or_equals(self, value: DatabaseValue) -> (c: Condition)
        ensures
            c@ == (ConditionView::LessThanOrEquals { field: self@, value: value@ }),
    {
        Condition::LessThanOrEquals { field: self, value }
    }

    pub fn greater_than(self, value: DatabaseValue) -> (c: Condition)
        ensures
            c@ == (ConditionView::GreaterThan { field: self@, value: value@ }),
    {
        Condition::GreaterThan { field: self, value }
    }

    pub fn greater_than_or_equals(self, value: DatabaseValue) -> (c: Condition)
        ensures
            c@ == (ConditionView::GreaterThanOrEquals { field: self@, value: value@ }),
    {
        Condition::GreaterThanOrEquals { field: self, value }
    }

    pub fn in_selection(self, values: Vec<DatabaseValue>) -> (c: Condition)
        ensures
            c@ == (ConditionView::InSelection {
                field: self@,
                values: database_values_view(values@),
            }),
    {
        Condition::InSelection { field: self, values }
    }

    pub fn not_in_selection(self, values: Vec<DatabaseValue>) -> (c: Condition)
        ensures
            c@ == (ConditionView::NotInSelection {
                field: self@,
                values: database_values_view(values@),
            }),
    {
        Condition::NotInSelection { field: self, values }
    }
}

/// The output of the compiler: a boolean combination of leaf conditions.
/// `NoCondition` is the always-true tree and the identity element used
/// for an empty combination list; `NegativeCondition` is always-false.
#[derive(Debug, PartialEq, Eq)]
pub enum ConditionTree {
    NoCondition,
    NegativeCondition,
    Single(Condition),
    And(Box<ConditionTree>, Box<ConditionTree>),
    Or(Box<ConditionTree>, Box<ConditionTree>),
    Not(Box<ConditionTree>),
}

/// Mathematical model of a [`ConditionTree`].
#[verifier::ext_equal]
pub enum ConditionTreeView {
    NoCondition,
    NegativeCondition,
    Single(ConditionView),
    And(Box<ConditionTreeView>, Box<ConditionTreeView>),
    Or(Box<ConditionTreeView>, Box<ConditionTreeView>),
    Not(Box<ConditionTreeView>),
}

/// The model of a condition tree.
pub open spec fn tree_view(t: ConditionTree) -> ConditionTreeView
    decreases t,
{
    match t {
        ConditionTree::NoCondition => ConditionTreeView::NoCondition,
        ConditionTree::NegativeCondition => ConditionTreeView::NegativeCondition,
        ConditionTree::Single(cond) => ConditionTreeView::Single(cond@),
        ConditionTree::And(l, r) => ConditionTreeView::And(
            Box::new(tree_view(*l)),
            Box::new(tree_view(*r)),
        ),
        ConditionTree::Or(l, r) => ConditionTreeView::Or(
            Box::new(tree_view(*l)),
            Box::new(tree_view(*r)),
        ),
        ConditionTree::Not(inner) => ConditionTreeView::Not(Box::new(tree_view(*inner))),
    }
}

impl View for ConditionTree {
    type V = ConditionTreeView;

    open spec fn view(&self) -> ConditionTreeView {
        tree_view(*self)
    }
}

impl ConditionTree {
    /// A tree of one leaf condition.
    pub fn single(cond: Condition) -> (r: ConditionTree)
        ensures
            r@ == ConditionTreeView::Single(cond@),
    {
        ConditionTree::Single(cond)
    }

    /// The conjunction of two trees.
    pub fn and(left: ConditionTree, right: ConditionTree) -> (r: ConditionTree)
        ensures
            r@ == ConditionTreeView::And(Box::new(left@), Box::new(right@)),
    {
        ConditionTree::And(Box::new(left), Box::new(right))
    }

    /// The disjunction of two trees.
    pub fn or(left: ConditionTree, right: ConditionTree) -> (r: ConditionTree)
        ensures
            r@ == ConditionTreeView::Or(Box::new(left@), Box::new(right@)),
    {
        ConditionTree::Or(Box::new(left), Box::new(right))
    }

    /// The negation of a tree.
    pub fn not(inner: ConditionTree) -> (r: ConditionTree)
        ensures
            r@ == ConditionTreeView::Not(Box::new(inner@)),
    {
        ConditionTree::Not(Box::new(inner))
    }
}

} // verus!
