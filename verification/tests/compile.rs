use filter_compiler::compile::{IntoConditionTree, ModelRef};
use filter_compiler::filter::{
    AndFilter, Filter, NotFilter, OrFilter, RelationFilter, ScalarCondition, ScalarFilter,
};
use filter_compiler::tree::{Condition, ConditionTree, FieldRef};
use filter_compiler::value::{DatabaseValue, PrismaValue};

fn field(name: &str) -> FieldRef {
    FieldRef { name: name.to_string() }
}

fn model() -> ModelRef {
    ModelRef { name: "User".to_string() }
}

fn scalar(name: &str, condition: ScalarCondition) -> Filter {
    Filter::Scalar(ScalarFilter { field: field(name), condition })
}

fn single(cond: Condition) -> ConditionTree {
    ConditionTree::Single(cond)
}

fn and(l: ConditionTree, r: ConditionTree) -> ConditionTree {
    ConditionTree::And(Box::new(l), Box::new(r))
}

fn or(l: ConditionTree, r: ConditionTree) -> ConditionTree {
    ConditionTree::Or(Box::new(l), Box::new(r))
}

#[test]
fn equals_null_is_null_check() {
    let f = scalar("name", ScalarCondition::Equals(PrismaValue::Null));
    assert_eq!(
        f.into_condition_tree(&model()),
        single(Condition::IsNull { field: field("name") })
    );
}

#[test]
fn equals_value_is_equality_leaf() {
    let f = scalar("age", ScalarCondition::Equals(PrismaValue::Int(5)));
    assert_eq!(
        f.into_condition_tree(&model()),
        single(Condition::Equals {
            field: field("age"),
            value: DatabaseValue::Integer(5),
        })
    );
}

#[test]
fn not_equals_null_is_not_null_check() {
    let f = scalar("name", ScalarCondition::NotEquals(PrismaValue::Null));
    assert_eq!(
        f.into_condition_tree(&model()),
        single(Condition::IsNotNull { field: field("name") })
    );
}

#[test]
fn not_equals_value_is_inequality_leaf() {
    let f = scalar(
        "name",
        ScalarCondition::NotEquals(PrismaValue::Text("Bob".to_string())),
    );
    assert_eq!(
        f.into_condition_tree(&model()),
        single(Condition::NotEquals {
            field: field("name"),
            value: DatabaseValue::Text("Bob".to_string()),
        })
    );
}

#[test]
fn in_single_null_is_null_check() {
    let f = scalar("name", ScalarCondition::In(vec![PrismaValue::Null]));
    assert_eq!(
        f.into_condition_tree(&model()),
        single(Condition::IsNull { field: field("name") })
    );
}

#[test]
fn not_in_single_null_is_not_null_check() {
    let f = scalar("name", ScalarCondition::NotIn(vec![PrismaValue::Null]));
    assert_eq!(
        f.into_condition_tree(&model()),
        single(Condition::IsNotNull { field: field("name") })
    );
}

#[test]
fn in_multi_element_null_is_not_special_cased() {
    let f = scalar(
        "age",
        ScalarCondition::In(vec![PrismaValue::Null, PrismaValue::Int(5)]),
    );
    assert_eq!(
        f.into_condition_tree(&model()),
        single(Condition::InSelection {
            field: field("age"),
            values: vec![DatabaseValue::Null, DatabaseValue::Integer(5)],
        })
    );
}

#[test]
fn in_empty_list_is_empty_selection() {
    let f = scalar("age", ScalarCondition::In(vec![]));
    assert_eq!(
        f.into_condition_tree(&model()),
        single(Condition::InSelection { field: field("age"), values: vec![] })
    );
}

#[test]
fn in_preserves_order_and_duplicates() {
    let f = scalar(
        "age",
        ScalarCondition::NotIn(vec![
            PrismaValue::Int(2),
            PrismaValue::Int(1),
            PrismaValue::Int(2),
        ]),
    );
    assert_eq!(
        f.into_condition_tree(&model()),
        single(Condition::NotInSelection {
            field: field("age"),
            values: vec![
                DatabaseValue::Integer(2),
                DatabaseValue::Integer(1),
                DatabaseValue::Integer(2),
            ],
        })
    );
}

#[test]
fn pattern_operators_use_display_text() {
    let m = model();
    assert_eq!(
        scalar("name", ScalarCondition::Contains(PrismaValue::Int(12)))
            .into_condition_tree(&m),
        single(Condition::Like { field: field("name"), pattern: "12".to_string() })
    );
    assert_eq!(
        scalar(
            "name",
            ScalarCondition::NotContains(PrismaValue::Text("x".to_string())),
        )
        .into_condition_tree(&m),
        single(Condition::NotLike { field: field("name"), pattern: "x".to_string() })
    );
    assert_eq!(
        scalar(
            "name",
            ScalarCondition::StartsWith(PrismaValue::Boolean(true)),
        )
        .into_condition_tree(&m),
        single(Condition::BeginsWith { field: field("name"), pattern: "true".to_string() })
    );
    assert_eq!(
        scalar(
            "name",
            ScalarCondition::NotStartsWith(PrismaValue::Text("a".to_string())),
        )
        .into_condition_tree(&m),
        single(Condition::NotBeginsWith { field: field("name"), pattern: "a".to_string() })
    );
    assert_eq!(
        scalar("name", ScalarCondition::EndsWith(PrismaValue::Null))
            .into_condition_tree(&m),
        single(Condition::EndsWith { field: field("name"), pattern: "null".to_string() })
    );
    assert_eq!(
        scalar(
            "name",
            ScalarCondition::NotEndsWith(PrismaValue::Text("z".to_string())),
        )
        .into_condition_tree(&m),
        single(Condition::NotEndsWith { field: field("name"), pattern: "z".to_string() })
    );
}

#[test]
fn ordering_operators_use_native_values() {
    let m = model();
    assert_eq!(
        scalar("age", ScalarCondition::LessThan(PrismaValue::Int(3)))
            .into_condition_tree(&m),
        single(Condition::LessThan { field: field("age"), value: DatabaseValue::Integer(3) })
    );
    assert_eq!(
        scalar(
            "age",
            ScalarCondition::LessThanOrEquals(PrismaValue::Int(3)),
        )
        .into_condition_tree(&m),
        single(Condition::LessThanOrEquals {
            field: field("age"),
            value: DatabaseValue::Integer(3),
        })
    );
    assert_eq!(
        scalar("age", ScalarCondition::GreaterThan(PrismaValue::Int(3)))
            .into_condition_tree(&m),
        single(Condition::GreaterThan { field: field("age"), value: DatabaseValue::Integer(3) })
    );
    assert_eq!(
        scalar(
            "age",
            ScalarCondition::GreaterThanOrEquals(PrismaValue::Int(3)),
        )
        .into_condition_tree(&m),
        single(Condition::GreaterThanOrEquals {
            field: field("age"),
            value: DatabaseValue::Integer(3),
        })
    );
}

#[test]
fn ordering_against_null_is_passed_through() {
    let f = scalar("age", ScalarCondition::LessThan(PrismaValue::Null));
    assert_eq!(
        f.into_condition_tree(&model()),
        single(Condition::LessThan { field: field("age"), value: DatabaseValue::Null })
    );
}

#[test]
fn empty_and_is_no_condition() {
    let f = Filter::And(AndFilter { filters: vec![] });
    assert_eq!(f.into_condition_tree(&model()), ConditionTree::NoCondition);
}

#[test]
fn empty_or_is_no_condition() {
    let f = Filter::Or(OrFilter { filters: vec![] });
    assert_eq!(f.into_condition_tree(&model()), ConditionTree::NoCondition);
}

#[test]
fn single_element_and_is_unwrapped() {
    let inner = scalar("age", ScalarCondition::Equals(PrismaValue::Int(1)));
    let f = Filter::And(AndFilter { filters: vec![inner] });
    assert_eq!(
        f.into_condition_tree(&model()),
        single(Condition::Equals { field: field("age"), value: DatabaseValue::Integer(1) })
    );
}

#[test]
fn single_element_or_is_unwrapped() {
    let inner = scalar("age", ScalarCondition::Equals(PrismaValue::Int(1)));
    let f = Filter::Or(OrFilter { filters: vec![inner] });
    assert_eq!(
        f.into_condition_tree(&model()),
        single(Condition::Equals { field: field("age"), value: DatabaseValue::Integer(1) })
    );
}

fn age_equals(n: i32) -> Filter {
    scalar("age", ScalarCondition::Equals(PrismaValue::Int(n)))
}

fn age_equals_leaf(n: i64) -> ConditionTree {
    single(Condition::Equals { field: field("age"), value: DatabaseValue::Integer(n) })
}

#[test]
fn three_element_and_is_right_associated() {
    let f = Filter::And(AndFilter {
        filters: vec![age_equals(1), age_equals(2), age_equals(3)],
    });
    assert_eq!(
        f.into_condition_tree(&model()),
        and(
            age_equals_leaf(1),
            and(age_equals_leaf(2), age_equals_leaf(3)),
        )
    );
}

#[test]
fn three_element_or_is_right_associated() {
    let f = Filter::Or(OrFilter {
        filters: vec![age_equals(1), age_equals(2), age_equals(3)],
    });
    assert_eq!(
        f.into_condition_tree(&model()),
        or(age_equals_leaf(1), or(age_equals_leaf(2), age_equals_leaf(3)))
    );
}

#[test]
fn not_negates_the_implicit_conjunction() {
    let f = Filter::Not(NotFilter { filters: vec![age_equals(1), age_equals(2)] });
    assert_eq!(
        f.into_condition_tree(&model()),
        ConditionTree::Not(Box::new(and(age_equals_leaf(1), age_equals_leaf(2))))
    );
}

#[test]
fn empty_not_negates_no_condition() {
    let f = Filter::Not(NotFilter { filters: vec![] });
    assert_eq!(
        f.into_condition_tree(&model()),
        ConditionTree::Not(Box::new(ConditionTree::NoCondition))
    );
}

#[test]
fn bool_constants_compile_to_constant_trees() {
    let m = model();
    assert_eq!(
        Filter::BoolConstant(true).into_condition_tree(&m),
        ConditionTree::NoCondition
    );
    assert_eq!(
        Filter::BoolConstant(false).into_condition_tree(&m),
        ConditionTree::NegativeCondition
    );
}

#[test]
fn relation_filter_resolves_through_the_model() {
    let f = Filter::Relation(Box::new(RelationFilter {
        field: field("posts"),
        nested_filter: Box::new(Filter::BoolConstant(true)),
    }));
    assert_eq!(f.into_condition_tree(&model()), ConditionTree::NoCondition);
}

#[test]
fn relation_inside_a_conjunction() {
    let rel = Filter::Relation(Box::new(RelationFilter {
        field: field("posts"),
        nested_filter: Box::new(Filter::BoolConstant(true)),
    }));
    let f = Filter::And(AndFilter { filters: vec![rel, age_equals(9)] });
    assert_eq!(
        f.into_condition_tree(&model()),
        and(ConditionTree::NoCondition, age_equals_leaf(9))
    );
}

#[test]
fn age_range_scenario() {
    let f = Filter::And(AndFilter {
        filters: vec![
            scalar("age", ScalarCondition::GreaterThan(PrismaValue::Int(18))),
            scalar("age", ScalarCondition::LessThan(PrismaValue::Int(65))),
        ],
    });
    assert_eq!(
        f.into_condition_tree(&model()),
        and(
            single(Condition::GreaterThan {
                field: field("age"),
                value: DatabaseValue::Integer(18),
            }),
            single(Condition::LessThan {
                field: field("age"),
                value: DatabaseValue::Integer(65),
            }),
        )
    );
}

#[test]
fn nested_combinations() {
    let inner_or = Filter::Or(OrFilter { filters: vec![age_equals(1), age_equals(2)] });
    let f = Filter::And(AndFilter {
        filters: vec![inner_or, Filter::BoolConstant(false)],
    });
    assert_eq!(
        f.into_condition_tree(&model()),
        and(
            or(age_equals_leaf(1), age_equals_leaf(2)),
            ConditionTree::NegativeCondition,
        )
    );
}

#[test]
fn sub_filter_types_compile_directly() {
    let m = model();
    let af = AndFilter { filters: vec![age_equals(4)] };
    assert_eq!(af.into_condition_tree(&m), age_equals_leaf(4));
    let of = OrFilter { filters: vec![] };
    assert_eq!(of.into_condition_tree(&m), ConditionTree::NoCondition);
    let nf = NotFilter { filters: vec![age_equals(4)] };
    assert_eq!(
        nf.into_condition_tree(&m),
        ConditionTree::Not(Box::new(age_equals_leaf(4)))
    );
    let sf = ScalarFilter {
        field: field("age"),
        condition: ScalarCondition::Equals(PrismaValue::Int(4)),
    };
    assert_eq!(sf.into_condition_tree(), age_equals_leaf(4));
    let rf = RelationFilter {
        field: field("posts"),
        nested_filter: Box::new(Filter::BoolConstant(true)),
    };
    assert_eq!(rf.into_condition_tree(&m), ConditionTree::NoCondition);
}

#[test]
fn tree_helpers_build_the_same_nodes() {
    let leaf = field("a").is_null();
    assert_eq!(
        ConditionTree::single(leaf),
        single(Condition::IsNull { field: field("a") })
    );
    assert_eq!(
        ConditionTree::and(ConditionTree::NoCondition, ConditionTree::NegativeCondition),
        and(ConditionTree::NoCondition, ConditionTree::NegativeCondition)
    );
    assert_eq!(
        ConditionTree::or(ConditionTree::NoCondition, ConditionTree::NoCondition),
        or(ConditionTree::NoCondition, ConditionTree::NoCondition)
    );
    assert_eq!(
        ConditionTree::not(ConditionTree::NoCondition),
        ConditionTree::Not(Box::new(ConditionTree::NoCondition))
    );
}

#[test]
fn doubly_negated_filter() {
    let inner = Filter::Not(NotFilter { filters: vec![age_equals(1)] });
    let f = Filter::Not(NotFilter { filters: vec![inner] });
    assert_eq!(
        f.into_condition_tree(&model()),
        ConditionTree::Not(Box::new(ConditionTree::Not(Box::new(age_equals_leaf(1)))))
    );
}

#[test]
fn not_inside_a_disjunction() {
    let negated = Filter::Not(NotFilter { filters: vec![age_equals(2)] });
    let f = Filter::Or(OrFilter { filters: vec![negated, age_equals(3)] });
    assert_eq!(
        f.into_condition_tree(&model()),
        or(
            ConditionTree::Not(Box::new(age_equals_leaf(2))),
            age_equals_leaf(3),
        )
    );
}
