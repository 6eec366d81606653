//! Scalar values and their coercions.
//!
//! A filter compares a field against a scalar value. Depending on the
//! operator, the value is coerced either to its display text (for the
//! pattern-matching operators) or to a native database value (for
//! equality, ordering and list operators).
//!
//! A floating-point operand travels through the compiler as the decimal
//! text that the caller rendered for it; the compiler never interprets or
//! computes with it, it only carries it to the output tree.

use vstd::prelude::*;
use vstd::string::StringExecFns;

use crate::text::{i32_decimal, i64_decimal, int_decimal};

verus! {

/// An identifier value: either textual or numeric. It sits one level
/// inside an identifier-reference scalar and is unwrapped before any
/// further coercion.
#[derive(Debug, PartialEq, Eq)]
pub enum IdValue {
    Text(String),
    Int(i64),
}

/// Mathematical model of an [`IdValue`].
#[verifier::ext_equal]
pub enum IdValueView {
    Text(Seq<char>),
    Int(int),
}

impl View for IdValue {
    type V = IdValueView;

    open spec fn view(&self) -> IdValueView {
        match self {
            IdValue::Text(s) => IdValueView::Text(s@),
            IdValue::Int(i) => IdValueView::Int(*i as int),
        }
    }
}

/// A typed scalar value, exactly one variant active at a time.
#[derive(Debug, PartialEq, Eq)]
pub enum PrismaValue {
    /// A character string.
    Text(String),
    /// A floating-point number, carried as its decimal text.
    Float(String),
    Boolean(bool),
    /// A timestamp, carried as its textual representation.
    DateTime(String),
    /// An enumeration symbol.
    Enum(String),
    /// A JSON document, carried as its literal text.
    Json(String),
    Int(i32),
    /// A numeric reference to a related record.
    Relation(i64),
    /// The explicit null marker.
    Null,
    Uuid(String),
    /// An identifier-reference, unwrapped one level before coercion.
    GraphqlId(IdValue),
}

/// Mathematical model of a [`PrismaValue`].
#[verifier::ext_equal]
pub enum PrismaValueView {
    Text(Seq<char>),
    Float(Seq<char>),
    Boolean(bool),
    DateTime(Seq<char>),
    Enum(Seq<char>),
    Json(Seq<char>),
    Int(int),
    Relation(int),
    Null,
    Uuid(Seq<char>),
    GraphqlId(IdValueView),
}

impl View for PrismaValue {
    type V = PrismaValueView;

    open spec fn view(&self) -> PrismaValueView {
        match self {
            PrismaValue::Text(s) => PrismaValueView::Text(s@),
            PrismaValue::Float(t) => PrismaValueView::Float(t@),
            PrismaValue::Boolean(b) => PrismaValueView::Boolean(*b),
            PrismaValue::DateTime(s) => PrismaValueView::DateTime(s@),
            PrismaValue::Enum(s) => PrismaValueView::Enum(s@),
            PrismaValue::Json(s) => PrismaValueView::Json(s@),
            PrismaValue::Int(i) => PrismaValueView::Int(*i as int),
            PrismaValue::Relation(i) => PrismaValueView::Relation(*i as int),
            PrismaValue::Null => PrismaValueView::Null,
            PrismaValue::Uuid(s) => PrismaValueView::Uuid(s@),
            PrismaValue::GraphqlId(id) => PrismaValueView::GraphqlId(id@),
        }
    }
}

/// A native database value, ready to be bound as a query parameter by the
/// downstream renderer.
#[derive(Debug, PartialEq, Eq)]
pub enum DatabaseValue {
    Null,
    Integer(i64),
    /// A floating-point parameter, carried as its decimal text.
    Real(String),
    Text(String),
    Boolean(bool),
}

/// Mathematical model of a [`DatabaseValue`].
#[verifier::ext_equal]
pub enum DatabaseValueView {
    Null,
    Integer(int),
    Real(Seq<char>),
    Text(Seq<char>),
    Boolean(bool),
}

impl View for DatabaseValue {
    type V = DatabaseValueView;

    open spec fn view(&self) -> DatabaseValueView {
        match self {
            DatabaseValue::Null => DatabaseValueView::Null,
            DatabaseValue::Integer(i) => DatabaseValueView::Integer(*i as int),
            DatabaseValue::Real(t) => DatabaseValueView::Real(t@),
            DatabaseValue::Text(s) => DatabaseValueView::Text(s@),
            DatabaseValue::Boolean(b) => DatabaseValueView::Boolean(*b),
        }
    }
}

/// The native database value of an identifier value.
pub open spec fn native_id_value(v: IdValue) -> DatabaseValue {
    match v {
        IdValue::Text(s) => DatabaseValue::Text(s),
        IdValue::Int(i) => DatabaseValue::Integer(i),
    }
}

/// The native database value of a scalar value. No conversion fails:
/// every variant has a native form, and null maps to the explicit null
/// marker of the native domain.
pub open spec fn native_value(v: PrismaValue) -> DatabaseValue {
    match v {
        PrismaValue::Text(s) => DatabaseValue::Text(s),
        PrismaValue::Float(t) => DatabaseValue::Real(t),
        PrismaValue::Boolean(b) => DatabaseValue::Boolean(b),
        PrismaValue::DateTime(s) => DatabaseValue::Text(s),
        PrismaValue::Enum(s) => DatabaseValue::Text(s),
        PrismaValue::Json(s) => DatabaseValue::Text(s),
        PrismaValue::Int(i) => DatabaseValue::Integer(i as i64),
        PrismaValue::Relation(i) => DatabaseValue::Integer(i),
        PrismaValue::Null => DatabaseValue::Null,
        PrismaValue::Uuid(s) => DatabaseValue::Text(s),
        PrismaValue::GraphqlId(id) => native_id_value(id),
    }
}

/// [`native_id_value`], stated over the models.
pub open spec fn native_id_view(v: IdValueView) -> DatabaseValueView {
    match v {
        IdValueView::Text(s) => DatabaseValueView::Text(s),
        IdValueView::Int(i) => DatabaseValueView::Integer(i),
    }
}

/// [`native_value`], stated over the models.
pub open spec fn native_value_view(v: PrismaValueView) -> DatabaseValueView {
    match v {
        PrismaValueView::Text(s) => DatabaseValueView::Text(s),
        PrismaValueView::Float(t) => DatabaseValueView::Real(t),
        PrismaValueView::Boolean(b) => DatabaseValueView::Boolean(b),
        PrismaValueView::DateTime(s) => DatabaseValueView::Text(s),
        PrismaValueView::Enum(s) => DatabaseValueView::Text(s),
        PrismaValueView::Json(s) => DatabaseValueView::Text(s),
        PrismaValueView::Int(i) => DatabaseValueView::Integer(i),
        PrismaValueView::Relation(i) => DatabaseValueView::Integer(i),
        PrismaValueView::Null => DatabaseValueView::Null,
        PrismaValueView::Uuid(s) => DatabaseValueView::Text(s),
        PrismaValueView::GraphqlId(id) => native_id_view(id),
    }
}

/// Native conversion commutes with taking the model.
pub proof fn lemma_native_value_view(v: PrismaValue)
    ensures
        native_value(v)@ == native_value_view(v@),
{
}

impl From<IdValue> for DatabaseValue {
    fn from(v: IdValue) -> (r: DatabaseValue) {
        match v {
            IdValue::Text(s) => DatabaseValue::Text(s),
            IdValue::Int(i) => DatabaseValue::Integer(i),
        }
    }
}

impl vstd::std_specs::convert::FromSpecImpl<IdValue> for DatabaseValue {
    open spec fn obeys_from_spec() -> bool {
        true
    }

    open spec fn from_spec(v: IdValue) -> DatabaseValue {
        native_id_value(v)
    }
}

impl From<PrismaValue> for DatabaseValue {
    fn from(v: PrismaValue) -> (r: DatabaseValue) {
        match v {
            PrismaValue::Text(s) => DatabaseValue::Text(s),
            PrismaValue::Float(t) => DatabaseValue::Real(t),
            PrismaValue::Boolean(b) => DatabaseValue::Boolean(b),
            PrismaValue::DateTime(s) => DatabaseValue::Text(s),
            PrismaValue::Enum(s) => DatabaseValue::Text(s),
            PrismaValue::Json(s) => DatabaseValue::Text(s),
            PrismaValue::Int(i) => DatabaseValue::Integer(i as i64),
            PrismaValue::Relation(i) => DatabaseValue::Integer(i),
            PrismaValue::Null => DatabaseValue::Null,
            PrismaValue::Uuid(s) => DatabaseValue::Text(s),
            PrismaValue::GraphqlId(id) => DatabaseValue::from(id),
        }
    }
}

impl vstd::std_specs::convert::FromSpecImpl<PrismaValue> for DatabaseValue {
    open spec fn obeys_from_spec() -> bool {
        true
    }

    open spec fn from_spec(v: PrismaValue) -> DatabaseValue {
        native_value(v)
    }
}

/// The display text of a scalar value, over the models. Textual variants
/// display as themselves, booleans as `true`/`false`, integers as decimal
/// text, null as `null`, and an identifier-reference as its unwrapped
/// value.
pub open spec fn display_view(v: PrismaValueView) -> Seq<char> {
    match v {
        PrismaValueView::Text(s) => s,
        PrismaValueView::Float(t) => t,
        PrismaValueView::Boolean(b) => if b {
            seq!['t', 'r', 'u', 'e']
        } else {
            seq!['f', 'a', 'l', 's', 'e']
        },
        PrismaValueView::DateTime(s) => s,
        PrismaValueView::Enum(s) => s,
        PrismaValueView::Json(s) => s,
        PrismaValueView::Int(i) => int_decimal(i),
        PrismaValueView::Relation(i) => int_decimal(i),
        PrismaValueView::Null => seq!['n', 'u', 'l', 'l'],
        PrismaValueView::Uuid(s) => s,
        PrismaValueView::GraphqlId(IdValueView::Text(s)) => s,
        PrismaValueView::GraphqlId(IdValueView::Int(i)) => int_decimal(i),
    }
}

impl PrismaValue {
    /// The display text of this value, used as the operand of the
    /// pattern-matching operators.
    pub fn to_display_string(&self) -> (s: String)
        ensures
            s@ == display_view(self@),
    {
        match self {
            PrismaValue::Text(s) => s.clone(),
            PrismaValue::Float(t) => t.clone(),
            PrismaValue::Boolean(b) => {
                if *b {
                    let s = String::from_str("true");
                    proof {
                        reveal_strlit("true");
                        assert(s@ =~= display_view(self@));
                    }
                    s
                } else {
                    let s = String::from_str("false");
                    proof {
                        reveal_strlit("false");
                        assert(s@ =~= display_view(self@));
                    }
                    s
                }
            },
            PrismaValue::DateTime(s) => s.clone(),
            PrismaValue::Enum(s) => s.clone(),
            PrismaValue::Json(s) => s.clone(),
            PrismaValue::Int(i) => i32_decimal(*i),
            PrismaValue::Relation(i) => i64_decimal(*i),
            PrismaValue::Null => {
                let s = String::from_str("null");
                proof {
                    reveal_strlit("null");
                    assert(s@ =~= display_view(self@));
                }
                s
            },
            PrismaValue::Uuid(s) => s.clone(),
            PrismaValue::GraphqlId(IdValue::Text(s)) => s.clone(),
            PrismaValue::GraphqlId(IdValue::Int(i)) => i64_decimal(*i),
        }
    }
}

} // verus!
