//! The type-expression model and the entity model.
use vstd::prelude::*;

verus! {

/// The classified shape of one field's type.
pub enum TypeExpr {
    /// A type without generic arguments.
    Leaf(String),
    /// One level of "may be absent" around another expression.
    Optional(Box<TypeExpr>),
    /// A sequence-like container over one element type.
    LinearCollection(String, Box<TypeExpr>),
    /// A map-like container keyed by one type and valued by another.
    KeyValCollection(String, Box<TypeExpr>, Box<TypeExpr>),
    /// Any other parameterised type.
    Generic(String, Vec<TypeExpr>),
}

/// A named field and its classified type.
pub struct Field {
    pub name: String,
    pub ty: TypeExpr,
}

/// The body of a described entity.
pub enum EntityBody {
    /// A struct with named fields, in declaration order.
    Struct(Vec<Field>),
    /// An enum with unit variants, in declaration order.
    Enum(Vec<String>),
}

/// A described entity: its name and its body.
pub struct Entity {
    pub name: String,
    pub body: EntityBody,
}

} // verus!
