//! The errors of the describe operation.
use vstd::prelude::*;

verus! {

/// What made a declaration an unsupported shape.
#[derive(Clone, Copy, Debug, PartialEq, Eq, Structural)]
pub enum ShapeIssue {
    /// A struct with positional (unnamed) fields.
    TupleStruct,
    /// An enum variant that carries data.
    PayloadVariant,
    /// A union.
    Union,
    /// An entity with type parameters of its own.
    EntityGenerics,
    /// A field type that is not a plain named type (a reference, a tuple, ...).
    UnnamedType,
    /// An optional wrapper directly around another optional wrapper.
    NestedOptional,
    /// A wrapper or collection with more type arguments than its shape takes.
    ExtraTypeArgument,
}

/// The directive that a rejected value was given to.
#[derive(Clone, Copy, Debug, PartialEq, Eq, Structural)]
pub enum DirectiveName {
    HideOpt,
    ExplicitCollections,
    HideName,
    Tokens,
    Separator,
    Spacing,
    Keyval,
}

/// Why an entity could not be described.
#[derive(Clone, Copy, Debug, PartialEq, Eq, Structural)]
pub enum DescribeError {
    /// The declaration has a shape that cannot be described.
    UnsupportedShape(ShapeIssue),
    /// A directive key with more than one path segment.
    InvalidDirectiveKey,
    /// A directive given a value of the wrong kind.
    InvalidDirectiveValue(DirectiveName),
    /// An optional wrapper or a collection without its type arguments.
    MissingTypeArgument,
}

/// The diagnostic text of an error.
pub open spec fn message_text(e: DescribeError) -> Seq<char> {
    match e {
        DescribeError::UnsupportedShape(ShapeIssue::TupleStruct) =>
            "The Tuple Struct variant is not yet supported"@,
        DescribeError::UnsupportedShape(ShapeIssue::PayloadVariant) =>
            "Structured Enum not yet supported"@,
        DescribeError::UnsupportedShape(ShapeIssue::Union) => "Unions are not supported"@,
        DescribeError::UnsupportedShape(ShapeIssue::EntityGenerics) =>
            "Generics not supported in the current version"@,
        DescribeError::UnsupportedShape(ShapeIssue::UnnamedType) =>
            "Type not supported in current version"@,
        DescribeError::UnsupportedShape(ShapeIssue::NestedOptional) =>
            "Nested optional types are not supported"@,
        DescribeError::UnsupportedShape(ShapeIssue::ExtraTypeArgument) =>
            "Too many type arguments"@,
        DescribeError::InvalidDirectiveKey => "Only single paths segments are permitted"@,
        DescribeError::InvalidDirectiveValue(DirectiveName::HideOpt) =>
            "`hide_opt` supports only boolean types"@,
        DescribeError::InvalidDirectiveValue(DirectiveName::ExplicitCollections) =>
            "`explicit_collections` supports only boolean types"@,
        DescribeError::InvalidDirectiveValue(DirectiveName::HideName) =>
            "`hide_name` supports only boolean types"@,
        DescribeError::InvalidDirectiveValue(DirectiveName::Tokens) =>
            "`tokens` supports only a list of text values"@,
        DescribeError::InvalidDirectiveValue(DirectiveName::Separator) =>
            "`separator` supports only &str types"@,
        DescribeError::InvalidDirectiveValue(DirectiveName::Spacing) =>
            "`spacing` supports only &str types"@,
        DescribeError::InvalidDirectiveValue(DirectiveName::Keyval) =>
            "`keyval` supports only &str types"@,
        DescribeError::MissingTypeArgument => "Type argument is required"@,
    }
}

impl DescribeError {
    /// The diagnostic text of the error.
    pub fn message(&self) -> (r: String)
        ensures
            r@ == message_text(*self),
    {
        let text = match self {
            DescribeError::UnsupportedShape(ShapeIssue::TupleStruct) =>
                "The Tuple Struct variant is not yet supported",
            DescribeError::UnsupportedShape(ShapeIssue::PayloadVariant) =>
                "Structured Enum not yet supported",
            DescribeError::UnsupportedShape(ShapeIssue::Union) => "Unions are not supported",
            DescribeError::UnsupportedShape(ShapeIssue::EntityGenerics) =>
                "Generics not supported in the current version",
            DescribeError::UnsupportedShape(ShapeIssue::UnnamedType) =>
                "Type not supported in current version",
            DescribeError::UnsupportedShape(ShapeIssue::NestedOptional) =>
                "Nested optional types are not supported",
            DescribeError::UnsupportedShape(ShapeIssue::ExtraTypeArgument) =>
                "Too many type arguments",
            DescribeError::InvalidDirectiveKey => "Only single paths segments are permitted",
            DescribeError::InvalidDirectiveValue(DirectiveName::HideOpt) =>
                "`hide_opt` supports only boolean types",
            DescribeError::InvalidDirectiveValue(DirectiveName::ExplicitCollections) =>
                "`explicit_collections` supports only boolean types",
            DescribeError::InvalidDirectiveValue(DirectiveName::HideName) =>
                "`hide_name` supports only boolean types",
            DescribeError::InvalidDirectiveValue(DirectiveName::Tokens) =>
                "`tokens` supports only a list of text values",
            DescribeError::InvalidDirectiveValue(DirectiveName::Separator) =>
                "`separator` supports only &str types",
            DescribeError::InvalidDirectiveValue(DirectiveName::Spacing) =>
                "`spacing` supports only &str types",
            DescribeError::InvalidDirectiveValue(DirectiveName::Keyval) =>
                "`keyval` supports only &str types",
            DescribeError::MissingTypeArgument => "Type argument is required",
        };
        String::from_str(text)
    }
}

} // verus!
