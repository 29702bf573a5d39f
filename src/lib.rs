//! Compile-time description strings for record types.
//!
//! A record type (a struct with named fields, or an enum with unit variants)
//! is summarised as one line of text that shows the shape of every field's
//! type. The library holds the type-expression model, its formatter, the
//! classification of raw type trees, the resolution of formatting directives
//! and the assembly of the final description.
pub mod classify;
pub mod collections;
pub mod describe;
pub mod error;
pub mod format;
pub mod laws;
pub mod model;
pub mod options;

pub use classify::{
    classify_entity, classify_type, RawData, RawEntity, RawField, RawFields, RawType, RawVariant,
};
pub use collections::{is_keyval_collection, is_linear_collection};
pub use describe::{describe, describe_entity, optional_type_path};
pub use error::{DescribeError, DirectiveName, ShapeIssue};
pub use format::format_type;
pub use model::{Entity, EntityBody, Field, TypeExpr};
pub use options::{
    get_explicit_collection, get_hide_name, get_hide_opt, options_for, resolve_options,
    set_tokens, Directive, DirectiveValue, FormattingOptions,
};
