//! Classification of raw declarations into the type-expression model.
use vstd::prelude::*;
use crate::collections::{
    is_keyval_collection, is_linear_collection, keyval_names, linear_names, text_eq,
};
use crate::error::{DescribeError, ShapeIssue};
use crate::model::{Entity, EntityBody, Field, TypeExpr};

verus! {

/// A field type as declared, before classification.
pub enum RawType {
    /// A named type: its identifier and its type arguments, in order.
    Named(String, Vec<RawType>),
    /// Any type that is not a plain named type (a reference, a tuple, a
    /// function type, a type with a non-type argument, ...).
    Unsupported,
}

/// A named field as declared.
pub struct RawField {
    pub name: String,
    pub ty: RawType,
}

/// An enum variant as declared: its name and whether it carries fields.
pub struct RawVariant {
    pub name: String,
    pub has_fields: bool,
}

/// The fields of a declared struct.
pub enum RawFields {
    Named(Vec<RawField>),
    Unnamed,
    Unit,
}

/// The body of a declaration.
pub enum RawData {
    Struct(RawFields),
    Enum(Vec<RawVariant>),
    Union,
}

/// A declaration as the type tree provider hands it over.
pub struct RawEntity {
    pub name: String,
    /// Whether the declaration has type parameters of its own.
    pub has_generics: bool,
    pub data: RawData,
}

/// Whether a raw type is the optional wrapper.
pub open spec fn is_option(r: RawType) -> bool {
    r matches RawType::Named(id, _) && id@ == "Option"@
}

/// The first error met when classifying `r`, depth first and left to right.
pub open spec fn type_failure(r: RawType) -> Option<DescribeError>
    decreases r,
{
    match r {
        RawType::Unsupported => Some(DescribeError::UnsupportedShape(ShapeIssue::UnnamedType)),
        RawType::Named(id, args) => {
            if id@ == "Option"@ {
                if args@.len() == 0 {
                    Some(DescribeError::MissingTypeArgument)
                } else if args@.len() > 1 {
                    Some(DescribeError::UnsupportedShape(ShapeIssue::ExtraTypeArgument))
                } else if is_option(args@[0]) {
                    Some(DescribeError::UnsupportedShape(ShapeIssue::NestedOptional))
                } else {
                    type_failure(args@[0])
                }
            } else if linear_names().contains(id@) {
                if args@.len() == 0 {
                    Some(DescribeError::MissingTypeArgument)
                } else if args@.len() > 1 {
                    Some(DescribeError::UnsupportedShape(ShapeIssue::ExtraTypeArgument))
                } else {
                    type_failure(args@[0])
                }
            } else if keyval_names().contains(id@) {
                if args@.len() < 2 {
                    Some(DescribeError::MissingTypeArgument)
                } else if args@.len() > 2 {
                    Some(DescribeError::UnsupportedShape(ShapeIssue::ExtraTypeArgument))
                } else if type_failure(args@[0]) is Some {
                    type_failure(args@[0])
                } else {
                    type_failure(args@[1])
                }
            } else {
                args_failure(args@)
            }
        },
    }
}

/// The first error met when classifying the types of `rs`, left to right.
pub open spec fn args_failure(rs: Seq<RawType>) -> Option<DescribeError>
    decreases rs,
{
    if rs.len() == 0 {
        None
    } else if args_failure(rs.drop_last()) is Some {
        args_failure(rs.drop_last())
    } else {
        type_failure(rs.last())
    }
}

/// Whether `t` is the classification of `r`: the optional wrapper first,
/// then a type without arguments as a leaf, then the sequence table, then
/// the map table, and any other parameterised type as generic.
pub open spec fn classified(r: RawType, t: TypeExpr) -> bool
    decreases r,
{
    match r {
        RawType::Unsupported => false,
        RawType::Named(id, args) => {
            if id@ == "Option"@ {
                &&& args@.len() == 1
                &&& t matches TypeExpr::Optional(inner) && classified(args@[0], *inner)
            } else if args@.len() == 0 {
                t == TypeExpr::Leaf(id)
            } else if linear_names().contains(id@) {
                &&& args@.len() == 1
                &&& t matches TypeExpr::LinearCollection(tid, elem) && tid == id && classified(
                    args@[0],
                    *elem,
                )
            } else if keyval_names().contains(id@) {
                &&& args@.len() == 2
                &&& t matches TypeExpr::KeyValCollection(tid, k, v) && tid == id && classified(
                    args@[0],
                    *k,
                ) && classified(args@[1], *v)
            } else {
                t matches TypeExpr::Generic(tid, targs) && tid == id && all_classified(
                    args@,
                    targs@,
                )
            }
        },
    }
}

/// Whether each of `ts` is the classification of the raw type at its index.
pub open spec fn all_classified(rs: Seq<RawType>, ts: Seq<TypeExpr>) -> bool
    decreases rs,
{
    &&& rs.len() == ts.len()
    &&& rs.len() > 0 ==> all_classified(rs.drop_last(), ts.drop_last()) && classified(
        rs.last(),
        ts.last(),
    )
}

/// The number of nodes of a raw type.
pub open spec fn raw_size(r: RawType) -> nat
    decreases r,
{
    match r {
        RawType::Unsupported => 1,
        RawType::Named(_, args) => 1 + raw_sizes(args@),
    }
}

/// The total number of nodes of a sequence of raw types.
pub open spec fn raw_sizes(rs: Seq<RawType>) -> nat
    decreases rs,
{
    if rs.len() == 0 {
        0
    } else {
        raw_sizes(rs.drop_last()) + raw_size(rs.last())
    }
}

proof fn lemma_raw_size_of_arg(rs: Seq<RawType>, i: int)
    requires
        0 <= i < rs.len(),
    ensures
        raw_size(rs[i]) <= raw_sizes(rs),
    decreases rs.len(),
{
    if i < rs.len() - 1 {
        lemma_raw_size_of_arg(rs.drop_last(), i);
    }
}

proof fn lemma_args_failure_persists(rs: Seq<RawType>, k: int)
    requires
        0 <= k <= rs.len(),
        args_failure(rs.subrange(0, k)) is Some,
    ensures
        args_failure(rs) == args_failure(rs.subrange(0, k)),
    decreases rs.len(),
{
    if k < rs.len() {
        assert(rs.drop_last().subrange(0, k) == rs.subrange(0, k));
        lemma_args_failure_persists(rs.drop_last(), k);
    } else {
        assert(rs.subrange(0, k) == rs);
    }
}

fn is_option_type(r: &RawType) -> (b: bool)
    ensures
        b == is_option(*r),
{
    match r {
        RawType::Named(id, _) => text_eq(id.as_str(), "Option"),
        RawType::Unsupported => false,
    }
}

/// Classifies a declared type: `Option` with one argument becomes optional,
/// a sequence-table identifier with one argument a linear collection, a
/// map-table identifier with two a key-value collection, any other
/// identifier a leaf without arguments and a generic type with them.
pub fn classify_type(r: &RawType) -> (res: Result<TypeExpr, DescribeError>)
    ensures
        match type_failure(*r) {
            Some(e) => res == Err::<TypeExpr, DescribeError>(e),
            None => res is Ok && classified(*r, res->Ok_0),
        },
    decreases raw_size(*r),
{
    match r {
        RawType::Unsupported => Err(DescribeError::UnsupportedShape(ShapeIssue::UnnamedType)),
        RawType::Named(id, args) => {
            proof {
                if args.len() > 0 {
                    lemma_raw_size_of_arg(args@, 0);
                }
                if args.len() > 1 {
                    lemma_raw_size_of_arg(args@, 1);
                }
            }
            if text_eq(id.as_str(), "Option") {
                if args.len() == 0 {
                    Err(DescribeError::MissingTypeArgument)
                } else if args.len() > 1 {
                    Err(DescribeError::UnsupportedShape(ShapeIssue::ExtraTypeArgument))
                } else if is_option_type(&args[0]) {
                    Err(DescribeError::UnsupportedShape(ShapeIssue::NestedOptional))
                } else {
                    match classify_type(&args[0]) {
                        Ok(inner) => Ok(TypeExpr::Optional(Box::new(inner))),
                        Err(e) => Err(e),
                    }
                }
            } else if is_linear_collection(id.as_str()) {
                if args.len() == 0 {
                    Err(DescribeError::MissingTypeArgument)
                } else if args.len() > 1 {
                    Err(DescribeError::UnsupportedShape(ShapeIssue::ExtraTypeArgument))
                } else {
                    match classify_type(&args[0]) {
                        Ok(elem) => Ok(TypeExpr::LinearCollection(id.clone(), Box::new(elem))),
                        Err(e) => Err(e),
                    }
                }
            } else if is_keyval_collection(id.as_str()) {
                if args.len() < 2 {
                    Err(DescribeError::MissingTypeArgument)
                } else if args.len() > 2 {
                    Err(DescribeError::UnsupportedShape(ShapeIssue::ExtraTypeArgument))
                } else {
                    match classify_type(&args[0]) {
                        Ok(k) => match classify_type(&args[1]) {
                            Ok(v) => Ok(
                                TypeExpr::KeyValCollection(id.clone(), Box::new(k), Box::new(v)),
                            ),
                            Err(e) => Err(e),
                        },
                        Err(e) => Err(e),
                    }
                }
            } else if args.len() == 0 {
                assert(args_failure(args@) is None);
                Ok(TypeExpr::Leaf(id.clone()))
            } else {
                let mut ts: Vec<TypeExpr> = Vec::new();
                let mut i: usize = 0;
                while i < args.len()
                    invariant
                        *r == RawType::Named(*id, *args),
                        id@ != "Option"@,
                        !linear_names().contains(id@),
                        !keyval_names().contains(id@),
                        args@.len() > 0,
                        i <= args.len(),
                        args_failure(args@.subrange(0, i as int)) is None,
                        all_classified(args@.subrange(0, i as int), ts@),
                    decreases args.len() - i,
                {
                    proof {
                        lemma_raw_size_of_arg(args@, i as int);
                    }
                    assert(args@.subrange(0, i + 1).drop_last() == args@.subrange(0, i as int));
                    match classify_type(&args[i]) {
                        Ok(t) => {
                            let ghost prev = ts@;
                            ts.push(t);
                            assert(ts@.drop_last() == prev);
                            assert(args@.subrange(0, i + 1).last() == args@[i as int]);
                        },
                        Err(e) => {
                            proof {
                                lemma_args_failure_persists(args@, i + 1);
                            }
                            return Err(e);
                        },
                    }
                    i = i + 1;
                }
                assert(args@.subrange(0, args.len() as int) == args@);
                Ok(TypeExpr::Generic(id.clone(), ts))
            }
        },
    }
}

/// The first error met when classifying the field types of `fs`, left to
/// right.
pub open spec fn fields_failure(fs: Seq<RawField>) -> Option<DescribeError>
    decreases fs.len(),
{
    if fs.len() == 0 {
        None
    } else if fields_failure(fs.drop_last()) is Some {
        fields_failure(fs.drop_last())
    } else {
        type_failure(fs.last().ty)
    }
}

/// The first error met when classifying a declaration: type parameters on
/// the entity, then its body.
pub open spec fn entity_failure(r: RawEntity) -> Option<DescribeError> {
    if r.has_generics {
        Some(DescribeError::UnsupportedShape(ShapeIssue::EntityGenerics))
    } else {
        match r.data {
            RawData::Struct(RawFields::Named(fs)) => fields_failure(fs@),
            RawData::Struct(RawFields::Unnamed) => Some(
                DescribeError::UnsupportedShape(ShapeIssue::TupleStruct),
            ),
            RawData::Struct(RawFields::Unit) => None,
            RawData::Enum(vs) => {
                if exists|i: int| 0 <= i < vs@.len() && (#[trigger] vs@[i]).has_fields {
                    Some(DescribeError::UnsupportedShape(ShapeIssue::PayloadVariant))
                } else {
                    None
                }
            },
            RawData::Union => Some(DescribeError::UnsupportedShape(ShapeIssue::Union)),
        }
    }
}

/// Whether `e` is the classification of the declaration `r`: the same name,
/// the fields in order with their types classified, or the variant names in
/// order.
pub open spec fn entity_classified(r: RawEntity, e: Entity) -> bool {
    &&& e.name == r.name
    &&& match r.data {
        RawData::Struct(RawFields::Named(fs)) => {
            &&& e.body matches EntityBody::Struct(gs)
            &&& gs@.len() == fs@.len()
            &&& forall|i: int|
                0 <= i < fs@.len() ==> (#[trigger] gs@[i]).name == fs@[i].name && classified(
                    fs@[i].ty,
                    gs@[i].ty,
                )
        },
        RawData::Struct(RawFields::Unit) => e.body matches EntityBody::Struct(gs) && gs@.len()
            == 0,
        RawData::Enum(vs) => {
            &&& e.body matches EntityBody::Enum(ns)
            &&& ns@.len() == vs@.len()
            &&& forall|i: int| 0 <= i < vs@.len() ==> (#[trigger] ns@[i]) == vs@[i].name
        },
        _ => false,
    }
}

proof fn lemma_fields_failure_persists(fs: Seq<RawField>, k: int)
    requires
        0 <= k <= fs.len(),
        fields_failure(fs.subrange(0, k)) is Some,
    ensures
        fields_failure(fs) == fields_failure(fs.subrange(0, k)),
    decreases fs.len(),
{
    if k < fs.len() {
        assert(fs.drop_last().subrange(0, k) == fs.subrange(0, k));
        lemma_fields_failure_persists(fs.drop_last(), k);
    } else {
        assert(fs.subrange(0, k) == fs);
    }
}

fn classify_fields(fs: &Vec<RawField>) -> (res: Result<Vec<Field>, DescribeError>)
    ensures
        match fields_failure(fs@) {
            Some(e) => res == Err::<Vec<Field>, DescribeError>(e),
            None => res is Ok && res->Ok_0@.len() == fs@.len() && forall|i: int|
                0 <= i < fs@.len() ==> (#[trigger] res->Ok_0@[i]).name == fs@[i].name
                    && classified(fs@[i].ty, res->Ok_0@[i].ty),
        },
{
    let mut gs: Vec<Field> = Vec::new();
    let mut i: usize = 0;
    while i < fs.len()
        invariant
            i <= fs.len(),
            fields_failure(fs@.subrange(0, i as int)) is None,
            gs@.len() == i,
            forall|j: int|
                0 <= j < i ==> (#[trigger] gs@[j]).name == fs@[j].name && classified(
                    fs@[j].ty,
                    gs@[j].ty,
                ),
        decreases fs.len() - i,
    {
        assert(fs@.subrange(0, i + 1).drop_last() == fs@.subrange(0, i as int));
        assert(fs@.subrange(0, i + 1).last() == fs@[i as int]);
        match classify_type(&fs[i].ty) {
            Ok(t) => {
                gs.push(Field { name: fs[i].name.clone(), ty: t });
            },
            Err(e) => {
                proof {
                    lemma_fields_failure_persists(fs@, i + 1);
                }
                return Err(e);
            },
        }
        i = i + 1;
    }
    assert(fs@.subrange(0, fs.len() as int) == fs@);
    Ok(gs)
}

/// Classifies a declaration into an entity, or returns the first error:
/// type parameters on the entity, a tuple struct, a union, a variant with
/// data, or the first field type that cannot be classified.
pub fn classify_entity(r: &RawEntity) -> (res: Result<Entity, DescribeError>)
    ensures
        match entity_failure(*r) {
            Some(e) => res == Err::<Entity, DescribeError>(e),
            None => res is Ok && entity_classified(*r, res->Ok_0),
        },
{
    if r.has_generics {
        return Err(DescribeError::UnsupportedShape(ShapeIssue::EntityGenerics));
    }
    match &r.data {
        RawData::Struct(RawFields::Named(fs)) => match classify_fields(fs) {
            Ok(gs) => Ok(Entity { name: r.name.clone(), body: EntityBody::Struct(gs) }),
            Err(e) => Err(e),
        },
        RawData::Struct(RawFields::Unnamed) => Err(
            DescribeError::UnsupportedShape(ShapeIssue::TupleStruct),
        ),
        RawData::Struct(RawFields::Unit) => Ok(
            Entity { name: r.name.clone(), body: EntityBody::Struct(Vec::new()) },
        ),
        RawData::Enum(vs) => {
            let mut ns: Vec<String> = Vec::new();
            let mut i: usize = 0;
            while i < vs.len()
                invariant
                    !r.has_generics,
                    r.data == RawData::Enum(*vs),
                    i <= vs.len(),
                    ns@.len() == i,
                    forall|j: int| 0 <= j < i ==> !(#[trigger] vs@[j]).has_fields,
                    forall|j: int| 0 <= j < i ==> (#[trigger] ns@[j]) == vs@[j].name,
                decreases vs.len() - i,
            {
                if vs[i].has_fields {
                    assert(vs@[i as int].has_fields);
                    assert(r.data->Enum_0 == *vs);
                    return Err(DescribeError::UnsupportedShape(ShapeIssue::PayloadVariant));
                }
                ns.push(vs[i].name.clone());
                i = i + 1;
            }
            Ok(Entity { name: r.name.clone(), body: EntityBody::Enum(ns) })
        },
        RawData::Union => Err(DescribeError::UnsupportedShape(ShapeIssue::Union)),
    }
}

} // verus!
