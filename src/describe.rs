//! Assembly of an entity's description from its fields or variants.
use vstd::prelude::*;
use crate::format::{format_type, join, join_texts, type_text, views};
use crate::model::{Entity, EntityBody, Field, TypeExpr};
use crate::classify::{classify_entity, entity_classified, entity_failure, RawEntity};
use crate::error::DescribeError;
use crate::options::{options_for, resolved, Directive, FormattingOptions, OptionsModel};

verus! {

/// The text of one field: its name, the keyval token and its type.
pub open spec fn field_text(f: Field, o: OptionsModel) -> Seq<char> {
    f.name@ + o.keyval + type_text(f.ty, o.explicit_collections, o.separator)
}

/// Whether a field is left out: its declared type is directly optional and
/// the options hide such fields.
pub open spec fn hidden(f: Field, o: OptionsModel) -> bool {
    o.hide_opt && f.ty is Optional
}

/// The texts of the fields that are not hidden, in declaration order.
pub open spec fn shown_texts(fs: Seq<Field>, o: OptionsModel) -> Seq<Seq<char>>
    decreases fs.len(),
{
    if fs.len() == 0 {
        Seq::empty()
    } else if hidden(fs.last(), o) {
        shown_texts(fs.drop_last(), o)
    } else {
        shown_texts(fs.drop_last(), o).push(field_text(fs.last(), o))
    }
}

/// The final text of an entity named `name` whose parts are `parts`, framed
/// by `open` and a closing brace. Without parts it is the bare name, even
/// under `hide_name`.
pub open spec fn framed(
    name: Seq<char>,
    open: Seq<char>,
    parts: Seq<Seq<char>>,
    o: OptionsModel,
) -> Seq<char> {
    if parts.len() == 0 {
        name
    } else {
        let body = open + o.spacing + join(parts, o.separator) + o.spacing + seq!['}'];
        if o.hide_name {
            body
        } else {
            name + o.spacing + body
        }
    }
}

/// The description of an entity under the options `o`.
pub open spec fn entity_text(e: Entity, o: OptionsModel) -> Seq<char> {
    match e.body {
        EntityBody::Struct(fs) => framed(e.name@, seq!['{'], shown_texts(fs@, o), o),
        EntityBody::Enum(vs) => framed(e.name@, seq!['#', '{'], views(vs@), o),
    }
}

/// Whether a declared type is directly an optional wrapper.
pub fn optional_type_path(ty: &TypeExpr) -> (r: bool)
    ensures
        r == ty is Optional,
{
    match ty {
        TypeExpr::Optional(_) => true,
        _ => false,
    }
}

/// The texts of the fields that the options do not hide.
pub fn field_texts(fields: &Vec<Field>, options: &FormattingOptions) -> (r: Vec<String>)
    ensures
        views(r@) == shown_texts(fields@, options@),
{
    let mut r: Vec<String> = Vec::new();
    let mut i: usize = 0;
    while i < fields.len()
        invariant
            i <= fields.len(),
            views(r@) == shown_texts(fields@.subrange(0, i as int), options@),
        decreases fields.len() - i,
    {
        let f = &fields[i];
        assert(fields@.subrange(0, i + 1).drop_last() == fields@.subrange(0, i as int));
        if !(options.hide_opt && optional_type_path(&f.ty)) {
            let mut t = f.name.clone();
            t.append(options.keyval.as_str());
            let ty = format_type(&f.ty, options.explicit_collections, options.separator.as_str());
            t.append(ty.as_str());
            r.push(t);
            assert(views(r@) == views(r@).drop_last().push(t@));
        }
        i = i + 1;
    }
    assert(fields@.subrange(0, fields.len() as int) == fields@);
    r
}

/// Frames the parts of an entity: the name and spacing (unless hidden),
/// `open`, spacing, the parts joined by the separator, spacing and a closing
/// brace; without parts, the bare name whatever `hide_name` says.
pub fn frame(
    name: &String,
    open: &str,
    parts: &Vec<String>,
    options: &FormattingOptions,
) -> (r: String)
    ensures
        r@ == framed(name@, open@, views(parts@), options@),
{
    if parts.len() == 0 {
        name.clone()
    } else {
        let joined = join_texts(parts, options.separator.as_str());
        let mut body = String::from_str(open);
        body.append(options.spacing.as_str());
        body.append(joined.as_str());
        body.append(options.spacing.as_str());
        body.append("}");
        proof {
            reveal_strlit("}");
        }
        if options.hide_name {
            body
        } else {
            let mut r = name.clone();
            r.append(options.spacing.as_str());
            r.append(body.as_str());
            r
        }
    }
}

/// The description of a struct with named fields.
pub fn named_struct(name: &String, fields: &Vec<Field>, options: &FormattingOptions) -> (r:
    String)
    ensures
        r@ == framed(name@, seq!['{'], shown_texts(fields@, options@), options@),
{
    let parts = field_texts(fields, options);
    proof {
        reveal_strlit("{");
    }
    frame(name, "{", &parts, options)
}

/// The description of an enum with unit variants.
pub fn enum_variants(name: &String, variants: &Vec<String>, options: &FormattingOptions) -> (r:
    String)
    ensures
        r@ == framed(name@, seq!['#', '{'], views(variants@), options@),
{
    proof {
        reveal_strlit("#{");
    }
    frame(name, "#{", variants, options)
}

/// The description of an entity.
pub fn describe_entity(entity: &Entity, options: &FormattingOptions) -> (r: String)
    ensures
        r@ == entity_text(*entity, options@),
{
    match &entity.body {
        EntityBody::Struct(fields) => named_struct(&entity.name, fields, options),
        EntityBody::Enum(variants) => enum_variants(&entity.name, variants, options),
    }
}

/// Describes a declaration under the first of the directive bags attached to
/// it. Errors come in this order: the directives, then the shape of the
/// declaration; no error leaves a partial text.
pub fn describe(raw: &RawEntity, bags: &Vec<Vec<Directive>>) -> (r: Result<String, DescribeError>)
    ensures
        match resolved(bags@) {
            Err(e) => r == Err::<String, DescribeError>(e),
            Ok(o) => match entity_failure(*raw) {
                Some(e) => r == Err::<String, DescribeError>(e),
                None => r is Ok && exists|ent: Entity|
                    entity_classified(*raw, ent) && r->Ok_0@ == entity_text(ent, o),
            },
        },
{
    let options = match options_for(bags) {
        Ok(o) => o,
        Err(e) => {
            return Err(e);
        },
    };
    match classify_entity(raw) {
        Ok(entity) => {
            let text = describe_entity(&entity, &options);
            assert(entity_classified(*raw, entity) && text@ == entity_text(entity, options@));
            Ok(text)
        },
        Err(e) => Err(e),
    }
}

} // verus!
