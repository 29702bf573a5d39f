//! Laws that relate the formatter, the options and the describer.
use vstd::prelude::*;
use crate::classify::{
    all_classified, classified, entity_classified, RawData, RawEntity, RawField, RawFields, RawType,
};
use crate::describe::{entity_text, field_text, framed, hidden, shown_texts};
use crate::format::{marker, strip_marker, texts_of, type_text, views};
use crate::model::{Entity, EntityBody, Field, TypeExpr};
use crate::options::OptionsModel;

verus! {

/// The texts of all the fields of `fs`, in order.
pub open spec fn all_texts(fs: Seq<Field>, o: OptionsModel) -> Seq<Seq<char>> {
    fs.map_values(|f: Field| field_text(f, o))
}

/// Whether a field's declared type is not directly optional.
pub open spec fn not_directly_optional(f: Field) -> bool {
    !(f.ty is Optional)
}

/// Every type that is not directly optional renders with the required
/// marker at its end.
pub proof fn lemma_required_type_ends_with_marker(t: TypeExpr, explicit: bool, sep: Seq<char>)
    requires
        !(t is Optional),
    ensures
        type_text(t, explicit, sep).len() > 0,
        type_text(t, explicit, sep).last() == marker(),
{
}

/// Every field whose declared type is not directly optional renders with
/// the required marker at its end.
pub proof fn lemma_required_field_ends_with_marker(f: Field, o: OptionsModel)
    requires
        !(f.ty is Optional),
    ensures
        field_text(f, o).len() > 0,
        field_text(f, o).last() == marker(),
{
    lemma_required_type_ends_with_marker(f.ty, o.explicit_collections, o.separator);
}

/// When no field is directly optional, every shown field text ends with the
/// required marker.
pub proof fn lemma_required_fields_end_with_marker(fs: Seq<Field>, o: OptionsModel)
    requires
        forall|i: int| 0 <= i < fs.len() ==> !((#[trigger] fs[i]).ty is Optional),
    ensures
        forall|i: int|
            0 <= i < shown_texts(fs, o).len() ==> (#[trigger] shown_texts(fs, o)[i]).len() > 0
                && shown_texts(fs, o)[i].last() == marker(),
    decreases fs.len(),
{
    if fs.len() > 0 {
        lemma_required_fields_end_with_marker(fs.drop_last(), o);
        lemma_required_field_ends_with_marker(fs.last(), o);
        let prev = shown_texts(fs.drop_last(), o);
        assert(!hidden(fs.last(), o));
        assert(shown_texts(fs, o) == prev.push(field_text(fs.last(), o)));
        assert forall|i: int| 0 <= i < shown_texts(fs, o).len() implies (#[trigger] shown_texts(
            fs,
            o,
        )[i]).len() > 0 && shown_texts(fs, o)[i].last() == marker() by {
            if i < prev.len() {
                assert(shown_texts(fs, o)[i] == prev[i]);
            }
        }
    }
}

/// An optional type renders as its inner type with exactly one trailing
/// marker removed, if there is one; when the inner type is itself required,
/// the marker that the inner text ends with is the one removed.
pub proof fn lemma_optional_drops_marker(inner: TypeExpr, explicit: bool, sep: Seq<char>)
    ensures
        type_text(TypeExpr::Optional(Box::new(inner)), explicit, sep) == strip_marker(
            type_text(inner, explicit, sep),
        ),
        !(inner is Optional) ==> type_text(TypeExpr::Optional(Box::new(inner)), explicit, sep).push(
            marker(),
        ) == type_text(inner, explicit, sep),
{
    if !(inner is Optional) {
        lemma_required_type_ends_with_marker(inner, explicit, sep);
        let s = type_text(inner, explicit, sep);
        assert(s.drop_last().push(s.last()) == s);
    }
}

/// Without `hide_opt`, every field is shown.
pub proof fn lemma_no_field_hidden(fs: Seq<Field>, o: OptionsModel)
    requires
        !o.hide_opt,
    ensures
        shown_texts(fs, o) == all_texts(fs, o),
    decreases fs.len(),
{
    if fs.len() > 0 {
        lemma_no_field_hidden(fs.drop_last(), o);
        assert(all_texts(fs, o) == all_texts(fs.drop_last(), o).push(field_text(fs.last(), o)));
    } else {
        assert(all_texts(fs, o) == Seq::<Seq<char>>::empty());
    }
}

/// With `hide_opt`, exactly the fields whose declared type is directly
/// optional are left out; the others keep their order and their text,
/// whatever optional types they hold further in.
pub proof fn lemma_hide_opt_drops_optional_fields(fs: Seq<Field>, o: OptionsModel)
    requires
        o.hide_opt,
    ensures
        shown_texts(fs, o) == all_texts(fs.filter(|f: Field| not_directly_optional(f)), o),
    decreases fs.len(),
{
    let keep = |f: Field| not_directly_optional(f);
    if fs.len() > 0 {
        lemma_hide_opt_drops_optional_fields(fs.drop_last(), o);
        reveal(Seq::filter);
        let prev = fs.drop_last().filter(keep);
        assert(fs.filter(keep) == if keep(fs.last()) {
            prev.push(fs.last())
        } else {
            prev
        });
        if keep(fs.last()) {
            assert(all_texts(prev.push(fs.last()), o) == all_texts(prev, o).push(
                field_text(fs.last(), o),
            ));
        }
    } else {
        reveal(Seq::filter);
        assert(all_texts(fs.filter(keep), o) == Seq::<Seq<char>>::empty());
    }
}

/// A struct without fields, or whose fields are all hidden, is described by
/// its bare name, whatever `hide_name` says: no empty braces.
pub proof fn lemma_no_shown_field_gives_bare_name(name: Seq<char>, fs: Seq<Field>, o: OptionsModel)
    requires
        forall|i: int| 0 <= i < fs.len() ==> hidden(#[trigger] fs[i], o),
    ensures
        framed(name, seq!['{'], shown_texts(fs, o), o) == name,
    decreases fs.len(),
{
    lemma_all_hidden_shows_nothing(fs, o);
}

proof fn lemma_all_hidden_shows_nothing(fs: Seq<Field>, o: OptionsModel)
    requires
        forall|i: int| 0 <= i < fs.len() ==> hidden(#[trigger] fs[i], o),
    ensures
        shown_texts(fs, o).len() == 0,
    decreases fs.len(),
{
    if fs.len() > 0 {
        assert(hidden(fs[fs.len() - 1], o));
        lemma_all_hidden_shows_nothing(fs.drop_last(), o);
    }
}

/// Whether a type expression holds no collection at any depth.
pub open spec fn collection_free(t: TypeExpr) -> bool
    decreases t,
{
    match t {
        TypeExpr::Leaf(_) => true,
        TypeExpr::Optional(inner) => collection_free(*inner),
        TypeExpr::LinearCollection(_, _) => false,
        TypeExpr::KeyValCollection(_, _, _) => false,
        TypeExpr::Generic(_, args) => all_collection_free(args@),
    }
}

/// Whether no type expression of `ts` holds a collection.
pub open spec fn all_collection_free(ts: Seq<TypeExpr>) -> bool
    decreases ts,
{
    ts.len() > 0 ==> all_collection_free(ts.drop_last()) && collection_free(ts.last())
}

/// A type that holds no collection renders the same with and without
/// `explicit_collections`.
pub proof fn lemma_explicit_needs_collections(t: TypeExpr, sep: Seq<char>)
    requires
        collection_free(t),
    ensures
        type_text(t, true, sep) == type_text(t, false, sep),
    decreases t,
{
    match t {
        TypeExpr::Optional(inner) => {
            lemma_explicit_needs_collections(*inner, sep);
        },
        TypeExpr::Generic(_, args) => {
            lemma_explicit_needs_collections_all(args@, sep);
        },
        _ => {},
    }
}

proof fn lemma_explicit_needs_collections_all(ts: Seq<TypeExpr>, sep: Seq<char>)
    requires
        all_collection_free(ts),
    ensures
        texts_of(ts, true, sep) == texts_of(ts, false, sep),
    decreases ts,
{
    if ts.len() > 0 {
        lemma_explicit_needs_collections_all(ts.drop_last(), sep);
        lemma_explicit_needs_collections(ts.last(), sep);
    }
}

/// `explicit_collections` changes only the brackets of a sequence-like
/// collection: `id<e>!` in place of `[e]!`, with the same element text.
pub proof fn lemma_explicit_linear_brackets(id: String, elem: TypeExpr, sep: Seq<char>)
    requires
        collection_free(elem),
    ensures
        ({
            let e = type_text(elem, false, sep);
            &&& type_text(TypeExpr::LinearCollection(id, Box::new(elem)), true, sep) == id@ + seq![
                '<',
            ] + e + seq!['>', '!']
            &&& type_text(TypeExpr::LinearCollection(id, Box::new(elem)), false, sep) == seq![
                '[',
            ] + e + seq![']', '!']
        }),
{
    lemma_explicit_needs_collections(elem, sep);
    let e = type_text(elem, false, sep);
    assert((id@ + seq!['<'] + e + seq!['>']).push('!') =~= id@ + seq!['<'] + e + seq!['>', '!']);
    assert((seq!['['] + e + seq![']']).push('!') =~= seq!['['] + e + seq![']', '!']);
}

/// `explicit_collections` changes only the brackets of a map-like
/// collection: `id<k, v>!` in place of `{k, v}!`, with the same key and
/// value texts.
pub proof fn lemma_explicit_keyval_brackets(
    id: String,
    key: TypeExpr,
    value: TypeExpr,
    sep: Seq<char>,
)
    requires
        collection_free(key),
        collection_free(value),
    ensures
        ({
            let pair = type_text(key, false, sep) + sep + type_text(value, false, sep);
            let t = TypeExpr::KeyValCollection(id, Box::new(key), Box::new(value));
            &&& type_text(t, true, sep) == id@ + seq!['<'] + pair + seq!['>', '!']
            &&& type_text(t, false, sep) == seq!['{'] + pair + seq!['}', '!']
        }),
{
    lemma_explicit_needs_collections(key, sep);
    lemma_explicit_needs_collections(value, sep);
    let pair = type_text(key, false, sep) + sep + type_text(value, false, sep);
    assert((id@ + seq!['<'] + pair + seq!['>']).push('!') =~= id@ + seq!['<'] + pair + seq![
        '>',
        '!',
    ]);
    assert((seq!['{'] + pair + seq!['}']).push('!') =~= seq!['{'] + pair + seq!['}', '!']);
}

/// Two classifications of one raw type render to the same text, and are
/// both optional or both not.
pub proof fn lemma_classification_fixes_text(
    r: RawType,
    t1: TypeExpr,
    t2: TypeExpr,
    explicit: bool,
    sep: Seq<char>,
)
    requires
        classified(r, t1),
        classified(r, t2),
    ensures
        (t1 is Optional) == (t2 is Optional),
        type_text(t1, explicit, sep) == type_text(t2, explicit, sep),
    decreases r,
{
    match r {
        RawType::Named(id, args) => {
            match (t1, t2) {
                (TypeExpr::Optional(a), TypeExpr::Optional(b)) => {
                    lemma_classification_fixes_text(args@[0], *a, *b, explicit, sep);
                },
                (TypeExpr::LinearCollection(_, a), TypeExpr::LinearCollection(_, b)) => {
                    lemma_classification_fixes_text(args@[0], *a, *b, explicit, sep);
                },
                (TypeExpr::KeyValCollection(_, a, c), TypeExpr::KeyValCollection(_, b, d)) => {
                    lemma_classification_fixes_text(args@[0], *a, *b, explicit, sep);
                    lemma_classification_fixes_text(args@[1], *c, *d, explicit, sep);
                },
                (TypeExpr::Generic(_, a), TypeExpr::Generic(_, b)) => {
                    lemma_classification_fixes_texts(args@, a@, b@, explicit, sep);
                },
                _ => {},
            }
        },
        RawType::Unsupported => {},
    }
}

proof fn lemma_classification_fixes_texts(
    rs: Seq<RawType>,
    ts1: Seq<TypeExpr>,
    ts2: Seq<TypeExpr>,
    explicit: bool,
    sep: Seq<char>,
)
    requires
        all_classified(rs, ts1),
        all_classified(rs, ts2),
    ensures
        texts_of(ts1, explicit, sep) == texts_of(ts2, explicit, sep),
    decreases rs,
{
    if rs.len() > 0 {
        lemma_classification_fixes_texts(
            rs.drop_last(),
            ts1.drop_last(),
            ts2.drop_last(),
            explicit,
            sep,
        );
        lemma_classification_fixes_text(rs.last(), ts1.last(), ts2.last(), explicit, sep);
    }
}

proof fn lemma_classified_fields_fix_texts(
    fs: Seq<RawField>,
    gs1: Seq<Field>,
    gs2: Seq<Field>,
    o: OptionsModel,
)
    requires
        gs1.len() == fs.len(),
        gs2.len() == fs.len(),
        forall|i: int|
            0 <= i < fs.len() ==> (#[trigger] gs1[i]).name == fs[i].name && classified(
                fs[i].ty,
                gs1[i].ty,
            ),
        forall|i: int|
            0 <= i < fs.len() ==> (#[trigger] gs2[i]).name == fs[i].name && classified(
                fs[i].ty,
                gs2[i].ty,
            ),
    ensures
        shown_texts(gs1, o) == shown_texts(gs2, o),
    decreases fs.len(),
{
    if fs.len() > 0 {
        let n = fs.len() - 1;
        assert(gs1[n].name == fs[n].name && gs2[n].name == fs[n].name);
        lemma_classification_fixes_text(
            fs[n].ty,
            gs1[n].ty,
            gs2[n].ty,
            o.explicit_collections,
            o.separator,
        );
        assert forall|i: int| 0 <= i < n implies (#[trigger] gs1.drop_last()[i]).name
            == fs.drop_last()[i].name && classified(
            fs.drop_last()[i].ty,
            gs1.drop_last()[i].ty,
        ) by {
            assert(gs1[i].name == fs[i].name);
        }
        assert forall|i: int| 0 <= i < n implies (#[trigger] gs2.drop_last()[i]).name
            == fs.drop_last()[i].name && classified(
            fs.drop_last()[i].ty,
            gs2.drop_last()[i].ty,
        ) by {
            assert(gs2[i].name == fs[i].name);
        }
        lemma_classified_fields_fix_texts(fs.drop_last(), gs1.drop_last(), gs2.drop_last(), o);
    }
}

/// Describing is deterministic: every classification of a declaration
/// gives the same description under the same options.
pub proof fn lemma_description_is_determined(
    raw: RawEntity,
    e1: Entity,
    e2: Entity,
    o: OptionsModel,
)
    requires
        entity_classified(raw, e1),
        entity_classified(raw, e2),
    ensures
        entity_text(e1, o) == entity_text(e2, o),
{
    match raw.data {
        RawData::Struct(RawFields::Named(fs)) => {
            if let (EntityBody::Struct(gs1), EntityBody::Struct(gs2)) = (e1.body, e2.body) {
                lemma_classified_fields_fix_texts(fs@, gs1@, gs2@, o);
            }
        },
        RawData::Struct(RawFields::Unit) => {
            if let (EntityBody::Struct(gs1), EntityBody::Struct(gs2)) = (e1.body, e2.body) {
                assert(gs1@ =~= gs2@);
            }
        },
        RawData::Enum(vs) => {
            if let (EntityBody::Enum(ns1), EntityBody::Enum(ns2)) = (e1.body, e2.body) {
                assert(views(ns1@) =~= views(ns2@)) by {
                    assert forall|i: int| 0 <= i < ns1@.len() implies ns1@[i] == ns2@[i] by {
                        assert(ns1@[i] == vs@[i].name);
                        assert(ns2@[i] == vs@[i].name);
                    }
                }
            }
        },
        _ => {},
    }
}

} // verus!
