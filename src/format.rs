//! Rendering of type expressions.
use vstd::prelude::*;
use crate::model::TypeExpr;

verus! {

broadcast use vstd::std_specs::vec::group_vec_axioms, vstd::seq::group_seq_axioms;

/// The marker that ends the text of every type that may not be absent.
pub open spec fn marker() -> char {
    '!'
}

/// `s` without its last character when that character is the marker.
pub open spec fn strip_marker(s: Seq<char>) -> Seq<char> {
    if s.len() > 0 && s.last() == marker() {
        s.drop_last()
    } else {
        s
    }
}

/// The parts of `parts` joined by `sep`.
pub open spec fn join(parts: Seq<Seq<char>>, sep: Seq<char>) -> Seq<char>
    decreases parts.len(),
{
    if parts.len() == 0 {
        Seq::empty()
    } else if parts.len() == 1 {
        parts[0]
    } else {
        join(parts.drop_last(), sep) + sep + parts.last()
    }
}

/// The text of a type expression, with collections in generic notation when
/// `explicit` holds and `sep` between generic arguments and key/value pairs.
pub open spec fn type_text(t: TypeExpr, explicit: bool, sep: Seq<char>) -> Seq<char>
    decreases t,
{
    match t {
        TypeExpr::Leaf(id) => id@.push(marker()),
        TypeExpr::Optional(inner) => strip_marker(type_text(*inner, explicit, sep)),
        TypeExpr::LinearCollection(id, elem) => {
            if explicit {
                (id@ + seq!['<'] + type_text(*elem, explicit, sep) + seq!['>']).push(marker())
            } else {
                (seq!['['] + type_text(*elem, explicit, sep) + seq![']']).push(marker())
            }
        },
        TypeExpr::KeyValCollection(id, k, v) => {
            let pair = type_text(*k, explicit, sep) + sep + type_text(*v, explicit, sep);
            if explicit {
                (id@ + seq!['<'] + pair + seq!['>']).push(marker())
            } else {
                (seq!['{'] + pair + seq!['}']).push(marker())
            }
        },
        TypeExpr::Generic(id, args) => {
            (id@ + seq!['<'] + join(texts_of(args@, explicit, sep), sep) + seq!['>']).push(
                marker(),
            )
        },
    }
}

/// The texts of a sequence of type expressions, one for each.
pub open spec fn texts_of(ts: Seq<TypeExpr>, explicit: bool, sep: Seq<char>) -> Seq<Seq<char>>
    decreases ts,
{
    if ts.len() == 0 {
        Seq::empty()
    } else {
        texts_of(ts.drop_last(), explicit, sep).push(type_text(ts.last(), explicit, sep))
    }
}

/// The number of nodes of a type expression.
pub open spec fn size(t: TypeExpr) -> nat
    decreases t,
{
    match t {
        TypeExpr::Leaf(_) => 1,
        TypeExpr::Optional(inner) => 1 + size(*inner),
        TypeExpr::LinearCollection(_, elem) => 1 + size(*elem),
        TypeExpr::KeyValCollection(_, k, v) => 1 + size(*k) + size(*v),
        TypeExpr::Generic(_, args) => 1 + sizes(args@),
    }
}

/// The total number of nodes of a sequence of type expressions.
pub open spec fn sizes(ts: Seq<TypeExpr>) -> nat
    decreases ts,
{
    if ts.len() == 0 {
        0
    } else {
        sizes(ts.drop_last()) + size(ts.last())
    }
}

proof fn lemma_size_of_arg(ts: Seq<TypeExpr>, i: int)
    requires
        0 <= i < ts.len(),
    ensures
        size(ts[i]) <= sizes(ts),
    decreases ts.len(),
{
    if i < ts.len() - 1 {
        lemma_size_of_arg(ts.drop_last(), i);
    }
}

/// The views of a sequence of strings.
pub open spec fn views(v: Seq<String>) -> Seq<Seq<char>> {
    v.map_values(|s: String| s@)
}

proof fn lemma_join_step(parts: Seq<Seq<char>>, sep: Seq<char>, i: int)
    requires
        0 <= i < parts.len(),
    ensures
        join(parts.subrange(0, i + 1), sep) == if i == 0 {
            parts[0]
        } else {
            join(parts.subrange(0, i), sep) + sep + parts[i]
        },
{
    assert(parts.subrange(0, i + 1).drop_last() == parts.subrange(0, i));
}

/// The strings of `parts` joined by `sep`.
pub fn join_texts(parts: &Vec<String>, sep: &str) -> (r: String)
    ensures
        r@ == join(views(parts@), sep@),
{
    let mut r = String::new();
    let mut i: usize = 0;
    while i < parts.len()
        invariant
            i <= parts.len(),
            r@ == join(views(parts@).subrange(0, i as int), sep@),
        decreases parts.len() - i,
    {
        proof {
            lemma_join_step(views(parts@), sep@, i as int);
        }
        if i > 0 {
            r.append(sep);
        }
        r.append(parts[i].as_str());
        i = i + 1;
    }
    assert(views(parts@).subrange(0, parts.len() as int) == views(parts@));
    r
}

/// `s` without a trailing marker.
fn strip_marker_text(s: String) -> (r: String)
    ensures
        r@ == strip_marker(s@),
{
    let n = s.as_str().unicode_len();
    if n > 0 && s.as_str().get_char(n - 1) == '!' {
        String::from_str(s.as_str().substring_char(0, n - 1))
    } else {
        s
    }
}

/// Renders a type expression: collections in generic notation when
/// `explicit_collections` holds, `separator` between generic arguments and
/// between a key type and a value type.
pub fn format_type(t: &TypeExpr, explicit_collections: bool, separator: &str) -> (r: String)
    ensures
        r@ == type_text(*t, explicit_collections, separator@),
    decreases size(*t),
{
    proof {
        reveal_strlit("!");
        reveal_strlit("<");
        reveal_strlit(">");
        reveal_strlit("[");
        reveal_strlit("]");
        reveal_strlit("{");
        reveal_strlit("}");
    }
    match t {
        TypeExpr::Leaf(id) => {
            let mut r = id.clone();
            r.append("!");
            r
        },
        TypeExpr::Optional(inner) => {
            strip_marker_text(format_type(inner, explicit_collections, separator))
        },
        TypeExpr::LinearCollection(id, elem) => {
            let inner = format_type(elem, explicit_collections, separator);
            let mut r = if explicit_collections {
                let mut r = id.clone();
                r.append("<");
                r
            } else {
                String::from_str("[")
            };
            r.append(inner.as_str());
            if explicit_collections {
                r.append(">!");
            } else {
                r.append("]!");
            }
            proof {
                reveal_strlit(">!");
                reveal_strlit("]!");
            }
            r
        },
        TypeExpr::KeyValCollection(id, k, v) => {
            let kt = format_type(k, explicit_collections, separator);
            let vt = format_type(v, explicit_collections, separator);
            let mut r = if explicit_collections {
                let mut r = id.clone();
                r.append("<");
                r
            } else {
                String::from_str("{")
            };
            r.append(kt.as_str());
            r.append(separator);
            r.append(vt.as_str());
            if explicit_collections {
                r.append(">!");
            } else {
                r.append("}!");
            }
            proof {
                reveal_strlit(">!");
                reveal_strlit("}!");
            }
            r
        },
        TypeExpr::Generic(id, args) => {
            let mut texts: Vec<String> = Vec::new();
            let mut i: usize = 0;
            while i < args.len()
                invariant
                    *t == TypeExpr::Generic(*id, *args),
                    i <= args.len(),
                    views(texts@) == texts_of(
                        args@.subrange(0, i as int),
                        explicit_collections,
                        separator@,
                    ),
                decreases args.len() - i,
            {
                proof {
                    lemma_size_of_arg(args@, i as int);
                }
                let a = format_type(&args[i], explicit_collections, separator);
                assert(args@.subrange(0, i + 1).drop_last() == args@.subrange(0, i as int));
                texts.push(a);
                assert(views(texts@) == views(texts@).drop_last().push(a@));
                i = i + 1;
            }
            assert(args@.subrange(0, args.len() as int) == args@);
            let joined = join_texts(&texts, separator);
            let mut r = id.clone();
            r.append("<");
            r.append(joined.as_str());
            r.append(">!");
            proof {
                reveal_strlit(">!");
            }
            r
        },
    }
}

} // verus!
