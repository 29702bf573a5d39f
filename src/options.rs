//! Formatting options and their resolution from directives.
use vstd::prelude::*;
use crate::collections::text_eq;
use crate::error::{DescribeError, DirectiveName};

verus! {

/// The value given to a directive key.
pub enum DirectiveValue {
    /// The key stands alone, with no value.
    NoValue,
    /// A boolean literal.
    Bool(bool),
    /// A text literal.
    Text(String),
    /// A nested list of directives.
    List(Vec<Directive>),
    /// Any other value (a number, an expression, ...).
    Other,
}

/// One directive: a key path and its value.
pub struct Directive {
    /// The segments of the key path.
    pub key: Vec<String>,
    pub value: DirectiveValue,
}

/// The options that shape a description.
pub struct FormattingOptions {
    /// Omit fields whose declared type is directly optional.
    pub hide_opt: bool,
    /// Render collections in generic notation.
    pub explicit_collections: bool,
    /// Joins sibling fields, variants and generic arguments.
    pub separator: String,
    /// Stands just inside the entity's outer braces, on both sides.
    pub spacing: String,
    /// Joins a field name and its formatted type.
    pub keyval: String,
    /// Omit the entity's own name.
    pub hide_name: bool,
}

/// The mathematical value of a set of formatting options.
pub ghost struct OptionsModel {
    pub hide_opt: bool,
    pub explicit_collections: bool,
    pub separator: Seq<char>,
    pub spacing: Seq<char>,
    pub keyval: Seq<char>,
    pub hide_name: bool,
}

impl View for FormattingOptions {
    type V = OptionsModel;

    open spec fn view(&self) -> OptionsModel {
        OptionsModel {
            hide_opt: self.hide_opt,
            explicit_collections: self.explicit_collections,
            separator: self.separator@,
            spacing: self.spacing@,
            keyval: self.keyval@,
            hide_name: self.hide_name,
        }
    }
}

/// The options in force when no directive changes them.
pub open spec fn default_model() -> OptionsModel {
    OptionsModel {
        hide_opt: false,
        explicit_collections: false,
        separator: ", "@,
        spacing: " "@,
        keyval: ": "@,
        hide_name: false,
    }
}

impl Default for FormattingOptions {
    fn default() -> (r: FormattingOptions)
        ensures
            r@ == default_model(),
    {
        FormattingOptions {
            hide_opt: false,
            explicit_collections: false,
            separator: String::from_str(", "),
            spacing: String::from_str(" "),
            keyval: String::from_str(": "),
            hide_name: false,
        }
    }
}

/// Whether the key of `d` is the single identifier `name`.
pub open spec fn has_key(d: Directive, name: Seq<char>) -> bool {
    d.key@.len() == 1 && d.key@[0]@ == name
}

/// Whether the key of `d` is a path of more than one segment that ends in
/// `name` (`a::name`): a qualified form of the directive, which is rejected.
pub open spec fn qualified_key(d: Directive, name: Seq<char>) -> bool {
    d.key@.len() > 1 && d.key@.last()@ == name
}

/// The boolean directive `name`, applied to the current value `cur`.
pub open spec fn bool_directive(
    d: Directive,
    name: Seq<char>,
    which: DirectiveName,
    cur: bool,
) -> Result<bool, DescribeError> {
    if qualified_key(d, name) {
        Err(DescribeError::InvalidDirectiveKey)
    } else if has_key(d, name) {
        match d.value {
            DirectiveValue::Bool(b) => Ok(b),
            _ => Err(DescribeError::InvalidDirectiveValue(which)),
        }
    } else {
        Ok(cur)
    }
}

/// Whether `d` has the single key `name`, computed.
fn is_key(d: &Directive, name: &str) -> (r: bool)
    ensures
        r == has_key(*d, name@),
{
    d.key.len() == 1 && text_eq(d.key[0].as_str(), name)
}

/// Whether the key of `d` is a qualified form of `name`, computed.
fn is_qualified_key(d: &Directive, name: &str) -> (r: bool)
    ensures
        r == qualified_key(*d, name@),
{
    let n = d.key.len();
    n > 1 && text_eq(d.key[n - 1].as_str(), name)
}

fn set_bool(
    target: &mut bool,
    d: &Directive,
    name: &str,
    which: DirectiveName,
) -> (r: Option<DescribeError>)
    ensures
        match bool_directive(*d, name@, which, *old(target)) {
            Ok(b) => r is None && *final(target) == b,
            Err(e) => r == Some(e) && *final(target) == *old(target),
        },
{
    if is_qualified_key(d, name) {
        Some(DescribeError::InvalidDirectiveKey)
    } else if is_key(d, name) {
        match &d.value {
            DirectiveValue::Bool(b) => {
                *target = *b;
                None
            },
            _ => Some(DescribeError::InvalidDirectiveValue(which)),
        }
    } else {
        None
    }
}

/// Applies a `hide_opt` directive: a boolean literal sets the flag, any
/// other value is an error, and so is a qualified key such as `a::hide_opt`;
/// a directive with another key changes nothing.
pub fn get_hide_opt(hide_opt: &mut bool, pretty: &Directive) -> (r: Option<DescribeError>)
    ensures
        match bool_directive(*pretty, "hide_opt"@, DirectiveName::HideOpt, *old(hide_opt)) {
            Ok(b) => r is None && *final(hide_opt) == b,
            Err(e) => r == Some(e) && *final(hide_opt) == *old(hide_opt),
        },
{
    set_bool(hide_opt, pretty, "hide_opt", DirectiveName::HideOpt)
}

/// Applies an `explicit_collections` directive, as `get_hide_opt` does.
pub fn get_explicit_collection(
    explicit_collections: &mut bool,
    pretty: &Directive,
) -> (r: Option<DescribeError>)
    ensures
        match bool_directive(
            *pretty,
            "explicit_collections"@,
            DirectiveName::ExplicitCollections,
            *old(explicit_collections),
        ) {
            Ok(b) => r is None && *final(explicit_collections) == b,
            Err(e) => r == Some(e) && *final(explicit_collections) == *old(explicit_collections),
        },
{
    set_bool(
        explicit_collections,
        pretty,
        "explicit_collections",
        DirectiveName::ExplicitCollections,
    )
}

/// Applies a `hide_name` directive, as `get_hide_opt` does.
pub fn get_hide_name(hide_name: &mut bool, pretty: &Directive) -> (r: Option<DescribeError>)
    ensures
        match bool_directive(*pretty, "hide_name"@, DirectiveName::HideName, *old(hide_name)) {
            Ok(b) => r is None && *final(hide_name) == b,
            Err(e) => r == Some(e) && *final(hide_name) == *old(hide_name),
        },
{
    set_bool(hide_name, pretty, "hide_name", DirectiveName::HideName)
}

/// The three text tokens: separator, spacing and keyval.
pub type TokenTexts = (Seq<char>, Seq<char>, Seq<char>);

/// One entry of a `tokens` list, applied to the current tokens `t`. Entries
/// with other keys change nothing.
pub open spec fn token_entry(e: Directive, t: TokenTexts) -> Result<TokenTexts, DescribeError> {
    if has_key(e, "separator"@) {
        match e.value {
            DirectiveValue::Text(s) => Ok((s@, t.1, t.2)),
            _ => Err(DescribeError::InvalidDirectiveValue(DirectiveName::Separator)),
        }
    } else if has_key(e, "spacing"@) {
        match e.value {
            DirectiveValue::Text(s) => Ok((t.0, s@, t.2)),
            _ => Err(DescribeError::InvalidDirectiveValue(DirectiveName::Spacing)),
        }
    } else if has_key(e, "keyval"@) {
        match e.value {
            DirectiveValue::Text(s) => Ok((t.0, t.1, s@)),
            _ => Err(DescribeError::InvalidDirectiveValue(DirectiveName::Keyval)),
        }
    } else {
        Ok(t)
    }
}

/// The entries of a `tokens` list applied from left to right; the first
/// error ends the walk.
pub open spec fn token_entries(es: Seq<Directive>, t: TokenTexts) -> Result<
    TokenTexts,
    DescribeError,
>
    decreases es.len(),
{
    if es.len() == 0 {
        Ok(t)
    } else {
        match token_entries(es.drop_last(), t) {
            Ok(t1) => token_entry(es.last(), t1),
            Err(e) => Err(e),
        }
    }
}

/// A `tokens` directive applied to the current tokens `t`: its key must be
/// the single identifier and its value a list; a directive with another key
/// changes nothing.
pub open spec fn tokens_directive(d: Directive, t: TokenTexts) -> Result<
    TokenTexts,
    DescribeError,
> {
    if qualified_key(d, "tokens"@) {
        Err(DescribeError::InvalidDirectiveKey)
    } else if has_key(d, "tokens"@) {
        match d.value {
            DirectiveValue::List(es) => token_entries(es@, t),
            _ => Err(DescribeError::InvalidDirectiveValue(DirectiveName::Tokens)),
        }
    } else {
        Ok(t)
    }
}

proof fn lemma_token_error_persists(es: Seq<Directive>, t: TokenTexts, k: int)
    requires
        0 <= k <= es.len(),
        token_entries(es.subrange(0, k), t) is Err,
    ensures
        token_entries(es, t) == token_entries(es.subrange(0, k), t),
    decreases es.len(),
{
    if k < es.len() {
        assert(es.drop_last().subrange(0, k) == es.subrange(0, k));
        lemma_token_error_persists(es.drop_last(), t, k);
    } else {
        assert(es.subrange(0, k) == es);
    }
}

/// Applies a `tokens` directive to the three token texts. On an error the
/// texts are left as they were.
pub fn set_tokens(
    separator: &mut String,
    spacing: &mut String,
    keyval: &mut String,
    pretty: &Directive,
) -> (r: Option<DescribeError>)
    ensures
        match tokens_directive(*pretty, (old(separator)@, old(spacing)@, old(keyval)@)) {
            Ok(t) => r is None && final(separator)@ == t.0 && final(spacing)@ == t.1
                && final(keyval)@ == t.2,
            Err(e) => r == Some(e) && final(separator)@ == old(separator)@ && final(spacing)@
                == old(spacing)@ && final(keyval)@ == old(keyval)@,
        },
{
    if is_qualified_key(pretty, "tokens") {
        return Some(DescribeError::InvalidDirectiveKey);
    }
    if !is_key(pretty, "tokens") {
        return None;
    }
    let entries = match &pretty.value {
        DirectiveValue::List(es) => es,
        _ => {
            return Some(DescribeError::InvalidDirectiveValue(DirectiveName::Tokens));
        },
    };
    let mut sep = separator.clone();
    let mut sp = spacing.clone();
    let mut kv = keyval.clone();
    let ghost start: TokenTexts = (separator@, spacing@, keyval@);
    let mut i: usize = 0;
    while i < entries.len()
        invariant
            i <= entries.len(),
            start == (separator@, spacing@, keyval@),
            start == (old(separator)@, old(spacing)@, old(keyval)@),
            has_key(*pretty, "tokens"@),
            pretty.value == DirectiveValue::List(*entries),
            token_entries(entries@.subrange(0, i as int), start) == Ok::<TokenTexts, DescribeError>(
                (sep@, sp@, kv@),
            ),
        decreases entries.len() - i,
    {
        let e = &entries[i];
        assert(entries@.subrange(0, i + 1).drop_last() == entries@.subrange(0, i as int));
        if is_key(e, "separator") {
            match &e.value {
                DirectiveValue::Text(s) => {
                    sep = s.clone();
                },
                _ => {
                    proof {
                        lemma_token_error_persists(entries@, start, i + 1);
                    }
                    return Some(DescribeError::InvalidDirectiveValue(DirectiveName::Separator));
                },
            }
        } else if is_key(e, "spacing") {
            match &e.value {
                DirectiveValue::Text(s) => {
                    sp = s.clone();
                },
                _ => {
                    proof {
                        lemma_token_error_persists(entries@, start, i + 1);
                    }
                    return Some(DescribeError::InvalidDirectiveValue(DirectiveName::Spacing));
                },
            }
        } else if is_key(e, "keyval") {
            match &e.value {
                DirectiveValue::Text(s) => {
                    kv = s.clone();
                },
                _ => {
                    proof {
                        lemma_token_error_persists(entries@, start, i + 1);
                    }
                    return Some(DescribeError::InvalidDirectiveValue(DirectiveName::Keyval));
                },
            }
        }
        i = i + 1;
    }
    assert(entries@.subrange(0, entries.len() as int) == entries@);
    *separator = sep;
    *spacing = sp;
    *keyval = kv;
    None
}

/// One directive applied to the options `o`. A key with more than one
/// segment is rejected; the recognised keys take a value of their kind;
/// other keys change nothing.
pub open spec fn apply_directive(o: OptionsModel, d: Directive) -> Result<
    OptionsModel,
    DescribeError,
> {
    if d.key@.len() != 1 {
        Err(DescribeError::InvalidDirectiveKey)
    } else if has_key(d, "hide_opt"@) {
        match d.value {
            DirectiveValue::Bool(b) => Ok(OptionsModel { hide_opt: b, ..o }),
            _ => Err(DescribeError::InvalidDirectiveValue(DirectiveName::HideOpt)),
        }
    } else if has_key(d, "explicit_collections"@) {
        match d.value {
            DirectiveValue::Bool(b) => Ok(OptionsModel { explicit_collections: b, ..o }),
            _ => Err(DescribeError::InvalidDirectiveValue(DirectiveName::ExplicitCollections)),
        }
    } else if has_key(d, "hide_name"@) {
        match d.value {
            DirectiveValue::Bool(b) => Ok(OptionsModel { hide_name: b, ..o }),
            _ => Err(DescribeError::InvalidDirectiveValue(DirectiveName::HideName)),
        }
    } else {
        match tokens_directive(d, (o.separator, o.spacing, o.keyval)) {
            Ok(t) => Ok(OptionsModel { separator: t.0, spacing: t.1, keyval: t.2, ..o }),
            Err(e) => Err(e),
        }
    }
}

/// The directives of a bag applied from left to right to `o`; the first
/// error ends the walk.
pub open spec fn apply_directives(o: OptionsModel, ds: Seq<Directive>) -> Result<
    OptionsModel,
    DescribeError,
>
    decreases ds.len(),
{
    if ds.len() == 0 {
        Ok(o)
    } else {
        match apply_directives(o, ds.drop_last()) {
            Ok(o1) => apply_directive(o1, ds.last()),
            Err(e) => Err(e),
        }
    }
}

/// The options resolved from the bags attached to an entity: only the first
/// bag is consulted, and no bag leaves the defaults.
pub open spec fn resolved(bags: Seq<Vec<Directive>>) -> Result<OptionsModel, DescribeError> {
    if bags.len() == 0 {
        Ok(default_model())
    } else {
        apply_directives(default_model(), bags[0]@)
    }
}

proof fn lemma_directive_error_persists(o: OptionsModel, ds: Seq<Directive>, k: int)
    requires
        0 <= k <= ds.len(),
        apply_directives(o, ds.subrange(0, k)) is Err,
    ensures
        apply_directives(o, ds) == apply_directives(o, ds.subrange(0, k)),
    decreases ds.len(),
{
    if k < ds.len() {
        assert(ds.drop_last().subrange(0, k) == ds.subrange(0, k));
        lemma_directive_error_persists(o, ds.drop_last(), k);
    } else {
        assert(ds.subrange(0, k) == ds);
    }
}

proof fn lemma_keys_distinct(d: Directive)
    ensures
        has_key(d, "tokens"@) ==> !has_key(d, "hide_opt"@) && !has_key(d, "hide_name"@)
            && !has_key(d, "explicit_collections"@),
        has_key(d, "hide_opt"@) ==> !has_key(d, "hide_name"@) && !has_key(
            d,
            "explicit_collections"@,
        ),
        has_key(d, "hide_name"@) ==> !has_key(d, "explicit_collections"@),
{
    reveal_strlit("hide_opt");
    reveal_strlit("explicit_collections");
    reveal_strlit("hide_name");
    reveal_strlit("tokens");
    assert("tokens"@.len() == 6);
    assert("hide_opt"@.len() == 8);
    assert("hide_name"@.len() == 9);
    assert("explicit_collections"@.len() == 20);
}

/// Resolves one directive bag, from the defaults, left to right.
pub fn resolve_options(bag: &Vec<Directive>) -> (r: Result<FormattingOptions, DescribeError>)
    ensures
        match apply_directives(default_model(), bag@) {
            Ok(m) => r is Ok && r->Ok_0@ == m,
            Err(e) => r == Err::<FormattingOptions, DescribeError>(e),
        },
{
    let mut o = FormattingOptions::default();
    let mut i: usize = 0;
    while i < bag.len()
        invariant
            i <= bag.len(),
            apply_directives(default_model(), bag@.subrange(0, i as int)) == Ok::<
                OptionsModel,
                DescribeError,
            >(o@),
        decreases bag.len() - i,
    {
        let d = &bag[i];
        assert(bag@.subrange(0, i + 1).drop_last() == bag@.subrange(0, i as int));
        if d.key.len() != 1 {
            proof {
                lemma_directive_error_persists(default_model(), bag@, i + 1);
            }
            return Err(DescribeError::InvalidDirectiveKey);
        }
        let ghost before = o@;
        proof {
            lemma_keys_distinct(*d);
        }
        let e1 = get_hide_opt(&mut o.hide_opt, d);
        if let Some(e) = e1 {
            proof {
                lemma_directive_error_persists(default_model(), bag@, i + 1);
            }
            return Err(e);
        }
        let e2 = get_explicit_collection(&mut o.explicit_collections, d);
        if let Some(e) = e2 {
            proof {
                lemma_directive_error_persists(default_model(), bag@, i + 1);
            }
            return Err(e);
        }
        let e3 = set_tokens(&mut o.separator, &mut o.spacing, &mut o.keyval, d);
        if let Some(e) = e3 {
            proof {
                lemma_directive_error_persists(default_model(), bag@, i + 1);
            }
            return Err(e);
        }
        let e4 = get_hide_name(&mut o.hide_name, d);
        if let Some(e) = e4 {
            proof {
                lemma_directive_error_persists(default_model(), bag@, i + 1);
            }
            return Err(e);
        }
        assert(apply_directive(before, *d) == Ok::<OptionsModel, DescribeError>(o@));
        i = i + 1;
    }
    assert(bag@.subrange(0, bag.len() as int) == bag@);
    Ok(o)
}

/// The options of an entity: the first directive bag resolved, or the
/// defaults where there is none. Later bags are not consulted.
pub fn options_for(bags: &Vec<Vec<Directive>>) -> (r: Result<FormattingOptions, DescribeError>)
    ensures
        match resolved(bags@) {
            Ok(m) => r is Ok && r->Ok_0@ == m,
            Err(e) => r == Err::<FormattingOptions, DescribeError>(e),
        },
{
    if bags.len() == 0 {
        Ok(FormattingOptions::default())
    } else {
        resolve_options(&bags[0])
    }
}

} // verus!
