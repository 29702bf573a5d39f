use describer::{
    classify_type, describe, describe_entity, format_type, get_explicit_collection,
    get_hide_name, get_hide_opt, is_keyval_collection, is_linear_collection, optional_type_path,
    options_for, resolve_options, set_tokens, DescribeError, Directive, DirectiveName,
    DirectiveValue, Entity, EntityBody, Field, FormattingOptions, RawData, RawEntity, RawField,
    RawFields, RawType, RawVariant, ShapeIssue, TypeExpr,
};

fn ty(name: &str) -> RawType {
    RawType::Named(name.to_string(), vec![])
}

fn generic(name: &str, args: Vec<RawType>) -> RawType {
    RawType::Named(name.to_string(), args)
}

fn field(name: &str, t: RawType) -> RawField {
    RawField { name: name.to_string(), ty: t }
}

fn record(name: &str, fields: Vec<RawField>) -> RawEntity {
    RawEntity {
        name: name.to_string(),
        has_generics: false,
        data: RawData::Struct(RawFields::Named(fields)),
    }
}

fn flag(key: &str, value: bool) -> Directive {
    Directive { key: vec![key.to_string()], value: DirectiveValue::Bool(value) }
}

fn text(key: &str, value: &str) -> Directive {
    Directive { key: vec![key.to_string()], value: DirectiveValue::Text(value.to_string()) }
}

fn tokens(entries: Vec<Directive>) -> Directive {
    Directive { key: vec!["tokens".to_string()], value: DirectiveValue::List(entries) }
}

fn leaf(name: &str) -> TypeExpr {
    TypeExpr::Leaf(name.to_string())
}

fn optional(t: TypeExpr) -> TypeExpr {
    TypeExpr::Optional(Box::new(t))
}

fn linear(id: &str, t: TypeExpr) -> TypeExpr {
    TypeExpr::LinearCollection(id.to_string(), Box::new(t))
}

fn keyval(id: &str, k: TypeExpr, v: TypeExpr) -> TypeExpr {
    TypeExpr::KeyValCollection(id.to_string(), Box::new(k), Box::new(v))
}

fn entity(name: &str, fields: Vec<(&str, TypeExpr)>) -> Entity {
    Entity {
        name: name.to_string(),
        body: EntityBody::Struct(
            fields.into_iter().map(|(n, t)| Field { name: n.to_string(), ty: t }).collect(),
        ),
    }
}

fn opts(directives: Vec<Directive>) -> FormattingOptions {
    resolve_options(&directives).unwrap()
}

fn scenario_a_struct() -> Entity {
    entity("MyStruct", vec![("opt", optional(leaf("bool"))), ("my_string", leaf("String"))])
}

#[test]
fn scenario_a_default_options() {
    let o = FormattingOptions::default();
    assert_eq!(describe_entity(&scenario_a_struct(), &o), "MyStruct { opt: bool, my_string: String! }");
}

#[test]
fn scenario_b_hide_opt() {
    let o = opts(vec![flag("hide_opt", true)]);
    assert_eq!(describe_entity(&scenario_a_struct(), &o), "MyStruct { my_string: String! }");
}

#[test]
fn scenario_c_custom_tokens() {
    let e = entity("MyStruct", vec![("vec_u8s", linear("Vec", leaf("u8")))]);
    let o = opts(vec![tokens(vec![
        text("separator", ","),
        text("spacing", "\n"),
        text("keyval", "=>"),
    ])]);
    assert_eq!(describe_entity(&e, &o), "MyStruct\n{\nvec_u8s=>[u8!]!\n}");
}

#[test]
fn scenario_d_unit_enum() {
    let e = Entity {
        name: "MyEnum".to_string(),
        body: EntityBody::Enum(vec!["VarA".to_string(), "VarB".to_string()]),
    };
    assert_eq!(describe_entity(&e, &FormattingOptions::default()), "MyEnum #{ VarA, VarB }");
}

#[test]
fn scenario_e_keyval_explicit_and_implicit() {
    let e = entity("MyStruct", vec![("map", keyval("HashMap", leaf("String"), leaf("u8")))]);
    let explicit = opts(vec![flag("explicit_collections", true)]);
    assert_eq!(describe_entity(&e, &explicit), "MyStruct { map: HashMap<String!, u8!>! }");
    assert_eq!(
        describe_entity(&e, &FormattingOptions::default()),
        "MyStruct { map: {String!, u8!}! }"
    );
}

#[test]
fn required_fields_end_with_marker() {
    let e = entity("S", vec![("a", leaf("u8")), ("b", leaf("String")), ("c", leaf("bool"))]);
    let o = FormattingOptions::default();
    assert_eq!(describe_entity(&e, &o), "S { a: u8!, b: String!, c: bool! }");
    for t in ["u8", "String", "bool"] {
        assert!(format_type(&leaf(t), false, ", ").ends_with('!'));
    }
}

#[test]
fn optional_removes_exactly_one_marker() {
    let inner = linear("Vec", leaf("u8"));
    let plain = format_type(&inner, false, ", ");
    let opt = format_type(&optional(inner), false, ", ");
    assert_eq!(plain, "[u8!]!");
    assert_eq!(opt, "[u8!]");
    assert_eq!(format!("{}!", opt), plain);
    assert_eq!(format_type(&optional(leaf("bool")), false, ", "), "bool");
}

#[test]
fn hide_opt_keeps_nested_optionals() {
    let e = entity(
        "S",
        vec![
            ("a", optional(leaf("u8"))),
            ("b", linear("Vec", optional(leaf("u8")))),
            ("c", keyval("HashMap", leaf("String"), optional(leaf("u8")))),
        ],
    );
    let o = opts(vec![flag("hide_opt", true)]);
    assert_eq!(describe_entity(&e, &o), "S { b: [u8]!, c: {String!, u8}! }");
}

#[test]
fn explicit_changes_only_brackets() {
    let t = linear("BTreeSet", TypeExpr::Generic("Result".to_string(), vec![leaf("u8"), leaf("E")]));
    assert_eq!(format_type(&t, false, ", "), "[Result<u8!, E!>!]!");
    assert_eq!(format_type(&t, true, ", "), "BTreeSet<Result<u8!, E!>!>!");
    let plain = TypeExpr::Generic("Cow".to_string(), vec![optional(leaf("str"))]);
    assert_eq!(format_type(&plain, false, ", "), format_type(&plain, true, ", "));
    assert_eq!(format_type(&plain, true, ", "), "Cow<str>!");
}

#[test]
fn formatting_twice_is_identical() {
    let t = keyval("IndexMap", leaf("K"), linear("HashSet", optional(leaf("V"))));
    assert_eq!(format_type(&t, true, "; "), format_type(&t, true, "; "));
    assert_eq!(format_type(&t, true, "; "), "IndexMap<K!; HashSet<V>!>!");
    let e = record("S", vec![field("x", generic("Vec", vec![ty("u8")]))]);
    assert_eq!(describe(&e, &vec![]), describe(&e, &vec![]));
}

#[test]
fn empty_and_all_hidden_give_bare_name() {
    let empty = entity("Empty", vec![]);
    assert_eq!(describe_entity(&empty, &FormattingOptions::default()), "Empty");
    let hidden = entity("S", vec![("a", optional(leaf("u8"))), ("b", optional(leaf("bool")))]);
    let o = opts(vec![flag("hide_opt", true)]);
    assert_eq!(describe_entity(&hidden, &o), "S");
    let o = opts(vec![flag("hide_opt", true), flag("hide_name", true)]);
    assert_eq!(describe_entity(&hidden, &o), "S");
    let no_variants = Entity { name: "E".to_string(), body: EntityBody::Enum(vec![]) };
    assert_eq!(describe_entity(&no_variants, &FormattingOptions::default()), "E");
}

#[test]
fn enum_hide_name_and_tokens() {
    let e = Entity {
        name: "E".to_string(),
        body: EntityBody::Enum(vec!["A".to_string(), "B".to_string(), "C".to_string()]),
    };
    let o = opts(vec![flag("hide_name", true), tokens(vec![text("separator", "|")])]);
    assert_eq!(describe_entity(&e, &o), "#{ A|B|C }");
}

#[test]
fn generic_arguments_use_separator() {
    let t = TypeExpr::Generic("Either".to_string(), vec![leaf("A"), leaf("B"), leaf("C")]);
    assert_eq!(format_type(&t, false, "/"), "Either<A!/B!/C!>!");
}

#[test]
fn collection_tables() {
    for id in ["Vec", "HashSet", "BTreeSet", "IndexSet"] {
        assert!(is_linear_collection(id));
        assert!(!is_keyval_collection(id));
    }
    for id in ["HashMap", "BTreeMap", "IndexMap"] {
        assert!(is_keyval_collection(id));
        assert!(!is_linear_collection(id));
    }
    assert!(!is_linear_collection("VecDeque"));
    assert!(!is_linear_collection("vec"));
    assert!(!is_keyval_collection("Map"));
    assert!(!is_keyval_collection(""));
}

#[test]
fn classification_follows_precedence() {
    let t = classify_type(&generic("Option", vec![generic("Vec", vec![ty("u8")])])).unwrap();
    assert!(optional_type_path(&t));
    assert_eq!(format_type(&t, false, ", "), "[u8!]");
    let t = classify_type(&generic("HashMap", vec![ty("K"), ty("V")])).unwrap();
    assert!(!optional_type_path(&t));
    assert_eq!(format_type(&t, false, ", "), "{K!, V!}!");
    let t = classify_type(&generic("Box", vec![ty("T")])).unwrap();
    assert_eq!(format_type(&t, false, ", "), "Box<T!>!");
    let t = classify_type(&ty("Options")).unwrap();
    assert_eq!(format_type(&t, false, ", "), "Options!");
}

#[test]
fn classification_errors() {
    assert_eq!(
        classify_type(&RawType::Unsupported).err(),
        Some(DescribeError::UnsupportedShape(ShapeIssue::UnnamedType))
    );
    assert_eq!(classify_type(&ty("Option")).err(), Some(DescribeError::MissingTypeArgument));
    assert_eq!(classify_type(&ty("Vec")).err(), Some(DescribeError::MissingTypeArgument));
    assert_eq!(
        classify_type(&generic("HashMap", vec![ty("K")])).err(),
        Some(DescribeError::MissingTypeArgument)
    );
    assert_eq!(
        classify_type(&generic("Vec", vec![ty("u8"), ty("A")])).err(),
        Some(DescribeError::UnsupportedShape(ShapeIssue::ExtraTypeArgument))
    );
    assert_eq!(
        classify_type(&generic("Option", vec![generic("Option", vec![ty("u8")])])).err(),
        Some(DescribeError::UnsupportedShape(ShapeIssue::NestedOptional))
    );
    assert_eq!(
        classify_type(&generic("Result", vec![ty("u8"), RawType::Unsupported])).err(),
        Some(DescribeError::UnsupportedShape(ShapeIssue::UnnamedType))
    );
}

#[test]
fn entity_errors() {
    let mut e = record("S", vec![field("a", ty("u8"))]);
    e.has_generics = true;
    assert_eq!(
        describe(&e, &vec![]),
        Err(DescribeError::UnsupportedShape(ShapeIssue::EntityGenerics))
    );
    let payload = RawEntity {
        name: "E".to_string(),
        has_generics: false,
        data: RawData::Enum(vec![
            RawVariant { name: "A".to_string(), has_fields: false },
            RawVariant { name: "B".to_string(), has_fields: true },
        ]),
    };
    assert_eq!(
        describe(&payload, &vec![]),
        Err(DescribeError::UnsupportedShape(ShapeIssue::PayloadVariant))
    );
    let union = RawEntity { name: "U".to_string(), has_generics: false, data: RawData::Union };
    assert_eq!(describe(&union, &vec![]), Err(DescribeError::UnsupportedShape(ShapeIssue::Union)));
    let bad_field = record("S", vec![field("a", ty("Vec")), field("b", RawType::Unsupported)]);
    assert_eq!(describe(&bad_field, &vec![]), Err(DescribeError::MissingTypeArgument));
}

#[test]
fn directive_errors() {
    let qualified =
        Directive { key: vec!["a".to_string(), "hide_opt".to_string()], value: DirectiveValue::Bool(true) };
    assert_eq!(resolve_options(&vec![qualified]).err(), Some(DescribeError::InvalidDirectiveKey));
    let numeric = Directive { key: vec!["hide_opt".to_string()], value: DirectiveValue::Other };
    assert_eq!(
        resolve_options(&vec![numeric]).err(),
        Some(DescribeError::InvalidDirectiveValue(DirectiveName::HideOpt))
    );
    assert_eq!(
        resolve_options(&vec![text("explicit_collections", "true")]).err(),
        Some(DescribeError::InvalidDirectiveValue(DirectiveName::ExplicitCollections))
    );
    assert_eq!(
        resolve_options(&vec![text("hide_name", "yes")]).err(),
        Some(DescribeError::InvalidDirectiveValue(DirectiveName::HideName))
    );
    assert_eq!(
        resolve_options(&vec![text("tokens", ",")]).err(),
        Some(DescribeError::InvalidDirectiveValue(DirectiveName::Tokens))
    );
    assert_eq!(
        resolve_options(&vec![tokens(vec![flag("separator", true)])]).err(),
        Some(DescribeError::InvalidDirectiveValue(DirectiveName::Separator))
    );
    assert_eq!(
        resolve_options(&vec![tokens(vec![flag("spacing", true)])]).err(),
        Some(DescribeError::InvalidDirectiveValue(DirectiveName::Spacing))
    );
    assert_eq!(
        resolve_options(&vec![tokens(vec![flag("keyval", false)])]).err(),
        Some(DescribeError::InvalidDirectiveValue(DirectiveName::Keyval))
    );
    // the first error wins
    assert_eq!(
        resolve_options(&vec![text("hide_name", "x"), text("hide_opt", "y")]).err(),
        Some(DescribeError::InvalidDirectiveValue(DirectiveName::HideName))
    );
    // directives are resolved before the declaration is inspected
    let union = RawEntity { name: "U".to_string(), has_generics: false, data: RawData::Union };
    assert_eq!(
        describe(&union, &vec![vec![text("hide_opt", "1")]]),
        Err(DescribeError::InvalidDirectiveValue(DirectiveName::HideOpt))
    );
    for e in [
        DescribeError::InvalidDirectiveKey,
        DescribeError::MissingTypeArgument,
        DescribeError::UnsupportedShape(ShapeIssue::TupleStruct),
    ] {
        assert!(!e.message().is_empty());
    }
}

#[test]
fn unknown_directives_are_ignored() {
    let o = opts(vec![
        flag("hide_optional", true),
        tokens(vec![text("sepurator", ","), text("spacigg", "\n"), text("key_val", "=>")]),
        Directive {
            key: vec!["token".to_string()],
            value: DirectiveValue::List(vec![text("separator", ",")]),
        },
    ]);
    assert!(!o.hide_opt && !o.explicit_collections && !o.hide_name);
    assert_eq!((o.separator.as_str(), o.spacing.as_str(), o.keyval.as_str()), (", ", " ", ": "));
}

#[test]
fn later_directives_override_earlier_ones() {
    let o = opts(vec![flag("hide_opt", true), flag("hide_opt", false)]);
    assert!(!o.hide_opt);
    let o = opts(vec![tokens(vec![text("keyval", "="), text("keyval", " -> ")])]);
    assert_eq!(o.keyval, " -> ");
}

#[test]
fn only_the_first_bag_counts() {
    let bags = vec![vec![flag("hide_name", false)], vec![flag("hide_name", true)]];
    assert!(!options_for(&bags).unwrap().hide_name);
    let bags = vec![vec![], vec![text("hide_opt", "bad")]];
    assert!(options_for(&bags).is_ok());
    assert_eq!(options_for(&vec![]).unwrap().separator, ", ");
}

#[test]
fn getters_change_only_their_own_key() {
    let mut b = false;
    assert_eq!(get_hide_opt(&mut b, &flag("hide_opt", true)), None);
    assert!(b);
    assert_eq!(get_hide_opt(&mut b, &flag("hide_name", false)), None);
    assert!(b);
    let mut c = true;
    assert_eq!(
        get_explicit_collection(&mut c, &text("explicit_collections", "no")),
        Some(DescribeError::InvalidDirectiveValue(DirectiveName::ExplicitCollections))
    );
    assert!(c);
    let mut h = false;
    assert_eq!(get_hide_name(&mut h, &flag("hide_name", true)), None);
    assert!(h);
    let (mut s, mut p, mut k) = (", ".to_string(), " ".to_string(), ": ".to_string());
    assert_eq!(
        set_tokens(&mut s, &mut p, &mut k, &tokens(vec![text("spacing", ""), flag("keyval", true)])),
        Some(DescribeError::InvalidDirectiveValue(DirectiveName::Keyval))
    );
    assert_eq!((s.as_str(), p.as_str(), k.as_str()), (", ", " ", ": "));
    assert_eq!(set_tokens(&mut s, &mut p, &mut k, &tokens(vec![text("spacing", "")])), None);
    assert_eq!(p, "");
}

fn qualified(path: &[&str], value: DirectiveValue) -> Directive {
    Directive { key: path.iter().map(|s| s.to_string()).collect(), value }
}

#[test]
fn qualified_keys_are_rejected_by_each_directive() {
    let mut b = false;
    assert_eq!(
        get_hide_opt(&mut b, &qualified(&["a", "hide_opt"], DirectiveValue::Bool(true))),
        Some(DescribeError::InvalidDirectiveKey)
    );
    assert!(!b);
    let mut c = false;
    assert_eq!(
        get_explicit_collection(
            &mut c,
            &qualified(&["a", "b", "explicit_collections"], DirectiveValue::Bool(true))
        ),
        Some(DescribeError::InvalidDirectiveKey)
    );
    assert!(!c);
    let mut h = false;
    assert_eq!(
        get_hide_name(&mut h, &qualified(&["x", "hide_name"], DirectiveValue::Bool(true))),
        Some(DescribeError::InvalidDirectiveKey)
    );
    assert!(!h);
    let (mut s, mut p, mut k) = (", ".to_string(), " ".to_string(), ": ".to_string());
    assert_eq!(
        set_tokens(
            &mut s,
            &mut p,
            &mut k,
            &qualified(&["a", "tokens"], DirectiveValue::List(vec![text("separator", ";")]))
        ),
        Some(DescribeError::InvalidDirectiveKey)
    );
    assert_eq!((s.as_str(), p.as_str(), k.as_str()), (", ", " ", ": "));
    // a qualified key that names no directive is no concern of the getters
    assert_eq!(
        get_hide_opt(&mut b, &qualified(&["hide_opt", "other"], DirectiveValue::Bool(true))),
        None
    );
    assert!(!b);
    // the resolver rejects every qualified key
    assert_eq!(
        resolve_options(&vec![qualified(&["a", "hide_opt"], DirectiveValue::Bool(true))]).err(),
        Some(DescribeError::InvalidDirectiveKey)
    );
}

#[test]
fn all_hidden_keeps_name_under_hide_name() {
    let hidden = entity("N", vec![("a", optional(leaf("u8")))]);
    let o = opts(vec![flag("hide_opt", true), flag("hide_name", true)]);
    let d = describe_entity(&hidden, &o);
    assert_eq!(d, "N");
    assert!(!d.contains('{') && !d.contains('}'));
    let empty = entity("N", vec![]);
    assert_eq!(describe_entity(&empty, &opts(vec![flag("hide_name", true)])), "N");
}
