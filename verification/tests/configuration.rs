use storage_noodle::codegen::attr::{
    for_each_attr, make_concrete, raw_id_attr, split_for_impl_make_concrete,
    split_generics_with_raw_id_attr, Diagnostic, Site, SplitGenerics, SqlAttr, FORMAT_MESSAGE,
    MISSING_MESSAGE, RAW_ID_ATTR, SQL_ATTR,
};
use storage_noodle::codegen::shape::{
    Attribute, Field, GenericArgument, GenericParam, Generics, ItemStruct, ParamKind,
    PathArguments, PathSegment, QSelf, TypeExpr,
};

fn name(text: &str) -> TypeExpr {
    TypeExpr::ident(text.to_string())
}

fn generic(path: &str, args: Vec<GenericArgument>) -> TypeExpr {
    TypeExpr::Path {
        qself: None,
        leading_colon: false,
        segments: vec![PathSegment {
            ident: path.to_string(),
            arguments: PathArguments::AngleBracketed(args),
        }],
    }
}

fn sql_attr(types: Result<Vec<TypeExpr>, String>) -> Attribute {
    Attribute { name: Some(SQL_ATTR.to_string()), types, ident: Err("not a name".to_string()) }
}

fn raw_id_marker(ident: Result<String, String>) -> Attribute {
    Attribute {
        name: Some(RAW_ID_ATTR.to_string()),
        types: Err("not types".to_string()),
        ident,
    }
}

fn other_attr() -> Attribute {
    Attribute {
        name: Some("derive".to_string()),
        types: Err("not types".to_string()),
        ident: Err("not a name".to_string()),
    }
}

fn param(kind: ParamKind, ident: &str) -> GenericParam {
    GenericParam { kind, ident: ident.to_string() }
}

fn item(attrs: Vec<Attribute>, params: Vec<GenericParam>) -> ItemStruct {
    ItemStruct {
        attrs,
        ident: "Cookie".to_string(),
        generics: Generics { params, where_clause: Some("where RawId: Send".to_string()) },
        fields: vec![Field { ident: Some("flavour".to_string()), ty: name("String") }],
    }
}

#[test]
fn ident_type_is_a_single_bare_segment() {
    assert_eq!(
        name("u32"),
        TypeExpr::Path {
            qself: None,
            leading_colon: false,
            segments: vec![PathSegment { ident: "u32".to_string(), arguments: PathArguments::Bare }],
        }
    );
    assert!(name("u32").is_ident(&"u32".to_string()));
    assert!(!name("u32").is_ident(&"u64".to_string()));
}

#[test]
fn is_ident_refuses_colon_arguments_and_longer_paths() {
    let rooted = TypeExpr::Path {
        qself: None,
        leading_colon: true,
        segments: vec![PathSegment { ident: "T".to_string(), arguments: PathArguments::Bare }],
    };
    assert!(!rooted.is_ident(&"T".to_string()));
    assert!(!generic("T", vec![]).is_ident(&"T".to_string()));
    let long = TypeExpr::Path {
        qself: None,
        leading_colon: false,
        segments: vec![
            PathSegment { ident: "T".to_string(), arguments: PathArguments::Bare },
            PathSegment { ident: "T".to_string(), arguments: PathArguments::Bare },
        ],
    };
    assert!(!long.is_ident(&"T".to_string()));
    assert!(!TypeExpr::Verbatim("T".to_string()).is_ident(&"T".to_string()));
}

#[test]
fn clone_keeps_the_whole_type() {
    let ty = generic(
        "Map",
        vec![
            GenericArgument::Verbatim("'a".to_string()),
            GenericArgument::Type(generic("Vec", vec![GenericArgument::Type(name("T"))])),
        ],
    );
    assert_eq!(ty.clone(), ty);
}

#[test]
fn from_attribute_reads_two_types() {
    let attr = sql_attr(Ok(vec![name("Sqlite"), name("u32")]));
    assert_eq!(
        SqlAttr::from_attribute(&attr),
        Ok(Some(SqlAttr { backing_db: name("Sqlite"), raw_id: name("u32") }))
    );
}

#[test]
fn from_attribute_passes_over_other_attributes() {
    assert_eq!(SqlAttr::from_attribute(&other_attr()), Ok(None));
    assert_eq!(SqlAttr::from_attribute(&raw_id_marker(Ok("RawId".to_string()))), Ok(None));
    let unnamed = Attribute { name: None, types: Ok(vec![name("A"), name("B")]), ident: Err(String::new()) };
    assert_eq!(SqlAttr::from_attribute(&unnamed), Ok(None));
}

#[test]
fn from_attribute_wants_exactly_two_arguments() {
    for count in [0usize, 1, 3] {
        let types = (0..count).map(|_| name("T")).collect();
        assert_eq!(
            SqlAttr::from_attribute(&sql_attr(Ok(types))),
            Err(FORMAT_MESSAGE.to_string())
        );
    }
    assert_eq!(FORMAT_MESSAGE, "must be in the format `storage_noodle_sql(backing_db, raw_id)`");
}

#[test]
fn from_attribute_hands_on_the_parse_error() {
    assert_eq!(
        SqlAttr::from_attribute(&sql_attr(Err("expected `,`".to_string()))),
        Err("expected `,`".to_string())
    );
}

#[test]
fn from_item_lists_the_backends_in_order() {
    let it = item(
        vec![
            other_attr(),
            sql_attr(Ok(vec![name("Sqlite"), name("u32")])),
            raw_id_marker(Ok("RawId".to_string())),
            sql_attr(Ok(vec![name("Postgres"), name("i64")])),
        ],
        vec![],
    );
    assert_eq!(
        SqlAttr::from_item(&it),
        Ok(vec![
            SqlAttr { backing_db: name("Sqlite"), raw_id: name("u32") },
            SqlAttr { backing_db: name("Postgres"), raw_id: name("i64") },
        ])
    );
}

#[test]
fn from_item_without_backend_is_an_error_on_the_item() {
    let it = item(vec![other_attr()], vec![]);
    assert_eq!(
        SqlAttr::from_item(&it),
        Err(vec![Diagnostic { site: Site::Item, message: MISSING_MESSAGE.to_string() }])
    );
    assert_eq!(MISSING_MESSAGE, "there is no `storage_noodle_sql` attribute on this struct");
}

#[test]
fn from_item_collects_every_error_before_reporting() {
    let it = item(
        vec![
            sql_attr(Err("first".to_string())),
            sql_attr(Ok(vec![name("Sqlite"), name("u32")])),
            other_attr(),
            sql_attr(Ok(vec![])),
        ],
        vec![],
    );
    assert_eq!(
        SqlAttr::from_item(&it),
        Err(vec![
            Diagnostic { site: Site::Attribute(0), message: "first".to_string() },
            Diagnostic { site: Site::Attribute(3), message: FORMAT_MESSAGE.to_string() },
        ])
    );
}

#[test]
fn raw_id_attr_takes_the_first_marker() {
    let it = item(
        vec![
            sql_attr(Ok(vec![name("Sqlite"), name("u32")])),
            raw_id_marker(Ok("RawId".to_string())),
            raw_id_marker(Ok("Other".to_string())),
        ],
        vec![],
    );
    assert_eq!(raw_id_attr(&it), Some(Ok("RawId".to_string())));
}

#[test]
fn raw_id_attr_is_none_without_marker() {
    let it = item(vec![sql_attr(Ok(vec![name("Sqlite"), name("u32")]))], vec![]);
    assert_eq!(raw_id_attr(&it), None);
}

#[test]
fn raw_id_attr_reports_a_malformed_marker() {
    let it = item(vec![other_attr(), raw_id_marker(Err("expected identifier".to_string()))], vec![]);
    assert_eq!(
        raw_id_attr(&it),
        Some(Err(Diagnostic {
            site: Site::Attribute(1),
            message: "expected identifier".to_string()
        }))
    );
}

#[test]
fn split_drops_the_replaced_parameter_and_hands_the_concrete_type() {
    let generics = Generics {
        params: vec![
            param(ParamKind::Lifetime, "'a"),
            param(ParamKind::Type, "RawId"),
            param(ParamKind::Type, "T"),
            param(ParamKind::Const, "N"),
        ],
        where_clause: Some("where T: Clone".to_string()),
    };
    let split = split_for_impl_make_concrete(&generics, &vec!["RawId".to_string()], &name("u32"));
    assert_eq!(
        split,
        SplitGenerics {
            impl_generics: vec![
                param(ParamKind::Lifetime, "'a"),
                param(ParamKind::Type, "T"),
                param(ParamKind::Const, "N"),
            ],
            type_generics: vec![
                GenericArgument::Verbatim("'a".to_string()),
                GenericArgument::Type(name("u32")),
                GenericArgument::Type(name("T")),
                GenericArgument::Verbatim("N".to_string()),
            ],
            where_clause: Some("where T: Clone".to_string()),
        }
    );
}

#[test]
fn split_replaces_type_parameters_only() {
    let generics = Generics {
        params: vec![param(ParamKind::Const, "RawId"), param(ParamKind::Lifetime, "RawId")],
        where_clause: None,
    };
    let split = split_for_impl_make_concrete(&generics, &vec!["RawId".to_string()], &name("u32"));
    assert_eq!(split.impl_generics, generics.params);
    assert_eq!(
        split.type_generics,
        vec![
            GenericArgument::Verbatim("RawId".to_string()),
            GenericArgument::Verbatim("RawId".to_string()),
        ]
    );
    assert_eq!(split.where_clause, None);
}

#[test]
fn split_with_nothing_to_replace_keeps_every_parameter() {
    let generics = Generics {
        params: vec![param(ParamKind::Type, "A"), param(ParamKind::Type, "B")],
        where_clause: None,
    };
    let split = split_for_impl_make_concrete(&generics, &vec![], &name("u32"));
    assert_eq!(split.impl_generics, generics.params);
    assert_eq!(
        split.type_generics,
        vec![GenericArgument::Type(name("A")), GenericArgument::Type(name("B"))]
    );
}

#[test]
fn split_generics_follows_the_marker() {
    let marked = item(
        vec![raw_id_marker(Ok("RawId".to_string()))],
        vec![param(ParamKind::Type, "RawId")],
    );
    let split = split_generics_with_raw_id_attr(&marked, &name("u32")).unwrap();
    assert_eq!(split.impl_generics, vec![]);
    assert_eq!(split.type_generics, vec![GenericArgument::Type(name("u32"))]);
    assert_eq!(split.where_clause, Some("where RawId: Send".to_string()));

    let plain = item(vec![], vec![param(ParamKind::Type, "RawId")]);
    let split = split_generics_with_raw_id_attr(&plain, &name("u32")).unwrap();
    assert_eq!(split.impl_generics, vec![param(ParamKind::Type, "RawId")]);
    assert_eq!(split.type_generics, vec![GenericArgument::Type(name("RawId"))]);
}

#[test]
fn split_generics_reports_a_malformed_marker() {
    let it = item(vec![raw_id_marker(Err("expected identifier".to_string()))], vec![]);
    assert_eq!(
        split_generics_with_raw_id_attr(&it, &name("u32")),
        Err(Diagnostic { site: Site::Attribute(0), message: "expected identifier".to_string() })
    );
}

#[test]
fn make_concrete_replaces_the_parameter_itself() {
    assert_eq!(make_concrete(&name("RawId"), &"RawId".to_string(), &name("u32")), name("u32"));
    assert_eq!(make_concrete(&name("String"), &"RawId".to_string(), &name("u32")), name("String"));
}

#[test]
fn make_concrete_goes_into_nested_arguments() {
    let ty = generic(
        "AssocId",
        vec![
            GenericArgument::Type(name("Recipe")),
            GenericArgument::Type(generic("Option", vec![GenericArgument::Type(name("RawId"))])),
            GenericArgument::Verbatim("RawId".to_string()),
        ],
    );
    let expected = generic(
        "AssocId",
        vec![
            GenericArgument::Type(name("Recipe")),
            GenericArgument::Type(generic("Option", vec![GenericArgument::Type(name("u32"))])),
            GenericArgument::Verbatim("RawId".to_string()),
        ],
    );
    assert_eq!(make_concrete(&ty, &"RawId".to_string(), &name("u32")), expected);
}

#[test]
fn make_concrete_leaves_other_forms_alone() {
    let reference = TypeExpr::Verbatim("&RawId".to_string());
    assert_eq!(make_concrete(&reference, &"RawId".to_string(), &name("u32")), reference);
    let qualified = TypeExpr::Path {
        qself: Some(QSelf { ty: "RawId".to_string(), position: 1 }),
        leading_colon: false,
        segments: vec![
            PathSegment { ident: "Iterator".to_string(), arguments: PathArguments::Bare },
            PathSegment {
                ident: "Item".to_string(),
                arguments: PathArguments::Parenthesized("(RawId)".to_string()),
            },
        ],
    };
    assert_eq!(make_concrete(&qualified, &"RawId".to_string(), &name("u32")), qualified);
}

#[test]
fn for_each_attr_runs_once_for_each_backend() {
    let it = item(
        vec![
            sql_attr(Ok(vec![name("Sqlite"), name("u32")])),
            sql_attr(Ok(vec![name("Postgres"), name("i64")])),
        ],
        vec![],
    );
    let seen = for_each_attr(&it, |item: &ItemStruct, db: &TypeExpr, id: &TypeExpr| {
        Ok::<(String, TypeExpr, TypeExpr), Diagnostic>((item.ident.clone(), db.clone(), id.clone()))
    });
    assert_eq!(
        seen,
        vec![
            Ok(("Cookie".to_string(), name("Sqlite"), name("u32"))),
            Ok(("Cookie".to_string(), name("Postgres"), name("i64"))),
        ]
    );
}

#[test]
fn for_each_attr_does_not_run_on_a_configuration_in_error() {
    let it = item(vec![sql_attr(Ok(vec![name("Sqlite")]))], vec![]);
    let seen = for_each_attr(&it, |_: &ItemStruct, _: &TypeExpr, _: &TypeExpr| {
        Ok::<u8, Diagnostic>(unreachable!())
    });
    assert_eq!(
        seen,
        vec![Err(Diagnostic { site: Site::Attribute(0), message: FORMAT_MESSAGE.to_string() })]
    );
}
