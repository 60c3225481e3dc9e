use zkcircuit::{
    AttrBody, Attribute, DeclShape, GenericArg, PathArgs, PathSegment, RawField, RecordDecl, Role,
    TypeExpr, TypeShape,
};

fn plain_type(ident: &str) -> TypeExpr {
    TypeExpr {
        text: ident.to_string(),
        shape: TypeShape::Path(vec![PathSegment { ident: ident.to_string(), args: PathArgs::Plain }]),
    }
}

fn option_of(inner: &str) -> TypeExpr {
    TypeExpr {
        text: format!("Option<{}>", inner),
        shape: TypeShape::Path(vec![PathSegment {
            ident: "Option".to_string(),
            args: PathArgs::Angle(vec![GenericArg::Type(plain_type(inner))]),
        }]),
    }
}

fn input_attr() -> Attribute {
    Attribute { path: "circuit".to_string(), body: AttrBody::List("input".to_string()) }
}

fn field(name: &str, ty: TypeExpr, attrs: Vec<Attribute>) -> RawField {
    RawField { name: name.to_string(), ty, attrs }
}

fn record(name: &str, fields: Vec<RawField>) -> RecordDecl {
    RecordDecl {
        record_name: name.to_string(),
        generics: "<F: PrimeField>".to_string(),
        where_clause: String::new(),
        shape: DeclShape::NamedStruct(fields),
    }
}

#[test]
fn inner_type_of_option_path() {
    assert_eq!(zkcircuit::get_inner_type(&option_of("F")), Some("F".to_string()));
    let qualified = TypeExpr {
        text: "std::option::Option<Fr>".to_string(),
        shape: TypeShape::Path(vec![
            PathSegment { ident: "std".to_string(), args: PathArgs::Plain },
            PathSegment { ident: "option".to_string(), args: PathArgs::Plain },
            PathSegment {
                ident: "Option".to_string(),
                args: PathArgs::Angle(vec![GenericArg::Type(plain_type("Fr"))]),
            },
        ]),
    };
    assert_eq!(zkcircuit::get_inner_type(&qualified), Some("Fr".to_string()));
}

#[test]
fn inner_type_of_other_shapes() {
    assert_eq!(zkcircuit::get_inner_type(&plain_type("u64")), None);
    let vec_ty = TypeExpr {
        text: "Vec<F>".to_string(),
        shape: TypeShape::Path(vec![PathSegment {
            ident: "Vec".to_string(),
            args: PathArgs::Angle(vec![GenericArg::Type(plain_type("F"))]),
        }]),
    };
    assert_eq!(zkcircuit::get_inner_type(&vec_ty), None);
    let bare_option = TypeExpr {
        text: "Option".to_string(),
        shape: TypeShape::Path(vec![PathSegment { ident: "Option".to_string(), args: PathArgs::Plain }]),
    };
    assert_eq!(zkcircuit::get_inner_type(&bare_option), None);
    let option_of_ref = TypeExpr {
        text: "Option<&F>".to_string(),
        shape: TypeShape::Path(vec![PathSegment {
            ident: "Option".to_string(),
            args: PathArgs::Angle(vec![GenericArg::Type(TypeExpr {
                text: "&F".to_string(),
                shape: TypeShape::Other,
            })]),
        }]),
    };
    assert_eq!(zkcircuit::get_inner_type(&option_of_ref), Some("&F".to_string()));
    let two_args = TypeExpr {
        text: "Option<F, G>".to_string(),
        shape: TypeShape::Path(vec![PathSegment {
            ident: "Option".to_string(),
            args: PathArgs::Angle(vec![GenericArg::Type(plain_type("F")), GenericArg::Type(plain_type("G"))]),
        }]),
    };
    assert_eq!(zkcircuit::get_inner_type(&two_args), None);
    let option_of_lifetime = TypeExpr {
        text: "Option<'a>".to_string(),
        shape: TypeShape::Path(vec![PathSegment {
            ident: "Option".to_string(),
            args: PathArgs::Angle(vec![GenericArg::Other]),
        }]),
    };
    assert_eq!(zkcircuit::get_inner_type(&option_of_lifetime), None);
}

#[test]
fn cube_demo_generates_all_artifacts() {
    let decl = record("CubeDemo", vec![field("x", option_of("F"), vec![])]);
    let a = match zkcircuit::zkcircuit_derive(decl) {
        Ok(a) => a,
        Err(_) => panic!("generation should succeed"),
    };
    assert_eq!(a.allocation.header.record_name, "CubeDemo");
    assert_eq!(a.allocation.header.generics, "<F: PrimeField>");
    assert_eq!(a.allocation.registrations.len(), 1);
    assert_eq!(a.allocation.registrations[0].field, "x");
    assert_eq!(a.allocation.registrations[0].role, Role::Hidden);
    assert_eq!(a.builder.name, "CubeDemoBuilder");
    assert_eq!(a.builder.header.generics, "<F: PrimeField>");
    assert_eq!(a.builder.slots.len(), 1);
    assert_eq!(a.builder.slots[0].field, "x");
    assert_eq!(a.builder.slots[0].declared_type, "Option<F>");
    assert_eq!(a.builder.slots[0].inner_type, "F");
    assert_eq!(a.builder.slots[0].missing_message, "x field is missing");
    assert_eq!(a.witness.header.record_name, "CubeDemo");
    assert_eq!(a.witness.fields, vec!["x".to_string()]);
}

#[test]
fn allocation_registers_every_field_in_declaration_order() {
    let decl = record(
        "Three",
        vec![
            field("c", option_of("F"), vec![]),
            field("a", option_of("F"), vec![input_attr()]),
            field("b", option_of("F"), vec![]),
        ],
    );
    let a = match zkcircuit::zkcircuit_derive(decl) {
        Ok(a) => a,
        Err(_) => panic!("generation should succeed"),
    };
    let names: Vec<&str> = a.allocation.registrations.iter().map(|r| r.field.as_str()).collect();
    assert_eq!(names, vec!["c", "a", "b"]);
    let roles: Vec<Role> = a.allocation.registrations.iter().map(|r| r.role).collect();
    assert_eq!(roles, vec![Role::Hidden, Role::Exposed, Role::Hidden]);
    assert_eq!(a.witness.fields, vec!["c".to_string(), "a".to_string(), "b".to_string()]);
    let slots: Vec<&str> = a.builder.slots.iter().map(|s| s.field.as_str()).collect();
    assert_eq!(slots, vec!["c", "a", "b"]);
}

#[test]
fn roles_from_annotations() {
    assert_eq!(zkcircuit::field_role(&vec![]), Some(Role::Hidden));
    assert_eq!(zkcircuit::field_role(&vec![input_attr()]), Some(Role::Exposed));
    let doc = Attribute { path: "doc".to_string(), body: AttrBody::NameValue("x".to_string()) };
    assert_eq!(zkcircuit::field_role(&vec![doc]), Some(Role::Hidden));
    let other = Attribute { path: "circuit".to_string(), body: AttrBody::List("output".to_string()) };
    assert_eq!(zkcircuit::field_role(&vec![other]), Some(Role::Hidden));
    let other = Attribute { path: "circuit".to_string(), body: AttrBody::List("output".to_string()) };
    assert_eq!(zkcircuit::field_role(&vec![other, input_attr()]), Some(Role::Exposed));
    let word = Attribute { path: "circuit".to_string(), body: AttrBody::Word };
    assert_eq!(zkcircuit::field_role(&vec![word]), None);
    let word = Attribute { path: "circuit".to_string(), body: AttrBody::Word };
    assert_eq!(zkcircuit::field_role(&vec![input_attr(), word]), None);
    let nv = Attribute { path: "circuit".to_string(), body: AttrBody::NameValue("x".to_string()) };
    assert_eq!(zkcircuit::field_role(&vec![input_attr(), nv]), None);
}

#[test]
fn malformed_annotation_is_rejected() {
    let nv = Attribute { path: "circuit".to_string(), body: AttrBody::NameValue("input".to_string()) };
    let decl = record(
        "R",
        vec![field("a", option_of("F"), vec![]), field("b", option_of("F"), vec![nv])],
    );
    match zkcircuit::zkcircuit_derive(decl) {
        Err(zkcircuit::SchemaError::InvalidAnnotation(name)) => assert_eq!(name, "b"),
        _ => panic!("expected an invalid annotation"),
    }
}

#[test]
fn annotation_errors_come_before_type_errors() {
    let word = Attribute { path: "circuit".to_string(), body: AttrBody::Word };
    let decl = record(
        "R",
        vec![field("a", plain_type("u64"), vec![]), field("b", option_of("F"), vec![word])],
    );
    match zkcircuit::zkcircuit_derive(decl) {
        Err(zkcircuit::SchemaError::InvalidAnnotation(name)) => assert_eq!(name, "b"),
        _ => panic!("expected an invalid annotation"),
    }
}

#[test]
fn non_optional_field_is_rejected() {
    let decl = record(
        "R",
        vec![
            field("x", option_of("F"), vec![]),
            field("y", plain_type("u64"), vec![input_attr()]),
            field("z", plain_type("F"), vec![]),
        ],
    );
    match zkcircuit::zkcircuit_derive(decl) {
        Err(zkcircuit::SchemaError::ExpectedOptionalField(name)) => assert_eq!(name, "y"),
        _ => panic!("expected a non-optional field error"),
    }
}

#[test]
fn unsupported_shapes_are_rejected() {
    for shape in [DeclShape::TupleStruct, DeclShape::UnitStruct, DeclShape::Enum, DeclShape::Union] {
        let decl = RecordDecl {
            record_name: "S".to_string(),
            generics: String::new(),
            where_clause: String::new(),
            shape,
        };
        assert!(matches!(zkcircuit::zkcircuit_derive(decl), Err(zkcircuit::SchemaError::UnsupportedShape)));
    }
}

#[test]
fn record_without_fields_generates_empty_artifacts() {
    let a = match zkcircuit::zkcircuit_derive(record("Empty", vec![])) {
        Ok(a) => a,
        Err(_) => panic!("generation should succeed"),
    };
    assert!(a.allocation.registrations.is_empty());
    assert!(a.builder.slots.is_empty());
    assert!(a.witness.fields.is_empty());
    assert_eq!(a.builder.name, "EmptyBuilder");
}

fn summary(a: &zkcircuit::Artifacts) -> Vec<String> {
    let mut out = vec![a.builder.name.clone(), a.allocation.header.generics.clone()];
    for r in &a.allocation.registrations {
        out.push(format!("{}:{:?}", r.field, r.role));
    }
    for s in &a.builder.slots {
        out.push(format!("{}|{}|{}|{}", s.field, s.declared_type, s.inner_type, s.missing_message));
    }
    out.extend(a.witness.fields.iter().cloned());
    out
}

#[test]
fn generation_is_deterministic() {
    let make = || {
        record(
            "Pair",
            vec![field("x", option_of("F"), vec![]), field("y", option_of("F"), vec![input_attr()])],
        )
    };
    let first = match zkcircuit::zkcircuit_derive(make()) {
        Ok(a) => a,
        Err(_) => panic!("generation should succeed"),
    };
    let second = match zkcircuit::zkcircuit_derive(make()) {
        Ok(a) => a,
        Err(_) => panic!("generation should succeed"),
    };
    assert_eq!(summary(&first), summary(&second));
}

#[test]
fn parse_then_analyze_gives_descriptors() {
    let decl = record(
        "Pair",
        vec![field("x", option_of("F"), vec![]), field("y", option_of("Fr"), vec![input_attr()])],
    );
    let parsed = match zkcircuit::parse_schema(decl) {
        Ok(p) => p,
        Err(_) => panic!("parse should succeed"),
    };
    assert_eq!(parsed.fields.len(), 2);
    assert_eq!(parsed.fields[1].role, Role::Exposed);
    let schema = match zkcircuit::analyze_schema(&parsed) {
        Ok(s) => s,
        Err(_) => panic!("analysis should succeed"),
    };
    assert_eq!(schema.fields[0].name, "x");
    assert_eq!(schema.fields[0].inner_type, "F");
    assert_eq!(schema.fields[0].role, Role::Hidden);
    assert_eq!(schema.fields[1].name, "y");
    assert_eq!(schema.fields[1].declared_type, "Option<Fr>");
    assert_eq!(schema.fields[1].inner_type, "Fr");
    assert_eq!(schema.fields[1].role, Role::Exposed);
}

#[test]
fn input_annotation_followed_by_malformed_is_rejected() {
    let word = Attribute { path: "circuit".to_string(), body: AttrBody::Word };
    let decl = record("R", vec![field("a", option_of("F"), vec![input_attr(), word])]);
    match zkcircuit::zkcircuit_derive(decl) {
        Err(zkcircuit::SchemaError::InvalidAnnotation(name)) => assert_eq!(name, "a"),
        _ => panic!("expected an invalid annotation"),
    }
}

#[test]
fn option_of_array_is_optional() {
    let ty = TypeExpr {
        text: "Option<[u8; 32]>".to_string(),
        shape: TypeShape::Path(vec![PathSegment {
            ident: "Option".to_string(),
            args: PathArgs::Angle(vec![GenericArg::Type(TypeExpr {
                text: "[u8; 32]".to_string(),
                shape: TypeShape::Other,
            })]),
        }]),
    };
    let a = match zkcircuit::zkcircuit_derive(record("R", vec![field("bytes", ty, vec![])])) {
        Ok(a) => a,
        Err(_) => panic!("generation should succeed"),
    };
    assert_eq!(a.builder.slots[0].inner_type, "[u8; 32]");
}
