use hv_altar::bundle::{
    add_additional_bounds_to_generic_params, member_as_idents, struct_fields,
    tuple_field_ident, Bound, BundleBody, Data, DeriveError, DeriveInput, FieldIdent, Fields,
    GenericParam, Generics, Member, NamedField,
};

type Input = DeriveInput<&'static str, &'static str, &'static str, &'static str>;

fn no_generics() -> Generics<&'static str, &'static str> {
    Generics { params: Vec::new() }
}

#[test]
fn tuple_field_identifiers() {
    assert_eq!(tuple_field_ident(0), "tuple_field_0");
    assert_eq!(tuple_field_ident(9), "tuple_field_9");
    assert_eq!(tuple_field_ident(10), "tuple_field_10");
    assert_eq!(tuple_field_ident(407), "tuple_field_407");
    assert_eq!(tuple_field_ident(u32::MAX), "tuple_field_4294967295");
    assert_ne!(tuple_field_ident(1), tuple_field_ident(10));
}

#[test]
fn named_fields() {
    let fields = Fields::Named(vec![
        NamedField { ident: "pos", ty: "Vec2" },
        NamedField { ident: "vel", ty: "Vec3" },
    ]);
    let (tys, members) = struct_fields(&fields);
    assert_eq!(tys, vec!["Vec2", "Vec3"]);
    assert!(members == vec![Member::Named("pos"), Member::Named("vel")]);
}

#[test]
fn unnamed_fields() {
    let fields: Fields<&str, &str> = Fields::Unnamed(vec!["A", "B", "C"]);
    let (tys, members) = struct_fields(&fields);
    assert_eq!(tys, vec!["A", "B", "C"]);
    assert!(members == vec![Member::Unnamed(0), Member::Unnamed(1), Member::Unnamed(2)]);
}

#[test]
fn unit_fields() {
    let fields: Fields<&str, &str> = Fields::Unit;
    let (tys, members) = struct_fields(&fields);
    assert!(tys.is_empty());
    assert!(members.is_empty());
}

#[test]
fn idents_for_members() {
    let idents = member_as_idents(&[Member::Named("hp"), Member::Unnamed(1), Member::Unnamed(12)]);
    assert_eq!(idents.len(), 3);
    assert!(matches!(idents[0], FieldIdent::Borrowed("hp")));
    assert!(matches!(&idents[1], FieldIdent::Owned(s) if s == "tuple_field_1"));
    assert!(matches!(&idents[2], FieldIdent::Owned(s) if s == "tuple_field_12"));
}

#[test]
fn component_bound_added_to_type_params_only() {
    let generics = Generics {
        params: vec![
            GenericParam::Lifetime("'a"),
            GenericParam::Type { param: "T", bounds: vec![Bound::Existing("Clone")] },
            GenericParam::Const("N"),
            GenericParam::Type { param: "U", bounds: Vec::new() },
        ],
    };
    let out = add_additional_bounds_to_generic_params(generics);
    assert_eq!(out.params.len(), 4);
    assert!(matches!(out.params[0], GenericParam::Lifetime("'a")));
    match &out.params[1] {
        GenericParam::Type { param, bounds } => {
            assert_eq!(*param, "T");
            assert!(*bounds == vec![Bound::Existing("Clone"), Bound::Component]);
        }
        _ => panic!("type parameter expected"),
    }
    assert!(matches!(out.params[2], GenericParam::Const("N")));
    match &out.params[3] {
        GenericParam::Type { param, bounds } => {
            assert_eq!(*param, "U");
            assert!(*bounds == vec![Bound::Component]);
        }
        _ => panic!("type parameter expected"),
    }
}

#[test]
fn enums_and_unions_are_refused() {
    let input: Input = DeriveInput { data: Data::Enum, generics: no_generics() };
    let err = hv_altar::bundle::derive(input).err().unwrap();
    assert_eq!(err, DeriveError::NotAStruct);
    assert_eq!(err.message(), "derive(Bundle) does not support enums or unions");
    let input: Input = DeriveInput { data: Data::Union, generics: no_generics() };
    assert_eq!(hv_altar::bundle::derive(input).err(), Some(DeriveError::NotAStruct));
}

#[test]
fn unit_struct_plan() {
    let input: Input = DeriveInput { data: Data::Struct(Fields::Unit), generics: no_generics() };
    let plan = hv_altar::bundle::derive(input).ok().unwrap();
    assert_eq!(plan.body, BundleBody::UnitStruct);
    assert!(plan.tys.is_empty());
}

#[test]
fn non_generic_struct_uses_a_static() {
    let input: Input = DeriveInput {
        data: Data::Struct(Fields::Unnamed(vec!["u8", "u16"])),
        generics: no_generics(),
    };
    let plan = hv_altar::bundle::derive(input).ok().unwrap();
    assert_eq!(plan.body, BundleBody::StaticIds);
    assert_eq!(plan.tys, vec!["u8", "u16"]);
    assert!(plan.field_members == vec![Member::Unnamed(0), Member::Unnamed(1)]);
    assert!(matches!(&plan.field_idents[1], FieldIdent::Owned(s) if s == "tuple_field_1"));
}

#[test]
fn generic_struct_computes_ids_inline() {
    let input: Input = DeriveInput {
        data: Data::Struct(Fields::Named(vec![NamedField { ident: "x", ty: "T" }])),
        generics: Generics {
            params: vec![GenericParam::Type { param: "T", bounds: Vec::new() }],
        },
    };
    let plan = hv_altar::bundle::derive(input).ok().unwrap();
    assert_eq!(plan.body, BundleBody::InlineIds);
    assert!(matches!(plan.field_idents[0], FieldIdent::Borrowed("x")));
    match &plan.generics.params[0] {
        GenericParam::Type { bounds, .. } => assert!(*bounds == vec![Bound::Component]),
        _ => panic!("type parameter expected"),
    }
}

#[test]
fn lifetime_only_generics_compute_ids_inline() {
    let input: Input = DeriveInput {
        data: Data::Struct(Fields::Unnamed(vec!["&'a u8"])),
        generics: Generics { params: vec![GenericParam::Lifetime("'a")] },
    };
    let plan = hv_altar::bundle::derive(input).ok().unwrap();
    assert_eq!(plan.body, BundleBody::InlineIds);
}

#[test]
fn fieldless_generic_struct_is_a_unit_bundle() {
    let input: Input = DeriveInput {
        data: Data::Struct(Fields::Named(Vec::new())),
        generics: Generics {
            params: vec![GenericParam::Type { param: "T", bounds: Vec::new() }],
        },
    };
    let plan = hv_altar::bundle::derive(input).ok().unwrap();
    assert_eq!(plan.body, BundleBody::UnitStruct);
}
