use kyc_mir::ast::{AstType, FieldDecl, FunctionDecl, Param, StructDecl, TypeParam};
use kyc_mir::lower::generics::{
    extract_generic_bindings, infer_function_type_params, is_type_ref, mir_type_to_ast_type,
    param_type_from_annotation, substitute_ast_type,
};
use kyc_mir::lower::resolve::{
    ast_type_to_mir, ast_type_to_mir_with_subst, pre_register_generic_type, register_option_type,
};
use kyc_mir::mir::MirType;
use kyc_mir::name_table::NameTable;

fn prim(name: &str) -> AstType {
    AstType::Primitive { name: name.to_string() }
}

fn user(name: &str) -> AstType {
    AstType::User { name: name.to_string() }
}

fn generic(name: &str, args: Vec<AstType>) -> AstType {
    AstType::Generic { name: name.to_string(), args }
}

fn tagged(name: &str) -> MirType {
    MirType::Struct(
        name.to_string(),
        vec![("disc".to_string(), MirType::I32), ("payload".to_string(), MirType::I64)],
    )
}

fn point_fields() -> Vec<(String, MirType)> {
    vec![("x".to_string(), MirType::I32), ("y".to_string(), MirType::I32)]
}

fn no_aliases() -> NameTable<AstType> {
    NameTable::new()
}

#[test]
fn name_table_reads_back_what_was_written() {
    let mut t: NameTable<i32> = NameTable::new();
    assert!(!t.contains_key("a"));
    t.insert("a".to_string(), 1);
    t.insert("b".to_string(), 2);
    t.insert("a".to_string(), 3);
    assert_eq!(t.get("a"), Some(&3));
    assert_eq!(t.get("b"), Some(&2));
    assert_eq!(t.get("c"), None);
    assert!(t.contains_key("b"));
}

#[test]
fn scalars_and_void_by_name() {
    let aliases = no_aliases();
    assert_eq!(ast_type_to_mir(&prim("int"), None, &aliases), MirType::I32);
    assert_eq!(ast_type_to_mir(&prim("u16"), None, &aliases), MirType::U16);
    assert_eq!(ast_type_to_mir(&prim("void"), None, &aliases), MirType::Void);
    assert_eq!(ast_type_to_mir(&prim("mystery"), None, &aliases), MirType::I32);
    assert_eq!(ast_type_to_mir(&user("str"), None, &aliases), MirType::Str);
    assert_eq!(
        ast_type_to_mir(&user("void"), None, &aliases),
        MirType::Struct("void".to_string(), vec![])
    );
}

#[test]
fn structs_by_definition() {
    let mut defs: NameTable<Vec<(String, MirType)>> = NameTable::new();
    defs.insert("Point".to_string(), point_fields());
    let aliases = no_aliases();
    assert_eq!(
        ast_type_to_mir(&user("Point"), Some(&defs), &aliases),
        MirType::Struct("Point".to_string(), point_fields())
    );
    assert_eq!(
        ast_type_to_mir(&user("Other"), Some(&defs), &aliases),
        MirType::Struct("Other".to_string(), vec![])
    );
    assert_eq!(
        ast_type_to_mir(&user("Point"), None, &aliases),
        MirType::Struct("Point".to_string(), vec![])
    );
}

#[test]
fn aliases_follow_their_chain() {
    let mut aliases: NameTable<AstType> = NameTable::new();
    aliases.insert("Id".to_string(), user("Num"));
    aliases.insert("Num".to_string(), prim("i64"));
    aliases.insert("A".to_string(), user("B"));
    aliases.insert("B".to_string(), user("A"));
    aliases.insert("L".to_string(), generic("list", vec![prim("i32")]));
    aliases.insert("U".to_string(), prim("u8"));
    assert_eq!(ast_type_to_mir(&user("Id"), None, &aliases), MirType::I64);
    assert_eq!(ast_type_to_mir(&user("A"), None, &aliases), MirType::Struct("A".to_string(), vec![]));
    assert_eq!(ast_type_to_mir(&user("L"), None, &aliases), MirType::Struct("L".to_string(), vec![]));
    assert_eq!(ast_type_to_mir(&user("U"), None, &aliases), MirType::Struct("U".to_string(), vec![]));
    let mut defs: NameTable<Vec<(String, MirType)>> = NameTable::new();
    defs.insert("Num".to_string(), point_fields());
    assert_eq!(
        ast_type_to_mir(&user("Id"), Some(&defs), &aliases),
        MirType::Struct("Id".to_string(), vec![])
    );
}

#[test]
fn generic_applications() {
    let aliases = no_aliases();
    assert_eq!(
        ast_type_to_mir(&generic("list", vec![]), None, &aliases),
        MirType::List(Box::new(MirType::I32))
    );
    assert_eq!(
        ast_type_to_mir(&generic("set", vec![prim("str")]), None, &aliases),
        MirType::SetOf(Box::new(MirType::Str))
    );
    assert_eq!(
        ast_type_to_mir(&generic("tuple", vec![prim("i32"), prim("str"), user("P")]), None, &aliases),
        MirType::Struct(
            "_tuple_3_i32strx".to_string(),
            vec![
                ("_0".to_string(), MirType::I32),
                ("_1".to_string(), MirType::Str),
                ("_2".to_string(), MirType::Struct("P".to_string(), vec![])),
            ],
        )
    );
    assert_eq!(
        ast_type_to_mir(&generic("Option", vec![prim("i32")]), None, &aliases),
        tagged("Option__i32")
    );
    assert_eq!(
        ast_type_to_mir(&generic("box", vec![prim("f64")]), None, &aliases),
        MirType::Box(Box::new(MirType::F64))
    );
    assert_eq!(
        ast_type_to_mir(&generic("Pair", vec![prim("i32"), prim("str")]), None, &aliases),
        MirType::Struct("Pair__i32_str".to_string(), vec![])
    );
    assert_eq!(
        ast_type_to_mir(&generic("Pair", vec![]), None, &aliases),
        MirType::Struct("Pair".to_string(), vec![])
    );
    let mut defs: NameTable<Vec<(String, MirType)>> = NameTable::new();
    defs.insert("Shape".to_string(), point_fields());
    defs.insert("Pair__i32_str".to_string(), point_fields());
    assert_eq!(
        ast_type_to_mir(&generic("Shape", vec![prim("i32")]), Some(&defs), &aliases),
        MirType::Struct("Shape".to_string(), point_fields())
    );
    assert_eq!(
        ast_type_to_mir(&generic("Pair", vec![prim("i32"), prim("str")]), Some(&defs), &aliases),
        MirType::Struct("Pair__i32_str".to_string(), point_fields())
    );
}

#[test]
fn other_annotation_shapes() {
    let aliases = no_aliases();
    let opt = AstType::Optional { inner: Box::new(prim("str")) };
    assert_eq!(ast_type_to_mir(&opt, None, &aliases), tagged("Option__str"));
    let err = AstType::Error { inner: Box::new(prim("i32")) };
    assert_eq!(ast_type_to_mir(&err, None, &aliases), tagged("Result"));
    let f = AstType::FnPtr { params: vec![prim("i32")], return_: Box::new(prim("i32")) };
    assert_eq!(ast_type_to_mir(&f, None, &aliases), MirType::Ptr(Box::new(MirType::Void)));
    assert_eq!(ast_type_to_mir(&AstType::Ptr, None, &aliases), MirType::Ptr(Box::new(MirType::Void)));
    let borrowed = AstType::Borrow { inner: Box::new(AstType::Mutable { inner: Box::new(prim("i8")) }) };
    assert_eq!(ast_type_to_mir(&borrowed, None, &aliases), MirType::I8);
    let arr = AstType::Array { inner: Box::new(prim("u32")), size: 5 };
    assert_eq!(ast_type_to_mir(&arr, None, &aliases), MirType::Array(Box::new(MirType::U32), 5));
    let dict = AstType::Dict { key: Box::new(prim("str")), value: Box::new(prim("bool")) };
    assert_eq!(
        ast_type_to_mir(&dict, None, &aliases),
        MirType::Dict(Box::new(MirType::Str), Box::new(MirType::Bool))
    );
    assert_eq!(ast_type_to_mir(&AstType::Bytes, None, &aliases), MirType::Bytes);
}

#[test]
fn substitution_of_type_parameters() {
    let mut subst: NameTable<MirType> = NameTable::new();
    subst.insert("T".to_string(), MirType::I64);
    assert_eq!(ast_type_to_mir_with_subst(&user("T"), None, &subst), MirType::I64);
    assert_eq!(ast_type_to_mir_with_subst(&prim("T"), None, &subst), MirType::I64);
    assert_eq!(
        ast_type_to_mir_with_subst(&generic("list", vec![user("T")]), None, &subst),
        MirType::List(Box::new(MirType::I64))
    );
    assert_eq!(
        ast_type_to_mir_with_subst(&generic("Box2", vec![user("T")]), None, &subst),
        MirType::Struct("Box2__i64".to_string(), vec![])
    );
    assert_eq!(
        ast_type_to_mir_with_subst(&user("U"), None, &subst),
        MirType::Struct("U".to_string(), vec![])
    );
}

#[test]
fn registering_option_structs() {
    let aliases = no_aliases();
    let mut defs: NameTable<Vec<(String, MirType)>> = NameTable::new();
    register_option_type(&AstType::Optional { inner: Box::new(prim("i32")) }, &mut defs, &aliases);
    assert_eq!(defs.get("Option__i32"), Some(&vec![
        ("disc".to_string(), MirType::I32),
        ("payload".to_string(), MirType::I64),
    ]));
    let nested = generic("Option", vec![generic("Option", vec![prim("str")])]);
    register_option_type(&nested, &mut defs, &aliases);
    assert!(defs.contains_key("Option__str"));
    assert!(defs.contains_key("Option__Option__str"));
    register_option_type(&prim("i32"), &mut defs, &aliases);
    assert!(!defs.contains_key("Option__i64"));
}

fn pair_template() -> StructDecl {
    StructDecl {
        name: "Pair".to_string(),
        type_params: vec![TypeParam { name: "T".to_string() }, TypeParam { name: "U".to_string() }],
        fields: vec![
            FieldDecl { name: "first".to_string(), type_: user("T") },
            FieldDecl { name: "second".to_string(), type_: user("U") },
        ],
    }
}

#[test]
fn pre_registering_generic_instances() {
    let mut templates: NameTable<StructDecl> = NameTable::new();
    templates.insert("Pair".to_string(), pair_template());
    let mut subst: NameTable<MirType> = NameTable::new();
    subst.insert("T".to_string(), MirType::I32);
    subst.insert("U".to_string(), MirType::Str);
    let mut defs: NameTable<Vec<(String, MirType)>> = NameTable::new();
    let expected_fields = vec![("first".to_string(), MirType::I32), ("second".to_string(), MirType::Str)];
    let r = pre_register_generic_type(
        &generic("Pair", vec![user("T"), user("U")]),
        &subst,
        &templates,
        &mut defs,
    );
    assert_eq!(r, Some(MirType::Struct("Pair__i32_str".to_string(), expected_fields.clone())));
    assert_eq!(defs.get("Pair__i32_str"), Some(&expected_fields));
    let inner = pre_register_generic_type(
        &generic("Pair", vec![generic("Pair", vec![prim("i64"), prim("i64")]), prim("bool")]),
        &NameTable::new(),
        &templates,
        &mut defs,
    );
    assert!(defs.contains_key("Pair__i64_i64"));
    match inner {
        Some(MirType::Struct(name, _)) => {
            assert_eq!(name, "Pair__Pair__i64_i64_bool");
            assert!(defs.contains_key(&name));
        }
        other => panic!("unexpected {:?}", other),
    }
    assert_eq!(pre_register_generic_type(&generic("list", vec![prim("i32")]), &subst, &templates, &mut defs), None);
    assert_eq!(pre_register_generic_type(&generic("Nope", vec![prim("i32")]), &subst, &templates, &mut defs), None);
    assert_eq!(pre_register_generic_type(&prim("i32"), &subst, &templates, &mut defs), None);
}

fn tps(names: &[&str]) -> Vec<TypeParam> {
    names.iter().map(|n| TypeParam { name: n.to_string() }).collect()
}

#[test]
fn bindings_from_argument_types() {
    let params = tps(&["T"]);
    let mut subst: NameTable<MirType> = NameTable::new();
    extract_generic_bindings(&generic("list", vec![user("T")]), &MirType::List(Box::new(MirType::Str)), &params, &mut subst);
    assert_eq!(subst.get("T"), Some(&MirType::Str));
    extract_generic_bindings(&user("T"), &MirType::I64, &params, &mut subst);
    assert_eq!(subst.get("T"), Some(&MirType::Str));

    let mut s2: NameTable<MirType> = NameTable::new();
    extract_generic_bindings(
        &AstType::Optional { inner: Box::new(user("T")) },
        &tagged("Option__f64"),
        &params,
        &mut s2,
    );
    assert_eq!(s2.get("T"), Some(&MirType::F64));
    let mut s3: NameTable<MirType> = NameTable::new();
    extract_generic_bindings(
        &AstType::Optional { inner: Box::new(user("T")) },
        &MirType::Ptr(Box::new(MirType::Char)),
        &params,
        &mut s3,
    );
    assert_eq!(s3.get("T"), Some(&MirType::Char));
    let mut s4: NameTable<MirType> = NameTable::new();
    extract_generic_bindings(&user("X"), &MirType::I32, &params, &mut s4);
    assert_eq!(s4.get("X"), None);
}

#[test]
fn inferring_type_parameters_of_a_call() {
    let template = FunctionDecl {
        name: "first".to_string(),
        type_params: tps(&["T", "U"]),
        params: vec![
            Param { name: "xs".to_string(), type_: generic("list", vec![user("T")]) },
            Param { name: "y".to_string(), type_: user("U") },
            Param { name: "z".to_string(), type_: user("T") },
        ],
        return_type: Some(user("T")),
        body: None,
    };
    let subst = infer_function_type_params(&template, &[MirType::List(Box::new(MirType::I64)), MirType::Bool]);
    assert_eq!(subst.get("T"), Some(&MirType::I64));
    assert_eq!(subst.get("U"), Some(&MirType::Bool));
    let none = infer_function_type_params(&template, &[]);
    assert!(!none.contains_key("T"));
}

#[test]
fn annotations_of_parameters() {
    assert_eq!(param_type_from_annotation(&Some(prim("bool"))), Some(MirType::I32));
    assert_eq!(param_type_from_annotation(&Some(user("str"))), Some(MirType::Str));
    assert_eq!(param_type_from_annotation(&Some(prim("f64"))), Some(MirType::F64));
    assert_eq!(param_type_from_annotation(&Some(prim("u8"))), None);
    assert_eq!(param_type_from_annotation(&Some(generic("list", vec![]))), None);
    assert_eq!(param_type_from_annotation(&None), None);
}

#[test]
fn references_to_type_parameters() {
    assert!(is_type_ref(&user("T"), "T"));
    assert!(is_type_ref(&generic("Map", vec![prim("str"), generic("list", vec![user("T")])]), "T"));
    assert!(is_type_ref(&generic("T", vec![]), "T"));
    assert!(!is_type_ref(&AstType::Optional { inner: Box::new(user("T")) }, "T"));
    assert!(!is_type_ref(&generic("list", vec![user("U")]), "T"));
}

#[test]
fn mir_types_written_as_annotations() {
    let t = MirType::Dict(Box::new(MirType::Str), Box::new(MirType::List(Box::new(MirType::I1))));
    let ast = mir_type_to_ast_type(&t);
    match &ast {
        AstType::Dict { key, value } => {
            assert!(matches!(key.as_ref(), AstType::Primitive { name } if name == "str"));
            match value.as_ref() {
                AstType::Generic { name, args } => {
                    assert_eq!(name, "list");
                    assert!(matches!(&args[0], AstType::Primitive { name } if name == "bool"));
                }
                other => panic!("unexpected {:?}", other),
            }
        }
        other => panic!("unexpected {:?}", other),
    }
    assert!(matches!(
        mir_type_to_ast_type(&MirType::Ptr(Box::new(MirType::I8))),
        AstType::User { name } if name == "ptr"
    ));
    assert!(matches!(
        mir_type_to_ast_type(&MirType::Struct("P".to_string(), vec![])),
        AstType::User { name } if name == "P"
    ));
}

#[test]
fn annotation_round_trip_law() {
    let aliases = no_aliases();
    let types = vec![
        MirType::U64,
        MirType::Void,
        MirType::List(Box::new(MirType::Dict(Box::new(MirType::Str), Box::new(MirType::F32)))),
        MirType::Box(Box::new(MirType::SetOf(Box::new(MirType::Char)))),
        MirType::Array(Box::new(MirType::Deque(Box::new(MirType::Bytes))), 7),
        MirType::Chan(Box::new(MirType::Slice(Box::new(MirType::I16)))),
    ];
    for t in types {
        let ast = mir_type_to_ast_type(&t);
        assert_eq!(ast_type_to_mir(&ast, None, &aliases), t);
    }
}

#[test]
fn substituting_annotations() {
    let mut subst: NameTable<AstType> = NameTable::new();
    subst.insert("T".to_string(), prim("i64"));
    let f = AstType::FnPtr {
        params: vec![user("T"), generic("list", vec![user("T"), prim("T")])],
        return_: Box::new(AstType::Optional { inner: Box::new(user("U")) }),
    };
    let g = substitute_ast_type(&f, &subst);
    let aliases = no_aliases();
    match &g {
        AstType::FnPtr { params, return_ } => {
            assert!(matches!(&params[0], AstType::Primitive { name } if name == "i64"));
            assert_eq!(
                ast_type_to_mir(&params[1], None, &aliases),
                MirType::List(Box::new(MirType::I64))
            );
            match &params[1] {
                AstType::Generic { args, .. } => {
                    assert!(matches!(&args[1], AstType::Primitive { name } if name == "i64"));
                }
                other => panic!("unexpected {:?}", other),
            }
            assert_eq!(ast_type_to_mir(return_, None, &aliases), tagged("Option__U"));
        }
        other => panic!("unexpected {:?}", other),
    }
}

#[test]
fn specialize_then_lower_law() {
    let aliases = no_aliases();
    let mut mir_subst: NameTable<MirType> = NameTable::new();
    mir_subst.insert("T".to_string(), MirType::List(Box::new(MirType::Str)));
    mir_subst.insert("U".to_string(), MirType::U8);
    let mut ast_subst: NameTable<AstType> = NameTable::new();
    ast_subst.insert("T".to_string(), mir_type_to_ast_type(&MirType::List(Box::new(MirType::Str))));
    ast_subst.insert("U".to_string(), mir_type_to_ast_type(&MirType::U8));
    let annotations = vec![
        user("T"),
        generic("tuple", vec![user("T"), prim("U"), prim("bool")]),
        AstType::Dict { key: Box::new(user("U")), value: Box::new(generic("Pair", vec![user("T"), user("V")])) },
        generic("Option", vec![user("U")]),
        AstType::Optional { inner: Box::new(generic("box", vec![user("T")])) },
    ];
    for a in annotations {
        let specialized = substitute_ast_type(&a, &ast_subst);
        assert_eq!(
            ast_type_to_mir(&specialized, None, &aliases),
            ast_type_to_mir_with_subst(&a, None, &mir_subst)
        );
    }
}

#[test]
fn substituting_nothing_changes_nothing_law() {
    let empty: NameTable<AstType> = NameTable::new();
    let mut other: NameTable<AstType> = NameTable::new();
    other.insert("Z".to_string(), prim("i64"));
    let aliases = no_aliases();
    let a = AstType::Dict {
        key: Box::new(generic("Pair", vec![user("T"), prim("i8")])),
        value: Box::new(AstType::Array { inner: Box::new(user("P")), size: 3 }),
    };
    for subst in [&empty, &other] {
        let b = substitute_ast_type(&a, subst);
        assert_eq!(format!("{:?}", b), format!("{:?}", a));
        assert_eq!(ast_type_to_mir(&b, None, &aliases), ast_type_to_mir(&a, None, &aliases));
    }
}

#[test]
fn empty_substitution_agrees_with_plain_lowering_law() {
    let mut aliases: NameTable<AstType> = NameTable::new();
    aliases.insert("Id".to_string(), prim("i64"));
    let mut defs: NameTable<Vec<(String, MirType)>> = NameTable::new();
    defs.insert("Point".to_string(), point_fields());
    let empty: NameTable<MirType> = NameTable::new();
    let anns = vec![
        generic("list", vec![user("Point")]),
        generic("tuple", vec![prim("i32"), user("Q")]),
        AstType::Optional { inner: Box::new(user("str")) },
    ];
    for a in anns {
        assert_eq!(ast_type_to_mir_with_subst(&a, Some(&defs), &empty), ast_type_to_mir(&a, Some(&defs), &aliases));
    }
    // Where an alias is looked up, the two differ.
    assert_eq!(ast_type_to_mir(&user("Id"), Some(&defs), &aliases), MirType::I64);
    assert_eq!(
        ast_type_to_mir_with_subst(&user("Id"), Some(&defs), &empty),
        MirType::Struct("Id".to_string(), vec![])
    );
}
