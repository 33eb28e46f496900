use kyc_mir::ast::{
    AstType, BinaryOp, ClassDecl, ClassMember, Decl, Expr, FieldDecl, FunctionDecl, Literal,
    Program, UnaryOp,
};
use kyc_mir::lower::classes::{collect_class_fields, lookup_method_in_chain};
use kyc_mir::lower::closures::{
    collect_array_indices, contains_param, infer_closure_param_type, infer_expr_param_type,
    is_str_expr,
};
use kyc_mir::mir::MirType;
use kyc_mir::name_table::NameTable;

fn ident(name: &str) -> Expr {
    Expr::Identifier { name: name.to_string() }
}

fn string_lit(s: &str) -> Expr {
    Expr::Literal { value: Literal::String(s.to_string()) }
}

fn int_lit(n: i64) -> Expr {
    Expr::Literal { value: Literal::Integer(n) }
}

fn binary(left: Expr, operator: BinaryOp, right: Expr) -> Expr {
    Expr::Binary { left: Box::new(left), operator, right: Box::new(right) }
}

fn prop(object: Expr, property: &str) -> Expr {
    Expr::PropertyAccess { object: Box::new(object), property: property.to_string() }
}

fn call(target: Expr, arguments: Vec<Expr>) -> Expr {
    Expr::FunctionCall { target: Box::new(target), arguments }
}

fn ptr_to(name: &str) -> MirType {
    MirType::Ptr(Box::new(MirType::Struct(name.to_string(), vec![])))
}

#[test]
fn parameters_found_in_expressions() {
    assert!(contains_param("x", &binary(int_lit(1), BinaryOp::Mul, ident("x"))));
    assert!(contains_param("x", &call(prop(ident("x"), "len"), vec![])));
    assert!(contains_param("x", &call(ident("f"), vec![int_lit(1), ident("x")])));
    assert!(contains_param(
        "x",
        &Expr::Unary { operator: UnaryOp::Neg, operand: Box::new(ident("x")) }
    ));
    let cond_only = Expr::Ternary {
        condition: Box::new(ident("x")),
        then_expr: Box::new(int_lit(1)),
        else_expr: Box::new(int_lit(2)),
    };
    assert!(!contains_param("x", &cond_only));
    assert!(!contains_param("x", &Expr::Index { target: Box::new(ident("x")), index: Box::new(int_lit(0)) }));
    assert!(!contains_param("x", &ident("y")));
}

#[test]
fn string_shaped_expressions() {
    assert!(is_str_expr(&string_lit("a")));
    assert!(is_str_expr(&binary(ident("x"), BinaryOp::Add, string_lit("!"))));
    assert!(!is_str_expr(&binary(ident("x"), BinaryOp::Sub, string_lit("!"))));
    assert!(!is_str_expr(&int_lit(3)));
    let t = Expr::Ternary {
        condition: Box::new(ident("c")),
        then_expr: Box::new(int_lit(1)),
        else_expr: Box::new(string_lit("no")),
    };
    assert!(is_str_expr(&t));
}

#[test]
fn closure_parameter_types_from_uses() {
    let concat = binary(ident("s"), BinaryOp::Add, string_lit(" world"));
    assert_eq!(infer_expr_param_type("s", &concat), Some(MirType::Str));
    let concat_left = binary(string_lit("hi "), BinaryOp::Add, ident("s"));
    assert_eq!(infer_expr_param_type("s", &concat_left), Some(MirType::Str));
    assert_eq!(infer_expr_param_type("s", &binary(ident("s"), BinaryOp::Add, int_lit(1))), Some(MirType::I32));
    assert_eq!(infer_expr_param_type("s", &binary(ident("s"), BinaryOp::Lt, int_lit(1))), None);
    assert_eq!(infer_expr_param_type("s", &binary(int_lit(1), BinaryOp::Mod, ident("s"))), Some(MirType::I32));
    assert_eq!(infer_expr_param_type("s", &binary(ident("t"), BinaryOp::Mul, int_lit(1))), None);
    assert_eq!(infer_expr_param_type("res", &call(prop(ident("res"), "json"), vec![])), Some(ptr_to("Res")));
    assert_eq!(infer_expr_param_type("req", &call(prop(ident("req"), "header"), vec![])), Some(ptr_to("Request")));
    assert_eq!(infer_expr_param_type("req", &prop(ident("req"), "path")), Some(ptr_to("Request")));
    assert_eq!(infer_expr_param_type("r", &prop(ident("r"), "sent")), Some(ptr_to("Res")));
    assert_eq!(
        infer_expr_param_type("p", &prop(ident("p"), "name")),
        Some(MirType::Ptr(Box::new(MirType::I8)))
    );
    let nested = call(ident("log"), vec![int_lit(0), prop(ident("q"), "body")]);
    assert_eq!(infer_expr_param_type("q", &nested), Some(ptr_to("Request")));
    let unknown_method = call(prop(ident("q"), "frobnicate"), vec![prop(ident("q"), "fd")]);
    assert_eq!(infer_expr_param_type("q", &unknown_method), Some(ptr_to("Res")));
    assert_eq!(infer_closure_param_type("v", &binary(ident("v"), BinaryOp::Mul, int_lit(2))), MirType::I32);
    assert_eq!(
        infer_closure_param_type("v", &call(ident("f"), vec![ident("v")])),
        MirType::Ptr(Box::new(MirType::I8))
    );
    assert_eq!(infer_closure_param_type("s", &concat), MirType::Str);
}

#[test]
fn index_chains_of_nested_arrays() {
    let m_ij = Expr::Index {
        target: Box::new(Expr::Index { target: Box::new(ident("m")), index: Box::new(ident("i")) }),
        index: Box::new(ident("j")),
    };
    match collect_array_indices(&m_ij) {
        Some((root, idxs)) => {
            assert_eq!(root, "m");
            assert_eq!(idxs.len(), 2);
            assert!(matches!(idxs[0], Expr::Identifier { name } if name == "i"));
            assert!(matches!(idxs[1], Expr::Identifier { name } if name == "j"));
        }
        None => panic!("expected an index chain"),
    }
    match collect_array_indices(&ident("m")) {
        Some((root, idxs)) => {
            assert_eq!(root, "m");
            assert!(idxs.is_empty());
        }
        None => panic!("expected a root"),
    }
    let on_call = Expr::Index { target: Box::new(call(ident("f"), vec![])), index: Box::new(int_lit(0)) };
    assert!(collect_array_indices(&on_call).is_none());
}

fn methods(entries: &[(&str, &str)]) -> NameTable<String> {
    let mut t = NameTable::new();
    for (m, mangled) in entries {
        t.insert(m.to_string(), mangled.to_string());
    }
    t
}

#[test]
fn methods_resolve_along_the_inheritance_chain() {
    let mut table: NameTable<NameTable<String>> = NameTable::new();
    table.insert("Animal".to_string(), methods(&[("speak", "Animal::speak"), ("eat", "Animal::eat")]));
    table.insert("Dog".to_string(), methods(&[("speak", "Dog::speak")]));
    let mut parents: NameTable<Option<String>> = NameTable::new();
    parents.insert("Puppy".to_string(), Some("Dog".to_string()));
    parents.insert("Dog".to_string(), Some("Animal".to_string()));
    parents.insert("Animal".to_string(), None);
    assert_eq!(lookup_method_in_chain("Puppy", "speak", &table, &parents), Some("Dog::speak".to_string()));
    assert_eq!(lookup_method_in_chain("Puppy", "eat", &table, &parents), Some("Animal::eat".to_string()));
    assert_eq!(lookup_method_in_chain("Dog", "fly", &table, &parents), None);
    assert_eq!(lookup_method_in_chain("Cat", "speak", &table, &parents), None);
}

fn field(name: &str, t: &str) -> ClassMember {
    ClassMember::Field(FieldDecl { name: name.to_string(), type_: AstType::Primitive { name: t.to_string() } })
}

fn class(name: &str, parent: Option<&str>, members: Vec<ClassMember>) -> ClassDecl {
    ClassDecl { name: name.to_string(), parent: parent.map(|p| p.to_string()), members }
}

#[test]
fn class_fields_include_inherited_ones_first() {
    let method = ClassMember::Method(FunctionDecl {
        name: "speak".to_string(),
        type_params: vec![],
        params: vec![],
        return_type: None,
        body: None,
    });
    let program = Program {
        declarations: vec![
            Decl::Class(class("Animal", None, vec![field("age", "i32")])),
            Decl::Class(class("Dog", Some("Animal"), vec![field("name", "str"), method])),
        ],
    };
    let puppy = class("Puppy", Some("Dog"), vec![field("toy", "bool")]);
    let defs: NameTable<Vec<(String, MirType)>> = NameTable::new();
    let aliases: NameTable<AstType> = NameTable::new();
    assert_eq!(
        collect_class_fields(&puppy, &program, &defs, &aliases),
        vec![
            ("age".to_string(), MirType::I32),
            ("name".to_string(), MirType::Str),
            ("toy".to_string(), MirType::Bool),
        ]
    );
    let mut known: NameTable<Vec<(String, MirType)>> = NameTable::new();
    known.insert("Dog".to_string(), vec![("legs".to_string(), MirType::I64)]);
    assert_eq!(
        collect_class_fields(&puppy, &program, &known, &aliases),
        vec![("legs".to_string(), MirType::I64), ("toy".to_string(), MirType::Bool)]
    );
    let orphan = class("Orphan", Some("Missing"), vec![field("x", "u8")]);
    assert_eq!(
        collect_class_fields(&orphan, &program, &defs, &aliases),
        vec![("x".to_string(), MirType::U8)]
    );
}
