use kyc_mir::ast::{AstType, Block, ElifBranch, Expr, FunctionDecl, Literal, MatchArm, Param, Stmt, TypeParam, VarDecl};
use kyc_mir::lower::generics::{clone_and_specialize_function, infer_class_type_subst, substitute_stmt_types};
use kyc_mir::ast::{FieldDecl, StructDecl};
use kyc_mir::lower::resolve::{ast_type_to_mir, ast_type_to_mir_with_subst};
use kyc_mir::mir::MirType;
use kyc_mir::name_table::NameTable;

fn user(name: &str) -> AstType {
    AstType::User { name: name.to_string() }
}

fn prim(name: &str) -> AstType {
    AstType::Primitive { name: name.to_string() }
}

fn var(name: &str, t: Option<AstType>) -> Stmt {
    Stmt::Variable(VarDecl { name: name.to_string(), type_: t, value: Some(Expr::Literal { value: Literal::Integer(1) }) })
}

fn block(statements: Vec<Stmt>) -> Block {
    Block { statements }
}

fn declared_type(s: &Stmt) -> Option<&AstType> {
    match s {
        Stmt::Variable(v) | Stmt::TypedVariable(v) => v.type_.as_ref(),
        _ => None,
    }
}

fn is_prim(t: Option<&AstType>, name: &str) -> bool {
    matches!(t, Some(AstType::Primitive { name: n }) if n == name)
}

fn subst_t_i64() -> NameTable<AstType> {
    let mut s = NameTable::new();
    s.insert("T".to_string(), prim("i64"));
    s
}

#[test]
fn declarations_in_nested_blocks_are_specialized() {
    let subst = subst_t_i64();
    let mut stmt = Stmt::If {
        condition: Expr::Identifier { name: "c".to_string() },
        body: block(vec![var("a", Some(user("T"))), var("b", None)]),
        elif_branches: vec![ElifBranch {
            condition: Expr::Opaque,
            body: block(vec![Stmt::While {
                condition: Expr::Opaque,
                body: block(vec![var("c", Some(user("T")))]),
                else_branch: None,
            }]),
        }],
        else_branch: Some(block(vec![Stmt::TypedVariable(VarDecl {
            name: "d".to_string(),
            type_: Some(user("U")),
            value: None,
        })])),
    };
    substitute_stmt_types(&mut stmt, &subst);
    match &stmt {
        Stmt::If { condition, body, elif_branches, else_branch } => {
            assert!(matches!(condition, Expr::Identifier { name } if name == "c"));
            assert!(is_prim(declared_type(&body.statements[0]), "i64"));
            assert!(declared_type(&body.statements[1]).is_none());
            match &elif_branches[0].body.statements[0] {
                Stmt::While { body, .. } => assert!(is_prim(declared_type(&body.statements[0]), "i64")),
                other => panic!("unexpected {:?}", other),
            }
            let els = else_branch.as_ref().unwrap();
            assert!(matches!(declared_type(&els.statements[0]), Some(AstType::User { name }) if name == "U"));
        }
        other => panic!("unexpected {:?}", other),
    }
}

#[test]
fn match_arms_and_other_statements() {
    let subst = subst_t_i64();
    let mut m = Stmt::Match {
        subject: Expr::Opaque,
        arms: vec![
            MatchArm { pattern: Expr::Opaque, body: block(vec![var("x", Some(user("T")))]) },
            MatchArm { pattern: Expr::Opaque, body: block(vec![Stmt::Return(None)]) },
        ],
    };
    substitute_stmt_types(&mut m, &subst);
    match &m {
        Stmt::Match { arms, .. } => {
            assert!(is_prim(declared_type(&arms[0].body.statements[0]), "i64"));
            assert!(matches!(arms[1].body.statements[0], Stmt::Return(None)));
        }
        other => panic!("unexpected {:?}", other),
    }
    let mut e = Stmt::Expression(Expr::Identifier { name: "T".to_string() });
    substitute_stmt_types(&mut e, &subst);
    assert!(matches!(e, Stmt::Expression(Expr::Identifier { name }) if name == "T"));
}

#[test]
fn specializing_a_generic_function() {
    let template = FunctionDecl {
        name: "first".to_string(),
        type_params: vec![TypeParam { name: "T".to_string() }],
        params: vec![Param {
            name: "xs".to_string(),
            type_: AstType::Generic { name: "list".to_string(), args: vec![user("T")] },
        }],
        return_type: Some(AstType::Optional { inner: Box::new(user("T")) }),
        body: Some(block(vec![
            var("x", Some(user("T"))),
            Stmt::Unsafe { body: block(vec![var("y", Some(user("T")))]) },
        ])),
    };
    let mut type_subst: NameTable<MirType> = NameTable::new();
    type_subst.insert("T".to_string(), MirType::Str);
    let f = clone_and_specialize_function(&template, &type_subst);
    assert_eq!(f.name, "first");
    assert_eq!(f.type_params.len(), 1);
    assert_eq!(f.type_params[0].name, "T");
    assert_eq!(f.params[0].name, "xs");
    let aliases: NameTable<AstType> = NameTable::new();
    assert_eq!(ast_type_to_mir(&f.params[0].type_, None, &aliases), MirType::List(Box::new(MirType::Str)));
    let body = f.body.as_ref().unwrap();
    assert!(is_prim(declared_type(&body.statements[0]), "str"));
    match &body.statements[1] {
        Stmt::Unsafe { body } => assert!(is_prim(declared_type(&body.statements[0]), "str")),
        other => panic!("unexpected {:?}", other),
    }
    // The specialized signature lowers as the template does with T bound.
    let ret = f.return_type.as_ref().unwrap();
    let template_ret = template.return_type.as_ref().unwrap();
    assert_eq!(
        ast_type_to_mir(ret, None, &aliases),
        ast_type_to_mir_with_subst(template_ret, None, &type_subst)
    );
    assert_eq!(
        ast_type_to_mir(&f.params[0].type_, None, &aliases),
        ast_type_to_mir_with_subst(&template.params[0].type_, None, &type_subst)
    );
    // The template itself is unchanged.
    assert!(matches!(declared_type(&template.body.as_ref().unwrap().statements[0]), Some(AstType::User { name }) if name == "T"));
}

#[test]
fn a_concrete_instance_binds_type_parameters_through_its_fields() {
    let user = |n: &str| AstType::User { name: n.to_string() };
    let tpl = StructDecl {
        name: "Pair".to_string(),
        type_params: vec![TypeParam { name: "K".to_string() }, TypeParam { name: "V".to_string() }],
        fields: vec![
            FieldDecl { name: "key".to_string(), type_: user("K") },
            FieldDecl { name: "value".to_string(), type_: user("V") },
            FieldDecl { name: "other".to_string(), type_: user("K") },
            FieldDecl { name: "count".to_string(), type_: user("Count") },
            FieldDecl { name: "items".to_string(), type_: AstType::List { inner: Box::new(user("V")) } },
        ],
    };
    let concrete = vec![
        ("key".to_string(), MirType::Str),
        ("value".to_string(), MirType::I64),
        ("other".to_string(), MirType::Bool),
        ("count".to_string(), MirType::I32),
        ("items".to_string(), MirType::List(Box::new(MirType::I64))),
    ];
    let subst = infer_class_type_subst(&tpl, &concrete);
    assert_eq!(subst.get("K"), Some(&MirType::Str));
    assert_eq!(subst.get("V"), Some(&MirType::I64));
    assert_eq!(subst.get("Count"), None);
    assert_eq!(subst.entries().len(), 2);
}

#[test]
fn a_field_missing_from_the_instance_binds_nothing() {
    let tpl = StructDecl {
        name: "Box".to_string(),
        type_params: vec![TypeParam { name: "T".to_string() }],
        fields: vec![FieldDecl { name: "inner".to_string(), type_: AstType::User { name: "T".to_string() } }],
    };
    let subst = infer_class_type_subst(&tpl, &vec![("value".to_string(), MirType::I32)]);
    assert_eq!(subst.get("T"), None);
}
