use kyc_mir::ast::Literal;
use kyc_mir::lower::builtins::{builtin_return_type, is_string_builtin_name};
use kyc_mir::lower::helpers::{is_int_type, literal_to_mir, wider_int_type, wider_type};
use kyc_mir::lower::types::{
    build_descriptor, extract_inner_type, extract_struct_inner, make_concrete_name,
    mir_type_to_kind, mir_type_to_size, mir_type_to_string, mir_type_to_type_name,
};
use kyc_mir::mir::{MirBinaryOp, MirConstant, MirType, MirUnaryOp};

fn list(t: MirType) -> MirType {
    MirType::List(Box::new(t))
}

fn tagged(name: &str) -> MirType {
    MirType::Struct(
        name.to_string(),
        vec![("disc".to_string(), MirType::I32), ("payload".to_string(), MirType::I64)],
    )
}

#[test]
fn literal_integers_pick_their_width() {
    assert_eq!(literal_to_mir(&Literal::Integer(42)), (MirType::I32, MirConstant::I32(42)));
    assert_eq!(
        literal_to_mir(&Literal::Integer(-2147483648)),
        (MirType::I32, MirConstant::I32(-2147483648))
    );
    assert_eq!(
        literal_to_mir(&Literal::Integer(2147483648)),
        (MirType::I64, MirConstant::I64(2147483648))
    );
}

#[test]
fn literal_other_kinds() {
    let bits = 1.5f64.to_bits();
    assert_eq!(literal_to_mir(&Literal::Float(bits)), (MirType::F64, MirConstant::F64(bits)));
    assert_eq!(
        literal_to_mir(&Literal::String("hi".to_string())),
        (MirType::Str, MirConstant::String("hi".to_string()))
    );
    assert_eq!(literal_to_mir(&Literal::Boolean(true)), (MirType::Bool, MirConstant::Bool(true)));
    assert_eq!(literal_to_mir(&Literal::Char(97)), (MirType::Char, MirConstant::I32(97)));
    assert_eq!(literal_to_mir(&Literal::NoneValue), (MirType::I32, MirConstant::Void));
    assert_eq!(
        literal_to_mir(&Literal::Null),
        (MirType::Ptr(Box::new(MirType::Void)), MirConstant::Null)
    );
}

#[test]
fn int_types_are_recognised() {
    assert!(is_int_type(&MirType::I1));
    assert!(is_int_type(&MirType::U64));
    assert!(is_int_type(&MirType::Char));
    assert!(is_int_type(&MirType::Bool));
    assert!(!is_int_type(&MirType::F32));
    assert!(!is_int_type(&MirType::Str));
}

#[test]
fn widening_prefers_floats_then_bits() {
    assert_eq!(wider_type(&MirType::I32, &MirType::F64), MirType::F64);
    assert_eq!(wider_type(&MirType::F32, &MirType::I64), MirType::F32);
    assert_eq!(wider_type(&MirType::F32, &MirType::F64), MirType::F64);
    assert_eq!(wider_type(&MirType::I8, &MirType::I64), MirType::I64);
    assert_eq!(wider_type(&MirType::U32, &MirType::I32), MirType::U32);
    assert_eq!(wider_type(&MirType::I32, &MirType::U32), MirType::I32);
    assert_eq!(wider_int_type(&MirType::Str, &MirType::I16), MirType::I32);
    assert_eq!(wider_int_type(&MirType::Bool, &MirType::Str), MirType::I32);
    assert_eq!(wider_int_type(&MirType::I64, &MirType::F32), MirType::I32);
    assert_eq!(wider_int_type(&list(MirType::I8), &list(MirType::I8)), MirType::I32);
    assert_eq!(wider_type(&MirType::Str, &MirType::I16), MirType::I32);
    assert_eq!(wider_type(&list(MirType::I8), &list(MirType::I8)), list(MirType::I8));
}

#[test]
fn widest_of_two_integers_law() {
    let pairs = [
        (MirType::I8, MirType::I16),
        (MirType::U64, MirType::I1),
        (MirType::Char, MirType::U8),
    ];
    let width = |t: &MirType| match t {
        MirType::I1 | MirType::Bool => 1,
        MirType::I8 | MirType::U8 | MirType::Char => 8,
        MirType::I16 | MirType::U16 => 16,
        MirType::I32 | MirType::U32 => 32,
        MirType::I64 | MirType::U64 => 64,
        _ => 32,
    };
    for (a, b) in pairs.iter() {
        let w = wider_int_type(a, b);
        assert!(w == *a || w == *b);
        assert!(width(&w) >= width(a) && width(&w) >= width(b));
    }
}

#[test]
fn type_names_for_typeinfo() {
    assert_eq!(mir_type_to_type_name(&MirType::I1), "i1");
    assert_eq!(mir_type_to_type_name(&list(MirType::I32)), "list<i32>");
    assert_eq!(
        mir_type_to_type_name(&MirType::Dict(Box::new(MirType::Str), Box::new(MirType::I64))),
        "dict<str,i64>"
    );
    assert_eq!(mir_type_to_type_name(&MirType::Struct("Point".to_string(), vec![])), "Point");
    assert_eq!(mir_type_to_type_name(&MirType::Array(Box::new(MirType::U8), 4)), "[u8]");
    assert_eq!(mir_type_to_type_name(&MirType::Slice(Box::new(MirType::Char))), "&[char]");
    assert_eq!(mir_type_to_type_name(&MirType::Ptr(Box::new(MirType::I8))), "ptr");
    assert_eq!(
        mir_type_to_type_name(&MirType::LinkedList(Box::new(MirType::Bool))),
        "linked_list<bool>"
    );
}

#[test]
fn type_kinds_for_typeinfo() {
    assert_eq!(mir_type_to_kind(&MirType::F64), "primitive");
    assert_eq!(mir_type_to_kind(&MirType::Str), "primitive");
    assert_eq!(mir_type_to_kind(&MirType::Void), "primitive");
    assert_eq!(mir_type_to_kind(&list(MirType::I32)), "list");
    assert_eq!(mir_type_to_kind(&MirType::Struct("P".to_string(), vec![])), "struct");
    assert_eq!(mir_type_to_kind(&MirType::Bytes), "bytes");
    assert_eq!(mir_type_to_kind(&MirType::Array(Box::new(MirType::I32), 3)), "array");
}

#[test]
fn type_sizes_for_typeinfo() {
    assert_eq!(mir_type_to_size(&MirType::I16), 2);
    assert_eq!(mir_type_to_size(&MirType::Void), 0);
    assert_eq!(mir_type_to_size(&MirType::Str), 8);
    assert_eq!(mir_type_to_size(&MirType::Slice(Box::new(MirType::I8))), 16);
    assert_eq!(mir_type_to_size(&MirType::Array(Box::new(MirType::I32), 100)), 32);
    let s = MirType::Struct(
        "S".to_string(),
        vec![
            ("a".to_string(), MirType::I32),
            ("b".to_string(), MirType::I64),
            ("c".to_string(), MirType::Bool),
        ],
    );
    assert_eq!(mir_type_to_size(&s), 13);
    assert_eq!(mir_type_to_size(&MirType::Struct("E".to_string(), vec![])), 0);
}

#[test]
fn mangled_names_of_concrete_instances() {
    assert_eq!(mir_type_to_string(&list(MirType::Str)), "list_str");
    assert_eq!(
        mir_type_to_string(&MirType::Dict(Box::new(MirType::Str), Box::new(MirType::I64))),
        "dict_str_i64"
    );
    assert_eq!(mir_type_to_string(&MirType::LinkedList(Box::new(MirType::I8))), "llist_i8");
    assert_eq!(make_concrete_name("Pair", &[MirType::I32, MirType::Str]), "Pair__i32_str");
    assert_eq!(make_concrete_name("Pair", &[]), "Pair");
    assert_eq!(make_concrete_name("Option", &[list(MirType::I64)]), "Option__list_i64");
}

#[test]
fn descriptors_name_each_field() {
    let fields = vec![
        ("a".to_string(), MirType::I32),
        ("b".to_string(), MirType::Str),
        ("c".to_string(), list(MirType::I32)),
        ("d".to_string(), MirType::F64),
    ];
    assert_eq!(build_descriptor(&fields), "a:i32,b:str,c:i32,d:f64");
    assert_eq!(build_descriptor(&[]), "");
}

#[test]
fn option_payloads_from_struct_names() {
    assert_eq!(extract_inner_type("Option__i64"), MirType::I64);
    assert_eq!(extract_inner_type("Option__int"), MirType::I32);
    assert_eq!(extract_inner_type("Option__void"), MirType::Void);
    assert_eq!(extract_inner_type("Option__Point"), MirType::I32);
    assert_eq!(extract_inner_type("Point"), MirType::I32);
    assert_eq!(extract_struct_inner("Option__str"), MirType::Str);
}

#[test]
fn option_name_round_trip_law() {
    for t in [MirType::I8, MirType::U16, MirType::F32, MirType::Bool, MirType::Char, MirType::Str, MirType::Void] {
        let name = make_concrete_name("Option", &[t.clone()]);
        assert_eq!(extract_inner_type(&name), t);
    }
}

#[test]
fn builtins_returning_strings() {
    assert!(is_string_builtin_name("ky_concat"));
    assert!(is_string_builtin_name("trim"));
    assert!(is_string_builtin_name("input_with_prompt"));
    assert!(!is_string_builtin_name("print"));
    assert!(!is_string_builtin_name("ky_len"));
}

#[test]
fn builtin_return_types() {
    assert_eq!(builtin_return_type("println"), Some(MirType::Void));
    assert_eq!(builtin_return_type("char_at"), Some(MirType::Char));
    assert_eq!(builtin_return_type("list_new"), Some(list(MirType::I32)));
    assert_eq!(
        builtin_return_type("json_parse"),
        Some(MirType::Dict(Box::new(MirType::Str), Box::new(MirType::I64)))
    );
    assert_eq!(builtin_return_type("ok"), Some(tagged("Result")));
    assert_eq!(builtin_return_type("ky_set_union"), Some(MirType::SetOf(Box::new(MirType::I64))));
    assert_eq!(builtin_return_type("ky_queue_to_stack"), Some(MirType::Stack(Box::new(MirType::I64))));
    assert_eq!(builtin_return_type("ky_bytes_from_hex"), Some(MirType::Bytes));
    assert_eq!(builtin_return_type("floor"), Some(MirType::F64));
    assert_eq!(builtin_return_type("box"), None);
    assert_eq!(builtin_return_type("my_function"), None);
    assert_eq!(
        builtin_return_type("type"),
        Some(MirType::Struct(
            "TypeInfo".to_string(),
            vec![
                ("name".to_string(), MirType::Str),
                ("kind".to_string(), MirType::Str),
                ("size".to_string(), MirType::I32),
            ],
        ))
    );
}

#[test]
fn types_and_operators_as_text() {
    let s = MirType::Struct(
        "P".to_string(),
        vec![("x".to_string(), MirType::I32), ("y".to_string(), list(MirType::Str))],
    );
    assert_eq!(s.to_text(), "P { x: i32, y: list<str> }");
    assert_eq!(MirType::Struct("E".to_string(), vec![]).to_text(), "E {  }");
    assert_eq!(MirType::Ptr(Box::new(MirType::I8)).to_text(), "i8*");
    assert_eq!(MirType::Array(Box::new(MirType::I64), 12).to_text(), "[i64; 12]");
    assert_eq!(
        MirType::Dict(Box::new(MirType::Str), Box::new(MirType::Bool)).to_text(),
        "dict<str, bool>"
    );
    assert_eq!(MirType::Slice(Box::new(MirType::U8)).to_text(), "&[u8]");
    assert_eq!(MirBinaryOp::Shl.to_text(), "shl");
    assert_eq!(MirBinaryOp::Neq.to_text(), "neq");
    assert_eq!(MirUnaryOp::BitNot.to_text(), "bitnot");
}
