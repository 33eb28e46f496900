//! Type parameters of generic functions: which annotations mention them,
//! which concrete types they are bound to at a call, and annotations with
//! the parameters replaced by concrete types.
use vstd::prelude::*;
use crate::ast::{
    AstModel, AstType, FieldDecl, FunctionDecl, Param, StructDecl, TypeParam, asts_model, copy_ast, lemma_asts_model_index,
    lemma_asts_model_len, lemma_asts_model_step,
};
use crate::lower::types::{extract_struct_inner, option_inner};
use crate::mir::{MirType, TypeModel, copy_type, models};
use crate::ast::{
    Block, ElifBranch, FnModel, copy_block, copy_type_params, fn_model, ExprModel, MatchArm, Stmt, StmtModel, VarDecl, VarModel, arms_model, block_model,
    elifs_model, lemma_stmts_model_index, lemma_stmts_model_len, opt_block_model, stmts_model, var_model,
};
use crate::name_table::{NameTable, entries_map};
use crate::lower::resolve::subst_view;
use crate::text::{has_prefix, starts_with, str_eq};

verus! {

/// The MIR type that a parameter annotation fixes by itself: `str`,
/// `i32`, `i64` and `f64` by name, and `bool` as `i32`.
pub open spec fn annotation_type(ann: Option<AstModel>) -> Option<TypeModel> {
    match ann {
        Some(AstModel::Primitive(name)) => named_param_type(name),
        Some(AstModel::User(name)) => named_param_type(name),
        _ => None,
    }
}

/// The parameter type a plain type name fixes.
pub open spec fn named_param_type(name: Seq<char>) -> Option<TypeModel> {
    if name == "str"@ {
        Some(TypeModel::Str)
    } else if name == "i32"@ {
        Some(TypeModel::I32)
    } else if name == "i64"@ {
        Some(TypeModel::I64)
    } else if name == "f64"@ {
        Some(TypeModel::F64)
    } else if name == "bool"@ {
        Some(TypeModel::I32)
    } else {
        None
    }
}

fn named_param(name: &str) -> (r: Option<MirType>)
    ensures
        r is Some == named_param_type(name@) is Some,
        r is Some ==> r->0@ == named_param_type(name@)->0,
{
    if str_eq(name, "str") {
        Some(MirType::Str)
    } else if str_eq(name, "i32") {
        Some(MirType::I32)
    } else if str_eq(name, "i64") {
        Some(MirType::I64)
    } else if str_eq(name, "f64") {
        Some(MirType::F64)
    } else if str_eq(name, "bool") {
        Some(MirType::I32)
    } else {
        None
    }
}

/// The model of an optional annotation.
pub open spec fn opt_ast_model(ann: Option<AstType>) -> Option<AstModel> {
    match ann {
        Some(a) => Some(a@),
        None => None,
    }
}

/// Convert an optional AstType annotation to a MirType.
pub fn param_type_from_annotation(ann: &Option<AstType>) -> (r: Option<MirType>)
    ensures
        r is Some == annotation_type(opt_ast_model(*ann)) is Some,
        r is Some ==> r->0@ == annotation_type(opt_ast_model(*ann))->0,
{
    match ann {
        Some(AstType::Primitive { name }) => named_param(name.as_str()),
        Some(AstType::User { name }) => named_param(name.as_str()),
        _ => None,
    }
}

/// Whether an annotation mentions the type parameter `tp`: as its name,
/// or, for a generic application, as its name or within an argument.
pub open spec fn type_ref(a: AstModel, tp: Seq<char>) -> bool
    decreases a,
{
    match a {
        AstModel::User(name) => name == tp,
        AstModel::Primitive(name) => name == tp,
        AstModel::Generic(name, args) => name == tp || any_type_ref(args, tp),
        _ => false,
    }
}

/// Whether one of the annotations mentions the type parameter `tp`.
pub open spec fn any_type_ref(args: Seq<AstModel>, tp: Seq<char>) -> bool
    decreases args,
{
    if args.len() == 0 {
        false
    } else {
        any_type_ref(args.drop_last(), tp) || type_ref(args[args.len() - 1], tp)
    }
}

/// Check if an AstType references a specific type param name (e.g., `T`
/// in `first: T`).
pub fn is_type_ref(ast: &AstType, tp_name: &str) -> (r: bool)
    ensures
        r == type_ref(ast@, tp_name@),
    decreases ast,
{
    match ast {
        AstType::User { name } => str_eq(name.as_str(), tp_name),
        AstType::Primitive { name } => str_eq(name.as_str(), tp_name),
        AstType::Generic { name, args } => {
            if str_eq(name.as_str(), tp_name) {
                return true;
            }
            let ghost am = asts_model(args@);
            proof {
                lemma_asts_model_len(args@);
                assert(decreases_to!(*ast => (*ast)->Generic_args));
            }
            let mut i: usize = 0;
            while i < args.len()
                invariant
                    *ast == (AstType::Generic { name: *name, args: *args }),
                    i <= args@.len(),
                    am == asts_model(args@),
                    am.len() == args@.len(),
                    !any_type_ref(am.take(i as int), tp_name@),
                decreases args@.len() - i,
            {
                proof {
                    assert(decreases_to!(*ast => (*ast)->Generic_args));
                    assert(decreases_to!(*args => args@));
                    assert(decreases_to!(args@ => args@[i as int]));
                    lemma_asts_model_index(args@, i as int);
                    assert(am.take(i + 1).drop_last() =~= am.take(i as int));
                }
                if is_type_ref(&args[i], tp_name) {
                    proof {
                        lemma_any_type_ref_prefix(am, i + 1, tp_name@);
                    }
                    return true;
                }
                i = i + 1;
            }
            assert(am.take(i as int) =~= am);
            false
        },
        _ => false,
    }
}

/// A mention within a prefix is a mention within the whole list.
proof fn lemma_any_type_ref_prefix(args: Seq<AstModel>, k: int, tp: Seq<char>)
    requires
        0 <= k <= args.len(),
        any_type_ref(args.take(k), tp),
    ensures
        any_type_ref(args, tp),
    decreases args.len(),
{
    if k == args.len() {
        assert(args.take(k) =~= args);
    } else {
        assert(args.drop_last().take(k) =~= args.take(k));
        lemma_any_type_ref_prefix(args.drop_last(), k, tp);
    }
}

/// The type of the first field called `name`, if any.
pub open spec fn field_type_named(fields: Seq<(String, MirType)>, name: Seq<char>) -> Option<TypeModel>
    decreases fields.len(),
{
    if fields.len() == 0 {
        None
    } else if fields[0].0@ == name {
        Some(fields[0].1@)
    } else {
        field_type_named(fields.drop_first(), name)
    }
}

/// Whether `name` is one of the type parameters.
pub open spec fn is_type_param(tps: Seq<TypeParam>, name: Seq<char>) -> bool {
    exists|i: int| 0 <= i < tps.len() && #[trigger] tps[i].name@ == name
}

/// The substitution that the fields of a concrete instance of a generic
/// struct give its type parameters: a template field whose type is
/// exactly a type parameter binds that parameter to the type of the
/// concrete field of the same name; the first such field wins.
pub open spec fn class_subst(
    fields: Seq<FieldDecl>,
    tps: Seq<TypeParam>,
    concrete: Seq<(String, MirType)>,
) -> Map<Seq<char>, TypeModel>
    decreases fields.len(),
{
    if fields.len() == 0 {
        Map::empty()
    } else {
        let prev = class_subst(fields.drop_last(), tps, concrete);
        let tf = fields.last();
        match tf.type_ {
            AstType::User { name } => match field_type_named(concrete, tf.name@) {
                Some(t) => if is_type_param(tps, name@) && !prev.contains_key(name@) {
                    prev.insert(name@, t)
                } else {
                    prev
                },
                None => prev,
            },
            _ => prev,
        }
    }
}

/// The type of the first field called `name`, if any.
fn find_field_type<'a>(fields: &'a Vec<(String, MirType)>, name: &str) -> (r: Option<&'a MirType>)
    ensures
        match r {
            Some(t) => field_type_named(fields@, name@) == Some(t@),
            None => field_type_named(fields@, name@) is None,
        },
{
    let mut i: usize = 0;
    assert(fields@.skip(0) =~= fields@);
    while i < fields.len()
        invariant
            i <= fields@.len(),
            field_type_named(fields@, name@) == field_type_named(fields@.skip(i as int), name@),
        decreases fields@.len() - i,
    {
        let ghost rest = fields@.skip(i as int);
        assert(rest[0] == fields@[i as int]);
        if str_eq(fields[i].0.as_str(), name) {
            return Some(&fields[i].1);
        }
        assert(rest.drop_first() =~= fields@.skip(i + 1));
        i = i + 1;
    }
    assert(fields@.skip(i as int).len() == 0);
    None
}

/// Whether `name` is one of the type parameters.
fn has_type_param(tps: &Vec<TypeParam>, name: &str) -> (r: bool)
    ensures
        r == is_type_param(tps@, name@),
{
    let mut i: usize = 0;
    while i < tps.len()
        invariant
            i <= tps@.len(),
            forall|j: int| 0 <= j < i ==> tps@[j].name@ != name@,
        decreases tps@.len() - i,
    {
        if str_eq(tps[i].name.as_str(), name) {
            return true;
        }
        i = i + 1;
    }
    false
}

/// Infer the type substitution of a concrete instance of a generic struct
/// from its fields: each template field declared with a bare type
/// parameter binds that parameter to the type of the concrete field of the
/// same name, the first binding of a parameter winning.
pub fn infer_class_type_subst(tpl: &StructDecl, concrete_fields: &Vec<(String, MirType)>) -> (r: NameTable<MirType>)
    ensures
        r@.map_values(|t: MirType| t@) == class_subst(tpl.fields@, tpl.type_params@, concrete_fields@),
{
    let mut subst: NameTable<MirType> = NameTable::new();
    let mut i: usize = 0;
    assert(subst@.map_values(|t: MirType| t@) =~= class_subst(tpl.fields@.take(0), tpl.type_params@, concrete_fields@));
    while i < tpl.fields.len()
        invariant
            i <= tpl.fields@.len(),
            subst@.map_values(|t: MirType| t@) == class_subst(tpl.fields@.take(i as int), tpl.type_params@, concrete_fields@),
        decreases tpl.fields@.len() - i,
    {
        let ghost prev = subst@;
        proof {
            assert(tpl.fields@.take(i + 1).drop_last() =~= tpl.fields@.take(i as int));
            assert(tpl.fields@.take(i + 1).last() == tpl.fields@[i as int]);
        }
        let tf = &tpl.fields[i];
        match &tf.type_ {
            AstType::User { name } => {
                match find_field_type(concrete_fields, tf.name.as_str()) {
                    Some(t) => {
                        if has_type_param(&tpl.type_params, name.as_str()) && !subst.contains_key(name.as_str()) {
                            subst.insert(name.clone(), copy_type(t));
                            assert(subst@.map_values(|t: MirType| t@) =~= prev.map_values(|t: MirType| t@).insert(name@, t@));
                        }
                    },
                    None => {},
                }
            },
            _ => {},
        }
        i = i + 1;
    }
    assert(tpl.fields@.take(i as int) =~= tpl.fields@);
    subst
}

} // verus!

verus! {

/// The annotation that writes a MIR type back in source form.
pub open spec fn mir_to_ast(t: TypeModel) -> AstModel
    decreases t,
{
    match t {
        TypeModel::I8 => AstModel::Primitive("i8"@),
        TypeModel::I16 => AstModel::Primitive("i16"@),
        TypeModel::I32 => AstModel::Primitive("i32"@),
        TypeModel::I64 => AstModel::Primitive("i64"@),
        TypeModel::U8 => AstModel::Primitive("u8"@),
        TypeModel::U16 => AstModel::Primitive("u16"@),
        TypeModel::U32 => AstModel::Primitive("u32"@),
        TypeModel::U64 => AstModel::Primitive("u64"@),
        TypeModel::F32 => AstModel::Primitive("f32"@),
        TypeModel::F64 => AstModel::Primitive("f64"@),
        TypeModel::Bool => AstModel::Primitive("bool"@),
        TypeModel::Char => AstModel::Primitive("char"@),
        TypeModel::Str => AstModel::Primitive("str"@),
        TypeModel::Void => AstModel::Primitive("void"@),
        TypeModel::List(inner) => AstModel::Generic("list"@, seq![mir_to_ast(*inner)]),
        TypeModel::Struct(name, _) => AstModel::User(name),
        TypeModel::Ptr(_) => AstModel::User("ptr"@),
        TypeModel::Dict(k, v) => AstModel::Dict(Box::new(mir_to_ast(*k)), Box::new(mir_to_ast(*v))),
        TypeModel::SetOf(inner) => AstModel::SetOf(Box::new(mir_to_ast(*inner))),
        TypeModel::Queue(inner) => AstModel::Queue(Box::new(mir_to_ast(*inner))),
        TypeModel::Stack(inner) => AstModel::Stack(Box::new(mir_to_ast(*inner))),
        TypeModel::Deque(inner) => AstModel::Deque(Box::new(mir_to_ast(*inner))),
        TypeModel::LinkedList(inner) => AstModel::LinkedList(Box::new(mir_to_ast(*inner))),
        TypeModel::I1 => AstModel::Primitive("bool"@),
        TypeModel::Array(inner, size) => AstModel::Array(Box::new(mir_to_ast(*inner)), size),
        TypeModel::Slice(inner) => AstModel::Slice(Box::new(mir_to_ast(*inner))),
        TypeModel::Box(inner) => AstModel::Generic("box"@, seq![mir_to_ast(*inner)]),
        TypeModel::Chan(inner) => AstModel::Chan(Box::new(mir_to_ast(*inner))),
        TypeModel::Bytes => AstModel::Bytes,
    }
}

fn primitive_ast(name: &str) -> (r: AstType)
    ensures
        r@ == AstModel::Primitive(name@),
{
    AstType::Primitive { name: String::from_str(name) }
}

fn generic_ast(name: &str, arg: AstType) -> (r: AstType)
    ensures
        r@ == AstModel::Generic(name@, seq![arg@]),
{
    let ghost a = arg@;
    let args = vec![arg];
    proof {
        lemma_asts_model_len(args@);
        lemma_asts_model_index(args@, 0);
    }
    assert(asts_model(args@) =~= seq![a]);
    AstType::Generic { name: String::from_str(name), args }
}

/// Convert a MirType to the annotation that writes it in source form,
/// for substitution into a function's declaration.
pub fn mir_type_to_ast_type(t: &MirType) -> (r: AstType)
    ensures
        r@ == mir_to_ast(t@),
    decreases t,
{
    match t {
        MirType::I8 => primitive_ast("i8"),
        MirType::I16 => primitive_ast("i16"),
        MirType::I32 => primitive_ast("i32"),
        MirType::I64 => primitive_ast("i64"),
        MirType::U8 => primitive_ast("u8"),
        MirType::U16 => primitive_ast("u16"),
        MirType::U32 => primitive_ast("u32"),
        MirType::U64 => primitive_ast("u64"),
        MirType::F32 => primitive_ast("f32"),
        MirType::F64 => primitive_ast("f64"),
        MirType::Bool => primitive_ast("bool"),
        MirType::Char => primitive_ast("char"),
        MirType::Str => primitive_ast("str"),
        MirType::Void => primitive_ast("void"),
        MirType::List(inner) => generic_ast("list", mir_type_to_ast_type(inner)),
        MirType::Struct(name, _) => AstType::User { name: name.clone() },
        MirType::Ptr(_) => AstType::User { name: String::from_str("ptr") },
        MirType::Dict(k, v) => AstType::Dict {
            key: Box::new(mir_type_to_ast_type(k)),
            value: Box::new(mir_type_to_ast_type(v)),
        },
        MirType::SetOf(inner) => AstType::SetOf { inner: Box::new(mir_type_to_ast_type(inner)) },
        MirType::Queue(inner) => AstType::Queue { inner: Box::new(mir_type_to_ast_type(inner)) },
        MirType::Stack(inner) => AstType::Stack { inner: Box::new(mir_type_to_ast_type(inner)) },
        MirType::Deque(inner) => AstType::Deque { inner: Box::new(mir_type_to_ast_type(inner)) },
        MirType::LinkedList(inner) => AstType::LinkedList { inner: Box::new(mir_type_to_ast_type(inner)) },
        MirType::I1 => primitive_ast("bool"),
        MirType::Array(inner, size) => AstType::Array {
            inner: Box::new(mir_type_to_ast_type(inner)),
            size: *size,
        },
        MirType::Slice(inner) => AstType::Slice { inner: Box::new(mir_type_to_ast_type(inner)) },
        MirType::Box(inner) => generic_ast("box", mir_type_to_ast_type(inner)),
        MirType::Chan(inner) => AstType::Chan { inner: Box::new(mir_type_to_ast_type(inner)) },
        MirType::Bytes => AstType::Bytes,
    }
}

/// The model of a substitution of type parameters by annotations.
pub open spec fn ast_subst_view(subst: &NameTable<AstType>) -> Map<Seq<char>, AstModel> {
    subst@.map_values(|a: AstType| a@)
}

/// An annotation with each plain name that `subst` binds replaced by its
/// binding, at any depth.
pub open spec fn substitute(a: AstModel, subst: Map<Seq<char>, AstModel>) -> AstModel
    decreases a,
{
    match a {
        AstModel::User(name) => if subst.contains_key(name) {
            subst[name]
        } else {
            a
        },
        AstModel::Primitive(name) => if subst.contains_key(name) {
            subst[name]
        } else {
            a
        },
        AstModel::Generic(name, args) => AstModel::Generic(name, substitute_all(args, subst)),
        AstModel::Optional(inner) => AstModel::Optional(Box::new(substitute(*inner, subst))),
        AstModel::Error(inner) => AstModel::Error(Box::new(substitute(*inner, subst))),
        AstModel::Dict(k, v) => AstModel::Dict(
            Box::new(substitute(*k, subst)),
            Box::new(substitute(*v, subst)),
        ),
        AstModel::FnPtr(params, ret) => AstModel::FnPtr(
            substitute_all(params, subst),
            Box::new(substitute(*ret, subst)),
        ),
        AstModel::Mutable(inner) => AstModel::Mutable(Box::new(substitute(*inner, subst))),
        AstModel::Borrow(inner) => AstModel::Borrow(Box::new(substitute(*inner, subst))),
        AstModel::Ptr => AstModel::Ptr,
        AstModel::SetOf(inner) => AstModel::SetOf(Box::new(substitute(*inner, subst))),
        AstModel::Queue(inner) => AstModel::Queue(Box::new(substitute(*inner, subst))),
        AstModel::Stack(inner) => AstModel::Stack(Box::new(substitute(*inner, subst))),
        AstModel::Deque(inner) => AstModel::Deque(Box::new(substitute(*inner, subst))),
        AstModel::LinkedList(inner) => AstModel::LinkedList(Box::new(substitute(*inner, subst))),
        AstModel::List(inner) => AstModel::List(Box::new(substitute(*inner, subst))),
        AstModel::Array(inner, size) => AstModel::Array(Box::new(substitute(*inner, subst)), size),
        AstModel::Slice(inner) => AstModel::Slice(Box::new(substitute(*inner, subst))),
        AstModel::Chan(inner) => AstModel::Chan(Box::new(substitute(*inner, subst))),
        AstModel::Bytes => AstModel::Bytes,
    }
}

/// Each annotation of a list with `subst` applied.
pub open spec fn substitute_all(args: Seq<AstModel>, subst: Map<Seq<char>, AstModel>) -> Seq<AstModel>
    decreases args,
{
    if args.len() == 0 {
        Seq::empty()
    } else {
        substitute_all(args.drop_last(), subst).push(substitute(args[args.len() - 1], subst))
    }
}

/// Substitute type params in each annotation of a list.
fn substitute_ast_types(args: &Vec<AstType>, subst: &NameTable<AstType>) -> (r: Vec<AstType>)
    ensures
        asts_model(r@) == substitute_all(asts_model(args@), ast_subst_view(subst)),
    decreases args, 0nat,
{
    let ghost am = asts_model(args@);
    let ghost sv = ast_subst_view(subst);
    proof {
        lemma_asts_model_len(args@);
    }
    let mut out: Vec<AstType> = Vec::new();
    let mut i: usize = 0;
    while i < args.len()
        invariant
            i <= args@.len(),
            am == asts_model(args@),
            am.len() == args@.len(),
            sv == ast_subst_view(subst),
            out@.len() == i,
            asts_model(out@) == substitute_all(am.take(i as int), sv),
        decreases args@.len() - i,
    {
        proof {
            assert(decreases_to!(*args => args@));
            assert(decreases_to!(args@ => args@[i as int]));
            lemma_asts_model_index(args@, i as int);
            assert(am.take(i + 1).drop_last() =~= am.take(i as int));
        }
        let a = substitute_ast_type(&args[i], subst);
        let ghost prev = out@;
        out.push(a);
        proof {
            lemma_asts_model_step(out@, i as int);
            assert(out@.take(i + 1) =~= out@);
            assert(out@.take(i as int) =~= prev);
        }
        i = i + 1;
    }
    assert(am.take(i as int) =~= am);
    out
}

/// Substitute type params in an AstType with concrete AstTypes.
pub fn substitute_ast_type(ast: &AstType, subst: &NameTable<AstType>) -> (r: AstType)
    ensures
        r@ == substitute(ast@, ast_subst_view(subst)),
    decreases ast, 1nat,
{
    match ast {
        AstType::User { name } | AstType::Primitive { name } => match subst.get(name.as_str()) {
            Some(replacement) => copy_ast(replacement),
            None => copy_ast(ast),
        },
        AstType::Generic { name, args } => {
            proof {
                assert(decreases_to!(*ast => (*ast)->Generic_args));
            }
            AstType::Generic { name: name.clone(), args: substitute_ast_types(args, subst) }
        },
        AstType::Optional { inner } => AstType::Optional { inner: Box::new(substitute_ast_type(inner, subst)) },
        AstType::Error { inner } => AstType::Error { inner: Box::new(substitute_ast_type(inner, subst)) },
        AstType::Dict { key, value } => AstType::Dict {
            key: Box::new(substitute_ast_type(key, subst)),
            value: Box::new(substitute_ast_type(value, subst)),
        },
        AstType::FnPtr { params, return_ } => {
            proof {
                assert(decreases_to!(*ast => (*ast)->FnPtr_params));
            }
            AstType::FnPtr {
                params: substitute_ast_types(params, subst),
                return_: Box::new(substitute_ast_type(return_, subst)),
            }
        },
        AstType::Mutable { inner } => AstType::Mutable { inner: Box::new(substitute_ast_type(inner, subst)) },
        AstType::Borrow { inner } => AstType::Borrow { inner: Box::new(substitute_ast_type(inner, subst)) },
        AstType::Ptr => AstType::Ptr,
        AstType::SetOf { inner } => AstType::SetOf { inner: Box::new(substitute_ast_type(inner, subst)) },
        AstType::Queue { inner } => AstType::Queue { inner: Box::new(substitute_ast_type(inner, subst)) },
        AstType::Stack { inner } => AstType::Stack { inner: Box::new(substitute_ast_type(inner, subst)) },
        AstType::Deque { inner } => AstType::Deque { inner: Box::new(substitute_ast_type(inner, subst)) },
        AstType::LinkedList { inner } => AstType::LinkedList {
            inner: Box::new(substitute_ast_type(inner, subst)),
        },
        AstType::List { inner } => AstType::List { inner: Box::new(substitute_ast_type(inner, subst)) },
        AstType::Array { inner, size } => AstType::Array {
            inner: Box::new(substitute_ast_type(inner, subst)),
            size: *size,
        },
        AstType::Slice { inner } => AstType::Slice { inner: Box::new(substitute_ast_type(inner, subst)) },
        AstType::Chan { inner } => AstType::Chan { inner: Box::new(substitute_ast_type(inner, subst)) },
        AstType::Bytes => AstType::Bytes,
    }
}

} // verus!

verus! {

/// Whether `tps` declares a type parameter called `name`.
pub open spec fn declares(tps: Seq<TypeParam>, name: Seq<char>) -> bool {
    exists|i: int| 0 <= i < tps.len() && tps[i].name@ == name
}

/// `subst` with the type parameter `name` bound to `t`, if `name` is a
/// declared type parameter not bound yet.
pub open spec fn bind_name(
    name: Seq<char>,
    t: TypeModel,
    tps: Seq<TypeParam>,
    subst: Map<Seq<char>, TypeModel>,
) -> Map<Seq<char>, TypeModel> {
    if declares(tps, name) && !subst.contains_key(name) {
        subst.insert(name, t)
    } else {
        subst
    }
}

/// The bindings of type parameters after matching a parameter annotation
/// against the type of the argument passed for it: a plain name binds to
/// the whole type, `list<E>` matches a list's element type, and `E?`
/// matches a pointer's target or the payload of an `Option__T` struct.
/// A parameter already bound keeps its first binding.
pub open spec fn bind_generics(
    p: AstModel,
    a: TypeModel,
    tps: Seq<TypeParam>,
    subst: Map<Seq<char>, TypeModel>,
) -> Map<Seq<char>, TypeModel>
    decreases p,
{
    match p {
        AstModel::User(name) => bind_name(name, a, tps, subst),
        AstModel::Primitive(name) => bind_name(name, a, tps, subst),
        AstModel::Generic(name, args) => match a {
            TypeModel::List(inner) => if name == "list"@ && args.len() > 0 {
                bind_generics(args[0], *inner, tps, subst)
            } else {
                subst
            },
            _ => subst,
        },
        AstModel::Optional(inner) => match a {
            TypeModel::Ptr(target) => bind_generics(*inner, *target, tps, subst),
            TypeModel::Struct(name, _) => if has_prefix(name, "Option__"@) {
                bind_generics(*inner, option_inner(name), tps, subst)
            } else {
                subst
            },
            _ => subst,
        },
        _ => subst,
    }
}

fn declares_param(type_params: &[TypeParam], name: &str) -> (r: bool)
    ensures
        r == declares(type_params@, name@),
{
    let mut i: usize = 0;
    while i < type_params.len()
        invariant
            i <= type_params@.len(),
            forall|j: int| 0 <= j < i ==> type_params@[j].name@ != name@,
        decreases type_params@.len() - i,
    {
        if str_eq(type_params[i].name.as_str(), name) {
            return true;
        }
        i = i + 1;
    }
    false
}

/// Bind type parameters by matching a parameter annotation against the
/// concrete type of the argument passed for it.
pub fn extract_generic_bindings(
    param_type: &AstType,
    arg_type: &MirType,
    type_params: &[TypeParam],
    subst: &mut NameTable<MirType>,
)
    ensures
        subst_view(final(subst)) == bind_generics(
            param_type@,
            arg_type@,
            type_params@,
            subst_view(old(subst)),
        ),
    decreases param_type,
{
    match param_type {
        AstType::User { name } | AstType::Primitive { name } => {
            if declares_param(type_params, name.as_str()) && !subst.contains_key(name.as_str()) {
                let ghost before = subst_view(subst);
                let t = copy_type(arg_type);
                subst.insert(name.clone(), t);
                assert(subst_view(subst) =~= before.insert(name@, arg_type@));
            }
        },
        AstType::Generic { name, args } => {
            if let MirType::List(inner) = arg_type {
                if str_eq(name.as_str(), "list") && args.len() > 0 {
                    proof {
                        lemma_asts_model_len(args@);
                        lemma_asts_model_index(args@, 0);
                        assert(decreases_to!(*param_type => (*param_type)->Generic_args));
                        assert(decreases_to!(*args => args@));
                        assert(decreases_to!(args@ => args@[0]));
                    }
                    extract_generic_bindings(&args[0], inner, type_params, subst);
                } else {
                    proof {
                        lemma_asts_model_len(args@);
                    }
                }
            }
        },
        AstType::Optional { inner } => match arg_type {
            MirType::Ptr(target) => extract_generic_bindings(inner, target, type_params, subst),
            MirType::Struct(name, _) => {
                if starts_with(name.as_str(), "Option__") {
                    let payload = extract_struct_inner(name.as_str());
                    extract_generic_bindings(inner, &payload, type_params, subst);
                }
            },
            _ => {},
        },
        _ => {},
    }
}

/// The bindings from matching the first `n` parameters against the first
/// `n` argument types, in order.
pub open spec fn bind_params(
    params: Seq<Param>,
    args: Seq<TypeModel>,
    tps: Seq<TypeParam>,
    n: nat,
) -> Map<Seq<char>, TypeModel>
    decreases n,
{
    if n == 0 {
        Map::empty()
    } else {
        bind_generics(
            params[n - 1].type_@,
            args[n - 1],
            tps,
            bind_params(params, args, tps, (n - 1) as nat),
        )
    }
}

/// The bindings a call of a generic function gives its type parameters,
/// matching each parameter against the argument passed for it.
pub open spec fn inferred_bindings(template: FunctionDecl, args: Seq<TypeModel>) -> Map<Seq<char>, TypeModel> {
    let n = if template.params@.len() <= args.len() { template.params@.len() } else { args.len() };
    bind_params(template.params@, args, template.type_params@, n)
}

/// Infer type param bindings for a generic function call from the
/// concrete argument types.
pub fn infer_function_type_params(template: &FunctionDecl, arg_types: &[MirType]) -> (r: NameTable<MirType>)
    ensures
        subst_view(&r) == inferred_bindings(*template, models(arg_types@)),
{
    let ghost ms = models(arg_types@);
    let mut subst: NameTable<MirType> = NameTable::new();
    assert(subst_view(&subst) =~= Map::empty());
    let n = if template.params.len() <= arg_types.len() {
        template.params.len()
    } else {
        arg_types.len()
    };
    let mut i: usize = 0;
    while i < n
        invariant
            i <= n,
            n <= template.params@.len(),
            n <= arg_types@.len(),
            ms == models(arg_types@),
            subst_view(&subst) == bind_params(template.params@, ms, template.type_params@, i as nat),
        decreases n - i,
    {
        extract_generic_bindings(
            &template.params[i].type_,
            &arg_types[i],
            template.type_params.as_slice(),
            &mut subst,
        );
        i = i + 1;
    }
    subst
}

} // verus!

verus! {

/// An optional annotation with `subst` applied.
pub open spec fn substitute_opt(t: Option<AstModel>, subst: Map<Seq<char>, AstModel>) -> Option<AstModel> {
    match t {
        Some(a) => Some(substitute(a, subst)),
        None => None,
    }
}

/// Statements with `subst` applied to the annotations of the variables
/// they declare, in nested blocks too.
pub open spec fn substitute_stmts(s: Seq<StmtModel>, subst: Map<Seq<char>, AstModel>) -> Seq<StmtModel>
    decreases s,
{
    if s.len() == 0 {
        Seq::empty()
    } else {
        substitute_stmts(s.drop_last(), subst).push(substitute_stmt(s[s.len() - 1], subst))
    }
}

/// An optional block with `subst` applied.
pub open spec fn substitute_opt_block(
    b: Option<Seq<StmtModel>>,
    subst: Map<Seq<char>, AstModel>,
) -> Option<Seq<StmtModel>>
    decreases b,
{
    match b {
        Some(s) => Some(substitute_stmts(s, subst)),
        None => None,
    }
}

/// Guarded blocks (`elif` branches, `match` arms) with `subst` applied to
/// their blocks.
pub open spec fn substitute_branches(
    s: Seq<(ExprModel, Seq<StmtModel>)>,
    subst: Map<Seq<char>, AstModel>,
) -> Seq<(ExprModel, Seq<StmtModel>)>
    decreases s,
{
    if s.len() == 0 {
        Seq::empty()
    } else {
        let last = s[s.len() - 1];
        substitute_branches(s.drop_last(), subst).push((last.0, substitute_stmts(last.1, subst)))
    }
}

/// A statement with `subst` applied to the annotation of a variable it
/// declares and to the statements of its nested blocks; nothing else
/// changes.
pub open spec fn substitute_stmt(s: StmtModel, subst: Map<Seq<char>, AstModel>) -> StmtModel
    decreases s,
{
    match s {
        StmtModel::Variable(v) => StmtModel::Variable(
            VarModel { type_: substitute_opt(v.type_, subst), ..v },
        ),
        StmtModel::TypedVariable(v) => StmtModel::TypedVariable(
            VarModel { type_: substitute_opt(v.type_, subst), ..v },
        ),
        StmtModel::If(c, body, elifs, els) => StmtModel::If(
            c,
            substitute_stmts(body, subst),
            substitute_branches(elifs, subst),
            substitute_opt_block(els, subst),
        ),
        StmtModel::While(c, body, els) => StmtModel::While(
            c,
            substitute_stmts(body, subst),
            substitute_opt_block(els, subst),
        ),
        StmtModel::For(v, it, body, els) => StmtModel::For(
            v,
            it,
            substitute_stmts(body, subst),
            substitute_opt_block(els, subst),
        ),
        StmtModel::Match(subject, arms) => StmtModel::Match(subject, substitute_branches(arms, subst)),
        StmtModel::Unsafe(body) => StmtModel::Unsafe(substitute_stmts(body, subst)),
        StmtModel::Guard(c, body) => StmtModel::Guard(c, substitute_stmts(body, subst)),
        StmtModel::BindingIf(n, v, body, els) => StmtModel::BindingIf(
            n,
            v,
            substitute_stmts(body, subst),
            substitute_opt_block(els, subst),
        ),
        _ => s,
    }
}

} // verus!

verus! {

proof fn lemma_substitute_stmts_len(s: Seq<StmtModel>, subst: Map<Seq<char>, AstModel>)
    ensures
        substitute_stmts(s, subst).len() == s.len(),
    decreases s.len(),
{
    if s.len() > 0 {
        lemma_substitute_stmts_len(s.drop_last(), subst);
    }
}

proof fn lemma_substitute_stmts_index(s: Seq<StmtModel>, subst: Map<Seq<char>, AstModel>, i: int)
    requires
        0 <= i < s.len(),
    ensures
        substitute_stmts(s, subst)[i] == substitute_stmt(s[i], subst),
    decreases s.len(),
{
    lemma_substitute_stmts_len(s.drop_last(), subst);
    if i < s.len() - 1 {
        lemma_substitute_stmts_index(s.drop_last(), subst, i);
    }
}

/// Statements whose models are those of `orig` with `subst` applied.
proof fn lemma_substituted_stmts(now: Seq<Stmt>, orig: Seq<Stmt>, subst: Map<Seq<char>, AstModel>)
    requires
        now.len() == orig.len(),
        forall|j: int| 0 <= j < now.len() ==> (#[trigger] now[j])@ == substitute_stmt(orig[j]@, subst),
    ensures
        stmts_model(now) == substitute_stmts(stmts_model(orig), subst),
{
    lemma_stmts_model_len(now);
    lemma_stmts_model_len(orig);
    lemma_substitute_stmts_len(stmts_model(orig), subst);
    assert forall|j: int| 0 <= j < now.len() implies stmts_model(now)[j] == substitute_stmts(
        stmts_model(orig),
        subst,
    )[j] by {
        lemma_stmts_model_index(now, j);
        lemma_stmts_model_index(orig, j);
        lemma_substitute_stmts_index(stmts_model(orig), subst, j);
    }
    assert(stmts_model(now) =~= substitute_stmts(stmts_model(orig), subst));
}

/// Substitute type params in the annotation of a variable declaration.
fn substitute_var_type(v: &mut VarDecl, subst: &NameTable<AstType>)
    ensures
        var_model(*final(v)) == (VarModel {
            type_: substitute_opt(var_model(*old(v)).type_, ast_subst_view(subst)),
            ..var_model(*old(v))
        }),
{
    if let Some(t) = &v.type_ {
        let n = substitute_ast_type(t, subst);
        v.type_ = Some(n);
    }
}

/// Substitute type params in variable declarations inside a block.
fn substitute_block_types(block: &mut Block, subst: &NameTable<AstType>)
    ensures
        block_model(*final(block)) == substitute_stmts(block_model(*old(block)), ast_subst_view(subst)),
    decreases *old(block), 1nat,
{
    let ghost orig = block.statements@;
    let ghost ws = ast_subst_view(subst);
    let mut i: usize = 0;
    while i < block.statements.len()
        invariant
            orig == old(block).statements@,
            ws == ast_subst_view(subst),
            block.statements@.len() == orig.len(),
            i <= orig.len(),
            forall|j: int| i <= j < orig.len() ==> block.statements@[j] == orig[j],
            forall|j: int| 0 <= j < i ==> (#[trigger] block.statements@[j])@ == substitute_stmt(orig[j]@, ws),
        decreases orig.len() - i,
    {
        proof {
            assert(decreases_to!(*old(block) => old(block).statements));
            assert(decreases_to!(old(block).statements => old(block).statements@));
            assert(decreases_to!(old(block).statements@ => old(block).statements@[i as int]));
        }
        substitute_stmt_types(&mut block.statements[i], subst);
        i = i + 1;
    }
    proof {
        lemma_substituted_stmts(block.statements@, orig, ws);
    }
}

/// Substitute type params in an optional block.
fn substitute_opt_block_types(b: &mut Option<Block>, subst: &NameTable<AstType>)
    ensures
        opt_block_model(*final(b)) == substitute_opt_block(opt_block_model(*old(b)), ast_subst_view(subst)),
    decreases *old(b), 2nat,
{
    match b {
        Some(x) => {
            proof {
                assert(decreases_to!(*old(b) => old(b)->0));
            }
            substitute_block_types(x, subst);
        },
        None => {},
    }
}

/// Substitute type params in the blocks of `elif` branches.
fn substitute_elif_types(branches: &mut Vec<ElifBranch>, subst: &NameTable<AstType>)
    ensures
        elifs_model(final(branches)@) == substitute_branches(elifs_model(old(branches)@), ast_subst_view(subst)),
    decreases *old(branches), 2nat,
{
    let ghost orig = branches@;
    let ghost ws = ast_subst_view(subst);
    let mut i: usize = 0;
    while i < branches.len()
        invariant
            orig == old(branches)@,
            ws == ast_subst_view(subst),
            branches@.len() == orig.len(),
            i <= orig.len(),
            forall|j: int| i <= j < orig.len() ==> branches@[j] == orig[j],
            elifs_model(branches@.take(i as int)) == substitute_branches(elifs_model(orig.take(i as int)), ws),
        decreases orig.len() - i,
    {
        proof {
            assert(decreases_to!(*old(branches) => old(branches)@));
            assert(decreases_to!(old(branches)@ => old(branches)@[i as int]));
            assert(decreases_to!(old(branches)@[i as int] => old(branches)@[i as int].body));
        }
        let ghost before = branches@;
        substitute_block_types(&mut branches[i].body, subst);
        proof {
            assert(branches@[i as int].condition == orig[i as int].condition);
            assert(block_model(branches@[i as int].body) == substitute_stmts(block_model(orig[i as int].body), ws));
            assert(branches@.take(i as int) =~= before.take(i as int));
            assert(branches@.take(i + 1).drop_last() =~= branches@.take(i as int));
            assert(branches@.take(i + 1)[i as int] == branches@[i as int]);
            assert(elifs_model(branches@.take(i + 1)) == elifs_model(branches@.take(i as int)).push(
                (branches@[i as int].condition@, block_model(branches@[i as int].body)),
            ));
            assert(orig.take(i + 1)[i as int] == orig[i as int]);
            let x = (orig[i as int].condition@, block_model(orig[i as int].body));
            let m = elifs_model(orig.take(i as int));
            assert(orig.take(i + 1).drop_last() =~= orig.take(i as int));
            assert(elifs_model(orig.take(i + 1)) == m.push(x));
            assert(m.push(x).drop_last() =~= m);
            assert(substitute_branches(m.push(x), ws) == substitute_branches(m, ws).push(
                (x.0, substitute_stmts(x.1, ws)),
            ));
        }
        i = i + 1;
    }
    proof {
        assert(branches@.take(i as int) =~= branches@);
        assert(orig.take(i as int) =~= orig);
    }
}

/// Substitute type params in the blocks of `match` arms.
fn substitute_arm_types(arms: &mut Vec<MatchArm>, subst: &NameTable<AstType>)
    ensures
        arms_model(final(arms)@) == substitute_branches(arms_model(old(arms)@), ast_subst_view(subst)),
    decreases *old(arms), 2nat,
{
    let ghost orig = arms@;
    let ghost ws = ast_subst_view(subst);
    let mut i: usize = 0;
    while i < arms.len()
        invariant
            orig == old(arms)@,
            ws == ast_subst_view(subst),
            arms@.len() == orig.len(),
            i <= orig.len(),
            forall|j: int| i <= j < orig.len() ==> arms@[j] == orig[j],
            arms_model(arms@.take(i as int)) == substitute_branches(arms_model(orig.take(i as int)), ws),
        decreases orig.len() - i,
    {
        proof {
            assert(decreases_to!(*old(arms) => old(arms)@));
            assert(decreases_to!(old(arms)@ => old(arms)@[i as int]));
            assert(decreases_to!(old(arms)@[i as int] => old(arms)@[i as int].body));
        }
        let ghost before = arms@;
        substitute_block_types(&mut arms[i].body, subst);
        proof {
            assert(arms@[i as int].pattern == orig[i as int].pattern);
            assert(block_model(arms@[i as int].body) == substitute_stmts(block_model(orig[i as int].body), ws));
            assert(arms@.take(i as int) =~= before.take(i as int));
            assert(arms@.take(i + 1).drop_last() =~= arms@.take(i as int));
            assert(arms@.take(i + 1)[i as int] == arms@[i as int]);
            assert(arms_model(arms@.take(i + 1)) == arms_model(arms@.take(i as int)).push(
                (arms@[i as int].pattern@, block_model(arms@[i as int].body)),
            ));
            assert(orig.take(i + 1)[i as int] == orig[i as int]);
            let x = (orig[i as int].pattern@, block_model(orig[i as int].body));
            let m = arms_model(orig.take(i as int));
            assert(orig.take(i + 1).drop_last() =~= orig.take(i as int));
            assert(arms_model(orig.take(i + 1)) == m.push(x));
            assert(m.push(x).drop_last() =~= m);
            assert(substitute_branches(m.push(x), ws) == substitute_branches(m, ws).push(
                (x.0, substitute_stmts(x.1, ws)),
            ));
        }
        i = i + 1;
    }
    proof {
        assert(arms@.take(i as int) =~= arms@);
        assert(orig.take(i as int) =~= orig);
    }
}

/// Substitute type params in variable declarations inside a statement,
/// including the statements of its nested blocks.
pub fn substitute_stmt_types(stmt: &mut Stmt, subst: &NameTable<AstType>)
    ensures
        (*final(stmt))@ == substitute_stmt((*old(stmt))@, ast_subst_view(subst)),
    decreases *old(stmt), 3nat,
{
    match stmt {
        Stmt::Variable(v) => substitute_var_type(v, subst),
        Stmt::TypedVariable(v) => substitute_var_type(v, subst),
        Stmt::If { body, elif_branches, else_branch, .. } => {
            proof {
                assert(decreases_to!(*old(stmt) => old(stmt)->If_body));
                assert(decreases_to!(*old(stmt) => old(stmt)->If_elif_branches));
                assert(decreases_to!(*old(stmt) => old(stmt)->If_else_branch));
            }
            substitute_block_types(body, subst);
            substitute_elif_types(elif_branches, subst);
            substitute_opt_block_types(else_branch, subst);
        },
        Stmt::While { body, else_branch, .. } => {
            proof {
                assert(decreases_to!(*old(stmt) => old(stmt)->While_body));
                assert(decreases_to!(*old(stmt) => old(stmt)->While_else_branch));
            }
            substitute_block_types(body, subst);
            substitute_opt_block_types(else_branch, subst);
        },
        Stmt::For { body, else_branch, .. } => {
            proof {
                assert(decreases_to!(*old(stmt) => old(stmt)->For_body));
                assert(decreases_to!(*old(stmt) => old(stmt)->For_else_branch));
            }
            substitute_block_types(body, subst);
            substitute_opt_block_types(else_branch, subst);
        },
        Stmt::Match { arms, .. } => {
            proof {
                assert(decreases_to!(*old(stmt) => old(stmt)->Match_arms));
            }
            substitute_arm_types(arms, subst);
        },
        Stmt::Unsafe { body } => {
            proof {
                assert(decreases_to!(*old(stmt) => old(stmt)->Unsafe_body));
            }
            substitute_block_types(body, subst);
        },
        Stmt::Guard { body, .. } => {
            proof {
                assert(decreases_to!(*old(stmt) => old(stmt)->Guard_body));
            }
            substitute_block_types(body, subst);
        },
        Stmt::BindingIf { body, else_branch, .. } => {
            proof {
                assert(decreases_to!(*old(stmt) => old(stmt)->BindingIf_body));
                assert(decreases_to!(*old(stmt) => old(stmt)->BindingIf_else_branch));
            }
            substitute_block_types(body, subst);
            substitute_opt_block_types(else_branch, subst);
        },
        _ => {},
    }
}

} // verus!

verus! {

/// The substitution of annotations that specializing with `subst` uses:
/// each type parameter by the annotation that writes its type.
pub open spec fn written_subst(subst: Map<Seq<char>, TypeModel>) -> Map<Seq<char>, AstModel> {
    subst.map_values(|t: TypeModel| mir_to_ast(t))
}

/// A function declaration specialized by the annotation substitution
/// `subst`: applied to the annotations of its parameters, its return type
/// and the variables its body declares.
pub open spec fn specialize(f: FnModel, subst: Map<Seq<char>, AstModel>) -> FnModel {
    FnModel {
        params: f.params.map_values(|p: (Seq<char>, AstModel)| (p.0, substitute(p.1, subst))),
        return_type: substitute_opt(f.return_type, subst),
        body: substitute_opt_block(f.body, subst),
        ..f
    }
}

/// The annotations that write the types bound by a list of entries.
pub open spec fn written_entries(s: Seq<(String, MirType)>) -> Map<Seq<char>, AstModel> {
    entries_map(s).map_values(|t: MirType| mir_to_ast(t@))
}

proof fn lemma_written_entries_push(s: Seq<(String, MirType)>, e: (String, MirType))
    ensures
        written_entries(s.push(e)) == written_entries(s).insert(e.0@, mir_to_ast(e.1@)),
{
    assert(s.push(e).drop_last() =~= s);
    assert(written_entries(s.push(e)) =~= written_entries(s).insert(e.0@, mir_to_ast(e.1@)));
}

/// The annotations that write the types of a substitution.
fn written_table(type_subst: &NameTable<MirType>) -> (r: NameTable<AstType>)
    ensures
        ast_subst_view(&r) == written_subst(subst_view(type_subst)),
{
    let entries = type_subst.entries();
    let mut out: NameTable<AstType> = NameTable::new();
    assert(ast_subst_view(&out) =~= written_entries(entries@.take(0)));
    let mut i: usize = 0;
    while i < entries.len()
        invariant
            i <= entries@.len(),
            entries_map(entries@) == type_subst@,
            ast_subst_view(&out) == written_entries(entries@.take(i as int)),
        decreases entries@.len() - i,
    {
        let a = mir_type_to_ast_type(&entries[i].1);
        let ghost before = ast_subst_view(&out);
        let name = entries[i].0.clone();
        let ghost key = name@;
        out.insert(name, a);
        proof {
            assert(ast_subst_view(&out) =~= before.insert(key, mir_to_ast(entries@[i as int].1@)));
            assert(entries@.take(i + 1) =~= entries@.take(i as int).push(entries@[i as int]));
            lemma_written_entries_push(entries@.take(i as int), entries@[i as int]);
        }
        i = i + 1;
    }
    assert(entries@.take(i as int) =~= entries@);
    assert(ast_subst_view(&out) =~= written_subst(subst_view(type_subst)));
    out
}

/// Clone a function declaration, substituting its type params with the
/// concrete types of `type_subst`: in the annotations of its parameters,
/// its return type, and the variable declarations of its body.
pub fn clone_and_specialize_function(template: &FunctionDecl, type_subst: &NameTable<MirType>) -> (r: FunctionDecl)
    ensures
        fn_model(r) == specialize(fn_model(*template), written_subst(subst_view(type_subst))),
{
    let ast_subst = written_table(type_subst);
    let ghost ws = ast_subst_view(&ast_subst);
    let mut params: Vec<Param> = Vec::new();
    let mut i: usize = 0;
    while i < template.params.len()
        invariant
            i <= template.params@.len(),
            ws == ast_subst_view(&ast_subst),
            params@.len() == i,
            forall|j: int| 0 <= j < i ==> (#[trigger] params@[j]).name@ == template.params@[j].name@ && params@[j].type_@
                == substitute(template.params@[j].type_@, ws),
        decreases template.params@.len() - i,
    {
        let t = substitute_ast_type(&template.params[i].type_, &ast_subst);
        params.push(Param { name: template.params[i].name.clone(), type_: t });
        i = i + 1;
    }
    let return_type = match &template.return_type {
        Some(rt) => Some(substitute_ast_type(rt, &ast_subst)),
        None => None,
    };
    let body = match &template.body {
        Some(b) => {
            let mut nb = copy_block(b);
            substitute_block_types(&mut nb, &ast_subst);
            Some(nb)
        },
        None => None,
    };
    let r = FunctionDecl {
        name: template.name.clone(),
        type_params: copy_type_params(&template.type_params),
        params,
        return_type,
        body,
    };
    assert(fn_model(r).params =~= fn_model(*template).params.map_values(
        |p: (Seq<char>, AstModel)| (p.0, substitute(p.1, ws)),
    ));
    r
}

} // verus!
