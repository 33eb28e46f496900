//! Lowering of source type annotations to MIR types: scalars by name,
//! structs by their definitions, type parameters by a substitution, type
//! aliases by following their chain, and generic instances by their
//! mangled concrete names.
use vstd::prelude::*;
use crate::ast::{AstModel, AstType, FieldDecl, StructDecl, asts_model, lemma_asts_model_index, lemma_asts_model_len};
use crate::lower::types::{
    concrete_name, make_concrete_name, make_result_type, make_tagged_fields,
    primitive_named, primitive_type, result_model, scalar_named, scalar_type, tagged_fields,
};
use crate::mir::{MirType, TypeModel, copy_fields, copy_type, fields_model, models};
use crate::name_table::NameTable;
use crate::text::{decimal, str_eq, u64_to_decimal};

verus! {

/// Struct definitions: each struct's fields by the struct's name.
pub type StructDefs = Map<Seq<char>, Seq<(Seq<char>, TypeModel)>>;

/// The model of a table of struct definitions.
pub open spec fn fields_view(defs: &NameTable<Vec<(String, MirType)>>) -> StructDefs {
    defs@.map_values(|f: Vec<(String, MirType)>| fields_model(f@))
}

/// The model of optional struct definitions.
pub open spec fn defs_view(defs: Option<&NameTable<Vec<(String, MirType)>>>) -> Option<StructDefs> {
    match defs {
        Some(t) => Some(fields_view(t)),
        None => None,
    }
}

/// The model of a substitution of type parameters by MIR types.
pub open spec fn subst_view(subst: &NameTable<MirType>) -> Map<Seq<char>, TypeModel> {
    subst@.map_values(|t: MirType| t@)
}

/// The model of a table of type aliases.
pub open spec fn alias_view(aliases: &NameTable<AstType>) -> Map<Seq<char>, AstModel> {
    aliases@.map_values(|a: AstType| a@)
}

/// Whether `name` is a defined struct.
pub open spec fn defs_has(defs: Option<StructDefs>, name: Seq<char>) -> bool {
    defs is Some && defs->0.contains_key(name)
}

/// The scalar types an alias may resolve to by name.
pub open spec fn alias_scalar(n: Seq<char>) -> Option<TypeModel> {
    if n == "i8"@ {
        Some(TypeModel::I8)
    } else if n == "i16"@ {
        Some(TypeModel::I16)
    } else if n == "i32"@ || n == "int"@ {
        Some(TypeModel::I32)
    } else if n == "i64"@ {
        Some(TypeModel::I64)
    } else if n == "f32"@ {
        Some(TypeModel::F32)
    } else if n == "f64"@ {
        Some(TypeModel::F64)
    } else if n == "bool"@ {
        Some(TypeModel::Bool)
    } else if n == "char"@ {
        Some(TypeModel::Char)
    } else if n == "str"@ {
        Some(TypeModel::Str)
    } else {
        None
    }
}

fn alias_scalar_type(n: &str) -> (r: Option<MirType>)
    ensures
        r is Some == alias_scalar(n@) is Some,
        r is Some ==> r->0@ == alias_scalar(n@)->0,
{
    if str_eq(n, "i8") {
        Some(MirType::I8)
    } else if str_eq(n, "i16") {
        Some(MirType::I16)
    } else if str_eq(n, "i32") || str_eq(n, "int") {
        Some(MirType::I32)
    } else if str_eq(n, "i64") {
        Some(MirType::I64)
    } else if str_eq(n, "f32") {
        Some(MirType::F32)
    } else if str_eq(n, "f64") {
        Some(MirType::F64)
    } else if str_eq(n, "bool") {
        Some(MirType::Bool)
    } else if str_eq(n, "char") {
        Some(MirType::Char)
    } else if str_eq(n, "str") {
        Some(MirType::Str)
    } else {
        None
    }
}

/// The name of a plain named annotation.
pub open spec fn plain_name(a: AstModel) -> Option<Seq<char>> {
    match a {
        AstModel::Primitive(n) => Some(n),
        AstModel::User(n) => Some(n),
        _ => None,
    }
}

/// Visiting one more alias leaves fewer to visit.
pub proof fn lemma_alias_step(dom: Set<Seq<char>>, seen: Set<Seq<char>>, name: Seq<char>)
    requires
        dom.finite(),
        dom.contains(name),
        !seen.contains(name),
    ensures
        dom.difference(seen.insert(name)).len() < dom.difference(seen).len(),
{
    assert(dom.difference(seen.insert(name)) =~= dom.difference(seen).remove(name));
    vstd::set::axiom_set_difference_finite(dom, seen);
}

/// What the alias `name` resolves to: follow the chain of aliases until it
/// names a scalar. It resolves to nothing where the chain names a struct,
/// an unknown name, or an annotation of another shape, or where it comes
/// back to an alias already visited (`seen`).
pub open spec fn alias_target(
    aliases: Map<Seq<char>, AstModel>,
    defs: Option<StructDefs>,
    name: Seq<char>,
    seen: Set<Seq<char>>,
) -> Option<TypeModel>
    decreases aliases.dom().difference(seen).len(),
    when aliases.dom().finite() && aliases.contains_key(name)
{
    if seen.contains(name) {
        None
    } else {
        match plain_name(aliases[name]) {
            Some(n) => if alias_scalar(n) is Some {
                alias_scalar(n)
            } else if defs_has(defs, n) {
                None
            } else if aliases.contains_key(n) {
                proof {
                    lemma_alias_step(aliases.dom(), seen, name);
                }
                alias_target(aliases, defs, n, seen.insert(name))
            } else {
                None
            },
            None => None,
        }
    }
}

/// The names in a list.
pub open spec fn name_set(s: Seq<String>) -> Set<Seq<char>> {
    Set::new(|k: Seq<char>| exists|i: int| 0 <= i < s.len() && s[i]@ == k)
}

fn contains_name(list: &Vec<String>, name: &str) -> (r: bool)
    ensures
        r == name_set(list@).contains(name@),
{
    let mut i: usize = 0;
    while i < list.len()
        invariant
            i <= list@.len(),
            forall|j: int| 0 <= j < i ==> list@[j]@ != name@,
        decreases list@.len() - i,
    {
        if str_eq(list[i].as_str(), name) {
            return true;
        }
        i = i + 1;
    }
    false
}

/// Resolve the alias `name` (which `aliases` binds) to a scalar type.
fn resolve_alias(
    aliases: &NameTable<AstType>,
    defs: Option<&NameTable<Vec<(String, MirType)>>>,
    name: &str,
) -> (r: Option<MirType>)
    requires
        alias_view(aliases).contains_key(name@),
    ensures
        r is Some == alias_target(alias_view(aliases), defs_view(defs), name@, Set::empty()) is Some,
        r is Some ==> r->0@ == alias_target(alias_view(aliases), defs_view(defs), name@, Set::empty())->0,
{
    let ghost av = alias_view(aliases);
    let ghost dv = defs_view(defs);
    proof {
        aliases.lemma_finite();
        assert(av.dom() =~= aliases@.dom());
        assert(name_set(Seq::<String>::empty()) =~= Set::<Seq<char>>::empty());
    }
    let mut seen: Vec<String> = Vec::new();
    let mut current = String::from_str(name);
    loop
        invariant
            av == alias_view(aliases),
            dv == defs_view(defs),
            av.dom().finite(),
            av.contains_key(current@),
            alias_target(av, dv, name@, Set::empty()) == alias_target(av, dv, current@, name_set(seen@)),
        decreases av.dom().difference(name_set(seen@)).len(),
    {
        if contains_name(&seen, current.as_str()) {
            return None;
        }
        let ghost seen_before = name_set(seen@);
        proof {
            lemma_alias_step(av.dom(), seen_before, current@);
        }
        let entry = aliases.get(current.as_str());
        let target = match entry {
            Some(a) => a,
            None => {
                return None;
            },
        };
        let next = match target {
            AstType::Primitive { name: n } => n,
            AstType::User { name: n } => n,
            _ => {
                return None;
            },
        };
        let scalar = alias_scalar_type(next.as_str());
        if scalar.is_some() {
            return scalar;
        }
        let is_struct = match defs {
            Some(d) => d.contains_key(next.as_str()),
            None => false,
        };
        if is_struct {
            return None;
        }
        if !aliases.contains_key(next.as_str()) {
            return None;
        }
        let ghost prev = seen@;
        let ghost cur_view = current@;
        seen.push(current);
        proof {
            assert forall|k: Seq<char>| name_set(seen@).contains(k) == seen_before.insert(cur_view).contains(k) by {
                if seen_before.insert(cur_view).contains(k) {
                    if k == cur_view {
                        assert(seen@[prev.len() as int]@ == k);
                    } else {
                        let i = choose|i: int| 0 <= i < prev.len() && prev[i]@ == k;
                        assert(seen@[i]@ == k);
                    }
                }
                if name_set(seen@).contains(k) {
                    let i = choose|i: int| 0 <= i < seen@.len() && seen@[i]@ == k;
                    if i < prev.len() {
                        assert(prev[i]@ == k);
                    }
                }
            }
            assert(name_set(seen@) =~= seen_before.insert(cur_view));
        }
        current = next.clone();
    }
}

} // verus!

verus! {

/// The short name a tuple's struct name gives an element type.
pub open spec fn tuple_short(t: TypeModel) -> Seq<char> {
    match t {
        TypeModel::I32 => "i32"@,
        TypeModel::I64 => "i64"@,
        TypeModel::Str => "str"@,
        TypeModel::Bool => "bool"@,
        TypeModel::F64 => "f64"@,
        TypeModel::F32 => "f32"@,
        TypeModel::I16 => "i16"@,
        TypeModel::I8 => "i8"@,
        TypeModel::Char => "char"@,
        _ => "x"@,
    }
}

fn tuple_short_of(t: &MirType) -> (r: &'static str)
    ensures
        r@ == tuple_short(t@),
{
    match t {
        MirType::I32 => "i32",
        MirType::I64 => "i64",
        MirType::Str => "str",
        MirType::Bool => "bool",
        MirType::F64 => "f64",
        MirType::F32 => "f32",
        MirType::I16 => "i16",
        MirType::I8 => "i8",
        MirType::Char => "char",
        _ => "x",
    }
}

/// The short names of a tuple's element types, concatenated.
pub open spec fn tuple_suffix(ts: Seq<TypeModel>) -> Seq<char>
    decreases ts.len(),
{
    if ts.len() == 0 {
        Seq::empty()
    } else {
        tuple_suffix(ts.drop_last()) + tuple_short(ts.last())
    }
}

/// The struct name of a tuple type: `_tuple_<count>_<suffix>`.
pub open spec fn tuple_name(ts: Seq<TypeModel>) -> Seq<char> {
    "_tuple_"@ + decimal(ts.len()) + "_"@ + tuple_suffix(ts)
}

/// The fields of a tuple type: `_0`, `_1`, ... in order.
pub open spec fn tuple_fields(ts: Seq<TypeModel>) -> Seq<(Seq<char>, TypeModel)> {
    Seq::new(ts.len(), |i: int| ("_"@ + decimal(i as nat), ts[i]))
}

/// The anonymous struct that a tuple of the given element types lowers to.
fn tuple_struct(elems: Vec<MirType>) -> (r: MirType)
    ensures
        r@ == TypeModel::Struct(tuple_name(models(elems@)), tuple_fields(models(elems@))),
{
    let ghost ts = models(elems@);
    let mut suffix = String::new();
    let mut fields: Vec<(String, MirType)> = Vec::new();
    let n = elems.len();
    let mut i: usize = 0;
    let rest = elems;
    assert(fields_model(fields@) =~= Seq::empty());
    while i < n
        invariant
            n == ts.len(),
            i <= n,
            rest@.len() == n,
            models(rest@) == ts,
            suffix@ == tuple_suffix(ts.take(i as int)),
            fields@.len() == i,
            fields_model(fields@) == tuple_fields(ts).take(i as int),
        decreases n - i,
    {
        let t = copy_type(&rest[i]);
        assert(t@ == ts[i as int]);
        suffix.append(tuple_short_of(&t));
        assert(ts.take(i + 1).drop_last() =~= ts.take(i as int));
        let mut fname = String::from_str("_");
        let digits = u64_to_decimal(i as u64);
        fname.append(digits.as_str());
        let ghost prev = fields@;
        fields.push((fname, t));
        assert(fields@.drop_last() =~= prev);
        assert(fields_model(fields@) =~= tuple_fields(ts).take(i + 1));
        i = i + 1;
    }
    assert(ts.take(n as int) =~= ts);
    assert(tuple_fields(ts).take(n as int) =~= tuple_fields(ts));
    let mut name = String::from_str("_tuple_");
    let count = u64_to_decimal(n as u64);
    name.append(count.as_str());
    name.append("_");
    name.append(suffix.as_str());
    MirType::Struct(name, fields)
}

} // verus!

verus! {

/// The MIR types that a list of annotations lowers to.
pub open spec fn lower_models(
    args: Seq<AstModel>,
    defs: Option<StructDefs>,
    subst: Map<Seq<char>, TypeModel>,
    aliases: Map<Seq<char>, AstModel>,
) -> Seq<TypeModel>
    decreases args,
{
    if args.len() == 0 {
        Seq::empty()
    } else {
        lower_models(args.drop_last(), defs, subst, aliases).push(
            lower_model(args.last(), defs, subst, aliases),
        )
    }
}

/// The named struct `name` with its defined fields, or with none where
/// it has no definition.
pub open spec fn named_struct(defs: Option<StructDefs>, name: Seq<char>) -> TypeModel {
    if defs_has(defs, name) {
        TypeModel::Struct(name, defs->0[name])
    } else {
        TypeModel::Struct(name, Seq::empty())
    }
}

/// The struct `Option__T` of an optional value whose payload lowers to `t`.
pub open spec fn option_model(t: TypeModel) -> TypeModel {
    TypeModel::Struct(concrete_name("Option"@, seq![t]), tagged_fields())
}

/// The MIR type an annotation lowers to, under the struct definitions
/// `defs`, the substitution `subst` of type parameters, and the type
/// `aliases`.
pub open spec fn lower_model(
    a: AstModel,
    defs: Option<StructDefs>,
    subst: Map<Seq<char>, TypeModel>,
    aliases: Map<Seq<char>, AstModel>,
) -> TypeModel
    decreases a,
{
    match a {
        AstModel::Primitive(name) => if subst.contains_key(name) {
            subst[name]
        } else {
            primitive_named(name)
        },
        AstModel::User(name) => if subst.contains_key(name) {
            subst[name]
        } else if scalar_named(name) is Some {
            scalar_named(name)->0
        } else if defs_has(defs, name) {
            TypeModel::Struct(name, defs->0[name])
        } else if aliases.contains_key(name) && alias_target(aliases, defs, name, Set::empty()) is Some {
            alias_target(aliases, defs, name, Set::empty())->0
        } else {
            TypeModel::Struct(name, Seq::empty())
        },
        AstModel::Generic(name, args) => if subst.contains_key(name) {
            subst[name]
        } else if name == "set"@ {
            if args.len() == 0 {
                TypeModel::SetOf(Box::new(TypeModel::I32))
            } else {
                TypeModel::SetOf(Box::new(lower_model(args[0], defs, subst, aliases)))
            }
        } else if name == "list"@ {
            if args.len() == 0 {
                TypeModel::List(Box::new(TypeModel::I32))
            } else {
                TypeModel::List(Box::new(lower_model(args[0], defs, subst, aliases)))
            }
        } else if name == "tuple"@ {
            let ts = lower_models(args, defs, subst, aliases);
            TypeModel::Struct(tuple_name(ts), tuple_fields(ts))
        } else if args.len() == 0 {
            named_struct(defs, name)
        } else if defs_has(defs, name) && defs->0[name].len() > 0 {
            TypeModel::Struct(name, defs->0[name])
        } else if name == "Option"@ && args.len() == 1 {
            option_model(lower_model(args[0], defs, subst, aliases))
        } else if name == "box"@ && args.len() == 1 {
            TypeModel::Box(Box::new(lower_model(args[0], defs, subst, aliases)))
        } else {
            named_struct(defs, concrete_name(name, lower_models(args, defs, subst, aliases)))
        },
        AstModel::Optional(inner) => option_model(lower_model(*inner, defs, subst, aliases)),
        AstModel::Dict(k, v) => TypeModel::Dict(
            Box::new(lower_model(*k, defs, subst, aliases)),
            Box::new(lower_model(*v, defs, subst, aliases)),
        ),
        AstModel::Error(_) => result_model(),
        AstModel::FnPtr(_, _) => TypeModel::Ptr(Box::new(TypeModel::Void)),
        AstModel::Mutable(inner) => lower_model(*inner, defs, subst, aliases),
        AstModel::Borrow(inner) => lower_model(*inner, defs, subst, aliases),
        AstModel::Ptr => TypeModel::Ptr(Box::new(TypeModel::Void)),
        AstModel::SetOf(inner) => TypeModel::SetOf(Box::new(lower_model(*inner, defs, subst, aliases))),
        AstModel::Queue(inner) => TypeModel::Queue(Box::new(lower_model(*inner, defs, subst, aliases))),
        AstModel::Stack(inner) => TypeModel::Stack(Box::new(lower_model(*inner, defs, subst, aliases))),
        AstModel::Deque(inner) => TypeModel::Deque(Box::new(lower_model(*inner, defs, subst, aliases))),
        AstModel::LinkedList(inner) => TypeModel::LinkedList(
            Box::new(lower_model(*inner, defs, subst, aliases)),
        ),
        AstModel::List(inner) => TypeModel::List(Box::new(lower_model(*inner, defs, subst, aliases))),
        AstModel::Array(inner, size) => TypeModel::Array(
            Box::new(lower_model(*inner, defs, subst, aliases)),
            size,
        ),
        AstModel::Slice(inner) => TypeModel::Slice(Box::new(lower_model(*inner, defs, subst, aliases))),
        AstModel::Chan(inner) => TypeModel::Chan(Box::new(lower_model(*inner, defs, subst, aliases))),
        AstModel::Bytes => TypeModel::Bytes,
    }
}

/// The fields of struct `name`, copied, if it is defined.
fn lookup_fields(defs: Option<&NameTable<Vec<(String, MirType)>>>, name: &str) -> (r: Option<
    Vec<(String, MirType)>,
>)
    ensures
        r is Some == defs_has(defs_view(defs), name@),
        r is Some ==> fields_model(r->0@) == defs_view(defs)->0[name@],
{
    match defs {
        Some(d) => match d.get(name) {
            Some(f) => Some(copy_fields(f)),
            None => None,
        },
        None => None,
    }
}

/// The named struct `name` with its defined fields, if any.
fn make_named_struct(defs: Option<&NameTable<Vec<(String, MirType)>>>, name: String) -> (r: MirType)
    ensures
        r@ == named_struct(defs_view(defs), name@),
{
    match lookup_fields(defs, name.as_str()) {
        Some(f) => MirType::Struct(name, f),
        None => {
            let v: Vec<(String, MirType)> = Vec::new();
            assert(fields_model(v@) =~= Seq::empty());
            MirType::Struct(name, v)
        },
    }
}

/// An untyped pointer.
fn void_ptr() -> (r: MirType)
    ensures
        r@ == TypeModel::Ptr(Box::new(TypeModel::Void)),
{
    proof {
        reveal_with_fuel(crate::mir::type_model, 2);
    }
    MirType::Ptr(Box::new(MirType::Void))
}

/// The struct `Option__T` of an optional value with payload type `t`.
fn make_option_struct(t: MirType) -> (r: MirType)
    ensures
        r@ == option_model(t@),
{
    let args = vec![t];
    assert(models(args@) =~= seq![t@]);
    let name = make_concrete_name("Option", args.as_slice());
    MirType::Struct(name, make_tagged_fields())
}

/// Lower each annotation of a list, in order.
fn lower_all(
    args: &Vec<AstType>,
    defs: Option<&NameTable<Vec<(String, MirType)>>>,
    subst: &NameTable<MirType>,
    aliases: &NameTable<AstType>,
) -> (r: Vec<MirType>)
    ensures
        models(r@) == lower_models(asts_model(args@), defs_view(defs), subst_view(subst), alias_view(aliases)),
    decreases args, 0nat,
{
    let ghost am = asts_model(args@);
    let ghost dv = defs_view(defs);
    let ghost sv = subst_view(subst);
    let ghost av = alias_view(aliases);
    proof {
        lemma_asts_model_len(args@);
    }
    let mut out: Vec<MirType> = Vec::new();
    let mut i: usize = 0;
    while i < args.len()
        invariant
            i <= args@.len(),
            am == asts_model(args@),
            am.len() == args@.len(),
            dv == defs_view(defs),
            sv == subst_view(subst),
            av == alias_view(aliases),
            models(out@) == lower_models(am.take(i as int), dv, sv, av),
        decreases args@.len() - i,
    {
        proof {
            assert(decreases_to!(*args => args@));
            assert(decreases_to!(args@ => args@[i as int]));
            lemma_asts_model_index(args@, i as int);
            assert(am.take(i + 1).drop_last() =~= am.take(i as int));
        }
        let t = lower_ast_type(&args[i], defs, subst, aliases);
        let ghost prev = out@;
        out.push(t);
        assert(models(out@) =~= models(prev).push(t@));
        i = i + 1;
    }
    assert(am.take(i as int) =~= am);
    out
}

/// Lower a generic application `name<args>`.
fn lower_generic(
    name: &String,
    args: &Vec<AstType>,
    defs: Option<&NameTable<Vec<(String, MirType)>>>,
    subst: &NameTable<MirType>,
    aliases: &NameTable<AstType>,
) -> (r: MirType)
    ensures
        r@ == lower_model(
            AstModel::Generic(name@, asts_model(args@)),
            defs_view(defs),
            subst_view(subst),
            alias_view(aliases),
        ),
    decreases args, 2nat,
{
    let ghost dv = defs_view(defs);
    let ghost sv = subst_view(subst);
    let ghost av = alias_view(aliases);
    proof {
        lemma_asts_model_len(args@);
    }
    if let Some(t) = subst.get(name.as_str()) {
        return copy_type(t);
    }
    let is_set = str_eq(name.as_str(), "set");
    if is_set || str_eq(name.as_str(), "list") {
        let elem = if args.len() == 0 {
            MirType::I32
        } else {
            proof {
                assert(decreases_to!(*args => args@));
                assert(decreases_to!(args@ => args@[0]));
                lemma_asts_model_index(args@, 0);
            }
            lower_ast_type(&args[0], defs, subst, aliases)
        };
        proof {
            if args@.len() > 0 {
                lemma_asts_model_index(args@, 0);
            }
            assert(elem@ == if args@.len() == 0 {
                TypeModel::I32
            } else {
                lower_model(asts_model(args@)[0], dv, sv, av)
            });
        }
        if is_set {
            return MirType::SetOf(Box::new(elem));
        } else {
            return MirType::List(Box::new(elem));
        }
    }
    if str_eq(name.as_str(), "tuple") {
        return tuple_struct(lower_all(args, defs, subst, aliases));
    }
    if args.len() == 0 {
        return make_named_struct(defs, name.clone());
    }
    if let Some(f) = lookup_fields(defs, name.as_str()) {
        if f.len() > 0 {
            return MirType::Struct(name.clone(), f);
        }
    }
    if args.len() == 1 && (str_eq(name.as_str(), "Option") || str_eq(name.as_str(), "box")) {
        proof {
            assert(decreases_to!(*args => args@));
            assert(decreases_to!(args@ => args@[0]));
            lemma_asts_model_index(args@, 0);
        }
        let inner = lower_ast_type(&args[0], defs, subst, aliases);
        if str_eq(name.as_str(), "Option") {
            return make_option_struct(inner);
        } else {
            return MirType::Box(Box::new(inner));
        }
    }
    let concrete_args = lower_all(args, defs, subst, aliases);
    let concrete = make_concrete_name(name.as_str(), concrete_args.as_slice());
    make_named_struct(defs, concrete)
}

/// Lower an annotation to a MIR type, under struct definitions, a
/// substitution of type parameters and a table of type aliases.
pub fn lower_ast_type(
    ast: &AstType,
    defs: Option<&NameTable<Vec<(String, MirType)>>>,
    subst: &NameTable<MirType>,
    aliases: &NameTable<AstType>,
) -> (r: MirType)
    ensures
        r@ == lower_model(ast@, defs_view(defs), subst_view(subst), alias_view(aliases)),
    decreases ast, 1nat,
{
    let ghost dv = defs_view(defs);
    let ghost sv = subst_view(subst);
    let ghost av = alias_view(aliases);
    match ast {
        AstType::Primitive { name } => match subst.get(name.as_str()) {
            Some(t) => copy_type(t),
            None => primitive_type(name.as_str()),
        },
        AstType::User { name } => {
            if let Some(t) = subst.get(name.as_str()) {
                return copy_type(t);
            }
            if let Some(t) = scalar_type(name.as_str()) {
                return t;
            }
            if let Some(f) = lookup_fields(defs, name.as_str()) {
                return MirType::Struct(name.clone(), f);
            }
            if aliases.contains_key(name.as_str()) {
                if let Some(t) = resolve_alias(aliases, defs, name.as_str()) {
                    return t;
                }
            }
            let v: Vec<(String, MirType)> = Vec::new();
            assert(fields_model(v@) =~= Seq::empty());
            MirType::Struct(name.clone(), v)
        },
        AstType::Generic { name, args } => {
            proof {
                assert(decreases_to!(*ast => (*ast)->Generic_args));
            }
            lower_generic(name, args, defs, subst, aliases)
        },
        AstType::Optional { inner } => make_option_struct(lower_ast_type(inner, defs, subst, aliases)),
        AstType::Dict { key, value } => MirType::Dict(
            Box::new(lower_ast_type(key, defs, subst, aliases)),
            Box::new(lower_ast_type(value, defs, subst, aliases)),
        ),
        AstType::Error { .. } => make_result_type(),
        AstType::FnPtr { .. } => void_ptr(),
        AstType::Mutable { inner } => lower_ast_type(inner, defs, subst, aliases),
        AstType::Borrow { inner } => lower_ast_type(inner, defs, subst, aliases),
        AstType::Ptr => void_ptr(),
        AstType::SetOf { inner } => MirType::SetOf(Box::new(lower_ast_type(inner, defs, subst, aliases))),
        AstType::Queue { inner } => MirType::Queue(Box::new(lower_ast_type(inner, defs, subst, aliases))),
        AstType::Stack { inner } => MirType::Stack(Box::new(lower_ast_type(inner, defs, subst, aliases))),
        AstType::Deque { inner } => MirType::Deque(Box::new(lower_ast_type(inner, defs, subst, aliases))),
        AstType::LinkedList { inner } => MirType::LinkedList(
            Box::new(lower_ast_type(inner, defs, subst, aliases)),
        ),
        AstType::List { inner } => MirType::List(Box::new(lower_ast_type(inner, defs, subst, aliases))),
        AstType::Array { inner, size } => MirType::Array(
            Box::new(lower_ast_type(inner, defs, subst, aliases)),
            *size,
        ),
        AstType::Slice { inner } => MirType::Slice(Box::new(lower_ast_type(inner, defs, subst, aliases))),
        AstType::Chan { inner } => MirType::Chan(Box::new(lower_ast_type(inner, defs, subst, aliases))),
        AstType::Bytes => MirType::Bytes,
    }
}

} // verus!

verus! {

/// Convert an AstType to MirType with type param substitution.
pub fn ast_type_to_mir_with_subst(
    ast: &AstType,
    struct_defs: Option<&NameTable<Vec<(String, MirType)>>>,
    subst: &NameTable<MirType>,
) -> (r: MirType)
    ensures
        r@ == lower_model(ast@, defs_view(struct_defs), subst_view(subst), Map::empty()),
{
    let aliases: NameTable<AstType> = NameTable::new();
    assert(alias_view(&aliases) =~= Map::empty());
    lower_ast_type(ast, struct_defs, subst, &aliases)
}

/// Convert an AstType to a MirType; a name that is neither a scalar nor a
/// defined struct is looked up among the type `aliases`.
pub fn ast_type_to_mir(
    ast: &AstType,
    struct_defs: Option<&NameTable<Vec<(String, MirType)>>>,
    aliases: &NameTable<AstType>,
) -> (r: MirType)
    ensures
        r@ == lower_model(ast@, defs_view(struct_defs), Map::empty(), alias_view(aliases)),
{
    let subst: NameTable<MirType> = NameTable::new();
    assert(subst_view(&subst) =~= Map::empty());
    lower_ast_type(ast, struct_defs, &subst, aliases)
}

/// `defs` with `name` bound to `fields`, unless `name` is already bound.
pub open spec fn define_if_absent(
    defs: StructDefs,
    name: Seq<char>,
    fields: Seq<(Seq<char>, TypeModel)>,
) -> StructDefs {
    if defs.contains_key(name) {
        defs
    } else {
        defs.insert(name, fields)
    }
}

/// The struct definitions after registering the `Option__T` structs that
/// an annotation uses: for `T?`, and for `Option<T>` after those of `T`.
pub open spec fn register_option(
    ast: AstModel,
    defs: StructDefs,
    aliases: Map<Seq<char>, AstModel>,
) -> StructDefs
    decreases ast,
{
    match ast {
        AstModel::Optional(inner) => define_if_absent(
            defs,
            concrete_name("Option"@, seq![lower_model(*inner, Some(defs), Map::empty(), aliases)]),
            tagged_fields(),
        ),
        AstModel::Generic(name, args) => if name == "Option"@ && args.len() == 1 {
            let d = register_option(args[0], defs, aliases);
            define_if_absent(
                d,
                concrete_name("Option"@, seq![lower_model(args[0], Some(d), Map::empty(), aliases)]),
                tagged_fields(),
            )
        } else {
            defs
        },
        _ => defs,
    }
}

/// Bind `name` to `fields` in `defs` unless it is bound already.
fn define_struct_if_absent(
    defs: &mut NameTable<Vec<(String, MirType)>>,
    name: String,
    fields: Vec<(String, MirType)>,
)
    ensures
        fields_view(final(defs)) == define_if_absent(fields_view(old(defs)), name@, fields_model(fields@)),
{
    if !defs.contains_key(name.as_str()) {
        let ghost f = fields_model(fields@);
        defs.insert(name, fields);
        assert(fields_view(defs) =~= fields_view(old(defs)).insert(name@, f));
    }
}

/// Register `Option__T` struct fields in `struct_defs` for an annotation
/// that may contain Option types (`i32?`, `Option<i32>`).
pub fn register_option_type(
    ast: &AstType,
    struct_defs: &mut NameTable<Vec<(String, MirType)>>,
    aliases: &NameTable<AstType>,
)
    ensures
        fields_view(final(struct_defs)) == register_option(ast@, fields_view(old(struct_defs)), alias_view(aliases)),
    decreases ast,
{
    match ast {
        AstType::Optional { inner } => {
            let inner_mir = ast_type_to_mir(inner, Some(&*struct_defs), aliases);
            let args = vec![inner_mir];
            assert(models(args@) =~= seq![args@[0]@]);
            let name = make_concrete_name("Option", args.as_slice());
            define_struct_if_absent(struct_defs, name, make_tagged_fields());
        },
        AstType::Generic { name, args } => {
            proof {
                lemma_asts_model_len(args@);
            }
            if str_eq(name.as_str(), "Option") && args.len() == 1 {
                proof {
                    assert(decreases_to!(*ast => (*ast)->Generic_args));
                    assert(decreases_to!(*args => args@));
                    assert(decreases_to!(args@ => args@[0]));
                    lemma_asts_model_index(args@, 0);
                }
                register_option_type(&args[0], struct_defs, aliases);
                let inner_mir = ast_type_to_mir(&args[0], Some(&*struct_defs), aliases);
                let margs = vec![inner_mir];
                assert(models(margs@) =~= seq![margs@[0]@]);
                let cname = make_concrete_name("Option", margs.as_slice());
                define_struct_if_absent(struct_defs, cname, make_tagged_fields());
            }
        },
        _ => {},
    }
}

} // verus!

verus! {

/// The fields of a struct template, each lowered under `defs` and `subst`.
pub open spec fn template_fields(
    fields: Seq<FieldDecl>,
    defs: StructDefs,
    subst: Map<Seq<char>, TypeModel>,
) -> Seq<(Seq<char>, TypeModel)> {
    Seq::new(
        fields.len(),
        |i: int| (fields[i].name@, lower_model(fields[i].type_@, Some(defs), subst, Map::empty())),
    )
}

/// Registering the concrete instance of a generic struct that an
/// annotation names: its type, and the struct definitions afterwards.
/// Only a generic application `name<args>` of a template other than
/// `list`, with at least one argument, registers anything: the arguments
/// first, in order, then `name__args` with the template's fields, unless
/// that name is defined already.
pub open spec fn pre_register(
    ast: AstModel,
    subst: Map<Seq<char>, TypeModel>,
    templates: Map<Seq<char>, StructDecl>,
    defs: StructDefs,
) -> (Option<TypeModel>, StructDefs)
    decreases ast,
{
    match ast {
        AstModel::Generic(name, args) => if name != "list"@ && args.len() > 0 && templates.contains_key(name) {
            let (cargs, d) = pre_register_args(args, subst, templates, defs);
            let cn = concrete_name(name, cargs);
            let d2 = define_if_absent(d, cn, template_fields(templates[name].fields@, d, subst));
            (Some(TypeModel::Struct(cn, d2[cn])), d2)
        } else {
            (None, defs)
        },
        _ => (None, defs),
    }
}

/// The concrete types of generic arguments, in order, and the struct
/// definitions after registering those that are generic instances.
pub open spec fn pre_register_args(
    args: Seq<AstModel>,
    subst: Map<Seq<char>, TypeModel>,
    templates: Map<Seq<char>, StructDecl>,
    defs: StructDefs,
) -> (Seq<TypeModel>, StructDefs)
    decreases args,
{
    if args.len() == 0 {
        (Seq::empty(), defs)
    } else {
        let (ts, d) = pre_register_args(args.drop_last(), subst, templates, defs);
        let a = args[args.len() - 1];
        let mir = lower_model(a, Some(d), subst, Map::empty());
        if a is Generic {
            let (r, d2) = pre_register(a, subst, templates, d);
            (ts.push(if r is Some { r->0 } else { mir }), d2)
        } else {
            (ts.push(mir), d)
        }
    }
}

/// Lower each field of a template under the current definitions.
fn lower_template_fields(
    fields: &Vec<FieldDecl>,
    struct_defs: &NameTable<Vec<(String, MirType)>>,
    type_subst: &NameTable<MirType>,
) -> (r: Vec<(String, MirType)>)
    ensures
        fields_model(r@) == template_fields(fields@, fields_view(struct_defs), subst_view(type_subst)),
{
    let ghost target = template_fields(fields@, fields_view(struct_defs), subst_view(type_subst));
    let mut out: Vec<(String, MirType)> = Vec::new();
    assert(fields_model(out@) =~= target.take(0));
    let mut i: usize = 0;
    while i < fields.len()
        invariant
            i <= fields@.len(),
            target == template_fields(fields@, fields_view(struct_defs), subst_view(type_subst)),
            out@.len() == i,
            fields_model(out@) == target.take(i as int),
        decreases fields@.len() - i,
    {
        let t = ast_type_to_mir_with_subst(&fields[i].type_, Some(struct_defs), type_subst);
        let ghost prev = out@;
        out.push((fields[i].name.clone(), t));
        assert(out@.drop_last() =~= prev);
        assert(fields_model(out@) =~= target.take(i + 1));
        i = i + 1;
    }
    assert(target.take(i as int) =~= target);
    out
}

/// Pre-register the concrete generic instances among generic arguments.
fn pre_register_generic_args(
    args: &Vec<AstType>,
    type_subst: &NameTable<MirType>,
    generic_struct_templates: &NameTable<StructDecl>,
    struct_defs: &mut NameTable<Vec<(String, MirType)>>,
) -> (r: Vec<MirType>)
    ensures
        ({
            let (ts, d) = pre_register_args(
                asts_model(args@),
                subst_view(type_subst),
                generic_struct_templates@,
                fields_view(old(struct_defs)),
            );
            models(r@) == ts && fields_view(final(struct_defs)) == d
        }),
    decreases args, 0nat,
{
    let ghost am = asts_model(args@);
    let ghost sv = subst_view(type_subst);
    let ghost tv = generic_struct_templates@;
    let ghost d0 = fields_view(struct_defs);
    proof {
        lemma_asts_model_len(args@);
    }
    let mut out: Vec<MirType> = Vec::new();
    let mut i: usize = 0;
    while i < args.len()
        invariant
            i <= args@.len(),
            am == asts_model(args@),
            am.len() == args@.len(),
            sv == subst_view(type_subst),
            tv == generic_struct_templates@,
            ({
                let (ts, d) = pre_register_args(am.take(i as int), sv, tv, d0);
                models(out@) == ts && fields_view(struct_defs) == d
            }),
        decreases args@.len() - i,
    {
        proof {
            assert(decreases_to!(*args => args@));
            assert(decreases_to!(args@ => args@[i as int]));
            lemma_asts_model_index(args@, i as int);
            assert(am.take(i + 1).drop_last() =~= am.take(i as int));
        }
        let mir = ast_type_to_mir_with_subst(&args[i], Some(&*struct_defs), type_subst);
        let t = match &args[i] {
            AstType::Generic { .. } => match pre_register_generic_type(
                &args[i],
                type_subst,
                generic_struct_templates,
                struct_defs,
            ) {
                Some(m) => m,
                None => mir,
            },
            _ => mir,
        };
        let ghost prev = out@;
        out.push(t);
        assert(models(out@) =~= models(prev).push(t@));
        i = i + 1;
    }
    assert(am.take(i as int) =~= am);
    out
}

/// Scan an annotation for a generic struct instance and register its
/// concrete version (`Pair<i32, str>` as `Pair__i32_str`), so that a
/// function signature can resolve it before the function is lowered.
pub fn pre_register_generic_type(
    ast: &AstType,
    type_subst: &NameTable<MirType>,
    generic_struct_templates: &NameTable<StructDecl>,
    struct_defs: &mut NameTable<Vec<(String, MirType)>>,
) -> (r: Option<MirType>)
    ensures
        ({
            let (m, d) = pre_register(
                ast@,
                subst_view(type_subst),
                generic_struct_templates@,
                fields_view(old(struct_defs)),
            );
            &&& fields_view(final(struct_defs)) == d
            &&& r is Some == m is Some
            &&& r is Some ==> r->0@ == m->0
        }),
    decreases ast, 1nat,
{
    match ast {
        AstType::Generic { name, args } => {
            proof {
                lemma_asts_model_len(args@);
                assert(decreases_to!(*ast => (*ast)->Generic_args));
            }
            if str_eq(name.as_str(), "list") || args.len() == 0 {
                return None;
            }
            let tpl = match generic_struct_templates.get(name.as_str()) {
                Some(t) => t,
                None => {
                    return None;
                },
            };
            let concrete_args = pre_register_generic_args(args, type_subst, generic_struct_templates, struct_defs);
            let concrete = make_concrete_name(name.as_str(), concrete_args.as_slice());
            if !struct_defs.contains_key(concrete.as_str()) {
                let fields = lower_template_fields(&tpl.fields, struct_defs, type_subst);
                let ghost f = fields_model(fields@);
                let ghost before = fields_view(struct_defs);
                struct_defs.insert(concrete.clone(), fields);
                assert(fields_view(struct_defs) =~= before.insert(concrete@, f));
            }
            match struct_defs.get(concrete.as_str()) {
                Some(f) => Some(MirType::Struct(concrete.clone(), copy_fields(f))),
                None => None,
            }
        },
        _ => None,
    }
}

} // verus!
