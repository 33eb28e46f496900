//! Names, kinds and sizes of MIR types, mangled names of concrete generic
//! instances, and the return types of the runtime's builtin functions.
use vstd::prelude::*;
use crate::mir::{MirType, TypeModel, fields_model, lemma_fields_model_index, lemma_fields_model_len, models};
use crate::text::{str_eq, starts_with, has_prefix};
use crate::mir_text::type_text;

verus! {

/// `prefix`, then `inner`, then `suffix`.
fn wrap(prefix: &str, inner: String, suffix: &str) -> (r: String)
    ensures
        r@ == prefix@ + inner@ + suffix@,
{
    let mut s = String::from_str(prefix);
    s.append(inner.as_str());
    s.append(suffix);
    s
}

/// The name that `TypeInfo.name` reports for a type.
pub open spec fn info_name(t: TypeModel) -> Seq<char>
    decreases t,
{
    match t {
        TypeModel::I1 => "i1"@,
        TypeModel::I8 => "i8"@,
        TypeModel::I16 => "i16"@,
        TypeModel::I32 => "i32"@,
        TypeModel::I64 => "i64"@,
        TypeModel::U8 => "u8"@,
        TypeModel::U16 => "u16"@,
        TypeModel::U32 => "u32"@,
        TypeModel::U64 => "u64"@,
        TypeModel::F32 => "f32"@,
        TypeModel::F64 => "f64"@,
        TypeModel::Bool => "bool"@,
        TypeModel::Char => "char"@,
        TypeModel::Str => "str"@,
        TypeModel::Void => "void"@,
        TypeModel::Ptr(_) => "ptr"@,
        TypeModel::List(inner) => "list<"@ + info_name(*inner) + ">"@,
        TypeModel::Struct(name, _) => name,
        TypeModel::Dict(k, v) => "dict<"@ + info_name(*k) + ","@ + info_name(*v) + ">"@,
        TypeModel::SetOf(inner) => "set<"@ + info_name(*inner) + ">"@,
        TypeModel::Queue(inner) => "queue<"@ + info_name(*inner) + ">"@,
        TypeModel::Stack(inner) => "stack<"@ + info_name(*inner) + ">"@,
        TypeModel::Deque(inner) => "deque<"@ + info_name(*inner) + ">"@,
        TypeModel::LinkedList(inner) => "linked_list<"@ + info_name(*inner) + ">"@,
        TypeModel::Array(inner, _) => "["@ + info_name(*inner) + "]"@,
        TypeModel::Slice(inner) => "&["@ + info_name(*inner) + "]"@,
        TypeModel::Box(inner) => "box<"@ + info_name(*inner) + ">"@,
        TypeModel::Chan(inner) => "chan<"@ + info_name(*inner) + ">"@,
        TypeModel::Bytes => "bytes"@,
    }
}

/// Get the string name of a MirType (for `TypeInfo.name`).
pub fn mir_type_to_type_name(t: &MirType) -> (r: String)
    ensures
        r@ == info_name(t@),
    decreases t,
{
    match t {
        MirType::I1 => String::from_str("i1"),
        MirType::I8 => String::from_str("i8"),
        MirType::I16 => String::from_str("i16"),
        MirType::I32 => String::from_str("i32"),
        MirType::I64 => String::from_str("i64"),
        MirType::U8 => String::from_str("u8"),
        MirType::U16 => String::from_str("u16"),
        MirType::U32 => String::from_str("u32"),
        MirType::U64 => String::from_str("u64"),
        MirType::F32 => String::from_str("f32"),
        MirType::F64 => String::from_str("f64"),
        MirType::Bool => String::from_str("bool"),
        MirType::Char => String::from_str("char"),
        MirType::Str => String::from_str("str"),
        MirType::Void => String::from_str("void"),
        MirType::Ptr(_) => String::from_str("ptr"),
        MirType::List(inner) => wrap("list<", mir_type_to_type_name(inner), ">"),
        MirType::Struct(name, _) => name.clone(),
        MirType::Dict(k, v) => {
            let mut s = wrap("dict<", mir_type_to_type_name(k), ",");
            let vn = mir_type_to_type_name(v);
            s.append(vn.as_str());
            s.append(">");
            s
        },
        MirType::SetOf(inner) => wrap("set<", mir_type_to_type_name(inner), ">"),
        MirType::Queue(inner) => wrap("queue<", mir_type_to_type_name(inner), ">"),
        MirType::Stack(inner) => wrap("stack<", mir_type_to_type_name(inner), ">"),
        MirType::Deque(inner) => wrap("deque<", mir_type_to_type_name(inner), ">"),
        MirType::LinkedList(inner) => wrap("linked_list<", mir_type_to_type_name(inner), ">"),
        MirType::Array(inner, _) => wrap("[", mir_type_to_type_name(inner), "]"),
        MirType::Slice(inner) => wrap("&[", mir_type_to_type_name(inner), "]"),
        MirType::Box(inner) => wrap("box<", mir_type_to_type_name(inner), ">"),
        MirType::Chan(inner) => wrap("chan<", mir_type_to_type_name(inner), ">"),
        MirType::Bytes => String::from_str("bytes"),
    }
}

/// The kind that `TypeInfo.kind` reports for a type.
pub open spec fn type_kind(t: TypeModel) -> Seq<char> {
    match t {
        TypeModel::Ptr(_) => "ptr"@,
        TypeModel::List(_) => "list"@,
        TypeModel::Struct(_, _) => "struct"@,
        TypeModel::Dict(_, _) => "dict"@,
        TypeModel::SetOf(_) => "set"@,
        TypeModel::Queue(_) => "queue"@,
        TypeModel::Stack(_) => "stack"@,
        TypeModel::Deque(_) => "deque"@,
        TypeModel::LinkedList(_) => "linked_list"@,
        TypeModel::Array(_, _) => "array"@,
        TypeModel::Slice(_) => "slice"@,
        TypeModel::Box(_) => "box"@,
        TypeModel::Chan(_) => "chan"@,
        TypeModel::Bytes => "bytes"@,
        _ => "primitive"@,
    }
}

/// Get the kind string of a MirType (for `TypeInfo.kind`).
pub fn mir_type_to_kind(t: &MirType) -> (r: String)
    ensures
        r@ == type_kind(t@),
{
    match t {
        MirType::Ptr(_) => String::from_str("ptr"),
        MirType::List(_) => String::from_str("list"),
        MirType::Struct(_, _) => String::from_str("struct"),
        MirType::Dict(_, _) => String::from_str("dict"),
        MirType::SetOf(_) => String::from_str("set"),
        MirType::Queue(_) => String::from_str("queue"),
        MirType::Stack(_) => String::from_str("stack"),
        MirType::Deque(_) => String::from_str("deque"),
        MirType::LinkedList(_) => String::from_str("linked_list"),
        MirType::Array(_, _) => String::from_str("array"),
        MirType::Slice(_) => String::from_str("slice"),
        MirType::Box(_) => String::from_str("box"),
        MirType::Chan(_) => String::from_str("chan"),
        MirType::Bytes => String::from_str("bytes"),
        _ => String::from_str("primitive"),
    }
}

/// The byte size that `TypeInfo.size` reports: a struct counts the sum of
/// its fields without padding, an array eight times its element.
pub open spec fn type_size(t: TypeModel) -> int
    decreases t,
{
    match t {
        TypeModel::I1 | TypeModel::Bool => 1,
        TypeModel::I8 | TypeModel::U8 | TypeModel::Char => 1,
        TypeModel::I16 | TypeModel::U16 => 2,
        TypeModel::I32 | TypeModel::U32 => 4,
        TypeModel::I64 | TypeModel::U64 => 8,
        TypeModel::F32 => 4,
        TypeModel::F64 => 8,
        TypeModel::Void => 0,
        TypeModel::Struct(_, fields) => fields_size(fields),
        TypeModel::Array(inner, _) => type_size(*inner) * 8,
        TypeModel::Slice(_) => 16,
        _ => 8,
    }
}

/// The summed sizes of a list of fields.
pub open spec fn fields_size(fields: Seq<(Seq<char>, TypeModel)>) -> int
    decreases fields,
{
    if fields.len() == 0 {
        0
    } else {
        fields_size(fields.drop_last()) + type_size(fields.last().1)
    }
}

/// Sizes are never negative.
pub proof fn lemma_size_nonneg(t: TypeModel)
    ensures
        type_size(t) >= 0,
    decreases t,
{
    match t {
        TypeModel::Struct(_, fields) => lemma_fields_size_nonneg(fields),
        TypeModel::Array(inner, _) => lemma_size_nonneg(*inner),
        _ => {},
    }
}

/// Field sizes sum to a non-negative total that bounds every prefix.
pub proof fn lemma_fields_size_nonneg(fields: Seq<(Seq<char>, TypeModel)>)
    ensures
        fields_size(fields) >= 0,
        forall|i: int| 0 <= i <= fields.len() ==> fields_size(#[trigger] fields.take(i)) <= fields_size(fields),
    decreases fields,
{
    if fields.len() > 0 {
        let last = fields.last();
        assert(decreases_to!(fields => last));
        lemma_size_nonneg(last.1);
        lemma_fields_size_nonneg(fields.drop_last());
        assert forall|i: int| 0 <= i <= fields.len() implies fields_size(#[trigger] fields.take(i))
            <= fields_size(fields) by {
            if i < fields.len() {
                assert(fields.take(i) =~= fields.drop_last().take(i));
            } else {
                assert(fields.take(i) =~= fields);
            }
        }
    } else {
        assert forall|i: int| 0 <= i <= fields.len() implies fields_size(#[trigger] fields.take(i))
            <= fields_size(fields) by {
            assert(fields.take(i) =~= fields);
        }
    }
}

/// Get the byte size of a MirType (for `TypeInfo.size`).
pub fn mir_type_to_size(t: &MirType) -> (r: i32)
    requires
        type_size(t@) <= i32::MAX,
    ensures
        r == type_size(t@),
    decreases t,
{
    proof {
        lemma_size_nonneg(t@);
    }
    match t {
        MirType::I1 | MirType::Bool => 1,
        MirType::I8 | MirType::U8 | MirType::Char => 1,
        MirType::I16 | MirType::U16 => 2,
        MirType::I32 | MirType::U32 => 4,
        MirType::I64 | MirType::U64 => 8,
        MirType::F32 => 4,
        MirType::F64 => 8,
        MirType::Void => 0,
        MirType::Struct(sname, fields) => {
            let ghost fm = fields_model(fields@);
            proof {
                lemma_fields_model_len(fields@);
                lemma_fields_size_nonneg(fm);
            }
            let mut total: i32 = 0;
            let mut i: usize = 0;
            while i < fields.len()
                invariant
                    i <= fields@.len(),
                    *t == MirType::Struct(*sname, *fields),
                    fm == fields_model(fields@),
                    fm.len() == fields@.len(),
                    fields_size(fm) <= i32::MAX,
                    forall|k: int| 0 <= k <= fm.len() ==> fields_size(#[trigger] fm.take(k)) <= fields_size(fm),
                    total == fields_size(fm.take(i as int)),
                    total >= 0,
                decreases fields@.len() - i,
            {
                proof {
                    assert(decreases_to!(*t => (*t)->Struct_1));
                    assert(decreases_to!(*fields => fields@));
                    assert(decreases_to!(fields@ => fields@[i as int]));
                    lemma_fields_model_index(fields@, i as int);
                    assert(fm.take(i + 1).drop_last() =~= fm.take(i as int));
                    lemma_size_nonneg(fields@[i as int].1@);
                    assert(fields_size(fm.take(i + 1)) <= fields_size(fm));
                }
                let s = mir_type_to_size(&fields[i].1);
                total = total + s;
                i = i + 1;
            }
            assert(fm.take(i as int) =~= fm);
            total
        },
        MirType::Array(inner, _) => {
            proof {
                lemma_size_nonneg(inner@);
            }
            mir_type_to_size(inner) * 8
        },
        MirType::Slice(_) => 16,
        _ => 8,
    }
}

/// The name a type contributes to a mangled concrete struct name.
pub open spec fn type_mangle(t: TypeModel) -> Seq<char>
    decreases t,
{
    match t {
        TypeModel::I1 => "i1"@,
        TypeModel::I8 => "i8"@,
        TypeModel::I16 => "i16"@,
        TypeModel::I32 => "i32"@,
        TypeModel::I64 => "i64"@,
        TypeModel::U8 => "u8"@,
        TypeModel::U16 => "u16"@,
        TypeModel::U32 => "u32"@,
        TypeModel::U64 => "u64"@,
        TypeModel::F32 => "f32"@,
        TypeModel::F64 => "f64"@,
        TypeModel::Bool => "bool"@,
        TypeModel::Char => "char"@,
        TypeModel::Str => "str"@,
        TypeModel::Void => "void"@,
        TypeModel::Ptr(_) => "ptr"@,
        TypeModel::List(inner) => "list_"@ + type_mangle(*inner),
        TypeModel::Struct(name, _) => name,
        TypeModel::Array(inner, _) => "arr_"@ + type_mangle(*inner),
        TypeModel::Dict(k, v) => "dict_"@ + type_mangle(*k) + "_"@ + type_mangle(*v),
        TypeModel::SetOf(inner) => "set_"@ + type_mangle(*inner),
        TypeModel::Queue(inner) => "queue_"@ + type_mangle(*inner),
        TypeModel::Stack(inner) => "stack_"@ + type_mangle(*inner),
        TypeModel::Deque(inner) => "deque_"@ + type_mangle(*inner),
        TypeModel::LinkedList(inner) => "llist_"@ + type_mangle(*inner),
        TypeModel::Slice(inner) => "slice_"@ + type_mangle(*inner),
        TypeModel::Box(inner) => "box_"@ + type_mangle(*inner),
        TypeModel::Chan(inner) => "chan_"@ + type_mangle(*inner),
        TypeModel::Bytes => "bytes"@,
    }
}

/// `prefix` followed by `rest`.
fn prefixed(prefix: &str, rest: String) -> (r: String)
    ensures
        r@ == prefix@ + rest@,
{
    let mut s = String::from_str(prefix);
    s.append(rest.as_str());
    s
}

/// Serialize a MirType to a string for concrete struct name mangling.
pub fn mir_type_to_string(t: &MirType) -> (r: String)
    ensures
        r@ == type_mangle(t@),
    decreases t,
{
    match t {
        MirType::I1 => String::from_str("i1"),
        MirType::I8 => String::from_str("i8"),
        MirType::I16 => String::from_str("i16"),
        MirType::I32 => String::from_str("i32"),
        MirType::I64 => String::from_str("i64"),
        MirType::U8 => String::from_str("u8"),
        MirType::U16 => String::from_str("u16"),
        MirType::U32 => String::from_str("u32"),
        MirType::U64 => String::from_str("u64"),
        MirType::F32 => String::from_str("f32"),
        MirType::F64 => String::from_str("f64"),
        MirType::Bool => String::from_str("bool"),
        MirType::Char => String::from_str("char"),
        MirType::Str => String::from_str("str"),
        MirType::Void => String::from_str("void"),
        MirType::Ptr(_) => String::from_str("ptr"),
        MirType::List(inner) => prefixed("list_", mir_type_to_string(inner)),
        MirType::Struct(name, _) => name.clone(),
        MirType::Array(inner, _) => prefixed("arr_", mir_type_to_string(inner)),
        MirType::Dict(k, v) => {
            let mut s = prefixed("dict_", mir_type_to_string(k));
            s.append("_");
            let vs = mir_type_to_string(v);
            s.append(vs.as_str());
            s
        },
        MirType::SetOf(inner) => prefixed("set_", mir_type_to_string(inner)),
        MirType::Queue(inner) => prefixed("queue_", mir_type_to_string(inner)),
        MirType::Stack(inner) => prefixed("stack_", mir_type_to_string(inner)),
        MirType::Deque(inner) => prefixed("deque_", mir_type_to_string(inner)),
        MirType::LinkedList(inner) => prefixed("llist_", mir_type_to_string(inner)),
        MirType::Slice(inner) => prefixed("slice_", mir_type_to_string(inner)),
        MirType::Box(inner) => prefixed("box_", mir_type_to_string(inner)),
        MirType::Chan(inner) => prefixed("chan_", mir_type_to_string(inner)),
        MirType::Bytes => String::from_str("bytes"),
    }
}

/// The mangled names of `args`, joined by `_`.
pub open spec fn joined_mangles(args: Seq<TypeModel>) -> Seq<char>
    decreases args.len(),
{
    if args.len() == 0 {
        Seq::empty()
    } else if args.len() == 1 {
        type_mangle(args[0])
    } else {
        joined_mangles(args.drop_last()) + "_"@ + type_mangle(args.last())
    }
}

/// The name of the concrete instance of generic `name` at `args`:
/// `name__a_b` for arguments mangled as `a` and `b`.
pub open spec fn concrete_name(name: Seq<char>, args: Seq<TypeModel>) -> Seq<char> {
    if args.len() == 0 {
        name
    } else {
        name + "__"@ + joined_mangles(args)
    }
}

/// Create a mangled concrete struct name from a generic name and concrete
/// type args.
pub fn make_concrete_name(name: &str, type_args: &[MirType]) -> (r: String)
    ensures
        r@ == concrete_name(name@, models(type_args@)),
{
    let ghost ms = models(type_args@);
    if type_args.len() == 0 {
        return String::from_str(name);
    }
    let mut joined = mir_type_to_string(&type_args[0]);
    assert(ms.take(1).drop_last().len() == 0);
    let mut i: usize = 1;
    while i < type_args.len()
        invariant
            1 <= i <= type_args@.len(),
            ms == models(type_args@),
            joined@ == joined_mangles(ms.take(i as int)),
        decreases type_args@.len() - i,
    {
        let m = mir_type_to_string(&type_args[i]);
        joined.append("_");
        joined.append(m.as_str());
        assert(ms.take(i + 1).drop_last() =~= ms.take(i as int));
        i = i + 1;
    }
    assert(ms.take(i as int) =~= ms);
    let mut s = String::from_str(name);
    s.append("__");
    s.append(joined.as_str());
    s
}

/// The short type name a struct descriptor uses for a field.
pub open spec fn descriptor_type(t: TypeModel) -> Seq<char> {
    match t {
        TypeModel::Str => "str"@,
        TypeModel::I64 => "i64"@,
        TypeModel::Bool => "bool"@,
        TypeModel::F64 => "f64"@,
        _ => "i32"@,
    }
}

/// The `name:type` parts of a descriptor, joined by `,`.
pub open spec fn descriptor(fields: Seq<(Seq<char>, TypeModel)>) -> Seq<char>
    decreases fields.len(),
{
    if fields.len() == 0 {
        Seq::empty()
    } else {
        let part = fields.last().0 + ":"@ + descriptor_type(fields.last().1);
        if fields.len() == 1 {
            part
        } else {
            descriptor(fields.drop_last()) + ","@ + part
        }
    }
}

fn descriptor_type_of(t: &MirType) -> (r: &'static str)
    ensures
        r@ == descriptor_type(t@),
{
    match t {
        MirType::Str => "str",
        MirType::I64 => "i64",
        MirType::Bool => "bool",
        MirType::F64 => "f64",
        _ => "i32",
    }
}

/// A struct descriptor: `name:type` for each field, joined by `,`, where
/// a type is `str`, `i64`, `bool`, `f64`, or `i32` for any other.
pub fn build_descriptor(fields: &[(String, MirType)]) -> (r: String)
    ensures
        r@ == descriptor(fields_model(fields@)),
{
    let ghost fm = fields_model(fields@);
    proof {
        lemma_fields_model_len(fields@);
    }
    let mut out = String::new();
    let mut i: usize = 0;
    while i < fields.len()
        invariant
            i <= fields@.len(),
            fm == fields_model(fields@),
            fm.len() == fields@.len(),
            out@ == descriptor(fm.take(i as int)),
        decreases fields@.len() - i,
    {
        proof {
            lemma_fields_model_index(fields@, i as int);
            assert(fm.take(i + 1).drop_last() =~= fm.take(i as int));
        }
        if i > 0 {
            out.append(",");
        }
        out.append(fields[i].0.as_str());
        out.append(":");
        out.append(descriptor_type_of(&fields[i].1));
        i = i + 1;
    }
    assert(fm.take(i as int) =~= fm);
    out
}

/// The kind of a type names its constructor, and distinct constructors
/// have distinct kinds: `list` exactly for lists, `queue` exactly for
/// queues, and so on; every scalar type is `primitive`.
pub proof fn law_kind_names_constructor(t: TypeModel)
    ensures
        (type_kind(t) == "ptr"@) == (t is Ptr),
        (type_kind(t) == "list"@) == (t is List),
        (type_kind(t) == "struct"@) == (t is Struct),
        (type_kind(t) == "dict"@) == (t is Dict),
        (type_kind(t) == "set"@) == (t is SetOf),
        (type_kind(t) == "queue"@) == (t is Queue),
        (type_kind(t) == "stack"@) == (t is Stack),
        (type_kind(t) == "deque"@) == (t is Deque),
        (type_kind(t) == "linked_list"@) == (t is LinkedList),
        (type_kind(t) == "array"@) == (t is Array),
        (type_kind(t) == "slice"@) == (t is Slice),
        (type_kind(t) == "box"@) == (t is Box),
        (type_kind(t) == "chan"@) == (t is Chan),
        (type_kind(t) == "bytes"@) == (t is Bytes),
        (type_kind(t) == "primitive"@) == (t is I1 || t is I8 || t is I16 || t is I32 || t is I64 || t is U8 || t is U16 || t is U32 || t is U64 || t is F32 || t is F64 || t is Bool || t is Char || t is Str || t is Void),
{
    reveal_strlit("ptr");
    assert("ptr"@.len() == 3 && "ptr"@[0] == 'p' && "ptr"@[1] == 't' && "ptr"@[2] == 'r');
    reveal_strlit("list");
    assert("list"@.len() == 4 && "list"@[0] == 'l' && "list"@[1] == 'i' && "list"@[2] == 's' && "list"@[3] == 't');
    reveal_strlit("struct");
    assert("struct"@.len() == 6 && "struct"@[0] == 's' && "struct"@[1] == 't' && "struct"@[2] == 'r' && "struct"@[3] == 'u' && "struct"@[4] == 'c' && "struct"@[5] == 't');
    reveal_strlit("dict");
    assert("dict"@.len() == 4 && "dict"@[0] == 'd' && "dict"@[1] == 'i' && "dict"@[2] == 'c' && "dict"@[3] == 't');
    reveal_strlit("set");
    assert("set"@.len() == 3 && "set"@[0] == 's' && "set"@[1] == 'e' && "set"@[2] == 't');
    reveal_strlit("queue");
    assert("queue"@.len() == 5 && "queue"@[0] == 'q' && "queue"@[1] == 'u' && "queue"@[2] == 'e' && "queue"@[3] == 'u' && "queue"@[4] == 'e');
    reveal_strlit("stack");
    assert("stack"@.len() == 5 && "stack"@[0] == 's' && "stack"@[1] == 't' && "stack"@[2] == 'a' && "stack"@[3] == 'c' && "stack"@[4] == 'k');
    reveal_strlit("deque");
    assert("deque"@.len() == 5 && "deque"@[0] == 'd' && "deque"@[1] == 'e' && "deque"@[2] == 'q' && "deque"@[3] == 'u' && "deque"@[4] == 'e');
    reveal_strlit("linked_list");
    assert("linked_list"@.len() == 11 && "linked_list"@[0] == 'l' && "linked_list"@[1] == 'i' && "linked_list"@[2] == 'n' && "linked_list"@[3] == 'k' && "linked_list"@[4] == 'e' && "linked_list"@[5] == 'd' && "linked_list"@[6] == '_' && "linked_list"@[7] == 'l' && "linked_list"@[8] == 'i' && "linked_list"@[9] == 's' && "linked_list"@[10] == 't');
    reveal_strlit("array");
    assert("array"@.len() == 5 && "array"@[0] == 'a' && "array"@[1] == 'r' && "array"@[2] == 'r' && "array"@[3] == 'a' && "array"@[4] == 'y');
    reveal_strlit("slice");
    assert("slice"@.len() == 5 && "slice"@[0] == 's' && "slice"@[1] == 'l' && "slice"@[2] == 'i' && "slice"@[3] == 'c' && "slice"@[4] == 'e');
    reveal_strlit("box");
    assert("box"@.len() == 3 && "box"@[0] == 'b' && "box"@[1] == 'o' && "box"@[2] == 'x');
    reveal_strlit("chan");
    assert("chan"@.len() == 4 && "chan"@[0] == 'c' && "chan"@[1] == 'h' && "chan"@[2] == 'a' && "chan"@[3] == 'n');
    reveal_strlit("bytes");
    assert("bytes"@.len() == 5 && "bytes"@[0] == 'b' && "bytes"@[1] == 'y' && "bytes"@[2] == 't' && "bytes"@[3] == 'e' && "bytes"@[4] == 's');
    reveal_strlit("primitive");
    assert("primitive"@.len() == 9 && "primitive"@[0] == 'p' && "primitive"@[1] == 'r' && "primitive"@[2] == 'i' && "primitive"@[3] == 'm' && "primitive"@[4] == 'i' && "primitive"@[5] == 't' && "primitive"@[6] == 'i' && "primitive"@[7] == 'v' && "primitive"@[8] == 'e');
}

/// The kind of a collection type is the name that its listing text
/// starts with, before `<`: a queue is listed as `queue<..>` and has kind
/// `queue`. A byte buffer is listed by its kind.
pub proof fn law_kind_matches_listing(t: TypeModel)
    ensures
        t is List || t is Dict || t is SetOf || t is Queue || t is Stack || t is Deque || t is LinkedList || t is Box || t is Chan ==> type_text(t).take(type_kind(t).len() as int + 1) == type_kind(t) + "<"@,
        t is Bytes ==> type_text(t) == type_kind(t),
{
    match t {
        TypeModel::List(..) => {
            reveal_strlit("list");
            reveal_strlit("list<");
            reveal_strlit("<");
            assert(type_text(t).take(5) =~= "list"@ + "<"@);
        },
        TypeModel::Dict(..) => {
            reveal_strlit("dict");
            reveal_strlit("dict<");
            reveal_strlit("<");
            assert(type_text(t).take(5) =~= "dict"@ + "<"@);
        },
        TypeModel::SetOf(..) => {
            reveal_strlit("set");
            reveal_strlit("set<");
            reveal_strlit("<");
            assert(type_text(t).take(4) =~= "set"@ + "<"@);
        },
        TypeModel::Queue(..) => {
            reveal_strlit("queue");
            reveal_strlit("queue<");
            reveal_strlit("<");
            assert(type_text(t).take(6) =~= "queue"@ + "<"@);
        },
        TypeModel::Stack(..) => {
            reveal_strlit("stack");
            reveal_strlit("stack<");
            reveal_strlit("<");
            assert(type_text(t).take(6) =~= "stack"@ + "<"@);
        },
        TypeModel::Deque(..) => {
            reveal_strlit("deque");
            reveal_strlit("deque<");
            reveal_strlit("<");
            assert(type_text(t).take(6) =~= "deque"@ + "<"@);
        },
        TypeModel::LinkedList(..) => {
            reveal_strlit("linked_list");
            reveal_strlit("linked_list<");
            reveal_strlit("<");
            assert(type_text(t).take(12) =~= "linked_list"@ + "<"@);
        },
        TypeModel::Box(..) => {
            reveal_strlit("box");
            reveal_strlit("box<");
            reveal_strlit("<");
            assert(type_text(t).take(4) =~= "box"@ + "<"@);
        },
        TypeModel::Chan(..) => {
            reveal_strlit("chan");
            reveal_strlit("chan<");
            reveal_strlit("<");
            assert(type_text(t).take(5) =~= "chan"@ + "<"@);
        },
        _ => {},
    }
}

} // verus!

verus! {

/// Append a named field to a field list.
pub fn push_field(fields: &mut Vec<(String, MirType)>, name: &str, t: MirType)
    ensures
        fields_model(final(fields)@) == fields_model(old(fields)@).push((name@, t@)),
        final(fields)@.len() == old(fields)@.len() + 1,
{
    let ghost prev = fields@;
    fields.push((String::from_str(name), t));
    assert(fields@.drop_last() =~= prev);
}

/// The fields of a tagged value (`Option__T`, `Result`): a discriminant
/// and a payload widened to 64 bits.
pub open spec fn tagged_fields() -> Seq<(Seq<char>, TypeModel)> {
    seq![("disc"@, TypeModel::I32), ("payload"@, TypeModel::I64)]
}

/// The fields of a tagged value.
pub fn make_tagged_fields() -> (r: Vec<(String, MirType)>)
    ensures
        fields_model(r@) == tagged_fields(),
{
    let mut fields: Vec<(String, MirType)> = Vec::new();
    assert(fields_model(fields@) =~= Seq::empty());
    push_field(&mut fields, "disc", MirType::I32);
    push_field(&mut fields, "payload", MirType::I64);
    assert(fields_model(fields@) =~= tagged_fields());
    fields
}

/// The `Result` struct of fallible functions.
pub open spec fn result_model() -> TypeModel {
    TypeModel::Struct("Result"@, tagged_fields())
}

/// The `Result` struct of fallible functions.
pub fn make_result_type() -> (r: MirType)
    ensures
        r@ == result_model(),
{
    MirType::Struct(String::from_str("Result"), make_tagged_fields())
}

/// The `TypeInfo` struct that `type(x)` returns.
pub open spec fn typeinfo_model() -> TypeModel {
    TypeModel::Struct(
        "TypeInfo"@,
        seq![("name"@, TypeModel::Str), ("kind"@, TypeModel::Str), ("size"@, TypeModel::I32)],
    )
}

/// The `TypeInfo` struct that `type(x)` returns.
pub fn make_typeinfo_type() -> (r: MirType)
    ensures
        r@ == typeinfo_model(),
{
    let mut fields: Vec<(String, MirType)> = Vec::new();
    assert(fields_model(fields@) =~= Seq::empty());
    push_field(&mut fields, "name", MirType::Str);
    push_field(&mut fields, "kind", MirType::Str);
    push_field(&mut fields, "size", MirType::I32);
    assert(fields_model(fields@) =~= seq![
        ("name"@, TypeModel::Str),
        ("kind"@, TypeModel::Str),
        ("size"@, TypeModel::I32),
    ]);
    MirType::Struct(String::from_str("TypeInfo"), fields)
}

/// The scalar type a name denotes in a type annotation, if any.
pub open spec fn scalar_named(n: Seq<char>) -> Option<TypeModel> {
    if n == "i8"@ {
        Some(TypeModel::I8)
    } else if n == "u8"@ {
        Some(TypeModel::U8)
    } else if n == "i16"@ {
        Some(TypeModel::I16)
    } else if n == "u16"@ {
        Some(TypeModel::U16)
    } else if n == "i32"@ || n == "int"@ {
        Some(TypeModel::I32)
    } else if n == "u32"@ {
        Some(TypeModel::U32)
    } else if n == "i64"@ {
        Some(TypeModel::I64)
    } else if n == "u64"@ {
        Some(TypeModel::U64)
    } else if n == "f32"@ {
        Some(TypeModel::F32)
    } else if n == "f64"@ {
        Some(TypeModel::F64)
    } else if n == "bool"@ {
        Some(TypeModel::Bool)
    } else if n == "char"@ {
        Some(TypeModel::Char)
    } else if n == "str"@ {
        Some(TypeModel::Str)
    } else {
        None
    }
}

/// The scalar type a name denotes in a type annotation, if any.
pub fn scalar_type(n: &str) -> (r: Option<MirType>)
    ensures
        r is Some == scalar_named(n@) is Some,
        r is Some ==> r->0@ == scalar_named(n@)->0,
{
    if str_eq(n, "i8") {
        Some(MirType::I8)
    } else if str_eq(n, "u8") {
        Some(MirType::U8)
    } else if str_eq(n, "i16") {
        Some(MirType::I16)
    } else if str_eq(n, "u16") {
        Some(MirType::U16)
    } else if str_eq(n, "i32") || str_eq(n, "int") {
        Some(MirType::I32)
    } else if str_eq(n, "u32") {
        Some(MirType::U32)
    } else if str_eq(n, "i64") {
        Some(MirType::I64)
    } else if str_eq(n, "u64") {
        Some(MirType::U64)
    } else if str_eq(n, "f32") {
        Some(MirType::F32)
    } else if str_eq(n, "f64") {
        Some(MirType::F64)
    } else if str_eq(n, "bool") {
        Some(MirType::Bool)
    } else if str_eq(n, "char") {
        Some(MirType::Char)
    } else if str_eq(n, "str") {
        Some(MirType::Str)
    } else {
        None
    }
}

/// The type a primitive type name denotes: a scalar, `void`, or `i32`
/// for a name it does not know.
pub open spec fn primitive_named(n: Seq<char>) -> TypeModel {
    if scalar_named(n) is Some {
        scalar_named(n)->0
    } else if n == "void"@ {
        TypeModel::Void
    } else {
        TypeModel::I32
    }
}

/// The type a primitive type name denotes.
pub fn primitive_type(n: &str) -> (r: MirType)
    ensures
        r@ == primitive_named(n@),
{
    match scalar_type(n) {
        Some(t) => t,
        None => if str_eq(n, "void") {
            MirType::Void
        } else {
            MirType::I32
        },
    }
}

/// The payload type named by an `Option__T` struct name: the primitive
/// that `T` names, `i32` for any other `T` or any other name.
pub open spec fn option_inner(name: Seq<char>) -> TypeModel {
    if has_prefix(name, "Option__"@) {
        primitive_named(name.subrange("Option__"@.len() as int, name.len() as int))
    } else {
        TypeModel::I32
    }
}

/// Extract the inner type T from an `Option__T` struct name.
/// For example, `Option__i32` gives `i32`, `Option__str` gives `str`.
pub fn extract_inner_type(struct_name: &str) -> (r: MirType)
    ensures
        r@ == option_inner(struct_name@),
{
    if starts_with(struct_name, "Option__") {
        proof {
            reveal_strlit("Option__");
        }
        let inner = struct_name.substring_char(8, struct_name.unicode_len());
        primitive_type(inner)
    } else {
        MirType::I32
    }
}

/// Extract the inner MirType from an `Option__T` struct name.
pub fn extract_struct_inner(name: &str) -> (r: MirType)
    ensures
        r@ == option_inner(name@),
{
    extract_inner_type(name)
}

} // verus!
