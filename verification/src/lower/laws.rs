//! Properties of the lowering helpers as a whole.
use vstd::prelude::*;
use crate::lower::ctx::block_label;
use crate::lower::generics::{mir_to_ast, specialize, substitute, substitute_all, written_subst};
use crate::lower::classes::{MethodTable, ParentMap, declares_method, method_in_chain, parent_of};
use crate::lower::helpers::{bit_width, int_type, literal_model, wider, wider_int};
use crate::listing::constant_text;
use crate::mir::ConstModel;
use crate::ast::Literal;
use crate::text::signed_decimal;
use crate::lower::resolve::{StructDefs, defs_has, lower_model, lower_models, pre_register};
use crate::lower::types::{
    concrete_name, scalar_named, joined_mangles, option_inner, primitive_named, type_mangle, info_name,
    type_size, type_kind, law_kind_names_constructor,
};
use crate::mir_text::type_text;
use crate::mir::move_type;
use crate::ast::{AstModel, ExprModel, FnModel, StructDecl};
use crate::lower::closures::{field_owner_type, inferred_type, method_receiver_type};
use crate::mir::{MirType, TypeModel};
use crate::lower::builtins::{builtin_return, string_builtin};
use crate::text::{decimal, digit_char};

verus! {

/// Types that an annotation writes back exactly: scalars other than `i1`,
/// `void`, strings, bytes, and the collection, array, slice, box and
/// channel constructors over such types.
pub open spec fn plain_type(t: TypeModel) -> bool
    decreases t,
{
    match t {
        TypeModel::I1 => false,
        TypeModel::Ptr(_) => false,
        TypeModel::Struct(_, _) => false,
        TypeModel::List(inner) => plain_type(*inner),
        TypeModel::Array(inner, _) => plain_type(*inner),
        TypeModel::Dict(k, v) => plain_type(*k) && plain_type(*v),
        TypeModel::SetOf(inner) => plain_type(*inner),
        TypeModel::Queue(inner) => plain_type(*inner),
        TypeModel::Stack(inner) => plain_type(*inner),
        TypeModel::Deque(inner) => plain_type(*inner),
        TypeModel::LinkedList(inner) => plain_type(*inner),
        TypeModel::Slice(inner) => plain_type(*inner),
        TypeModel::Box(inner) => plain_type(*inner),
        TypeModel::Chan(inner) => plain_type(*inner),
        _ => true,
    }
}

/// The characters of the type names that annotations use.
proof fn lemma_type_names()
    ensures
        "i8"@ == seq!['i', '8'],
        "u8"@ == seq!['u', '8'],
        "i16"@ == seq!['i', '1', '6'],
        "u16"@ == seq!['u', '1', '6'],
        "i32"@ == seq!['i', '3', '2'],
        "int"@ == seq!['i', 'n', 't'],
        "u32"@ == seq!['u', '3', '2'],
        "i64"@ == seq!['i', '6', '4'],
        "u64"@ == seq!['u', '6', '4'],
        "f32"@ == seq!['f', '3', '2'],
        "f64"@ == seq!['f', '6', '4'],
        "bool"@ == seq!['b', 'o', 'o', 'l'],
        "char"@ == seq!['c', 'h', 'a', 'r'],
        "str"@ == seq!['s', 't', 'r'],
        "void"@ == seq!['v', 'o', 'i', 'd'],
        "set"@ == seq!['s', 'e', 't'],
        "list"@ == seq!['l', 'i', 's', 't'],
        "tuple"@ == seq!['t', 'u', 'p', 'l', 'e'],
        "Option"@ == seq!['O', 'p', 't', 'i', 'o', 'n'],
        "box"@ == seq!['b', 'o', 'x'],
{
    reveal_strlit("i8");
    reveal_strlit("u8");
    reveal_strlit("i16");
    reveal_strlit("u16");
    reveal_strlit("i32");
    reveal_strlit("int");
    reveal_strlit("u32");
    reveal_strlit("i64");
    reveal_strlit("u64");
    reveal_strlit("f32");
    reveal_strlit("f64");
    reveal_strlit("bool");
    reveal_strlit("char");
    reveal_strlit("str");
    reveal_strlit("void");
    reveal_strlit("set");
    reveal_strlit("list");
    reveal_strlit("tuple");
    reveal_strlit("Option");
    reveal_strlit("box");
}

/// Lowering the annotation that a MIR type is written back as gives the
/// type back, for every plain type, whatever the type aliases, and whatever
/// the struct definitions unless they define a struct `box` with fields.
/// Specializing a generic function relies on this: it writes the concrete
/// types of its type parameters into the function's annotations and lowers
/// them again.
pub proof fn law_annotation_round_trip(
    t: TypeModel,
    defs: Option<StructDefs>,
    aliases: Map<Seq<char>, AstModel>,
)
    requires
        plain_type(t),
        !(defs_has(defs, "box"@) && defs->0["box"@].len() > 0),
    ensures
        lower_model(mir_to_ast(t), defs, Map::empty(), aliases) == t,
    decreases t,
{
    lemma_type_names();
    match t {
        TypeModel::List(inner) => {
            law_annotation_round_trip(*inner, defs, aliases);
            assert(seq![mir_to_ast(*inner)][0] == mir_to_ast(*inner));
        },
        TypeModel::Box(inner) => {
            law_annotation_round_trip(*inner, defs, aliases);
            assert(seq![mir_to_ast(*inner)][0] == mir_to_ast(*inner));
        },
        TypeModel::Array(inner, _) => law_annotation_round_trip(*inner, defs, aliases),
        TypeModel::Dict(k, v) => {
            law_annotation_round_trip(*k, defs, aliases);
            law_annotation_round_trip(*v, defs, aliases);
        },
        TypeModel::SetOf(inner) => law_annotation_round_trip(*inner, defs, aliases),
        TypeModel::Queue(inner) => law_annotation_round_trip(*inner, defs, aliases),
        TypeModel::Stack(inner) => law_annotation_round_trip(*inner, defs, aliases),
        TypeModel::Deque(inner) => law_annotation_round_trip(*inner, defs, aliases),
        TypeModel::LinkedList(inner) => law_annotation_round_trip(*inner, defs, aliases),
        TypeModel::Slice(inner) => law_annotation_round_trip(*inner, defs, aliases),
        TypeModel::Chan(inner) => law_annotation_round_trip(*inner, defs, aliases),
        _ => {},
    }
}

/// Types that a primitive type name denotes.
pub open spec fn primitive_payload(t: TypeModel) -> bool {
    ||| t is I8
    ||| t is U8
    ||| t is I16
    ||| t is U16
    ||| t is I32
    ||| t is U32
    ||| t is I64
    ||| t is U64
    ||| t is F32
    ||| t is F64
    ||| t is Bool
    ||| t is Char
    ||| t is Str
    ||| t is Void
}

/// The payload type named after the `Option__` prefix.
proof fn lemma_option_inner_of(m: Seq<char>)
    ensures
        option_inner("Option"@ + "__"@ + m) == primitive_named(m),
{
    reveal_strlit("Option__");
    reveal_strlit("Option");
    reveal_strlit("__");
    let name = "Option"@ + "__"@ + m;
    assert("Option"@ + "__"@ =~= "Option__"@);
    assert(name =~= "Option__"@ + m);
    assert(name.subrange(0, 8) =~= "Option__"@);
    assert(name.subrange(8, name.len() as int) =~= m);
}

/// The payload type of an optional value can be read back from the name
/// of its `Option__T` struct, for every primitive payload type.
pub proof fn law_option_name_round_trip(t: TypeModel)
    requires
        primitive_payload(t),
    ensures
        option_inner(concrete_name("Option"@, seq![t])) == t,
{
    lemma_type_names();
    assert(seq![t].drop_last().len() == 0);
    assert(joined_mangles(seq![t]) == type_mangle(t));
    lemma_option_inner_of(type_mangle(t));
    assert(primitive_named(type_mangle(t)) == t);
}

/// The wider of two integer types is one of them, and at least as wide as
/// each; where either type is not an integer type, it is `i32`.
pub proof fn law_wider_int_is_widest(a: MirType, b: MirType)
    ensures
        int_type(a) && int_type(b) ==> {
            &&& wider_int(a, b) == a || wider_int(a, b) == b
            &&& bit_width(wider_int(a, b)) >= bit_width(a)
            &&& bit_width(wider_int(a, b)) >= bit_width(b)
        },
        !int_type(a) || !int_type(b) ==> wider_int(a, b) == MirType::I32,
{
}

/// A decimal rendering has at least one digit.
proof fn lemma_decimal_nonempty(n: nat)
    ensures
        decimal(n).len() >= 1,
        n >= 10 ==> decimal(n).len() >= 2,
    decreases n,
{
    if n >= 10 {
        lemma_decimal_nonempty(n / 10);
    }
}

/// Different numbers have different decimal renderings.
pub proof fn lemma_decimal_injective(n: nat, m: nat)
    requires
        decimal(n) == decimal(m),
    ensures
        n == m,
    decreases n,
{
    lemma_decimal_nonempty(n);
    lemma_decimal_nonempty(m);
    if n < 10 && m < 10 {
        assert(decimal(n)[0] == digit_char(n));
        assert(decimal(m)[0] == digit_char(m));
    } else if n >= 10 && m >= 10 {
        let dn = decimal(n);
        let dm = decimal(m);
        assert(dn.last() == digit_char(n % 10));
        assert(dm.last() == digit_char(m % 10));
        assert(dn.drop_last() =~= decimal(n / 10));
        assert(dm.drop_last() =~= decimal(m / 10));
        lemma_decimal_injective(n / 10, m / 10);
    } else {
        assert(false);
    }
}

/// Blocks numbered differently get different labels, so every block that
/// lowering starts has a label of its own.
pub proof fn law_block_labels_distinct(n: nat, m: nat)
    requires
        n != m,
    ensures
        block_label(n) != block_label(m),
{
    reveal_strlit("bb");
    if block_label(n) == block_label(m) {
        assert(block_label(n).subrange(2, block_label(n).len() as int) =~= decimal(n));
        assert(block_label(m).subrange(2, block_label(m).len() as int) =~= decimal(m));
        lemma_decimal_injective(n, m);
    }
}

/// The concrete instance that registering a generic annotation reports is
/// the one it has registered: its name is defined afterwards, with exactly
/// the reported fields.
pub proof fn law_pre_register_defines(
    ast: AstModel,
    subst: Map<Seq<char>, TypeModel>,
    templates: Map<Seq<char>, StructDecl>,
    defs: StructDefs,
)
    ensures
        ({
            let (m, d) = pre_register(ast, subst, templates, defs);
            m is Some ==> (m->0 matches TypeModel::Struct(name, fields) && d.contains_key(name) && d[name] == fields)
        }),
{
}

proof fn lemma_builtin_names_0()
    ensures
        "print"@.len() == 5 && "print"@[0] == 'p' && "print"@[1] == 'r' && "print"@[2] == 'i' && "print"@[3] == 'n' && "print"@[4] == 't',
        "println"@.len() == 7 && "println"@[0] == 'p' && "println"@[1] == 'r' && "println"@[2] == 'i' && "println"@[3] == 'n' && "println"@[4] == 't' && "println"@[5] == 'l' && "println"@[6] == 'n',
        "contains"@.len() == 8 && "contains"@[0] == 'c' && "contains"@[1] == 'o' && "contains"@[2] == 'n' && "contains"@[3] == 't' && "contains"@[4] == 'a' && "contains"@[5] == 'i' && "contains"@[6] == 'n' && "contains"@[7] == 's',
        "to_upper"@.len() == 8 && "to_upper"@[0] == 't' && "to_upper"@[1] == 'o' && "to_upper"@[2] == '_' && "to_upper"@[3] == 'u' && "to_upper"@[4] == 'p' && "to_upper"@[5] == 'p' && "to_upper"@[6] == 'e' && "to_upper"@[7] == 'r',
        "to_lower"@.len() == 8 && "to_lower"@[0] == 't' && "to_lower"@[1] == 'o' && "to_lower"@[2] == '_' && "to_lower"@[3] == 'l' && "to_lower"@[4] == 'o' && "to_lower"@[5] == 'w' && "to_lower"@[6] == 'e' && "to_lower"@[7] == 'r',
        "upper"@.len() == 5 && "upper"@[0] == 'u' && "upper"@[1] == 'p' && "upper"@[2] == 'p' && "upper"@[3] == 'e' && "upper"@[4] == 'r',
{
    reveal_strlit("print");
    reveal_strlit("println");
    reveal_strlit("contains");
    reveal_strlit("to_upper");
    reveal_strlit("to_lower");
    reveal_strlit("upper");
}

proof fn lemma_builtin_names_1()
    ensures
        "lower"@.len() == 5 && "lower"@[0] == 'l' && "lower"@[1] == 'o' && "lower"@[2] == 'w' && "lower"@[3] == 'e' && "lower"@[4] == 'r',
        "trim"@.len() == 4 && "trim"@[0] == 't' && "trim"@[1] == 'r' && "trim"@[2] == 'i' && "trim"@[3] == 'm',
        "replace"@.len() == 7 && "replace"@[0] == 'r' && "replace"@[1] == 'e' && "replace"@[2] == 'p' && "replace"@[3] == 'l' && "replace"@[4] == 'a' && "replace"@[5] == 'c' && "replace"@[6] == 'e',
        "input"@.len() == 5 && "input"@[0] == 'i' && "input"@[1] == 'n' && "input"@[2] == 'p' && "input"@[3] == 'u' && "input"@[4] == 't',
        "input_with_prompt"@.len() == 17 && "input_with_prompt"@[0] == 'i' && "input_with_prompt"@[1] == 'n' && "input_with_prompt"@[2] == 'p' && "input_with_prompt"@[3] == 'u' && "input_with_prompt"@[4] == 't' && "input_with_prompt"@[5] == '_' && "input_with_prompt"@[6] == 'w' && "input_with_prompt"@[7] == 'i' && "input_with_prompt"@[8] == 't' && "input_with_prompt"@[9] == 'h' && "input_with_prompt"@[10] == '_' && "input_with_prompt"@[11] == 'p' && "input_with_prompt"@[12] == 'r' && "input_with_prompt"@[13] == 'o' && "input_with_prompt"@[14] == 'm' && "input_with_prompt"@[15] == 'p' && "input_with_prompt"@[16] == 't',
        "open"@.len() == 4 && "open"@[0] == 'o' && "open"@[1] == 'p' && "open"@[2] == 'e' && "open"@[3] == 'n',
{
    reveal_strlit("lower");
    reveal_strlit("trim");
    reveal_strlit("replace");
    reveal_strlit("input");
    reveal_strlit("input_with_prompt");
    reveal_strlit("open");
}

proof fn lemma_builtin_names_2()
    ensures
        "close"@.len() == 5 && "close"@[0] == 'c' && "close"@[1] == 'l' && "close"@[2] == 'o' && "close"@[3] == 's' && "close"@[4] == 'e',
        "write_str"@.len() == 9 && "write_str"@[0] == 'w' && "write_str"@[1] == 'r' && "write_str"@[2] == 'i' && "write_str"@[3] == 't' && "write_str"@[4] == 'e' && "write_str"@[5] == '_' && "write_str"@[6] == 's' && "write_str"@[7] == 't' && "write_str"@[8] == 'r',
        "read_str"@.len() == 8 && "read_str"@[0] == 'r' && "read_str"@[1] == 'e' && "read_str"@[2] == 'a' && "read_str"@[3] == 'd' && "read_str"@[4] == '_' && "read_str"@[5] == 's' && "read_str"@[6] == 't' && "read_str"@[7] == 'r',
        "char_at"@.len() == 7 && "char_at"@[0] == 'c' && "char_at"@[1] == 'h' && "char_at"@[2] == 'a' && "char_at"@[3] == 'r' && "char_at"@[4] == '_' && "char_at"@[5] == 'a' && "char_at"@[6] == 't',
        "ord"@.len() == 3 && "ord"@[0] == 'o' && "ord"@[1] == 'r' && "ord"@[2] == 'd',
        "is_digit"@.len() == 8 && "is_digit"@[0] == 'i' && "is_digit"@[1] == 's' && "is_digit"@[2] == '_' && "is_digit"@[3] == 'd' && "is_digit"@[4] == 'i' && "is_digit"@[5] == 'g' && "is_digit"@[6] == 'i' && "is_digit"@[7] == 't',
{
    reveal_strlit("close");
    reveal_strlit("write_str");
    reveal_strlit("read_str");
    reveal_strlit("char_at");
    reveal_strlit("ord");
    reveal_strlit("is_digit");
}

proof fn lemma_builtin_names_3()
    ensures
        "is_alpha"@.len() == 8 && "is_alpha"@[0] == 'i' && "is_alpha"@[1] == 's' && "is_alpha"@[2] == '_' && "is_alpha"@[3] == 'a' && "is_alpha"@[4] == 'l' && "is_alpha"@[5] == 'p' && "is_alpha"@[6] == 'h' && "is_alpha"@[7] == 'a',
        "is_alnum"@.len() == 8 && "is_alnum"@[0] == 'i' && "is_alnum"@[1] == 's' && "is_alnum"@[2] == '_' && "is_alnum"@[3] == 'a' && "is_alnum"@[4] == 'l' && "is_alnum"@[5] == 'n' && "is_alnum"@[6] == 'u' && "is_alnum"@[7] == 'm',
        "is_whitespace"@.len() == 13 && "is_whitespace"@[0] == 'i' && "is_whitespace"@[1] == 's' && "is_whitespace"@[2] == '_' && "is_whitespace"@[3] == 'w' && "is_whitespace"@[4] == 'h' && "is_whitespace"@[5] == 'i' && "is_whitespace"@[6] == 't' && "is_whitespace"@[7] == 'e' && "is_whitespace"@[8] == 's' && "is_whitespace"@[9] == 'p' && "is_whitespace"@[10] == 'a' && "is_whitespace"@[11] == 'c' && "is_whitespace"@[12] == 'e',
        "is_upper"@.len() == 8 && "is_upper"@[0] == 'i' && "is_upper"@[1] == 's' && "is_upper"@[2] == '_' && "is_upper"@[3] == 'u' && "is_upper"@[4] == 'p' && "is_upper"@[5] == 'p' && "is_upper"@[6] == 'e' && "is_upper"@[7] == 'r',
        "is_lower"@.len() == 8 && "is_lower"@[0] == 'i' && "is_lower"@[1] == 's' && "is_lower"@[2] == '_' && "is_lower"@[3] == 'l' && "is_lower"@[4] == 'o' && "is_lower"@[5] == 'w' && "is_lower"@[6] == 'e' && "is_lower"@[7] == 'r',
        "now"@.len() == 3 && "now"@[0] == 'n' && "now"@[1] == 'o' && "now"@[2] == 'w',
{
    reveal_strlit("is_alpha");
    reveal_strlit("is_alnum");
    reveal_strlit("is_whitespace");
    reveal_strlit("is_upper");
    reveal_strlit("is_lower");
    reveal_strlit("now");
}

proof fn lemma_builtin_names_4()
    ensures
        "sleep"@.len() == 5 && "sleep"@[0] == 's' && "sleep"@[1] == 'l' && "sleep"@[2] == 'e' && "sleep"@[3] == 'e' && "sleep"@[4] == 'p',
        "list_push"@.len() == 9 && "list_push"@[0] == 'l' && "list_push"@[1] == 'i' && "list_push"@[2] == 's' && "list_push"@[3] == 't' && "list_push"@[4] == '_' && "list_push"@[5] == 'p' && "list_push"@[6] == 'u' && "list_push"@[7] == 's' && "list_push"@[8] == 'h',
        "list_set"@.len() == 8 && "list_set"@[0] == 'l' && "list_set"@[1] == 'i' && "list_set"@[2] == 's' && "list_set"@[3] == 't' && "list_set"@[4] == '_' && "list_set"@[5] == 's' && "list_set"@[6] == 'e' && "list_set"@[7] == 't',
        "assert"@.len() == 6 && "assert"@[0] == 'a' && "assert"@[1] == 's' && "assert"@[2] == 's' && "assert"@[3] == 'e' && "assert"@[4] == 'r' && "assert"@[5] == 't',
        "assert_eq"@.len() == 9 && "assert_eq"@[0] == 'a' && "assert_eq"@[1] == 's' && "assert_eq"@[2] == 's' && "assert_eq"@[3] == 'e' && "assert_eq"@[4] == 'r' && "assert_eq"@[5] == 't' && "assert_eq"@[6] == '_' && "assert_eq"@[7] == 'e' && "assert_eq"@[8] == 'q',
        "assert_ne"@.len() == 9 && "assert_ne"@[0] == 'a' && "assert_ne"@[1] == 's' && "assert_ne"@[2] == 's' && "assert_ne"@[3] == 'e' && "assert_ne"@[4] == 'r' && "assert_ne"@[5] == 't' && "assert_ne"@[6] == '_' && "assert_ne"@[7] == 'n' && "assert_ne"@[8] == 'e',
{
    reveal_strlit("sleep");
    reveal_strlit("list_push");
    reveal_strlit("list_set");
    reveal_strlit("assert");
    reveal_strlit("assert_eq");
    reveal_strlit("assert_ne");
}

proof fn lemma_builtin_names_5()
    ensures
        "assert_str"@.len() == 10 && "assert_str"@[0] == 'a' && "assert_str"@[1] == 's' && "assert_str"@[2] == 's' && "assert_str"@[3] == 'e' && "assert_str"@[4] == 'r' && "assert_str"@[5] == 't' && "assert_str"@[6] == '_' && "assert_str"@[7] == 's' && "assert_str"@[8] == 't' && "assert_str"@[9] == 'r',
        "list_new"@.len() == 8 && "list_new"@[0] == 'l' && "list_new"@[1] == 'i' && "list_new"@[2] == 's' && "list_new"@[3] == 't' && "list_new"@[4] == '_' && "list_new"@[5] == 'n' && "list_new"@[6] == 'e' && "list_new"@[7] == 'w',
        "list_get"@.len() == 8 && "list_get"@[0] == 'l' && "list_get"@[1] == 'i' && "list_get"@[2] == 's' && "list_get"@[3] == 't' && "list_get"@[4] == '_' && "list_get"@[5] == 'g' && "list_get"@[6] == 'e' && "list_get"@[7] == 't',
        "list_len"@.len() == 8 && "list_len"@[0] == 'l' && "list_len"@[1] == 'i' && "list_len"@[2] == 's' && "list_len"@[3] == 't' && "list_len"@[4] == '_' && "list_len"@[5] == 'l' && "list_len"@[6] == 'e' && "list_len"@[7] == 'n',
        "substr"@.len() == 6 && "substr"@[0] == 's' && "substr"@[1] == 'u' && "substr"@[2] == 'b' && "substr"@[3] == 's' && "substr"@[4] == 't' && "substr"@[5] == 'r',
        "eq_str"@.len() == 6 && "eq_str"@[0] == 'e' && "eq_str"@[1] == 'q' && "eq_str"@[2] == '_' && "eq_str"@[3] == 's' && "eq_str"@[4] == 't' && "eq_str"@[5] == 'r',
{
    reveal_strlit("assert_str");
    reveal_strlit("list_new");
    reveal_strlit("list_get");
    reveal_strlit("list_len");
    reveal_strlit("substr");
    reveal_strlit("eq_str");
}

proof fn lemma_builtin_names_6()
    ensures
        "json_parse"@.len() == 10 && "json_parse"@[0] == 'j' && "json_parse"@[1] == 's' && "json_parse"@[2] == 'o' && "json_parse"@[3] == 'n' && "json_parse"@[4] == '_' && "json_parse"@[5] == 'p' && "json_parse"@[6] == 'a' && "json_parse"@[7] == 'r' && "json_parse"@[8] == 's' && "json_parse"@[9] == 'e',
        "json_stringify"@.len() == 14 && "json_stringify"@[0] == 'j' && "json_stringify"@[1] == 's' && "json_stringify"@[2] == 'o' && "json_stringify"@[3] == 'n' && "json_stringify"@[4] == '_' && "json_stringify"@[5] == 's' && "json_stringify"@[6] == 't' && "json_stringify"@[7] == 'r' && "json_stringify"@[8] == 'i' && "json_stringify"@[9] == 'n' && "json_stringify"@[10] == 'g' && "json_stringify"@[11] == 'i' && "json_stringify"@[12] == 'f' && "json_stringify"@[13] == 'y',
        "json_stringify_str"@.len() == 18 && "json_stringify_str"@[0] == 'j' && "json_stringify_str"@[1] == 's' && "json_stringify_str"@[2] == 'o' && "json_stringify_str"@[3] == 'n' && "json_stringify_str"@[4] == '_' && "json_stringify_str"@[5] == 's' && "json_stringify_str"@[6] == 't' && "json_stringify_str"@[7] == 'r' && "json_stringify_str"@[8] == 'i' && "json_stringify_str"@[9] == 'n' && "json_stringify_str"@[10] == 'g' && "json_stringify_str"@[11] == 'i' && "json_stringify_str"@[12] == 'f' && "json_stringify_str"@[13] == 'y' && "json_stringify_str"@[14] == '_' && "json_stringify_str"@[15] == 's' && "json_stringify_str"@[16] == 't' && "json_stringify_str"@[17] == 'r',
        "serialize"@.len() == 9 && "serialize"@[0] == 's' && "serialize"@[1] == 'e' && "serialize"@[2] == 'r' && "serialize"@[3] == 'i' && "serialize"@[4] == 'a' && "serialize"@[5] == 'l' && "serialize"@[6] == 'i' && "serialize"@[7] == 'z' && "serialize"@[8] == 'e',
        "ky_struct_to_json"@.len() == 17 && "ky_struct_to_json"@[0] == 'k' && "ky_struct_to_json"@[1] == 'y' && "ky_struct_to_json"@[2] == '_' && "ky_struct_to_json"@[3] == 's' && "ky_struct_to_json"@[4] == 't' && "ky_struct_to_json"@[5] == 'r' && "ky_struct_to_json"@[6] == 'u' && "ky_struct_to_json"@[7] == 'c' && "ky_struct_to_json"@[8] == 't' && "ky_struct_to_json"@[9] == '_' && "ky_struct_to_json"@[10] == 't' && "ky_struct_to_json"@[11] == 'o' && "ky_struct_to_json"@[12] == '_' && "ky_struct_to_json"@[13] == 'j' && "ky_struct_to_json"@[14] == 's' && "ky_struct_to_json"@[15] == 'o' && "ky_struct_to_json"@[16] == 'n',
        "type"@.len() == 4 && "type"@[0] == 't' && "type"@[1] == 'y' && "type"@[2] == 'p' && "type"@[3] == 'e',
{
    reveal_strlit("json_parse");
    reveal_strlit("json_stringify");
    reveal_strlit("json_stringify_str");
    reveal_strlit("serialize");
    reveal_strlit("ky_struct_to_json");
    reveal_strlit("type");
}

proof fn lemma_builtin_names_7()
    ensures
        "ceil"@.len() == 4 && "ceil"@[0] == 'c' && "ceil"@[1] == 'e' && "ceil"@[2] == 'i' && "ceil"@[3] == 'l',
        "floor"@.len() == 5 && "floor"@[0] == 'f' && "floor"@[1] == 'l' && "floor"@[2] == 'o' && "floor"@[3] == 'o' && "floor"@[4] == 'r',
        "round"@.len() == 5 && "round"@[0] == 'r' && "round"@[1] == 'o' && "round"@[2] == 'u' && "round"@[3] == 'n' && "round"@[4] == 'd',
        "ky_getenv"@.len() == 9 && "ky_getenv"@[0] == 'k' && "ky_getenv"@[1] == 'y' && "ky_getenv"@[2] == '_' && "ky_getenv"@[3] == 'g' && "ky_getenv"@[4] == 'e' && "ky_getenv"@[5] == 't' && "ky_getenv"@[6] == 'e' && "ky_getenv"@[7] == 'n' && "ky_getenv"@[8] == 'v',
        "ky_setenv"@.len() == 9 && "ky_setenv"@[0] == 'k' && "ky_setenv"@[1] == 'y' && "ky_setenv"@[2] == '_' && "ky_setenv"@[3] == 's' && "ky_setenv"@[4] == 'e' && "ky_setenv"@[5] == 't' && "ky_setenv"@[6] == 'e' && "ky_setenv"@[7] == 'n' && "ky_setenv"@[8] == 'v',
        "ky_base64_encode"@.len() == 16 && "ky_base64_encode"@[0] == 'k' && "ky_base64_encode"@[1] == 'y' && "ky_base64_encode"@[2] == '_' && "ky_base64_encode"@[3] == 'b' && "ky_base64_encode"@[4] == 'a' && "ky_base64_encode"@[5] == 's' && "ky_base64_encode"@[6] == 'e' && "ky_base64_encode"@[7] == '6' && "ky_base64_encode"@[8] == '4' && "ky_base64_encode"@[9] == '_' && "ky_base64_encode"@[10] == 'e' && "ky_base64_encode"@[11] == 'n' && "ky_base64_encode"@[12] == 'c' && "ky_base64_encode"@[13] == 'o' && "ky_base64_encode"@[14] == 'd' && "ky_base64_encode"@[15] == 'e',
{
    reveal_strlit("ceil");
    reveal_strlit("floor");
    reveal_strlit("round");
    reveal_strlit("ky_getenv");
    reveal_strlit("ky_setenv");
    reveal_strlit("ky_base64_encode");
}

proof fn lemma_builtin_names_8()
    ensures
        "ky_sha1"@.len() == 7 && "ky_sha1"@[0] == 'k' && "ky_sha1"@[1] == 'y' && "ky_sha1"@[2] == '_' && "ky_sha1"@[3] == 's' && "ky_sha1"@[4] == 'h' && "ky_sha1"@[5] == 'a' && "ky_sha1"@[6] == '1',
        "ky_spawn_thread"@.len() == 15 && "ky_spawn_thread"@[0] == 'k' && "ky_spawn_thread"@[1] == 'y' && "ky_spawn_thread"@[2] == '_' && "ky_spawn_thread"@[3] == 's' && "ky_spawn_thread"@[4] == 'p' && "ky_spawn_thread"@[5] == 'a' && "ky_spawn_thread"@[6] == 'w' && "ky_spawn_thread"@[7] == 'n' && "ky_spawn_thread"@[8] == '_' && "ky_spawn_thread"@[9] == 't' && "ky_spawn_thread"@[10] == 'h' && "ky_spawn_thread"@[11] == 'r' && "ky_spawn_thread"@[12] == 'e' && "ky_spawn_thread"@[13] == 'a' && "ky_spawn_thread"@[14] == 'd',
        "ky_join_thread"@.len() == 14 && "ky_join_thread"@[0] == 'k' && "ky_join_thread"@[1] == 'y' && "ky_join_thread"@[2] == '_' && "ky_join_thread"@[3] == 'j' && "ky_join_thread"@[4] == 'o' && "ky_join_thread"@[5] == 'i' && "ky_join_thread"@[6] == 'n' && "ky_join_thread"@[7] == '_' && "ky_join_thread"@[8] == 't' && "ky_join_thread"@[9] == 'h' && "ky_join_thread"@[10] == 'r' && "ky_join_thread"@[11] == 'e' && "ky_join_thread"@[12] == 'a' && "ky_join_thread"@[13] == 'd',
        "ky_parallel_for"@.len() == 15 && "ky_parallel_for"@[0] == 'k' && "ky_parallel_for"@[1] == 'y' && "ky_parallel_for"@[2] == '_' && "ky_parallel_for"@[3] == 'p' && "ky_parallel_for"@[4] == 'a' && "ky_parallel_for"@[5] == 'r' && "ky_parallel_for"@[6] == 'a' && "ky_parallel_for"@[7] == 'l' && "ky_parallel_for"@[8] == 'l' && "ky_parallel_for"@[9] == 'e' && "ky_parallel_for"@[10] == 'l' && "ky_parallel_for"@[11] == '_' && "ky_parallel_for"@[12] == 'f' && "ky_parallel_for"@[13] == 'o' && "ky_parallel_for"@[14] == 'r',
        "ky_channel_new"@.len() == 14 && "ky_channel_new"@[0] == 'k' && "ky_channel_new"@[1] == 'y' && "ky_channel_new"@[2] == '_' && "ky_channel_new"@[3] == 'c' && "ky_channel_new"@[4] == 'h' && "ky_channel_new"@[5] == 'a' && "ky_channel_new"@[6] == 'n' && "ky_channel_new"@[7] == 'n' && "ky_channel_new"@[8] == 'e' && "ky_channel_new"@[9] == 'l' && "ky_channel_new"@[10] == '_' && "ky_channel_new"@[11] == 'n' && "ky_channel_new"@[12] == 'e' && "ky_channel_new"@[13] == 'w',
        "ky_channel_send"@.len() == 15 && "ky_channel_send"@[0] == 'k' && "ky_channel_send"@[1] == 'y' && "ky_channel_send"@[2] == '_' && "ky_channel_send"@[3] == 'c' && "ky_channel_send"@[4] == 'h' && "ky_channel_send"@[5] == 'a' && "ky_channel_send"@[6] == 'n' && "ky_channel_send"@[7] == 'n' && "ky_channel_send"@[8] == 'e' && "ky_channel_send"@[9] == 'l' && "ky_channel_send"@[10] == '_' && "ky_channel_send"@[11] == 's' && "ky_channel_send"@[12] == 'e' && "ky_channel_send"@[13] == 'n' && "ky_channel_send"@[14] == 'd',
{
    reveal_strlit("ky_sha1");
    reveal_strlit("ky_spawn_thread");
    reveal_strlit("ky_join_thread");
    reveal_strlit("ky_parallel_for");
    reveal_strlit("ky_channel_new");
    reveal_strlit("ky_channel_send");
}

proof fn lemma_builtin_names_9()
    ensures
        "ky_channel_recv"@.len() == 15 && "ky_channel_recv"@[0] == 'k' && "ky_channel_recv"@[1] == 'y' && "ky_channel_recv"@[2] == '_' && "ky_channel_recv"@[3] == 'c' && "ky_channel_recv"@[4] == 'h' && "ky_channel_recv"@[5] == 'a' && "ky_channel_recv"@[6] == 'n' && "ky_channel_recv"@[7] == 'n' && "ky_channel_recv"@[8] == 'e' && "ky_channel_recv"@[9] == 'l' && "ky_channel_recv"@[10] == '_' && "ky_channel_recv"@[11] == 'r' && "ky_channel_recv"@[12] == 'e' && "ky_channel_recv"@[13] == 'c' && "ky_channel_recv"@[14] == 'v',
        "ky_channel_len"@.len() == 14 && "ky_channel_len"@[0] == 'k' && "ky_channel_len"@[1] == 'y' && "ky_channel_len"@[2] == '_' && "ky_channel_len"@[3] == 'c' && "ky_channel_len"@[4] == 'h' && "ky_channel_len"@[5] == 'a' && "ky_channel_len"@[6] == 'n' && "ky_channel_len"@[7] == 'n' && "ky_channel_len"@[8] == 'e' && "ky_channel_len"@[9] == 'l' && "ky_channel_len"@[10] == '_' && "ky_channel_len"@[11] == 'l' && "ky_channel_len"@[12] == 'e' && "ky_channel_len"@[13] == 'n',
        "ky_channel_free"@.len() == 15 && "ky_channel_free"@[0] == 'k' && "ky_channel_free"@[1] == 'y' && "ky_channel_free"@[2] == '_' && "ky_channel_free"@[3] == 'c' && "ky_channel_free"@[4] == 'h' && "ky_channel_free"@[5] == 'a' && "ky_channel_free"@[6] == 'n' && "ky_channel_free"@[7] == 'n' && "ky_channel_free"@[8] == 'e' && "ky_channel_free"@[9] == 'l' && "ky_channel_free"@[10] == '_' && "ky_channel_free"@[11] == 'f' && "ky_channel_free"@[12] == 'r' && "ky_channel_free"@[13] == 'e' && "ky_channel_free"@[14] == 'e',
        "ky_channel_close"@.len() == 16 && "ky_channel_close"@[0] == 'k' && "ky_channel_close"@[1] == 'y' && "ky_channel_close"@[2] == '_' && "ky_channel_close"@[3] == 'c' && "ky_channel_close"@[4] == 'h' && "ky_channel_close"@[5] == 'a' && "ky_channel_close"@[6] == 'n' && "ky_channel_close"@[7] == 'n' && "ky_channel_close"@[8] == 'e' && "ky_channel_close"@[9] == 'l' && "ky_channel_close"@[10] == '_' && "ky_channel_close"@[11] == 'c' && "ky_channel_close"@[12] == 'l' && "ky_channel_close"@[13] == 'o' && "ky_channel_close"@[14] == 's' && "ky_channel_close"@[15] == 'e',
        "ok"@.len() == 2 && "ok"@[0] == 'o' && "ok"@[1] == 'k',
        "error"@.len() == 5 && "error"@[0] == 'e' && "error"@[1] == 'r' && "error"@[2] == 'r' && "error"@[3] == 'o' && "error"@[4] == 'r',
{
    reveal_strlit("ky_channel_recv");
    reveal_strlit("ky_channel_len");
    reveal_strlit("ky_channel_free");
    reveal_strlit("ky_channel_close");
    reveal_strlit("ok");
    reveal_strlit("error");
}

proof fn lemma_builtin_names_10()
    ensures
        "box"@.len() == 3 && "box"@[0] == 'b' && "box"@[1] == 'o' && "box"@[2] == 'x',
        "ky_list_remove_value"@.len() == 20 && "ky_list_remove_value"@[0] == 'k' && "ky_list_remove_value"@[1] == 'y' && "ky_list_remove_value"@[2] == '_' && "ky_list_remove_value"@[3] == 'l' && "ky_list_remove_value"@[4] == 'i' && "ky_list_remove_value"@[5] == 's' && "ky_list_remove_value"@[6] == 't' && "ky_list_remove_value"@[7] == '_' && "ky_list_remove_value"@[8] == 'r' && "ky_list_remove_value"@[9] == 'e' && "ky_list_remove_value"@[10] == 'm' && "ky_list_remove_value"@[11] == 'o' && "ky_list_remove_value"@[12] == 'v' && "ky_list_remove_value"@[13] == 'e' && "ky_list_remove_value"@[14] == '_' && "ky_list_remove_value"@[15] == 'v' && "ky_list_remove_value"@[16] == 'a' && "ky_list_remove_value"@[17] == 'l' && "ky_list_remove_value"@[18] == 'u' && "ky_list_remove_value"@[19] == 'e',
        "ky_dict_contains"@.len() == 16 && "ky_dict_contains"@[0] == 'k' && "ky_dict_contains"@[1] == 'y' && "ky_dict_contains"@[2] == '_' && "ky_dict_contains"@[3] == 'd' && "ky_dict_contains"@[4] == 'i' && "ky_dict_contains"@[5] == 'c' && "ky_dict_contains"@[6] == 't' && "ky_dict_contains"@[7] == '_' && "ky_dict_contains"@[8] == 'c' && "ky_dict_contains"@[9] == 'o' && "ky_dict_contains"@[10] == 'n' && "ky_dict_contains"@[11] == 't' && "ky_dict_contains"@[12] == 'a' && "ky_dict_contains"@[13] == 'i' && "ky_dict_contains"@[14] == 'n' && "ky_dict_contains"@[15] == 's',
        "ky_dict_remove"@.len() == 14 && "ky_dict_remove"@[0] == 'k' && "ky_dict_remove"@[1] == 'y' && "ky_dict_remove"@[2] == '_' && "ky_dict_remove"@[3] == 'd' && "ky_dict_remove"@[4] == 'i' && "ky_dict_remove"@[5] == 'c' && "ky_dict_remove"@[6] == 't' && "ky_dict_remove"@[7] == '_' && "ky_dict_remove"@[8] == 'r' && "ky_dict_remove"@[9] == 'e' && "ky_dict_remove"@[10] == 'm' && "ky_dict_remove"@[11] == 'o' && "ky_dict_remove"@[12] == 'v' && "ky_dict_remove"@[13] == 'e',
        "ky_dict_keys"@.len() == 12 && "ky_dict_keys"@[0] == 'k' && "ky_dict_keys"@[1] == 'y' && "ky_dict_keys"@[2] == '_' && "ky_dict_keys"@[3] == 'd' && "ky_dict_keys"@[4] == 'i' && "ky_dict_keys"@[5] == 'c' && "ky_dict_keys"@[6] == 't' && "ky_dict_keys"@[7] == '_' && "ky_dict_keys"@[8] == 'k' && "ky_dict_keys"@[9] == 'e' && "ky_dict_keys"@[10] == 'y' && "ky_dict_keys"@[11] == 's',
        "ky_str_builder_new"@.len() == 18 && "ky_str_builder_new"@[0] == 'k' && "ky_str_builder_new"@[1] == 'y' && "ky_str_builder_new"@[2] == '_' && "ky_str_builder_new"@[3] == 's' && "ky_str_builder_new"@[4] == 't' && "ky_str_builder_new"@[5] == 'r' && "ky_str_builder_new"@[6] == '_' && "ky_str_builder_new"@[7] == 'b' && "ky_str_builder_new"@[8] == 'u' && "ky_str_builder_new"@[9] == 'i' && "ky_str_builder_new"@[10] == 'l' && "ky_str_builder_new"@[11] == 'd' && "ky_str_builder_new"@[12] == 'e' && "ky_str_builder_new"@[13] == 'r' && "ky_str_builder_new"@[14] == '_' && "ky_str_builder_new"@[15] == 'n' && "ky_str_builder_new"@[16] == 'e' && "ky_str_builder_new"@[17] == 'w',
{
    reveal_strlit("box");
    reveal_strlit("ky_list_remove_value");
    reveal_strlit("ky_dict_contains");
    reveal_strlit("ky_dict_remove");
    reveal_strlit("ky_dict_keys");
    reveal_strlit("ky_str_builder_new");
}

proof fn lemma_builtin_names_11()
    ensures
        "str_builder_new"@.len() == 15 && "str_builder_new"@[0] == 's' && "str_builder_new"@[1] == 't' && "str_builder_new"@[2] == 'r' && "str_builder_new"@[3] == '_' && "str_builder_new"@[4] == 'b' && "str_builder_new"@[5] == 'u' && "str_builder_new"@[6] == 'i' && "str_builder_new"@[7] == 'l' && "str_builder_new"@[8] == 'd' && "str_builder_new"@[9] == 'e' && "str_builder_new"@[10] == 'r' && "str_builder_new"@[11] == '_' && "str_builder_new"@[12] == 'n' && "str_builder_new"@[13] == 'e' && "str_builder_new"@[14] == 'w',
        "str_builder_append"@.len() == 18 && "str_builder_append"@[0] == 's' && "str_builder_append"@[1] == 't' && "str_builder_append"@[2] == 'r' && "str_builder_append"@[3] == '_' && "str_builder_append"@[4] == 'b' && "str_builder_append"@[5] == 'u' && "str_builder_append"@[6] == 'i' && "str_builder_append"@[7] == 'l' && "str_builder_append"@[8] == 'd' && "str_builder_append"@[9] == 'e' && "str_builder_append"@[10] == 'r' && "str_builder_append"@[11] == '_' && "str_builder_append"@[12] == 'a' && "str_builder_append"@[13] == 'p' && "str_builder_append"@[14] == 'p' && "str_builder_append"@[15] == 'e' && "str_builder_append"@[16] == 'n' && "str_builder_append"@[17] == 'd',
        "str_builder_free"@.len() == 16 && "str_builder_free"@[0] == 's' && "str_builder_free"@[1] == 't' && "str_builder_free"@[2] == 'r' && "str_builder_free"@[3] == '_' && "str_builder_free"@[4] == 'b' && "str_builder_free"@[5] == 'u' && "str_builder_free"@[6] == 'i' && "str_builder_free"@[7] == 'l' && "str_builder_free"@[8] == 'd' && "str_builder_free"@[9] == 'e' && "str_builder_free"@[10] == 'r' && "str_builder_free"@[11] == '_' && "str_builder_free"@[12] == 'f' && "str_builder_free"@[13] == 'r' && "str_builder_free"@[14] == 'e' && "str_builder_free"@[15] == 'e',
        "str_builder_to_str"@.len() == 18 && "str_builder_to_str"@[0] == 's' && "str_builder_to_str"@[1] == 't' && "str_builder_to_str"@[2] == 'r' && "str_builder_to_str"@[3] == '_' && "str_builder_to_str"@[4] == 'b' && "str_builder_to_str"@[5] == 'u' && "str_builder_to_str"@[6] == 'i' && "str_builder_to_str"@[7] == 'l' && "str_builder_to_str"@[8] == 'd' && "str_builder_to_str"@[9] == 'e' && "str_builder_to_str"@[10] == 'r' && "str_builder_to_str"@[11] == '_' && "str_builder_to_str"@[12] == 't' && "str_builder_to_str"@[13] == 'o' && "str_builder_to_str"@[14] == '_' && "str_builder_to_str"@[15] == 's' && "str_builder_to_str"@[16] == 't' && "str_builder_to_str"@[17] == 'r',
        "ky_str_builder_append"@.len() == 21 && "ky_str_builder_append"@[0] == 'k' && "ky_str_builder_append"@[1] == 'y' && "ky_str_builder_append"@[2] == '_' && "ky_str_builder_append"@[3] == 's' && "ky_str_builder_append"@[4] == 't' && "ky_str_builder_append"@[5] == 'r' && "ky_str_builder_append"@[6] == '_' && "ky_str_builder_append"@[7] == 'b' && "ky_str_builder_append"@[8] == 'u' && "ky_str_builder_append"@[9] == 'i' && "ky_str_builder_append"@[10] == 'l' && "ky_str_builder_append"@[11] == 'd' && "ky_str_builder_append"@[12] == 'e' && "ky_str_builder_append"@[13] == 'r' && "ky_str_builder_append"@[14] == '_' && "ky_str_builder_append"@[15] == 'a' && "ky_str_builder_append"@[16] == 'p' && "ky_str_builder_append"@[17] == 'p' && "ky_str_builder_append"@[18] == 'e' && "ky_str_builder_append"@[19] == 'n' && "ky_str_builder_append"@[20] == 'd',
        "ky_str_builder_free"@.len() == 19 && "ky_str_builder_free"@[0] == 'k' && "ky_str_builder_free"@[1] == 'y' && "ky_str_builder_free"@[2] == '_' && "ky_str_builder_free"@[3] == 's' && "ky_str_builder_free"@[4] == 't' && "ky_str_builder_free"@[5] == 'r' && "ky_str_builder_free"@[6] == '_' && "ky_str_builder_free"@[7] == 'b' && "ky_str_builder_free"@[8] == 'u' && "ky_str_builder_free"@[9] == 'i' && "ky_str_builder_free"@[10] == 'l' && "ky_str_builder_free"@[11] == 'd' && "ky_str_builder_free"@[12] == 'e' && "ky_str_builder_free"@[13] == 'r' && "ky_str_builder_free"@[14] == '_' && "ky_str_builder_free"@[15] == 'f' && "ky_str_builder_free"@[16] == 'r' && "ky_str_builder_free"@[17] == 'e' && "ky_str_builder_free"@[18] == 'e',
{
    reveal_strlit("str_builder_new");
    reveal_strlit("str_builder_append");
    reveal_strlit("str_builder_free");
    reveal_strlit("str_builder_to_str");
    reveal_strlit("ky_str_builder_append");
    reveal_strlit("ky_str_builder_free");
}

proof fn lemma_builtin_names_12()
    ensures
        "ky_str_builder_to_str"@.len() == 21 && "ky_str_builder_to_str"@[0] == 'k' && "ky_str_builder_to_str"@[1] == 'y' && "ky_str_builder_to_str"@[2] == '_' && "ky_str_builder_to_str"@[3] == 's' && "ky_str_builder_to_str"@[4] == 't' && "ky_str_builder_to_str"@[5] == 'r' && "ky_str_builder_to_str"@[6] == '_' && "ky_str_builder_to_str"@[7] == 'b' && "ky_str_builder_to_str"@[8] == 'u' && "ky_str_builder_to_str"@[9] == 'i' && "ky_str_builder_to_str"@[10] == 'l' && "ky_str_builder_to_str"@[11] == 'd' && "ky_str_builder_to_str"@[12] == 'e' && "ky_str_builder_to_str"@[13] == 'r' && "ky_str_builder_to_str"@[14] == '_' && "ky_str_builder_to_str"@[15] == 't' && "ky_str_builder_to_str"@[16] == 'o' && "ky_str_builder_to_str"@[17] == '_' && "ky_str_builder_to_str"@[18] == 's' && "ky_str_builder_to_str"@[19] == 't' && "ky_str_builder_to_str"@[20] == 'r',
        "ky_fs_exists"@.len() == 12 && "ky_fs_exists"@[0] == 'k' && "ky_fs_exists"@[1] == 'y' && "ky_fs_exists"@[2] == '_' && "ky_fs_exists"@[3] == 'f' && "ky_fs_exists"@[4] == 's' && "ky_fs_exists"@[5] == '_' && "ky_fs_exists"@[6] == 'e' && "ky_fs_exists"@[7] == 'x' && "ky_fs_exists"@[8] == 'i' && "ky_fs_exists"@[9] == 's' && "ky_fs_exists"@[10] == 't' && "ky_fs_exists"@[11] == 's',
        "ky_fs_is_dir"@.len() == 12 && "ky_fs_is_dir"@[0] == 'k' && "ky_fs_is_dir"@[1] == 'y' && "ky_fs_is_dir"@[2] == '_' && "ky_fs_is_dir"@[3] == 'f' && "ky_fs_is_dir"@[4] == 's' && "ky_fs_is_dir"@[5] == '_' && "ky_fs_is_dir"@[6] == 'i' && "ky_fs_is_dir"@[7] == 's' && "ky_fs_is_dir"@[8] == '_' && "ky_fs_is_dir"@[9] == 'd' && "ky_fs_is_dir"@[10] == 'i' && "ky_fs_is_dir"@[11] == 'r',
        "ky_fs_is_file"@.len() == 13 && "ky_fs_is_file"@[0] == 'k' && "ky_fs_is_file"@[1] == 'y' && "ky_fs_is_file"@[2] == '_' && "ky_fs_is_file"@[3] == 'f' && "ky_fs_is_file"@[4] == 's' && "ky_fs_is_file"@[5] == '_' && "ky_fs_is_file"@[6] == 'i' && "ky_fs_is_file"@[7] == 's' && "ky_fs_is_file"@[8] == '_' && "ky_fs_is_file"@[9] == 'f' && "ky_fs_is_file"@[10] == 'i' && "ky_fs_is_file"@[11] == 'l' && "ky_fs_is_file"@[12] == 'e',
        "ky_fs_copy"@.len() == 10 && "ky_fs_copy"@[0] == 'k' && "ky_fs_copy"@[1] == 'y' && "ky_fs_copy"@[2] == '_' && "ky_fs_copy"@[3] == 'f' && "ky_fs_copy"@[4] == 's' && "ky_fs_copy"@[5] == '_' && "ky_fs_copy"@[6] == 'c' && "ky_fs_copy"@[7] == 'o' && "ky_fs_copy"@[8] == 'p' && "ky_fs_copy"@[9] == 'y',
        "ky_fs_remove"@.len() == 12 && "ky_fs_remove"@[0] == 'k' && "ky_fs_remove"@[1] == 'y' && "ky_fs_remove"@[2] == '_' && "ky_fs_remove"@[3] == 'f' && "ky_fs_remove"@[4] == 's' && "ky_fs_remove"@[5] == '_' && "ky_fs_remove"@[6] == 'r' && "ky_fs_remove"@[7] == 'e' && "ky_fs_remove"@[8] == 'm' && "ky_fs_remove"@[9] == 'o' && "ky_fs_remove"@[10] == 'v' && "ky_fs_remove"@[11] == 'e',
{
    reveal_strlit("ky_str_builder_to_str");
    reveal_strlit("ky_fs_exists");
    reveal_strlit("ky_fs_is_dir");
    reveal_strlit("ky_fs_is_file");
    reveal_strlit("ky_fs_copy");
    reveal_strlit("ky_fs_remove");
}

proof fn lemma_builtin_names_13()
    ensures
        "ky_fs_create_dir"@.len() == 16 && "ky_fs_create_dir"@[0] == 'k' && "ky_fs_create_dir"@[1] == 'y' && "ky_fs_create_dir"@[2] == '_' && "ky_fs_create_dir"@[3] == 'f' && "ky_fs_create_dir"@[4] == 's' && "ky_fs_create_dir"@[5] == '_' && "ky_fs_create_dir"@[6] == 'c' && "ky_fs_create_dir"@[7] == 'r' && "ky_fs_create_dir"@[8] == 'e' && "ky_fs_create_dir"@[9] == 'a' && "ky_fs_create_dir"@[10] == 't' && "ky_fs_create_dir"@[11] == 'e' && "ky_fs_create_dir"@[12] == '_' && "ky_fs_create_dir"@[13] == 'd' && "ky_fs_create_dir"@[14] == 'i' && "ky_fs_create_dir"@[15] == 'r',
        "ky_fs_remove_dir"@.len() == 16 && "ky_fs_remove_dir"@[0] == 'k' && "ky_fs_remove_dir"@[1] == 'y' && "ky_fs_remove_dir"@[2] == '_' && "ky_fs_remove_dir"@[3] == 'f' && "ky_fs_remove_dir"@[4] == 's' && "ky_fs_remove_dir"@[5] == '_' && "ky_fs_remove_dir"@[6] == 'r' && "ky_fs_remove_dir"@[7] == 'e' && "ky_fs_remove_dir"@[8] == 'm' && "ky_fs_remove_dir"@[9] == 'o' && "ky_fs_remove_dir"@[10] == 'v' && "ky_fs_remove_dir"@[11] == 'e' && "ky_fs_remove_dir"@[12] == '_' && "ky_fs_remove_dir"@[13] == 'd' && "ky_fs_remove_dir"@[14] == 'i' && "ky_fs_remove_dir"@[15] == 'r',
        "ky_fs_rename"@.len() == 12 && "ky_fs_rename"@[0] == 'k' && "ky_fs_rename"@[1] == 'y' && "ky_fs_rename"@[2] == '_' && "ky_fs_rename"@[3] == 'f' && "ky_fs_rename"@[4] == 's' && "ky_fs_rename"@[5] == '_' && "ky_fs_rename"@[6] == 'r' && "ky_fs_rename"@[7] == 'e' && "ky_fs_rename"@[8] == 'n' && "ky_fs_rename"@[9] == 'a' && "ky_fs_rename"@[10] == 'm' && "ky_fs_rename"@[11] == 'e',
        "ky_fs_write_string"@.len() == 18 && "ky_fs_write_string"@[0] == 'k' && "ky_fs_write_string"@[1] == 'y' && "ky_fs_write_string"@[2] == '_' && "ky_fs_write_string"@[3] == 'f' && "ky_fs_write_string"@[4] == 's' && "ky_fs_write_string"@[5] == '_' && "ky_fs_write_string"@[6] == 'w' && "ky_fs_write_string"@[7] == 'r' && "ky_fs_write_string"@[8] == 'i' && "ky_fs_write_string"@[9] == 't' && "ky_fs_write_string"@[10] == 'e' && "ky_fs_write_string"@[11] == '_' && "ky_fs_write_string"@[12] == 's' && "ky_fs_write_string"@[13] == 't' && "ky_fs_write_string"@[14] == 'r' && "ky_fs_write_string"@[15] == 'i' && "ky_fs_write_string"@[16] == 'n' && "ky_fs_write_string"@[17] == 'g',
        "ky_fs_size"@.len() == 10 && "ky_fs_size"@[0] == 'k' && "ky_fs_size"@[1] == 'y' && "ky_fs_size"@[2] == '_' && "ky_fs_size"@[3] == 'f' && "ky_fs_size"@[4] == 's' && "ky_fs_size"@[5] == '_' && "ky_fs_size"@[6] == 's' && "ky_fs_size"@[7] == 'i' && "ky_fs_size"@[8] == 'z' && "ky_fs_size"@[9] == 'e',
        "ky_time_now_ms"@.len() == 14 && "ky_time_now_ms"@[0] == 'k' && "ky_time_now_ms"@[1] == 'y' && "ky_time_now_ms"@[2] == '_' && "ky_time_now_ms"@[3] == 't' && "ky_time_now_ms"@[4] == 'i' && "ky_time_now_ms"@[5] == 'm' && "ky_time_now_ms"@[6] == 'e' && "ky_time_now_ms"@[7] == '_' && "ky_time_now_ms"@[8] == 'n' && "ky_time_now_ms"@[9] == 'o' && "ky_time_now_ms"@[10] == 'w' && "ky_time_now_ms"@[11] == '_' && "ky_time_now_ms"@[12] == 'm' && "ky_time_now_ms"@[13] == 's',
{
    reveal_strlit("ky_fs_create_dir");
    reveal_strlit("ky_fs_remove_dir");
    reveal_strlit("ky_fs_rename");
    reveal_strlit("ky_fs_write_string");
    reveal_strlit("ky_fs_size");
    reveal_strlit("ky_time_now_ms");
}

proof fn lemma_builtin_names_14()
    ensures
        "ky_time_now_us"@.len() == 14 && "ky_time_now_us"@[0] == 'k' && "ky_time_now_us"@[1] == 'y' && "ky_time_now_us"@[2] == '_' && "ky_time_now_us"@[3] == 't' && "ky_time_now_us"@[4] == 'i' && "ky_time_now_us"@[5] == 'm' && "ky_time_now_us"@[6] == 'e' && "ky_time_now_us"@[7] == '_' && "ky_time_now_us"@[8] == 'n' && "ky_time_now_us"@[9] == 'o' && "ky_time_now_us"@[10] == 'w' && "ky_time_now_us"@[11] == '_' && "ky_time_now_us"@[12] == 'u' && "ky_time_now_us"@[13] == 's',
        "ky_fs_list_dir"@.len() == 14 && "ky_fs_list_dir"@[0] == 'k' && "ky_fs_list_dir"@[1] == 'y' && "ky_fs_list_dir"@[2] == '_' && "ky_fs_list_dir"@[3] == 'f' && "ky_fs_list_dir"@[4] == 's' && "ky_fs_list_dir"@[5] == '_' && "ky_fs_list_dir"@[6] == 'l' && "ky_fs_list_dir"@[7] == 'i' && "ky_fs_list_dir"@[8] == 's' && "ky_fs_list_dir"@[9] == 't' && "ky_fs_list_dir"@[10] == '_' && "ky_fs_list_dir"@[11] == 'd' && "ky_fs_list_dir"@[12] == 'i' && "ky_fs_list_dir"@[13] == 'r',
        "ky_set_len"@.len() == 10 && "ky_set_len"@[0] == 'k' && "ky_set_len"@[1] == 'y' && "ky_set_len"@[2] == '_' && "ky_set_len"@[3] == 's' && "ky_set_len"@[4] == 'e' && "ky_set_len"@[5] == 't' && "ky_set_len"@[6] == '_' && "ky_set_len"@[7] == 'l' && "ky_set_len"@[8] == 'e' && "ky_set_len"@[9] == 'n',
        "ky_set_new"@.len() == 10 && "ky_set_new"@[0] == 'k' && "ky_set_new"@[1] == 'y' && "ky_set_new"@[2] == '_' && "ky_set_new"@[3] == 's' && "ky_set_new"@[4] == 'e' && "ky_set_new"@[5] == 't' && "ky_set_new"@[6] == '_' && "ky_set_new"@[7] == 'n' && "ky_set_new"@[8] == 'e' && "ky_set_new"@[9] == 'w',
        "ky_set_add"@.len() == 10 && "ky_set_add"@[0] == 'k' && "ky_set_add"@[1] == 'y' && "ky_set_add"@[2] == '_' && "ky_set_add"@[3] == 's' && "ky_set_add"@[4] == 'e' && "ky_set_add"@[5] == 't' && "ky_set_add"@[6] == '_' && "ky_set_add"@[7] == 'a' && "ky_set_add"@[8] == 'd' && "ky_set_add"@[9] == 'd',
        "ky_set_free"@.len() == 11 && "ky_set_free"@[0] == 'k' && "ky_set_free"@[1] == 'y' && "ky_set_free"@[2] == '_' && "ky_set_free"@[3] == 's' && "ky_set_free"@[4] == 'e' && "ky_set_free"@[5] == 't' && "ky_set_free"@[6] == '_' && "ky_set_free"@[7] == 'f' && "ky_set_free"@[8] == 'r' && "ky_set_free"@[9] == 'e' && "ky_set_free"@[10] == 'e',
{
    reveal_strlit("ky_time_now_us");
    reveal_strlit("ky_fs_list_dir");
    reveal_strlit("ky_set_len");
    reveal_strlit("ky_set_new");
    reveal_strlit("ky_set_add");
    reveal_strlit("ky_set_free");
}

proof fn lemma_builtin_names_15()
    ensures
        "ky_set_contains"@.len() == 15 && "ky_set_contains"@[0] == 'k' && "ky_set_contains"@[1] == 'y' && "ky_set_contains"@[2] == '_' && "ky_set_contains"@[3] == 's' && "ky_set_contains"@[4] == 'e' && "ky_set_contains"@[5] == 't' && "ky_set_contains"@[6] == '_' && "ky_set_contains"@[7] == 'c' && "ky_set_contains"@[8] == 'o' && "ky_set_contains"@[9] == 'n' && "ky_set_contains"@[10] == 't' && "ky_set_contains"@[11] == 'a' && "ky_set_contains"@[12] == 'i' && "ky_set_contains"@[13] == 'n' && "ky_set_contains"@[14] == 's',
        "ky_set_remove"@.len() == 13 && "ky_set_remove"@[0] == 'k' && "ky_set_remove"@[1] == 'y' && "ky_set_remove"@[2] == '_' && "ky_set_remove"@[3] == 's' && "ky_set_remove"@[4] == 'e' && "ky_set_remove"@[5] == 't' && "ky_set_remove"@[6] == '_' && "ky_set_remove"@[7] == 'r' && "ky_set_remove"@[8] == 'e' && "ky_set_remove"@[9] == 'm' && "ky_set_remove"@[10] == 'o' && "ky_set_remove"@[11] == 'v' && "ky_set_remove"@[12] == 'e',
        "ky_set_difference"@.len() == 17 && "ky_set_difference"@[0] == 'k' && "ky_set_difference"@[1] == 'y' && "ky_set_difference"@[2] == '_' && "ky_set_difference"@[3] == 's' && "ky_set_difference"@[4] == 'e' && "ky_set_difference"@[5] == 't' && "ky_set_difference"@[6] == '_' && "ky_set_difference"@[7] == 'd' && "ky_set_difference"@[8] == 'i' && "ky_set_difference"@[9] == 'f' && "ky_set_difference"@[10] == 'f' && "ky_set_difference"@[11] == 'e' && "ky_set_difference"@[12] == 'r' && "ky_set_difference"@[13] == 'e' && "ky_set_difference"@[14] == 'n' && "ky_set_difference"@[15] == 'c' && "ky_set_difference"@[16] == 'e',
        "ky_set_symmetric_difference"@.len() == 27 && "ky_set_symmetric_difference"@[0] == 'k' && "ky_set_symmetric_difference"@[1] == 'y' && "ky_set_symmetric_difference"@[2] == '_' && "ky_set_symmetric_difference"@[3] == 's' && "ky_set_symmetric_difference"@[4] == 'e' && "ky_set_symmetric_difference"@[5] == 't' && "ky_set_symmetric_difference"@[6] == '_' && "ky_set_symmetric_difference"@[7] == 's' && "ky_set_symmetric_difference"@[8] == 'y' && "ky_set_symmetric_difference"@[9] == 'm' && "ky_set_symmetric_difference"@[10] == 'm' && "ky_set_symmetric_difference"@[11] == 'e' && "ky_set_symmetric_difference"@[12] == 't' && "ky_set_symmetric_difference"@[13] == 'r' && "ky_set_symmetric_difference"@[14] == 'i' && "ky_set_symmetric_difference"@[15] == 'c' && "ky_set_symmetric_difference"@[16] == '_' && "ky_set_symmetric_difference"@[17] == 'd' && "ky_set_symmetric_difference"@[18] == 'i' && "ky_set_symmetric_difference"@[19] == 'f' && "ky_set_symmetric_difference"@[20] == 'f' && "ky_set_symmetric_difference"@[21] == 'e' && "ky_set_symmetric_difference"@[22] == 'r' && "ky_set_symmetric_difference"@[23] == 'e' && "ky_set_symmetric_difference"@[24] == 'n' && "ky_set_symmetric_difference"@[25] == 'c' && "ky_set_symmetric_difference"@[26] == 'e',
        "ky_set_union"@.len() == 12 && "ky_set_union"@[0] == 'k' && "ky_set_union"@[1] == 'y' && "ky_set_union"@[2] == '_' && "ky_set_union"@[3] == 's' && "ky_set_union"@[4] == 'e' && "ky_set_union"@[5] == 't' && "ky_set_union"@[6] == '_' && "ky_set_union"@[7] == 'u' && "ky_set_union"@[8] == 'n' && "ky_set_union"@[9] == 'i' && "ky_set_union"@[10] == 'o' && "ky_set_union"@[11] == 'n',
        "ky_set_intersection"@.len() == 19 && "ky_set_intersection"@[0] == 'k' && "ky_set_intersection"@[1] == 'y' && "ky_set_intersection"@[2] == '_' && "ky_set_intersection"@[3] == 's' && "ky_set_intersection"@[4] == 'e' && "ky_set_intersection"@[5] == 't' && "ky_set_intersection"@[6] == '_' && "ky_set_intersection"@[7] == 'i' && "ky_set_intersection"@[8] == 'n' && "ky_set_intersection"@[9] == 't' && "ky_set_intersection"@[10] == 'e' && "ky_set_intersection"@[11] == 'r' && "ky_set_intersection"@[12] == 's' && "ky_set_intersection"@[13] == 'e' && "ky_set_intersection"@[14] == 'c' && "ky_set_intersection"@[15] == 't' && "ky_set_intersection"@[16] == 'i' && "ky_set_intersection"@[17] == 'o' && "ky_set_intersection"@[18] == 'n',
{
    reveal_strlit("ky_set_contains");
    reveal_strlit("ky_set_remove");
    reveal_strlit("ky_set_difference");
    reveal_strlit("ky_set_symmetric_difference");
    reveal_strlit("ky_set_union");
    reveal_strlit("ky_set_intersection");
}

proof fn lemma_builtin_names_16()
    ensures
        "ky_set_is_subset"@.len() == 16 && "ky_set_is_subset"@[0] == 'k' && "ky_set_is_subset"@[1] == 'y' && "ky_set_is_subset"@[2] == '_' && "ky_set_is_subset"@[3] == 's' && "ky_set_is_subset"@[4] == 'e' && "ky_set_is_subset"@[5] == 't' && "ky_set_is_subset"@[6] == '_' && "ky_set_is_subset"@[7] == 'i' && "ky_set_is_subset"@[8] == 's' && "ky_set_is_subset"@[9] == '_' && "ky_set_is_subset"@[10] == 's' && "ky_set_is_subset"@[11] == 'u' && "ky_set_is_subset"@[12] == 'b' && "ky_set_is_subset"@[13] == 's' && "ky_set_is_subset"@[14] == 'e' && "ky_set_is_subset"@[15] == 't',
        "ky_str_to_list"@.len() == 14 && "ky_str_to_list"@[0] == 'k' && "ky_str_to_list"@[1] == 'y' && "ky_str_to_list"@[2] == '_' && "ky_str_to_list"@[3] == 's' && "ky_str_to_list"@[4] == 't' && "ky_str_to_list"@[5] == 'r' && "ky_str_to_list"@[6] == '_' && "ky_str_to_list"@[7] == 't' && "ky_str_to_list"@[8] == 'o' && "ky_str_to_list"@[9] == '_' && "ky_str_to_list"@[10] == 'l' && "ky_str_to_list"@[11] == 'i' && "ky_str_to_list"@[12] == 's' && "ky_str_to_list"@[13] == 't',
        "ky_set_to_list"@.len() == 14 && "ky_set_to_list"@[0] == 'k' && "ky_set_to_list"@[1] == 'y' && "ky_set_to_list"@[2] == '_' && "ky_set_to_list"@[3] == 's' && "ky_set_to_list"@[4] == 'e' && "ky_set_to_list"@[5] == 't' && "ky_set_to_list"@[6] == '_' && "ky_set_to_list"@[7] == 't' && "ky_set_to_list"@[8] == 'o' && "ky_set_to_list"@[9] == '_' && "ky_set_to_list"@[10] == 'l' && "ky_set_to_list"@[11] == 'i' && "ky_set_to_list"@[12] == 's' && "ky_set_to_list"@[13] == 't',
        "ky_queue_to_list"@.len() == 16 && "ky_queue_to_list"@[0] == 'k' && "ky_queue_to_list"@[1] == 'y' && "ky_queue_to_list"@[2] == '_' && "ky_queue_to_list"@[3] == 'q' && "ky_queue_to_list"@[4] == 'u' && "ky_queue_to_list"@[5] == 'e' && "ky_queue_to_list"@[6] == 'u' && "ky_queue_to_list"@[7] == 'e' && "ky_queue_to_list"@[8] == '_' && "ky_queue_to_list"@[9] == 't' && "ky_queue_to_list"@[10] == 'o' && "ky_queue_to_list"@[11] == '_' && "ky_queue_to_list"@[12] == 'l' && "ky_queue_to_list"@[13] == 'i' && "ky_queue_to_list"@[14] == 's' && "ky_queue_to_list"@[15] == 't',
        "ky_stack_to_list"@.len() == 16 && "ky_stack_to_list"@[0] == 'k' && "ky_stack_to_list"@[1] == 'y' && "ky_stack_to_list"@[2] == '_' && "ky_stack_to_list"@[3] == 's' && "ky_stack_to_list"@[4] == 't' && "ky_stack_to_list"@[5] == 'a' && "ky_stack_to_list"@[6] == 'c' && "ky_stack_to_list"@[7] == 'k' && "ky_stack_to_list"@[8] == '_' && "ky_stack_to_list"@[9] == 't' && "ky_stack_to_list"@[10] == 'o' && "ky_stack_to_list"@[11] == '_' && "ky_stack_to_list"@[12] == 'l' && "ky_stack_to_list"@[13] == 'i' && "ky_stack_to_list"@[14] == 's' && "ky_stack_to_list"@[15] == 't',
        "ky_queue_to_stack"@.len() == 17 && "ky_queue_to_stack"@[0] == 'k' && "ky_queue_to_stack"@[1] == 'y' && "ky_queue_to_stack"@[2] == '_' && "ky_queue_to_stack"@[3] == 'q' && "ky_queue_to_stack"@[4] == 'u' && "ky_queue_to_stack"@[5] == 'e' && "ky_queue_to_stack"@[6] == 'u' && "ky_queue_to_stack"@[7] == 'e' && "ky_queue_to_stack"@[8] == '_' && "ky_queue_to_stack"@[9] == 't' && "ky_queue_to_stack"@[10] == 'o' && "ky_queue_to_stack"@[11] == '_' && "ky_queue_to_stack"@[12] == 's' && "ky_queue_to_stack"@[13] == 't' && "ky_queue_to_stack"@[14] == 'a' && "ky_queue_to_stack"@[15] == 'c' && "ky_queue_to_stack"@[16] == 'k',
{
    reveal_strlit("ky_set_is_subset");
    reveal_strlit("ky_str_to_list");
    reveal_strlit("ky_set_to_list");
    reveal_strlit("ky_queue_to_list");
    reveal_strlit("ky_stack_to_list");
    reveal_strlit("ky_queue_to_stack");
}

proof fn lemma_builtin_names_17()
    ensures
        "ky_stack_to_queue"@.len() == 17 && "ky_stack_to_queue"@[0] == 'k' && "ky_stack_to_queue"@[1] == 'y' && "ky_stack_to_queue"@[2] == '_' && "ky_stack_to_queue"@[3] == 's' && "ky_stack_to_queue"@[4] == 't' && "ky_stack_to_queue"@[5] == 'a' && "ky_stack_to_queue"@[6] == 'c' && "ky_stack_to_queue"@[7] == 'k' && "ky_stack_to_queue"@[8] == '_' && "ky_stack_to_queue"@[9] == 't' && "ky_stack_to_queue"@[10] == 'o' && "ky_stack_to_queue"@[11] == '_' && "ky_stack_to_queue"@[12] == 'q' && "ky_stack_to_queue"@[13] == 'u' && "ky_stack_to_queue"@[14] == 'e' && "ky_stack_to_queue"@[15] == 'u' && "ky_stack_to_queue"@[16] == 'e',
        "ky_open"@.len() == 7 && "ky_open"@[0] == 'k' && "ky_open"@[1] == 'y' && "ky_open"@[2] == '_' && "ky_open"@[3] == 'o' && "ky_open"@[4] == 'p' && "ky_open"@[5] == 'e' && "ky_open"@[6] == 'n',
        "ky_read_str"@.len() == 11 && "ky_read_str"@[0] == 'k' && "ky_read_str"@[1] == 'y' && "ky_read_str"@[2] == '_' && "ky_read_str"@[3] == 'r' && "ky_read_str"@[4] == 'e' && "ky_read_str"@[5] == 'a' && "ky_read_str"@[6] == 'd' && "ky_read_str"@[7] == '_' && "ky_read_str"@[8] == 's' && "ky_read_str"@[9] == 't' && "ky_read_str"@[10] == 'r',
        "ky_write_str"@.len() == 12 && "ky_write_str"@[0] == 'k' && "ky_write_str"@[1] == 'y' && "ky_write_str"@[2] == '_' && "ky_write_str"@[3] == 'w' && "ky_write_str"@[4] == 'r' && "ky_write_str"@[5] == 'i' && "ky_write_str"@[6] == 't' && "ky_write_str"@[7] == 'e' && "ky_write_str"@[8] == '_' && "ky_write_str"@[9] == 's' && "ky_write_str"@[10] == 't' && "ky_write_str"@[11] == 'r',
        "ky_close"@.len() == 8 && "ky_close"@[0] == 'k' && "ky_close"@[1] == 'y' && "ky_close"@[2] == '_' && "ky_close"@[3] == 'c' && "ky_close"@[4] == 'l' && "ky_close"@[5] == 'o' && "ky_close"@[6] == 's' && "ky_close"@[7] == 'e',
        "ky_fs_read_to_string"@.len() == 20 && "ky_fs_read_to_string"@[0] == 'k' && "ky_fs_read_to_string"@[1] == 'y' && "ky_fs_read_to_string"@[2] == '_' && "ky_fs_read_to_string"@[3] == 'f' && "ky_fs_read_to_string"@[4] == 's' && "ky_fs_read_to_string"@[5] == '_' && "ky_fs_read_to_string"@[6] == 'r' && "ky_fs_read_to_string"@[7] == 'e' && "ky_fs_read_to_string"@[8] == 'a' && "ky_fs_read_to_string"@[9] == 'd' && "ky_fs_read_to_string"@[10] == '_' && "ky_fs_read_to_string"@[11] == 't' && "ky_fs_read_to_string"@[12] == 'o' && "ky_fs_read_to_string"@[13] == '_' && "ky_fs_read_to_string"@[14] == 's' && "ky_fs_read_to_string"@[15] == 't' && "ky_fs_read_to_string"@[16] == 'r' && "ky_fs_read_to_string"@[17] == 'i' && "ky_fs_read_to_string"@[18] == 'n' && "ky_fs_read_to_string"@[19] == 'g',
{
    reveal_strlit("ky_stack_to_queue");
    reveal_strlit("ky_open");
    reveal_strlit("ky_read_str");
    reveal_strlit("ky_write_str");
    reveal_strlit("ky_close");
    reveal_strlit("ky_fs_read_to_string");
}

proof fn lemma_builtin_names_18()
    ensures
        "ky_bytes_new"@.len() == 12 && "ky_bytes_new"@[0] == 'k' && "ky_bytes_new"@[1] == 'y' && "ky_bytes_new"@[2] == '_' && "ky_bytes_new"@[3] == 'b' && "ky_bytes_new"@[4] == 'y' && "ky_bytes_new"@[5] == 't' && "ky_bytes_new"@[6] == 'e' && "ky_bytes_new"@[7] == 's' && "ky_bytes_new"@[8] == '_' && "ky_bytes_new"@[9] == 'n' && "ky_bytes_new"@[10] == 'e' && "ky_bytes_new"@[11] == 'w',
        "ky_bytes_get"@.len() == 12 && "ky_bytes_get"@[0] == 'k' && "ky_bytes_get"@[1] == 'y' && "ky_bytes_get"@[2] == '_' && "ky_bytes_get"@[3] == 'b' && "ky_bytes_get"@[4] == 'y' && "ky_bytes_get"@[5] == 't' && "ky_bytes_get"@[6] == 'e' && "ky_bytes_get"@[7] == 's' && "ky_bytes_get"@[8] == '_' && "ky_bytes_get"@[9] == 'g' && "ky_bytes_get"@[10] == 'e' && "ky_bytes_get"@[11] == 't',
        "ky_bytes_set"@.len() == 12 && "ky_bytes_set"@[0] == 'k' && "ky_bytes_set"@[1] == 'y' && "ky_bytes_set"@[2] == '_' && "ky_bytes_set"@[3] == 'b' && "ky_bytes_set"@[4] == 'y' && "ky_bytes_set"@[5] == 't' && "ky_bytes_set"@[6] == 'e' && "ky_bytes_set"@[7] == 's' && "ky_bytes_set"@[8] == '_' && "ky_bytes_set"@[9] == 's' && "ky_bytes_set"@[10] == 'e' && "ky_bytes_set"@[11] == 't',
        "ky_bytes_to_hex"@.len() == 15 && "ky_bytes_to_hex"@[0] == 'k' && "ky_bytes_to_hex"@[1] == 'y' && "ky_bytes_to_hex"@[2] == '_' && "ky_bytes_to_hex"@[3] == 'b' && "ky_bytes_to_hex"@[4] == 'y' && "ky_bytes_to_hex"@[5] == 't' && "ky_bytes_to_hex"@[6] == 'e' && "ky_bytes_to_hex"@[7] == 's' && "ky_bytes_to_hex"@[8] == '_' && "ky_bytes_to_hex"@[9] == 't' && "ky_bytes_to_hex"@[10] == 'o' && "ky_bytes_to_hex"@[11] == '_' && "ky_bytes_to_hex"@[12] == 'h' && "ky_bytes_to_hex"@[13] == 'e' && "ky_bytes_to_hex"@[14] == 'x',
        "ky_bytes_to_base64"@.len() == 18 && "ky_bytes_to_base64"@[0] == 'k' && "ky_bytes_to_base64"@[1] == 'y' && "ky_bytes_to_base64"@[2] == '_' && "ky_bytes_to_base64"@[3] == 'b' && "ky_bytes_to_base64"@[4] == 'y' && "ky_bytes_to_base64"@[5] == 't' && "ky_bytes_to_base64"@[6] == 'e' && "ky_bytes_to_base64"@[7] == 's' && "ky_bytes_to_base64"@[8] == '_' && "ky_bytes_to_base64"@[9] == 't' && "ky_bytes_to_base64"@[10] == 'o' && "ky_bytes_to_base64"@[11] == '_' && "ky_bytes_to_base64"@[12] == 'b' && "ky_bytes_to_base64"@[13] == 'a' && "ky_bytes_to_base64"@[14] == 's' && "ky_bytes_to_base64"@[15] == 'e' && "ky_bytes_to_base64"@[16] == '6' && "ky_bytes_to_base64"@[17] == '4',
        "ky_bytes_from_hex"@.len() == 17 && "ky_bytes_from_hex"@[0] == 'k' && "ky_bytes_from_hex"@[1] == 'y' && "ky_bytes_from_hex"@[2] == '_' && "ky_bytes_from_hex"@[3] == 'b' && "ky_bytes_from_hex"@[4] == 'y' && "ky_bytes_from_hex"@[5] == 't' && "ky_bytes_from_hex"@[6] == 'e' && "ky_bytes_from_hex"@[7] == 's' && "ky_bytes_from_hex"@[8] == '_' && "ky_bytes_from_hex"@[9] == 'f' && "ky_bytes_from_hex"@[10] == 'r' && "ky_bytes_from_hex"@[11] == 'o' && "ky_bytes_from_hex"@[12] == 'm' && "ky_bytes_from_hex"@[13] == '_' && "ky_bytes_from_hex"@[14] == 'h' && "ky_bytes_from_hex"@[15] == 'e' && "ky_bytes_from_hex"@[16] == 'x',
{
    reveal_strlit("ky_bytes_new");
    reveal_strlit("ky_bytes_get");
    reveal_strlit("ky_bytes_set");
    reveal_strlit("ky_bytes_to_hex");
    reveal_strlit("ky_bytes_to_base64");
    reveal_strlit("ky_bytes_from_hex");
}

proof fn lemma_builtin_names_19()
    ensures
        "ky_strlen"@.len() == 9 && "ky_strlen"@[0] == 'k' && "ky_strlen"@[1] == 'y' && "ky_strlen"@[2] == '_' && "ky_strlen"@[3] == 's' && "ky_strlen"@[4] == 't' && "ky_strlen"@[5] == 'r' && "ky_strlen"@[6] == 'l' && "ky_strlen"@[7] == 'e' && "ky_strlen"@[8] == 'n',
        "ky_i64_to_str"@.len() == 13 && "ky_i64_to_str"@[0] == 'k' && "ky_i64_to_str"@[1] == 'y' && "ky_i64_to_str"@[2] == '_' && "ky_i64_to_str"@[3] == 'i' && "ky_i64_to_str"@[4] == '6' && "ky_i64_to_str"@[5] == '4' && "ky_i64_to_str"@[6] == '_' && "ky_i64_to_str"@[7] == 't' && "ky_i64_to_str"@[8] == 'o' && "ky_i64_to_str"@[9] == '_' && "ky_i64_to_str"@[10] == 's' && "ky_i64_to_str"@[11] == 't' && "ky_i64_to_str"@[12] == 'r',
        "ky_input"@.len() == 8 && "ky_input"@[0] == 'k' && "ky_input"@[1] == 'y' && "ky_input"@[2] == '_' && "ky_input"@[3] == 'i' && "ky_input"@[4] == 'n' && "ky_input"@[5] == 'p' && "ky_input"@[6] == 'u' && "ky_input"@[7] == 't',
        "ky_concat"@.len() == 9 && "ky_concat"@[0] == 'k' && "ky_concat"@[1] == 'y' && "ky_concat"@[2] == '_' && "ky_concat"@[3] == 'c' && "ky_concat"@[4] == 'o' && "ky_concat"@[5] == 'n' && "ky_concat"@[6] == 'c' && "ky_concat"@[7] == 'a' && "ky_concat"@[8] == 't',
        "ky_str_to_upper"@.len() == 15 && "ky_str_to_upper"@[0] == 'k' && "ky_str_to_upper"@[1] == 'y' && "ky_str_to_upper"@[2] == '_' && "ky_str_to_upper"@[3] == 's' && "ky_str_to_upper"@[4] == 't' && "ky_str_to_upper"@[5] == 'r' && "ky_str_to_upper"@[6] == '_' && "ky_str_to_upper"@[7] == 't' && "ky_str_to_upper"@[8] == 'o' && "ky_str_to_upper"@[9] == '_' && "ky_str_to_upper"@[10] == 'u' && "ky_str_to_upper"@[11] == 'p' && "ky_str_to_upper"@[12] == 'p' && "ky_str_to_upper"@[13] == 'e' && "ky_str_to_upper"@[14] == 'r',
        "ky_str_to_lower"@.len() == 15 && "ky_str_to_lower"@[0] == 'k' && "ky_str_to_lower"@[1] == 'y' && "ky_str_to_lower"@[2] == '_' && "ky_str_to_lower"@[3] == 's' && "ky_str_to_lower"@[4] == 't' && "ky_str_to_lower"@[5] == 'r' && "ky_str_to_lower"@[6] == '_' && "ky_str_to_lower"@[7] == 't' && "ky_str_to_lower"@[8] == 'o' && "ky_str_to_lower"@[9] == '_' && "ky_str_to_lower"@[10] == 'l' && "ky_str_to_lower"@[11] == 'o' && "ky_str_to_lower"@[12] == 'w' && "ky_str_to_lower"@[13] == 'e' && "ky_str_to_lower"@[14] == 'r',
{
    reveal_strlit("ky_strlen");
    reveal_strlit("ky_i64_to_str");
    reveal_strlit("ky_input");
    reveal_strlit("ky_concat");
    reveal_strlit("ky_str_to_upper");
    reveal_strlit("ky_str_to_lower");
}

proof fn lemma_builtin_names_20()
    ensures
        "ky_str_trim"@.len() == 11 && "ky_str_trim"@[0] == 'k' && "ky_str_trim"@[1] == 'y' && "ky_str_trim"@[2] == '_' && "ky_str_trim"@[3] == 's' && "ky_str_trim"@[4] == 't' && "ky_str_trim"@[5] == 'r' && "ky_str_trim"@[6] == '_' && "ky_str_trim"@[7] == 't' && "ky_str_trim"@[8] == 'r' && "ky_str_trim"@[9] == 'i' && "ky_str_trim"@[10] == 'm',
        "ky_str_replace"@.len() == 14 && "ky_str_replace"@[0] == 'k' && "ky_str_replace"@[1] == 'y' && "ky_str_replace"@[2] == '_' && "ky_str_replace"@[3] == 's' && "ky_str_replace"@[4] == 't' && "ky_str_replace"@[5] == 'r' && "ky_str_replace"@[6] == '_' && "ky_str_replace"@[7] == 'r' && "ky_str_replace"@[8] == 'e' && "ky_str_replace"@[9] == 'p' && "ky_str_replace"@[10] == 'l' && "ky_str_replace"@[11] == 'a' && "ky_str_replace"@[12] == 'c' && "ky_str_replace"@[13] == 'e',
{
    reveal_strlit("ky_str_trim");
    reveal_strlit("ky_str_replace");
}

/// The builtins whose result is text.
pub open spec fn returns_text(name: Seq<char>) -> bool {
    name == "to_upper"@
    || name == "to_lower"@
    || name == "upper"@
    || name == "lower"@
    || name == "trim"@
    || name == "replace"@
    || name == "input"@
    || name == "input_with_prompt"@
    || name == "read_str"@
    || name == "substr"@
    || name == "json_stringify"@
    || name == "json_stringify_str"@
    || name == "serialize"@
    || name == "ky_struct_to_json"@
    || name == "ky_getenv"@
    || name == "ky_setenv"@
    || name == "ky_base64_encode"@
    || name == "ky_sha1"@
    || name == "ky_str_builder_new"@
    || name == "str_builder_new"@
    || name == "str_builder_to_str"@
    || name == "ky_str_builder_to_str"@
    || name == "ky_read_str"@
    || name == "ky_fs_read_to_string"@
    || name == "ky_bytes_to_hex"@
    || name == "ky_bytes_to_base64"@
}

/// The builtins that return text have return type `str`, and no other
/// builtin does: `substr`, the case conversions, `trim`, `replace`, the
/// input and file readers, the JSON and hash encoders, the string
/// builders' results and the byte-buffer encoders.
#[verifier::rlimit(100)]
#[verifier::spinoff_prover]
pub proof fn law_text_builtins_return_str(name: Seq<char>)
    ensures
        (builtin_return(name) == Some(TypeModel::Str)) == returns_text(name),
{
    lemma_builtin_names_0();
    lemma_builtin_names_1();
    lemma_builtin_names_2();
    lemma_builtin_names_3();
    lemma_builtin_names_4();
    lemma_builtin_names_5();
    lemma_builtin_names_6();
    lemma_builtin_names_7();
    lemma_builtin_names_8();
    lemma_builtin_names_9();
    lemma_builtin_names_10();
    lemma_builtin_names_11();
    lemma_builtin_names_12();
    lemma_builtin_names_13();
    lemma_builtin_names_14();
    lemma_builtin_names_15();
    lemma_builtin_names_16();
    lemma_builtin_names_17();
    lemma_builtin_names_18();
    lemma_builtin_names_19();
    lemma_builtin_names_20();
}

/// A builtin known to return a string, when it has a return type at all,
/// has return type `str`.
#[verifier::rlimit(100)]
#[verifier::spinoff_prover]
pub proof fn law_string_builtins_are_str(name: Seq<char>)
    ensures
        string_builtin(name) && builtin_return(name) is Some ==> builtin_return(name) == Some(TypeModel::Str),
{
    lemma_builtin_names_0();
    lemma_builtin_names_1();
    lemma_builtin_names_2();
    lemma_builtin_names_3();
    lemma_builtin_names_4();
    lemma_builtin_names_5();
    lemma_builtin_names_6();
    lemma_builtin_names_7();
    lemma_builtin_names_8();
    lemma_builtin_names_9();
    lemma_builtin_names_10();
    lemma_builtin_names_11();
    lemma_builtin_names_12();
    lemma_builtin_names_13();
    lemma_builtin_names_14();
    lemma_builtin_names_15();
    lemma_builtin_names_16();
    lemma_builtin_names_17();
    lemma_builtin_names_18();
    lemma_builtin_names_19();
    lemma_builtin_names_20();
}

/// A method of the runtime's request (`param`, `header`, `body`, `query`)
/// called on a closure parameter makes it a pointer to the `Request`
/// struct; a method of the response (`json`, `text`, `status`, `send`,
/// `redirect`) makes it a pointer to the `Res` struct; whatever the
/// arguments of the call.
#[verifier::spinoff_prover]
pub proof fn law_method_call_types_receiver(param: Seq<char>, m: Seq<char>, args: Seq<ExprModel>)
    ensures
        ({
            let e = ExprModel::FunctionCall(
                Box::new(ExprModel::PropertyAccess(Box::new(ExprModel::Identifier(param)), m)),
                args,
            );
            &&& (m == "param"@ || m == "header"@ || m == "body"@ || m == "query"@) ==> inferred_type(param, e)
                == Some(TypeModel::Ptr(Box::new(TypeModel::Struct("Request"@, Seq::empty()))))
            &&& (m == "json"@ || m == "text"@ || m == "status"@ || m == "send"@ || m == "redirect"@)
                ==> inferred_type(param, e) == Some(TypeModel::Ptr(Box::new(TypeModel::Struct("Res"@, Seq::empty()))))
        }),
{
    reveal_strlit("json");
    assert("json"@.len() == 4 && "json"@[0] == 'j' && "json"@[1] == 's' && "json"@[2] == 'o' && "json"@[3] == 'n');
    reveal_strlit("text");
    assert("text"@.len() == 4 && "text"@[0] == 't' && "text"@[1] == 'e' && "text"@[2] == 'x' && "text"@[3] == 't');
    reveal_strlit("status");
    assert("status"@.len() == 6 && "status"@[0] == 's' && "status"@[1] == 't' && "status"@[2] == 'a' && "status"@[3] == 't' && "status"@[4] == 'u' && "status"@[5] == 's');
    reveal_strlit("send");
    assert("send"@.len() == 4 && "send"@[0] == 's' && "send"@[1] == 'e' && "send"@[2] == 'n' && "send"@[3] == 'd');
    reveal_strlit("redirect");
    assert("redirect"@.len() == 8 && "redirect"@[0] == 'r' && "redirect"@[1] == 'e' && "redirect"@[2] == 'd' && "redirect"@[3] == 'i' && "redirect"@[4] == 'r' && "redirect"@[5] == 'e' && "redirect"@[6] == 'c' && "redirect"@[7] == 't');
    reveal_strlit("param");
    assert("param"@.len() == 5 && "param"@[0] == 'p' && "param"@[1] == 'a' && "param"@[2] == 'r' && "param"@[3] == 'a' && "param"@[4] == 'm');
    reveal_strlit("header");
    assert("header"@.len() == 6 && "header"@[0] == 'h' && "header"@[1] == 'e' && "header"@[2] == 'a' && "header"@[3] == 'd' && "header"@[4] == 'e' && "header"@[5] == 'r');
    reveal_strlit("body");
    assert("body"@.len() == 4 && "body"@[0] == 'b' && "body"@[1] == 'o' && "body"@[2] == 'd' && "body"@[3] == 'y');
    reveal_strlit("query");
    assert("query"@.len() == 5 && "query"@[0] == 'q' && "query"@[1] == 'u' && "query"@[2] == 'e' && "query"@[3] == 'r' && "query"@[4] == 'y');
}

proof fn lemma_scalar_names()
    ensures
        "i1"@.len() == 2 && "i1"@[0] == 'i' && "i1"@[1] == '1',
        "i8"@.len() == 2 && "i8"@[0] == 'i' && "i8"@[1] == '8',
        "u8"@.len() == 2 && "u8"@[0] == 'u' && "u8"@[1] == '8',
        "i16"@.len() == 3 && "i16"@[0] == 'i' && "i16"@[1] == '1' && "i16"@[2] == '6',
        "u16"@.len() == 3 && "u16"@[0] == 'u' && "u16"@[1] == '1' && "u16"@[2] == '6',
        "i32"@.len() == 3 && "i32"@[0] == 'i' && "i32"@[1] == '3' && "i32"@[2] == '2',
        "int"@.len() == 3 && "int"@[0] == 'i' && "int"@[1] == 'n' && "int"@[2] == 't',
        "u32"@.len() == 3 && "u32"@[0] == 'u' && "u32"@[1] == '3' && "u32"@[2] == '2',
        "i64"@.len() == 3 && "i64"@[0] == 'i' && "i64"@[1] == '6' && "i64"@[2] == '4',
        "u64"@.len() == 3 && "u64"@[0] == 'u' && "u64"@[1] == '6' && "u64"@[2] == '4',
        "f32"@.len() == 3 && "f32"@[0] == 'f' && "f32"@[1] == '3' && "f32"@[2] == '2',
        "f64"@.len() == 3 && "f64"@[0] == 'f' && "f64"@[1] == '6' && "f64"@[2] == '4',
        "bool"@.len() == 4 && "bool"@[0] == 'b' && "bool"@[1] == 'o' && "bool"@[2] == 'o' && "bool"@[3] == 'l',
        "char"@.len() == 4 && "char"@[0] == 'c' && "char"@[1] == 'h' && "char"@[2] == 'a' && "char"@[3] == 'r',
        "str"@.len() == 3 && "str"@[0] == 's' && "str"@[1] == 't' && "str"@[2] == 'r',
        "void"@.len() == 4 && "void"@[0] == 'v' && "void"@[1] == 'o' && "void"@[2] == 'i' && "void"@[3] == 'd',
{
    reveal_strlit("i1");
    reveal_strlit("i8");
    reveal_strlit("u8");
    reveal_strlit("i16");
    reveal_strlit("u16");
    reveal_strlit("i32");
    reveal_strlit("int");
    reveal_strlit("u32");
    reveal_strlit("i64");
    reveal_strlit("u64");
    reveal_strlit("f32");
    reveal_strlit("f64");
    reveal_strlit("bool");
    reveal_strlit("char");
    reveal_strlit("str");
    reveal_strlit("void");
}

/// Scalar types are written in annotations, in listings and in `TypeInfo`
/// names by the same name: the name a listing gives a scalar type denotes
/// that type in an annotation, its `TypeInfo` name is that name, and a
/// scalar name denotes the type listed by it (`int` being another name
/// for `i32`).
#[verifier::spinoff_prover]
pub proof fn law_scalar_names_round_trip(t: TypeModel, n: Seq<char>)
    ensures
        (t is I8 || t is U8 || t is I16 || t is U16 || t is I32 || t is U32 || t is I64 || t is U64 || t is F32 || t is F64 || t is Bool || t is Char || t is Str) ==> scalar_named(type_text(t)) == Some(t) && info_name(t) == type_text(t),
        scalar_named(n) matches Some(u) ==> type_text(u) == n || (n == "int"@ && u == TypeModel::I32),
{
    lemma_scalar_names();
}

/// The size in bytes of an integer type is its bit width over eight,
/// except that `i1` and `bool` take a whole byte.
pub proof fn law_int_size_is_width(t: MirType)
    ensures
        int_type(t) && !(t is I1 || t is Bool) ==> type_size(t@) * 8 == bit_width(t) as int,
        (t is I1 || t is Bool) ==> type_size(t@) == 1 && bit_width(t) == 1,
{
}

/// Every value held through a pointer (strings, collections, boxes,
/// channels, byte buffers and pointers themselves) takes one 8-byte word,
/// a slice two words (pointer and length), `void` nothing, and a float as
/// many bytes as its bits over eight.
pub proof fn law_word_sizes(t: MirType)
    ensures
        move_type(t) || t is Ptr ==> type_size(t@) == 8,
        t is Slice ==> type_size(t@) == 16,
        t is Void ==> type_size(t@) == 0,
        t is F32 ==> type_size(t@) * 8 == 32,
        t is F64 ==> type_size(t@) * 8 == 64,
{
}

/// Types built from scalars and one-argument collections, boxes and
/// channels.
pub open spec fn nested_simple(t: TypeModel) -> bool
    decreases t,
{
    match t {
        TypeModel::List(i) => nested_simple(*i),
        TypeModel::SetOf(i) => nested_simple(*i),
        TypeModel::Queue(i) => nested_simple(*i),
        TypeModel::Stack(i) => nested_simple(*i),
        TypeModel::Deque(i) => nested_simple(*i),
        TypeModel::LinkedList(i) => nested_simple(*i),
        TypeModel::Box(i) => nested_simple(*i),
        TypeModel::Chan(i) => nested_simple(*i),
        TypeModel::Ptr(_) | TypeModel::Array(_, _) | TypeModel::Struct(_, _) | TypeModel::Dict(_, _)
        | TypeModel::Slice(_) => false,
        _ => true,
    }
}

/// For types built from scalars and one-argument collections, boxes and
/// channels, the `TypeInfo` name of a type is its listing text.
pub proof fn law_info_name_is_listing(t: TypeModel)
    requires
        nested_simple(t),
    ensures
        info_name(t) == type_text(t),
    decreases t,
{
    match t {
        TypeModel::List(i) => law_info_name_is_listing(*i),
        TypeModel::SetOf(i) => law_info_name_is_listing(*i),
        TypeModel::Queue(i) => law_info_name_is_listing(*i),
        TypeModel::Stack(i) => law_info_name_is_listing(*i),
        TypeModel::Deque(i) => law_info_name_is_listing(*i),
        TypeModel::LinkedList(i) => law_info_name_is_listing(*i),
        TypeModel::Box(i) => law_info_name_is_listing(*i),
        TypeModel::Chan(i) => law_info_name_is_listing(*i),
        _ => {},
    }
}

/// The move types are exactly strings, byte buffers and the types whose
/// kind is a heap collection, box or channel.
pub proof fn law_move_types_by_kind(t: MirType)
    ensures
        move_type(t) == (t is Str || t is Bytes || type_kind(t@) == "list"@ || type_kind(t@) == "dict"@
            || type_kind(t@) == "set"@ || type_kind(t@) == "queue"@ || type_kind(t@) == "stack"@
            || type_kind(t@) == "deque"@ || type_kind(t@) == "linked_list"@ || type_kind(t@) == "box"@
            || type_kind(t@) == "chan"@),
{
    law_kind_names_constructor(t@);
}

proof fn lemma_mangle_words()
    ensures
        "list"@.len() == 4 && "list"@[0] == 'l' && "list"@[1] == 'i' && "list"@[2] == 's' && "list"@[3] == 't',
        "set"@.len() == 3 && "set"@[0] == 's' && "set"@[1] == 'e' && "set"@[2] == 't',
        "queue"@.len() == 5 && "queue"@[0] == 'q' && "queue"@[1] == 'u' && "queue"@[2] == 'e' && "queue"@[3] == 'u' && "queue"@[4] == 'e',
        "stack"@.len() == 5 && "stack"@[0] == 's' && "stack"@[1] == 't' && "stack"@[2] == 'a' && "stack"@[3] == 'c' && "stack"@[4] == 'k',
        "deque"@.len() == 5 && "deque"@[0] == 'd' && "deque"@[1] == 'e' && "deque"@[2] == 'q' && "deque"@[3] == 'u' && "deque"@[4] == 'e',
        "box"@.len() == 3 && "box"@[0] == 'b' && "box"@[1] == 'o' && "box"@[2] == 'x',
        "chan"@.len() == 4 && "chan"@[0] == 'c' && "chan"@[1] == 'h' && "chan"@[2] == 'a' && "chan"@[3] == 'n',
        "slice"@.len() == 5 && "slice"@[0] == 's' && "slice"@[1] == 'l' && "slice"@[2] == 'i' && "slice"@[3] == 'c' && "slice"@[4] == 'e',
        "dict"@.len() == 4 && "dict"@[0] == 'd' && "dict"@[1] == 'i' && "dict"@[2] == 'c' && "dict"@[3] == 't',
        "_"@.len() == 1 && "_"@[0] == '_',
        "list_"@.len() == 5 && "list_"@[0] == 'l' && "list_"@[1] == 'i' && "list_"@[2] == 's' && "list_"@[3] == 't' && "list_"@[4] == '_',
        "set_"@.len() == 4 && "set_"@[0] == 's' && "set_"@[1] == 'e' && "set_"@[2] == 't' && "set_"@[3] == '_',
        "queue_"@.len() == 6 && "queue_"@[0] == 'q' && "queue_"@[1] == 'u' && "queue_"@[2] == 'e' && "queue_"@[3] == 'u' && "queue_"@[4] == 'e' && "queue_"@[5] == '_',
        "stack_"@.len() == 6 && "stack_"@[0] == 's' && "stack_"@[1] == 't' && "stack_"@[2] == 'a' && "stack_"@[3] == 'c' && "stack_"@[4] == 'k' && "stack_"@[5] == '_',
        "deque_"@.len() == 6 && "deque_"@[0] == 'd' && "deque_"@[1] == 'e' && "deque_"@[2] == 'q' && "deque_"@[3] == 'u' && "deque_"@[4] == 'e' && "deque_"@[5] == '_',
        "box_"@.len() == 4 && "box_"@[0] == 'b' && "box_"@[1] == 'o' && "box_"@[2] == 'x' && "box_"@[3] == '_',
        "chan_"@.len() == 5 && "chan_"@[0] == 'c' && "chan_"@[1] == 'h' && "chan_"@[2] == 'a' && "chan_"@[3] == 'n' && "chan_"@[4] == '_',
        "slice_"@.len() == 6 && "slice_"@[0] == 's' && "slice_"@[1] == 'l' && "slice_"@[2] == 'i' && "slice_"@[3] == 'c' && "slice_"@[4] == 'e' && "slice_"@[5] == '_',
        "dict_"@.len() == 5 && "dict_"@[0] == 'd' && "dict_"@[1] == 'i' && "dict_"@[2] == 'c' && "dict_"@[3] == 't' && "dict_"@[4] == '_',
        "bytes"@.len() == 5 && "bytes"@[0] == 'b' && "bytes"@[1] == 'y' && "bytes"@[2] == 't' && "bytes"@[3] == 'e' && "bytes"@[4] == 's',
{
    reveal_strlit("list");
    reveal_strlit("set");
    reveal_strlit("queue");
    reveal_strlit("stack");
    reveal_strlit("deque");
    reveal_strlit("box");
    reveal_strlit("chan");
    reveal_strlit("slice");
    reveal_strlit("dict");
    reveal_strlit("_");
    reveal_strlit("list_");
    reveal_strlit("set_");
    reveal_strlit("queue_");
    reveal_strlit("stack_");
    reveal_strlit("deque_");
    reveal_strlit("box_");
    reveal_strlit("chan_");
    reveal_strlit("slice_");
    reveal_strlit("dict_");
    reveal_strlit("bytes");
}

/// A mangled concrete name spells each type the way listings and
/// `TypeInfo` kinds do: a scalar by its listing name, a one-argument
/// collection, box, channel or slice as its kind, `_` and the mangled
/// argument, a dictionary as `dict_`, its key, `_` and its value, and a
/// byte buffer by its kind.
#[verifier::spinoff_prover]
#[verifier::rlimit(60)]
pub proof fn law_mangle_follows_kind(t: TypeModel)
    ensures
        (t is I1 || t is I8 || t is U8 || t is I16 || t is U16 || t is I32 || t is U32 || t is I64 || t is U64 || t is F32 || t is F64 || t is Bool || t is Char || t is Str || t is Void) ==> type_mangle(t) == type_text(t),
        t is Bytes ==> type_mangle(t) == type_kind(t),
        t matches TypeModel::Dict(k, v) ==> type_mangle(t) == type_kind(t) + "_"@ + type_mangle(*k) + "_"@
            + type_mangle(*v),
        t matches TypeModel::List(i) ==> type_mangle(t) == type_kind(t) + "_"@ + type_mangle(*i),
        t matches TypeModel::SetOf(i) ==> type_mangle(t) == type_kind(t) + "_"@ + type_mangle(*i),
        t matches TypeModel::Queue(i) ==> type_mangle(t) == type_kind(t) + "_"@ + type_mangle(*i),
        t matches TypeModel::Stack(i) ==> type_mangle(t) == type_kind(t) + "_"@ + type_mangle(*i),
        t matches TypeModel::Deque(i) ==> type_mangle(t) == type_kind(t) + "_"@ + type_mangle(*i),
        t matches TypeModel::Box(i) ==> type_mangle(t) == type_kind(t) + "_"@ + type_mangle(*i),
        t matches TypeModel::Chan(i) ==> type_mangle(t) == type_kind(t) + "_"@ + type_mangle(*i),
        t matches TypeModel::Slice(i) ==> type_mangle(t) == type_kind(t) + "_"@ + type_mangle(*i),
{
    lemma_mangle_words();
    match t {
        TypeModel::List(i) => {
            assert(type_mangle(t) =~= type_kind(t) + "_"@ + type_mangle(*i));
        },
        TypeModel::SetOf(i) => {
            assert(type_mangle(t) =~= type_kind(t) + "_"@ + type_mangle(*i));
        },
        TypeModel::Queue(i) => {
            assert(type_mangle(t) =~= type_kind(t) + "_"@ + type_mangle(*i));
        },
        TypeModel::Stack(i) => {
            assert(type_mangle(t) =~= type_kind(t) + "_"@ + type_mangle(*i));
        },
        TypeModel::Deque(i) => {
            assert(type_mangle(t) =~= type_kind(t) + "_"@ + type_mangle(*i));
        },
        TypeModel::Box(i) => {
            assert(type_mangle(t) =~= type_kind(t) + "_"@ + type_mangle(*i));
        },
        TypeModel::Chan(i) => {
            assert(type_mangle(t) =~= type_kind(t) + "_"@ + type_mangle(*i));
        },
        TypeModel::Slice(i) => {
            assert(type_mangle(t) =~= type_kind(t) + "_"@ + type_mangle(*i));
        },
        TypeModel::Dict(k, v) => {
            assert(type_mangle(t) =~= type_kind(t) + "_"@ + type_mangle(*k) + "_"@ + type_mangle(*v));
        },
        _ => {},
    }
}

proof fn lemma_runtime_member_names()
    ensures
        "fd"@.len() == 2 && "fd"@[0] == 'f' && "fd"@[1] == 'd',
        "sent"@.len() == 4 && "sent"@[0] == 's' && "sent"@[1] == 'e' && "sent"@[2] == 'n' && "sent"@[3] == 't',
        "status"@.len() == 6 && "status"@[0] == 's' && "status"@[1] == 't' && "status"@[2] == 'a' && "status"@[3] == 't' && "status"@[4] == 'u' && "status"@[5] == 's',
        "json"@.len() == 4 && "json"@[0] == 'j' && "json"@[1] == 's' && "json"@[2] == 'o' && "json"@[3] == 'n',
        "text"@.len() == 4 && "text"@[0] == 't' && "text"@[1] == 'e' && "text"@[2] == 'x' && "text"@[3] == 't',
        "path"@.len() == 4 && "path"@[0] == 'p' && "path"@[1] == 'a' && "path"@[2] == 't' && "path"@[3] == 'h',
        "method"@.len() == 6 && "method"@[0] == 'm' && "method"@[1] == 'e' && "method"@[2] == 't' && "method"@[3] == 'h' && "method"@[4] == 'o' && "method"@[5] == 'd',
        "body"@.len() == 4 && "body"@[0] == 'b' && "body"@[1] == 'o' && "body"@[2] == 'd' && "body"@[3] == 'y',
        "_pattern"@.len() == 8 && "_pattern"@[0] == '_' && "_pattern"@[1] == 'p' && "_pattern"@[2] == 'a' && "_pattern"@[3] == 't' && "_pattern"@[4] == 't' && "_pattern"@[5] == 'e' && "_pattern"@[6] == 'r' && "_pattern"@[7] == 'n',
        "param"@.len() == 5 && "param"@[0] == 'p' && "param"@[1] == 'a' && "param"@[2] == 'r' && "param"@[3] == 'a' && "param"@[4] == 'm',
        "header"@.len() == 6 && "header"@[0] == 'h' && "header"@[1] == 'e' && "header"@[2] == 'a' && "header"@[3] == 'd' && "header"@[4] == 'e' && "header"@[5] == 'r',
        "query"@.len() == 5 && "query"@[0] == 'q' && "query"@[1] == 'u' && "query"@[2] == 'e' && "query"@[3] == 'r' && "query"@[4] == 'y',
        "send"@.len() == 4 && "send"@[0] == 's' && "send"@[1] == 'e' && "send"@[2] == 'n' && "send"@[3] == 'd',
        "redirect"@.len() == 8 && "redirect"@[0] == 'r' && "redirect"@[1] == 'e' && "redirect"@[2] == 'd' && "redirect"@[3] == 'i' && "redirect"@[4] == 'r' && "redirect"@[5] == 'e' && "redirect"@[6] == 'c' && "redirect"@[7] == 't',
        "Res"@.len() == 3 && "Res"@[0] == 'R' && "Res"@[1] == 'e' && "Res"@[2] == 's',
        "Request"@.len() == 7 && "Request"@[0] == 'R' && "Request"@[1] == 'e' && "Request"@[2] == 'q' && "Request"@[3] == 'u' && "Request"@[4] == 'e' && "Request"@[5] == 's' && "Request"@[6] == 't',
{
    reveal_strlit("fd");
    reveal_strlit("sent");
    reveal_strlit("status");
    reveal_strlit("json");
    reveal_strlit("text");
    reveal_strlit("path");
    reveal_strlit("method");
    reveal_strlit("body");
    reveal_strlit("_pattern");
    reveal_strlit("param");
    reveal_strlit("header");
    reveal_strlit("query");
    reveal_strlit("send");
    reveal_strlit("redirect");
    reveal_strlit("Res");
    reveal_strlit("Request");
}

/// Reading a field of a closure parameter types the parameter by the
/// struct that has the field: the response's fields (`fd`, `sent`,
/// `status`, `json`, `text`) make it a pointer to `Res`, the request's
/// (`path`, `method`, `body`, `_pattern`) a pointer to `Request`, and any
/// other field a byte pointer.
#[verifier::spinoff_prover]
pub proof fn law_field_read_types_receiver(param: Seq<char>, f: Seq<char>)
    ensures
        inferred_type(param, ExprModel::PropertyAccess(Box::new(ExprModel::Identifier(param)), f)) == Some(
            field_owner_type(f),
        ),
        (field_owner_type(f) == TypeModel::Ptr(Box::new(TypeModel::Struct("Res"@, Seq::empty())))) == (f == "fd"@ || f == "sent"@ || f == "status"@ || f == "json"@
            || f == "text"@),
        (field_owner_type(f) == TypeModel::Ptr(Box::new(TypeModel::Struct("Request"@, Seq::empty())))) == (f == "path"@ || f == "method"@ || f == "body"@ || f
            == "_pattern"@),
{
    lemma_runtime_member_names();
}

/// A name that is both a method and a field of the runtime's structs
/// points to the same struct either way, and the methods that imply a
/// struct are exactly the request's and the response's.
#[verifier::spinoff_prover]
pub proof fn law_methods_and_fields_agree(m: Seq<char>)
    ensures
        (m == "status"@ || m == "json"@ || m == "text"@ || m == "body"@) ==> method_receiver_type(m) == Some(
            field_owner_type(m),
        ),
        (method_receiver_type(m) == Some(TypeModel::Ptr(Box::new(TypeModel::Struct("Request"@, Seq::empty()))))) == (m == "param"@ || m == "header"@ || m == "body"@ || m
            == "query"@),
        (method_receiver_type(m) == Some(TypeModel::Ptr(Box::new(TypeModel::Struct("Res"@, Seq::empty()))))) == (m == "json"@ || m == "text"@ || m == "status"@ || m
            == "send"@ || m == "redirect"@),
{
    lemma_runtime_member_names();
}

/// A literal keeps its value when lowered: an integer becomes an `i32`
/// constant exactly when it fits in 32 bits and an `i64` constant
/// otherwise, either way listed as its decimal value; a float keeps its
/// bits as an `f64`, a string its text, a boolean its truth value, and a
/// character its code point, typed `char`.
pub proof fn law_literal_keeps_value(v: Literal, t: Seq<(u64, String)>)
    ensures
        v matches Literal::Integer(n) ==> {
            &&& (literal_model(v).0 is I32) == (i32::MIN <= n <= i32::MAX)
            &&& (literal_model(v).0 is I32 || literal_model(v).0 is I64)
            &&& constant_text(literal_model(v).1@, t) == signed_decimal(n as int)
        },
        v matches Literal::Float(bits) ==> literal_model(v).0 is F64 && literal_model(v).1@ == ConstModel::F64(bits),
        v matches Literal::String(text) ==> literal_model(v).0 is Str && literal_model(v).1@ == ConstModel::String(text@),
        v matches Literal::Boolean(b) ==> literal_model(v).0 is Bool && literal_model(v).1@ == ConstModel::Bool(b),
        v matches Literal::Char(c) ==> literal_model(v).0 is Char && literal_model(v).1@ == ConstModel::I32(c),
{
}

} // verus!

verus! {

/// Whether no generic application within an annotation is named by a key
/// of `subst` (a type parameter is never applied to arguments).
pub open spec fn applies_no_param(a: AstModel, subst: Map<Seq<char>, TypeModel>) -> bool
    decreases a,
{
    match a {
        AstModel::Generic(name, args) => !subst.contains_key(name) && all_apply_no_param(args, subst),
        AstModel::Optional(inner) => applies_no_param(*inner, subst),
        AstModel::Dict(k, v) => applies_no_param(*k, subst) && applies_no_param(*v, subst),
        AstModel::Mutable(inner) => applies_no_param(*inner, subst),
        AstModel::Borrow(inner) => applies_no_param(*inner, subst),
        AstModel::SetOf(inner) => applies_no_param(*inner, subst),
        AstModel::Queue(inner) => applies_no_param(*inner, subst),
        AstModel::Stack(inner) => applies_no_param(*inner, subst),
        AstModel::Deque(inner) => applies_no_param(*inner, subst),
        AstModel::LinkedList(inner) => applies_no_param(*inner, subst),
        AstModel::List(inner) => applies_no_param(*inner, subst),
        AstModel::Array(inner, _) => applies_no_param(*inner, subst),
        AstModel::Slice(inner) => applies_no_param(*inner, subst),
        AstModel::Chan(inner) => applies_no_param(*inner, subst),
        _ => true,
    }
}

/// Whether no generic application within the annotations is named by a
/// key of `subst`.
pub open spec fn all_apply_no_param(args: Seq<AstModel>, subst: Map<Seq<char>, TypeModel>) -> bool
    decreases args,
{
    if args.len() == 0 {
        true
    } else {
        all_apply_no_param(args.drop_last(), subst) && applies_no_param(args[args.len() - 1], subst)
    }
}

/// Whether every type that `subst` binds is plain.
pub open spec fn plain_subst(subst: Map<Seq<char>, TypeModel>) -> bool {
    forall|n: Seq<char>| subst.contains_key(n) ==> plain_type(#[trigger] subst[n])
}

/// Specializing an annotation and then lowering it gives what lowering it
/// under the substitution of its type parameters gives: writing each
/// parameter's type into the annotation (as generic specialization does)
/// and lowering the result agrees with lowering the annotation with the
/// parameters bound. This holds where the bound types are plain, no type
/// parameter is applied to arguments, and the struct definitions do not
/// define a struct `box` with fields.
pub proof fn law_specialize_then_lower(
    a: AstModel,
    subst: Map<Seq<char>, TypeModel>,
    defs: Option<StructDefs>,
    aliases: Map<Seq<char>, AstModel>,
)
    requires
        plain_subst(subst),
        applies_no_param(a, subst),
        !(defs_has(defs, "box"@) && defs->0["box"@].len() > 0),
    ensures
        lower_model(substitute(a, written_subst(subst)), defs, Map::empty(), aliases) == lower_model(
            a,
            defs,
            subst,
            aliases,
        ),
    decreases a,
{
    let ws = written_subst(subst);
    match a {
        AstModel::User(name) => {
            if subst.contains_key(name) {
                law_annotation_round_trip(subst[name], defs, aliases);
            }
        },
        AstModel::Primitive(name) => {
            if subst.contains_key(name) {
                law_annotation_round_trip(subst[name], defs, aliases);
            }
        },
        AstModel::Generic(name, args) => {
            lemma_specialize_then_lower_all(args, subst, defs, aliases);
            let sargs = substitute_all(args, ws);
            lemma_substitute_all_len(args, ws);
            if args.len() > 0 {
                lemma_substitute_all_index(args, ws, 0);
                lemma_all_apply_index(args, subst, 0);
                law_specialize_then_lower(args[0], subst, defs, aliases);
            }
        },
        AstModel::Optional(inner) => law_specialize_then_lower(*inner, subst, defs, aliases),
        AstModel::Dict(k, v) => {
            law_specialize_then_lower(*k, subst, defs, aliases);
            law_specialize_then_lower(*v, subst, defs, aliases);
        },
        AstModel::Mutable(inner) => law_specialize_then_lower(*inner, subst, defs, aliases),
        AstModel::Borrow(inner) => law_specialize_then_lower(*inner, subst, defs, aliases),
        AstModel::SetOf(inner) => law_specialize_then_lower(*inner, subst, defs, aliases),
        AstModel::Queue(inner) => law_specialize_then_lower(*inner, subst, defs, aliases),
        AstModel::Stack(inner) => law_specialize_then_lower(*inner, subst, defs, aliases),
        AstModel::Deque(inner) => law_specialize_then_lower(*inner, subst, defs, aliases),
        AstModel::LinkedList(inner) => law_specialize_then_lower(*inner, subst, defs, aliases),
        AstModel::List(inner) => law_specialize_then_lower(*inner, subst, defs, aliases),
        AstModel::Array(inner, _) => law_specialize_then_lower(*inner, subst, defs, aliases),
        AstModel::Slice(inner) => law_specialize_then_lower(*inner, subst, defs, aliases),
        AstModel::Chan(inner) => law_specialize_then_lower(*inner, subst, defs, aliases),
        _ => {},
    }
}

proof fn lemma_substitute_all_len(args: Seq<AstModel>, ws: Map<Seq<char>, AstModel>)
    ensures
        substitute_all(args, ws).len() == args.len(),
    decreases args.len(),
{
    if args.len() > 0 {
        lemma_substitute_all_len(args.drop_last(), ws);
    }
}

proof fn lemma_substitute_all_index(args: Seq<AstModel>, ws: Map<Seq<char>, AstModel>, i: int)
    requires
        0 <= i < args.len(),
    ensures
        substitute_all(args, ws)[i] == substitute(args[i], ws),
    decreases args.len(),
{
    lemma_substitute_all_len(args.drop_last(), ws);
    if i < args.len() - 1 {
        lemma_substitute_all_index(args.drop_last(), ws, i);
    }
}

proof fn lemma_all_apply_index(args: Seq<AstModel>, subst: Map<Seq<char>, TypeModel>, i: int)
    requires
        0 <= i < args.len(),
        all_apply_no_param(args, subst),
    ensures
        applies_no_param(args[i], subst),
    decreases args.len(),
{
    if i < args.len() - 1 {
        lemma_all_apply_index(args.drop_last(), subst, i);
    }
}

/// The law for each annotation of a list.
proof fn lemma_specialize_then_lower_all(
    args: Seq<AstModel>,
    subst: Map<Seq<char>, TypeModel>,
    defs: Option<StructDefs>,
    aliases: Map<Seq<char>, AstModel>,
)
    requires
        plain_subst(subst),
        all_apply_no_param(args, subst),
        !(defs_has(defs, "box"@) && defs->0["box"@].len() > 0),
    ensures
        lower_models(substitute_all(args, written_subst(subst)), defs, Map::empty(), aliases)
            == lower_models(args, defs, subst, aliases),
    decreases args,
{
    if args.len() > 0 {
        let ws = written_subst(subst);
        lemma_specialize_then_lower_all(args.drop_last(), subst, defs, aliases);
        law_specialize_then_lower(args[args.len() - 1], subst, defs, aliases);
        let s = substitute_all(args, ws);
        lemma_substitute_all_len(args, ws);
        assert(s.drop_last() == substitute_all(args.drop_last(), ws));
    }
}

} // verus!

verus! {

/// The signature of a specialized function lowers to what the template's
/// signature lowers to with its type parameters bound: each parameter,
/// and the return type. This holds where the bound types are plain, no
/// type parameter is applied to arguments in the signature, and the
/// struct definitions do not define a struct `box` with fields.
pub proof fn law_specialized_signature(
    f: FnModel,
    subst: Map<Seq<char>, TypeModel>,
    defs: Option<StructDefs>,
    aliases: Map<Seq<char>, AstModel>,
)
    requires
        plain_subst(subst),
        forall|i: int| 0 <= i < f.params.len() ==> applies_no_param(#[trigger] f.params[i].1, subst),
        f.return_type is Some ==> applies_no_param(f.return_type->0, subst),
        !(defs_has(defs, "box"@) && defs->0["box"@].len() > 0),
    ensures
        ({
            let g = specialize(f, written_subst(subst));
            &&& g.params.len() == f.params.len()
            &&& forall|i: int|
                0 <= i < f.params.len() ==> #[trigger] lower_model(g.params[i].1, defs, Map::empty(), aliases)
                    == lower_model(f.params[i].1, defs, subst, aliases)
            &&& g.return_type is Some == f.return_type is Some
            &&& f.return_type is Some ==> lower_model(g.return_type->0, defs, Map::empty(), aliases)
                == lower_model(f.return_type->0, defs, subst, aliases)
        }),
{
    let g = specialize(f, written_subst(subst));
    assert forall|i: int| 0 <= i < f.params.len() implies #[trigger] lower_model(
        g.params[i].1,
        defs,
        Map::empty(),
        aliases,
    ) == lower_model(f.params[i].1, defs, subst, aliases) by {
        law_specialize_then_lower(f.params[i].1, subst, defs, aliases);
    }
    if let Some(rt) = f.return_type {
        law_specialize_then_lower(rt, subst, defs, aliases);
    }
}

} // verus!

verus! {

/// Method resolution is what gives classes polymorphism: a class that
/// declares a method gets its own implementation, whatever its ancestors
/// declare, and a class that does not gets the one its parent resolves to.
pub proof fn law_method_override(
    methods: MethodTable,
    parents: ParentMap,
    class: Seq<char>,
    method: Seq<char>,
    n: nat,
)
    ensures
        declares_method(methods, class, method) ==> method_in_chain(methods, parents, class, method, n)
            == Some(methods[class][method]),
        !declares_method(methods, class, method) && parent_of(parents, class) is Some ==> method_in_chain(
            methods,
            parents,
            class,
            method,
            n + 1,
        ) == method_in_chain(methods, parents, parent_of(parents, class)->0, method, n),
{
}

/// Widening prefers floats: `f64` over anything, then `f32` over any
/// other type.
pub proof fn law_wider_float_dominance(a: MirType, b: MirType)
    ensures
        (a is F64 || b is F64) ==> wider(a, b)@ == TypeModel::F64,
        (a is F32 || b is F32) && !(a is F64 || b is F64) ==> wider(a, b)@ == TypeModel::F32,
{
}

} // verus!

verus! {

/// Whether no plain name within an annotation is bound by `subst`.
pub open spec fn binds_none(a: AstModel, subst: Map<Seq<char>, AstModel>) -> bool
    decreases a,
{
    match a {
        AstModel::User(name) => !subst.contains_key(name),
        AstModel::Primitive(name) => !subst.contains_key(name),
        AstModel::Generic(_, args) => all_bind_none(args, subst),
        AstModel::FnPtr(params, ret) => all_bind_none(params, subst) && binds_none(*ret, subst),
        AstModel::Optional(inner) => binds_none(*inner, subst),
        AstModel::Error(inner) => binds_none(*inner, subst),
        AstModel::Dict(k, v) => binds_none(*k, subst) && binds_none(*v, subst),
        AstModel::Mutable(inner) => binds_none(*inner, subst),
        AstModel::Borrow(inner) => binds_none(*inner, subst),
        AstModel::SetOf(inner) => binds_none(*inner, subst),
        AstModel::Queue(inner) => binds_none(*inner, subst),
        AstModel::Stack(inner) => binds_none(*inner, subst),
        AstModel::Deque(inner) => binds_none(*inner, subst),
        AstModel::LinkedList(inner) => binds_none(*inner, subst),
        AstModel::List(inner) => binds_none(*inner, subst),
        AstModel::Array(inner, _) => binds_none(*inner, subst),
        AstModel::Slice(inner) => binds_none(*inner, subst),
        AstModel::Chan(inner) => binds_none(*inner, subst),
        _ => true,
    }
}

/// Whether no plain name within the annotations is bound by `subst`.
pub open spec fn all_bind_none(args: Seq<AstModel>, subst: Map<Seq<char>, AstModel>) -> bool
    decreases args,
{
    if args.len() == 0 {
        true
    } else {
        all_bind_none(args.drop_last(), subst) && binds_none(args[args.len() - 1], subst)
    }
}

/// Substituting names that an annotation does not contain leaves it as it
/// is, at every depth (so an empty substitution changes nothing).
pub proof fn law_substitute_unbound(a: AstModel, subst: Map<Seq<char>, AstModel>)
    requires
        binds_none(a, subst),
    ensures
        substitute(a, subst) == a,
    decreases a,
{
    match a {
        AstModel::Generic(_, args) => lemma_substitute_all_unbound(args, subst),
        AstModel::FnPtr(params, ret) => {
            lemma_substitute_all_unbound(params, subst);
            law_substitute_unbound(*ret, subst);
        },
        AstModel::Optional(inner) => law_substitute_unbound(*inner, subst),
        AstModel::Error(inner) => law_substitute_unbound(*inner, subst),
        AstModel::Dict(k, v) => {
            law_substitute_unbound(*k, subst);
            law_substitute_unbound(*v, subst);
        },
        AstModel::Mutable(inner) => law_substitute_unbound(*inner, subst),
        AstModel::Borrow(inner) => law_substitute_unbound(*inner, subst),
        AstModel::SetOf(inner) => law_substitute_unbound(*inner, subst),
        AstModel::Queue(inner) => law_substitute_unbound(*inner, subst),
        AstModel::Stack(inner) => law_substitute_unbound(*inner, subst),
        AstModel::Deque(inner) => law_substitute_unbound(*inner, subst),
        AstModel::LinkedList(inner) => law_substitute_unbound(*inner, subst),
        AstModel::List(inner) => law_substitute_unbound(*inner, subst),
        AstModel::Array(inner, _) => law_substitute_unbound(*inner, subst),
        AstModel::Slice(inner) => law_substitute_unbound(*inner, subst),
        AstModel::Chan(inner) => law_substitute_unbound(*inner, subst),
        _ => {},
    }
}

proof fn lemma_substitute_all_unbound(args: Seq<AstModel>, subst: Map<Seq<char>, AstModel>)
    requires
        all_bind_none(args, subst),
    ensures
        substitute_all(args, subst) == args,
    decreases args,
{
    if args.len() > 0 {
        lemma_substitute_all_unbound(args.drop_last(), subst);
        law_substitute_unbound(args[args.len() - 1], subst);
        assert(substitute_all(args, subst) =~= args);
    }
}

/// Whether lowering an annotation never looks a name up among `aliases`:
/// each plain name it holds is a scalar, a defined struct, or no alias.
pub open spec fn uses_no_alias(a: AstModel, defs: Option<StructDefs>, aliases: Map<Seq<char>, AstModel>) -> bool
    decreases a,
{
    match a {
        AstModel::User(name) => !aliases.contains_key(name) || scalar_named(name) is Some || defs_has(defs, name),
        AstModel::Generic(_, args) => all_use_no_alias(args, defs, aliases),
        AstModel::Optional(inner) => uses_no_alias(*inner, defs, aliases),
        AstModel::Dict(k, v) => uses_no_alias(*k, defs, aliases) && uses_no_alias(*v, defs, aliases),
        AstModel::Mutable(inner) => uses_no_alias(*inner, defs, aliases),
        AstModel::Borrow(inner) => uses_no_alias(*inner, defs, aliases),
        AstModel::SetOf(inner) => uses_no_alias(*inner, defs, aliases),
        AstModel::Queue(inner) => uses_no_alias(*inner, defs, aliases),
        AstModel::Stack(inner) => uses_no_alias(*inner, defs, aliases),
        AstModel::Deque(inner) => uses_no_alias(*inner, defs, aliases),
        AstModel::LinkedList(inner) => uses_no_alias(*inner, defs, aliases),
        AstModel::List(inner) => uses_no_alias(*inner, defs, aliases),
        AstModel::Array(inner, _) => uses_no_alias(*inner, defs, aliases),
        AstModel::Slice(inner) => uses_no_alias(*inner, defs, aliases),
        AstModel::Chan(inner) => uses_no_alias(*inner, defs, aliases),
        _ => true,
    }
}

/// Whether lowering the annotations never looks a name up among `aliases`.
pub open spec fn all_use_no_alias(
    args: Seq<AstModel>,
    defs: Option<StructDefs>,
    aliases: Map<Seq<char>, AstModel>,
) -> bool
    decreases args,
{
    if args.len() == 0 {
        true
    } else {
        all_use_no_alias(args.drop_last(), defs, aliases) && uses_no_alias(args[args.len() - 1], defs, aliases)
    }
}

proof fn lemma_all_use_no_alias_index(
    args: Seq<AstModel>,
    defs: Option<StructDefs>,
    aliases: Map<Seq<char>, AstModel>,
    i: int,
)
    requires
        0 <= i < args.len(),
        all_use_no_alias(args, defs, aliases),
    ensures
        uses_no_alias(args[i], defs, aliases),
    decreases args.len(),
{
    if i < args.len() - 1 {
        lemma_all_use_no_alias_index(args.drop_last(), defs, aliases, i);
    }
}

/// Lowering with an empty substitution and no aliases gives what lowering
/// with the alias table gives, wherever the annotation names no alias
/// that lowering would look up: `ast_type_to_mir_with_subst` with an empty
/// substitution agrees with `ast_type_to_mir`.
pub proof fn law_empty_subst_without_aliases(
    a: AstModel,
    defs: Option<StructDefs>,
    aliases: Map<Seq<char>, AstModel>,
)
    requires
        uses_no_alias(a, defs, aliases),
    ensures
        lower_model(a, defs, Map::empty(), Map::empty()) == lower_model(a, defs, Map::empty(), aliases),
    decreases a,
{
    match a {
        AstModel::Generic(_, args) => {
            lemma_lower_models_no_alias(args, defs, aliases);
            if args.len() > 0 {
                lemma_all_use_no_alias_index(args, defs, aliases, 0);
                law_empty_subst_without_aliases(args[0], defs, aliases);
            }
        },
        AstModel::Optional(inner) => law_empty_subst_without_aliases(*inner, defs, aliases),
        AstModel::Dict(k, v) => {
            law_empty_subst_without_aliases(*k, defs, aliases);
            law_empty_subst_without_aliases(*v, defs, aliases);
        },
        AstModel::Mutable(inner) => law_empty_subst_without_aliases(*inner, defs, aliases),
        AstModel::Borrow(inner) => law_empty_subst_without_aliases(*inner, defs, aliases),
        AstModel::SetOf(inner) => law_empty_subst_without_aliases(*inner, defs, aliases),
        AstModel::Queue(inner) => law_empty_subst_without_aliases(*inner, defs, aliases),
        AstModel::Stack(inner) => law_empty_subst_without_aliases(*inner, defs, aliases),
        AstModel::Deque(inner) => law_empty_subst_without_aliases(*inner, defs, aliases),
        AstModel::LinkedList(inner) => law_empty_subst_without_aliases(*inner, defs, aliases),
        AstModel::List(inner) => law_empty_subst_without_aliases(*inner, defs, aliases),
        AstModel::Array(inner, _) => law_empty_subst_without_aliases(*inner, defs, aliases),
        AstModel::Slice(inner) => law_empty_subst_without_aliases(*inner, defs, aliases),
        AstModel::Chan(inner) => law_empty_subst_without_aliases(*inner, defs, aliases),
        _ => {},
    }
}

proof fn lemma_lower_models_no_alias(
    args: Seq<AstModel>,
    defs: Option<StructDefs>,
    aliases: Map<Seq<char>, AstModel>,
)
    requires
        all_use_no_alias(args, defs, aliases),
    ensures
        lower_models(args, defs, Map::empty(), Map::empty()) == lower_models(args, defs, Map::empty(), aliases),
    decreases args,
{
    if args.len() > 0 {
        lemma_lower_models_no_alias(args.drop_last(), defs, aliases);
        law_empty_subst_without_aliases(args[args.len() - 1], defs, aliases);
    }
}

} // verus!
