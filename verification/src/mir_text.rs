//! The textual form of MIR types and operators, as MIR listings show them.
use vstd::prelude::*;
use crate::mir::{MirBinaryOp, MirType, MirUnaryOp, TypeModel, fields_model, lemma_fields_model_index, lemma_fields_model_len};
use crate::text::{decimal, u64_to_decimal};

verus! {

/// The text of a type in a MIR listing.
pub open spec fn type_text(t: TypeModel) -> Seq<char>
    decreases t,
{
    match t {
        TypeModel::I1 => "i1"@,
        TypeModel::I8 => "i8"@,
        TypeModel::I16 => "i16"@,
        TypeModel::I32 => "i32"@,
        TypeModel::I64 => "i64"@,
        TypeModel::U8 => "u8"@,
        TypeModel::U16 => "u16"@,
        TypeModel::U32 => "u32"@,
        TypeModel::U64 => "u64"@,
        TypeModel::F32 => "f32"@,
        TypeModel::F64 => "f64"@,
        TypeModel::Bool => "bool"@,
        TypeModel::Char => "char"@,
        TypeModel::Str => "str"@,
        TypeModel::Void => "void"@,
        TypeModel::Ptr(inner) => type_text(*inner) + "*"@,
        TypeModel::Array(inner, size) => "["@ + type_text(*inner) + "; "@ + decimal(size as nat) + "]"@,
        TypeModel::List(inner) => "list<"@ + type_text(*inner) + ">"@,
        TypeModel::Struct(name, fields) => name + " { "@ + fields_text(fields) + " }"@,
        TypeModel::Dict(k, v) => "dict<"@ + type_text(*k) + ", "@ + type_text(*v) + ">"@,
        TypeModel::SetOf(inner) => "set<"@ + type_text(*inner) + ">"@,
        TypeModel::Queue(inner) => "queue<"@ + type_text(*inner) + ">"@,
        TypeModel::Stack(inner) => "stack<"@ + type_text(*inner) + ">"@,
        TypeModel::Deque(inner) => "deque<"@ + type_text(*inner) + ">"@,
        TypeModel::LinkedList(inner) => "linked_list<"@ + type_text(*inner) + ">"@,
        TypeModel::Slice(inner) => "&["@ + type_text(*inner) + "]"@,
        TypeModel::Box(inner) => "box<"@ + type_text(*inner) + ">"@,
        TypeModel::Chan(inner) => "chan<"@ + type_text(*inner) + ">"@,
        TypeModel::Bytes => "bytes"@,
    }
}

/// The `name: type` texts of struct fields, joined by `, `.
pub open spec fn fields_text(fields: Seq<(Seq<char>, TypeModel)>) -> Seq<char>
    decreases fields,
{
    if fields.len() == 0 {
        Seq::empty()
    } else {
        let last = fields[fields.len() - 1];
        let part = last.0 + ": "@ + type_text(last.1);
        if fields.len() == 1 {
            part
        } else {
            fields_text(fields.drop_last()) + ", "@ + part
        }
    }
}

/// `prefix`, then `inner`, then `suffix`.
fn around(prefix: &str, inner: String, suffix: &str) -> (r: String)
    ensures
        r@ == prefix@ + inner@ + suffix@,
{
    let mut s = String::from_str(prefix);
    s.append(inner.as_str());
    s.append(suffix);
    s
}

impl MirType {
    /// The text of the type in a MIR listing.
    pub fn to_text(&self) -> (r: String)
        ensures
            r@ == type_text(self@),
        decreases self,
    {
        match self {
            MirType::I1 => String::from_str("i1"),
            MirType::I8 => String::from_str("i8"),
            MirType::I16 => String::from_str("i16"),
            MirType::I32 => String::from_str("i32"),
            MirType::I64 => String::from_str("i64"),
            MirType::U8 => String::from_str("u8"),
            MirType::U16 => String::from_str("u16"),
            MirType::U32 => String::from_str("u32"),
            MirType::U64 => String::from_str("u64"),
            MirType::F32 => String::from_str("f32"),
            MirType::F64 => String::from_str("f64"),
            MirType::Bool => String::from_str("bool"),
            MirType::Char => String::from_str("char"),
            MirType::Str => String::from_str("str"),
            MirType::Void => String::from_str("void"),
            MirType::Ptr(inner) => {
                let mut s = inner.to_text();
                s.append("*");
                s
            },
            MirType::Array(inner, size) => {
                let mut s = around("[", inner.to_text(), "; ");
                let digits = u64_to_decimal(*size as u64);
                s.append(digits.as_str());
                s.append("]");
                s
            },
            MirType::List(inner) => around("list<", inner.to_text(), ">"),
            MirType::Struct(name, fields) => {
                let ghost fm = fields_model(fields@);
                proof {
                    lemma_fields_model_len(fields@);
                }
                let mut s = name.clone();
                s.append(" { ");
                let mut body = String::new();
                let mut i: usize = 0;
                while i < fields.len()
                    invariant
                        *self == MirType::Struct(*name, *fields),
                        i <= fields@.len(),
                        fm == fields_model(fields@),
                        fm.len() == fields@.len(),
                        body@ == fields_text(fm.take(i as int)),
                    decreases fields@.len() - i,
                {
                    proof {
                        assert(decreases_to!(*self => (*self)->Struct_1));
                        assert(decreases_to!(*fields => fields@));
                        assert(decreases_to!(fields@ => fields@[i as int]));
                        lemma_fields_model_index(fields@, i as int);
                        assert(fm.take(i + 1).drop_last() =~= fm.take(i as int));
                    }
                    if i > 0 {
                        body.append(", ");
                    }
                    body.append(fields[i].0.as_str());
                    body.append(": ");
                    let t = fields[i].1.to_text();
                    body.append(t.as_str());
                    i = i + 1;
                }
                assert(fm.take(i as int) =~= fm);
                s.append(body.as_str());
                s.append(" }");
                s
            },
            MirType::Dict(k, v) => {
                let mut s = around("dict<", k.to_text(), ", ");
                let vt = v.to_text();
                s.append(vt.as_str());
                s.append(">");
                s
            },
            MirType::SetOf(inner) => around("set<", inner.to_text(), ">"),
            MirType::Queue(inner) => around("queue<", inner.to_text(), ">"),
            MirType::Stack(inner) => around("stack<", inner.to_text(), ">"),
            MirType::Deque(inner) => around("deque<", inner.to_text(), ">"),
            MirType::LinkedList(inner) => around("linked_list<", inner.to_text(), ">"),
            MirType::Slice(inner) => around("&[", inner.to_text(), "]"),
            MirType::Box(inner) => around("box<", inner.to_text(), ">"),
            MirType::Chan(inner) => around("chan<", inner.to_text(), ">"),
            MirType::Bytes => String::from_str("bytes"),
        }
    }
}

/// The mnemonic of a binary operator.
pub open spec fn binary_op_text(op: MirBinaryOp) -> Seq<char> {
    match op {
        MirBinaryOp::Add => "add"@,
        MirBinaryOp::Sub => "sub"@,
        MirBinaryOp::Mul => "mul"@,
        MirBinaryOp::Div => "div"@,
        MirBinaryOp::Rem => "rem"@,
        MirBinaryOp::And => "and"@,
        MirBinaryOp::Or => "or"@,
        MirBinaryOp::Xor => "xor"@,
        MirBinaryOp::Shl => "shl"@,
        MirBinaryOp::Shr => "shr"@,
        MirBinaryOp::Eq => "eq"@,
        MirBinaryOp::Neq => "neq"@,
        MirBinaryOp::Lt => "lt"@,
        MirBinaryOp::Gt => "gt"@,
        MirBinaryOp::Le => "le"@,
        MirBinaryOp::Ge => "ge"@,
    }
}

impl MirBinaryOp {
    /// The mnemonic of the operator in a MIR listing.
    pub fn to_text(&self) -> (r: &'static str)
        ensures
            r@ == binary_op_text(*self),
    {
        match self {
            MirBinaryOp::Add => "add",
            MirBinaryOp::Sub => "sub",
            MirBinaryOp::Mul => "mul",
            MirBinaryOp::Div => "div",
            MirBinaryOp::Rem => "rem",
            MirBinaryOp::And => "and",
            MirBinaryOp::Or => "or",
            MirBinaryOp::Xor => "xor",
            MirBinaryOp::Shl => "shl",
            MirBinaryOp::Shr => "shr",
            MirBinaryOp::Eq => "eq",
            MirBinaryOp::Neq => "neq",
            MirBinaryOp::Lt => "lt",
            MirBinaryOp::Gt => "gt",
            MirBinaryOp::Le => "le",
            MirBinaryOp::Ge => "ge",
        }
    }
}

/// The mnemonic of a unary operator.
pub open spec fn unary_op_text(op: MirUnaryOp) -> Seq<char> {
    match op {
        MirUnaryOp::Neg => "neg"@,
        MirUnaryOp::Not => "not"@,
        MirUnaryOp::BitNot => "bitnot"@,
    }
}

impl MirUnaryOp {
    /// The mnemonic of the operator in a MIR listing.
    pub fn to_text(&self) -> (r: &'static str)
        ensures
            r@ == unary_op_text(*self),
    {
        match self {
            MirUnaryOp::Neg => "neg",
            MirUnaryOp::Not => "not",
            MirUnaryOp::BitNot => "bitnot",
        }
    }
}

/// Each binary operator is listed by its own mnemonic, the lower-case name
/// of the operation (`lt` for less-than, `gt` for greater-than, ...), and
/// every mnemonic names exactly one operator.
pub proof fn law_binary_op_mnemonic(op: MirBinaryOp)
    ensures
        (binary_op_text(op) == "add"@) == (op == MirBinaryOp::Add),
        (binary_op_text(op) == "sub"@) == (op == MirBinaryOp::Sub),
        (binary_op_text(op) == "mul"@) == (op == MirBinaryOp::Mul),
        (binary_op_text(op) == "div"@) == (op == MirBinaryOp::Div),
        (binary_op_text(op) == "rem"@) == (op == MirBinaryOp::Rem),
        (binary_op_text(op) == "and"@) == (op == MirBinaryOp::And),
        (binary_op_text(op) == "or"@) == (op == MirBinaryOp::Or),
        (binary_op_text(op) == "xor"@) == (op == MirBinaryOp::Xor),
        (binary_op_text(op) == "shl"@) == (op == MirBinaryOp::Shl),
        (binary_op_text(op) == "shr"@) == (op == MirBinaryOp::Shr),
        (binary_op_text(op) == "eq"@) == (op == MirBinaryOp::Eq),
        (binary_op_text(op) == "neq"@) == (op == MirBinaryOp::Neq),
        (binary_op_text(op) == "lt"@) == (op == MirBinaryOp::Lt),
        (binary_op_text(op) == "gt"@) == (op == MirBinaryOp::Gt),
        (binary_op_text(op) == "le"@) == (op == MirBinaryOp::Le),
        (binary_op_text(op) == "ge"@) == (op == MirBinaryOp::Ge),
{
    reveal_strlit("add");
    assert("add"@.len() == 3 && "add"@[0] == 'a' && "add"@[1] == 'd' && "add"@[2] == 'd');
    reveal_strlit("sub");
    assert("sub"@.len() == 3 && "sub"@[0] == 's' && "sub"@[1] == 'u' && "sub"@[2] == 'b');
    reveal_strlit("mul");
    assert("mul"@.len() == 3 && "mul"@[0] == 'm' && "mul"@[1] == 'u' && "mul"@[2] == 'l');
    reveal_strlit("div");
    assert("div"@.len() == 3 && "div"@[0] == 'd' && "div"@[1] == 'i' && "div"@[2] == 'v');
    reveal_strlit("rem");
    assert("rem"@.len() == 3 && "rem"@[0] == 'r' && "rem"@[1] == 'e' && "rem"@[2] == 'm');
    reveal_strlit("and");
    assert("and"@.len() == 3 && "and"@[0] == 'a' && "and"@[1] == 'n' && "and"@[2] == 'd');
    reveal_strlit("or");
    assert("or"@.len() == 2 && "or"@[0] == 'o' && "or"@[1] == 'r');
    reveal_strlit("xor");
    assert("xor"@.len() == 3 && "xor"@[0] == 'x' && "xor"@[1] == 'o' && "xor"@[2] == 'r');
    reveal_strlit("shl");
    assert("shl"@.len() == 3 && "shl"@[0] == 's' && "shl"@[1] == 'h' && "shl"@[2] == 'l');
    reveal_strlit("shr");
    assert("shr"@.len() == 3 && "shr"@[0] == 's' && "shr"@[1] == 'h' && "shr"@[2] == 'r');
    reveal_strlit("eq");
    assert("eq"@.len() == 2 && "eq"@[0] == 'e' && "eq"@[1] == 'q');
    reveal_strlit("neq");
    assert("neq"@.len() == 3 && "neq"@[0] == 'n' && "neq"@[1] == 'e' && "neq"@[2] == 'q');
    reveal_strlit("lt");
    assert("lt"@.len() == 2 && "lt"@[0] == 'l' && "lt"@[1] == 't');
    reveal_strlit("gt");
    assert("gt"@.len() == 2 && "gt"@[0] == 'g' && "gt"@[1] == 't');
    reveal_strlit("le");
    assert("le"@.len() == 2 && "le"@[0] == 'l' && "le"@[1] == 'e');
    reveal_strlit("ge");
    assert("ge"@.len() == 2 && "ge"@[0] == 'g' && "ge"@[1] == 'e');
}

/// Two distinct binary operators never print alike.
pub proof fn law_binary_op_mnemonics_distinct(a: MirBinaryOp, b: MirBinaryOp)
    ensures
        binary_op_text(a) == binary_op_text(b) <==> a == b,
{
    law_binary_op_mnemonic(a);
    law_binary_op_mnemonic(b);
}

/// Each unary operator is listed by its own mnemonic: `neg` for
/// arithmetic negation, `not` for logical negation, `bitnot` for bitwise
/// complement.
pub proof fn law_unary_op_mnemonic(op: MirUnaryOp)
    ensures
        (unary_op_text(op) == "neg"@) == (op == MirUnaryOp::Neg),
        (unary_op_text(op) == "not"@) == (op == MirUnaryOp::Not),
        (unary_op_text(op) == "bitnot"@) == (op == MirUnaryOp::BitNot),
{
    reveal_strlit("neg");
    assert("neg"@.len() == 3 && "neg"@[0] == 'n' && "neg"@[1] == 'e' && "neg"@[2] == 'g');
    reveal_strlit("not");
    assert("not"@.len() == 3 && "not"@[0] == 'n' && "not"@[1] == 'o' && "not"@[2] == 't');
    reveal_strlit("bitnot");
    assert("bitnot"@.len() == 6 && "bitnot"@[0] == 'b' && "bitnot"@[1] == 'i' && "bitnot"@[2] == 't' && "bitnot"@[3] == 'n' && "bitnot"@[4] == 'o' && "bitnot"@[5] == 't');
}

} // verus!
