use vstd::prelude::*;
use crate::ast::Literal;
use crate::mir::{MirConstant, MirType, copy_type};

verus! {

/// Integer-like types: signed and unsigned integers, `char` and `bool`.
pub open spec fn int_type(t: MirType) -> bool {
    t is I1 || t is I8 || t is I16 || t is I32 || t is I64 || t is U8 || t is U16 || t is U32
        || t is U64 || t is Char || t is Bool
}

/// Return true if the MIR type is an integer type (i1, i8, i16, i32, i64,
/// u8, u16, u32, u64, char, bool).
pub fn is_int_type(t: &MirType) -> (r: bool)
    ensures
        r == int_type(*t),
{
    match t {
        MirType::I1 | MirType::I8 | MirType::I16 | MirType::I32 | MirType::I64 | MirType::U8
        | MirType::U16 | MirType::U32 | MirType::U64 | MirType::Char | MirType::Bool => true,
        _ => false,
    }
}

/// Bit width used to compare integer types; non-integers count as 32 bits.
pub open spec fn bit_width(t: MirType) -> u32 {
    match t {
        MirType::I1 | MirType::Bool => 1,
        MirType::I8 | MirType::U8 | MirType::Char => 8,
        MirType::I16 | MirType::U16 => 16,
        MirType::I32 | MirType::U32 => 32,
        MirType::I64 | MirType::U64 => 64,
        _ => 32,
    }
}

fn width_of(t: &MirType) -> (r: u32)
    ensures
        r == bit_width(*t),
{
    match t {
        MirType::I1 | MirType::Bool => 1,
        MirType::I8 | MirType::U8 | MirType::Char => 8,
        MirType::I16 | MirType::U16 => 16,
        MirType::I32 | MirType::U32 => 32,
        MirType::I64 | MirType::U64 => 64,
        _ => 32,
    }
}

/// Structural equality of two types.
pub fn types_equal(a: &MirType, b: &MirType) -> (r: bool)
    ensures
        r == (a@ == b@),
    decreases a,
{
    match (a, b) {
        (MirType::I1, MirType::I1) => true,
        (MirType::I8, MirType::I8) => true,
        (MirType::I16, MirType::I16) => true,
        (MirType::I32, MirType::I32) => true,
        (MirType::I64, MirType::I64) => true,
        (MirType::U8, MirType::U8) => true,
        (MirType::U16, MirType::U16) => true,
        (MirType::U32, MirType::U32) => true,
        (MirType::U64, MirType::U64) => true,
        (MirType::F32, MirType::F32) => true,
        (MirType::F64, MirType::F64) => true,
        (MirType::Bool, MirType::Bool) => true,
        (MirType::Char, MirType::Char) => true,
        (MirType::Str, MirType::Str) => true,
        (MirType::Void, MirType::Void) => true,
        (MirType::Bytes, MirType::Bytes) => true,
        (MirType::Ptr(x), MirType::Ptr(y)) => types_equal(x, y),
        (MirType::Array(x, n), MirType::Array(y, m)) => *n == *m && types_equal(x, y),
        (MirType::List(x), MirType::List(y)) => types_equal(x, y),
        (MirType::Struct(n1, f1), MirType::Struct(n2, f2)) => *n1 == *n2 && fields_equal(f1, f2),
        (MirType::Dict(k1, v1), MirType::Dict(k2, v2)) => types_equal(k1, k2) && types_equal(v1, v2),
        (MirType::SetOf(x), MirType::SetOf(y)) => types_equal(x, y),
        (MirType::Queue(x), MirType::Queue(y)) => types_equal(x, y),
        (MirType::Stack(x), MirType::Stack(y)) => types_equal(x, y),
        (MirType::Deque(x), MirType::Deque(y)) => types_equal(x, y),
        (MirType::LinkedList(x), MirType::LinkedList(y)) => types_equal(x, y),
        (MirType::Slice(x), MirType::Slice(y)) => types_equal(x, y),
        (MirType::Box(x), MirType::Box(y)) => types_equal(x, y),
        (MirType::Chan(x), MirType::Chan(y)) => types_equal(x, y),
        _ => false,
    }
}

/// Structural equality of two field lists.
pub fn fields_equal(a: &Vec<(String, MirType)>, b: &Vec<(String, MirType)>) -> (r: bool)
    ensures
        r == (crate::mir::fields_model(a@) == crate::mir::fields_model(b@)),
    decreases a,
{
    proof {
        crate::mir::lemma_fields_model_len(a@);
        crate::mir::lemma_fields_model_len(b@);
    }
    if a.len() != b.len() {
        return false;
    }
    let mut i: usize = 0;
    while i < a.len()
        invariant
            a@.len() == b@.len(),
            i <= a@.len(),
            forall|j: int| 0 <= j < i ==> crate::mir::fields_model(a@)[j] == crate::mir::fields_model(b@)[j],
        decreases a@.len() - i,
    {
        proof {
            assert(decreases_to!(*a => a@));
            assert(decreases_to!(a@ => a@[i as int]));
            crate::mir::lemma_fields_model_index(a@, i as int);
            crate::mir::lemma_fields_model_index(b@, i as int);
        }
        if !(a[i].0 == b[i].0) || !types_equal(&a[i].1, &b[i].1) {
            return false;
        }
        i = i + 1;
    }
    assert(crate::mir::fields_model(a@) =~= crate::mir::fields_model(b@));
    true
}

/// The wider of two integer types: the one with more bits, the first on a
/// tie; `i32` where either is not an integer type.
pub open spec fn wider_int(a: MirType, b: MirType) -> MirType {
    if !int_type(a) || !int_type(b) {
        MirType::I32
    } else if a@ == b@ {
        a
    } else if bit_width(a) >= bit_width(b) {
        a
    } else {
        b
    }
}

/// Return the wider of two integer types. If either is not an integer,
/// returns `i32`.
pub fn wider_int_type(a: &MirType, b: &MirType) -> (r: MirType)
    ensures
        r@ == wider_int(*a, *b)@,
{
    if !is_int_type(a) || !is_int_type(b) {
        return MirType::I32;
    }
    if types_equal(a, b) {
        return copy_type(a);
    }
    let wa = width_of(a);
    let wb = width_of(b);
    if wa >= wb {
        copy_type(a)
    } else {
        copy_type(b)
    }
}

/// The wider of two types: `f64` over `f32` over any integer type.
pub open spec fn wider(a: MirType, b: MirType) -> MirType {
    if a@ == b@ {
        a
    } else if a is F64 || b is F64 {
        MirType::F64
    } else if a is F32 || b is F32 {
        MirType::F32
    } else {
        wider_int(a, b)
    }
}

/// Return the wider of two types, supporting both int and float widening.
pub fn wider_type(a: &MirType, b: &MirType) -> (r: MirType)
    ensures
        r@ == wider(*a, *b)@,
{
    if types_equal(a, b) {
        return copy_type(a);
    }
    if matches!(a, MirType::F64) || matches!(b, MirType::F64) {
        return MirType::F64;
    }
    if matches!(a, MirType::F32) || matches!(b, MirType::F32) {
        return MirType::F32;
    }
    wider_int_type(a, b)
}

/// The MIR type and constant of a literal.
pub open spec fn literal_model(value: Literal) -> (MirType, MirConstant) {
    match value {
        Literal::Integer(n) => if i32::MIN <= n <= i32::MAX {
            (MirType::I32, MirConstant::I32(n as i32))
        } else {
            (MirType::I64, MirConstant::I64(n))
        },
        Literal::Float(bits) => (MirType::F64, MirConstant::F64(bits)),
        Literal::String(s) => (MirType::Str, MirConstant::String(s)),
        Literal::Boolean(b) => (MirType::Bool, MirConstant::Bool(b)),
        Literal::Char(c) => (MirType::Char, MirConstant::I32(c)),
        Literal::NoneValue => (MirType::I32, MirConstant::Void),
        Literal::Null => (MirType::Ptr(Box::new(MirType::Void)), MirConstant::Null),
    }
}

/// The MIR type and constant of a literal: integers that fit in 32 bits
/// become `i32` constants, larger ones `i64`; `none` is a void constant of
/// type `i32`; `null` is a null `void*`.
pub fn literal_to_mir(value: &Literal) -> (r: (MirType, MirConstant))
    ensures
        r.0@ == literal_model(*value).0@,
        r.1 == literal_model(*value).1,
{
    match value {
        Literal::Integer(n) => {
            if *n >= i32::MIN as i64 && *n <= i32::MAX as i64 {
                (MirType::I32, MirConstant::I32(*n as i32))
            } else {
                (MirType::I64, MirConstant::I64(*n))
            }
        },
        Literal::Float(bits) => (MirType::F64, MirConstant::F64(*bits)),
        Literal::String(s) => (MirType::Str, MirConstant::String(s.clone())),
        Literal::Boolean(b) => (MirType::Bool, MirConstant::Bool(*b)),
        Literal::Char(c) => (MirType::Char, MirConstant::I32(*c)),
        Literal::NoneValue => (MirType::I32, MirConstant::Void),
        Literal::Null => (MirType::Ptr(Box::new(MirType::Void)), MirConstant::Null),
    }
}

} // verus!
