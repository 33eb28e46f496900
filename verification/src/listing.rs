//! The textual MIR listing: values, instructions, terminators, functions and
//! modules, as the compiler prints them.
//!
//! A float constant is printed with the text that the caller gives for its
//! bits in a table of `(bits, text)` pairs; the listing itself holds no
//! floating-point code.
use vstd::prelude::*;
use crate::mir::{
    ConstModel, InstModel, MirBasicBlock, MirConstant, MirFunction, MirInst, MirModule, MirTerminator,
    MirType, MirValue, TypeModel, ValueModel, values_model,
};
use crate::mir_text::{binary_op_text, type_text, unary_op_text};
use crate::text::{decimal, i64_to_decimal, signed_decimal, u64_to_decimal};

verus! {

/// The text given for a float's bits: that of the first entry with these
/// bits, or nothing if the table has none.
pub open spec fn float_text(t: Seq<(u64, String)>, bits: u64) -> Seq<char>
    decreases t.len(),
{
    if t.len() == 0 {
        Seq::empty()
    } else if t[0].0 == bits {
        t[0].1@
    } else {
        float_text(t.drop_first(), bits)
    }
}

pub open spec fn bool_text(b: bool) -> Seq<char> {
    if b {
        "true"@
    } else {
        "false"@
    }
}

/// The text of a constant.
pub open spec fn constant_text(c: ConstModel, t: Seq<(u64, String)>) -> Seq<char> {
    match c {
        ConstModel::I32(n) => signed_decimal(n as int),
        ConstModel::I64(n) => signed_decimal(n as int),
        ConstModel::F64(bits) => float_text(t, bits),
        ConstModel::Bool(b) => bool_text(b),
        ConstModel::String(s) => "\""@ + s + "\""@,
        ConstModel::Void => "void"@,
        ConstModel::Null => "null"@,
    }
}

/// `%n` for local `n`.
pub open spec fn local_text(l: usize) -> Seq<char> {
    "%"@ + decimal(l as nat)
}

/// The text of a value: `%n` for a local, `paramN` for a parameter, or the
/// constant.
pub open spec fn value_text(v: ValueModel, t: Seq<(u64, String)>) -> Seq<char> {
    match v {
        ValueModel::Local(l) => local_text(l),
        ValueModel::Param(p) => "param"@ + decimal(p as nat),
        ValueModel::Constant(c) => constant_text(c, t),
    }
}

/// Values separated by `, `.
pub open spec fn args_text(vs: Seq<ValueModel>, t: Seq<(u64, String)>) -> Seq<char>
    decreases vs.len(),
{
    if vs.len() == 0 {
        Seq::empty()
    } else if vs.len() == 1 {
        value_text(vs[0], t)
    } else {
        args_text(vs.drop_last(), t) + ", "@ + value_text(vs.last(), t)
    }
}

/// The text of an instruction, indented by two spaces.
pub open spec fn inst_text(inst: InstModel, t: Seq<(u64, String)>) -> Seq<char> {
    match inst {
        InstModel::Alloca { dest, type_, name } => "  "@ + local_text(dest) + " = alloca "@ + type_text(type_)
            + ", \""@ + name + "\""@,
        InstModel::Store { dest, value } => "  store "@ + local_text(dest) + " <- "@ + value_text(value, t),
        InstModel::Load { dest, src } => "  "@ + local_text(dest) + " = load "@ + local_text(src),
        InstModel::BinaryOp { dest, op, left, right } => "  "@ + local_text(dest) + " = "@ + binary_op_text(op)
            + " "@ + value_text(left, t) + ", "@ + value_text(right, t),
        InstModel::UnaryOp { dest, op, operand } => "  "@ + local_text(dest) + " = "@ + unary_op_text(op) + " "@
            + value_text(operand, t),
        InstModel::Call { dest, name, args } => match dest {
            Some(d) => "  "@ + local_text(d) + " = call "@ + name + "("@ + args_text(args, t) + ")"@,
            None => "  call "@ + name + "("@ + args_text(args, t) + ")"@,
        },
        InstModel::PtrOffset { dest, ptr, index, .. } => "  "@ + decimal(dest as nat) + " = ptr_offset "@
            + decimal(ptr as nat) + "["@ + value_text(index, t) + "]"@,
        InstModel::PtrStore { dest, ptr, index, value } => "  "@ + decimal(dest as nat) + " = ptr_store "@
            + decimal(ptr as nat) + "["@ + value_text(index, t) + "] <- "@ + value_text(value, t),
        InstModel::FieldPtr { dest, ptr, field_index, .. } => "  "@ + local_text(dest) + " = field_ptr "@
            + local_text(ptr) + ", field "@ + decimal(field_index as nat),
        InstModel::ArrayElemPtr { dest, ptr, index, .. } => "  "@ + local_text(dest) + " = elem_ptr "@
            + local_text(ptr) + "["@ + value_text(index, t) + "]"@,
        InstModel::Cast { dest, value, to_type } => "  "@ + local_text(dest) + " = cast "@ + value_text(value, t)
            + " to "@ + type_text(to_type),
        InstModel::Memcpy { dest_ptr_local, src_alloca_local, struct_type } => "  memcpy "@ + local_text(
            dest_ptr_local,
        ) + " <- "@ + local_text(src_alloca_local) + ", type "@ + type_text(struct_type),
        InstModel::FnAddr { dest, name } => "  "@ + local_text(dest) + " = fn_addr "@ + name,
        InstModel::AddressOf { dest, local_id } => "  "@ + local_text(dest) + " = addr_of "@ + local_text(
            local_id,
        ),
        InstModel::CallIndirect { dest, fn_ptr, args, .. } => match dest {
            Some(d) => "  "@ + local_text(d) + " = call_indirect "@ + local_text(fn_ptr) + "("@ + args_text(
                args,
                t,
            ) + ")"@,
            None => "  call_indirect "@ + local_text(fn_ptr) + "("@ + args_text(args, t) + ")"@,
        },
        InstModel::SliceMake { dest, ptr, len, elem_type } => "  "@ + local_text(dest) + " = slice_make("@
            + value_text(ptr, t) + ", "@ + value_text(len, t) + ", "@ + type_text(elem_type) + ")"@,
        InstModel::AsyncSpawn { dest, function_name, arg } => "  "@ + local_text(dest) + " = async_spawn "@
            + function_name + " ("@ + value_text(arg, t) + ")"@,
        InstModel::AsyncAwait { dest, handle, .. } => "  "@ + local_text(dest) + " = async_await "@
            + local_text(handle),
    }
}

/// The text of a terminator, indented by two spaces.
pub open spec fn terminator_text(term: MirTerminator, t: Seq<(u64, String)>) -> Seq<char> {
    match term {
        MirTerminator::Return(v) => "  ret "@ + value_text(v@, t),
        MirTerminator::Br(label) => "  br "@ + label@,
        MirTerminator::CondBr { cond, true_block, false_block } => "  br "@ + value_text(cond@, t) + ", "@
            + true_block@ + ", "@ + false_block@,
        MirTerminator::Unreachable => "  unreachable"@,
    }
}

/// Instructions, one per line.
pub open spec fn insts_text(insts: Seq<MirInst>, t: Seq<(u64, String)>) -> Seq<char>
    decreases insts.len(),
{
    if insts.len() == 0 {
        Seq::empty()
    } else {
        insts_text(insts.drop_last(), t) + inst_text(insts.last()@, t) + "\n"@
    }
}

/// A block: its label, then its instructions and terminator, one per line.
pub open spec fn block_text(b: MirBasicBlock, t: Seq<(u64, String)>) -> Seq<char> {
    b.label@ + ":\n"@ + insts_text(b.insts@, t) + terminator_text(b.terminator, t) + "\n"@
}

pub open spec fn blocks_text(bs: Seq<MirBasicBlock>, t: Seq<(u64, String)>) -> Seq<char>
    decreases bs.len(),
{
    if bs.len() == 0 {
        Seq::empty()
    } else {
        blocks_text(bs.drop_last(), t) + block_text(bs.last(), t)
    }
}

/// Types separated by `, `.
pub open spec fn types_text(ts: Seq<TypeModel>) -> Seq<char>
    decreases ts.len(),
{
    if ts.len() == 0 {
        Seq::empty()
    } else if ts.len() == 1 {
        type_text(ts[0])
    } else {
        types_text(ts.drop_last()) + ", "@ + type_text(ts.last())
    }
}

pub open spec fn flag_text(b: bool, text: Seq<char>) -> Seq<char> {
    if b {
        text
    } else {
        Seq::empty()
    }
}

/// A function: its signature, then its blocks.
pub open spec fn function_text(f: MirFunction, t: Seq<(u64, String)>) -> Seq<char> {
    flag_text(f.is_const, "const "@) + "fn "@ + f.name@ + "("@ + types_text(
        f.params@.map_values(|p: MirType| p@),
    ) + ") -> "@ + type_text(f.return_type@) + flag_text(f.is_fallible, "!"@) + ":\n"@ + blocks_text(
        f.basic_blocks@,
        t,
    )
}

pub open spec fn global_text(g: (String, MirType, MirConstant), t: Seq<(u64, String)>) -> Seq<char> {
    "global "@ + g.0@ + ": "@ + type_text(g.1@) + " = "@ + constant_text(g.2@, t) + "\n"@
}

pub open spec fn globals_text(gs: Seq<(String, MirType, MirConstant)>, t: Seq<(u64, String)>) -> Seq<char>
    decreases gs.len(),
{
    if gs.len() == 0 {
        Seq::empty()
    } else {
        globals_text(gs.drop_last(), t) + global_text(gs.last(), t)
    }
}

pub open spec fn functions_text(fs: Seq<MirFunction>, t: Seq<(u64, String)>) -> Seq<char>
    decreases fs.len(),
{
    if fs.len() == 0 {
        Seq::empty()
    } else {
        functions_text(fs.drop_last(), t) + function_text(fs.last(), t) + "\n"@
    }
}

/// A module: its globals, then its functions, each followed by an empty line.
pub open spec fn module_text(m: MirModule, t: Seq<(u64, String)>) -> Seq<char> {
    globals_text(m.globals@, t) + functions_text(m.functions@, t)
}

/// Append the decimal text of `n`.
fn push_decimal(s: &mut String, n: usize)
    ensures
        final(s)@ == old(s)@ + decimal(n as nat),
{
    let d = u64_to_decimal(n as u64);
    s.append(d.as_str());
}

/// Append `%n`.
fn push_local(s: &mut String, l: usize)
    ensures
        final(s)@ == old(s)@ + local_text(l),
{
    let ghost s0 = s@;
    s.append("%");
    push_decimal(s, l);
    assert(s@ =~= s0 + local_text(l));
}

/// The text the table gives for a float's bits.
fn lookup_float(floats: &Vec<(u64, String)>, bits: u64) -> (r: String)
    ensures
        r@ == float_text(floats@, bits),
{
    let mut i: usize = 0;
    assert(floats@.skip(0) =~= floats@);
    while i < floats.len()
        invariant
            i <= floats@.len(),
            float_text(floats@, bits) == float_text(floats@.skip(i as int), bits),
        decreases floats@.len() - i,
    {
        let ghost rest = floats@.skip(i as int);
        assert(rest[0] == floats@[i as int]);
        if floats[i].0 == bits {
            return floats[i].1.clone();
        }
        assert(rest.drop_first() =~= floats@.skip(i + 1));
        i = i + 1;
    }
    assert(floats@.skip(i as int).len() == 0);
    String::new()
}

impl MirConstant {
    /// The text of the constant in a MIR listing.
    pub fn to_text(&self, floats: &Vec<(u64, String)>) -> (r: String)
        ensures
            r@ == constant_text(self@, floats@),
    {
        match self {
            MirConstant::I32(n) => i64_to_decimal(*n as i64),
            MirConstant::I64(n) => i64_to_decimal(*n),
            MirConstant::F64(bits) => lookup_float(floats, *bits),
            MirConstant::Bool(b) => if *b {
                String::from_str("true")
            } else {
                String::from_str("false")
            },
            MirConstant::String(text) => {
                let mut s = String::from_str("\"");
                s.append(text.as_str());
                s.append("\"");
                s
            },
            MirConstant::Void => String::from_str("void"),
            MirConstant::Null => String::from_str("null"),
        }
    }
}

/// Append the text of a value.
fn push_value(s: &mut String, v: &MirValue, floats: &Vec<(u64, String)>)
    ensures
        final(s)@ == old(s)@ + value_text(v@, floats@),
{
    let ghost s0 = s@;
    match v {
        MirValue::Local(l) => push_local(s, *l),
        MirValue::Param(p) => {
            s.append("param");
            push_decimal(s, *p);
            assert(s@ =~= s0 + value_text(v@, floats@));
        },
        MirValue::Constant(c) => {
            let text = c.to_text(floats);
            s.append(text.as_str());
        },
    }
}

impl MirValue {
    /// The text of the value in a MIR listing.
    pub fn to_text(&self, floats: &Vec<(u64, String)>) -> (r: String)
        ensures
            r@ == value_text(self@, floats@),
    {
        let mut s = String::new();
        push_value(&mut s, self, floats);
        assert(s@ =~= value_text(self@, floats@));
        s
    }
}

/// Append values separated by `, `.
fn push_args(s: &mut String, args: &Vec<MirValue>, floats: &Vec<(u64, String)>)
    ensures
        final(s)@ == old(s)@ + args_text(values_model(args@), floats@),
{
    let ghost s0 = s@;
    let ghost vm = values_model(args@);
    let mut i: usize = 0;
    while i < args.len()
        invariant
            i <= args@.len(),
            vm == values_model(args@),
            s@ == s0 + args_text(vm.take(i as int), floats@),
        decreases args@.len() - i,
    {
        let ghost before = s@;
        proof {
            assert(vm.take(i + 1).drop_last() =~= vm.take(i as int));
            assert(vm.take(i + 1).last() == args@[i as int]@);
        }
        if i > 0 {
            s.append(", ");
        }
        push_value(s, &args[i], floats);
        proof {
            if i == 0 {
                assert(vm.take(1).len() == 1);
                assert(s@ =~= s0 + args_text(vm.take(1), floats@));
            } else {
                assert(s@ =~= s0 + args_text(vm.take(i + 1), floats@));
            }
        }
        i = i + 1;
    }
    assert(vm.take(i as int) =~= vm);
}

impl MirInst {
    /// The text of the instruction in a MIR listing, indented by two spaces.
    pub fn to_text(&self, floats: &Vec<(u64, String)>) -> (r: String)
        ensures
            r@ == inst_text(self@, floats@),
    {
        let mut s = String::from_str("  ");
        match self {
            MirInst::Alloca { dest, type_, name } => {
                push_local(&mut s, *dest);
                s.append(" = alloca ");
                let t = type_.to_text();
                s.append(t.as_str());
                s.append(", \"");
                s.append(name.as_str());
                s.append("\"");
            },
            MirInst::Store { dest, value } => {
                s.append("store ");
                push_local(&mut s, *dest);
                s.append(" <- ");
                push_value(&mut s, value, floats);
                proof {
                    assert(("  "@ + "store "@) =~= "  store "@) by {
                        reveal_strlit("  ");
                        reveal_strlit("store ");
                        reveal_strlit("  store ");
                    }
                }
            },
            MirInst::Load { dest, src } => {
                push_local(&mut s, *dest);
                s.append(" = load ");
                push_local(&mut s, *src);
            },
            MirInst::BinaryOp { dest, op, left, right } => {
                push_local(&mut s, *dest);
                s.append(" = ");
                s.append(op.to_text());
                s.append(" ");
                push_value(&mut s, left, floats);
                s.append(", ");
                push_value(&mut s, right, floats);
            },
            MirInst::UnaryOp { dest, op, operand } => {
                push_local(&mut s, *dest);
                s.append(" = ");
                s.append(op.to_text());
                s.append(" ");
                push_value(&mut s, operand, floats);
            },
            MirInst::Call { dest, name, args } => {
                match dest {
                    Some(d) => {
                        push_local(&mut s, *d);
                        s.append(" = call ");
                    },
                    None => {
                        s.append("call ");
                        proof {
                            assert(("  "@ + "call "@) =~= "  call "@) by {
                                reveal_strlit("  ");
                                reveal_strlit("call ");
                                reveal_strlit("  call ");
                            }
                        }
                    },
                }
                s.append(name.as_str());
                s.append("(");
                push_args(&mut s, args, floats);
                s.append(")");
            },
            MirInst::PtrOffset { dest, ptr, index, .. } => {
                push_decimal(&mut s, *dest);
                s.append(" = ptr_offset ");
                push_decimal(&mut s, *ptr);
                s.append("[");
                push_value(&mut s, index, floats);
                s.append("]");
            },
            MirInst::PtrStore { dest, ptr, index, value } => {
                push_decimal(&mut s, *dest);
                s.append(" = ptr_store ");
                push_decimal(&mut s, *ptr);
                s.append("[");
                push_value(&mut s, index, floats);
                s.append("] <- ");
                push_value(&mut s, value, floats);
            },
            MirInst::FieldPtr { dest, ptr, field_index, .. } => {
                push_local(&mut s, *dest);
                s.append(" = field_ptr ");
                push_local(&mut s, *ptr);
                s.append(", field ");
                push_decimal(&mut s, *field_index);
            },
            MirInst::ArrayElemPtr { dest, ptr, index, .. } => {
                push_local(&mut s, *dest);
                s.append(" = elem_ptr ");
                push_local(&mut s, *ptr);
                s.append("[");
                push_value(&mut s, index, floats);
                s.append("]");
            },
            MirInst::Cast { dest, value, to_type } => {
                push_local(&mut s, *dest);
                s.append(" = cast ");
                push_value(&mut s, value, floats);
                s.append(" to ");
                let t = to_type.to_text();
                s.append(t.as_str());
            },
            MirInst::Memcpy { dest_ptr_local, src_alloca_local, struct_type } => {
                s.append("memcpy ");
                proof {
                    assert(("  "@ + "memcpy "@) =~= "  memcpy "@) by {
                        reveal_strlit("  ");
                        reveal_strlit("memcpy ");
                        reveal_strlit("  memcpy ");
                    }
                }
                push_local(&mut s, *dest_ptr_local);
                s.append(" <- ");
                push_local(&mut s, *src_alloca_local);
                s.append(", type ");
                let t = struct_type.to_text();
                s.append(t.as_str());
            },
            MirInst::FnAddr { dest, name } => {
                push_local(&mut s, *dest);
                s.append(" = fn_addr ");
                s.append(name.as_str());
            },
            MirInst::AddressOf { dest, local_id } => {
                push_local(&mut s, *dest);
                s.append(" = addr_of ");
                push_local(&mut s, *local_id);
            },
            MirInst::CallIndirect { dest, fn_ptr, args, .. } => {
                match dest {
                    Some(d) => {
                        push_local(&mut s, *d);
                        s.append(" = call_indirect ");
                    },
                    None => {
                        s.append("call_indirect ");
                        proof {
                            assert(("  "@ + "call_indirect "@) =~= "  call_indirect "@) by {
                                reveal_strlit("  ");
                                reveal_strlit("call_indirect ");
                                reveal_strlit("  call_indirect ");
                            }
                        }
                    },
                }
                push_local(&mut s, *fn_ptr);
                s.append("(");
                push_args(&mut s, args, floats);
                s.append(")");
            },
            MirInst::SliceMake { dest, ptr, len, elem_type } => {
                push_local(&mut s, *dest);
                s.append(" = slice_make(");
                push_value(&mut s, ptr, floats);
                s.append(", ");
                push_value(&mut s, len, floats);
                s.append(", ");
                let t = elem_type.to_text();
                s.append(t.as_str());
                s.append(")");
            },
            MirInst::AsyncSpawn { dest, function_name, arg } => {
                push_local(&mut s, *dest);
                s.append(" = async_spawn ");
                s.append(function_name.as_str());
                s.append(" (");
                push_value(&mut s, arg, floats);
                s.append(")");
            },
            MirInst::AsyncAwait { dest, handle, .. } => {
                push_local(&mut s, *dest);
                s.append(" = async_await ");
                push_local(&mut s, *handle);
            },
        }
        s
    }
}

impl MirTerminator {
    /// The text of the terminator in a MIR listing, indented by two spaces.
    pub fn to_text(&self, floats: &Vec<(u64, String)>) -> (r: String)
        ensures
            r@ == terminator_text(*self, floats@),
    {
        match self {
            MirTerminator::Return(v) => {
                let mut s = String::from_str("  ret ");
                push_value(&mut s, v, floats);
                s
            },
            MirTerminator::Br(label) => {
                let mut s = String::from_str("  br ");
                s.append(label.as_str());
                s
            },
            MirTerminator::CondBr { cond, true_block, false_block } => {
                let mut s = String::from_str("  br ");
                push_value(&mut s, cond, floats);
                s.append(", ");
                s.append(true_block.as_str());
                s.append(", ");
                s.append(false_block.as_str());
                s
            },
            MirTerminator::Unreachable => String::from_str("  unreachable"),
        }
    }
}

/// Append instructions, one per line.
fn push_insts(s: &mut String, insts: &Vec<MirInst>, floats: &Vec<(u64, String)>)
    ensures
        final(s)@ == old(s)@ + insts_text(insts@, floats@),
{
    let ghost s0 = s@;
    let mut i: usize = 0;
    while i < insts.len()
        invariant
            i <= insts@.len(),
            s@ == s0 + insts_text(insts@.take(i as int), floats@),
        decreases insts@.len() - i,
    {
        proof {
            assert(insts@.take(i + 1).drop_last() =~= insts@.take(i as int));
        }
        let t = insts[i].to_text(floats);
        s.append(t.as_str());
        s.append("\n");
        assert(s@ =~= s0 + insts_text(insts@.take(i + 1), floats@));
        i = i + 1;
    }
    assert(insts@.take(i as int) =~= insts@);
}

/// Append blocks.
fn push_blocks(s: &mut String, blocks: &Vec<MirBasicBlock>, floats: &Vec<(u64, String)>)
    ensures
        final(s)@ == old(s)@ + blocks_text(blocks@, floats@),
{
    let ghost s0 = s@;
    let mut i: usize = 0;
    while i < blocks.len()
        invariant
            i <= blocks@.len(),
            s@ == s0 + blocks_text(blocks@.take(i as int), floats@),
        decreases blocks@.len() - i,
    {
        proof {
            assert(blocks@.take(i + 1).drop_last() =~= blocks@.take(i as int));
        }
        let ghost s1 = s@;
        let bb = &blocks[i];
        s.append(bb.label.as_str());
        s.append(":\n");
        push_insts(s, &bb.insts, floats);
        let t = bb.terminator.to_text(floats);
        s.append(t.as_str());
        s.append("\n");
        assert(s@ =~= s1 + block_text(blocks@[i as int], floats@));
        assert(s@ =~= s0 + blocks_text(blocks@.take(i + 1), floats@));
        i = i + 1;
    }
    assert(blocks@.take(i as int) =~= blocks@);
}

impl MirFunction {
    /// The text of the function in a MIR listing: its signature, then each
    /// block's label, instructions and terminator, one per line.
    pub fn to_text(&self, floats: &Vec<(u64, String)>) -> (r: String)
        ensures
            r@ == function_text(*self, floats@),
    {
        let mut s = String::new();
        if self.is_const {
            s.append("const ");
        }
        let ghost head = s@;
        proof {
            assert(head =~= flag_text(self.is_const, "const "@));
        }
        s.append("fn ");
        s.append(self.name.as_str());
        s.append("(");
        let ghost pm = self.params@.map_values(|p: MirType| p@);
        let ghost s0 = s@;
        let mut i: usize = 0;
        while i < self.params.len()
            invariant
                i <= self.params@.len(),
                pm == self.params@.map_values(|p: MirType| p@),
                s@ == s0 + types_text(pm.take(i as int)),
            decreases self.params@.len() - i,
        {
            proof {
                assert(pm.take(i + 1).drop_last() =~= pm.take(i as int));
                assert(pm.take(i + 1).last() == self.params@[i as int]@);
            }
            if i > 0 {
                s.append(", ");
            }
            let t = self.params[i].to_text();
            s.append(t.as_str());
            proof {
                if i == 0 {
                    assert(pm.take(1).len() == 1);
                }
                assert(s@ =~= s0 + types_text(pm.take(i + 1)));
            }
            i = i + 1;
        }
        assert(pm.take(i as int) =~= pm);
        s.append(") -> ");
        let rt = self.return_type.to_text();
        s.append(rt.as_str());
        let ghost s1 = s@;
        if self.is_fallible {
            s.append("!");
        }
        assert(s@ =~= s1 + flag_text(self.is_fallible, "!"@));
        s.append(":\n");
        push_blocks(&mut s, &self.basic_blocks, floats);
        s
    }
}

impl MirModule {
    /// The text of the module in a MIR listing: its globals, then its
    /// functions, each followed by an empty line.
    pub fn to_text(&self, floats: &Vec<(u64, String)>) -> (r: String)
        ensures
            r@ == module_text(*self, floats@),
    {
        let mut s = String::new();
        let mut i: usize = 0;
        assert(self.globals@.take(0) =~= Seq::<(String, MirType, MirConstant)>::empty());
        while i < self.globals.len()
            invariant
                i <= self.globals@.len(),
                s@ == globals_text(self.globals@.take(i as int), floats@),
            decreases self.globals@.len() - i,
        {
            proof {
                assert(self.globals@.take(i + 1).drop_last() =~= self.globals@.take(i as int));
            }
            let ghost s1 = s@;
            let g = &self.globals[i];
            s.append("global ");
            s.append(g.0.as_str());
            s.append(": ");
            let t = g.1.to_text();
            s.append(t.as_str());
            s.append(" = ");
            let c = g.2.to_text(floats);
            s.append(c.as_str());
            s.append("\n");
            assert(s@ =~= s1 + global_text(self.globals@[i as int], floats@));
            i = i + 1;
        }
        assert(self.globals@.take(i as int) =~= self.globals@);
        let ghost s0 = s@;
        let mut k: usize = 0;
        while k < self.functions.len()
            invariant
                k <= self.functions@.len(),
                s@ == s0 + functions_text(self.functions@.take(k as int), floats@),
            decreases self.functions@.len() - k,
        {
            proof {
                assert(self.functions@.take(k + 1).drop_last() =~= self.functions@.take(k as int));
            }
            let t = self.functions[k].to_text(floats);
            s.append(t.as_str());
            s.append("\n");
            assert(s@ =~= s0 + functions_text(self.functions@.take(k + 1), floats@));
            k = k + 1;
        }
        assert(self.functions@.take(k as int) =~= self.functions@);
        s
    }
}

/// The values an instruction reads, in the order a listing shows them.
pub open spec fn inst_operands(inst: InstModel) -> Seq<ValueModel> {
    match inst {
        InstModel::Store { value, .. } => seq![value],
        InstModel::BinaryOp { left, right, .. } => seq![left, right],
        InstModel::UnaryOp { operand, .. } => seq![operand],
        InstModel::Call { args, .. } => args,
        InstModel::PtrOffset { index, .. } => seq![index],
        InstModel::PtrStore { index, value, .. } => seq![index, value],
        InstModel::ArrayElemPtr { index, .. } => seq![index],
        InstModel::Cast { value, .. } => seq![value],
        InstModel::CallIndirect { args, .. } => args,
        InstModel::SliceMake { ptr, len, .. } => seq![ptr, len],
        InstModel::AsyncSpawn { arg, .. } => seq![arg],
        _ => Seq::empty(),
    }
}

/// A copy of a list of values.
fn copy_values(vs: &Vec<MirValue>) -> (r: Vec<MirValue>)
    ensures
        values_model(r@) == values_model(vs@),
{
    let mut r: Vec<MirValue> = Vec::new();
    let mut i: usize = 0;
    while i < vs.len()
        invariant
            i <= vs@.len(),
            r@.len() == i,
            forall|j: int| 0 <= j < i ==> (#[trigger] r@[j])@ == vs@[j]@,
        decreases vs@.len() - i,
    {
        r.push(vs[i].clone());
        i = i + 1;
    }
    assert(values_model(r@) =~= values_model(vs@));
    r
}

impl MirInst {
    /// The values the instruction reads, in the order its text shows them.
    pub fn operands(&self) -> (r: Vec<MirValue>)
        ensures
            values_model(r@) == inst_operands(self@),
    {
        let r = match self {
            MirInst::Store { value, .. } => vec![value.clone()],
            MirInst::BinaryOp { left, right, .. } => vec![left.clone(), right.clone()],
            MirInst::UnaryOp { operand, .. } => vec![operand.clone()],
            MirInst::Call { args, .. } => copy_values(args),
            MirInst::PtrOffset { index, .. } => vec![index.clone()],
            MirInst::PtrStore { index, value, .. } => vec![index.clone(), value.clone()],
            MirInst::ArrayElemPtr { index, .. } => vec![index.clone()],
            MirInst::Cast { value, .. } => vec![value.clone()],
            MirInst::CallIndirect { args, .. } => copy_values(args),
            MirInst::SliceMake { ptr, len, .. } => vec![ptr.clone(), len.clone()],
            MirInst::AsyncSpawn { arg, .. } => vec![arg.clone()],
            _ => Vec::new(),
        };
        assert(values_model(r@) =~= inst_operands(self@));
        r
    }
}

proof fn lemma_indented_words()
    ensures
        "  store "@.len() == 8 && "  store "@[0] == ' ' && "  store "@[1] == ' ' && "  store "@[2] == 's' && "  store "@[3] == 't' && "  store "@[4] == 'o' && "  store "@[5] == 'r' && "  store "@[6] == 'e' && "  store "@[7] == ' ',
        "  call "@.len() == 7 && "  call "@[0] == ' ' && "  call "@[1] == ' ' && "  call "@[2] == 'c' && "  call "@[3] == 'a' && "  call "@[4] == 'l' && "  call "@[5] == 'l' && "  call "@[6] == ' ',
        "  memcpy "@.len() == 9 && "  memcpy "@[0] == ' ' && "  memcpy "@[1] == ' ' && "  memcpy "@[2] == 'm' && "  memcpy "@[3] == 'e' && "  memcpy "@[4] == 'm' && "  memcpy "@[5] == 'c' && "  memcpy "@[6] == 'p' && "  memcpy "@[7] == 'y' && "  memcpy "@[8] == ' ',
        "  call_indirect "@.len() == 16 && "  call_indirect "@[0] == ' ' && "  call_indirect "@[1] == ' ' && "  call_indirect "@[2] == 'c' && "  call_indirect "@[3] == 'a' && "  call_indirect "@[4] == 'l' && "  call_indirect "@[5] == 'l' && "  call_indirect "@[6] == '_' && "  call_indirect "@[7] == 'i' && "  call_indirect "@[8] == 'n' && "  call_indirect "@[9] == 'd' && "  call_indirect "@[10] == 'i' && "  call_indirect "@[11] == 'r' && "  call_indirect "@[12] == 'e' && "  call_indirect "@[13] == 'c' && "  call_indirect "@[14] == 't' && "  call_indirect "@[15] == ' ',
        "  ret "@.len() == 6 && "  ret "@[0] == ' ' && "  ret "@[1] == ' ' && "  ret "@[2] == 'r' && "  ret "@[3] == 'e' && "  ret "@[4] == 't' && "  ret "@[5] == ' ',
        "  br "@.len() == 5 && "  br "@[0] == ' ' && "  br "@[1] == ' ' && "  br "@[2] == 'b' && "  br "@[3] == 'r' && "  br "@[4] == ' ',
        "  unreachable"@.len() == 13 && "  unreachable"@[0] == ' ' && "  unreachable"@[1] == ' ' && "  unreachable"@[2] == 'u' && "  unreachable"@[3] == 'n' && "  unreachable"@[4] == 'r' && "  unreachable"@[5] == 'e' && "  unreachable"@[6] == 'a' && "  unreachable"@[7] == 'c' && "  unreachable"@[8] == 'h' && "  unreachable"@[9] == 'a' && "  unreachable"@[10] == 'b' && "  unreachable"@[11] == 'l' && "  unreachable"@[12] == 'e',
        "  "@.len() == 2 && "  "@[0] == ' ' && "  "@[1] == ' ',
{
    reveal_strlit("  store ");
    reveal_strlit("  call ");
    reveal_strlit("  memcpy ");
    reveal_strlit("  call_indirect ");
    reveal_strlit("  ret ");
    reveal_strlit("  br ");
    reveal_strlit("  unreachable");
    reveal_strlit("  ");
}

/// Every instruction and terminator of a listing is indented by two
/// spaces, whatever it is.
#[verifier::spinoff_prover]
#[verifier::rlimit(80)]
pub proof fn law_listing_indents_lines(inst: InstModel, term: MirTerminator, t: Seq<(u64, String)>)
    ensures
        inst_text(inst, t).take(2) == "  "@,
        terminator_text(term, t).take(2) == "  "@,
{
    lemma_indented_words();
    let s = inst_text(inst, t);
    match inst {
        InstModel::Call { dest, .. } => {
            assert(s.len() >= 2 && s[0] == ' ' && s[1] == ' ');
        },
        InstModel::CallIndirect { dest, .. } => {
            assert(s.len() >= 2 && s[0] == ' ' && s[1] == ' ');
        },
        _ => {
            assert(s.len() >= 2 && s[0] == ' ' && s[1] == ' ');
        },
    }
    assert(s.take(2) =~= "  "@);
    let u = terminator_text(term, t);
    assert(u.len() >= 2 && u[0] == ' ' && u[1] == ' ');
    assert(u.take(2) =~= "  "@);
}

} // verus!
