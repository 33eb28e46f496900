use kyc_mir::lower::ctx::{build_typeinfo_struct, LowerCtx};
use kyc_mir::mir::{MirConstant, MirInst, MirTerminator, MirType, MirValue};

fn result_type() -> MirType {
    MirType::Struct(
        "Result".to_string(),
        vec![("disc".to_string(), MirType::I32), ("payload".to_string(), MirType::I64)],
    )
}

fn typeinfo_type() -> MirType {
    MirType::Struct(
        "TypeInfo".to_string(),
        vec![
            ("name".to_string(), MirType::Str),
            ("kind".to_string(), MirType::Str),
            ("size".to_string(), MirType::I32),
        ],
    )
}

fn alloca(dest: usize, t: MirType, name: &str) -> MirInst {
    MirInst::Alloca { dest, type_: t, name: name.to_string() }
}

#[test]
fn a_fresh_context() {
    let ctx = LowerCtx::new();
    assert_eq!(ctx.next_local, 0);
    assert_eq!(ctx.current_block.label, "entry");
    assert!(ctx.current_block.insts.is_empty());
    assert_eq!(ctx.current_block.terminator, MirTerminator::Unreachable);
    assert!(ctx.blocks.is_empty());
    assert_eq!(ctx.block_counter, 0);
    assert_eq!(ctx.return_type, MirType::Void);
    assert!(!ctx.is_fallible);
    assert!(ctx.local_types.is_empty());
    assert!(ctx.ref_param_locals.is_empty());
    assert!(ctx.deferred_exprs.is_empty());
}

#[test]
fn locals_are_numbered_in_order() {
    let mut ctx = LowerCtx::new();
    let a = ctx.alloc_local("a", MirType::I32);
    let b = ctx.alloc_local("b", MirType::Str);
    assert_eq!((a, b), (0, 1));
    assert_eq!(ctx.next_local, 2);
    assert_eq!(
        ctx.current_block.insts,
        vec![alloca(0, MirType::I32, "a"), alloca(1, MirType::Str, "b")]
    );
    assert_eq!(ctx.local_types.get(&1), Some(&MirType::Str));
}

#[test]
fn blocks_get_distinct_labels() {
    let mut ctx = LowerCtx::new();
    let l0 = ctx.fresh_block();
    let l1 = ctx.fresh_block();
    assert_eq!(l0, "bb0");
    assert_eq!(l1, "bb1");
    assert_ne!(l0, l1);
    let mut labels = vec![l0, l1];
    for _ in 0..20 {
        labels.push(ctx.fresh_block());
    }
    let mut sorted = labels.clone();
    sorted.sort();
    sorted.dedup();
    assert_eq!(sorted.len(), labels.len());
    assert_eq!(labels[11], "bb11");
}

#[test]
fn finishing_a_block() {
    let mut ctx = LowerCtx::new();
    ctx.alloc_local("x", MirType::I64);
    ctx.finish_block(MirTerminator::Br("bb7".to_string()));
    assert_eq!(ctx.blocks.len(), 1);
    assert_eq!(ctx.blocks[0].label, "entry");
    assert_eq!(ctx.blocks[0].insts, vec![alloca(0, MirType::I64, "x")]);
    assert_eq!(ctx.blocks[0].terminator, MirTerminator::Br("bb7".to_string()));
    assert_eq!(ctx.current_block.label, "bb0");
    assert!(ctx.current_block.insts.is_empty());
    assert_eq!(ctx.current_block.terminator, MirTerminator::Unreachable);
    assert_eq!(ctx.block_counter, 1);
}

#[test]
fn plain_return() {
    let mut ctx = LowerCtx::new();
    ctx.emit_return(MirValue::Constant(MirConstant::I32(3)));
    assert_eq!(ctx.blocks.len(), 1);
    assert!(ctx.blocks[0].insts.is_empty());
    assert_eq!(ctx.blocks[0].terminator, MirTerminator::Return(MirValue::Constant(MirConstant::I32(3))));
    assert_eq!(ctx.next_local, 0);
}

#[test]
fn fallible_return_wraps_a_constant() {
    let mut ctx = LowerCtx::new();
    ctx.is_fallible = true;
    ctx.return_type = result_type();
    ctx.emit_return(MirValue::Constant(MirConstant::I64(9)));
    assert_eq!(ctx.next_local, 3);
    let b = &ctx.blocks[0];
    assert_eq!(
        b.insts,
        vec![
            alloca(0, result_type(), "_ret"),
            alloca(1, MirType::I32, "_rsp"),
            MirInst::FieldPtr { dest: 1, ptr: 0, field_index: 0, struct_type: Box::new(result_type()) },
            MirInst::Store { dest: 1, value: MirValue::Constant(MirConstant::I32(0)) },
            alloca(2, MirType::I64, "_rpp"),
            MirInst::FieldPtr { dest: 2, ptr: 0, field_index: 1, struct_type: Box::new(result_type()) },
            MirInst::Store { dest: 2, value: MirValue::Constant(MirConstant::I64(9)) },
        ]
    );
    assert_eq!(b.terminator, MirTerminator::Return(MirValue::Local(0)));
}

#[test]
fn fallible_return_widens_a_narrow_local() {
    let mut ctx = LowerCtx::new();
    ctx.is_fallible = true;
    ctx.return_type = result_type();
    let x = ctx.alloc_local("x", MirType::I32);
    ctx.emit_return(MirValue::Local(x));
    assert_eq!(ctx.next_local, 5);
    let b = &ctx.blocks[0];
    assert_eq!(b.insts.len(), 10);
    assert_eq!(b.insts[7], alloca(4, MirType::I64, "_rpv"));
    assert_eq!(b.insts[8], MirInst::Cast { dest: 4, value: MirValue::Local(0), to_type: MirType::I64 });
    assert_eq!(b.insts[9], MirInst::Store { dest: 3, value: MirValue::Local(4) });
    assert_eq!(b.terminator, MirTerminator::Return(MirValue::Local(1)));
}

#[test]
fn fallible_return_keeps_wide_locals_and_results() {
    let mut ctx = LowerCtx::new();
    ctx.is_fallible = true;
    ctx.return_type = result_type();
    let wide = ctx.alloc_local("w", MirType::I64);
    ctx.emit_return(MirValue::Local(wide));
    assert_eq!(ctx.next_local, 4);
    assert_eq!(ctx.blocks[0].insts.last(), Some(&MirInst::Store { dest: 3, value: MirValue::Local(0) }));

    let r = ctx.alloc_local("r", result_type());
    let before = ctx.next_local;
    ctx.emit_return(MirValue::Local(r));
    assert_eq!(ctx.next_local, before);
    assert_eq!(ctx.blocks[1].terminator, MirTerminator::Return(MirValue::Local(r)));
    assert_eq!(ctx.blocks[1].insts, vec![alloca(4, result_type(), "r")]);
}

#[test]
fn typeinfo_values() {
    let mut ctx = LowerCtx::new();
    build_typeinfo_struct(&MirType::List(Box::new(MirType::I32)), &mut ctx);
    assert_eq!(ctx.next_local, 11);
    assert_eq!(ctx.string_locals, vec![1, 2, 4, 7]);
    let insts = &ctx.current_block.insts;
    assert_eq!(insts.len(), 22);
    assert_eq!(insts[0], alloca(0, typeinfo_type(), "_ti"));
    assert_eq!(
        insts[4],
        MirInst::Store { dest: 3, value: MirValue::Constant(MirConstant::String("list<i32>".to_string())) }
    );
    assert_eq!(
        insts[6],
        MirInst::Call { dest: Some(4), name: "ky_clone_str".to_string(), args: vec![MirValue::Local(3)] }
    );
    assert_eq!(
        insts[11],
        MirInst::Store { dest: 6, value: MirValue::Constant(MirConstant::String("list".to_string())) }
    );
    assert_eq!(insts[19], MirInst::Store { dest: 9, value: MirValue::Constant(MirConstant::I32(8)) });
    assert_eq!(insts[21], MirInst::Load { dest: 10, src: 0 });
    assert_eq!(ctx.local_types.get(&10), Some(&typeinfo_type()));
}

fn cond_br(cond: usize, t: &str, f: &str) -> MirTerminator {
    MirTerminator::CondBr { cond: MirValue::Local(cond), true_block: t.to_string(), false_block: f.to_string() }
}

#[test]
fn a_boolean_guard_is_branched_on_directly() {
    let mut ctx = LowerCtx::new();
    let g = ctx.alloc_local("g", MirType::Bool);
    ctx.branch_on_guard(0, "arm", "next");
    assert_eq!(ctx.blocks.len(), 1);
    assert_eq!(ctx.blocks[0].label, "entry");
    assert_eq!(ctx.blocks[0].insts, vec![alloca(g, MirType::Bool, "g")]);
    assert_eq!(ctx.blocks[0].terminator, cond_br(g, "arm", "next"));
    assert_eq!(ctx.current_block.label, "bb0");
    assert_eq!(ctx.next_local, 1);
}

#[test]
fn an_integer_guard_is_compared_with_zero() {
    let mut ctx = LowerCtx::new();
    let g = ctx.alloc_local("n", MirType::I64);
    ctx.branch_on_guard(0, "arm", "next");
    assert_eq!(
        ctx.blocks[0].insts,
        vec![
            alloca(0, MirType::I64, "n"),
            alloca(1, MirType::I64, "_zero"),
            MirInst::Store { dest: 1, value: MirValue::Constant(MirConstant::I32(0)) },
            alloca(2, MirType::Bool, "_gcmp"),
            MirInst::BinaryOp {
                dest: 2,
                op: kyc_mir::mir::MirBinaryOp::Neq,
                left: MirValue::Local(g),
                right: MirValue::Local(1),
            },
        ]
    );
    assert_eq!(ctx.blocks[0].terminator, cond_br(2, "arm", "next"));
    assert_eq!(ctx.next_local, 3);
    assert_eq!(ctx.local_types.get(&2), Some(&MirType::Bool));
}

#[test]
fn a_guard_without_a_value_changes_nothing() {
    let mut ctx = LowerCtx::new();
    ctx.alloc_local("x", MirType::I32);
    ctx.branch_on_guard(1, "arm", "next");
    assert!(ctx.blocks.is_empty());
    assert_eq!(ctx.current_block.insts.len(), 1);
    assert_eq!(ctx.next_local, 1);
}

#[test]
fn a_step_into_a_nested_array_points_at_the_element() {
    let mut ctx = LowerCtx::new();
    let inner = MirType::Array(Box::new(MirType::I32), 3);
    let outer = MirType::Array(Box::new(inner.clone()), 2);
    let root = ctx.alloc_local("grid", outer.clone());
    let idx = ctx.alloc_local("i", MirType::I32);
    let (p, t) = ctx.array_elem_step(root, &outer, idx);
    assert_eq!(p, 2);
    assert_eq!(t, inner);
    assert_eq!(ctx.current_block.insts.len(), 4);
    assert_eq!(ctx.current_block.insts[2], alloca(2, MirType::Ptr(Box::new(MirType::I8)), "_nested_aep"));
    assert_eq!(
        ctx.current_block.insts[3],
        MirInst::ArrayElemPtr {
            dest: 2,
            ptr: root,
            index: MirValue::Local(idx),
            arr_type: Box::new(outer.clone()),
            elem_type: Box::new(inner.clone()),
        }
    );
    let (q, u) = ctx.array_elem_step(p, &MirType::I32, idx);
    assert_eq!((q, u), (p, MirType::I32));
    assert_eq!(ctx.next_local, 3);
}
