use kyc_mir::ast::ParamMode;
use kyc_mir::mir::{
    MirBasicBlock, MirBinaryOp, MirConstant, MirFunction, MirInst, MirModule, MirTerminator, MirType, MirValue,
};

fn no_floats() -> Vec<(u64, String)> {
    Vec::new()
}

#[test]
fn values_print_as_locals_params_and_constants() {
    let t = no_floats();
    assert_eq!(MirValue::Local(3).to_text(&t), "%3");
    assert_eq!(MirValue::Param(1).to_text(&t), "param1");
    assert_eq!(MirValue::Constant(MirConstant::I32(-5)).to_text(&t), "-5");
    assert_eq!(MirValue::Constant(MirConstant::I64(1234567890123)).to_text(&t), "1234567890123");
    assert_eq!(MirValue::Constant(MirConstant::Bool(true)).to_text(&t), "true");
    assert_eq!(MirValue::Constant(MirConstant::String("hi".to_string())).to_text(&t), "\"hi\"");
    assert_eq!(MirValue::Constant(MirConstant::Void).to_text(&t), "void");
    assert_eq!(MirValue::Constant(MirConstant::Null).to_text(&t), "null");
}

#[test]
fn a_float_constant_prints_the_text_its_table_gives() {
    let bits = 1.5f64.to_bits();
    let t = vec![(0u64, "0".to_string()), (bits, "1.5".to_string()), (bits, "other".to_string())];
    assert_eq!(MirConstant::F64(bits).to_text(&t), "1.5");
    assert_eq!(MirConstant::F64(2.5f64.to_bits()).to_text(&t), "");
}

#[test]
fn instructions_print_one_per_line_shape() {
    let t = no_floats();
    let alloca = MirInst::Alloca { dest: 0, type_: MirType::List(Box::new(MirType::I32)), name: "xs".to_string() };
    assert_eq!(alloca.to_text(&t), "  %0 = alloca list<i32>, \"xs\"");
    let store = MirInst::Store { dest: 0, value: MirValue::Param(0) };
    assert_eq!(store.to_text(&t), "  store %0 <- param0");
    let add = MirInst::BinaryOp {
        dest: 3,
        op: MirBinaryOp::Add,
        left: MirValue::Local(1),
        right: MirValue::Constant(MirConstant::I32(2)),
    };
    assert_eq!(add.to_text(&t), "  %3 = add %1, 2");
    let call = MirInst::Call {
        dest: Some(2),
        name: "f".to_string(),
        args: vec![MirValue::Local(0), MirValue::Constant(MirConstant::I32(1))],
    };
    assert_eq!(call.to_text(&t), "  %2 = call f(%0, 1)");
    let bare = MirInst::Call { dest: None, name: "g".to_string(), args: vec![] };
    assert_eq!(bare.to_text(&t), "  call g()");
    let offset = MirInst::PtrOffset { dest: 4, ptr: 1, index: MirValue::Local(2), elem_type: Box::new(MirType::I32) };
    assert_eq!(offset.to_text(&t), "  4 = ptr_offset 1[%2]");
    let field = MirInst::FieldPtr { dest: 5, ptr: 1, field_index: 2, struct_type: Box::new(MirType::I64) };
    assert_eq!(field.to_text(&t), "  %5 = field_ptr %1, field 2");
    let memcpy = MirInst::Memcpy { dest_ptr_local: 6, src_alloca_local: 7, struct_type: Box::new(MirType::Str) };
    assert_eq!(memcpy.to_text(&t), "  memcpy %6 <- %7, type str");
    let indirect = MirInst::CallIndirect {
        dest: None,
        fn_ptr: 8,
        ret_type: MirType::Void,
        param_types: vec![],
        args: vec![MirValue::Local(1)],
    };
    assert_eq!(indirect.to_text(&t), "  call_indirect %8(%1)");
    let spawn = MirInst::AsyncSpawn { dest: 9, function_name: "_async_body_f".to_string(), arg: MirValue::Local(3) };
    assert_eq!(spawn.to_text(&t), "  %9 = async_spawn _async_body_f (%3)");
}

#[test]
fn terminators_print_their_targets() {
    let t = no_floats();
    assert_eq!(MirTerminator::Return(MirValue::Local(0)).to_text(&t), "  ret %0");
    assert_eq!(MirTerminator::Br("exit".to_string()).to_text(&t), "  br exit");
    let cond = MirTerminator::CondBr {
        cond: MirValue::Local(1),
        true_block: "then".to_string(),
        false_block: "else".to_string(),
    };
    assert_eq!(cond.to_text(&t), "  br %1, then, else");
    assert_eq!(MirTerminator::Unreachable.to_text(&t), "  unreachable");
}

fn sample_function() -> MirFunction {
    MirFunction {
        name: "f".to_string(),
        params: vec![MirType::I32, MirType::Str],
        param_modes: vec![ParamMode::Borrow, ParamMode::Borrow],
        return_type: MirType::Bool,
        is_fallible: true,
        is_const: true,
        basic_blocks: vec![MirBasicBlock {
            label: "entry".to_string(),
            insts: vec![MirInst::Store { dest: 0, value: MirValue::Constant(MirConstant::I32(1)) }],
            terminator: MirTerminator::Return(MirValue::Local(0)),
        }],
        local_count: 1,
    }
}

#[test]
fn a_function_prints_its_signature_and_blocks() {
    let f = sample_function();
    assert_eq!(
        f.to_text(&no_floats()),
        "const fn f(i32, str) -> bool!:\nentry:\n  store %0 <- 1\n  ret %0\n"
    );
}

#[test]
fn a_module_prints_globals_then_functions() {
    let m = MirModule {
        functions: vec![sample_function()],
        globals: vec![("g".to_string(), MirType::I64, MirConstant::I64(7))],
        links: vec![],
    };
    assert_eq!(
        m.to_text(&no_floats()),
        "global g: i64 = 7\nconst fn f(i32, str) -> bool!:\nentry:\n  store %0 <- 1\n  ret %0\n\n"
    );
}

#[test]
fn operands_are_the_values_an_instruction_reads() {
    let store = MirInst::PtrStore {
        dest: 1,
        ptr: 2,
        index: MirValue::Constant(MirConstant::I32(0)),
        value: MirValue::Local(3),
    };
    assert_eq!(store.operands(), vec![MirValue::Constant(MirConstant::I32(0)), MirValue::Local(3)]);
    let load = MirInst::Load { dest: 1, src: 2 };
    assert!(load.operands().is_empty());
}
