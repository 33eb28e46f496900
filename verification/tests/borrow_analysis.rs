use kyc_mir::borrow_analysis::{is_alloc_func, BorrowAnalysis};
use kyc_mir::mir::{is_move_type, MirType};

#[test]
fn test_move_type_classification() {
    assert!(!is_move_type(&MirType::I32));
    assert!(!is_move_type(&MirType::F64));
    assert!(!is_move_type(&MirType::Bool));
    assert!(!is_move_type(&MirType::Ptr(Box::new(MirType::I32))));
    assert!(is_move_type(&MirType::Str));
    assert!(is_move_type(&MirType::List(Box::new(MirType::I32))));
    assert!(!is_move_type(&MirType::Struct("Point".to_string(), vec![])));
    assert!(!is_move_type(&MirType::Array(Box::new(MirType::I32), 0)));
}

#[test]
fn test_alloc_func_detection() {
    assert!(is_alloc_func("ky_concat"));
    assert!(is_alloc_func("ky_alloc"));
    assert!(is_alloc_func("ky_list_new"));
    assert!(!is_alloc_func("ky_print"));
    assert!(!is_alloc_func("ky_strlen"));
}

#[test]
fn new_analysis_has_no_errors() {
    let analysis = BorrowAnalysis::new();
    assert!(analysis.errors().is_empty());
}

use kyc_mir::mir::{
    MirBasicBlock, MirBinaryOp, MirConstant, MirFunction, MirInst, MirModule, MirTerminator,
    MirValue,
};

#[test]
fn test_empty_module() {
    let mut module = MirModule {
        functions: vec![],
        globals: vec![],
        links: vec![],
    };
    let mut analysis = BorrowAnalysis::new();
    analysis.run(&mut module); // should not panic
    assert!(module.functions.is_empty());
}

#[test]
fn test_no_move_locals() {
    let func = MirFunction {
        name: "test".to_string(),
        params: vec![MirType::I32],
        return_type: MirType::I32,
        is_fallible: false,
        is_const: false,
        basic_blocks: vec![MirBasicBlock {
            label: "entry".to_string(),
            insts: vec![
                MirInst::Alloca { dest: 0, type_: MirType::I32, name: "x".to_string() },
                MirInst::Store { dest: 0, value: MirValue::Constant(MirConstant::I32(42)) },
                MirInst::Load { dest: 1, src: 0 },
            ],
            terminator: MirTerminator::Return(MirValue::Local(1)),
        }],
        local_count: 2,
        param_modes: vec![],
    };
    let mut analysis = BorrowAnalysis::new();
    let original_len = func.basic_blocks[0].insts.len();
    let mut module = MirModule { functions: vec![func], globals: vec![], links: vec![] };
    analysis.run(&mut module);
    // No instructions should be added (no Move types)
    assert_eq!(module.functions[0].basic_blocks[0].insts.len(), original_len);
}

#[test]
fn test_borrow_by_default_in_mir() {
    // By default, function calls BORROW their args (not consume).
    // So using the value after a call is OK.
    let func = MirFunction {
        name: "test".to_string(),
        params: vec![],
        return_type: MirType::Void,
        is_fallible: false,
        is_const: false,
        basic_blocks: vec![MirBasicBlock {
            label: "entry".to_string(),
            insts: vec![
                MirInst::Alloca { dest: 0, type_: MirType::Str, name: "s".to_string() },
                MirInst::Call {
                    dest: None,
                    name: "ky_print".to_string(),
                    args: vec![MirValue::Local(0)],
                },
                // Store after call should NOT be a use-after-move (borrow-by-default)
                MirInst::Store { dest: 1, value: MirValue::Local(0) },
            ],
            terminator: MirTerminator::Return(MirValue::Local(1)),
        }],
        local_count: 2,
        param_modes: vec![],
    };
    let mut analysis = BorrowAnalysis::new();
    let mut module = MirModule { functions: vec![func], globals: vec![], links: vec![] };
    analysis.run(&mut module);
    // Borrow-by-default: no errors expected
    assert!(analysis.errors().is_empty(), "Expected no errors, got: {:?}", analysis.errors());
}

#[test]
fn test_no_false_positive_on_copy_types() {
    let func = MirFunction {
        name: "test".to_string(),
        params: vec![],
        return_type: MirType::Void,
        is_fallible: false,
        is_const: false,
        basic_blocks: vec![MirBasicBlock {
            label: "entry".to_string(),
            insts: vec![
                MirInst::Alloca { dest: 0, type_: MirType::I32, name: "x".to_string() },
                MirInst::Store { dest: 0, value: MirValue::Constant(MirConstant::I32(42)) },
                MirInst::Load { dest: 1, src: 0 },
                MirInst::BinaryOp {
                    dest: 2,
                    op: MirBinaryOp::Add,
                    left: MirValue::Local(0),
                    right: MirValue::Local(1),
                },
            ],
            terminator: MirTerminator::Return(MirValue::Local(2)),
        }],
        local_count: 3,
        param_modes: vec![],
    };
    let mut analysis = BorrowAnalysis::new();
    let mut module = MirModule { functions: vec![func], globals: vec![], links: vec![] };
    analysis.run(&mut module);
    // I32 is Copy — no use-after-move errors expected
    assert_eq!(analysis.errors().len(), 0, "Expected no errors, got: {:?}", analysis.errors());
}

#[test]
fn test_return_alive_not_error() {
    let func = MirFunction {
        name: "make_str".to_string(),
        params: vec![],
        return_type: MirType::Str,
        is_fallible: false,
        is_const: false,
        basic_blocks: vec![MirBasicBlock {
            label: "entry".to_string(),
            insts: vec![
                MirInst::Alloca { dest: 0, type_: MirType::Str, name: "s".to_string() },
                MirInst::Call {
                    dest: Some(0),
                    name: "ky_concat".to_string(),
                    args: vec![
                        MirValue::Constant(MirConstant::String("hello".to_string())),
                        MirValue::Constant(MirConstant::String("world".to_string())),
                    ],
                },
            ],
            terminator: MirTerminator::Return(MirValue::Local(0)),
        }],
        local_count: 1,
        param_modes: vec![],
    };
    let mut analysis = BorrowAnalysis::new();
    let mut module = MirModule { functions: vec![func], globals: vec![], links: vec![] };
    analysis.run(&mut module);
    // Returning a Str transfers ownership to caller — no error
    assert_eq!(analysis.errors().len(), 0, "Expected no errors, got: {:?}", analysis.errors());
}

use kyc_mir::ast::ParamMode;

fn callee(name: &str, modes: Vec<ParamMode>) -> MirFunction {
    MirFunction {
        name: name.to_string(),
        params: modes.iter().map(|_| MirType::Str).collect(),
        param_modes: modes,
        return_type: MirType::Void,
        is_fallible: false,
        is_const: false,
        basic_blocks: vec![MirBasicBlock {
            label: "entry".to_string(),
            insts: vec![],
            terminator: MirTerminator::Return(MirValue::Constant(MirConstant::Void)),
        }],
        local_count: 0,
    }
}

fn caller(insts: Vec<MirInst>, ret: MirValue) -> MirFunction {
    MirFunction {
        name: "main".to_string(),
        params: vec![],
        param_modes: vec![],
        return_type: MirType::Void,
        is_fallible: false,
        is_const: false,
        basic_blocks: vec![MirBasicBlock {
            label: "entry".to_string(),
            insts,
            terminator: MirTerminator::Return(ret),
        }],
        local_count: 2,
    }
}

fn call(name: &str, args: Vec<MirValue>) -> MirInst {
    MirInst::Call { dest: None, name: name.to_string(), args }
}

fn run(functions: Vec<MirFunction>) -> (Vec<String>, MirModule) {
    let mut module = MirModule { functions, globals: vec![], links: vec![] };
    let mut analysis = BorrowAnalysis::new();
    analysis.run(&mut module);
    (analysis.errors().to_vec(), module)
}

fn s_alloca() -> MirInst {
    MirInst::Alloca { dest: 0, type_: MirType::Str, name: "s".to_string() }
}

#[test]
fn moving_twice_is_a_use_after_move() {
    let main = caller(
        vec![s_alloca(), call("take", vec![MirValue::Local(0)]), call("take", vec![MirValue::Local(0)])],
        MirValue::Constant(MirConstant::Void),
    );
    let (errors, module) = run(vec![callee("take", vec![ParamMode::Move]), main]);
    assert_eq!(errors, vec!["use-after-move: cannot move `s` (local #0) — value has been moved".to_string()]);
    // The moved string is not freed by the caller.
    assert_eq!(module.functions[1].basic_blocks[0].insts.len(), 3);
}

#[test]
fn conflicting_borrows_in_one_call() {
    let cases = [
        (
            vec![ParamMode::MutableBorrow, ParamMode::MutableBorrow],
            "cannot mutably borrow `s` — it is already mutably borrowed",
        ),
        (
            vec![ParamMode::Borrow, ParamMode::MutableBorrow],
            "cannot mutably borrow `s` — it is already borrowed immutably (1 borrows active)",
        ),
        (
            vec![ParamMode::MutableBorrow, ParamMode::Borrow],
            "cannot borrow `s` immutably — it is already mutably borrowed",
        ),
    ];
    for (modes, message) in cases {
        let main = caller(
            vec![s_alloca(), call("f", vec![MirValue::Local(0), MirValue::Local(0)])],
            MirValue::Constant(MirConstant::Void),
        );
        let (errors, module) = run(vec![callee("f", modes), main]);
        assert_eq!(errors, vec![message.to_string()]);
        // Borrowing leaves the caller the owner, which frees it at return.
        assert_eq!(
            module.functions[1].basic_blocks[0].insts.last(),
            Some(&call("ky_free", vec![MirValue::Local(0)]))
        );
    }
}

#[test]
fn shared_borrows_do_not_conflict() {
    let main = caller(
        vec![s_alloca(), call("g", vec![MirValue::Local(0), MirValue::Local(0)]), call("g", vec![MirValue::Local(0), MirValue::Local(0)])],
        MirValue::Constant(MirConstant::Void),
    );
    let (errors, _) = run(vec![callee("g", vec![ParamMode::Borrow, ParamMode::Borrow]), main]);
    assert!(errors.is_empty(), "{:?}", errors);
}

#[test]
fn owned_values_are_freed_at_return_unless_returned() {
    let main = caller(
        vec![
            MirInst::Alloca { dest: 0, type_: MirType::List(Box::new(MirType::I32)), name: "xs".to_string() },
            MirInst::Alloca {
                dest: 1,
                type_: MirType::Dict(Box::new(MirType::Str), Box::new(MirType::I64)),
                name: "d".to_string(),
            },
            MirInst::Alloca { dest: 2, type_: MirType::Chan(Box::new(MirType::I32)), name: "c".to_string() },
        ],
        MirValue::Local(1),
    );
    let (errors, module) = run(vec![main]);
    assert!(errors.is_empty());
    let insts = &module.functions[0].basic_blocks[0].insts;
    assert_eq!(insts.len(), 5);
    assert_eq!(insts[3], call("ky_list_free", vec![MirValue::Local(0)]));
    assert_eq!(insts[4], call("ky_channel_free", vec![MirValue::Local(2)]));
}

fn block(label: &str, insts: Vec<MirInst>, terminator: MirTerminator) -> MirBasicBlock {
    MirBasicBlock { label: label.to_string(), insts, terminator }
}

fn function(blocks: Vec<MirBasicBlock>) -> MirFunction {
    MirFunction {
        name: "blocks".to_string(),
        params: vec![],
        param_modes: vec![],
        return_type: MirType::Void,
        is_fallible: false,
        is_const: false,
        basic_blocks: blocks,
        local_count: 2,
    }
}

fn ret_void() -> MirTerminator {
    MirTerminator::Return(MirValue::Constant(MirConstant::Void))
}

#[test]
fn a_value_live_across_a_branch_is_freed_once_where_its_scope_ends() {
    let f = function(vec![
        block(
            "entry",
            vec![MirInst::Alloca { dest: 0, type_: MirType::Str, name: "s".to_string() }],
            MirTerminator::Br("exit".to_string()),
        ),
        block("exit", vec![], ret_void()),
    ]);
    let (errors, module) = run(vec![f]);
    assert!(errors.is_empty());
    let blocks = &module.functions[0].basic_blocks;
    assert_eq!(blocks[0].insts.len(), 1);
    assert_eq!(blocks[1].insts, vec![call("ky_free", vec![MirValue::Local(0)])]);
}

#[test]
fn a_value_dropped_at_a_merge_is_freed_at_the_end_of_its_branch() {
    let take = callee("take", vec![ParamMode::Move]);
    let f = function(vec![
        block(
            "entry",
            vec![MirInst::Alloca { dest: 0, type_: MirType::Str, name: "s".to_string() }],
            MirTerminator::CondBr {
                cond: MirValue::Constant(MirConstant::Bool(true)),
                true_block: "a".to_string(),
                false_block: "b".to_string(),
            },
        ),
        block("a", vec![call("take", vec![MirValue::Local(0)])], MirTerminator::Br("exit".to_string())),
        block("b", vec![], MirTerminator::Br("exit".to_string())),
        block("exit", vec![], ret_void()),
    ]);
    let (errors, module) = run(vec![take, f]);
    assert!(errors.is_empty());
    let blocks = &module.functions[1].basic_blocks;
    assert_eq!(blocks[0].insts.len(), 1);
    assert_eq!(blocks[1].insts.len(), 1);
    assert_eq!(blocks[2].insts, vec![call("ky_free", vec![MirValue::Local(0)])]);
    assert!(blocks[3].insts.is_empty());
}

#[test]
fn a_call_result_is_freed_before_a_store_overwrites_it() {
    let concat = |d: usize| MirInst::Call { dest: Some(d), name: "ky_concat".to_string(), args: vec![] };
    let main = caller(
        vec![
            MirInst::Alloca { dest: 0, type_: MirType::Str, name: "a".to_string() },
            concat(0),
            MirInst::Alloca { dest: 1, type_: MirType::Str, name: "b".to_string() },
            concat(1),
            MirInst::Store { dest: 0, value: MirValue::Local(1) },
        ],
        MirValue::Local(0),
    );
    let (errors, module) = run(vec![main]);
    assert!(errors.is_empty());
    let insts = &module.functions[0].basic_blocks[0].insts;
    assert_eq!(insts.len(), 6);
    assert_eq!(insts[4], call("ky_free", vec![MirValue::Local(0)]));
    assert_eq!(insts[5], MirInst::Store { dest: 0, value: MirValue::Local(1) });
}

#[test]
fn a_value_written_in_an_earlier_block_is_freed_before_it_is_overwritten() {
    let new_list = |d: usize| MirInst::Call { dest: Some(d), name: "ky_list_new".to_string(), args: vec![] };
    let f = function(vec![
        block(
            "entry",
            vec![MirInst::Alloca { dest: 0, type_: MirType::List(Box::new(MirType::I32)), name: "xs".to_string() }, new_list(0)],
            MirTerminator::Br("exit".to_string()),
        ),
        block("exit", vec![new_list(1), MirInst::Store { dest: 0, value: MirValue::Local(1) }], ret_void()),
    ]);
    let (errors, module) = run(vec![f]);
    assert!(errors.is_empty());
    let blocks = &module.functions[0].basic_blocks;
    assert_eq!(blocks[0].insts.len(), 2);
    assert_eq!(
        blocks[1].insts,
        vec![
            new_list(1),
            call("ky_list_free", vec![MirValue::Local(0)]),
            MirInst::Store { dest: 0, value: MirValue::Local(1) },
            call("ky_list_free", vec![MirValue::Local(0)]),
        ]
    );
}

#[test]
fn an_owned_value_is_freed_before_a_store_overwrites_it() {
    let new_list = |d: usize| MirInst::Call { dest: Some(d), name: "ky_list_new".to_string(), args: vec![] };
    let main = caller(
        vec![
            MirInst::Alloca { dest: 0, type_: MirType::List(Box::new(MirType::I32)), name: "xs".to_string() },
            new_list(1),
            MirInst::Store { dest: 0, value: MirValue::Local(1) },
            new_list(2),
            MirInst::Store { dest: 0, value: MirValue::Local(2) },
        ],
        MirValue::Constant(MirConstant::Void),
    );
    let (errors, module) = run(vec![main]);
    assert!(errors.is_empty());
    let insts = &module.functions[0].basic_blocks[0].insts;
    assert_eq!(insts.len(), 7);
    assert_eq!(insts[2], MirInst::Store { dest: 0, value: MirValue::Local(1) });
    assert_eq!(insts[4], call("ky_list_free", vec![MirValue::Local(0)]));
    assert_eq!(insts[5], MirInst::Store { dest: 0, value: MirValue::Local(2) });
    assert_eq!(insts[6], call("ky_list_free", vec![MirValue::Local(0)]));
}

#[test]
fn the_first_store_after_an_alloca_frees_nothing() {
    let main = caller(
        vec![
            MirInst::Alloca { dest: 0, type_: MirType::List(Box::new(MirType::I32)), name: "xs".to_string() },
            MirInst::Call { dest: Some(1), name: "ky_list_new".to_string(), args: vec![] },
            MirInst::Store { dest: 0, value: MirValue::Local(1) },
        ],
        MirValue::Local(0),
    );
    let (errors, module) = run(vec![main]);
    assert!(errors.is_empty());
    assert_eq!(module.functions[0].basic_blocks[0].insts.len(), 3);
}
