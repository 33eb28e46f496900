//! The state of lowering one function: locals, the block being filled,
//! the blocks finished so far, and what the surrounding statements need.
use std::collections::HashMap;
use std::collections::HashSet;
use vstd::prelude::*;
use crate::ast::Expr;
use crate::lower::resolve::fields_view;
use crate::lower::types::{
    info_name, make_typeinfo_type, mir_type_to_kind, mir_type_to_size, mir_type_to_type_name,
    type_kind, type_size, typeinfo_model,
};
use crate::mir::{
    ConstModel, InstModel, MirBasicBlock, MirBinaryOp, MirConstant, MirInst, MirTerminator, MirType, MirValue,
    TypeModel, ValueModel, copy_type, insts_model, type_model, values_model,
};
use crate::name_table::NameTable;
use crate::text::{decimal, str_eq, u64_to_decimal};

verus! {

/// The per-function state of lowering.
pub struct LowerCtx {
    pub next_local: usize,
    /// The local slot of each variable in scope, by name.
    pub locals: NameTable<usize>,
    pub current_block: MirBasicBlock,
    pub blocks: Vec<MirBasicBlock>,
    pub block_counter: usize,
    /// Locals that hold strings owned by the function.
    pub string_locals: Vec<usize>,
    pub local_types: HashMap<usize, MirType>,
    pub break_targets: Vec<String>,
    pub continue_targets: Vec<String>,
    pub struct_defs: NameTable<Vec<(String, MirType)>>,
    pub tail_if_as_return: bool,
    pub match_result_local: Option<usize>,
    pub is_fallible: bool,
    pub return_type: MirType,
    /// Expressions whose lowering is deferred to the function's exits.
    pub deferred_exprs: Vec<Box<Expr>>,
    pub break_flag_local: Option<usize>,
    pub if_result_alloca: Option<usize>,
    pub last_stmt_was_if: bool,
    /// Locals that are mutable borrow parameters (`^&T`): reads and writes
    /// go through a pointer.
    pub ref_param_locals: HashSet<usize>,
}

/// The label of the block numbered `n`.
pub open spec fn block_label(n: nat) -> Seq<char> {
    "bb"@ + decimal(n)
}

/// The models of the types of locals.
pub open spec fn local_types_model(m: Map<usize, MirType>) -> Map<usize, TypeModel> {
    m.map_values(|t: MirType| t@)
}

/// The fields of the state that only the statements around an
/// expression change: the same in `a` and `b`.
pub open spec fn same_scope(a: LowerCtx, b: LowerCtx) -> bool {
    &&& a.locals == b.locals
    &&& a.break_targets == b.break_targets
    &&& a.continue_targets == b.continue_targets
    &&& a.struct_defs == b.struct_defs
    &&& a.tail_if_as_return == b.tail_if_as_return
    &&& a.match_result_local == b.match_result_local
    &&& a.is_fallible == b.is_fallible
    &&& a.return_type == b.return_type
    &&& a.deferred_exprs == b.deferred_exprs
    &&& a.break_flag_local == b.break_flag_local
    &&& a.if_result_alloca == b.if_result_alloca
    &&& a.last_stmt_was_if == b.last_stmt_was_if
    &&& a.ref_param_locals == b.ref_param_locals
}

/// Whether `value` is a local that already holds a `Result` struct.
pub open spec fn is_result_local(local_types: Map<usize, MirType>, value: MirValue) -> bool {
    match value {
        MirValue::Local(id) => local_types.contains_key(id) && match local_types[id] {
            MirType::Struct(name, _) => name@ == "Result"@,
            _ => false,
        },
        _ => false,
    }
}

/// Whether a returned value must be widened to 64 bits to become a result
/// payload: a local not known to hold an `i64`.
pub open spec fn needs_widening(local_types: Map<usize, MirType>, value: MirValue) -> bool {
    match value {
        MirValue::Local(id) => !(local_types.contains_key(id) && local_types[id] is I64),
        _ => false,
    }
}

/// The instructions that build a success result in local `n` (of type
/// `ret`) from `value`: discriminant 0 through a field pointer in `n + 1`,
/// the payload through a field pointer in `n + 2`, widened first through
/// local `n + 3` when `widen` holds.
pub open spec fn wrap_ok_insts(n: usize, ret: TypeModel, value: ValueModel, widen: bool) -> Seq<InstModel> {
    let head = seq![
        InstModel::Alloca { dest: n, type_: ret, name: "_ret"@ },
        InstModel::Alloca { dest: (n + 1) as usize, type_: TypeModel::I32, name: "_rsp"@ },
        InstModel::FieldPtr { dest: (n + 1) as usize, ptr: n, field_index: 0, struct_type: ret },
        InstModel::Store { dest: (n + 1) as usize, value: ValueModel::Constant(ConstModel::I32(0)) },
        InstModel::Alloca { dest: (n + 2) as usize, type_: TypeModel::I64, name: "_rpp"@ },
        InstModel::FieldPtr { dest: (n + 2) as usize, ptr: n, field_index: 1, struct_type: ret },
    ];
    if widen {
        head + seq![
            InstModel::Alloca { dest: (n + 3) as usize, type_: TypeModel::I64, name: "_rpv"@ },
            InstModel::Cast { dest: (n + 3) as usize, value, to_type: TypeModel::I64 },
            InstModel::Store { dest: (n + 2) as usize, value: ValueModel::Local((n + 3) as usize) },
        ]
    } else {
        head.push(InstModel::Store { dest: (n + 2) as usize, value })
    }
}

/// The type of a guard's value: the type recorded for its local, or `bool`.
pub open spec fn guard_type(local_types: Map<usize, MirType>, g: usize) -> MirType {
    if local_types.contains_key(g) {
        local_types[g]
    } else {
        MirType::Bool
    }
}

/// What turns a guard of type `t` held in local `g` into a boolean: a zero
/// of its type in local `n`, and `g != zero` in local `n + 1`.
pub open spec fn truthiness_insts(n: usize, g: usize, t: TypeModel) -> Seq<InstModel> {
    seq![
        InstModel::Alloca { dest: n, type_: t, name: "_zero"@ },
        InstModel::Store { dest: n, value: ValueModel::Constant(ConstModel::I32(0)) },
        InstModel::Alloca { dest: (n + 1) as usize, type_: TypeModel::Bool, name: "_gcmp"@ },
        InstModel::BinaryOp {
            dest: (n + 1) as usize,
            op: MirBinaryOp::Neq,
            left: ValueModel::Local(g),
            right: ValueModel::Local(n),
        },
    ]
}

impl LowerCtx {
    /// A fresh state: no locals, an empty `entry` block, no finished
    /// blocks, returning void.
    pub fn new() -> (r: Self)
        ensures
            r.next_local == 0,
            r.locals@ == Map::<Seq<char>, usize>::empty(),
            r.current_block.label@ == "entry"@,
            r.current_block.insts@.len() == 0,
            r.current_block.terminator is Unreachable,
            r.blocks@.len() == 0,
            r.block_counter == 0,
            r.string_locals@.len() == 0,
            r.local_types@ == Map::<usize, MirType>::empty(),
            r.break_targets@.len() == 0,
            r.continue_targets@.len() == 0,
            fields_view(&r.struct_defs) == Map::<Seq<char>, Seq<(Seq<char>, TypeModel)>>::empty(),
            !r.tail_if_as_return,
            r.match_result_local is None,
            !r.is_fallible,
            r.return_type@ == TypeModel::Void,
            r.deferred_exprs@.len() == 0,
            r.break_flag_local is None,
            r.if_result_alloca is None,
            !r.last_stmt_was_if,
            r.ref_param_locals@ == Set::<usize>::empty(),
    {
        let struct_defs: NameTable<Vec<(String, MirType)>> = NameTable::new();
        assert(fields_view(&struct_defs) =~= Map::empty());
        LowerCtx {
            next_local: 0,
            locals: NameTable::new(),
            current_block: MirBasicBlock::new("entry"),
            blocks: Vec::new(),
            block_counter: 0,
            string_locals: Vec::new(),
            local_types: HashMap::new(),
            break_targets: Vec::new(),
            continue_targets: Vec::new(),
            struct_defs,
            tail_if_as_return: false,
            match_result_local: None,
            is_fallible: false,
            return_type: MirType::Void,
            deferred_exprs: Vec::new(),
            break_flag_local: None,
            if_result_alloca: None,
            last_stmt_was_if: false,
            ref_param_locals: HashSet::new(),
        }
    }

    /// Append an instruction to the block being filled.
    fn emit(&mut self, inst: MirInst)
        ensures
            insts_model(final(self).current_block.insts@) == insts_model(
                old(self).current_block.insts@,
            ).push(inst@),
            final(self).current_block.label == old(self).current_block.label,
            final(self).current_block.terminator == old(self).current_block.terminator,
            final(self).next_local == old(self).next_local,
            final(self).blocks == old(self).blocks,
            final(self).block_counter == old(self).block_counter,
            final(self).string_locals == old(self).string_locals,
            final(self).local_types == old(self).local_types,
            same_scope(*old(self), *final(self)),
    {
        let ghost prev = self.current_block.insts@;
        self.current_block.insts.push(inst);
        assert(insts_model(self.current_block.insts@) =~= insts_model(prev).push(inst@));
    }

    /// Allocate a new local slot of the given type, named `name` in the
    /// MIR, and return its number.
    pub fn alloc_local(&mut self, name: &str, type_: MirType) -> (r: usize)
        requires
            old(self).next_local < usize::MAX,
        ensures
            r == old(self).next_local,
            final(self).next_local == r + 1,
            insts_model(final(self).current_block.insts@) == insts_model(
                old(self).current_block.insts@,
            ).push(InstModel::Alloca { dest: r, type_: type_@, name: name@ }),
            final(self).local_types@ == old(self).local_types@.insert(r, type_),
            final(self).current_block.label == old(self).current_block.label,
            final(self).current_block.terminator == old(self).current_block.terminator,
            final(self).blocks == old(self).blocks,
            final(self).block_counter == old(self).block_counter,
            final(self).string_locals == old(self).string_locals,
            same_scope(*old(self), *final(self)),
    {
        let id = self.next_local;
        self.next_local = self.next_local + 1;
        let t = copy_type(&type_);
        self.emit(MirInst::Alloca { dest: id, type_: t, name: String::from_str(name) });
        self.local_types.insert(id, type_);
        id
    }

    /// A label for a new block: `bb` and the next block number.
    pub fn fresh_block(&mut self) -> (r: String)
        requires
            old(self).block_counter < usize::MAX,
        ensures
            r@ == block_label(old(self).block_counter as nat),
            final(self).block_counter == old(self).block_counter + 1,
            final(self).next_local == old(self).next_local,
            final(self).current_block == old(self).current_block,
            final(self).blocks == old(self).blocks,
            final(self).string_locals == old(self).string_locals,
            final(self).local_types == old(self).local_types,
            same_scope(*old(self), *final(self)),
    {
        let mut label = String::from_str("bb");
        let digits = u64_to_decimal(self.block_counter as u64);
        label.append(digits.as_str());
        self.block_counter = self.block_counter + 1;
        label
    }

    /// End the block being filled with `terminator`, add it to the
    /// finished blocks, and start an empty block with a fresh label.
    pub fn finish_block(&mut self, terminator: MirTerminator)
        requires
            old(self).block_counter < usize::MAX,
        ensures
            final(self).blocks@ == old(self).blocks@.push(
                MirBasicBlock {
                    label: old(self).current_block.label,
                    insts: old(self).current_block.insts,
                    terminator,
                },
            ),
            final(self).current_block.label@ == block_label(old(self).block_counter as nat),
            final(self).current_block.insts@.len() == 0,
            final(self).current_block.terminator is Unreachable,
            final(self).block_counter == old(self).block_counter + 1,
            final(self).next_local == old(self).next_local,
            final(self).string_locals == old(self).string_locals,
            final(self).local_types == old(self).local_types,
            same_scope(*old(self), *final(self)),
    {
        self.current_block.terminator = terminator;
        let label = self.fresh_block();
        let mut block = MirBasicBlock::new(label.as_str());
        std::mem::swap(&mut block, &mut self.current_block);
        self.blocks.push(block);
    }

    /// Emit a return, wrapping the value in a success result struct if the
    /// function is fallible. Used by both explicit `return` statements and
    /// tail-expression returns.
    pub fn emit_return(&mut self, value: MirValue)
        requires
            old(self).next_local + 4 <= usize::MAX,
            old(self).block_counter < usize::MAX,
        ensures
            final(self).current_block.label@ == block_label(old(self).block_counter as nat),
            final(self).current_block.insts@.len() == 0,
            final(self).current_block.terminator is Unreachable,
            final(self).block_counter == old(self).block_counter + 1,
            final(self).string_locals == old(self).string_locals,
            same_scope(*old(self), *final(self)),
            !old(self).is_fallible || is_result_local(old(self).local_types@, value) ==> {
                &&& final(self).blocks@ == old(self).blocks@.push(
                    MirBasicBlock {
                        label: old(self).current_block.label,
                        insts: old(self).current_block.insts,
                        terminator: MirTerminator::Return(value),
                    },
                )
                &&& final(self).next_local == old(self).next_local
                &&& final(self).local_types == old(self).local_types
            },
            old(self).is_fallible && !is_result_local(old(self).local_types@, value) ==> {
                let n = old(self).next_local;
                let widen = needs_widening(old(self).local_types@, value);
                let ret = old(self).return_type@;
                let types = local_types_model(old(self).local_types@).insert(n, ret).insert(
                    (n + 1) as usize,
                    TypeModel::I32,
                ).insert((n + 2) as usize, TypeModel::I64);
                &&& final(self).blocks@.len() == old(self).blocks@.len() + 1
                &&& final(self).blocks@.drop_last() == old(self).blocks@
                &&& final(self).blocks@.last().label == old(self).current_block.label
                &&& insts_model(final(self).blocks@.last().insts@) == insts_model(
                    old(self).current_block.insts@,
                ) + wrap_ok_insts(n, ret, value@, widen)
                &&& final(self).blocks@.last().terminator == MirTerminator::Return(MirValue::Local(n))
                &&& final(self).next_local == if widen { n + 4 } else { n + 3 }
                &&& local_types_model(final(self).local_types@) == if widen {
                    types.insert((n + 3) as usize, TypeModel::I64)
                } else {
                    types
                }
            },
    {
        if !self.is_fallible {
            self.finish_block(MirTerminator::Return(value));
            return;
        }
        let is_result = match &value {
            MirValue::Local(id) => match self.local_types.get(id) {
                Some(MirType::Struct(name, _)) => str_eq(name.as_str(), "Result"),
                _ => false,
            },
            _ => false,
        };
        if is_result {
            self.finish_block(MirTerminator::Return(value));
            return;
        }
        let ghost old_insts = insts_model(self.current_block.insts@);
        let ghost old_types = local_types_model(self.local_types@);
        let ghost ret = self.return_type@;
        let ghost n = self.next_local;
        let widen = match &value {
            MirValue::Local(id) => match self.local_types.get(id) {
                Some(t) => !matches!(t, MirType::I64),
                None => true,
            },
            _ => false,
        };
        let result_struct = copy_type(&self.return_type);
        let result_local = self.alloc_local("_ret", copy_type(&result_struct));
        let disc_ptr = self.alloc_local("_rsp", MirType::I32);
        self.emit(
            MirInst::FieldPtr {
                dest: disc_ptr,
                ptr: result_local,
                field_index: 0,
                struct_type: Box::new(copy_type(&result_struct)),
            },
        );
        self.emit(MirInst::Store { dest: disc_ptr, value: MirValue::Constant(MirConstant::I32(0)) });
        let payload_ptr = self.alloc_local("_rpp", MirType::I64);
        self.emit(
            MirInst::FieldPtr {
                dest: payload_ptr,
                ptr: result_local,
                field_index: 1,
                struct_type: Box::new(copy_type(&result_struct)),
            },
        );
        let ghost value_model = value@;
        let widened = if widen {
            let cast = self.alloc_local("_rpv", MirType::I64);
            self.emit(MirInst::Cast { dest: cast, value, to_type: MirType::I64 });
            MirValue::Local(cast)
        } else {
            value
        };
        self.emit(MirInst::Store { dest: payload_ptr, value: widened });
        proof {
            let types = old_types.insert(n, ret).insert((n + 1) as usize, TypeModel::I32).insert(
                (n + 2) as usize,
                TypeModel::I64,
            );
            if widen {
                assert(local_types_model(self.local_types@) =~= types.insert((n + 3) as usize, TypeModel::I64));
            } else {
                assert(local_types_model(self.local_types@) =~= types);
            }
            assert(insts_model(self.current_block.insts@) =~= old_insts + wrap_ok_insts(n, ret, value_model, widen));
        }
        self.finish_block(MirTerminator::Return(MirValue::Local(result_local)));
    }

    /// One step into a nested array: with the index of this level just
    /// lowered into local `idx`, point at the element of the array that
    /// `ptr` points to, whose type is `cur`. Returns the element pointer and
    /// the element type; a `cur` that is not an array is left as it is.
    pub fn array_elem_step(&mut self, ptr: usize, cur: &MirType, idx: usize) -> (r: (usize, MirType))
        requires
            old(self).next_local < usize::MAX,
        ensures
            same_scope(*old(self), *final(self)),
            final(self).blocks == old(self).blocks,
            final(self).block_counter == old(self).block_counter,
            final(self).current_block.label == old(self).current_block.label,
            final(self).current_block.terminator == old(self).current_block.terminator,
            final(self).string_locals == old(self).string_locals,
            match cur@ {
                TypeModel::Array(inner, _) => {
                    let n = old(self).next_local;
                    &&& r.0 == n
                    &&& r.1@ == *inner
                    &&& final(self).next_local == n + 1
                    &&& insts_model(final(self).current_block.insts@) == insts_model(old(self).current_block.insts@)
                        + seq![
                        InstModel::Alloca { dest: n, type_: TypeModel::Ptr(Box::new(TypeModel::I8)), name: "_nested_aep"@ },
                        InstModel::ArrayElemPtr {
                            dest: n,
                            ptr,
                            index: ValueModel::Local(idx),
                            arr_type: cur@,
                            elem_type: *inner,
                        },
                    ]
                    &&& local_types_model(final(self).local_types@) == local_types_model(old(self).local_types@).insert(
                        n,
                        TypeModel::Ptr(Box::new(TypeModel::I8)),
                    )
                },
                _ => {
                    &&& r.0 == ptr
                    &&& r.1@ == cur@
                    &&& final(self).next_local == old(self).next_local
                    &&& final(self).current_block.insts == old(self).current_block.insts
                    &&& final(self).local_types == old(self).local_types
                },
            },
    {
        match cur {
            MirType::Array(inner, _) => {
                let ghost old_insts = insts_model(self.current_block.insts@);
                let ghost old_types = local_types_model(self.local_types@);
                let pt = MirType::Ptr(Box::new(MirType::I8));
                assert(type_model(MirType::I8) == TypeModel::I8);
                assert(pt@ == TypeModel::Ptr(Box::new(TypeModel::I8)));
                let elem_ptr = self.alloc_local("_nested_aep", pt);
                self.emit(
                    MirInst::ArrayElemPtr {
                        dest: elem_ptr,
                        ptr,
                        index: MirValue::Local(idx),
                        arr_type: Box::new(copy_type(cur)),
                        elem_type: Box::new(copy_type(inner)),
                    },
                );
                proof {
                    assert(insts_model(self.current_block.insts@) =~= old_insts + seq![
                        InstModel::Alloca { dest: elem_ptr, type_: TypeModel::Ptr(Box::new(TypeModel::I8)), name: "_nested_aep"@ },
                        InstModel::ArrayElemPtr {
                            dest: elem_ptr,
                            ptr,
                            index: ValueModel::Local(idx),
                            arr_type: cur@,
                            elem_type: (**inner)@,
                        },
                    ]);
                    assert(local_types_model(self.local_types@) =~= old_types.insert(
                        elem_ptr,
                        TypeModel::Ptr(Box::new(TypeModel::I8)),
                    ));
                }
                (elem_ptr, copy_type(inner))
            },
            _ => (ptr, copy_type(cur)),
        }
    }

    /// Branch on the value of a match guard that has just been lowered:
    /// to `true_block` if it holds, else to `false_block`. The guard's
    /// value is the last local allocated since `prev_next`; a guard that
    /// gave no value leaves the state as it is. A guard that is not a
    /// boolean holds when it differs from zero.
    pub fn branch_on_guard(&mut self, prev_next: usize, true_block: &str, false_block: &str)
        requires
            old(self).next_local + 2 <= usize::MAX,
            old(self).block_counter < usize::MAX,
        ensures
            old(self).next_local <= prev_next ==> *final(self) == *old(self),
            old(self).next_local > prev_next ==> {
                let g = (old(self).next_local - 1) as usize;
                let n = old(self).next_local;
                let t = guard_type(old(self).local_types@, g);
                let is_bool = t is Bool;
                let last = final(self).blocks@.last();
                &&& final(self).blocks@.len() == old(self).blocks@.len() + 1
                &&& final(self).blocks@.drop_last() == old(self).blocks@
                &&& last.label == old(self).current_block.label
                &&& last.terminator matches MirTerminator::CondBr { cond, true_block: tb, false_block: fb }
                    && tb@ == true_block@ && fb@ == false_block@ && cond == MirValue::Local(
                    if is_bool { g } else { (n + 1) as usize },
                )
                &&& insts_model(last.insts@) == insts_model(old(self).current_block.insts@) + (if is_bool {
                    Seq::<InstModel>::empty()
                } else {
                    truthiness_insts(n, g, t@)
                })
                &&& final(self).next_local == (if is_bool { n } else { (n + 2) as usize })
                &&& local_types_model(final(self).local_types@) == (if is_bool {
                    local_types_model(old(self).local_types@)
                } else {
                    local_types_model(old(self).local_types@).insert(n, t@).insert((n + 1) as usize, TypeModel::Bool)
                })
                &&& final(self).current_block.label@ == block_label(old(self).block_counter as nat)
                &&& final(self).current_block.insts@.len() == 0
                &&& final(self).current_block.terminator is Unreachable
                &&& final(self).block_counter == old(self).block_counter + 1
                &&& final(self).string_locals == old(self).string_locals
                &&& same_scope(*old(self), *final(self))
            },
    {
        if self.next_local <= prev_next {
            // The guard gave no value: nothing to branch on.
            return;
        }
        let ghost old_insts = insts_model(self.current_block.insts@);
        let ghost old_types = local_types_model(self.local_types@);
        let g = self.next_local - 1;
        let is_bool = match self.local_types.get(&g) {
            Some(t) => match t {
                MirType::Bool => true,
                _ => false,
            },
            None => true,
        };
        let cond = if is_bool {
            MirValue::Local(g)
        } else {
            let t = match self.local_types.get(&g) {
                Some(t) => copy_type(t),
                None => MirType::Bool,
            };
            let zero = self.alloc_local("_zero", t);
            self.emit(MirInst::Store { dest: zero, value: MirValue::Constant(MirConstant::I32(0)) });
            let ne = self.alloc_local("_gcmp", MirType::Bool);
            self.emit(
                MirInst::BinaryOp {
                    dest: ne,
                    op: MirBinaryOp::Neq,
                    left: MirValue::Local(g),
                    right: MirValue::Local(zero),
                },
            );
            proof {
                assert(insts_model(self.current_block.insts@) =~= old_insts + truthiness_insts(
                    zero,
                    g,
                    guard_type(old(self).local_types@, g)@,
                ));
                assert(local_types_model(self.local_types@) =~= old_types.insert(
                    zero,
                    guard_type(old(self).local_types@, g)@,
                ).insert(ne, TypeModel::Bool));
            }
            MirValue::Local(ne)
        };
        proof {
            if is_bool {
                assert(insts_model(self.current_block.insts@) =~= old_insts + Seq::<InstModel>::empty());
            }
        }
        self.finish_block(
            MirTerminator::CondBr {
                cond,
                true_block: String::from_str(true_block),
                false_block: String::from_str(false_block),
            },
        );
        proof {
            assert(self.blocks@.drop_last() =~= old(self).blocks@);
        }
    }
}

} // verus!

verus! {

/// The instructions that build a `TypeInfo` value for type `t` from local
/// `n` on: the struct in `n`, the name and kind strings cloned from
/// constants into `n + 4` and `n + 7`, stored with the size through field
/// pointers, and the struct loaded into `n + 10`.
pub open spec fn typeinfo_insts(n: usize, t: TypeModel) -> Seq<InstModel> {
    let st = typeinfo_model();
    seq![
        InstModel::Alloca { dest: n, type_: st, name: "_ti"@ },
        InstModel::Alloca { dest: (n + 1) as usize, type_: TypeModel::Str, name: "_tin"@ },
        InstModel::Alloca { dest: (n + 2) as usize, type_: TypeModel::Str, name: "_tik"@ },
        InstModel::Alloca { dest: (n + 3) as usize, type_: TypeModel::Str, name: "_tiname"@ },
        InstModel::Store {
            dest: (n + 3) as usize,
            value: ValueModel::Constant(ConstModel::String(info_name(t))),
        },
        InstModel::Alloca { dest: (n + 4) as usize, type_: TypeModel::Str, name: "_tistr"@ },
        InstModel::Call {
            dest: Some((n + 4) as usize),
            name: "ky_clone_str"@,
            args: seq![ValueModel::Local((n + 3) as usize)],
        },
        InstModel::Alloca { dest: (n + 5) as usize, type_: TypeModel::I64, name: "_tif0"@ },
        InstModel::FieldPtr { dest: (n + 5) as usize, ptr: n, field_index: 0, struct_type: st },
        InstModel::Store { dest: (n + 5) as usize, value: ValueModel::Local((n + 4) as usize) },
        InstModel::Alloca { dest: (n + 6) as usize, type_: TypeModel::Str, name: "_tikind"@ },
        InstModel::Store {
            dest: (n + 6) as usize,
            value: ValueModel::Constant(ConstModel::String(type_kind(t))),
        },
        InstModel::Alloca { dest: (n + 7) as usize, type_: TypeModel::Str, name: "_tikstr"@ },
        InstModel::Call {
            dest: Some((n + 7) as usize),
            name: "ky_clone_str"@,
            args: seq![ValueModel::Local((n + 6) as usize)],
        },
        InstModel::Alloca { dest: (n + 8) as usize, type_: TypeModel::I64, name: "_tif1"@ },
        InstModel::FieldPtr { dest: (n + 8) as usize, ptr: n, field_index: 1, struct_type: st },
        InstModel::Store { dest: (n + 8) as usize, value: ValueModel::Local((n + 7) as usize) },
        InstModel::Alloca { dest: (n + 9) as usize, type_: TypeModel::I64, name: "_tif2"@ },
        InstModel::FieldPtr { dest: (n + 9) as usize, ptr: n, field_index: 2, struct_type: st },
        InstModel::Store {
            dest: (n + 9) as usize,
            value: ValueModel::Constant(ConstModel::I32(type_size(t) as i32)),
        },
        InstModel::Alloca { dest: (n + 10) as usize, type_: st, name: "_tires"@ },
        InstModel::Load { dest: (n + 10) as usize, src: n },
    ]
}

/// The types of the locals that building a `TypeInfo` value allocates
/// from local `n` on.
pub open spec fn typeinfo_local_types(types: Map<usize, TypeModel>, n: usize) -> Map<usize, TypeModel> {
    let st = typeinfo_model();
    types.insert(n, st).insert((n + 1) as usize, TypeModel::Str).insert((n + 2) as usize, TypeModel::Str).insert(
        (n + 3) as usize,
        TypeModel::Str,
    ).insert((n + 4) as usize, TypeModel::Str).insert((n + 5) as usize, TypeModel::I64).insert(
        (n + 6) as usize,
        TypeModel::Str,
    ).insert((n + 7) as usize, TypeModel::Str).insert((n + 8) as usize, TypeModel::I64).insert(
        (n + 9) as usize,
        TypeModel::I64,
    ).insert((n + 10) as usize, st)
}

/// A call of `ky_clone_str` on a local, into `dest`.
fn clone_str_call(dest: usize, src: usize) -> (r: MirInst)
    ensures
        r@ == (InstModel::Call {
            dest: Some(dest),
            name: "ky_clone_str"@,
            args: seq![ValueModel::Local(src)],
        }),
{
    let args = vec![MirValue::Local(src)];
    assert(values_model(args@) =~= seq![ValueModel::Local(src)]);
    MirInst::Call { dest: Some(dest), name: String::from_str("ky_clone_str"), args }
}

/// Build a `TypeInfo` struct value for a type: allocate its locals, store
/// its name, kind and size, and load the struct into the last local.
#[verifier::spinoff_prover]
#[verifier::rlimit(60)]
pub fn build_typeinfo_struct(mir_type: &MirType, ctx: &mut LowerCtx)
    requires
        type_size(mir_type@) <= i32::MAX,
        old(ctx).next_local + 11 <= usize::MAX,
    ensures
        ({
            let n = old(ctx).next_local;
            &&& final(ctx).next_local == n + 11
            &&& insts_model(final(ctx).current_block.insts@) == insts_model(old(ctx).current_block.insts@)
                + typeinfo_insts(n, mir_type@)
            &&& final(ctx).string_locals@ == old(ctx).string_locals@ + seq![
                (n + 1) as usize,
                (n + 2) as usize,
                (n + 4) as usize,
                (n + 7) as usize,
            ]
            &&& local_types_model(final(ctx).local_types@) == typeinfo_local_types(
                local_types_model(old(ctx).local_types@),
                n,
            )
        }),
        final(ctx).current_block.label == old(ctx).current_block.label,
        final(ctx).current_block.terminator == old(ctx).current_block.terminator,
        final(ctx).blocks == old(ctx).blocks,
        final(ctx).block_counter == old(ctx).block_counter,
        same_scope(*old(ctx), *final(ctx)),
{
    let ghost n = ctx.next_local;
    let ghost old_insts = insts_model(ctx.current_block.insts@);
    let ghost old_types = local_types_model(ctx.local_types@);
    let ghost old_strings = ctx.string_locals@;
    let name_text = mir_type_to_type_name(mir_type);
    let type_kind_text = mir_type_to_kind(mir_type);
    let type_size_value = mir_type_to_size(mir_type);
    let struct_type = make_typeinfo_type();

    let struct_local = ctx.alloc_local("_ti", copy_type(&struct_type));
    let tin = ctx.alloc_local("_tin", MirType::Str);
    let tik = ctx.alloc_local("_tik", MirType::Str);
    ctx.string_locals.push(tin);
    ctx.string_locals.push(tik);

    let name_const = ctx.alloc_local("_tiname", MirType::Str);
    ctx.emit(MirInst::Store {
        dest: name_const,
        value: MirValue::Constant(MirConstant::String(name_text)),
    });
    let name_str = ctx.alloc_local("_tistr", MirType::Str);
    ctx.string_locals.push(name_str);
    ctx.emit(clone_str_call(name_str, name_const));
    let f0 = ctx.alloc_local("_tif0", MirType::I64);
    ctx.emit(MirInst::FieldPtr {
        dest: f0,
        ptr: struct_local,
        field_index: 0,
        struct_type: Box::new(copy_type(&struct_type)),
    });
    ctx.emit(MirInst::Store { dest: f0, value: MirValue::Local(name_str) });

    let kind_const = ctx.alloc_local("_tikind", MirType::Str);
    ctx.emit(MirInst::Store {
        dest: kind_const,
        value: MirValue::Constant(MirConstant::String(type_kind_text)),
    });
    let kind_str = ctx.alloc_local("_tikstr", MirType::Str);
    ctx.string_locals.push(kind_str);
    ctx.emit(clone_str_call(kind_str, kind_const));
    let f1 = ctx.alloc_local("_tif1", MirType::I64);
    ctx.emit(MirInst::FieldPtr {
        dest: f1,
        ptr: struct_local,
        field_index: 1,
        struct_type: Box::new(copy_type(&struct_type)),
    });
    ctx.emit(MirInst::Store { dest: f1, value: MirValue::Local(kind_str) });

    let f2 = ctx.alloc_local("_tif2", MirType::I64);
    ctx.emit(MirInst::FieldPtr {
        dest: f2,
        ptr: struct_local,
        field_index: 2,
        struct_type: Box::new(copy_type(&struct_type)),
    });
    ctx.emit(MirInst::Store {
        dest: f2,
        value: MirValue::Constant(MirConstant::I32(type_size_value)),
    });

    let load = ctx.alloc_local("_tires", struct_type);
    ctx.emit(MirInst::Load { dest: load, src: struct_local });
    proof {
        assert(insts_model(ctx.current_block.insts@) =~= old_insts + typeinfo_insts(n, mir_type@));
        assert(ctx.string_locals@ =~= old_strings + seq![
            (n + 1) as usize,
            (n + 2) as usize,
            (n + 4) as usize,
            (n + 7) as usize,
        ]);
        assert(local_types_model(ctx.local_types@) =~= typeinfo_local_types(old_types, n));
    }
}

} // verus!
