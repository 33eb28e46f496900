//! Borrow / ownership analysis over MIR.
//!
//! Copy types (integers, floats, booleans, characters, pointers, arrays,
//! structs) are passed by value and not tracked. Move types (strings,
//! collections, boxes, channels, byte buffers) have a single owner: the
//! pass reports uses of a moved value and conflicting borrows, and inserts
//! free calls for owned values at the end of the block where their scope
//! ends and before a store that overwrites a local still owning a value.
use vstd::prelude::*;
use std::collections::HashMap;
use std::collections::VecDeque;
use crate::ast::ParamMode;
use crate::local_set::LocalSet;
use crate::mir::{
    MirBasicBlock, MirFunction, MirInst, MirModule, MirTerminator, MirType, MirValue, is_move_type,
};
use crate::collect::{
    build_local_names, build_local_types, collect_casts, collect_loads, collect_owned_allocas,
    collect_picked, deref_names, deref_types, local_has_move_type,
};
use crate::dataflow::{all_wf, as_ints, compute_alive_in, consume_local, flow_facts, terminator_successors};
use crate::ownership::{
    BorrowState, CallState, CheckFacts, CheckState, Pick, analysed, args_fit, block_frees,
    block_live_in, module_errors, processed, block_run, check_facts, check_insts, entry_alive,
    errors_upto, flat, free_name, function_errors, move_locals, never_freed, types_of, borrow_name,
    borrow_of, borrow_origins, check_arg, check_args, check_inst, check_value, consume,
    has_move_type, imm_while_mut_msg, is_ptr_write_name, mode_at, module_modes, modes_lookup,
    move_name, mut_while_imm_msg, mut_while_mut_msg, origin, use_after_move_msg, frees_before,
    is_named_free, overwrites, pre_view, stored, live_in_any, successors, allocated, fresh,
    maybe_unwritten, unwritten_upto, write_dest,
};
use crate::text::{str_eq, u64_to_decimal};

verus! {

broadcast use vstd::std_specs::hash::group_hash_axioms;

/// The analysis: it accumulates its reports across functions.
pub struct BorrowAnalysis {
    errors: Vec<String>,
}

impl View for BorrowAnalysis {
    type V = Seq<Seq<char>>;

    closed spec fn view(&self) -> Seq<Seq<char>> {
        self.errors@.map_values(|s: String| s@)
    }
}

/// Parameter modes of the module's functions, by name.
pub struct FuncModes {
    entries: Vec<(String, Vec<ParamMode>)>,
}

impl View for FuncModes {
    type V = Seq<(Seq<char>, Seq<ParamMode>)>;

    closed spec fn view(&self) -> Seq<(Seq<char>, Seq<ParamMode>)> {
        self.entries@.map_values(|e: (String, Vec<ParamMode>)| (e.0@, e.1@))
    }
}

fn copy_modes(m: &Vec<ParamMode>) -> (r: Vec<ParamMode>)
    ensures
        r@ == m@,
{
    let mut out: Vec<ParamMode> = Vec::new();
    let mut i: usize = 0;
    while i < m.len()
        invariant
            i <= m@.len(),
            out@ == m@.take(i as int),
        decreases m@.len() - i,
    {
        out.push(m[i]);
        i = i + 1;
        assert(out@ =~= m@.take(i as int));
    }
    assert(m@.take(i as int) =~= m@);
    out
}

impl FuncModes {
    /// Name and parameter modes of every function of the module.
    pub fn of_functions(funcs: &Vec<MirFunction>) -> (r: Self)
        ensures
            r@ == module_modes(funcs@),
    {
        let mut entries: Vec<(String, Vec<ParamMode>)> = Vec::new();
        let mut i: usize = 0;
        while i < funcs.len()
            invariant
                i <= funcs@.len(),
                entries@.map_values(|e: (String, Vec<ParamMode>)| (e.0@, e.1@)) == module_modes(
                    funcs@.take(i as int),
                ),
            decreases funcs@.len() - i,
        {
            let ghost old_entries = entries@;
            entries.push((funcs[i].name.clone(), copy_modes(&funcs[i].param_modes)));
            proof {
                assert(entries@.map_values(|e: (String, Vec<ParamMode>)| (e.0@, e.1@)) =~= old_entries.map_values(
                    |e: (String, Vec<ParamMode>)| (e.0@, e.1@),
                ).push((funcs@[i as int].name@, funcs@[i as int].param_modes@)));
                assert(module_modes(funcs@.take(i + 1)) =~= module_modes(funcs@.take(i as int)).push(
                    (funcs@[i as int].name@, funcs@[i as int].param_modes@),
                ));
            }
            i = i + 1;
        }
        assert(funcs@.take(i as int) =~= funcs@);
        FuncModes { entries }
    }

    /// Modes of the last function called `name`.
    pub fn lookup(&self, name: &String) -> (r: Option<&Vec<ParamMode>>)
        ensures
            match r {
                Some(v) => modes_lookup(self@, name@) == Some(v@),
                None => modes_lookup(self@, name@) is None,
            },
    {
        let mut k: usize = self.entries.len();
        assert(self@.take(k as int) =~= self@);
        while k > 0
            invariant
                k <= self.entries@.len(),
                modes_lookup(self@, name@) == modes_lookup(self@.take(k as int), name@),
            decreases k,
        {
            let ghost pre = self@.take(k as int);
            assert(pre.drop_last() =~= self@.take(k - 1));
            if self.entries[k - 1].0 == *name {
                return Some(&self.entries[k - 1].1);
            }
            k = k - 1;
        }
        None
    }
}

/// Runtime functions that return a freshly heap-allocated value.
pub open spec fn alloc_func(name: Seq<char>) -> bool {
    ||| name == "ky_alloc"@
    ||| name == "ky_concat"@
    ||| name == "ky_list_new"@
    ||| name == "ky_list_copy"@
    ||| name == "ky_dict_new"@
    ||| name == "ky_dict_copy"@
    ||| name == "ky_array_new"@
    ||| name == "ky_array_copy"@
    ||| name == "ky_string_add"@
    ||| name == "ky_str_repeat"@
    ||| name == "ky_str_replace"@
    ||| name == "ky_substr"@
    ||| name == "ky_i64_to_str"@
    ||| name == "ky_str_to_upper"@
    ||| name == "ky_str_to_lower"@
    ||| name == "ky_str_trim"@
    ||| name == "ky_clone_str"@
    ||| name == "ky_clone_list"@
    ||| name == "ky_clone_dict"@
    ||| name == "ky_list_map"@
    ||| name == "ky_list_filter"@
    ||| name == "ky_iter_new"@
    ||| name == "ky_iter_map"@
    ||| name == "ky_iter_filter"@
    ||| name == "ky_iter_collect"@
}

/// Returns true if this runtime function creates a heap-allocated value.
/// Used by the code generator to decide which call results to manage.
pub fn is_alloc_func(name: &str) -> (r: bool)
    ensures
        r == alloc_func(name@),
{
    str_eq(name, "ky_alloc") || str_eq(name, "ky_concat") || str_eq(name, "ky_list_new")
        || str_eq(name, "ky_list_copy") || str_eq(name, "ky_dict_new") || str_eq(name, "ky_dict_copy")
        || str_eq(name, "ky_array_new") || str_eq(name, "ky_array_copy") || str_eq(name, "ky_string_add")
        || str_eq(name, "ky_str_repeat") || str_eq(name, "ky_str_replace") || str_eq(name, "ky_substr")
        || str_eq(name, "ky_i64_to_str") || str_eq(name, "ky_str_to_upper") || str_eq(name, "ky_str_to_lower")
        || str_eq(name, "ky_str_trim") || str_eq(name, "ky_clone_str") || str_eq(name, "ky_clone_list")
        || str_eq(name, "ky_clone_dict") || str_eq(name, "ky_list_map") || str_eq(name, "ky_list_filter")
        || str_eq(name, "ky_iter_new") || str_eq(name, "ky_iter_map") || str_eq(name, "ky_iter_filter")
        || str_eq(name, "ky_iter_collect")
}

/// Whether a function with these modes takes any argument by move.
pub open spec fn has_move_param(modes: Seq<ParamMode>) -> bool {
    exists|i: int| 0 <= i < modes.len() && modes[i] == ParamMode::Move
}

fn any_move(modes: &Vec<ParamMode>) -> (r: bool)
    ensures
        r == has_move_param(modes@),
{
    let mut i: usize = 0;
    while i < modes.len()
        invariant
            i <= modes@.len(),
            forall|j: int| 0 <= j < i ==> modes@[j] != ParamMode::Move,
        decreases modes@.len() - i,
    {
        if modes[i] == ParamMode::Move {
            return true;
        }
        i = i + 1;
    }
    false
}

/// Returns true if the first function of `funcs` called `name` takes some
/// argument by move. Unknown functions borrow their arguments.
pub fn is_move_func(name: &str, funcs: &Vec<MirFunction>) -> (r: bool)
    ensures
        r == exists|i: int|
            0 <= i < funcs@.len() && funcs@[i].name@ == name@ && (forall|j: int|
                0 <= j < i ==> funcs@[j].name@ != name@) && has_move_param(funcs@[i].param_modes@),
{
    let mut i: usize = 0;
    while i < funcs.len()
        invariant
            i <= funcs@.len(),
            forall|j: int| 0 <= j < i ==> funcs@[j].name@ != name@,
        decreases funcs@.len() - i,
    {
        if str_eq(funcs[i].name.as_str(), name) {
            let r = any_move(&funcs[i].param_modes);
            proof {
                assert forall|k: int|
                    0 <= k < funcs@.len() && funcs@[k].name@ == name@ && (forall|j: int|
                        0 <= j < k ==> funcs@[j].name@ != name@) implies k == i by {
                    if k < i {
                    } else if k > i {
                        assert(funcs@[i as int].name@ == name@);
                    }
                }
            }
            return r;
        }
        i = i + 1;
    }
    false
}

/// Returns true if the function called `name` takes some argument by move.
pub fn is_move_func_from_map(name: &String, func_map: &FuncModes) -> (r: bool)
    ensures
        r == match modes_lookup(func_map@, name@) {
            Some(m) => has_move_param(m),
            None => false,
        },
{
    match func_map.lookup(name) {
        Some(m) => any_move(m),
        None => false,
    }
}

/// Returns true if parameter `idx` of the function called `name` is a
/// mutable borrow.
pub fn is_mut_borrow_param(name: &String, idx: usize, func_map: &FuncModes) -> (r: bool)
    ensures
        r == (mode_at(modes_lookup(func_map@, name@), idx as int) == Some(ParamMode::MutableBorrow)),
{
    match func_map.lookup(name) {
        Some(m) => idx < m.len() && m[idx] == ParamMode::MutableBorrow,
        None => false,
    }
}

/// Every call of the blocks has fewer arguments than a borrow counter can count.
pub open spec fn calls_fit(blocks: Seq<MirBasicBlock>) -> bool {
    forall|b: int, i: int|
        0 <= b < blocks.len() && 0 <= i < blocks[b].insts@.len() ==> args_fit(
            #[trigger] blocks[b].insts@[i],
        )
}

/// The runtime function that frees a value of the local's type.
fn free_func(local_types: &HashMap<usize, &MirType>, l: usize) -> (r: &'static str)
    ensures
        r@ == free_name(deref_types(local_types@), l),
{
    match local_types.get(&l) {
        Some(MirType::List(_)) => "ky_list_free",
        Some(MirType::Dict(_, _)) => "ky_dict_free",
        Some(MirType::SetOf(_)) => "ky_set_free",
        Some(MirType::Queue(_)) => "ky_queue_free",
        Some(MirType::Stack(_)) => "ky_stack_free",
        Some(MirType::Deque(_)) => "ky_deque_free",
        Some(MirType::LinkedList(_)) => "ky_linked_list_free",
        Some(MirType::Chan(_)) => "ky_channel_free",
        _ => "ky_free",
    }
}

/// The locals the analysis tracks: owned allocas of move types, excluding
/// string-constant slots and references borrowed from lists and dicts.
pub fn find_move_locals(blocks: &Vec<MirBasicBlock>) -> (r: LocalSet)
    ensures
        r.wf(),
        r@ == move_locals(flat(blocks@)),
{
    let get_results = collect_picked(blocks, Pick::GetCall);
    let cast_from_get = collect_casts(blocks, &get_results);
    let mut exclude = get_results.copy();
    exclude.extend(&cast_from_get);
    collect_owned_allocas(blocks, &exclude)
}

/// Locals never freed at a return.
fn never_freed_set(blocks: &Vec<MirBasicBlock>, local_types: &HashMap<usize, &MirType>) -> (r: LocalSet)
    requires
        deref_types(local_types@) == types_of(flat(blocks@)),
    ensures
        r.wf(),
        r@ == never_freed(blocks@),
{
    let param_locals = collect_picked(blocks, Pick::ParamStore);
    let load_only = collect_picked(blocks, Pick::LoadDest);
    let string_literals = collect_picked(blocks, Pick::StringStore);
    let field_ptrs = collect_picked(blocks, Pick::FieldPtrDest);
    let (_load_map, load_sources, field_loaded) = collect_loads(blocks, local_types, &field_ptrs);
    let get_results = collect_picked(blocks, Pick::GetCall);
    let cast_from_get = collect_casts(blocks, &get_results);
    let clone_results = collect_picked(blocks, Pick::CloneCall);
    let ref_deref_results = collect_picked(blocks, Pick::RefDerefCall);
    let mut keep = param_locals;
    keep.extend(&load_only);
    keep.extend(&load_sources);
    keep.extend(&string_literals);
    keep.extend(&field_loaded);
    keep.extend(&get_results);
    keep.extend(&cast_from_get);
    keep.extend(&clone_results);
    keep.extend(&ref_deref_results);
    assert(keep@ =~= never_freed(blocks@));
    keep
}

/// Members of `alive`, in increasing order, that are not in `keep`.
fn members_outside(alive: &LocalSet, keep: &LocalSet) -> (r: Vec<usize>)
    requires
        alive.wf(),
        keep.wf(),
    ensures
        r@.to_set() == alive@.difference(keep@),
        forall|i: int, j: int| 0 <= i < j < r@.len() ==> r@[i] < r@[j],
{
    let items = alive.members();
    proof {
        alive.lemma_ordered();
    }
    let mut out: Vec<usize> = Vec::new();
    let mut i: usize = 0;
    while i < items.len()
        invariant
            alive.wf(),
            keep.wf(),
            items@ == alive.ordered(),
            forall|a: int, b: int| 0 <= a < b < items@.len() ==> items@[a] < items@[b],
            i <= items@.len(),
            forall|a: int, b: int| 0 <= a < b < out@.len() ==> out@[a] < out@[b],
            out@.len() > 0 ==> i > 0 && out@.last() <= items@[i - 1],
            forall|y: usize| out@.contains(y) <==> (items@.take(i as int).contains(y) && !keep@.contains(y)),
        decreases items@.len() - i,
    {
        let x = items[i];
        let ghost old_out = out@;
        proof {
            assert(items@.take(i + 1) =~= items@.take(i as int).push(x));
        }
        if !keep.contains(x) {
            out.push(x);
            proof {
                if old_out.len() > 0 {
                    assert(items@[i - 1] < items@[i as int]);
                }
                assert forall|a: int, b: int| 0 <= a < b < out@.len() implies out@[a] < out@[b] by {
                    if b == out@.len() - 1 && a < old_out.len() {
                        assert(old_out[a] <= old_out.last());
                    }
                }
            }
        }
        proof {
            let t1 = items@.take(i + 1);
            let t0 = items@.take(i as int);
            assert forall|y: usize| out@.contains(y) <==> (t1.contains(y) && !keep@.contains(y)) by {
                if out@.contains(y) {
                    let k = choose|k: int| 0 <= k < out@.len() && out@[k] == y;
                    if k < old_out.len() {
                        assert(old_out[k] == y);
                        assert(old_out.contains(y));
                        let j = choose|j: int| 0 <= j < t0.len() && t0[j] == y;
                        assert(t1[j] == y);
                    } else {
                        assert(t1[i as int] == y);
                    }
                }
                if t1.contains(y) && !keep@.contains(y) {
                    let j = choose|j: int| 0 <= j < t1.len() && t1[j] == y;
                    if j < i {
                        assert(t0[j] == y);
                        assert(old_out.contains(y));
                        let k = choose|k: int| 0 <= k < old_out.len() && old_out[k] == y;
                        assert(out@[k] == y);
                    } else {
                        assert(out@[out@.len() - 1] == y);
                    }
                }
            }
        }
        i = i + 1;
    }
    proof {
        assert(items@.take(i as int) =~= items@);
        assert(out@.to_set() =~= alive@.difference(keep@));
    }
    out
}

/// The end-of-block part of a rebuilt block: `after` is `g` followed by
/// the free calls of `list`.
pub open spec fn ends_with_frees(g: Seq<MirInst>, after: Seq<MirInst>, list: Seq<(usize, String)>) -> bool {
    &&& after.len() == g.len() + list.len()
    &&& after.take(g.len() as int) == g
    &&& forall|k: int|
        0 <= k < list.len() ==> is_named_free(#[trigger] after[g.len() + k], list[k].0, list[k].1@)
}

/// Rebuild each block: a free call before each instruction that `pres`
/// marks, and the free calls of `frees` at its end.
fn insert_frees(
    blocks: &mut Vec<MirBasicBlock>,
    frees: &Vec<Vec<(usize, String)>>,
    pres: &Vec<Vec<Option<(usize, String)>>>,
)
    requires
        frees@.len() == old(blocks)@.len(),
        pres@.len() == old(blocks)@.len(),
        forall|b: int| 0 <= b < old(blocks)@.len() ==> (#[trigger] pres@[b])@.len() == old(blocks)@[b].insts@.len(),
    ensures
        final(blocks)@.len() == old(blocks)@.len(),
        forall|b: int|
            0 <= b < old(blocks)@.len() ==> {
                &&& (#[trigger] final(blocks)@[b]).label == old(blocks)@[b].label
                &&& final(blocks)@[b].terminator == old(blocks)@[b].terminator
                &&& exists|g: Seq<MirInst>|
                    {
                        &&& #[trigger] frees_before(old(blocks)@[b].insts@, pre_view(pres@[b]@), g, old(blocks)@[b].insts@.len() as int)
                        &&& ends_with_frees(g, final(blocks)@[b].insts@, frees@[b]@)
                    }
            },
{
    let n = blocks.len();
    let mut b: usize = 0;
    while b < n
        invariant
            n == old(blocks)@.len(),
            frees@.len() == n,
            pres@.len() == n,
            forall|c: int| 0 <= c < n ==> (#[trigger] pres@[c])@.len() == old(blocks)@[c].insts@.len(),
            blocks@.len() == n,
            b <= n,
            forall|c: int| b <= c < n ==> #[trigger] blocks@[c] == old(blocks)@[c],
            forall|c: int|
                0 <= c < b ==> {
                    &&& (#[trigger] blocks@[c]).label == old(blocks)@[c].label
                    &&& blocks@[c].terminator == old(blocks)@[c].terminator
                    &&& exists|g: Seq<MirInst>|
                        {
                            &&& #[trigger] frees_before(old(blocks)@[c].insts@, pre_view(pres@[c]@), g, old(blocks)@[c].insts@.len() as int)
                            &&& ends_with_frees(g, blocks@[c].insts@, frees@[c]@)
                        }
                },
        decreases n - b,
    {
        let list = &frees[b];
        let pre = &pres[b];
        let ghost pv = pre_view(pre@);
        let mut block = MirBasicBlock::new("");
        std::mem::swap(&mut block, &mut blocks[b]);
        let ghost orig = block;
        let m = block.insts.len();
        // Take the instructions out, last first.
        let mut rest: Vec<MirInst> = Vec::new();
        std::mem::swap(&mut rest, &mut block.insts);
        let mut rev: Vec<MirInst> = Vec::new();
        while rest.len() > 0
            invariant
                m == orig.insts@.len(),
                rest@.len() + rev@.len() == m,
                rest@ == orig.insts@.take(rest@.len() as int),
                forall|j: int| 0 <= j < rev@.len() ==> #[trigger] rev@[j] == orig.insts@[m - 1 - j],
            decreases rest@.len(),
        {
            let ghost r0 = rest@;
            let x = rest.pop().unwrap();
            proof {
                assert(rest@ =~= orig.insts@.take(rest@.len() as int));
            }
            rev.push(x);
        }
        // Put them back in order, each after its free call, if any.
        let mut out: Vec<MirInst> = Vec::new();
        let mut i: usize = 0;
        while i < m
            invariant
                m == orig.insts@.len(),
                pre@.len() == m,
                pv == pre_view(pre@),
                i <= m,
                rev@.len() == m - i,
                forall|j: int| 0 <= j < rev@.len() ==> #[trigger] rev@[j] == orig.insts@[m - 1 - j],
                frees_before(orig.insts@, pv, out@, i as int),
            decreases m - i,
        {
            proof {
                assert(rev@[rev@.len() - 1] == orig.insts@[i as int]);
            }
            let inst = rev.pop().unwrap();
            let ghost o0 = out@;
            match &pre[i] {
                Some(p) => {
                    let args = vec![MirValue::Local(p.0)];
                    let name = p.1.clone();
                    proof {
                        assert(name@ == p.1@);
                        assert(args@ == seq![MirValue::Local(p.0)]);
                    }
                    out.push(MirInst::Call { dest: None, name, args });
                    proof {
                        assert(is_named_free(out@.last(), p.0, p.1@));
                    }
                },
                None => {},
            }
            let ghost o1 = out@;
            out.push(inst);
            proof {
                assert(out@.drop_last() == o1);
                assert(pv[i as int] == match pre@[i as int] {
                    Some(p) => Some((p.0, p.1@)),
                    None => None,
                });
                match pre@[i as int] {
                    Some(p) => {
                        assert(out@.take(out@.len() - 2) =~= o0);
                        assert(out@[out@.len() - 2] == o1.last());
                        assert(is_named_free(out@[out@.len() - 2], p.0, p.1@));
                    },
                    None => {
                        assert(o1 == o0);
                        assert(out@.drop_last() =~= o0);
                    },
                }
                assert(out@.last() == orig.insts@[i as int]);
            }
            i = i + 1;
        }
        let ghost g = out@;
        let mut k: usize = 0;
        while k < list.len()
            invariant
                k <= list@.len(),
                out@.len() == g.len() + k,
                out@.take(g.len() as int) == g,
                forall|q: int| 0 <= q < k ==> is_named_free(#[trigger] out@[g.len() + q], list@[q].0, list@[q].1@),
            decreases list@.len() - k,
        {
            let ghost before = out@;
            let l = list[k].0;
            let name = list[k].1.clone();
            let args = vec![MirValue::Local(l)];
            out.push(MirInst::Call { dest: None, name, args });
            proof {
                assert(out@.take(g.len() as int) =~= before.take(g.len() as int));
                assert forall|q: int| 0 <= q < k + 1 implies is_named_free(#[trigger] out@[g.len() + q], list@[q].0, list@[q].1@) by {
                    if q < k {
                        assert(out@[g.len() + q] == before[g.len() + q]);
                    } else {
                        assert(out@[g.len() + q] == out@.last());
                        assert(name@ == list@[q].1@);
                        assert(args@ == seq![MirValue::Local(l)]);
                        assert(out@.last() == MirInst::Call { dest: None, name, args });
                    }
                }
            }
            k = k + 1;
        }
        block.insts = out;
        proof {
            assert(ends_with_frees(g, block.insts@, list@));
            assert(frees_before(orig.insts@, pv, g, m as int));
        }
        blocks.set(b, block);
        b = b + 1;
    }
}

/// The local an instruction writes a value into, if any.
fn write_dest_of(inst: &MirInst) -> (r: Option<usize>)
    ensures
        r == write_dest(*inst),
{
    match inst {
        MirInst::Store { dest, .. } => Some(*dest),
        MirInst::Load { dest, .. } => Some(*dest),
        MirInst::Cast { dest, .. } => Some(*dest),
        MirInst::Call { dest, .. } => *dest,
        _ => None,
    }
}

/// Locals that may enter a block allocated but not yet written: those
/// that end some block allocated and unwritten.
fn unwritten_locals(blocks: &Vec<MirBasicBlock>) -> (r: LocalSet)
    ensures
        r.wf(),
        r@ == maybe_unwritten(blocks@),
{
    let mut r = LocalSet::new();
    let mut b: usize = 0;
    while b < blocks.len()
        invariant
            b <= blocks@.len(),
            r.wf(),
            r@ == unwritten_upto(blocks@, b as int),
        decreases blocks@.len() - b,
    {
        let insts = &blocks[b].insts;
        let mut f = LocalSet::new();
        let mut i: usize = 0;
        assert(insts@.take(0) =~= Seq::<MirInst>::empty());
        while i < insts.len()
            invariant
                i <= insts@.len(),
                f.wf(),
                f@ == fresh(insts@.take(i as int)),
            decreases insts@.len() - i,
        {
            proof {
                assert(insts@.take(i + 1).drop_last() =~= insts@.take(i as int));
                assert(insts@.take(i + 1).last() == insts@[i as int]);
            }
            match &insts[i] {
                MirInst::Alloca { dest, .. } => f.insert(*dest),
                other => match write_dest_of(other) {
                    Some(d) => f.remove(d),
                    None => {},
                },
            }
            i = i + 1;
        }
        assert(insts@.take(i as int) =~= insts@);
        r.extend(&f);
        b = b + 1;
    }
    r
}

impl BorrowAnalysis {
    /// A fresh analysis with no reports.
    pub fn new() -> (r: Self)
        ensures
            r@ == Seq::<Seq<char>>::empty(),
    {
        let r = BorrowAnalysis { errors: Vec::new() };
        assert(r@ =~= Seq::<Seq<char>>::empty());
        r
    }

    /// The reports so far, in the order they were made.
    pub fn errors(&self) -> (r: &[String])
        ensures
            r@.map_values(|s: String| s@) == self@,
    {
        self.errors.as_slice()
    }

    fn report(&mut self, msg: String)
        ensures
            final(self)@ == old(self)@.push(msg@),
    {
        self.errors.push(msg);
        assert(self@ =~= old(self)@.push(msg@));
    }

    /// Report a use of `local` if it is tracked and no longer live.
    fn check_alive(
        &mut self,
        local: usize,
        alive: &LocalSet,
        move_locals: &LocalSet,
        local_names: &HashMap<usize, &String>,
        local_types: &HashMap<usize, &MirType>,
        context: &str,
    )
        requires
            alive.wf(),
            move_locals.wf(),
        ensures
            final(self)@ == if move_locals@.contains(local) && !alive@.contains(local) {
                old(self)@.push(use_after_move_msg(context@, move_name(deref_names(local_names@), local), local))
            } else {
                old(self)@
            },
    {
        if !move_locals.contains(local) {
            return;
        }
        if !alive.contains(local) {
            let name = match local_names.get(&local) {
                Some(n) => (*n).clone(),
                None => {
                    let mut s = String::from_str("%");
                    let digits = u64_to_decimal(local as u64);
                    s.append(digits.as_str());
                    s
                },
            };
            let mut msg = String::from_str("use-after-move: cannot ");
            msg.append(context);
            msg.append(" `");
            msg.append(name.as_str());
            msg.append("` (local #");
            let digits = u64_to_decimal(local as u64);
            msg.append(digits.as_str());
            msg.append(") — value has been moved");
            assert(msg@ =~= use_after_move_msg(context@, move_name(deref_names(local_names@), local), local));
            self.report(msg);
        }
    }

    /// Whether `local` has a move type.
    fn is_move_local(&self, local: usize, local_types: &HashMap<usize, &MirType>) -> (r: bool)
        ensures
            r == has_move_type(deref_types(local_types@), local),
    {
        local_has_move_type(local_types, local)
    }

    /// Report a use of a value operand.
    fn check_value_use(
        &mut self,
        v: &MirValue,
        alive: &LocalSet,
        move_locals: &LocalSet,
        local_names: &HashMap<usize, &String>,
        local_types: &HashMap<usize, &MirType>,
        context: &str,
        cf: Ghost<CheckFacts>,
    )
        requires
            alive.wf(),
            move_locals.wf(),
            cf@.flow.move_locals == move_locals@,
            cf@.names == deref_names(local_names@),
        ensures
            final(self)@ == check_value(CheckState { alive: alive@, errors: old(self)@ }, *v, context@, cf@).errors,
    {
        if let MirValue::Local(l) = v {
            self.check_alive(*l, alive, move_locals, local_names, local_types, context);
        }
    }

    /// Process one instruction of the checking pass: report uses of moved
    /// values and conflicting borrows, and update the live set.
    #[verifier::rlimit(40)]
    fn process_inst(
        &mut self,
        inst: &MirInst,
        alive: &mut LocalSet,
        move_locals: &LocalSet,
        local_names: &HashMap<usize, &String>,
        local_types: &HashMap<usize, &MirType>,
        func_map: &FuncModes,
        load_map: &HashMap<usize, usize>,
        borrow_states: &mut HashMap<usize, BorrowState>,
    )
        requires
            old(alive).wf(),
            move_locals.wf(),
            old(borrow_states)@ == Map::<usize, BorrowState>::empty(),
            args_fit(*inst),
        ensures
            final(alive).wf(),
            final(borrow_states)@ == Map::<usize, BorrowState>::empty(),
            ({
                let cf = CheckFacts {
                    flow: flow_facts(move_locals, load_map, func_map),
                    types: deref_types(local_types@),
                    names: deref_names(local_names@),
                };
                let st = check_inst(CheckState { alive: old(alive)@, errors: old(self)@ }, *inst, cf);
                final(alive)@ == st.alive && final(self)@ == st.errors
            }),
    {
        let ghost cf = CheckFacts {
            flow: flow_facts(move_locals, load_map, func_map),
            types: deref_types(local_types@),
            names: deref_names(local_names@),
        };
        match inst {
            MirInst::Alloca { dest, type_, .. } => {
                if is_move_type(type_) {
                    alive.insert(*dest);
                }
            },
            MirInst::Load { dest, src } => {
                // Reading a moved value is a use-after-move.
                self.check_alive(*src, alive, move_locals, local_names, local_types, "read");
                if move_locals.contains(*dest) {
                    alive.insert(*dest);
                }
            },
            MirInst::BinaryOp { left, right, .. } => {
                self.check_value_use(left, alive, move_locals, local_names, local_types, "read", Ghost(cf));
                self.check_value_use(right, alive, move_locals, local_names, local_types, "read", Ghost(cf));
            },
            MirInst::UnaryOp { operand, .. } => {
                self.check_value_use(operand, alive, move_locals, local_names, local_types, "read", Ghost(cf));
            },
            MirInst::Cast { dest, value, .. } => {
                // A cast between move types transfers ownership.
                if let MirValue::Local(src) = value {
                    let src_is_move = self.is_move_local(*src, local_types);
                    let dst_is_move = self.is_move_local(*dest, local_types);
                    if src_is_move && dst_is_move {
                        self.check_alive(*src, alive, move_locals, local_names, local_types, "move");
                        consume_local(alive, *src, load_map);
                    } else {
                        self.check_alive(*src, alive, move_locals, local_names, local_types, "read");
                    }
                }
                if move_locals.contains(*dest) {
                    alive.insert(*dest);
                }
            },
            MirInst::Store { dest, value } => {
                if let MirValue::Local(src) = value {
                    self.check_alive(*src, alive, move_locals, local_names, local_types, "move");
                    consume_local(alive, *src, load_map);
                }
                if move_locals.contains(*dest) {
                    alive.insert(*dest);
                }
            },
            MirInst::Call { dest, name, args } => {
                self.process_call(name, args, alive, move_locals, local_names, local_types, func_map, load_map, borrow_states, Ghost(cf));
                if let Some(d) = dest {
                    if move_locals.contains(*d) {
                        alive.insert(*d);
                    }
                }
            },
            MirInst::PtrOffset { ptr, .. } => {
                self.check_alive(*ptr, alive, move_locals, local_names, local_types, "read");
            },
            MirInst::PtrStore { ptr, value, .. } => {
                self.check_alive(*ptr, alive, move_locals, local_names, local_types, "read");
                self.check_value_use(value, alive, move_locals, local_names, local_types, "read", Ghost(cf));
            },
            MirInst::Memcpy { dest_ptr_local, src_alloca_local, .. } => {
                self.check_alive(*dest_ptr_local, alive, move_locals, local_names, local_types, "read");
                self.check_alive(*src_alloca_local, alive, move_locals, local_names, local_types, "read");
            },
            MirInst::FieldPtr { ptr, .. } => {
                self.check_alive(*ptr, alive, move_locals, local_names, local_types, "read");
            },
            MirInst::AsyncAwait { handle, .. } => {
                self.check_alive(*handle, alive, move_locals, local_names, local_types, "read");
            },
            _ => {},
        }
        proof {
            reveal_strlit("read");
            reveal_strlit("move");
        }
    }

    /// The checking pass over a function's blocks. Returns, per block, the
    /// locals to free at its end with the runtime function that frees each.
    #[verifier::rlimit(80)]
    fn check_function(&mut self, blocks: &Vec<MirBasicBlock>, func_map: &FuncModes) -> (r: (Vec<Vec<(usize, String)>>, Vec<Vec<Option<(usize, String)>>>))
        requires
            calls_fit(blocks@),
        ensures
            final(self)@ == old(self)@ + function_errors(blocks@, func_map@),
            r.0@.len() == blocks@.len(),
            forall|b: int| 0 <= b < blocks@.len() ==> {
                let frees = if analysed(blocks@) { block_frees(blocks@, func_map@, b) } else { Set::<usize>::empty() };
                let order = (#[trigger] r.0@[b])@.map_values(|p: (usize, String)| p.0);
                &&& order.to_set() == frees
                &&& forall|i: int, j: int| 0 <= i < j < order.len() ==> order[i] < order[j]
                &&& forall|k: int| 0 <= k < r.0@[b]@.len() ==> r.0@[b]@[k].1@ == free_name(types_of(flat(blocks@)), r.0@[b]@[k].0)
            },
            r.1@.len() == blocks@.len(),
            forall|b: int| 0 <= b < blocks@.len() ==> pre_view((#[trigger] r.1@[b])@) == overwrites(blocks@, func_map@, b),
    {
        let ghost bs = blocks@;
        let ghost fm = func_map@;
        let n = blocks.len();
        let move_locals = find_move_locals(blocks);
        let local_names = build_local_names(blocks);
        let local_types = build_local_types(blocks);

        if move_locals.is_empty() {
            assert(!analysed(bs));
            let mut frees: Vec<Vec<(usize, String)>> = Vec::new();
            let mut pres: Vec<Vec<Option<(usize, String)>>> = Vec::new();
            let mut b: usize = 0;
            while b < n
                invariant
                    n == bs.len(),
                    bs == blocks@,
                    fm == func_map@,
                    !analysed(bs),
                    b <= n,
                    frees@.len() == b,
                    pres@.len() == b,
                    forall|k: int| 0 <= k < b ==> (#[trigger] frees@[k])@.len() == 0,
                    forall|k: int| 0 <= k < b ==> pre_view((#[trigger] pres@[k])@) == overwrites(bs, fm, k),
                decreases n - b,
            {
                frees.push(Vec::new());
                let mut pre: Vec<Option<(usize, String)>> = Vec::new();
                let m = blocks[b].insts.len();
                let mut i: usize = 0;
                while i < m
                    invariant
                        n == bs.len(),
                        b < n,
                        bs == blocks@,
                        !analysed(bs),
                        m == bs[b as int].insts@.len(),
                        i <= m,
                        pre@.len() == i,
                        forall|q: int| 0 <= q < i ==> (#[trigger] pre@[q]) is None,
                    decreases m - i,
                {
                    pre.push(None);
                    i = i + 1;
                }
                proof {
                    assert(pre_view(pre@) =~= overwrites(bs, fm, b as int));
                }
                pres.push(pre);
                b = b + 1;
            }
            proof {
                assert(old(self)@ + function_errors(bs, fm) =~= old(self)@);
                assert forall|b: int| 0 <= b < bs.len() implies (#[trigger] frees@[b])@.map_values(|p: (usize, String)| p.0).to_set() == Set::<usize>::empty() by {
                    assert(frees@[b]@.map_values(|p: (usize, String)| p.0).to_set() =~= Set::<usize>::empty());
                }
            }
            return (frees, pres);
        }

        let param_locals = collect_picked(blocks, Pick::ParamStore);
        let keep = never_freed_set(blocks, &local_types);
        let field_ptrs = collect_picked(blocks, Pick::FieldPtrDest);
        let (load_map, _load_sources, _field_loaded) = collect_loads(blocks, &local_types, &field_ptrs);
        let alive_in = compute_alive_in(blocks, &move_locals, &local_types, &param_locals, func_map, &load_map);
        let unwritten = unwritten_locals(blocks);

        let ghost cf = check_facts(bs, fm);
        proof {
            assert(param_locals@.filter(|p: usize| has_move_type(deref_types(local_types@), p)) =~= entry_alive(bs));
            assert(flow_facts(&move_locals, &load_map, func_map) == cf.flow);
            assert(deref_types(local_types@) == cf.types);
            assert(deref_names(local_names@) == cf.names);
        }

        let mut fresh = BorrowAnalysis::new();
        let mut borrow_states: HashMap<usize, BorrowState> = HashMap::new();
        let mut frees: Vec<Vec<(usize, String)>> = Vec::new();
        let mut pres: Vec<Vec<Option<(usize, String)>>> = Vec::new();
        let mut b: usize = 0;
        while b < n
            invariant
                unwritten.wf(),
                unwritten@ == maybe_unwritten(bs),
                pres@.len() == b,
                forall|k: int| 0 <= k < b ==> pre_view((#[trigger] pres@[k])@) == overwrites(bs, fm, k),
                n == bs.len(),
                bs == blocks@,
                fm == func_map@,
                cf == check_facts(bs, fm),
                calls_fit(bs),
                analysed(bs),
                b <= n,
                move_locals.wf(),
                keep.wf(),
                keep@ == never_freed(bs),
                alive_in@.len() == n,
                all_wf(alive_in@),
                forall|k: int| 0 <= k < n ==> (#[trigger] alive_in@[k])@ == block_live_in(bs, fm, k),
                flow_facts(&move_locals, &load_map, func_map) == cf.flow,
                deref_types(local_types@) == cf.types,
                deref_names(local_names@) == cf.names,
                borrow_states@ == Map::<usize, BorrowState>::empty(),
                fresh@ == errors_upto(bs, fm, b as int),
                frees@.len() == b,
                forall|k: int| 0 <= k < b ==> {
                    let order = (#[trigger] frees@[k])@.map_values(|p: (usize, String)| p.0);
                    &&& order.to_set() == block_frees(bs, fm, k)
                    &&& forall|i: int, j: int| 0 <= i < j < order.len() ==> order[i] < order[j]
                    &&& forall|q: int| 0 <= q < frees@[k]@.len() ==> frees@[k]@[q].1@ == free_name(cf.types, frees@[k]@[q].0)
                },
            decreases n - b,
        {
            let block = &blocks[b];
            let mut alive = alive_in[b].copy();
            // Borrows do not cross block boundaries.
            if b > 0 {
                borrow_states.clear();
            }
            let ghost errs0 = fresh@;
            let insts = &block.insts;
            let mut i: usize = 0;
            let mut written = LocalSet::new();
            let mut allocas = LocalSet::new();
            let mut pre: Vec<Option<(usize, String)>> = Vec::new();
            assert(insts@.take(0) =~= Seq::<MirInst>::empty());
            while i < insts.len()
                invariant
                    fm == func_map@,
                    analysed(bs),
                    errs0 == errors_upto(bs, fm, b as int),
                    keep.wf(),
                    keep@ == never_freed(bs),
                    written.wf(),
                    written@ == stored(insts@.take(i as int)),
                    allocas.wf(),
                    allocas@ == allocated(insts@.take(i as int)),
                    unwritten.wf(),
                    unwritten@ == maybe_unwritten(bs),
                    pre@.len() == i,
                    forall|q: int| 0 <= q < i ==> (#[trigger] pre_view(pre@)[q]) == overwrites(bs, fm, b as int)[q],
                    n == bs.len(),
                    bs == blocks@,
                    b < n,
                    insts@ == bs[b as int].insts@,
                    cf == check_facts(bs, fm),
                    calls_fit(bs),
                    i <= insts@.len(),
                    alive.wf(),
                    move_locals.wf(),
                    flow_facts(&move_locals, &load_map, func_map) == cf.flow,
                    deref_types(local_types@) == cf.types,
                    deref_names(local_names@) == cf.names,
                    borrow_states@ == Map::<usize, BorrowState>::empty(),
                    ({
                        let st = check_insts(CheckState { alive: block_live_in(bs, fm, b as int), errors: errs0 }, insts@.take(i as int), cf);
                        alive@ == st.alive && fresh@ == st.errors
                    }),
                decreases insts@.len() - i,
            {
                proof {
                    assert(insts@.take(i + 1).drop_last() =~= insts@.take(i as int));
                    assert(args_fit(bs[b as int].insts@[i as int]));
                }
                // A store into an owned local that still holds a value frees
                // that value first.
                let ow: Option<(usize, String)> = match &insts[i] {
                    MirInst::Store { dest, .. } => if alive.contains(*dest) && (written.contains(*dest) || (
                    !allocas.contains(*dest) && !unwritten.contains(*dest))) && !keep.contains(*dest) {
                        Some((*dest, String::from_str(free_func(&local_types, *dest))))
                    } else {
                        None
                    },
                    _ => None,
                };
                let ghost pre0 = pre@;
                pre.push(ow);
                proof {
                    assert(pre_view(pre@)[i as int] == overwrites(bs, fm, b as int)[i as int]);
                    assert forall|q: int| 0 <= q < i + 1 implies (#[trigger] pre_view(pre@)[q]) == overwrites(bs, fm, b as int)[q] by {
                        if q < i {
                            assert(pre@[q] == pre0[q]);
                            assert(pre_view(pre@)[q] == pre_view(pre0)[q]);
                        }
                    }
                }
                match &insts[i] {
                    MirInst::Alloca { dest, .. } => {
                        written.remove(*dest);
                        allocas.insert(*dest);
                    },
                    other => match write_dest_of(other) {
                        Some(d) => written.insert(d),
                        None => {},
                    },
                }
                proof {
                    assert(insts@.take(i + 1).last() == insts@[i as int]);
                }
                fresh.process_inst(&insts[i], &mut alive, &move_locals, &local_names, &local_types, func_map, &load_map, &mut borrow_states);
                i = i + 1;
            }
            proof {
                assert(pre_view(pre@) =~= overwrites(bs, fm, b as int));
            }
            let ghost pres0 = pres@;
            pres.push(pre);
            proof {
                assert forall|k: int| 0 <= k < b + 1 implies pre_view((#[trigger] pres@[k])@) == overwrites(bs, fm, k) by {
                    if k < b {
                        assert(pres@[k] == pres0[k]);
                    }
                }
            }
            proof {
                assert(insts@.take(i as int) =~= insts@);
                assert(alive@ == block_run(bs, fm, b as int, errs0).alive);
            }
            match &block.terminator {
                MirTerminator::Return(value) => {
                    // The returned value goes to the caller.
                    if let MirValue::Local(l) = value {
                        alive.remove(*l);
                    }
                },
                MirTerminator::CondBr { cond, .. } => {
                    fresh.check_value_use(cond, &alive, &move_locals, &local_names, &local_types, "read", Ghost(cf));
                    proof {
                        reveal_strlit("read");
                    }
                },
                _ => {},
            }
            // Every owned value still live at the end of the block is freed
            // there, unless a successor starts with it live.
            let succs = terminator_successors(&block.terminator, blocks);
            let ghost ss = successors(bs, bs[b as int].terminator);
            let mut kept = keep.copy();
            let mut j: usize = 0;
            while j < succs.len()
                invariant
                    n == bs.len(),
                    bs == blocks@,
                    fm == func_map@,
                    b < n,
                    as_ints(succs@) == ss,
                    forall|k: int| 0 <= k < succs@.len() ==> succs@[k] < n,
                    alive_in@.len() == n,
                    all_wf(alive_in@),
                    forall|k: int| 0 <= k < n ==> (#[trigger] alive_in@[k])@ == block_live_in(bs, fm, k),
                    j <= succs@.len(),
                    kept.wf(),
                    kept@ == never_freed(bs) + live_in_any(bs, fm, ss.take(j as int)),
                decreases succs@.len() - j,
            {
                let ghost k0 = kept@;
                proof {
                    assert(ss.take(j + 1).drop_last() =~= ss.take(j as int));
                    assert(ss[j as int] == succs@[j as int] as int);
                }
                kept.extend(&alive_in[succs[j]]);
                proof {
                    assert(kept@ =~= never_freed(bs) + live_in_any(bs, fm, ss.take(j + 1)));
                }
                j = j + 1;
            }
            proof {
                assert(ss.take(j as int) =~= ss);
            }
            let mut list: Vec<(usize, String)> = Vec::new();
            let locals = members_outside(&alive, &kept);
            let mut k: usize = 0;
            while k < locals.len()
                invariant
                    k <= locals@.len(),
                    list@.len() == k,
                    deref_types(local_types@) == cf.types,
                    forall|q: int| 0 <= q < k ==> (#[trigger] list@[q]).0 == locals@[q],
                    forall|q: int| 0 <= q < k ==> (#[trigger] list@[q]).1@ == free_name(cf.types, list@[q].0),
                decreases locals@.len() - k,
            {
                let l = locals[k];
                list.push((l, String::from_str(free_func(&local_types, l))));
                k = k + 1;
            }
            proof {
                assert(list@.map_values(|p: (usize, String)| p.0) =~= locals@);
            }
            frees.push(list);
            proof {
                assert(fresh@ == errors_upto(bs, fm, b + 1));
            }
            b = b + 1;
        }
        proof {
            assert(function_errors(bs, fm) == fresh@);
        }
        let ghost before = self.errors@;
        self.errors.append(&mut fresh.errors);
        proof {
            assert(self@ =~= old(self)@ + function_errors(bs, fm));
        }
        (frees, pres)
    }

    /// Analyse one function: report errors, free an owned value before a
    /// store overwrites it, and free at the end of each block the owned
    /// values whose scope ends there.
    fn process_function(&mut self, func: &mut MirFunction, func_map: &FuncModes)
        requires
            calls_fit(old(func).basic_blocks@),
        ensures
            final(self)@ == old(self)@ + function_errors(old(func).basic_blocks@, func_map@),
            processed(*old(func), *final(func), func_map@),
    {
        let (frees, pres) = self.check_function(&func.basic_blocks, func_map);
        proof {
            assert forall|b: int| 0 <= b < func.basic_blocks@.len() implies (#[trigger] pres@[b])@.len() == func.basic_blocks@[b].insts@.len() by {
                assert(pre_view(pres@[b]@).len() == pres@[b]@.len());
            }
        }
        insert_frees(&mut func.basic_blocks, &frees, &pres);
    }

    /// Run the analysis over every function of the module, in order.
    pub fn run(&mut self, module: &mut MirModule)
        requires
            forall|i: int| 0 <= i < old(module).functions@.len() ==> calls_fit(
                (#[trigger] old(module).functions@[i]).basic_blocks@,
            ),
        ensures
            final(self)@ == old(self)@ + module_errors(
                old(module).functions@,
                module_modes(old(module).functions@),
                old(module).functions@.len() as int,
            ),
            final(module).functions@.len() == old(module).functions@.len(),
            forall|i: int|
                0 <= i < old(module).functions@.len() ==> processed(
                    #[trigger] old(module).functions@[i],
                    final(module).functions@[i],
                    module_modes(old(module).functions@),
                ),
            final(module).globals == old(module).globals,
            final(module).links == old(module).links,
    {
        // The parameter modes of every function, taken before any function
        // is changed.
        let func_map = FuncModes::of_functions(&module.functions);
        let ghost fs = module.functions@;
        let ghost fm = func_map@;
        let mut i: usize = 0;
        while i < module.functions.len()
            invariant
                fm == func_map@,
                fm == module_modes(fs),
                module.functions@.len() == fs.len(),
                i <= fs.len(),
                forall|k: int| i <= k < fs.len() ==> #[trigger] module.functions@[k] == fs[k],
                forall|k: int| 0 <= k < fs.len() ==> calls_fit((#[trigger] fs[k]).basic_blocks@),
                forall|k: int| 0 <= k < i ==> processed(#[trigger] fs[k], module.functions@[k], fm),
                self@ == old(self)@ + module_errors(fs, fm, i as int),
                module.globals == old(module).globals,
                module.links == old(module).links,
            decreases fs.len() - i,
        {
            self.process_function(&mut module.functions[i], &func_map);
            proof {
                assert(self@ =~= old(self)@ + module_errors(fs, fm, i + 1));
            }
            i = i + 1;
        }
    }

    fn report_name(local_names: &HashMap<usize, &String>, l: usize) -> (r: String)
        ensures
            r@ == borrow_name(deref_names(local_names@), l),
    {
        match local_names.get(&l) {
            Some(n) => (*n).clone(),
            None => String::new(),
        }
    }

    /// Process the arguments of a call: moves consume their argument (and
    /// the aliased owner), borrows are counted and conflicting borrows
    /// reported. All borrows end when the call returns.
    #[verifier::rlimit(60)]
    fn process_call(
        &mut self,
        name: &String,
        args: &Vec<MirValue>,
        alive: &mut LocalSet,
        move_locals: &LocalSet,
        local_names: &HashMap<usize, &String>,
        local_types: &HashMap<usize, &MirType>,
        func_map: &FuncModes,
        load_map: &HashMap<usize, usize>,
        borrow_states: &mut HashMap<usize, BorrowState>,
        cf: Ghost<CheckFacts>,
    )
        requires
            old(alive).wf(),
            move_locals.wf(),
            old(borrow_states)@ == Map::<usize, BorrowState>::empty(),
            args@.len() < u32::MAX,
            cf@ == (CheckFacts {
                flow: flow_facts(move_locals, load_map, func_map),
                types: deref_types(local_types@),
                names: deref_names(local_names@),
            }),
        ensures
            final(alive).wf(),
            final(borrow_states)@ == Map::<usize, BorrowState>::empty(),
            ({
                let c = check_args(
                    CallState { alive: old(alive)@, errors: old(self)@, borrows: Map::empty() },
                    args@,
                    modes_lookup(func_map@, name@),
                    name@,
                    cf@,
                );
                final(alive)@ == c.alive && final(self)@ == c.errors
            }),
    {
        let modes = func_map.lookup(name);
        let ghost gm = modes_lookup(func_map@, name@);
        let ghost lm = load_map@;
        let is_ptr_write = str_eq(name.as_str(), "ky_ptr_write_ptr") || str_eq(name.as_str(), "ky_ptr_write_i32");
        let ghost cs0 = CallState { alive: old(alive)@, errors: old(self)@, borrows: Map::empty() };
        let mut i: usize = 0;
        assert(args@.take(0) =~= Seq::<MirValue>::empty());
        while i < args.len()
            invariant
                i <= args@.len(),
                args@.len() < u32::MAX,
                alive.wf(),
                move_locals.wf(),
                lm == load_map@,
                gm == match modes {
                    Some(m) => Some(m@),
                    None => None::<Seq<ParamMode>>,
                },
                gm == modes_lookup(func_map@, name@),
                is_ptr_write == is_ptr_write_name(name@),
                cf@ == (CheckFacts {
                    flow: flow_facts(move_locals, load_map, func_map),
                    types: deref_types(local_types@),
                    names: deref_names(local_names@),
                }),
                ({
                    let c = check_args(cs0, args@.take(i as int), gm, name@, cf@);
                    alive@ == c.alive && self@ == c.errors && borrow_states@ == c.borrows
                }),
                borrow_states@.dom().subset_of(borrow_origins(args@.take(i as int), gm, lm)),
                forall|k: usize| #[trigger] borrow_states@.contains_key(k) ==> match borrow_states@[k] {
                    BorrowState::ImmBorrowed(c) => c <= i,
                    _ => true,
                },
            decreases args@.len() - i,
        {
            proof {
                assert(args@.take(i + 1).drop_last() =~= args@.take(i as int));
                reveal_strlit("borrow");
                reveal_strlit("mut borrow");
                reveal_strlit("move");
            }
            let ghost c_before = CallState { alive: alive@, errors: self@, borrows: borrow_states@ };
            if let MirValue::Local(l) = &args[i] {
                let l = *l;
                let mode: Option<ParamMode> = match modes {
                    Some(m) => if i < m.len() {
                        Some(m[i])
                    } else {
                        None
                    },
                    None => None,
                };
                assert(mode == mode_at(gm, i as int));
                let orig = match load_map.get(&l) {
                    Some(o) => *o,
                    None => l,
                };
                assert(orig == origin(lm, l));
                let state = match borrow_states.get(&orig) {
                    Some(st) => *st,
                    None => BorrowState::NotBorrowed,
                };
                assert(state == borrow_of(borrow_states@, orig));
                match mode {
                    Some(ParamMode::Borrow) => {
                        self.check_alive(l, alive, move_locals, local_names, local_types, "borrow");
                        match state {
                            BorrowState::MutBorrowed => {
                                let mut msg = String::from_str("cannot borrow `");
                                let nm = Self::report_name(local_names, orig);
                                msg.append(nm.as_str());
                                msg.append("` immutably — it is already mutably borrowed");
                                assert(msg@ =~= imm_while_mut_msg(borrow_name(cf@.names, orig)));
                                self.report(msg);
                            },
                            BorrowState::ImmBorrowed(c) => {
                                borrow_states.insert(orig, BorrowState::ImmBorrowed(c + 1));
                            },
                            BorrowState::NotBorrowed => {
                                borrow_states.insert(orig, BorrowState::ImmBorrowed(1));
                            },
                        }
                    },
                    Some(ParamMode::MutableBorrow) => {
                        self.check_alive(l, alive, move_locals, local_names, local_types, "mut borrow");
                        match state {
                            BorrowState::NotBorrowed => {
                                borrow_states.insert(orig, BorrowState::MutBorrowed);
                            },
                            BorrowState::ImmBorrowed(c) => {
                                let mut msg = String::from_str("cannot mutably borrow `");
                                let nm = Self::report_name(local_names, orig);
                                msg.append(nm.as_str());
                                msg.append("` — it is already borrowed immutably (");
                                let digits = u64_to_decimal(c as u64);
                                msg.append(digits.as_str());
                                msg.append(" borrows active)");
                                assert(msg@ =~= mut_while_imm_msg(borrow_name(cf@.names, orig), c));
                                self.report(msg);
                            },
                            BorrowState::MutBorrowed => {
                                let mut msg = String::from_str("cannot mutably borrow `");
                                let nm = Self::report_name(local_names, orig);
                                msg.append(nm.as_str());
                                msg.append("` — it is already mutably borrowed");
                                assert(msg@ =~= mut_while_mut_msg(borrow_name(cf@.names, orig)));
                                self.report(msg);
                            },
                        }
                    },
                    _ => {
                        // Module functions take their arguments by move; runtime
                        // functions borrow them, except the value written by
                        // `ky_ptr_write_*`, whose ownership passes to the pointee.
                        if modes.is_some() || (is_ptr_write && i == 1) {
                            self.check_alive(l, alive, move_locals, local_names, local_types, "move");
                            consume_local(alive, l, load_map);
                            borrow_states.remove(&orig);
                        }
                    },
                }
                proof {
                    let ca = check_arg(c_before, l, i as int, gm, name@, cf@);
                    assert(alive@ == ca.alive);
                    assert(self@ == ca.errors);
                    assert(borrow_states@ =~= ca.borrows);
                }
            }
            proof {
                assert(borrow_states@.dom().subset_of(borrow_origins(args@.take(i + 1), gm, lm)));
            }
            i = i + 1;
        }
        proof {
            assert(args@.take(i as int) =~= args@);
        }
        // Borrows end when the call returns.
        let mut j: usize = 0;
        assert(args@.take(0) =~= Seq::<MirValue>::empty());
        while j < args.len()
            invariant
                j <= args@.len(),
                gm == match modes {
                    Some(m) => Some(m@),
                    None => None::<Seq<ParamMode>>,
                },
                lm == load_map@,
                borrow_states@.dom().subset_of(borrow_origins(args@, gm, lm).difference(
                    borrow_origins(args@.take(j as int), gm, lm),
                )),
            decreases args@.len() - j,
        {
            proof {
                assert(args@.take(j + 1).drop_last() =~= args@.take(j as int));
            }
            if let MirValue::Local(l) = &args[j] {
                let mode: Option<ParamMode> = match modes {
                    Some(m) => if j < m.len() {
                        Some(m[j])
                    } else {
                        None
                    },
                    None => None,
                };
                if mode == Some(ParamMode::Borrow) || mode == Some(ParamMode::MutableBorrow) {
                    let orig = match load_map.get(l) {
                        Some(o) => *o,
                        None => *l,
                    };
                    borrow_states.remove(&orig);
                }
            }
            j = j + 1;
        }
        proof {
            assert(args@.take(j as int) =~= args@);
            assert(borrow_states@ =~= Map::<usize, BorrowState>::empty());
        }
    }
}

} // verus!
