//! Properties of the ownership analysis as a whole.
use vstd::prelude::*;
use crate::ast::ParamMode;
use crate::mir::{MirBasicBlock, MirInst, MirTerminator, MirType, MirValue};
use crate::lower::types::type_kind;
use crate::ownership::{
    CallState, CheckFacts, FlowFacts, Pick, analysed, block_live_in, block_run, errors_upto, check_arg, check_facts,
    consumes, dataflow_outs, entry_alive, function_errors, function_frees, overwrites, holds_value, check_insts, CheckState, check_args, check_inst,
    flow_args, flow_inst,
    free_name, types_of, is_extremal, is_pred, live_in_any, successors, edge,
    is_ptr_write_name, is_solution, iter_inv, lemma_iter_done, lemma_iter_init, lemma_iter_step,
    lemma_picked_finite, modes_lookup, move_locals, never_freed, owned_allocas, potential, rhs,
    universe, flat, get_borrowed, picked,
};

verus! {

proof fn lemma_owned_allocas_finite(s: Seq<MirInst>, excluded: Set<usize>)
    ensures
        owned_allocas(s, excluded).finite(),
    decreases s.len(),
{
    if s.len() > 0 {
        lemma_owned_allocas_finite(s.drop_last(), excluded);
    }
}

proof fn lemma_iterate(blocks: Seq<MirBasicBlock>, entry: Set<usize>, f: FlowFacts, g: Seq<Set<usize>>)
    requires
        iter_inv(blocks, entry, f, g),
        f.move_locals.finite(),
        universe(blocks, f, entry).finite(),
    ensures
        is_solution(blocks, entry, f, dataflow_outs(blocks, entry, f)),
        is_extremal(blocks, entry, f, dataflow_outs(blocks, entry, f)),
    decreases potential(g, f.move_locals, universe(blocks, f, entry)),
{
    if forall|b: int| 0 <= b < blocks.len() ==> #[trigger] g[b] == rhs(blocks, entry, f, g, b) {
        lemma_iter_done(blocks, entry, f, g);
    } else {
        let b = choose|b: int| 0 <= b < blocks.len() && g[b] != rhs(blocks, entry, f, g, b);
        lemma_iter_step(blocks, entry, f, g, b);
        lemma_iterate(blocks, entry, f, g.update(b, rhs(blocks, entry, f, g, b)));
    }
}

/// The dataflow equations of any function have an extremal solution, so
/// the live sets the analysis works with are well defined: the live set at
/// the end of each block is the effect of the block on its live-in set, and
/// among all solutions it keeps every tracked local that some solution keeps
/// and no other local that some solution drops.
pub proof fn law_dataflow_solution(blocks: Seq<MirBasicBlock>, modes: Seq<(Seq<char>, Seq<ParamMode>)>)
    ensures
        ({
            let f = check_facts(blocks, modes).flow;
            let entry = entry_alive(blocks);
            is_solution(blocks, entry, f, dataflow_outs(blocks, entry, f)) && is_extremal(
                blocks,
                entry,
                f,
                dataflow_outs(blocks, entry, f),
            )
        }),
{
    let f = check_facts(blocks, modes).flow;
    let entry = entry_alive(blocks);
    let all = flat(blocks);
    lemma_owned_allocas_finite(all, get_borrowed(all));
    lemma_picked_finite(all, Pick::MoveAlloca);
    lemma_picked_finite(all, Pick::ParamStore);
    assert(entry.subset_of(picked(all, Pick::ParamStore)));
    vstd::set_lib::lemma_set_subset_finite(picked(all, Pick::ParamStore), entry);
    let g = Seq::new(blocks.len(), |b: int| f.move_locals);
    lemma_iter_init(blocks, entry, f, g);
    lemma_iterate(blocks, entry, f, g);
}

/// The dataflow equations have an extremal solution for any blocks, any
/// finite set of tracked locals and any finite set live on entry: the live
/// sets the analysis computes solve the equations, and keep every tracked
/// local that some solution keeps and no other local that some solution
/// drops.
pub proof fn law_dataflow_solution_any(blocks: Seq<MirBasicBlock>, entry: Set<usize>, f: FlowFacts)
    requires
        f.move_locals.finite(),
        entry.finite(),
    ensures
        is_solution(blocks, entry, f, dataflow_outs(blocks, entry, f)),
        is_extremal(blocks, entry, f, dataflow_outs(blocks, entry, f)),
{
    lemma_picked_finite(flat(blocks), Pick::MoveAlloca);
    let g = Seq::new(blocks.len(), |b: int| f.move_locals);
    lemma_iter_init(blocks, entry, f, g);
    lemma_iterate(blocks, entry, f, g);
}

/// A local is live on entry to a block other than the entry block only if
/// it is live at the end of every predecessor.
pub proof fn law_live_in_meet(
    blocks: Seq<MirBasicBlock>,
    modes: Seq<(Seq<char>, Seq<ParamMode>)>,
    b: int,
    p: int,
    e: usize,
)
    requires
        0 < b < blocks.len(),
        is_pred(blocks, p, b),
        block_live_in(blocks, modes, b).contains(e),
    ensures
        dataflow_outs(blocks, entry_alive(blocks), check_facts(blocks, modes).flow)[p].contains(e),
{
}

/// The entry block starts with exactly the owned parameters live.
pub proof fn law_entry_live_in(blocks: Seq<MirBasicBlock>, modes: Seq<(Seq<char>, Seq<ParamMode>)>)
    ensures
        block_live_in(blocks, modes, 0) == entry_alive(blocks),
{
}

/// A function without tracked locals is left alone: no reports, no frees.
pub proof fn law_untracked_untouched(blocks: Seq<MirBasicBlock>, modes: Seq<(Seq<char>, Seq<ParamMode>)>, b: int)
    requires
        !analysed(blocks),
    ensures
        function_errors(blocks, modes) == Seq::<Seq<char>>::empty(),
        function_frees(blocks, modes, b) == Set::<usize>::empty(),
        forall|i: int| 0 <= i < overwrites(blocks, modes, b).len() ==> #[trigger] overwrites(blocks, modes, b)[i] is None,
{
}

/// A store that overwrites an owned value frees it first: instruction `i`
/// of block `b` is preceded by a free call exactly when it is a `Store`
/// into a tracked local that is live and holds a value there (written by
/// a store, load, cast or call since its last allocation, in this block or
/// before it), other than the locals never freed; the call frees the
/// store's destination with the free function of its type.
pub proof fn law_frees_before_overwrites(
    blocks: Seq<MirBasicBlock>,
    modes: Seq<(Seq<char>, Seq<ParamMode>)>,
    b: int,
    i: int,
)
    requires
        0 <= b < blocks.len(),
        0 <= i < blocks[b].insts@.len(),
        analysed(blocks),
    ensures
        ({
            let live = check_insts(
                CheckState { alive: block_live_in(blocks, modes, b), errors: errors_upto(blocks, modes, b) },
                blocks[b].insts@.take(i),
                check_facts(blocks, modes),
            ).alive;
            overwrites(blocks, modes, b)[i] == (match blocks[b].insts@[i] {
                MirInst::Store { dest, .. } => if live.contains(dest) && holds_value(blocks, b, i, dest)
                    && !never_freed(blocks).contains(dest) {
                    Some((dest, free_name(types_of(flat(blocks)), dest)))
                } else {
                    None
                },
                _ => None,
            })
        }),
{
}

proof fn lemma_live_in_any(
    blocks: Seq<MirBasicBlock>,
    modes: Seq<(Seq<char>, Seq<ParamMode>)>,
    ss: Seq<int>,
    l: usize,
)
    ensures
        live_in_any(blocks, modes, ss).contains(l) <==> exists|k: int|
            0 <= k < ss.len() && #[trigger] block_live_in(blocks, modes, ss[k]).contains(l),
    decreases ss.len(),
{
    if ss.len() > 0 {
        lemma_live_in_any(blocks, modes, ss.drop_last(), l);
        if live_in_any(blocks, modes, ss).contains(l) {
            if !block_live_in(blocks, modes, ss.last()).contains(l) {
                let k = choose|k: int|
                    0 <= k < ss.drop_last().len() && #[trigger] block_live_in(blocks, modes, ss.drop_last()[k]).contains(l);
                assert(ss[k] == ss.drop_last()[k]);
            } else {
                assert(ss[ss.len() - 1] == ss.last());
            }
        }
        if exists|k: int| 0 <= k < ss.len() && #[trigger] block_live_in(blocks, modes, ss[k]).contains(l) {
            let k = choose|k: int| 0 <= k < ss.len() && #[trigger] block_live_in(blocks, modes, ss[k]).contains(l);
            if k < ss.len() - 1 {
                assert(ss.drop_last()[k] == ss[k]);
            }
        }
    }
}

/// Owned values are freed where their scope ends: at the end of every
/// block of an analysed function, each tracked local live after the
/// block's instructions is freed unless a successor block starts with it
/// live, the local a return hands to the caller is not freed, nor are the
/// parameters, aliases, string literals, borrowed references and clone
/// results.
pub proof fn law_frees_at_block_ends(blocks: Seq<MirBasicBlock>, modes: Seq<(Seq<char>, Seq<ParamMode>)>, b: int)
    requires
        0 <= b < blocks.len(),
        analysed(blocks),
    ensures
        !(blocks[b].terminator is Return) ==> function_frees(blocks, modes, b) == block_run(
            blocks,
            modes,
            b,
            errors_upto(blocks, modes, b),
        ).alive.difference(never_freed(blocks)).difference(
            live_in_any(blocks, modes, successors(blocks, blocks[b].terminator)),
        ),
        blocks[b].terminator is Return ==> function_frees(blocks, modes, b) == (match blocks[b].terminator {
            MirTerminator::Return(MirValue::Local(l)) => block_run(blocks, modes, b, errors_upto(blocks, modes, b)).alive.remove(l),
            _ => block_run(blocks, modes, b, errors_upto(blocks, modes, b)).alive,
        }).difference(never_freed(blocks)),
        function_frees(blocks, modes, b).disjoint(never_freed(blocks)),
{
    if blocks[b].terminator is Return {
        assert(successors(blocks, blocks[b].terminator) =~= Seq::<int>::empty());
        let a = match blocks[b].terminator {
            MirTerminator::Return(MirValue::Local(l)) => block_run(blocks, modes, b, errors_upto(blocks, modes, b)).alive.remove(l),
            _ => block_run(blocks, modes, b, errors_upto(blocks, modes, b)).alive,
        };
        assert(a.difference(never_freed(blocks)).difference(Set::<usize>::empty()) =~= a.difference(never_freed(blocks)));
    }
}

/// An owned value is freed at most once: a local freed at the end of a
/// block is not live on entry to any block that the block branches to, so
/// no later block frees the same value again (it is freed again only after
/// being written anew).
pub proof fn law_freed_values_die(
    blocks: Seq<MirBasicBlock>,
    modes: Seq<(Seq<char>, Seq<ParamMode>)>,
    b: int,
    s: int,
    l: usize,
)
    requires
        0 <= b < blocks.len(),
        is_pred(blocks, b, s),
        function_frees(blocks, modes, b).contains(l),
    ensures
        !block_live_in(blocks, modes, s).contains(l),
{
    reveal(edge);
    let ss = successors(blocks, blocks[b].terminator);
    let k = choose|k: int| 0 <= k < ss.len() && ss[k] == s;
    lemma_live_in_any(blocks, modes, ss, l);
    if block_live_in(blocks, modes, s).contains(l) {
        assert(block_live_in(blocks, modes, ss[k]).contains(l));
    }
}

/// Borrow by default: passing a local to a function that is not defined in
/// the module (a runtime function) neither consumes it nor reports anything,
/// except the value written through a pointer by `ky_ptr_write_*`.
pub proof fn law_runtime_calls_borrow(
    cs: CallState,
    l: usize,
    i: int,
    name: Seq<char>,
    cf: CheckFacts,
)
    requires
        modes_lookup(cf.flow.modes, name) is None,
        !(is_ptr_write_name(name) && i == 1),
    ensures
        check_arg(cs, l, i, None, name, cf) == cs,
        !consumes(None, i),
{
}

proof fn lemma_check_args_flow(
    cs: CallState,
    args: Seq<MirValue>,
    modes: Option<Seq<ParamMode>>,
    name: Seq<char>,
    cf: CheckFacts,
)
    requires
        !is_ptr_write_name(name),
    ensures
        check_args(cs, args, modes, name, cf).alive == flow_args(cs.alive, args, modes, cf.flow.load_map),
    decreases args.len(),
{
    if args.len() > 0 {
        lemma_check_args_flow(cs, args.drop_last(), modes, name, cf);
    }
}

/// The checking pass and the dataflow pass agree on what an instruction
/// does to the live owned locals, for every instruction but a cast (which
/// the dataflow pass does not read) and a call of `ky_ptr_write_*` (whose
/// written value the checking pass consumes and the dataflow pass keeps).
pub proof fn law_check_matches_flow(st: CheckState, inst: MirInst, cf: CheckFacts)
    requires
        !(inst is Cast),
        inst matches MirInst::Call { name, .. } ==> !is_ptr_write_name(name@),
    ensures
        check_inst(st, inst, cf).alive == flow_inst(st.alive, inst, cf.flow),
{
    match inst {
        MirInst::Call { dest, name, args } => {
            lemma_check_args_flow(
                CallState { alive: st.alive, errors: st.errors, borrows: Map::empty() },
                args@,
                modes_lookup(cf.flow.modes, name@),
                name@,
                cf,
            );
        },
        _ => {},
    }
}

/// The free call of a tracked local uses the runtime destructor of its
/// type: a collection whose kind is `k` (list, dict, set, queue, stack,
/// deque, linked list) is freed by `ky_<k>_free`, a channel by
/// `ky_channel_free`, and any other value by `ky_free`; so collections of
/// distinct kinds get distinct destructors.
pub proof fn law_free_function_of_type(types: Map<usize, MirType>, l: usize)
    ensures
        types.contains_key(l) && (types[l] is List || types[l] is Dict || types[l] is SetOf || types[l] is Queue || types[l] is Stack || types[l] is Deque || types[l] is LinkedList) ==> free_name(types, l) == "ky_"@ + type_kind(types[l]@) + "_free"@,
        types.contains_key(l) && types[l] is Chan ==> free_name(types, l) == "ky_channel_free"@,
        !(types.contains_key(l) && (types[l] is List || types[l] is Dict || types[l] is SetOf || types[l] is Queue || types[l] is Stack || types[l] is Deque || types[l] is LinkedList || types[l] is Chan)) ==> free_name(types, l) == "ky_free"@,
{
    reveal_strlit("ky_");
    reveal_strlit("_free");
    if types.contains_key(l) {
        match types[l] {
            MirType::List(..) => {
                reveal_strlit("list");
                reveal_strlit("ky_list_free");
                assert(free_name(types, l) =~= "ky_"@ + type_kind(types[l]@) + "_free"@);
            },
            MirType::Dict(..) => {
                reveal_strlit("dict");
                reveal_strlit("ky_dict_free");
                assert(free_name(types, l) =~= "ky_"@ + type_kind(types[l]@) + "_free"@);
            },
            MirType::SetOf(..) => {
                reveal_strlit("set");
                reveal_strlit("ky_set_free");
                assert(free_name(types, l) =~= "ky_"@ + type_kind(types[l]@) + "_free"@);
            },
            MirType::Queue(..) => {
                reveal_strlit("queue");
                reveal_strlit("ky_queue_free");
                assert(free_name(types, l) =~= "ky_"@ + type_kind(types[l]@) + "_free"@);
            },
            MirType::Stack(..) => {
                reveal_strlit("stack");
                reveal_strlit("ky_stack_free");
                assert(free_name(types, l) =~= "ky_"@ + type_kind(types[l]@) + "_free"@);
            },
            MirType::Deque(..) => {
                reveal_strlit("deque");
                reveal_strlit("ky_deque_free");
                assert(free_name(types, l) =~= "ky_"@ + type_kind(types[l]@) + "_free"@);
            },
            MirType::LinkedList(..) => {
                reveal_strlit("linked_list");
                reveal_strlit("ky_linked_list_free");
                assert(free_name(types, l) =~= "ky_"@ + type_kind(types[l]@) + "_free"@);
            },
            _ => {},
        }
    }
}

} // verus!
