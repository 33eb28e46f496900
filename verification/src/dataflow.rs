//! The forward dataflow analysis: which owned locals are live on entry to
//! each block.
use vstd::prelude::*;
use std::collections::HashMap;
use std::collections::VecDeque;
use crate::ast::ParamMode;
use crate::borrow_analysis::FuncModes;
use crate::local_set::LocalSet;
use crate::mir::{MirBasicBlock, MirInst, MirTerminator, MirValue, is_move_type};
use crate::ownership::{
    FlowFacts, Pick, is_extremal, is_solution, iter_inv, lemma_iter_done, lemma_iter_init, lemma_iter_step, universe, consume,
    consumes, dataflow_outs, edge, flat, flow_args, flow_inst, flow_insts, has_move_type, has_pred,
    is_pred, label_index, lemma_live_in_frame, lemma_picked_finite, live_in, modes_lookup, opt_seq,
    potential, rhs, successors, transfer,
};
use crate::collect::{deref_types, local_has_move_type};
use crate::mir::MirType;

verus! {

broadcast use vstd::std_specs::hash::group_hash_axioms;

/// The spec-level facts behind the executable ones.
pub open spec fn flow_facts(move_locals: &LocalSet, load_map: &HashMap<usize, usize>, func_map: &FuncModes) -> FlowFacts {
    FlowFacts { move_locals: move_locals@, load_map: load_map@, modes: func_map@ }
}

/// Index of the first block labelled `label`.
fn find_label(blocks: &Vec<MirBasicBlock>, label: &String) -> (r: Option<usize>)
    ensures
        match r {
            Some(i) => i < blocks@.len() && label_index(blocks@, label@) == Some(i as int),
            None => label_index(blocks@, label@) is None,
        },
{
    let mut i: usize = 0;
    while i < blocks.len()
        invariant
            i <= blocks@.len(),
            forall|j: int| 0 <= j < i ==> blocks@[j].label@ != label@,
        decreases blocks@.len() - i,
    {
        if blocks[i].label == *label {
            proof {
                let ghost c = choose|k: int|
                    0 <= k < blocks@.len() && blocks@[k].label@ == label@ && forall|j: int|
                        0 <= j < k ==> blocks@[j].label@ != label@;
                assert(0 <= c < blocks@.len() && blocks@[c].label@ == label@ && forall|j: int|
                    0 <= j < c ==> blocks@[j].label@ != label@);
                if c < i {
                } else if c > i {
                    assert(blocks@[i as int].label@ == label@);
                }
            }
            return Some(i);
        }
        i = i + 1;
    }
    None
}

pub open spec fn as_ints(v: Seq<usize>) -> Seq<int> {
    v.map_values(|x: usize| x as int)
}

fn push_found(v: &mut Vec<usize>, o: Option<usize>, n: usize)
    requires
        match o {
            Some(i) => i < n,
            None => true,
        },
    ensures
        as_ints(final(v)@) == as_ints(old(v)@) + opt_seq(
            match o {
                Some(i) => Some(i as int),
                None => None,
            },
        ),
        forall|k: int| 0 <= k < final(v)@.len() ==> final(v)@[k] < n || (k < old(v)@.len()
            && final(v)@[k] == old(v)@[k]),
{
    match o {
        Some(i) => {
            v.push(i);
        },
        None => {},
    }
    assert(as_ints(v@) =~= as_ints(old(v)@) + opt_seq(
        match o {
            Some(i) => Some(i as int),
            None => None,
        },
    ));
}

/// Successor block indices of a terminator.
pub fn terminator_successors(term: &MirTerminator, blocks: &Vec<MirBasicBlock>) -> (r: Vec<usize>)
    ensures
        as_ints(r@) == successors(blocks@, *term),
        forall|k: int| 0 <= k < r@.len() ==> r@[k] < blocks@.len(),
{
    let mut v: Vec<usize> = Vec::new();
    match term {
        MirTerminator::Br(label) => {
            let o = find_label(blocks, label);
            push_found(&mut v, o, blocks.len());
            assert(as_ints(v@) =~= successors(blocks@, *term));
        },
        MirTerminator::CondBr { true_block, false_block, .. } => {
            let o1 = find_label(blocks, true_block);
            push_found(&mut v, o1, blocks.len());
            let o2 = find_label(blocks, false_block);
            push_found(&mut v, o2, blocks.len());
            assert(as_ints(v@) =~= successors(blocks@, *term));
        },
        _ => {
            assert(as_ints(v@) =~= successors(blocks@, *term));
        },
    }
    v
}

proof fn lemma_push_contains(s: Seq<usize>, x: usize, q: int)
    ensures
        as_ints(s.push(x)).contains(q) <==> (as_ints(s).contains(q) || q == x),
{
    let a = as_ints(s.push(x));
    let o = as_ints(s);
    assert(a =~= o.push(x as int));
    if a.contains(q) && q != x {
        let j = choose|j: int| 0 <= j < a.len() && a[j] == q;
        assert(o[j] == q);
    }
    if o.contains(q) {
        let j = choose|j: int| 0 <= j < o.len() && o[j] == q;
        assert(a[j] == q);
    }
    if q == x {
        assert(a[o.len() as int] == q);
    }
}

proof fn lemma_take_push(s: Seq<usize>, k: int)
    requires
        0 <= k < s.len(),
    ensures
        forall|u: int| #[trigger] as_ints(s.take(k + 1)).contains(u) <==> (as_ints(s.take(k)).contains(u) || u == s[k]),
{
    assert(s.take(k + 1) =~= s.take(k).push(s[k]));
    assert forall|u: int| #[trigger] as_ints(s.take(k + 1)).contains(u) <==> (as_ints(s.take(k)).contains(u) || u == s[k]) by {
        lemma_push_contains(s.take(k), s[k], u);
    }
}

fn add_pred(preds: &mut Vec<Vec<usize>>, t: usize, p: usize)
    requires
        t < old(preds)@.len(),
    ensures
        final(preds)@.len() == old(preds)@.len(),
        forall|u: int| 0 <= u < old(preds)@.len() && u != t ==> final(preds)@[u] == old(preds)@[u],
        final(preds)@[t as int]@ == old(preds)@[t as int]@.push(p),
{
    let mut list: Vec<usize> = Vec::new();
    std::mem::swap(&mut list, &mut preds[t]);
    list.push(p);
    preds.set(t, list);
}

/// `q` once for each occurrence of `t` in `succ`.
pub open spec fn copies(succ: Seq<int>, t: int, q: int) -> Seq<int>
    decreases succ.len(),
{
    if succ.len() == 0 {
        Seq::empty()
    } else {
        copies(succ.drop_last(), t, q) + if succ.last() == t {
            seq![q]
        } else {
            Seq::<int>::empty()
        }
    }
}

/// The predecessors of block `t` among the first `p` blocks, in block
/// order, each block listed once per edge it has into `t`.
pub open spec fn pred_seq(blocks: Seq<MirBasicBlock>, t: int, p: int) -> Seq<int>
    decreases p,
{
    if p <= 0 {
        Seq::empty()
    } else {
        pred_seq(blocks, t, p - 1) + copies(successors(blocks, blocks[p - 1].terminator), t, p - 1)
    }
}

/// Predecessors of each block: for each block, the blocks with an edge
/// into it, in block order, once per edge.
#[verifier::rlimit(60)]
pub fn build_preds(blocks: &Vec<MirBasicBlock>) -> (r: Vec<Vec<usize>>)
    ensures
        r@.len() == blocks@.len(),
        forall|s: int| 0 <= s < r@.len() ==> as_ints(#[trigger] r@[s]@) == pred_seq(blocks@, s, blocks@.len() as int),
        forall|s: int, k: int| 0 <= s < r@.len() && 0 <= k < r@[s]@.len() ==> r@[s]@[k] < blocks@.len(),
        forall|s: int, p: int|
            0 <= s < r@.len() ==> (is_pred(blocks@, p, s) <==> #[trigger] as_ints(r@[s]@).contains(p)),
{
    reveal(edge);
    let n = blocks.len();
    let mut succs: Vec<Vec<usize>> = Vec::new();
    let mut i: usize = 0;
    while i < n
        invariant
            n == blocks@.len(),
            i <= n,
            succs@.len() == i,
            forall|p: int|
                0 <= p < i ==> as_ints(#[trigger] succs@[p]@) == successors(blocks@, blocks@[p].terminator),
            forall|p: int, k: int| 0 <= p < i && 0 <= k < succs@[p]@.len() ==> succs@[p]@[k] < n,
        decreases n - i,
    {
        succs.push(terminator_successors(&blocks[i].terminator, blocks));
        i = i + 1;
    }
    let mut preds: Vec<Vec<usize>> = Vec::new();
    let mut s: usize = 0;
    while s < n
        invariant
            n == blocks@.len(),
            s <= n,
            preds@.len() == s,
            forall|t: int| 0 <= t < s ==> (#[trigger] preds@[t])@.len() == 0,
        decreases n - s,
    {
        preds.push(Vec::new());
        s = s + 1;
    }
    // Invert the successor lists.
    let mut p: usize = 0;
    proof {
        assert forall|u: int| 0 <= u < n implies as_ints(#[trigger] preds@[u]@) == pred_seq(blocks@, u, 0) by {
            assert(as_ints(preds@[u]@) =~= Seq::<int>::empty());
        }
    }
    while p < n
        invariant
            n == blocks@.len(),
            p <= n,
            succs@.len() == n,
            preds@.len() == n,
            forall|q: int|
                0 <= q < n ==> as_ints(#[trigger] succs@[q]@) == successors(blocks@, blocks@[q].terminator),
            forall|q: int, k: int| 0 <= q < n && 0 <= k < succs@[q]@.len() ==> succs@[q]@[k] < n,
            forall|t: int, k: int| 0 <= t < n && 0 <= k < preds@[t]@.len() ==> preds@[t]@[k] < n,
            forall|t: int, q: int|
                0 <= t < n ==> (#[trigger] as_ints(preds@[t]@).contains(q) <==> (0 <= q < p
                    && successors(blocks@, blocks@[q].terminator).contains(t))),
            forall|t: int| 0 <= t < n ==> as_ints(#[trigger] preds@[t]@) == pred_seq(blocks@, t, p as int),
        decreases n - p,
    {
        let succ = &succs[p];
        let mut k: usize = 0;
        proof {
            assert forall|u: int| 0 <= u < n implies as_ints(#[trigger] preds@[u]@) == pred_seq(
                blocks@,
                u,
                p as int,
            ) + copies(as_ints(succ@.take(0)), u, p as int) by {
                assert(as_ints(succ@.take(0)).len() == 0);
                assert(pred_seq(blocks@, u, p as int) + copies(as_ints(succ@.take(0)), u, p as int)
                    =~= pred_seq(blocks@, u, p as int));
            }
        }
        while k < succ.len()
            invariant
                n == blocks@.len(),
                p < n,
                succs@.len() == n,
                preds@.len() == n,
                succ@ == succs@[p as int]@,
                k <= succ@.len(),
                forall|q: int|
                    0 <= q < n ==> as_ints(#[trigger] succs@[q]@) == successors(blocks@, blocks@[q].terminator),
                forall|q: int, j: int| 0 <= q < n && 0 <= j < succs@[q]@.len() ==> succs@[q]@[j] < n,
                forall|t: int, j: int| 0 <= t < n && 0 <= j < preds@[t]@.len() ==> preds@[t]@[j] < n,
                forall|t: int, q: int|
                    0 <= t < n ==> (#[trigger] as_ints(preds@[t]@).contains(q) <==> ((0 <= q < p
                        && successors(blocks@, blocks@[q].terminator).contains(t)) || (q == p
                        && as_ints(succ@.take(k as int)).contains(t)))),
                forall|t: int|
                    0 <= t < n ==> as_ints(#[trigger] preds@[t]@) == pred_seq(blocks@, t, p as int) + copies(
                        as_ints(succ@.take(k as int)),
                        t,
                        p as int,
                    ),
            decreases succ@.len() - k,
        {
            let t = succ[k];
            let ghost old_preds = preds@;
            add_pred(&mut preds, t, p);
            proof {
                lemma_take_push(succ@, k as int);
                assert forall|u: int, q: int|
                    0 <= u < n implies (#[trigger] as_ints(preds@[u]@).contains(q) <==> ((0 <= q < p
                        && successors(blocks@, blocks@[q].terminator).contains(u)) || (q == p
                        && as_ints(succ@.take(k + 1)).contains(u)))) by {
                    if u == t {
                        lemma_push_contains(old_preds[u]@, p, q);
                    }
                }
                let a = as_ints(succ@.take(k + 1));
                assert(a.drop_last() =~= as_ints(succ@.take(k as int)));
                assert(a.last() == t as int);
                assert forall|u: int| 0 <= u < n implies as_ints(#[trigger] preds@[u]@) == pred_seq(
                    blocks@,
                    u,
                    p as int,
                ) + copies(a, u, p as int) by {
                    if u == t {
                        assert(as_ints(preds@[u]@) =~= as_ints(old_preds[u]@).push(p as int));
                        assert(pred_seq(blocks@, u, p as int) + copies(a, u, p as int) =~= (pred_seq(
                            blocks@,
                            u,
                            p as int,
                        ) + copies(as_ints(succ@.take(k as int)), u, p as int)).push(p as int));
                    } else {
                        assert(pred_seq(blocks@, u, p as int) + copies(a, u, p as int) =~= pred_seq(
                            blocks@,
                            u,
                            p as int,
                        ) + copies(as_ints(succ@.take(k as int)), u, p as int));
                    }
                }
            }
            k = k + 1;
        }
        proof {
            assert(succ@.take(k as int) =~= succ@);
            assert forall|u: int| 0 <= u < n implies as_ints(#[trigger] preds@[u]@) == pred_seq(
                blocks@,
                u,
                p + 1,
            ) by {
                assert(pred_seq(blocks@, u, p + 1) == pred_seq(blocks@, u, p as int) + copies(
                    successors(blocks@, blocks@[p as int].terminator),
                    u,
                    p as int,
                ));
            }
        }
        p = p + 1;
    }
    preds
}

/// Remove `l` and the local it aliases from the live set.
pub fn consume_local(alive: &mut LocalSet, l: usize, load_map: &HashMap<usize, usize>)
    requires
        old(alive).wf(),
    ensures
        final(alive).wf(),
        final(alive)@ == consume(old(alive)@, l, load_map@),
{
    alive.remove(l);
    // Also the original owner of a load alias, if still live.
    if let Some(orig) = load_map.get(&l) {
        if alive.contains(*orig) {
            alive.remove(*orig);
        }
        assert(alive@ =~= consume(old(alive)@, l, load_map@));
    } else {
        assert(alive@ =~= consume(old(alive)@, l, load_map@));
    }
}

/// Whether argument `i` is consumed by a callee with these modes.
pub fn arg_consumed(modes: Option<&Vec<ParamMode>>, i: usize) -> (r: bool)
    ensures
        r == consumes(
            match modes {
                Some(m) => Some(m@),
                None => None,
            },
            i as int,
        ),
{
    match modes {
        Some(m) => !(i < m.len() && (m[i] == ParamMode::Borrow || m[i] == ParamMode::MutableBorrow)),
        None => false,
    }
}

/// Dataflow effect of one block: instructions, then terminator. Calls to
/// module functions consume their non-borrowed arguments; runtime functions
/// never consume. No reports are made here.
pub fn compute_alive_out(
    block: &MirBasicBlock,
    alive: &mut LocalSet,
    move_locals: &LocalSet,
    func_map: &FuncModes,
    load_map: &HashMap<usize, usize>,
)
    requires
        old(alive).wf(),
        move_locals.wf(),
    ensures
        final(alive).wf(),
        final(alive)@ == transfer(old(alive)@, *block, flow_facts(move_locals, load_map, func_map)),
{
    let ghost f = flow_facts(move_locals, load_map, func_map);
    let insts = &block.insts;
    let mut i: usize = 0;
    while i < insts.len()
        invariant
            f == flow_facts(move_locals, load_map, func_map),
            insts@ == block.insts@,
            i <= insts@.len(),
            move_locals.wf(),
            alive.wf(),
            alive@ == flow_insts(old(alive)@, insts@.take(i as int), f),
        decreases insts@.len() - i,
    {
        proof {
            assert(insts@.take(i + 1).drop_last() =~= insts@.take(i as int));
        }
        let ghost before = alive@;
        match &insts[i] {
            MirInst::Alloca { dest, type_, .. } => {
                if is_move_type(type_) {
                    alive.insert(*dest);
                }
            },
            MirInst::Load { dest, .. } => {
                if move_locals.contains(*dest) {
                    alive.insert(*dest);
                }
            },
            MirInst::Store { dest, value } => {
                if let MirValue::Local(src) = value {
                    consume_local(alive, *src, load_map);
                }
                if move_locals.contains(*dest) {
                    alive.insert(*dest);
                }
            },
            MirInst::Call { dest, name, args } => {
                let modes = func_map.lookup(name);
                let ghost gm = modes_lookup(f.modes, name@);
                let mut k: usize = 0;
                while k < args.len()
                    invariant
                        f == flow_facts(move_locals, load_map, func_map),
                        gm == match modes {
                            Some(m) => Some(m@),
                            None => None::<Seq<ParamMode>>,
                        },
                        k <= args@.len(),
                        alive.wf(),
                        alive@ == flow_args(before, args@.take(k as int), gm, load_map@),
                    decreases args@.len() - k,
                {
                    proof {
                        assert(args@.take(k + 1).drop_last() =~= args@.take(k as int));
                    }
                    if let MirValue::Local(l) = &args[k] {
                        if arg_consumed(modes, k) {
                            consume_local(alive, *l, load_map);
                        }
                    }
                    k = k + 1;
                }
                proof {
                    assert(args@.take(k as int) =~= args@);
                }
                if let Some(d) = dest {
                    if move_locals.contains(*d) {
                        alive.insert(*d);
                    }
                }
            },
            _ => {},
        }
        proof {
            assert(alive@ =~= flow_inst(before, insts@[i as int], f));
        }
        i = i + 1;
    }
    proof {
        assert(insts@.take(i as int) =~= insts@);
    }
    // A returned local is handed to the caller.
    if let MirTerminator::Return(MirValue::Local(l)) = &block.terminator {
        alive.remove(*l);
    }
}

/// The live sets of a vector of local sets.
pub open spec fn views(v: Seq<LocalSet>) -> Seq<Set<usize>> {
    v.map_values(|s: LocalSet| s@)
}

pub open spec fn all_wf(v: Seq<LocalSet>) -> bool {
    forall|i: int| 0 <= i < v.len() ==> (#[trigger] v[i]).wf()
}

fn deque_contains(w: &VecDeque<usize>, x: usize) -> (r: bool)
    ensures
        r == w@.contains(x),
{
    let mut i: usize = 0;
    while i < w.len()
        invariant
            i <= w@.len(),
            forall|j: int| 0 <= j < i ==> w@[j] != x,
        decreases w@.len() - i,
    {
        if w[i] == x {
            return true;
        }
        i = i + 1;
    }
    false
}

/// Live sets common to the ends of all listed predecessors.
fn meet_preds(pred_list: &Vec<usize>, outs: &Vec<LocalSet>) -> (r: LocalSet)
    requires
        pred_list@.len() > 0,
        forall|k: int| 0 <= k < pred_list@.len() ==> pred_list@[k] < outs@.len(),
        all_wf(outs@),
    ensures
        r.wf(),
        forall|e: usize|
            r@.contains(e) <==> (forall|k: int|
                0 <= k < pred_list@.len() ==> (#[trigger] outs@[pred_list@[k] as int])@.contains(e)),
{
    let mut acc = outs[pred_list[0]].copy();
    let mut k: usize = 1;
    while k < pred_list.len()
        invariant
            1 <= k <= pred_list@.len(),
            forall|j: int| 0 <= j < pred_list@.len() ==> pred_list@[j] < outs@.len(),
            all_wf(outs@),
            acc.wf(),
            forall|e: usize|
                acc@.contains(e) <==> (forall|j: int|
                    0 <= j < k ==> (#[trigger] outs@[pred_list@[j] as int])@.contains(e)),
        decreases pred_list@.len() - k,
    {
        let next = acc.intersect(&outs[pred_list[k]]);
        proof {
            assert forall|e: usize|
                next@.contains(e) <==> (forall|j: int|
                    0 <= j < k + 1 ==> (#[trigger] outs@[pred_list@[j] as int])@.contains(e)) by {
                if next@.contains(e) {
                    assert forall|j: int| 0 <= j < k + 1 implies (#[trigger] outs@[pred_list@[j] as int])@.contains(e) by {
                        if j < k {
                            assert(acc@.contains(e));
                        }
                    }
                }
            }
        }
        acc = next;
        k = k + 1;
    }
    acc
}

/// Owned parameters: parameter locals whose type is a move type.
pub fn entry_set(param_locals: &LocalSet, local_types: &HashMap<usize, &MirType>) -> (r: LocalSet)
    requires
        param_locals.wf(),
    ensures
        r.wf(),
        r@ == param_locals@.filter(|p: usize| has_move_type(deref_types(local_types@), p)),
{
    let mut r = LocalSet::new();
    let items = param_locals.members();
    let mut i: usize = 0;
    proof {
        param_locals.lemma_ordered();
    }
    while i < items.len()
        invariant
            param_locals.wf(),
            items@ == param_locals.ordered(),
            forall|x: usize| param_locals@.contains(x) <==> param_locals.ordered().contains(x),
            i <= items@.len(),
            r.wf(),
            forall|x: usize|
                r@.contains(x) <==> (items@.take(i as int).contains(x) && has_move_type(
                    deref_types(local_types@),
                    x,
                )),
        decreases items@.len() - i,
    {
        let p = items[i];
        proof {
            assert(items@.take(i + 1) =~= items@.take(i as int).push(p));
            assert forall|x: usize| #[trigger] items@.take(i + 1).contains(x) <==> (items@.take(i as int).contains(x) || x == p) by {
                if items@.take(i + 1).contains(x) && x != p {
                    let j = choose|j: int| 0 <= j < i + 1 && #[trigger] items@.take(i + 1)[j] == x;
                    assert(items@.take(i as int)[j] == x);
                }
                if items@.take(i as int).contains(x) {
                    let j = choose|j: int| 0 <= j < i && #[trigger] items@.take(i as int)[j] == x;
                    assert(items@.take(i + 1)[j] == x);
                }
                if x == p {
                    assert(items@.take(i + 1)[i as int] == x);
                }
            }
        }
        if local_has_move_type(local_types, p) {
            r.insert(p);
        }
        i = i + 1;
    }
    proof {
        assert(items@.take(i as int) =~= items@);
        assert(r@ =~= param_locals@.filter(|p: usize| has_move_type(deref_types(local_types@), p)));
    }
    r
}

/// Block `b` satisfies its equation and its recorded live-in set is current.
pub open spec fn stable(
    blocks: Seq<MirBasicBlock>,
    entry: Set<usize>,
    f: FlowFacts,
    g: Seq<Set<usize>>,
    ins: Seq<Set<usize>>,
    b: int,
) -> bool {
    g[b] == rhs(blocks, entry, f, g, b) && ins[b] == live_in(blocks, entry, g, b)
}

proof fn lemma_meet_is_live_in(
    bs: Seq<MirBasicBlock>,
    ent: Set<usize>,
    g: Seq<Set<usize>>,
    outs: Seq<LocalSet>,
    pl: Seq<usize>,
    b: int,
    inb: Set<usize>,
)
    requires
        0 <= b < bs.len(),
        g == views(outs),
        outs.len() == bs.len(),
        forall|p: int| is_pred(bs, p, b) <==> #[trigger] as_ints(pl).contains(p),
        b == 0 ==> inb == ent,
        b != 0 && pl.len() == 0 ==> inb == Set::<usize>::empty(),
        b != 0 && pl.len() > 0 ==> forall|e: usize|
            inb.contains(e) <==> (forall|k: int|
                0 <= k < pl.len() ==> (#[trigger] outs[pl[k] as int])@.contains(e)),
    ensures
        inb == live_in(bs, ent, g, b),
{
    if b != 0 {
        if pl.len() == 0 {
            if has_pred(bs, b) {
                let p = choose|p: int| is_pred(bs, p, b);
                assert(as_ints(pl).contains(p));
            }
            assert(inb =~= live_in(bs, ent, g, b));
        } else {
            assert(as_ints(pl)[0] == pl[0] as int);
            assert(as_ints(pl).contains(pl[0] as int));
            assert(has_pred(bs, b));
            assert forall|e: usize| inb.contains(e) <==> live_in(bs, ent, g, b).contains(e) by {
                if inb.contains(e) {
                    assert forall|p: int| #[trigger] is_pred(bs, p, b) implies g[p].contains(e) by {
                        assert(as_ints(pl).contains(p));
                        let k = choose|k: int| 0 <= k < as_ints(pl).len() && as_ints(pl)[k] == p;
                        assert(outs[pl[k] as int]@.contains(e));
                    }
                }
                if live_in(bs, ent, g, b).contains(e) {
                    assert forall|k: int| 0 <= k < pl.len() implies (#[trigger] outs[pl[k] as int])@.contains(e) by {
                        assert(as_ints(pl)[k] == pl[k] as int);
                        assert(as_ints(pl).contains(pl[k] as int));
                        assert(is_pred(bs, pl[k] as int, b));
                    }
                }
            }
            assert(inb =~= live_in(bs, ent, g, b));
        }
    }
}

/// Live owned locals on entry to each block: the extremal solution of the
/// dataflow equations, computed by worklist iteration with intersection at
/// joins. The live set at every block end starts as all tracked locals
/// (the top of the lattice) so that loop back-edges do not drop locals that
/// are live on every path.
#[verifier::spinoff_prover]
#[verifier::rlimit(50)]
pub fn compute_alive_in(
    blocks: &Vec<MirBasicBlock>,
    move_locals: &LocalSet,
    local_types: &HashMap<usize, &MirType>,
    param_locals: &LocalSet,
    func_map: &FuncModes,
    load_map: &HashMap<usize, usize>,
) -> (r: Vec<LocalSet>)
    requires
        move_locals.wf(),
        param_locals.wf(),
    ensures
        r@.len() == blocks@.len(),
        all_wf(r@),
        ({
            let f = flow_facts(move_locals, load_map, func_map);
            let entry = param_locals@.filter(|p: usize| has_move_type(deref_types(local_types@), p));
            &&& is_solution(blocks@, entry, f, dataflow_outs(blocks@, entry, f))
            &&& is_extremal(blocks@, entry, f, dataflow_outs(blocks@, entry, f))
            &&& forall|b: int|
                0 <= b < blocks@.len() ==> (#[trigger] r@[b])@ == live_in(
                    blocks@,
                    entry,
                    dataflow_outs(blocks@, entry, f),
                    b,
                )
        }),
{
    proof {
        let f = flow_facts(move_locals, load_map, func_map);
        let entry = param_locals@.filter(|p: usize| has_move_type(deref_types(local_types@), p));
        move_locals.lemma_ordered();
        param_locals.lemma_ordered();
        vstd::set_lib::lemma_set_subset_finite(param_locals@, entry);
        crate::laws::law_dataflow_solution_any(blocks@, entry, f);
    }
    let ghost f = flow_facts(move_locals, load_map, func_map);
    let ghost bs = blocks@;
    let n = blocks.len();
    let preds = build_preds(blocks);
    let entry = entry_set(param_locals, local_types);
    let ghost ent = entry@;
    let ghost ml = move_locals@;
    let ghost u = universe(bs, f, ent);
    proof {
        move_locals.lemma_ordered();
        entry.lemma_ordered();
        lemma_picked_finite(flat(bs), Pick::MoveAlloca);
    }

    let mut alive_in: Vec<LocalSet> = Vec::new();
    let mut alive_out: Vec<LocalSet> = Vec::new();
    let mut worklist: VecDeque<usize> = VecDeque::new();
    let mut i: usize = 0;
    while i < n
        invariant
            n == bs.len(),
            i <= n,
            move_locals.wf(),
            ml == move_locals@,
            alive_in@.len() == i,
            alive_out@.len() == i,
            worklist@.len() == i,
            all_wf(alive_in@),
            all_wf(alive_out@),
            forall|k: int| 0 <= k < i ==> (#[trigger] alive_out@[k])@ == ml,
            forall|k: int| 0 <= k < i ==> #[trigger] worklist@[k] == k,
        decreases n - i,
    {
        alive_in.push(LocalSet::new());
        alive_out.push(move_locals.copy());
        worklist.push_back(i);
        i = i + 1;
    }

    proof {
        let g = views(alive_out@);
        assert forall|k: int| 0 <= k < n implies #[trigger] g[k] == f.move_locals by {
            assert(alive_out@[k]@ == ml);
        }
        lemma_iter_init(bs, ent, f, g);
        assert forall|b: int| 0 <= b < n implies #[trigger] worklist@.contains(b as usize) by {
            assert(worklist@[b] == b);
        }
    }

    while worklist.len() > 0
        invariant
            n == bs.len(),
            bs == blocks@,
            f == flow_facts(move_locals, load_map, func_map),
            ent == entry@,
            ml == move_locals@,
            u == universe(bs, f, ent),
            ml.finite(),
            u.finite(),
            move_locals.wf(),
            entry.wf(),
            preds@.len() == n,
            forall|s: int, k: int| 0 <= s < n && 0 <= k < preds@[s]@.len() ==> preds@[s]@[k] < n,
            forall|s: int, p: int|
                0 <= s < n ==> (is_pred(bs, p, s) <==> #[trigger] as_ints(preds@[s]@).contains(p)),
            alive_in@.len() == n,
            alive_out@.len() == n,
            all_wf(alive_in@),
            all_wf(alive_out@),
            forall|k: int| 0 <= k < worklist@.len() ==> #[trigger] worklist@[k] < n,
            iter_inv(bs, ent, f, views(alive_out@)),
            forall|b: int|
                0 <= b < n && !#[trigger] worklist@.contains(b as usize) ==> stable(
                    bs,
                    ent,
                    f,
                    views(alive_out@),
                    views(alive_in@),
                    b,
                ),
        decreases potential(views(alive_out@), ml, u), worklist@.len(),
    {
        let ghost g = views(alive_out@);
        let ghost w0 = worklist@;
        let ghost in0 = views(alive_in@);
        let b = worklist.pop_front().unwrap();
        let block = &blocks[b];

        // Live on entry: owned parameters for the entry block, nothing for a
        // block without predecessors, else the meet over predecessors.
        let inb = if b == 0 {
            entry.copy()
        } else if preds[b].len() == 0 {
            LocalSet::new()
        } else {
            meet_preds(&preds[b], &alive_out)
        };
        proof {
            lemma_meet_is_live_in(bs, ent, g, alive_out@, preds@[b as int]@, b as int, inb@);
        }
        let mut alive = inb.copy();
        alive_in.set(b, inb);
        compute_alive_out(block, &mut alive, move_locals, func_map, load_map);
        let ghost newo = alive@;
        assert(newo == rhs(bs, ent, f, g, b as int));
        let ghost in1 = views(alive_in@);
        proof {
            assert(in1 =~= in0.update(b as int, live_in(bs, ent, g, b as int)));
        }

        if !alive.same(&alive_out[b]) {
            alive_out.set(b, alive);
            proof {
                assert(views(alive_out@) =~= g.update(b as int, newo));
                lemma_iter_step(bs, ent, f, g, b as int);
            }
            let succs = terminator_successors(&block.terminator, blocks);
            let mut k: usize = 0;
            while k < succs.len()
                invariant
                    n == bs.len(),
                    bs == blocks@,
                    b < n,
                    w0.len() >= 1,
                    as_ints(succs@) == successors(bs, bs[b as int].terminator),
                    forall|j: int| 0 <= j < succs@.len() ==> succs@[j] < n,
                    k <= succs@.len(),
                    forall|j: int| 0 <= j < worklist@.len() ==> #[trigger] worklist@[j] < n,
                    forall|j: int| 0 <= j < k ==> worklist@.contains(#[trigger] succs@[j]),
                    forall|c: usize| w0.subrange(1, w0.len() as int).contains(c) ==> #[trigger] worklist@.contains(c),
                decreases succs@.len() - k,
            {
                let s = succs[k];
                if !deque_contains(&worklist, s) {
                    let ghost wb = worklist@;
                    worklist.push_back(s);
                    proof {
                        assert forall|c: usize| wb.contains(c) implies #[trigger] worklist@.contains(c) by {
                            let j = choose|j: int| 0 <= j < wb.len() && wb[j] == c;
                            assert(worklist@[j] == c);
                        }
                        assert(worklist@[wb.len() as int] == s);
                    }
                }
                k = k + 1;
            }
            proof {
                let g2 = g.update(b as int, newo);
                assert forall|c: int| 0 <= c < n && !#[trigger] worklist@.contains(c as usize) implies stable(
                    bs,
                    ent,
                    f,
                    views(alive_out@),
                    views(alive_in@),
                    c,
                ) by {
                    assert(!is_pred(bs, b as int, c)) by {
                        reveal(edge);
                        if is_pred(bs, b as int, c) {
                            assert(successors(bs, bs[b as int].terminator).contains(c));
                            let j = choose|j: int| 0 <= j < as_ints(succs@).len() && as_ints(succs@)[j] == c;
                            assert(worklist@.contains(succs@[j]));
                        }
                    }
                    lemma_live_in_frame(bs, ent, g, b as int, newo, c);
                    if c != b {
                        assert(!w0.contains(c as usize)) by {
                            if w0.contains(c as usize) {
                                let j = choose|j: int| 0 <= j < w0.len() && w0[j] == c as usize;
                                assert(j != 0);
                                assert(w0.subrange(1, w0.len() as int)[j - 1] == c as usize);
                            }
                        }
                        assert(stable(bs, ent, f, g, in0, c));
                    }
                }
            }
        } else {
            proof {
                assert(newo =~= g[b as int]);
                assert(views(alive_out@) =~= g);
                assert forall|c: int| 0 <= c < n && !#[trigger] worklist@.contains(c as usize) implies stable(
                    bs,
                    ent,
                    f,
                    views(alive_out@),
                    views(alive_in@),
                    c,
                ) by {
                    if c != b {
                        assert(!w0.contains(c as usize)) by {
                            if w0.contains(c as usize) {
                                let j = choose|j: int| 0 <= j < w0.len() && w0[j] == c as usize;
                                assert(j != 0);
                                assert(worklist@[j - 1] == c as usize);
                            }
                        }
                        assert(stable(bs, ent, f, g, in0, c));
                    }
                }
            }
        }
    }
    proof {
        let g = views(alive_out@);
        assert forall|b: int| 0 <= b < bs.len() implies #[trigger] g[b] == rhs(bs, ent, f, g, b) by {
            assert(!worklist@.contains(b as usize));
            assert(stable(bs, ent, f, g, views(alive_in@), b));
        }
        lemma_iter_done(bs, ent, f, g);
        assert forall|b: int| 0 <= b < bs.len() implies (#[trigger] alive_in@[b])@ == live_in(bs, ent, dataflow_outs(bs, ent, f), b) by {
            assert(!worklist@.contains(b as usize));
            assert(stable(bs, ent, f, g, views(alive_in@), b));
        }
    }
    alive_in
}

} // verus!
