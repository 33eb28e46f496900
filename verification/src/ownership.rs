//! The mathematical model of the ownership analysis: what each MIR
//! instruction does to the set of live owned locals, the dataflow
//! equations over a function's control-flow graph, and what the checking
//! pass reports.
use vstd::prelude::*;
use crate::ast::ParamMode;
use crate::mir::{MirBasicBlock, MirConstant, MirFunction, MirInst, MirTerminator, MirType, MirValue, move_type};
use crate::text::{decimal, has_prefix};

verus! {

// ---------------------------------------------------------------------------
// Instruction streams
// ---------------------------------------------------------------------------

/// All instructions of the blocks, in block order.
pub open spec fn flat(blocks: Seq<MirBasicBlock>) -> Seq<MirInst>
    decreases blocks.len(),
{
    if blocks.len() == 0 {
        Seq::empty()
    } else {
        flat(blocks.drop_last()) + blocks.last().insts@
    }
}

pub proof fn lemma_flat_step(blocks: Seq<MirBasicBlock>, b: int)
    requires
        0 <= b < blocks.len(),
    ensures
        flat(blocks.take(b + 1)) == flat(blocks.take(b)) + blocks[b].insts@,
{
    assert(blocks.take(b + 1).drop_last() =~= blocks.take(b));
}

/// The instructions before position `i` of block `b`.
pub open spec fn prefix(blocks: Seq<MirBasicBlock>, b: int, i: int) -> Seq<MirInst> {
    flat(blocks.take(b)) + blocks[b].insts@.take(i)
}

pub proof fn lemma_prefix_step(blocks: Seq<MirBasicBlock>, b: int, i: int)
    requires
        0 <= b < blocks.len(),
        0 <= i < blocks[b].insts@.len(),
    ensures
        prefix(blocks, b, i + 1) == prefix(blocks, b, i).push(blocks[b].insts@[i]),
        prefix(blocks, b, i + 1).drop_last() == prefix(blocks, b, i),
        prefix(blocks, b, i + 1).last() == blocks[b].insts@[i],
{
    let s = blocks[b].insts@;
    assert(s.take(i + 1) =~= s.take(i).push(s[i]));
    assert(prefix(blocks, b, i + 1) =~= prefix(blocks, b, i).push(s[i]));
}

pub proof fn lemma_prefix_block_end(blocks: Seq<MirBasicBlock>, b: int)
    requires
        0 <= b < blocks.len(),
    ensures
        prefix(blocks, b, blocks[b].insts@.len() as int) == flat(blocks.take(b + 1)),
        b + 1 < blocks.len() ==> prefix(blocks, b + 1, 0) == flat(blocks.take(b + 1)),
{
    lemma_flat_step(blocks, b);
    assert(blocks[b].insts@.take(blocks[b].insts@.len() as int) =~= blocks[b].insts@);
    if b + 1 < blocks.len() {
        assert(blocks[b + 1].insts@.take(0) =~= Seq::<MirInst>::empty());
        assert(prefix(blocks, b + 1, 0) =~= flat(blocks.take(b + 1)));
    }
}

pub proof fn lemma_prefix_zero(blocks: Seq<MirBasicBlock>, b: int)
    requires
        0 <= b < blocks.len(),
    ensures
        prefix(blocks, b, 0) == flat(blocks.take(b)),
{
    assert(blocks[b].insts@.take(0) =~= Seq::<MirInst>::empty());
    assert(prefix(blocks, b, 0) =~= flat(blocks.take(b)));
}

pub proof fn lemma_prefix_full(blocks: Seq<MirBasicBlock>, b: int)
    requires
        0 <= b < blocks.len(),
    ensures
        prefix(blocks, b, blocks[b].insts@.len() as int) == flat(blocks.take(b + 1)),
{
    lemma_flat_step(blocks, b);
    assert(blocks[b].insts@.take(blocks[b].insts@.len() as int) =~= blocks[b].insts@);
}

pub proof fn lemma_take_zero(blocks: Seq<MirBasicBlock>)
    ensures
        flat(blocks.take(0)) == Seq::<MirInst>::empty(),
{
    assert(blocks.take(0) =~= Seq::<MirBasicBlock>::empty());
}

pub proof fn lemma_prefix_start(blocks: Seq<MirBasicBlock>)
    requires
        blocks.len() > 0,
    ensures
        prefix(blocks, 0, 0) == Seq::<MirInst>::empty(),
{
    assert(blocks.take(0) =~= Seq::<MirBasicBlock>::empty());
    assert(prefix(blocks, 0, 0) =~= Seq::<MirInst>::empty());
}

pub proof fn lemma_flat_all(blocks: Seq<MirBasicBlock>)
    ensures
        flat(blocks.take(blocks.len() as int)) == flat(blocks),
{
    assert(blocks.take(blocks.len() as int) =~= blocks);
}

// ---------------------------------------------------------------------------
// Facts collected from a function's instructions
// ---------------------------------------------------------------------------

/// Which destinations a collection pass gathers.
#[derive(Clone, Copy, Debug, PartialEq, Eq, Structural)]
pub enum Pick {
    /// Locals that receive a parameter (`Store { value: Param(_) }`).
    ParamStore,
    /// Locals initialised from a string constant.
    StringStore,
    /// Destinations of `Load` (aliases).
    LoadDest,
    /// Results of `ky_list_get` / `ky_dict_get` (borrowed references).
    GetCall,
    /// Results of `ky_clone_str`.
    CloneCall,
    /// Results of `ky_ptr_read_ptr` / `ky_ptr_read_i32`.
    RefDerefCall,
    /// Destinations of `FieldPtr`.
    FieldPtrDest,
    /// Destinations of `Alloca` of a move type.
    MoveAlloca,
}

pub open spec fn is_get_name(name: Seq<char>) -> bool {
    name == "ky_list_get"@ || name == "ky_dict_get"@
}

pub open spec fn is_ref_read_name(name: Seq<char>) -> bool {
    name == "ky_ptr_read_ptr"@ || name == "ky_ptr_read_i32"@
}

pub open spec fn is_ptr_write_name(name: Seq<char>) -> bool {
    name == "ky_ptr_write_ptr"@ || name == "ky_ptr_write_i32"@
}

/// The local that a collection pass gathers from one instruction, if any.
pub open spec fn pick(inst: MirInst, k: Pick) -> Option<usize> {
    match k {
        Pick::ParamStore => match inst {
            MirInst::Store { dest, value: MirValue::Param(_) } => Some(dest),
            _ => None,
        },
        Pick::StringStore => match inst {
            MirInst::Store { dest, value: MirValue::Constant(MirConstant::String(_)) } => Some(dest),
            _ => None,
        },
        Pick::LoadDest => match inst {
            MirInst::Load { dest, .. } => Some(dest),
            _ => None,
        },
        Pick::GetCall => match inst {
            MirInst::Call { dest, name, .. } => if is_get_name(name@) { dest } else { None },
            _ => None,
        },
        Pick::CloneCall => match inst {
            MirInst::Call { dest, name, .. } => if name@ == "ky_clone_str"@ { dest } else { None },
            _ => None,
        },
        Pick::RefDerefCall => match inst {
            MirInst::Call { dest, name, .. } => if is_ref_read_name(name@) { dest } else { None },
            _ => None,
        },
        Pick::FieldPtrDest => match inst {
            MirInst::FieldPtr { dest, .. } => Some(dest),
            _ => None,
        },
        Pick::MoveAlloca => match inst {
            MirInst::Alloca { dest, type_, .. } => if move_type(type_) { Some(dest) } else { None },
            _ => None,
        },
    }
}

pub open spec fn opt_set(o: Option<usize>) -> Set<usize> {
    match o {
        Some(x) => set![x],
        None => Set::empty(),
    }
}

/// Every local gathered by pass `k` over the instructions.
pub open spec fn picked(s: Seq<MirInst>, k: Pick) -> Set<usize>
    decreases s.len(),
{
    if s.len() == 0 {
        Set::empty()
    } else {
        picked(s.drop_last(), k).union(opt_set(pick(s.last(), k)))
    }
}

/// Destinations of casts whose source local is in `srcs`.
pub open spec fn cast_dest(inst: MirInst, srcs: Set<usize>) -> Option<usize> {
    match inst {
        MirInst::Cast { dest, value: MirValue::Local(src), .. } => if srcs.contains(src) {
            Some(dest)
        } else {
            None
        },
        _ => None,
    }
}

pub open spec fn casts_from(s: Seq<MirInst>, srcs: Set<usize>) -> Set<usize>
    decreases s.len(),
{
    if s.len() == 0 {
        Set::empty()
    } else {
        casts_from(s.drop_last(), srcs).union(opt_set(cast_dest(s.last(), srcs)))
    }
}

/// Locals holding borrowed references into a list or dict: get results and
/// casts of them.
pub open spec fn get_borrowed(all: Seq<MirInst>) -> Set<usize> {
    picked(all, Pick::GetCall).union(casts_from(all, picked(all, Pick::GetCall)))
}

/// The type of each local: that of its last `Alloca`.
pub open spec fn types_of(s: Seq<MirInst>) -> Map<usize, MirType>
    decreases s.len(),
{
    if s.len() == 0 {
        Map::empty()
    } else {
        let m = types_of(s.drop_last());
        match s.last() {
            MirInst::Alloca { dest, type_, .. } => m.insert(dest, type_),
            _ => m,
        }
    }
}

/// The source name of each local: that of its last `Alloca`.
pub open spec fn names_of(s: Seq<MirInst>) -> Map<usize, String>
    decreases s.len(),
{
    if s.len() == 0 {
        Map::empty()
    } else {
        let m = names_of(s.drop_last());
        match s.last() {
            MirInst::Alloca { dest, name, .. } => m.insert(dest, name),
            _ => m,
        }
    }
}

/// Whether an `Alloca` introduces an owned (tracked) local: a move type that
/// is neither a string-constant slot nor a borrowed get result.
pub open spec fn owned_alloca(inst: MirInst, excluded: Set<usize>) -> Option<usize> {
    match inst {
        MirInst::Alloca { dest, type_, name } => if !has_prefix(name@, "_lit_const"@)
            && !excluded.contains(dest) && move_type(type_) {
            Some(dest)
        } else {
            None
        },
        _ => None,
    }
}

pub open spec fn owned_allocas(s: Seq<MirInst>, excluded: Set<usize>) -> Set<usize>
    decreases s.len(),
{
    if s.len() == 0 {
        Set::empty()
    } else {
        owned_allocas(s.drop_last(), excluded).union(opt_set(owned_alloca(s.last(), excluded)))
    }
}

/// The locals whose ownership the analysis tracks.
pub open spec fn move_locals(all: Seq<MirInst>) -> Set<usize> {
    owned_allocas(all, get_borrowed(all))
}

pub open spec fn has_move_type(types: Map<usize, MirType>, l: usize) -> bool {
    types.contains_key(l) && move_type(types[l])
}

/// `dest -> src` for every `Load` whose destination has a move type: the
/// destination is an alias of the source.
pub open spec fn load_map_of(s: Seq<MirInst>, types: Map<usize, MirType>) -> Map<usize, usize>
    decreases s.len(),
{
    if s.len() == 0 {
        Map::empty()
    } else {
        let m = load_map_of(s.drop_last(), types);
        match s.last() {
            MirInst::Load { dest, src } => if has_move_type(types, dest) {
                m.insert(dest, src)
            } else {
                m
            },
            _ => m,
        }
    }
}

/// Sources of aliasing loads.
pub open spec fn load_sources_of(s: Seq<MirInst>, types: Map<usize, MirType>) -> Set<usize>
    decreases s.len(),
{
    if s.len() == 0 {
        Set::empty()
    } else {
        let m = load_sources_of(s.drop_last(), types);
        match s.last() {
            MirInst::Load { dest, src } => if has_move_type(types, dest) {
                m.insert(src)
            } else {
                m
            },
            _ => m,
        }
    }
}

/// Aliasing loads whose source is a struct field pointer.
pub open spec fn field_loaded_of(
    s: Seq<MirInst>,
    types: Map<usize, MirType>,
    field_ptrs: Set<usize>,
) -> Set<usize>
    decreases s.len(),
{
    if s.len() == 0 {
        Set::empty()
    } else {
        let m = field_loaded_of(s.drop_last(), types, field_ptrs);
        match s.last() {
            MirInst::Load { dest, src } => if has_move_type(types, dest) && field_ptrs.contains(
                src,
            ) {
                m.insert(dest)
            } else {
                m
            },
            _ => m,
        }
    }
}

// ---------------------------------------------------------------------------
// Parameter modes of the module's functions
// ---------------------------------------------------------------------------

/// `(name, parameter modes)` of each function.
pub open spec fn module_modes(fs: Seq<MirFunction>) -> Seq<(Seq<char>, Seq<ParamMode>)> {
    fs.map_values(|f: MirFunction| (f.name@, f.param_modes@))
}

/// The parameter modes of the last function called `name`, if any.
pub open spec fn modes_lookup(fm: Seq<(Seq<char>, Seq<ParamMode>)>, name: Seq<char>) -> Option<
    Seq<ParamMode>,
>
    decreases fm.len(),
{
    if fm.len() == 0 {
        None
    } else if fm.last().0 == name {
        Some(fm.last().1)
    } else {
        modes_lookup(fm.drop_last(), name)
    }
}

/// The mode of parameter `i`, if the callee is known and has one.
pub open spec fn mode_at(modes: Option<Seq<ParamMode>>, i: int) -> Option<ParamMode> {
    match modes {
        Some(m) => if 0 <= i < m.len() { Some(m[i]) } else { None },
        None => None,
    }
}

/// Whether passing argument `i` to a callee with these modes consumes it:
/// known (module) functions consume every argument that is not borrowed;
/// unknown (runtime) functions never do.
pub open spec fn consumes(modes: Option<Seq<ParamMode>>, i: int) -> bool {
    modes is Some && !(mode_at(modes, i) == Some(ParamMode::Borrow) || mode_at(modes, i) == Some(
        ParamMode::MutableBorrow,
    ))
}

// ---------------------------------------------------------------------------
// Transfer function of the dataflow analysis
// ---------------------------------------------------------------------------

/// What the dataflow transfer function reads.
pub struct FlowFacts {
    pub move_locals: Set<usize>,
    pub load_map: Map<usize, usize>,
    pub modes: Seq<(Seq<char>, Seq<ParamMode>)>,
}

/// The original owner of an alias (or the local itself).
pub open spec fn origin(load_map: Map<usize, usize>, l: usize) -> usize {
    if load_map.contains_key(l) { load_map[l] } else { l }
}

/// Moving `l` out: `l` and the local it aliases are no longer live.
pub open spec fn consume(alive: Set<usize>, l: usize, load_map: Map<usize, usize>) -> Set<usize> {
    alive.remove(l).remove(origin(load_map, l))
}

pub open spec fn flow_args(
    alive: Set<usize>,
    args: Seq<MirValue>,
    modes: Option<Seq<ParamMode>>,
    load_map: Map<usize, usize>,
) -> Set<usize>
    decreases args.len(),
{
    if args.len() == 0 {
        alive
    } else {
        let a = flow_args(alive, args.drop_last(), modes, load_map);
        match args.last() {
            MirValue::Local(l) => if consumes(modes, args.len() - 1) {
                consume(a, l, load_map)
            } else {
                a
            },
            _ => a,
        }
    }
}

pub open spec fn gen_if(alive: Set<usize>, cond: bool, l: usize) -> Set<usize> {
    if cond { alive.insert(l) } else { alive }
}

/// Live owned locals after one instruction (dataflow view: no checking).
pub open spec fn flow_inst(alive: Set<usize>, inst: MirInst, f: FlowFacts) -> Set<usize> {
    match inst {
        MirInst::Alloca { dest, type_, .. } => gen_if(alive, move_type(type_), dest),
        MirInst::Load { dest, .. } => gen_if(alive, f.move_locals.contains(dest), dest),
        MirInst::Store { dest, value } => {
            let a = match value {
                MirValue::Local(src) => consume(alive, src, f.load_map),
                _ => alive,
            };
            gen_if(a, f.move_locals.contains(dest), dest)
        },
        MirInst::Call { dest, name, args } => {
            let a = flow_args(alive, args@, modes_lookup(f.modes, name@), f.load_map);
            match dest {
                Some(d) => gen_if(a, f.move_locals.contains(d), d),
                None => a,
            }
        },
        _ => alive,
    }
}

pub open spec fn flow_insts(alive: Set<usize>, insts: Seq<MirInst>, f: FlowFacts) -> Set<usize>
    decreases insts.len(),
{
    if insts.len() == 0 {
        alive
    } else {
        flow_inst(flow_insts(alive, insts.drop_last(), f), insts.last(), f)
    }
}

/// A returned local is handed to the caller.
pub open spec fn flow_term(alive: Set<usize>, term: MirTerminator) -> Set<usize> {
    match term {
        MirTerminator::Return(MirValue::Local(l)) => alive.remove(l),
        _ => alive,
    }
}

/// Live owned locals at the end of a block, given those at its start.
pub open spec fn transfer(alive: Set<usize>, block: MirBasicBlock, f: FlowFacts) -> Set<usize> {
    flow_term(flow_insts(alive, block.insts@, f), block.terminator)
}

// ---------------------------------------------------------------------------
// Control-flow graph
// ---------------------------------------------------------------------------

/// Index of the first block with this label.
pub open spec fn label_index(blocks: Seq<MirBasicBlock>, label: Seq<char>) -> Option<int> {
    if exists|i: int| 0 <= i < blocks.len() && blocks[i].label@ == label {
        Some(
            choose|i: int|
                0 <= i < blocks.len() && blocks[i].label@ == label && forall|j: int|
                    0 <= j < i ==> blocks[j].label@ != label,
        )
    } else {
        None
    }
}

pub open spec fn opt_seq(o: Option<int>) -> Seq<int> {
    match o {
        Some(i) => seq![i],
        None => Seq::empty(),
    }
}

/// Successor block indices of a terminator, in branch order.
pub open spec fn successors(blocks: Seq<MirBasicBlock>, term: MirTerminator) -> Seq<int> {
    match term {
        MirTerminator::Br(label) => opt_seq(label_index(blocks, label@)),
        MirTerminator::CondBr { true_block, false_block, .. } => opt_seq(
            label_index(blocks, true_block@),
        ) + opt_seq(label_index(blocks, false_block@)),
        _ => Seq::empty(),
    }
}

/// Whether block `p` branches to block `b`.
#[verifier::opaque]
pub open spec fn edge(blocks: Seq<MirBasicBlock>, p: int, b: int) -> bool {
    successors(blocks, blocks[p].terminator).contains(b)
}

/// Whether `p -> b` is an edge.
pub open spec fn is_pred(blocks: Seq<MirBasicBlock>, p: int, b: int) -> bool {
    0 <= p < blocks.len() && edge(blocks, p, b)
}

pub open spec fn has_pred(blocks: Seq<MirBasicBlock>, b: int) -> bool {
    exists|p: int| is_pred(blocks, p, b)
}

// ---------------------------------------------------------------------------
// Dataflow equations
// ---------------------------------------------------------------------------

/// Owned locals live on entry to block `b`: the entry block starts with
/// the owned parameters; a block without predecessors starts empty; any
/// other block starts with what is live at the end of *all* predecessors.
pub open spec fn live_in(
    blocks: Seq<MirBasicBlock>,
    entry: Set<usize>,
    outs: Seq<Set<usize>>,
    b: int,
) -> Set<usize> {
    if b == 0 {
        entry
    } else if !has_pred(blocks, b) {
        Set::empty()
    } else {
        Set::new(|e: usize| forall|p: int| #[trigger] is_pred(blocks, p, b) ==> outs[p].contains(e))
    }
}

/// `outs` (live sets at block ends) solves the dataflow equations.
pub open spec fn is_solution(
    blocks: Seq<MirBasicBlock>,
    entry: Set<usize>,
    f: FlowFacts,
    outs: Seq<Set<usize>>,
) -> bool {
    &&& outs.len() == blocks.len()
    &&& forall|b: int|
        0 <= b < blocks.len() ==> #[trigger] outs[b] == transfer(
            live_in(blocks, entry, outs, b),
            blocks[b],
            f,
        )
}

/// The solution the analysis computes: for tracked locals the greatest one
/// (a tracked local stays live unless some path kills it), for other
/// locals the least one.
pub open spec fn is_extremal(
    blocks: Seq<MirBasicBlock>,
    entry: Set<usize>,
    f: FlowFacts,
    outs: Seq<Set<usize>>,
) -> bool {
    forall|s: Seq<Set<usize>>, b: int, e: usize|
        #![trigger is_solution(blocks, entry, f, s), s[b].contains(e)]
        is_solution(blocks, entry, f, s) && 0 <= b < blocks.len() ==> (if f.move_locals.contains(e) {
            s[b].contains(e) ==> outs[b].contains(e)
        } else {
            outs[b].contains(e) ==> s[b].contains(e)
        })
}

/// The dataflow solution: the extremal solution of the equations.
pub open spec fn dataflow_outs(blocks: Seq<MirBasicBlock>, entry: Set<usize>, f: FlowFacts) -> Seq<
    Set<usize>,
> {
    choose|outs: Seq<Set<usize>>|
        is_solution(blocks, entry, f, outs) && is_extremal(blocks, entry, f, outs)
}

// ---------------------------------------------------------------------------
// Facts about the transfer function
// ---------------------------------------------------------------------------

/// Whether `e` is in `x` only if it is in `y`.
pub open spec fn le_at(x: Set<usize>, y: Set<usize>, e: usize) -> bool {
    x.contains(e) ==> y.contains(e)
}

pub proof fn lemma_consume_mono(x: Set<usize>, y: Set<usize>, l: usize, lm: Map<usize, usize>, e: usize)
    requires
        le_at(x, y, e),
    ensures
        le_at(consume(x, l, lm), consume(y, l, lm), e),
{
}

pub proof fn lemma_flow_args_mono(
    x: Set<usize>,
    y: Set<usize>,
    args: Seq<MirValue>,
    modes: Option<Seq<ParamMode>>,
    lm: Map<usize, usize>,
    e: usize,
)
    requires
        le_at(x, y, e),
    ensures
        le_at(flow_args(x, args, modes, lm), flow_args(y, args, modes, lm), e),
    decreases args.len(),
{
    if args.len() > 0 {
        lemma_flow_args_mono(x, y, args.drop_last(), modes, lm, e);
    }
}

pub proof fn lemma_flow_insts_mono(x: Set<usize>, y: Set<usize>, insts: Seq<MirInst>, f: FlowFacts, e: usize)
    requires
        le_at(x, y, e),
    ensures
        le_at(flow_insts(x, insts, f), flow_insts(y, insts, f), e),
    decreases insts.len(),
{
    if insts.len() > 0 {
        lemma_flow_insts_mono(x, y, insts.drop_last(), f, e);
        let a = flow_insts(x, insts.drop_last(), f);
        let b = flow_insts(y, insts.drop_last(), f);
        match insts.last() {
            MirInst::Call { dest, name, args } => {
                lemma_flow_args_mono(a, b, args@, modes_lookup(f.modes, name@), f.load_map, e);
            },
            _ => {},
        }
    }
}

/// The transfer function is monotone, element by element.
pub proof fn lemma_transfer_mono(x: Set<usize>, y: Set<usize>, block: MirBasicBlock, f: FlowFacts, e: usize)
    requires
        le_at(x, y, e),
    ensures
        le_at(transfer(x, block, f), transfer(y, block, f), e),
{
    lemma_flow_insts_mono(x, y, block.insts@, f, e);
}

pub proof fn lemma_flow_args_bound(
    x: Set<usize>,
    args: Seq<MirValue>,
    modes: Option<Seq<ParamMode>>,
    lm: Map<usize, usize>,
)
    ensures
        flow_args(x, args, modes, lm).subset_of(x),
    decreases args.len(),
{
    if args.len() > 0 {
        lemma_flow_args_bound(x, args.drop_last(), modes, lm);
    }
}

/// What a sequence of instructions can make live: tracked locals and
/// destinations of move-typed allocas.
pub proof fn lemma_flow_insts_bound(x: Set<usize>, insts: Seq<MirInst>, f: FlowFacts)
    ensures
        flow_insts(x, insts, f).subset_of(x + f.move_locals + picked(insts, Pick::MoveAlloca)),
    decreases insts.len(),
{
    if insts.len() > 0 {
        lemma_flow_insts_bound(x, insts.drop_last(), f);
        let a = flow_insts(x, insts.drop_last(), f);
        match insts.last() {
            MirInst::Call { dest, name, args } => {
                lemma_flow_args_bound(a, args@, modes_lookup(f.modes, name@), f.load_map);
            },
            _ => {},
        }
    }
}

pub proof fn lemma_picked_concat(s: Seq<MirInst>, t: Seq<MirInst>, k: Pick)
    ensures
        picked(s + t, k) == picked(s, k) + picked(t, k),
    decreases t.len(),
{
    if t.len() == 0 {
        assert(s + t =~= s);
        assert(picked(t, k) =~= Set::<usize>::empty());
        assert(picked(s, k) + picked(t, k) =~= picked(s, k));
    } else {
        lemma_picked_concat(s, t.drop_last(), k);
        assert((s + t).drop_last() =~= s + t.drop_last());
        assert((s + t).last() == t.last());
        assert(picked(s + t, k) =~= picked(s, k) + picked(t, k));
    }
}

pub proof fn lemma_picked_block(blocks: Seq<MirBasicBlock>, b: int, k: Pick)
    requires
        0 <= b < blocks.len(),
    ensures
        picked(blocks[b].insts@, k).subset_of(picked(flat(blocks), k)),
    decreases blocks.len(),
{
    lemma_picked_concat(flat(blocks.drop_last()), blocks.last().insts@, k);
    if b < blocks.len() - 1 {
        lemma_picked_block(blocks.drop_last(), b, k);
    }
}

pub proof fn lemma_picked_finite(s: Seq<MirInst>, k: Pick)
    ensures
        picked(s, k).finite(),
    decreases s.len(),
{
    if s.len() > 0 {
        lemma_picked_finite(s.drop_last(), k);
    }
}

// ---------------------------------------------------------------------------
// Facts about the dataflow equations
// ---------------------------------------------------------------------------

/// The right-hand side of the equation of block `b`.
pub open spec fn rhs(
    blocks: Seq<MirBasicBlock>,
    entry: Set<usize>,
    f: FlowFacts,
    outs: Seq<Set<usize>>,
    b: int,
) -> Set<usize> {
    transfer(live_in(blocks, entry, outs, b), blocks[b], f)
}

/// `o1` is below `o2` at `e`, block by block.
pub open spec fn seq_le_at(o1: Seq<Set<usize>>, o2: Seq<Set<usize>>, n: int, e: usize) -> bool {
    forall|p: int| 0 <= p < n ==> #[trigger] o1[p].contains(e) ==> o2[p].contains(e)
}

pub proof fn lemma_live_in_mono(
    blocks: Seq<MirBasicBlock>,
    entry: Set<usize>,
    o1: Seq<Set<usize>>,
    o2: Seq<Set<usize>>,
    b: int,
    e: usize,
)
    requires
        seq_le_at(o1, o2, blocks.len() as int, e),
    ensures
        le_at(live_in(blocks, entry, o1, b), live_in(blocks, entry, o2, b), e),
{
    if b != 0 && has_pred(blocks, b) && live_in(blocks, entry, o1, b).contains(e) {
        assert forall|p: int| #[trigger] is_pred(blocks, p, b) implies o2[p].contains(e) by {
            assert(o1[p].contains(e));
        }
    }
}

pub proof fn lemma_rhs_mono(
    blocks: Seq<MirBasicBlock>,
    entry: Set<usize>,
    f: FlowFacts,
    o1: Seq<Set<usize>>,
    o2: Seq<Set<usize>>,
    b: int,
    e: usize,
)
    requires
        seq_le_at(o1, o2, blocks.len() as int, e),
    ensures
        le_at(rhs(blocks, entry, f, o1, b), rhs(blocks, entry, f, o2, b), e),
{
    lemma_live_in_mono(blocks, entry, o1, o2, b, e);
    lemma_transfer_mono(live_in(blocks, entry, o1, b), live_in(blocks, entry, o2, b), blocks[b], f, e);
}

/// Updating the live set at the end of `b` only affects the blocks that `b` branches to.
pub proof fn lemma_live_in_frame(
    blocks: Seq<MirBasicBlock>,
    entry: Set<usize>,
    outs: Seq<Set<usize>>,
    b: int,
    x: Set<usize>,
    c: int,
)
    requires
        0 <= b < outs.len(),
        outs.len() == blocks.len(),
        !is_pred(blocks, b, c),
    ensures
        live_in(blocks, entry, outs.update(b, x), c) == live_in(blocks, entry, outs, c),
{
    let o2 = outs.update(b, x);
    assert forall|p: int| #[trigger] is_pred(blocks, p, c) implies o2[p] == outs[p] by {
        assert(p != b);
    }
    if c != 0 && has_pred(blocks, c) {
        assert(live_in(blocks, entry, o2, c) =~= live_in(blocks, entry, outs, c));
    }
}

/// At most one extremal solution exists.
pub proof fn lemma_extremal_unique(
    blocks: Seq<MirBasicBlock>,
    entry: Set<usize>,
    f: FlowFacts,
    o1: Seq<Set<usize>>,
    o2: Seq<Set<usize>>,
)
    requires
        is_solution(blocks, entry, f, o1),
        is_extremal(blocks, entry, f, o1),
        is_solution(blocks, entry, f, o2),
        is_extremal(blocks, entry, f, o2),
    ensures
        o1 == o2,
{
    assert forall|b: int| 0 <= b < o1.len() implies o1[b] == o2[b] by {
        assert forall|e: usize| o1[b].contains(e) <==> o2[b].contains(e) by {
            if o1[b].contains(e) {
                assert(is_solution(blocks, entry, f, o1) && o1[b].contains(e));
            }
            if o2[b].contains(e) {
                assert(is_solution(blocks, entry, f, o2) && o2[b].contains(e));
            }
        }
        assert(o1[b] =~= o2[b]);
    }
    assert(o1 =~= o2);
}

/// Invariant of the iteration at block `b`, element `e`: tracked locals only
/// leave the live sets, untracked ones only join them.
pub open spec fn ordered_at(
    blocks: Seq<MirBasicBlock>,
    entry: Set<usize>,
    f: FlowFacts,
    outs: Seq<Set<usize>>,
    b: int,
    e: usize,
) -> bool {
    if f.move_locals.contains(e) {
        le_at(rhs(blocks, entry, f, outs, b), outs[b], e)
    } else {
        le_at(outs[b], rhs(blocks, entry, f, outs, b), e)
    }
}

/// `outs` lies between the extremal solution and the start of the iteration.
pub open spec fn bounded_by(f: FlowFacts, outs: Seq<Set<usize>>, s: Seq<Set<usize>>, b: int, e: usize) -> bool {
    if f.move_locals.contains(e) {
        le_at(s[b], outs[b], e)
    } else {
        le_at(outs[b], s[b], e)
    }
}

// ---------------------------------------------------------------------------
// Termination measure of the worklist iteration
// ---------------------------------------------------------------------------

/// Tracked locals still live, plus untracked locals not yet live.
pub open spec fn weight(x: Set<usize>, ml: Set<usize>, u: Set<usize>) -> nat {
    x.intersect(ml).len() + u.difference(ml).difference(x).len()
}

pub open spec fn potential(outs: Seq<Set<usize>>, ml: Set<usize>, u: Set<usize>) -> nat
    decreases outs.len(),
{
    if outs.len() == 0 {
        0
    } else {
        potential(outs.drop_last(), ml, u) + weight(outs.last(), ml, u)
    }
}

pub proof fn lemma_potential_update(outs: Seq<Set<usize>>, b: int, x: Set<usize>, ml: Set<usize>, u: Set<usize>)
    requires
        0 <= b < outs.len(),
    ensures
        potential(outs.update(b, x), ml, u) + weight(outs[b], ml, u) == potential(outs, ml, u) + weight(x, ml, u),
    decreases outs.len(),
{
    let o2 = outs.update(b, x);
    if b == outs.len() - 1 {
        assert(o2.drop_last() =~= outs.drop_last());
    } else {
        lemma_potential_update(outs.drop_last(), b, x, ml, u);
        assert(o2.drop_last() =~= outs.drop_last().update(b, x));
    }
}

proof fn lemma_strict_subset_len(a: Set<usize>, b: Set<usize>, x: usize)
    requires
        b.finite(),
        a.subset_of(b),
        b.contains(x),
        !a.contains(x),
    ensures
        a.len() < b.len(),
{
    vstd::set_lib::lemma_len_subset(a, b.remove(x));
}

/// A strict step of the iteration lowers the weight of the updated block.
pub proof fn lemma_weight_decreases(old: Set<usize>, new: Set<usize>, ml: Set<usize>, u: Set<usize>)
    requires
        ml.finite(),
        u.finite(),
        old.subset_of(u),
        new.subset_of(u),
        forall|e: usize| ml.contains(e) && new.contains(e) ==> old.contains(e),
        forall|e: usize| !ml.contains(e) && old.contains(e) ==> new.contains(e),
        new != old,
    ensures
        weight(new, ml, u) < weight(old, ml, u),
{
    let a_old = old.intersect(ml);
    let a_new = new.intersect(ml);
    let b_old = u.difference(ml).difference(old);
    let b_new = u.difference(ml).difference(new);
    vstd::set_lib::lemma_len_subset(a_new, a_old);
    vstd::set_lib::lemma_len_subset(b_new, b_old);
    assert(a_new.subset_of(a_old));
    assert(b_new.subset_of(b_old));
    if new.subset_of(old) && old.subset_of(new) {
        assert(new =~= old);
    }
    if !new.subset_of(old) {
        let e = choose|e: usize| new.contains(e) && !old.contains(e);
        lemma_strict_subset_len(b_new, b_old, e);
    } else {
        let e = choose|e: usize| old.contains(e) && !new.contains(e);
        lemma_strict_subset_len(a_new, a_old, e);
    }
}

// ---------------------------------------------------------------------------
// The worklist iteration
// ---------------------------------------------------------------------------

/// The universe of locals that can ever be live.
pub open spec fn universe(blocks: Seq<MirBasicBlock>, f: FlowFacts, entry: Set<usize>) -> Set<usize> {
    f.move_locals + picked(flat(blocks), Pick::MoveAlloca) + entry
}

/// What holds of the live sets at block ends throughout the iteration.
#[verifier::opaque]
pub open spec fn iter_inv(blocks: Seq<MirBasicBlock>, entry: Set<usize>, f: FlowFacts, g: Seq<Set<usize>>) -> bool {
    &&& g.len() == blocks.len()
    &&& forall|b: int, e: usize| 0 <= b < blocks.len() ==> #[trigger] ordered_at(blocks, entry, f, g, b, e)
    &&& forall|s: Seq<Set<usize>>, b: int, e: usize|
        is_solution(blocks, entry, f, s) && 0 <= b < blocks.len() ==> #[trigger] bounded_by(f, g, s, b, e)
    &&& forall|b: int| 0 <= b < blocks.len() ==> (#[trigger] g[b]).subset_of(universe(blocks, f, entry))
}

pub proof fn lemma_rhs_bounded(
    blocks: Seq<MirBasicBlock>,
    entry: Set<usize>,
    f: FlowFacts,
    outs: Seq<Set<usize>>,
    b: int,
)
    requires
        0 <= b < blocks.len(),
        outs.len() == blocks.len(),
        forall|p: int| 0 <= p < outs.len() ==> (#[trigger] outs[p]).subset_of(universe(blocks, f, entry)),
    ensures
        rhs(blocks, entry, f, outs, b).subset_of(universe(blocks, f, entry)),
{
    let u = universe(blocks, f, entry);
    let li = live_in(blocks, entry, outs, b);
    if b != 0 && has_pred(blocks, b) {
        let p = choose|p: int| is_pred(blocks, p, b);
        assert forall|e: usize| li.contains(e) implies u.contains(e) by {
            assert(outs[p].contains(e));
        }
    }
    assert(li.subset_of(u));
    lemma_flow_insts_bound(li, blocks[b].insts@, f);
    lemma_picked_block(blocks, b, Pick::MoveAlloca);
}

/// The iteration starts with every block end at the tracked locals.
pub proof fn lemma_iter_init(blocks: Seq<MirBasicBlock>, entry: Set<usize>, f: FlowFacts, g: Seq<Set<usize>>)
    requires
        g.len() == blocks.len(),
        forall|b: int| 0 <= b < g.len() ==> #[trigger] g[b] == f.move_locals,
    ensures
        iter_inv(blocks, entry, f, g),
{
    reveal(iter_inv);
    assert forall|b: int, e: usize| 0 <= b < blocks.len() implies #[trigger] ordered_at(blocks, entry, f, g, b, e) by {
        assert(g[b] == f.move_locals);
    }
    assert forall|s: Seq<Set<usize>>, b: int, e: usize|
        is_solution(blocks, entry, f, s) && 0 <= b < blocks.len() implies #[trigger] bounded_by(f, g, s, b, e) by {
        assert(g[b] == f.move_locals);
    }
    assert forall|b: int| 0 <= b < blocks.len() implies (#[trigger] g[b]).subset_of(universe(blocks, f, entry)) by {
        assert(g[b] == f.move_locals);
    }
}

/// One strict step of the iteration keeps its invariant and lowers the potential.
pub proof fn lemma_iter_step(
    blocks: Seq<MirBasicBlock>,
    entry: Set<usize>,
    f: FlowFacts,
    g: Seq<Set<usize>>,
    b: int,
)
    requires
        iter_inv(blocks, entry, f, g),
        0 <= b < blocks.len(),
        rhs(blocks, entry, f, g, b) != g[b],
        f.move_locals.finite(),
        universe(blocks, f, entry).finite(),
    ensures
        iter_inv(blocks, entry, f, g.update(b, rhs(blocks, entry, f, g, b))),
        potential(g.update(b, rhs(blocks, entry, f, g, b)), f.move_locals, universe(blocks, f, entry))
            < potential(g, f.move_locals, universe(blocks, f, entry)),
{
    reveal(iter_inv);
    let n = blocks.len() as int;
    let ml = f.move_locals;
    let u = universe(blocks, f, entry);
    let newo = rhs(blocks, entry, f, g, b);
    let oldo = g[b];
    let g2 = g.update(b, newo);
    assert forall|e: usize| ml.contains(e) && newo.contains(e) implies oldo.contains(e) by {
        assert(ordered_at(blocks, entry, f, g, b, e));
    }
    assert forall|e: usize| !ml.contains(e) && oldo.contains(e) implies newo.contains(e) by {
        assert(ordered_at(blocks, entry, f, g, b, e));
    }
    lemma_rhs_bounded(blocks, entry, f, g, b);
    lemma_weight_decreases(oldo, newo, ml, u);
    lemma_potential_update(g, b, newo, ml, u);
    assert forall|c: int, e: usize| 0 <= c < n implies #[trigger] ordered_at(blocks, entry, f, g2, c, e) by {
        assert(ordered_at(blocks, entry, f, g, b, e));
        assert(ordered_at(blocks, entry, f, g, c, e));
        if ml.contains(e) {
            assert(seq_le_at(g2, g, n, e));
            lemma_rhs_mono(blocks, entry, f, g2, g, c, e);
        } else {
            assert(seq_le_at(g, g2, n, e));
            lemma_rhs_mono(blocks, entry, f, g, g2, c, e);
        }
    }
    assert forall|s: Seq<Set<usize>>, c: int, e: usize|
        is_solution(blocks, entry, f, s) && 0 <= c < n implies #[trigger] bounded_by(f, g2, s, c, e) by {
        if c == b {
            assert(s[c] == rhs(blocks, entry, f, s, c));
            if ml.contains(e) {
                assert forall|p: int| 0 <= p < n implies (#[trigger] s[p].contains(e) ==> g[p].contains(e)) by {
                    assert(bounded_by(f, g, s, p, e));
                }
                lemma_rhs_mono(blocks, entry, f, s, g, c, e);
            } else {
                assert forall|p: int| 0 <= p < n implies (#[trigger] g[p].contains(e) ==> s[p].contains(e)) by {
                    assert(bounded_by(f, g, s, p, e));
                }
                lemma_rhs_mono(blocks, entry, f, g, s, c, e);
            }
        } else {
            assert(bounded_by(f, g, s, c, e));
        }
    }
    assert forall|c: int| 0 <= c < n implies (#[trigger] g2[c]).subset_of(u) by {
        if c != b {
            assert(g[c].subset_of(u));
        }
    }
}

/// When every block end satisfies its equation, the iteration has found
/// the dataflow solution.
pub proof fn lemma_iter_done(blocks: Seq<MirBasicBlock>, entry: Set<usize>, f: FlowFacts, g: Seq<Set<usize>>)
    requires
        iter_inv(blocks, entry, f, g),
        forall|b: int| 0 <= b < blocks.len() ==> #[trigger] g[b] == rhs(blocks, entry, f, g, b),
    ensures
        g == dataflow_outs(blocks, entry, f),
        is_solution(blocks, entry, f, g),
        is_extremal(blocks, entry, f, g),
{
    reveal(iter_inv);
    assert(is_solution(blocks, entry, f, g));
    assert(is_extremal(blocks, entry, f, g)) by {
        assert forall|s: Seq<Set<usize>>, b: int, e: usize|
            is_solution(blocks, entry, f, s) && 0 <= b < blocks.len() implies (if f.move_locals.contains(e) {
                s[b].contains(e) ==> g[b].contains(e)
            } else {
                g[b].contains(e) ==> s[b].contains(e)
            }) by {
            assert(bounded_by(f, g, s, b, e));
        }
    }
    let d = dataflow_outs(blocks, entry, f);
    assert(is_solution(blocks, entry, f, d) && is_extremal(blocks, entry, f, d));
    lemma_extremal_unique(blocks, entry, f, g, d);
}

// ---------------------------------------------------------------------------
// The checking pass
// ---------------------------------------------------------------------------

/// Borrow state of an owned local during one call.
#[derive(Clone, Copy, Debug, PartialEq, Eq, Structural)]
pub enum BorrowState {
    NotBorrowed,
    ImmBorrowed(u32),
    MutBorrowed,
}

/// What the checking pass reads.
pub struct CheckFacts {
    pub flow: FlowFacts,
    pub types: Map<usize, MirType>,
    pub names: Map<usize, String>,
}

/// How a local is named in a use-after-move report.
pub open spec fn move_name(names: Map<usize, String>, l: usize) -> Seq<char> {
    if names.contains_key(l) {
        names[l]@
    } else {
        "%"@ + decimal(l as nat)
    }
}

/// How a local is named in a borrow-conflict report.
pub open spec fn borrow_name(names: Map<usize, String>, l: usize) -> Seq<char> {
    if names.contains_key(l) {
        names[l]@
    } else {
        Seq::empty()
    }
}

pub open spec fn use_after_move_msg(context: Seq<char>, name: Seq<char>, l: usize) -> Seq<char> {
    "use-after-move: cannot "@ + context + " `"@ + name + "` (local #"@ + decimal(l as nat)
        + ") — value has been moved"@
}

pub open spec fn imm_while_mut_msg(name: Seq<char>) -> Seq<char> {
    "cannot borrow `"@ + name + "` immutably — it is already mutably borrowed"@
}

pub open spec fn mut_while_imm_msg(name: Seq<char>, count: u32) -> Seq<char> {
    "cannot mutably borrow `"@ + name + "` — it is already borrowed immutably ("@ + decimal(
        count as nat,
    ) + " borrows active)"@
}

pub open spec fn mut_while_mut_msg(name: Seq<char>) -> Seq<char> {
    "cannot mutably borrow `"@ + name + "` — it is already mutably borrowed"@
}

/// Live owned locals and the reports made so far.
pub struct CheckState {
    pub alive: Set<usize>,
    pub errors: Seq<Seq<char>>,
}

/// A use of `l`: reported if `l` is tracked and no longer live.
pub open spec fn check_use(st: CheckState, l: usize, context: Seq<char>, cf: CheckFacts) -> CheckState {
    if cf.flow.move_locals.contains(l) && !st.alive.contains(l) {
        CheckState {
            alive: st.alive,
            errors: st.errors.push(use_after_move_msg(context, move_name(cf.names, l), l)),
        }
    } else {
        st
    }
}

pub open spec fn check_value(st: CheckState, v: MirValue, context: Seq<char>, cf: CheckFacts) -> CheckState {
    match v {
        MirValue::Local(l) => check_use(st, l, context, cf),
        _ => st,
    }
}

/// State while the arguments of one call are checked.
pub struct CallState {
    pub alive: Set<usize>,
    pub errors: Seq<Seq<char>>,
    pub borrows: Map<usize, BorrowState>,
}

pub open spec fn borrow_of(borrows: Map<usize, BorrowState>, l: usize) -> BorrowState {
    if borrows.contains_key(l) {
        borrows[l]
    } else {
        BorrowState::NotBorrowed
    }
}

/// Whether argument `i` of a call to `name` is moved into the callee.
pub open spec fn moves_arg(modes: Option<Seq<ParamMode>>, name: Seq<char>, i: int) -> bool {
    !(mode_at(modes, i) == Some(ParamMode::Borrow) || mode_at(modes, i) == Some(
        ParamMode::MutableBorrow,
    )) && (modes is Some || (is_ptr_write_name(name) && i == 1))
}

/// Check local argument `l` at position `i`.
pub open spec fn check_arg(
    cs: CallState,
    l: usize,
    i: int,
    modes: Option<Seq<ParamMode>>,
    name: Seq<char>,
    cf: CheckFacts,
) -> CallState {
    let o = origin(cf.flow.load_map, l);
    let mode = mode_at(modes, i);
    if mode == Some(ParamMode::Borrow) {
        let st = check_use(CheckState { alive: cs.alive, errors: cs.errors }, l, "borrow"@, cf);
        match borrow_of(cs.borrows, o) {
            BorrowState::MutBorrowed => CallState {
                alive: st.alive,
                errors: st.errors.push(imm_while_mut_msg(borrow_name(cf.names, o))),
                borrows: cs.borrows,
            },
            BorrowState::ImmBorrowed(c) => CallState {
                alive: st.alive,
                errors: st.errors,
                borrows: cs.borrows.insert(o, BorrowState::ImmBorrowed((c + 1) as u32)),
            },
            BorrowState::NotBorrowed => CallState {
                alive: st.alive,
                errors: st.errors,
                borrows: cs.borrows.insert(o, BorrowState::ImmBorrowed(1)),
            },
        }
    } else if mode == Some(ParamMode::MutableBorrow) {
        let st = check_use(CheckState { alive: cs.alive, errors: cs.errors }, l, "mut borrow"@, cf);
        match borrow_of(cs.borrows, o) {
            BorrowState::NotBorrowed => CallState {
                alive: st.alive,
                errors: st.errors,
                borrows: cs.borrows.insert(o, BorrowState::MutBorrowed),
            },
            BorrowState::ImmBorrowed(c) => CallState {
                alive: st.alive,
                errors: st.errors.push(mut_while_imm_msg(borrow_name(cf.names, o), c)),
                borrows: cs.borrows,
            },
            BorrowState::MutBorrowed => CallState {
                alive: st.alive,
                errors: st.errors.push(mut_while_mut_msg(borrow_name(cf.names, o))),
                borrows: cs.borrows,
            },
        }
    } else if moves_arg(modes, name, i) {
        let st = check_use(CheckState { alive: cs.alive, errors: cs.errors }, l, "move"@, cf);
        CallState {
            alive: consume(st.alive, l, cf.flow.load_map),
            errors: st.errors,
            borrows: cs.borrows.remove(o),
        }
    } else {
        cs
    }
}

pub open spec fn check_args(
    cs: CallState,
    args: Seq<MirValue>,
    modes: Option<Seq<ParamMode>>,
    name: Seq<char>,
    cf: CheckFacts,
) -> CallState
    decreases args.len(),
{
    if args.len() == 0 {
        cs
    } else {
        let c = check_args(cs, args.drop_last(), modes, name, cf);
        match args.last() {
            MirValue::Local(l) => check_arg(c, l, args.len() - 1, modes, name, cf),
            _ => c,
        }
    }
}

/// Checking view of one instruction.
pub open spec fn check_inst(st: CheckState, inst: MirInst, cf: CheckFacts) -> CheckState {
    let ml = cf.flow.move_locals;
    match inst {
        MirInst::Alloca { dest, type_, .. } => CheckState {
            alive: gen_if(st.alive, move_type(type_), dest),
            errors: st.errors,
        },
        MirInst::Load { dest, src } => {
            let s1 = check_use(st, src, "read"@, cf);
            CheckState { alive: gen_if(s1.alive, ml.contains(dest), dest), errors: s1.errors }
        },
        MirInst::BinaryOp { left, right, .. } => check_value(
            check_value(st, left, "read"@, cf),
            right,
            "read"@,
            cf,
        ),
        MirInst::UnaryOp { operand, .. } => check_value(st, operand, "read"@, cf),
        MirInst::Cast { dest, value, .. } => {
            let s1 = match value {
                MirValue::Local(src) => if has_move_type(cf.types, src) && has_move_type(
                    cf.types,
                    dest,
                ) {
                    let s0 = check_use(st, src, "move"@, cf);
                    CheckState { alive: consume(s0.alive, src, cf.flow.load_map), errors: s0.errors }
                } else {
                    check_use(st, src, "read"@, cf)
                },
                _ => st,
            };
            CheckState { alive: gen_if(s1.alive, ml.contains(dest), dest), errors: s1.errors }
        },
        MirInst::Store { dest, value } => {
            let s1 = match value {
                MirValue::Local(src) => {
                    let s0 = check_use(st, src, "move"@, cf);
                    CheckState { alive: consume(s0.alive, src, cf.flow.load_map), errors: s0.errors }
                },
                _ => st,
            };
            CheckState { alive: gen_if(s1.alive, ml.contains(dest), dest), errors: s1.errors }
        },
        MirInst::Call { dest, name, args } => {
            let modes = modes_lookup(cf.flow.modes, name@);
            let c = check_args(
                CallState { alive: st.alive, errors: st.errors, borrows: Map::empty() },
                args@,
                modes,
                name@,
                cf,
            );
            match dest {
                Some(d) => CheckState { alive: gen_if(c.alive, ml.contains(d), d), errors: c.errors },
                None => CheckState { alive: c.alive, errors: c.errors },
            }
        },
        MirInst::PtrOffset { ptr, .. } => check_use(st, ptr, "read"@, cf),
        MirInst::PtrStore { ptr, value, .. } => check_value(
            check_use(st, ptr, "read"@, cf),
            value,
            "read"@,
            cf,
        ),
        MirInst::Memcpy { dest_ptr_local, src_alloca_local, .. } => check_use(
            check_use(st, dest_ptr_local, "read"@, cf),
            src_alloca_local,
            "read"@,
            cf,
        ),
        MirInst::FieldPtr { ptr, .. } => check_use(st, ptr, "read"@, cf),
        MirInst::AsyncAwait { handle, .. } => check_use(st, handle, "read"@, cf),
        _ => st,
    }
}

pub open spec fn check_insts(st: CheckState, insts: Seq<MirInst>, cf: CheckFacts) -> CheckState
    decreases insts.len(),
{
    if insts.len() == 0 {
        st
    } else {
        check_inst(check_insts(st, insts.drop_last(), cf), insts.last(), cf)
    }
}

/// Origins of the arguments passed by (mutable) borrow.
pub open spec fn borrow_origins(args: Seq<MirValue>, modes: Option<Seq<ParamMode>>, load_map: Map<usize, usize>) -> Set<usize>
    decreases args.len(),
{
    if args.len() == 0 {
        Set::empty()
    } else {
        let prev = borrow_origins(args.drop_last(), modes, load_map);
        match args.last() {
            MirValue::Local(l) => if mode_at(modes, args.len() - 1) == Some(ParamMode::Borrow)
                || mode_at(modes, args.len() - 1) == Some(ParamMode::MutableBorrow) {
                prev.insert(origin(load_map, l))
            } else {
                prev
            },
            _ => prev,
        }
    }
}

/// A call has fewer arguments than a borrow counter can count.
pub open spec fn args_fit(inst: MirInst) -> bool {
    match inst {
        MirInst::Call { args, .. } => args@.len() < u32::MAX,
        _ => true,
    }
}

// ---------------------------------------------------------------------------
// The analysis of one function
// ---------------------------------------------------------------------------

/// Everything the checking pass reads about a function.
pub open spec fn check_facts(blocks: Seq<MirBasicBlock>, modes: Seq<(Seq<char>, Seq<ParamMode>)>) -> CheckFacts {
    let all = flat(blocks);
    let types = types_of(all);
    CheckFacts {
        flow: FlowFacts { move_locals: move_locals(all), load_map: load_map_of(all, types), modes },
        types,
        names: names_of(all),
    }
}

/// Owned parameters: live on entry.
pub open spec fn entry_alive(blocks: Seq<MirBasicBlock>) -> Set<usize> {
    let all = flat(blocks);
    picked(all, Pick::ParamStore).filter(|p: usize| has_move_type(types_of(all), p))
}

/// Locals never freed at a return: parameters, aliases and their sources,
/// string literals, struct-field loads, borrowed get results, string clones
/// and dereferenced reference parameters.
pub open spec fn never_freed(blocks: Seq<MirBasicBlock>) -> Set<usize> {
    let all = flat(blocks);
    let types = types_of(all);
    picked(all, Pick::ParamStore)
        + picked(all, Pick::LoadDest)
        + load_sources_of(all, types)
        + picked(all, Pick::StringStore)
        + field_loaded_of(all, types, picked(all, Pick::FieldPtrDest))
        + get_borrowed(all)
        + picked(all, Pick::CloneCall)
        + picked(all, Pick::RefDerefCall)
}

/// Live owned locals on entry to block `b`.
pub open spec fn block_live_in(
    blocks: Seq<MirBasicBlock>,
    modes: Seq<(Seq<char>, Seq<ParamMode>)>,
    b: int,
) -> Set<usize> {
    let f = check_facts(blocks, modes).flow;
    let entry = entry_alive(blocks);
    live_in(blocks, entry, dataflow_outs(blocks, entry, f), b)
}

/// The checking pass over the instructions of block `b`, after the
/// reports `errs` of the earlier blocks.
pub open spec fn block_run(
    blocks: Seq<MirBasicBlock>,
    modes: Seq<(Seq<char>, Seq<ParamMode>)>,
    b: int,
    errs: Seq<Seq<char>>,
) -> CheckState {
    check_insts(
        CheckState { alive: block_live_in(blocks, modes, b), errors: errs },
        blocks[b].insts@,
        check_facts(blocks, modes),
    )
}

/// Reports after block `b`, including the read of a branch condition.
pub open spec fn block_end(
    blocks: Seq<MirBasicBlock>,
    modes: Seq<(Seq<char>, Seq<ParamMode>)>,
    b: int,
    errs: Seq<Seq<char>>,
) -> Seq<Seq<char>> {
    let st = block_run(blocks, modes, b, errs);
    match blocks[b].terminator {
        MirTerminator::CondBr { cond, .. } => check_value(st, cond, "read"@, check_facts(blocks, modes)).errors,
        _ => st.errors,
    }
}

/// Reports for blocks `0..k`, in block order.
pub open spec fn errors_upto(
    blocks: Seq<MirBasicBlock>,
    modes: Seq<(Seq<char>, Seq<ParamMode>)>,
    k: int,
) -> Seq<Seq<char>>
    decreases k,
{
    if k <= 0 {
        Seq::empty()
    } else {
        block_end(blocks, modes, k - 1, errors_upto(blocks, modes, k - 1))
    }
}

/// Owned locals live on entry to any of the blocks `ss`.
pub open spec fn live_in_any(
    blocks: Seq<MirBasicBlock>,
    modes: Seq<(Seq<char>, Seq<ParamMode>)>,
    ss: Seq<int>,
) -> Set<usize>
    decreases ss.len(),
{
    if ss.len() == 0 {
        Set::empty()
    } else {
        live_in_any(blocks, modes, ss.drop_last()) + block_live_in(blocks, modes, ss.last())
    }
}

/// Locals freed at the end of block `b`, where their scope ends: every
/// owned local still live after its instructions that no successor starts
/// with live, other than the one a return hands to the caller and those
/// never freed.
pub open spec fn block_frees(
    blocks: Seq<MirBasicBlock>,
    modes: Seq<(Seq<char>, Seq<ParamMode>)>,
    b: int,
) -> Set<usize> {
    let a = block_run(blocks, modes, b, errors_upto(blocks, modes, b)).alive;
    let a2 = match blocks[b].terminator {
        MirTerminator::Return(MirValue::Local(l)) => a.remove(l),
        _ => a,
    };
    a2.difference(never_freed(blocks)).difference(
        live_in_any(blocks, modes, successors(blocks, blocks[b].terminator)),
    )
}

/// The local an instruction writes a value into, if any.
pub open spec fn write_dest(inst: MirInst) -> Option<usize> {
    match inst {
        MirInst::Store { dest, .. } => Some(dest),
        MirInst::Load { dest, .. } => Some(dest),
        MirInst::Cast { dest, .. } => Some(dest),
        MirInst::Call { dest, .. } => dest,
        _ => None,
    }
}

/// Locals written (by a store, load, cast or call) since their last
/// `Alloca` in the instructions.
pub open spec fn stored(s: Seq<MirInst>) -> Set<usize>
    decreases s.len(),
{
    if s.len() == 0 {
        Set::empty()
    } else {
        let prev = stored(s.drop_last());
        match s.last() {
            MirInst::Alloca { dest, .. } => prev.remove(dest),
            _ => match write_dest(s.last()) {
                Some(d) => prev.insert(d),
                None => prev,
            },
        }
    }
}

/// Locals allocated in the instructions and not written since.
pub open spec fn fresh(s: Seq<MirInst>) -> Set<usize>
    decreases s.len(),
{
    if s.len() == 0 {
        Set::empty()
    } else {
        let prev = fresh(s.drop_last());
        match s.last() {
            MirInst::Alloca { dest, .. } => prev.insert(dest),
            _ => match write_dest(s.last()) {
                Some(d) => prev.remove(d),
                None => prev,
            },
        }
    }
}

/// Locals with an `Alloca` among the instructions.
pub open spec fn allocated(s: Seq<MirInst>) -> Set<usize>
    decreases s.len(),
{
    if s.len() == 0 {
        Set::empty()
    } else {
        let prev = allocated(s.drop_last());
        match s.last() {
            MirInst::Alloca { dest, .. } => prev.insert(dest),
            _ => prev,
        }
    }
}

/// Locals that end one of the first `k` blocks allocated but not written.
pub open spec fn unwritten_upto(blocks: Seq<MirBasicBlock>, k: int) -> Set<usize>
    decreases k,
{
    if k <= 0 {
        Set::empty()
    } else {
        unwritten_upto(blocks, k - 1) + fresh(blocks[k - 1].insts@)
    }
}

/// Locals that may enter a block allocated but not yet written.
pub open spec fn maybe_unwritten(blocks: Seq<MirBasicBlock>) -> Set<usize> {
    unwritten_upto(blocks, blocks.len() as int)
}

/// Whether local `d` holds a value before instruction `i` of block `b`:
/// written since its last `Alloca` in the block, or not allocated in the
/// block before `i` and never left allocated but unwritten at the end of
/// any block (so that it enters the block holding the value written
/// before).
pub open spec fn holds_value(blocks: Seq<MirBasicBlock>, b: int, i: int, d: usize) -> bool {
    let pre = blocks[b].insts@.take(i);
    stored(pre).contains(d) || (!allocated(pre).contains(d) && !maybe_unwritten(blocks).contains(d))
}

/// The local that instruction `i` of block `b` overwrites while it still
/// owns a value: a `Store` to a live owned local that holds a value, other
/// than the locals never freed.
pub open spec fn overwritten(
    blocks: Seq<MirBasicBlock>,
    modes: Seq<(Seq<char>, Seq<ParamMode>)>,
    b: int,
    i: int,
) -> Option<usize> {
    let insts = blocks[b].insts@;
    let before = check_insts(
        CheckState { alive: block_live_in(blocks, modes, b), errors: errors_upto(blocks, modes, b) },
        insts.take(i),
        check_facts(blocks, modes),
    ).alive;
    match insts[i] {
        MirInst::Store { dest, .. } => if analysed(blocks) && before.contains(dest) && holds_value(blocks, b, i, dest)
            && !never_freed(blocks).contains(dest) {
            Some(dest)
        } else {
            None
        },
        _ => None,
    }
}

/// For each instruction of block `b`: the local freed right before it, if
/// any, with the name of its free function.
pub open spec fn overwrites(
    blocks: Seq<MirBasicBlock>,
    modes: Seq<(Seq<char>, Seq<ParamMode>)>,
    b: int,
) -> Seq<Option<(usize, Seq<char>)>> {
    Seq::new(
        blocks[b].insts@.len(),
        |i: int|
            match overwritten(blocks, modes, b, i) {
                Some(d) => Some((d, free_name(types_of(flat(blocks)), d))),
                None => None,
            },
    )
}

/// `inst` is a call of `name` that frees `l`.
pub open spec fn is_named_free(inst: MirInst, l: usize, name: Seq<char>) -> bool {
    match inst {
        MirInst::Call { dest, name: n, args } => dest is None && n@ == name && args@ == seq![MirValue::Local(l)],
        _ => false,
    }
}

/// The model of a list of free calls to put before instructions.
pub open spec fn pre_view(v: Seq<Option<(usize, String)>>) -> Seq<Option<(usize, Seq<char>)>> {
    v.map_values(
        |o: Option<(usize, String)>|
            match o {
                Some(p) => Some((p.0, p.1@)),
                None => None,
            },
    )
}

/// `out` is the first `k` instructions of `insts`, each preceded by the
/// free call that `pre` gives for it, if any.
pub open spec fn frees_before(
    insts: Seq<MirInst>,
    pre: Seq<Option<(usize, Seq<char>)>>,
    out: Seq<MirInst>,
    k: int,
) -> bool
    decreases k,
{
    if k <= 0 {
        out.len() == 0
    } else {
        match pre[k - 1] {
            Some(p) => {
                &&& out.len() >= 2
                &&& out.last() == insts[k - 1]
                &&& is_named_free(out[out.len() - 2], p.0, p.1)
                &&& frees_before(insts, pre, out.take(out.len() - 2), k - 1)
            },
            None => {
                &&& out.len() >= 1
                &&& out.last() == insts[k - 1]
                &&& frees_before(insts, pre, out.drop_last(), k - 1)
            },
        }
    }
}

/// Whether the function has any tracked local at all; if not, it is left alone.
pub open spec fn analysed(blocks: Seq<MirBasicBlock>) -> bool {
    move_locals(flat(blocks)) != Set::<usize>::empty()
}

/// All reports for a function.
pub open spec fn function_errors(
    blocks: Seq<MirBasicBlock>,
    modes: Seq<(Seq<char>, Seq<ParamMode>)>,
) -> Seq<Seq<char>> {
    if analysed(blocks) {
        errors_upto(blocks, modes, blocks.len() as int)
    } else {
        Seq::empty()
    }
}

/// The runtime function that frees a value of this local's type.
pub open spec fn free_name(types: Map<usize, MirType>, l: usize) -> Seq<char> {
    if types.contains_key(l) {
        match types[l] {
            MirType::List(_) => "ky_list_free"@,
            MirType::Dict(_, _) => "ky_dict_free"@,
            MirType::SetOf(_) => "ky_set_free"@,
            MirType::Queue(_) => "ky_queue_free"@,
            MirType::Stack(_) => "ky_stack_free"@,
            MirType::Deque(_) => "ky_deque_free"@,
            MirType::LinkedList(_) => "ky_linked_list_free"@,
            MirType::Chan(_) => "ky_channel_free"@,
            _ => "ky_free"@,
        }
    } else {
        "ky_free"@
    }
}

/// `inst` frees local `l`.
pub open spec fn is_free_of(inst: MirInst, l: usize, types: Map<usize, MirType>) -> bool {
    match inst {
        MirInst::Call { dest, name, args } => dest is None && name@ == free_name(types, l) && args@
            == seq![MirValue::Local(l)],
        _ => false,
    }
}

/// `after` is `before` followed by one free call per local of `frees`,
/// in increasing order of local.
pub open spec fn frees_appended(
    before: Seq<MirInst>,
    after: Seq<MirInst>,
    frees: Set<usize>,
    types: Map<usize, MirType>,
) -> bool {
    exists|order: Seq<usize>|
        {
            &&& order.to_set() == frees
            &&& forall|i: int, j: int| 0 <= i < j < order.len() ==> order[i] < order[j]
            &&& after.len() == before.len() + order.len()
            &&& after.take(before.len() as int) == before
            &&& forall|j: int|
                0 <= j < order.len() ==> is_free_of(#[trigger] after[before.len() + j], order[j], types)
        }
}

/// Locals freed at the end of block `b` of a function.
pub open spec fn function_frees(
    blocks: Seq<MirBasicBlock>,
    modes: Seq<(Seq<char>, Seq<ParamMode>)>,
    b: int,
) -> Set<usize> {
    if analysed(blocks) {
        block_frees(blocks, modes, b)
    } else {
        Set::empty()
    }
}

/// `new` is `old` after the analysis: free calls were put before each
/// store that overwrites an owned value and at the end of each block.
pub open spec fn processed(old: MirFunction, new: MirFunction, modes: Seq<(Seq<char>, Seq<ParamMode>)>) -> bool {
    let bs = old.basic_blocks@;
    &&& new.name == old.name
    &&& new.params == old.params
    &&& new.param_modes == old.param_modes
    &&& new.return_type == old.return_type
    &&& new.is_fallible == old.is_fallible
    &&& new.is_const == old.is_const
    &&& new.local_count == old.local_count
    &&& new.basic_blocks@.len() == bs.len()
    &&& forall|b: int|
        0 <= b < bs.len() ==> {
            &&& (#[trigger] new.basic_blocks@[b]).label == bs[b].label
            &&& new.basic_blocks@[b].terminator == bs[b].terminator
            &&& exists|g: Seq<MirInst>|
                {
                    &&& #[trigger] frees_before(bs[b].insts@, overwrites(bs, modes, b), g, bs[b].insts@.len() as int)
                    &&& frees_appended(
                        g,
                        new.basic_blocks@[b].insts@,
                        function_frees(bs, modes, b),
                        types_of(flat(bs)),
                    )
                }
        }
}

/// Reports for the first `k` functions, in order.
pub open spec fn module_errors(
    fs: Seq<MirFunction>,
    modes: Seq<(Seq<char>, Seq<ParamMode>)>,
    k: int,
) -> Seq<Seq<char>>
    decreases k,
{
    if k <= 0 {
        Seq::empty()
    } else {
        module_errors(fs, modes, k - 1) + function_errors(fs[k - 1].basic_blocks@, modes)
    }
}

} // verus!
