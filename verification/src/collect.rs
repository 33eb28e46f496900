//! Passes that gather facts about a function from all its instructions.
use vstd::prelude::*;
use std::collections::HashMap;
use crate::local_set::LocalSet;
use crate::mir::{MirBasicBlock, MirConstant, MirInst, MirType, MirValue, is_move_type};
use crate::ownership::{
    Pick, casts_from, cast_dest, field_loaded_of, flat, has_move_type, is_get_name, is_ref_read_name,
    lemma_flat_all, lemma_prefix_full, lemma_prefix_step, lemma_prefix_zero, lemma_take_zero,
    load_map_of, load_sources_of, names_of, opt_set, owned_alloca, owned_allocas, pick, picked,
    prefix, types_of,
};
use crate::text::{starts_with, str_eq};

verus! {

broadcast use vstd::std_specs::hash::group_hash_axioms;

fn is_get_call_name(name: &String) -> (r: bool)
    ensures
        r == is_get_name(name@),
{
    str_eq(name.as_str(), "ky_list_get") || str_eq(name.as_str(), "ky_dict_get")
}

fn is_ref_read_call_name(name: &String) -> (r: bool)
    ensures
        r == is_ref_read_name(name@),
{
    str_eq(name.as_str(), "ky_ptr_read_ptr") || str_eq(name.as_str(), "ky_ptr_read_i32")
}

/// The local that pass `k` gathers from `inst`.
pub fn pick_local(inst: &MirInst, k: Pick) -> (r: Option<usize>)
    ensures
        r == pick(*inst, k),
{
    match k {
        Pick::ParamStore => match inst {
            MirInst::Store { dest, value: MirValue::Param(_) } => Some(*dest),
            _ => None,
        },
        Pick::StringStore => match inst {
            MirInst::Store { dest, value: MirValue::Constant(MirConstant::String(_)) } => Some(*dest),
            _ => None,
        },
        Pick::LoadDest => match inst {
            MirInst::Load { dest, .. } => Some(*dest),
            _ => None,
        },
        Pick::GetCall => match inst {
            MirInst::Call { dest, name, .. } => if is_get_call_name(name) {
                *dest
            } else {
                None
            },
            _ => None,
        },
        Pick::CloneCall => match inst {
            MirInst::Call { dest, name, .. } => if str_eq(name.as_str(), "ky_clone_str") {
                *dest
            } else {
                None
            },
            _ => None,
        },
        Pick::RefDerefCall => match inst {
            MirInst::Call { dest, name, .. } => if is_ref_read_call_name(name) {
                *dest
            } else {
                None
            },
            _ => None,
        },
        Pick::FieldPtrDest => match inst {
            MirInst::FieldPtr { dest, .. } => Some(*dest),
            _ => None,
        },
        Pick::MoveAlloca => match inst {
            MirInst::Alloca { dest, type_, .. } => if is_move_type(type_) {
                Some(*dest)
            } else {
                None
            },
            _ => None,
        },
    }
}

fn add_opt(acc: &mut LocalSet, o: Option<usize>)
    requires
        old(acc).wf(),
    ensures
        final(acc).wf(),
        final(acc)@ == old(acc)@.union(opt_set(o)),
{
    match o {
        Some(x) => {
            acc.insert(x);
            assert(acc@ =~= old(acc)@.union(opt_set(o)));
        },
        None => {
            assert(acc@ =~= old(acc)@.union(opt_set(o)));
        },
    }
}

/// Every local that pass `k` gathers from the blocks.
pub fn collect_picked(blocks: &Vec<MirBasicBlock>, k: Pick) -> (r: LocalSet)
    ensures
        r.wf(),
        r@ == picked(flat(blocks@), k),
{
    let mut acc = LocalSet::new();
    let mut b: usize = 0;
    proof {
        lemma_take_zero(blocks@);
    }
    while b < blocks.len()
        invariant
            b <= blocks@.len(),
            acc.wf(),
            acc@ == picked(flat(blocks@.take(b as int)), k),
        decreases blocks@.len() - b,
    {
        let insts = &blocks[b].insts;
        let mut i: usize = 0;
        proof {
            lemma_prefix_zero(blocks@, b as int);
        }
        while i < insts.len()
            invariant
                b < blocks@.len(),
                insts@ == blocks@[b as int].insts@,
                i <= insts@.len(),
                acc.wf(),
                acc@ == picked(prefix(blocks@, b as int, i as int), k),
            decreases insts@.len() - i,
        {
            proof {
                lemma_prefix_step(blocks@, b as int, i as int);
            }
            add_opt(&mut acc, pick_local(&insts[i], k));
            i = i + 1;
        }
        proof {
            lemma_prefix_full(blocks@, b as int);
        }
        b = b + 1;
    }
    proof {
        lemma_flat_all(blocks@);
    }
    acc
}

/// Destinations of casts from a local of `srcs`.
pub fn collect_casts(blocks: &Vec<MirBasicBlock>, srcs: &LocalSet) -> (r: LocalSet)
    requires
        srcs.wf(),
    ensures
        r.wf(),
        r@ == casts_from(flat(blocks@), srcs@),
{
    let mut acc = LocalSet::new();
    let mut b: usize = 0;
    proof {
        lemma_take_zero(blocks@);
    }
    while b < blocks.len()
        invariant
            b <= blocks@.len(),
            srcs.wf(),
            acc.wf(),
            acc@ == casts_from(flat(blocks@.take(b as int)), srcs@),
        decreases blocks@.len() - b,
    {
        let insts = &blocks[b].insts;
        let mut i: usize = 0;
        proof {
            lemma_prefix_zero(blocks@, b as int);
        }
        while i < insts.len()
            invariant
                b < blocks@.len(),
                insts@ == blocks@[b as int].insts@,
                i <= insts@.len(),
                srcs.wf(),
                acc.wf(),
                acc@ == casts_from(prefix(blocks@, b as int, i as int), srcs@),
            decreases insts@.len() - i,
        {
            proof {
                lemma_prefix_step(blocks@, b as int, i as int);
            }
            let o = match &insts[i] {
                MirInst::Cast { dest, value: MirValue::Local(src), .. } => if srcs.contains(*src) {
                    Some(*dest)
                } else {
                    None
                },
                _ => None,
            };
            assert(o == cast_dest(insts@[i as int], srcs@));
            add_opt(&mut acc, o);
            i = i + 1;
        }
        proof {
            lemma_prefix_full(blocks@, b as int);
        }
        b = b + 1;
    }
    proof {
        lemma_flat_all(blocks@);
    }
    acc
}

/// Allocas of owned locals (move types that are neither string-constant
/// slots nor in `excluded`).
pub fn collect_owned_allocas(blocks: &Vec<MirBasicBlock>, excluded: &LocalSet) -> (r: LocalSet)
    requires
        excluded.wf(),
    ensures
        r.wf(),
        r@ == owned_allocas(flat(blocks@), excluded@),
{
    let mut acc = LocalSet::new();
    let mut b: usize = 0;
    proof {
        lemma_take_zero(blocks@);
    }
    while b < blocks.len()
        invariant
            b <= blocks@.len(),
            excluded.wf(),
            acc.wf(),
            acc@ == owned_allocas(flat(blocks@.take(b as int)), excluded@),
        decreases blocks@.len() - b,
    {
        let insts = &blocks[b].insts;
        let mut i: usize = 0;
        proof {
            lemma_prefix_zero(blocks@, b as int);
        }
        while i < insts.len()
            invariant
                b < blocks@.len(),
                insts@ == blocks@[b as int].insts@,
                i <= insts@.len(),
                excluded.wf(),
                acc.wf(),
                acc@ == owned_allocas(prefix(blocks@, b as int, i as int), excluded@),
            decreases insts@.len() - i,
        {
            proof {
                lemma_prefix_step(blocks@, b as int, i as int);
            }
            let o = match &insts[i] {
                MirInst::Alloca { dest, type_, name } => {
                    // String-constant slots refer to static data; borrowed get
                    // results are owned by their container.
                    if !starts_with(name.as_str(), "_lit_const") && !excluded.contains(*dest)
                        && is_move_type(type_) {
                        Some(*dest)
                    } else {
                        None
                    }
                },
                _ => None,
            };
            assert(o == owned_alloca(insts@[i as int], excluded@));
            add_opt(&mut acc, o);
            i = i + 1;
        }
        proof {
            lemma_prefix_full(blocks@, b as int);
        }
        b = b + 1;
    }
    proof {
        lemma_flat_all(blocks@);
    }
    acc
}

/// The same map with references followed.
pub open spec fn deref_types(m: Map<usize, &MirType>) -> Map<usize, MirType> {
    m.map_values(|t: &MirType| *t)
}

pub open spec fn deref_names(m: Map<usize, &String>) -> Map<usize, String> {
    m.map_values(|t: &String| *t)
}

/// The type of each local (that of its last `Alloca`).
pub fn build_local_types<'a>(blocks: &'a Vec<MirBasicBlock>) -> (r: HashMap<usize, &'a MirType>)
    ensures
        deref_types(r@) == types_of(flat(blocks@)),
{
    let mut acc: HashMap<usize, &'a MirType> = HashMap::new();
    let mut b: usize = 0;
    proof {
        lemma_take_zero(blocks@);
        assert(deref_types(acc@) =~= Map::<usize, MirType>::empty());
    }
    while b < blocks.len()
        invariant
            b <= blocks@.len(),
            deref_types(acc@) == types_of(flat(blocks@.take(b as int))),
        decreases blocks@.len() - b,
    {
        let insts = &blocks[b].insts;
        let mut i: usize = 0;
        proof {
            lemma_prefix_zero(blocks@, b as int);
        }
        while i < insts.len()
            invariant
                b < blocks@.len(),
                insts@ == blocks@[b as int].insts@,
                i <= insts@.len(),
                deref_types(acc@) == types_of(prefix(blocks@, b as int, i as int)),
            decreases insts@.len() - i,
        {
            proof {
                lemma_prefix_step(blocks@, b as int, i as int);
            }
            if let MirInst::Alloca { dest, type_, .. } = &insts[i] {
                acc.insert(*dest, type_);
                assert(deref_types(acc@) =~= types_of(prefix(blocks@, b as int, i + 1)));
            }
            i = i + 1;
        }
        proof {
            lemma_prefix_full(blocks@, b as int);
        }
        b = b + 1;
    }
    proof {
        lemma_flat_all(blocks@);
    }
    acc
}

/// The source name of each local (that of its last `Alloca`).
pub fn build_local_names<'a>(blocks: &'a Vec<MirBasicBlock>) -> (r: HashMap<usize, &'a String>)
    ensures
        deref_names(r@) == names_of(flat(blocks@)),
{
    let mut acc: HashMap<usize, &'a String> = HashMap::new();
    let mut b: usize = 0;
    proof {
        lemma_take_zero(blocks@);
        assert(deref_names(acc@) =~= Map::<usize, String>::empty());
    }
    while b < blocks.len()
        invariant
            b <= blocks@.len(),
            deref_names(acc@) == names_of(flat(blocks@.take(b as int))),
        decreases blocks@.len() - b,
    {
        let insts = &blocks[b].insts;
        let mut i: usize = 0;
        proof {
            lemma_prefix_zero(blocks@, b as int);
        }
        while i < insts.len()
            invariant
                b < blocks@.len(),
                insts@ == blocks@[b as int].insts@,
                i <= insts@.len(),
                deref_names(acc@) == names_of(prefix(blocks@, b as int, i as int)),
            decreases insts@.len() - i,
        {
            proof {
                lemma_prefix_step(blocks@, b as int, i as int);
            }
            if let MirInst::Alloca { dest, name, .. } = &insts[i] {
                acc.insert(*dest, name);
                assert(deref_names(acc@) =~= names_of(prefix(blocks@, b as int, i + 1)));
            }
            i = i + 1;
        }
        proof {
            lemma_prefix_full(blocks@, b as int);
        }
        b = b + 1;
    }
    proof {
        lemma_flat_all(blocks@);
    }
    acc
}

/// Whether `l` has a move type according to `types`.
pub fn local_has_move_type(types: &HashMap<usize, &MirType>, l: usize) -> (r: bool)
    ensures
        r == has_move_type(deref_types(types@), l),
{
    match types.get(&l) {
        Some(t) => is_move_type(*t),
        None => false,
    }
}

/// Alias facts: `dest -> src` for loads into move-typed locals, the sources
/// of those loads, and the loads whose source is a field pointer.
pub fn collect_loads(
    blocks: &Vec<MirBasicBlock>,
    types: &HashMap<usize, &MirType>,
    field_ptrs: &LocalSet,
) -> (r: (HashMap<usize, usize>, LocalSet, LocalSet))
    requires
        field_ptrs.wf(),
    ensures
        r.0@ == load_map_of(flat(blocks@), deref_types(types@)),
        r.1.wf(),
        r.1@ == load_sources_of(flat(blocks@), deref_types(types@)),
        r.2.wf(),
        r.2@ == field_loaded_of(flat(blocks@), deref_types(types@), field_ptrs@),
{
    let ghost tys = deref_types(types@);
    let mut map: HashMap<usize, usize> = HashMap::new();
    let mut sources = LocalSet::new();
    let mut fields = LocalSet::new();
    let mut b: usize = 0;
    proof {
        lemma_take_zero(blocks@);
    }
    while b < blocks.len()
        invariant
            b <= blocks@.len(),
            tys == deref_types(types@),
            field_ptrs.wf(),
            sources.wf(),
            fields.wf(),
            map@ == load_map_of(flat(blocks@.take(b as int)), tys),
            sources@ == load_sources_of(flat(blocks@.take(b as int)), tys),
            fields@ == field_loaded_of(flat(blocks@.take(b as int)), tys, field_ptrs@),
        decreases blocks@.len() - b,
    {
        let insts = &blocks[b].insts;
        let mut i: usize = 0;
        proof {
            lemma_prefix_zero(blocks@, b as int);
        }
        while i < insts.len()
            invariant
                b < blocks@.len(),
                insts@ == blocks@[b as int].insts@,
                i <= insts@.len(),
                tys == deref_types(types@),
                field_ptrs.wf(),
                sources.wf(),
                fields.wf(),
                map@ == load_map_of(prefix(blocks@, b as int, i as int), tys),
                sources@ == load_sources_of(prefix(blocks@, b as int, i as int), tys),
                fields@ == field_loaded_of(prefix(blocks@, b as int, i as int), tys, field_ptrs@),
            decreases insts@.len() - i,
        {
            proof {
                lemma_prefix_step(blocks@, b as int, i as int);
            }
            if let MirInst::Load { dest, src } = &insts[i] {
                if local_has_move_type(types, *dest) {
                    sources.insert(*src);
                    map.insert(*dest, *src);
                    // Values loaded from struct fields stay owned by the field.
                    if field_ptrs.contains(*src) {
                        fields.insert(*dest);
                    }
                }
            }
            i = i + 1;
        }
        proof {
            lemma_prefix_full(blocks@, b as int);
        }
        b = b + 1;
    }
    proof {
        lemma_flat_all(blocks@);
    }
    (map, sources, fields)
}

} // verus!
