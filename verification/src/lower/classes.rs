//! Classes: method resolution along the inheritance chain, and the fields
//! a class has with those it inherits.
use vstd::prelude::*;
use crate::ast::{AstModel, AstType, ClassDecl, ClassMember, Decl, Program};
use crate::lower::resolve::{StructDefs, alias_view, ast_type_to_mir, fields_view, lower_model};
use crate::mir::{MirType, TypeModel, copy_fields, fields_model, lemma_fields_model_len};
use crate::name_table::NameTable;
use crate::text::str_eq;

verus! {

/// Methods by class name, each class mapping method names to the mangled
/// names of their implementations.
pub type MethodTable = Map<Seq<char>, Map<Seq<char>, Seq<char>>>;

/// Parent classes by class name.
pub type ParentMap = Map<Seq<char>, Option<Seq<char>>>;

/// The model of a method table.
pub open spec fn method_table_view(t: &NameTable<NameTable<String>>) -> MethodTable {
    t@.map_values(|m: NameTable<String>| m@.map_values(|s: String| s@))
}

/// The model of a parent map.
pub open spec fn parent_map_view(t: &NameTable<Option<String>>) -> ParentMap {
    t@.map_values(|p: Option<String>| match p {
        Some(s) => Some(s@),
        None => None,
    })
}

/// Whether `class` declares `method` itself.
pub open spec fn declares_method(methods: MethodTable, class: Seq<char>, method: Seq<char>) -> bool {
    methods.contains_key(class) && methods[class].contains_key(method)
}

/// The parent of `class`, if it has one.
pub open spec fn parent_of(parents: ParentMap, class: Seq<char>) -> Option<Seq<char>> {
    if parents.contains_key(class) {
        parents[class]
    } else {
        None
    }
}

/// Whether the search for `method` from `class` upward stops within `n`
/// steps: at a class that declares it, or at a class without a parent.
pub open spec fn search_ends(
    methods: MethodTable,
    parents: ParentMap,
    class: Seq<char>,
    method: Seq<char>,
    n: nat,
) -> bool
    decreases n,
{
    if declares_method(methods, class, method) {
        true
    } else {
        match parent_of(parents, class) {
            Some(p) => n > 0 && search_ends(methods, parents, p, method, (n - 1) as nat),
            None => true,
        }
    }
}

/// The implementation of `method` that the most-derived class from
/// `class` upward declares, looking at most `n` parents up.
pub open spec fn method_in_chain(
    methods: MethodTable,
    parents: ParentMap,
    class: Seq<char>,
    method: Seq<char>,
    n: nat,
) -> Option<Seq<char>>
    decreases n,
{
    if declares_method(methods, class, method) {
        Some(methods[class][method])
    } else {
        match parent_of(parents, class) {
            Some(p) => if n > 0 {
                method_in_chain(methods, parents, p, method, (n - 1) as nat)
            } else {
                None
            },
            None => None,
        }
    }
}

/// Once a search ends, looking further up changes nothing.
pub proof fn lemma_search_stable(
    methods: MethodTable,
    parents: ParentMap,
    class: Seq<char>,
    method: Seq<char>,
    n: nat,
    m: nat,
)
    requires
        search_ends(methods, parents, class, method, n),
        n <= m,
    ensures
        search_ends(methods, parents, class, method, m),
        method_in_chain(methods, parents, class, method, m) == method_in_chain(
            methods,
            parents,
            class,
            method,
            n,
        ),
    decreases n,
{
    if !declares_method(methods, class, method) {
        if let Some(p) = parent_of(parents, class) {
            lemma_search_stable(methods, parents, p, method, (n - 1) as nat, (m - 1) as nat);
        }
    }
}

/// Walk a class's inheritance chain to resolve a method call: the mangled
/// `Class::method` name of the most-derived class that declares the
/// method, or `None` if no ancestor declares it. Subclasses override
/// inherited methods by shadowing the entry in `method_table`.
pub fn lookup_method_in_chain(
    class_name: &str,
    method_name: &str,
    method_table: &NameTable<NameTable<String>>,
    parent_map: &NameTable<Option<String>>,
) -> (r: Option<String>)
    requires
        exists|n: nat|
            search_ends(method_table_view(method_table), parent_map_view(parent_map), class_name@, method_name@, n),
    ensures
        forall|n: nat|
            search_ends(method_table_view(method_table), parent_map_view(parent_map), class_name@, method_name@, n)
                ==> match r {
                Some(s) => method_in_chain(
                    method_table_view(method_table),
                    parent_map_view(parent_map),
                    class_name@,
                    method_name@,
                    n,
                ) == Some(s@),
                None => method_in_chain(
                    method_table_view(method_table),
                    parent_map_view(parent_map),
                    class_name@,
                    method_name@,
                    n,
                ) is None,
            },
{
    let ghost mt = method_table_view(method_table);
    let ghost pm = parent_map_view(parent_map);
    let ghost fuel = choose|n: nat| search_ends(mt, pm, class_name@, method_name@, n);
    let mut current = String::from_str(class_name);
    let ghost mut left: nat = fuel;
    loop
        invariant
            mt == method_table_view(method_table),
            pm == parent_map_view(parent_map),
            search_ends(mt, pm, class_name@, method_name@, fuel),
            search_ends(mt, pm, current@, method_name@, left),
            method_in_chain(mt, pm, class_name@, method_name@, fuel) == method_in_chain(
                mt,
                pm,
                current@,
                method_name@,
                left,
            ),
        decreases left,
    {
        if let Some(methods) = method_table.get(current.as_str()) {
            if let Some(mangled) = methods.get(method_name) {
                let found = mangled.clone();
                proof {
                    assert forall|n: nat| search_ends(mt, pm, class_name@, method_name@, n) implies method_in_chain(
                        mt,
                        pm,
                        class_name@,
                        method_name@,
                        n,
                    ) == Some(found@) by {
                        if n <= fuel {
                            lemma_search_stable(mt, pm, class_name@, method_name@, n, fuel);
                        } else {
                            lemma_search_stable(mt, pm, class_name@, method_name@, fuel, n);
                        }
                    }
                }
                return Some(found);
            }
        }
        let next = match parent_map.get(current.as_str()) {
            Some(Some(parent)) => parent.clone(),
            _ => {
                proof {
                    assert forall|n: nat| search_ends(mt, pm, class_name@, method_name@, n) implies method_in_chain(
                        mt,
                        pm,
                        class_name@,
                        method_name@,
                        n,
                    ) is None by {
                        if n <= fuel {
                            lemma_search_stable(mt, pm, class_name@, method_name@, n, fuel);
                        } else {
                            lemma_search_stable(mt, pm, class_name@, method_name@, fuel, n);
                        }
                    }
                }
                return None;
            },
        };
        proof {
            left = (left - 1) as nat;
        }
        current = next;
    }
}

} // verus!

verus! {

/// The first class declared with the given name.
pub open spec fn first_class(decls: Seq<Decl>, name: Seq<char>) -> Option<ClassDecl>
    decreases decls.len(),
{
    if decls.len() == 0 {
        None
    } else {
        match decls[0] {
            Decl::Class(c) => if c.name@ == name {
                Some(c)
            } else {
                first_class(decls.subrange(1, decls.len() as int), name)
            },
            _ => first_class(decls.subrange(1, decls.len() as int), name),
        }
    }
}

/// Whether the parent's fields are taken from the struct definitions: it
/// is defined there with at least one field.
pub open spec fn parent_defined(defs: StructDefs, parent: Seq<char>) -> bool {
    defs.contains_key(parent) && defs[parent].len() > 0
}

/// Whether collecting the fields of class `c` reaches, within `n`
/// ancestors, a class whose parent is defined, unknown, or absent.
pub open spec fn ancestry_ends(c: ClassDecl, decls: Seq<Decl>, defs: StructDefs, n: nat) -> bool
    decreases n,
{
    match c.parent {
        None => true,
        Some(p) => if parent_defined(defs, p@) {
            true
        } else {
            match first_class(decls, p@) {
                None => true,
                Some(pc) => n > 0 && ancestry_ends(pc, decls, defs, (n - 1) as nat),
            }
        },
    }
}

/// The fields that a class declares itself, lowered, in order.
pub open spec fn own_fields(
    members: Seq<ClassMember>,
    defs: StructDefs,
    aliases: Map<Seq<char>, AstModel>,
) -> Seq<(Seq<char>, TypeModel)>
    decreases members.len(),
{
    if members.len() == 0 {
        Seq::empty()
    } else {
        let rest = own_fields(members.drop_last(), defs, aliases);
        match members.last() {
            ClassMember::Field(f) => rest.push(
                (f.name@, lower_model(f.type_@, Some(defs), Map::empty(), aliases)),
            ),
            _ => rest,
        }
    }
}

/// The fields of a class: those it inherits first, then its own. The
/// inherited fields are the parent's definition where it has one with
/// fields, else those collected from the parent's declaration (looking
/// at most `n` ancestors up), else none.
pub open spec fn class_fields(
    c: ClassDecl,
    decls: Seq<Decl>,
    defs: StructDefs,
    aliases: Map<Seq<char>, AstModel>,
    n: nat,
) -> Seq<(Seq<char>, TypeModel)>
    decreases n,
{
    let inherited = match c.parent {
        None => Seq::empty(),
        Some(p) => if parent_defined(defs, p@) {
            defs[p@]
        } else {
            match first_class(decls, p@) {
                None => Seq::empty(),
                Some(pc) => if n > 0 {
                    class_fields(pc, decls, defs, aliases, (n - 1) as nat)
                } else {
                    Seq::empty()
                },
            }
        },
    };
    inherited + own_fields(c.members@, defs, aliases)
}

/// Once the ancestry ends, looking further up changes nothing.
pub proof fn lemma_class_fields_stable(
    c: ClassDecl,
    decls: Seq<Decl>,
    defs: StructDefs,
    aliases: Map<Seq<char>, AstModel>,
    n: nat,
    m: nat,
)
    requires
        ancestry_ends(c, decls, defs, n),
        n <= m,
    ensures
        ancestry_ends(c, decls, defs, m),
        class_fields(c, decls, defs, aliases, m) == class_fields(c, decls, defs, aliases, n),
    decreases n,
{
    if let Some(p) = c.parent {
        if !parent_defined(defs, p@) {
            if let Some(pc) = first_class(decls, p@) {
                lemma_class_fields_stable(pc, decls, defs, aliases, (n - 1) as nat, (m - 1) as nat);
            }
        }
    }
}

/// The first class declared with the given name, by a forward scan.
fn find_class<'a>(program: &'a Program, name: &str) -> (r: Option<&'a ClassDecl>)
    ensures
        match r {
            Some(c) => first_class(program.declarations@, name@) == Some(*c),
            None => first_class(program.declarations@, name@) is None,
        },
{
    let decls = &program.declarations;
    let mut i: usize = 0;
    assert(decls@.subrange(0, decls@.len() as int) =~= decls@);
    while i < decls.len()
        invariant
            i <= decls@.len(),
            decls@ == program.declarations@,
            first_class(decls@, name@) == first_class(decls@.subrange(i as int, decls@.len() as int), name@),
        decreases decls@.len() - i,
    {
        let ghost rest = decls@.subrange(i as int, decls@.len() as int);
        assert(rest[0] == decls@[i as int]);
        assert(rest.subrange(1, rest.len() as int) =~= decls@.subrange(i + 1, decls@.len() as int));
        if let Decl::Class(pc) = &decls[i] {
            if str_eq(pc.name.as_str(), name) {
                assert(rest[0] == Decl::Class(*pc));
                return Some(pc);
            }
        }
        i = i + 1;
    }
    assert(decls@.subrange(i as int, decls@.len() as int).len() == 0);
    None
}

/// The lowered fields that a class declares itself.
fn collect_own_fields(
    c: &ClassDecl,
    struct_defs: &NameTable<Vec<(String, MirType)>>,
    aliases: &NameTable<AstType>,
    out: &mut Vec<(String, MirType)>,
)
    ensures
        fields_model(final(out)@) == fields_model(old(out)@) + own_fields(
            c.members@,
            fields_view(struct_defs),
            alias_view(aliases),
        ),
{
    let ghost base = fields_model(out@);
    let ghost dv = fields_view(struct_defs);
    let ghost av = alias_view(aliases);
    let mut i: usize = 0;
    assert(c.members@.take(0) =~= Seq::<ClassMember>::empty());
    assert(base + own_fields(c.members@.take(0), dv, av) =~= base);
    while i < c.members.len()
        invariant
            i <= c.members@.len(),
            dv == fields_view(struct_defs),
            av == alias_view(aliases),
            fields_model(out@) == base + own_fields(c.members@.take(i as int), dv, av),
        decreases c.members@.len() - i,
    {
        assert(c.members@.take(i + 1).drop_last() =~= c.members@.take(i as int));
        if let ClassMember::Field(f) = &c.members[i] {
            let t = ast_type_to_mir(&f.type_, Some(struct_defs), aliases);
            let ghost prev = out@;
            out.push((f.name.clone(), t));
            assert(out@.drop_last() =~= prev);
            assert(fields_model(out@) =~= base + own_fields(c.members@.take(i + 1), dv, av));
        }
        i = i + 1;
    }
    assert(c.members@.take(i as int) =~= c.members@);
}

/// Collect the fields of a class, looking at most `n` ancestors up.
fn collect_class_fields_within(
    c: &ClassDecl,
    program: &Program,
    struct_defs: &NameTable<Vec<(String, MirType)>>,
    aliases: &NameTable<AstType>,
    Ghost(n): Ghost<nat>,
) -> (r: Vec<(String, MirType)>)
    requires
        ancestry_ends(*c, program.declarations@, fields_view(struct_defs), n),
    ensures
        fields_model(r@) == class_fields(
            *c,
            program.declarations@,
            fields_view(struct_defs),
            alias_view(aliases),
            n,
        ),
    decreases n,
{
    let ghost dv = fields_view(struct_defs);
    let mut fields: Vec<(String, MirType)> = Vec::new();
    assert(fields_model(fields@) =~= Seq::empty());
    if let Some(parent_name) = &c.parent {
        let defined = match struct_defs.get(parent_name.as_str()) {
            Some(pf) => {
                proof {
                    lemma_fields_model_len(pf@);
                }
                if pf.len() > 0 {
                    fields = copy_fields(pf);
                    true
                } else {
                    false
                }
            },
            None => false,
        };
        if !defined {
            match find_class(program, parent_name.as_str()) {
                Some(pc) => {
                    fields = collect_class_fields_within(
                        pc,
                        program,
                        struct_defs,
                        aliases,
                        Ghost((n - 1) as nat),
                    );
                },
                None => {},
            }
        }
    }
    collect_own_fields(c, struct_defs, aliases, &mut fields);
    fields
}

/// Collect the fields of a class: the inherited ones first (from the
/// parent's struct definition where it has fields, else from the parent's
/// declaration in the program), then the class's own fields, lowered.
pub fn collect_class_fields(
    c: &ClassDecl,
    program: &Program,
    struct_defs: &NameTable<Vec<(String, MirType)>>,
    aliases: &NameTable<AstType>,
) -> (r: Vec<(String, MirType)>)
    requires
        exists|n: nat| ancestry_ends(*c, program.declarations@, fields_view(struct_defs), n),
    ensures
        forall|n: nat|
            ancestry_ends(*c, program.declarations@, fields_view(struct_defs), n) ==> fields_model(r@)
                == class_fields(*c, program.declarations@, fields_view(struct_defs), alias_view(aliases), n),
{
    let ghost dv = fields_view(struct_defs);
    let ghost decls = program.declarations@;
    let ghost fuel = choose|n: nat| ancestry_ends(*c, decls, dv, n);
    let r = collect_class_fields_within(c, program, struct_defs, aliases, Ghost(fuel));
    proof {
        assert forall|n: nat| ancestry_ends(*c, decls, dv, n) implies fields_model(r@) == class_fields(
            *c,
            decls,
            dv,
            alias_view(aliases),
            n,
        ) by {
            if n <= fuel {
                lemma_class_fields_stable(*c, decls, dv, alias_view(aliases), n, fuel);
            } else {
                lemma_class_fields_stable(*c, decls, dv, alias_view(aliases), fuel, n);
            }
        }
    }
    r
}

} // verus!
