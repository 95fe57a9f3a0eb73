//! The schema flattener: resolves declared tables and class bindings into
//! one flat, ordered property list per server class.
//!
//! The declared tables live in one owned list and the flattener walks them by
//! index, bounding its descent with a fuel count so that a malformed,
//! circular table graph fails with `SchemaInconsistency` instead of
//! descending forever.  What flattening produces is defined by the
//! specification functions below — the exclusion gathering, the walk with
//! its collapse and sub-table rules, the array pairing, and the final stable
//! partition — and every function here returns exactly what its
//! specification says.

use vstd::prelude::*;
use crate::DecodeError;
use crate::packet_data_types::DataTables;
use crate::send_table::{
    SendTable, SendTableProp, SendPropType, PROP_CHANGES_OFTEN, PROP_COLLAPSIBLE, PROP_EXCLUDE,
    PROP_INSIDE_ARRAY,
};
use crate::utils::ServerClass;

verus! {

/// One property of a flattened class: its name, its resolved declaration,
/// and, for array properties, the declaration of the element type (the
/// property declared immediately before the array).
#[derive(Clone, Debug)]
pub struct FlattenedProp {
    pub name: String,
    pub prop_info: SendTableProp,
    pub array_element_prop_info: Option<SendTableProp>,
}

impl FlattenedProp {
    pub fn new(
        name: String,
        prop_info: SendTableProp,
        array_element_prop_info: Option<SendTableProp>,
    ) -> (r: Self)
        ensures
            r.name == name,
            r.prop_info == prop_info,
            r.array_element_prop_info == array_element_prop_info,
    {
        Self { name, prop_info, array_element_prop_info }
    }
}

/// The property changes often and belongs in the front partition.
pub open spec fn changes_often(p: FlattenedProp) -> bool {
    p.prop_info.flags.bits & PROP_CHANGES_OFTEN == PROP_CHANGES_OFTEN
}

/// The index of the first declared table with this name, from index `i` on.
pub open spec fn spec_find_table(tables: Seq<SendTable>, name: Seq<char>, i: nat) -> Option<int>
    decreases tables.len() - i,
{
    if i >= tables.len() {
        None
    } else if tables[i as int].name@ == name {
        Some(i as int)
    } else {
        spec_find_table(tables, name, i + 1)
    }
}

/// The pair `(property name, owning table name)` is in the exclusion list.
pub open spec fn in_excludes(
    excl: Seq<(Seq<char>, Seq<char>)>,
    name: Seq<char>,
    table: Seq<char>,
) -> bool {
    exists|k: int| 0 <= k < excl.len() && (#[trigger] excl[k]) == (name, table)
}

/// The second component of the decreases measure below: the props left in
/// table `ti` from index `i` on, guarded for an index outside the table
/// list.
pub open spec fn props_left(tables: Seq<SendTable>, ti: int, i: nat) -> int {
    if 0 <= ti < tables.len() {
        tables[ti].prop_list@.len() - i
    } else {
        0
    }
}

/// The exclusion pairs contributed by table `ti`: each exclude-flagged
/// property yields `(its name, its referenced table)`, and each sub-table
/// property contributes its target table's pairs, depth bounded by `fuel`.
/// `None` is a schema inconsistency: a missing reference, a reference
/// naming no declared table, or fuel running out on a cyclic graph.
pub open spec fn spec_excludes(tables: Seq<SendTable>, ti: int, fuel: nat) -> Option<
    Seq<(Seq<char>, Seq<char>)>,
>
    decreases fuel, props_left(tables, ti, 0) + 1, 0int,
{
    if fuel == 0 || !(0 <= ti < tables.len()) {
        None
    } else {
        spec_excludes_props(tables, ti, 0, fuel)
    }
}

/// The exclusion pairs of table `ti` from property index `i` on.
pub open spec fn spec_excludes_props(tables: Seq<SendTable>, ti: int, i: nat, fuel: nat) -> Option<
    Seq<(Seq<char>, Seq<char>)>,
>
    decreases fuel, props_left(tables, ti, i), 0int,
{
    if !(0 <= ti < tables.len()) || fuel == 0 {
        None
    } else if i >= tables[ti].prop_list@.len() {
        Some(Seq::empty())
    } else {
        let prop = tables[ti].prop_list@[i as int];
        if prop.send_prop_type is DataTable {
            match prop.exclude_dt_name {
                None => None,
                Some(n) => match spec_find_table(tables, n@, 0) {
                    None => None,
                    Some(si) => match spec_excludes(tables, si, (fuel - 1) as nat) {
                        None => None,
                        Some(sub) => match spec_excludes_props(tables, ti, i + 1, fuel) {
                            None => None,
                            Some(rest) => Some(sub + rest),
                        },
                    },
                },
            }
        } else if prop.flags.bits & PROP_EXCLUDE == PROP_EXCLUDE {
            match prop.exclude_dt_name {
                None => None,
                Some(n) => match spec_excludes_props(tables, ti, i + 1, fuel) {
                    None => None,
                    Some(rest) => Some(seq![(prop.name@, n@)] + rest),
                },
            }
        } else {
            spec_excludes_props(tables, ti, i + 1, fuel)
        }
    }
}

/// The walk of table `ti`: a pair of runs.  The first run is what the
/// walk's non-collapsible sub-tables contribute directly to the class entry,
/// in encounter order; the second is the table's own flat properties —
/// direct properties and inlined collapsible sub-tables — in declaration
/// order, each array property paired with the property declared before it.
pub open spec fn spec_walk(
    tables: Seq<SendTable>,
    ti: int,
    excl: Seq<(Seq<char>, Seq<char>)>,
    fuel: nat,
) -> Option<(Seq<FlattenedProp>, Seq<FlattenedProp>)>
    decreases fuel, props_left(tables, ti, 0) + 1, 0int,
{
    if fuel == 0 || !(0 <= ti < tables.len()) {
        None
    } else {
        spec_walk_props(tables, ti, 0, excl, fuel)
    }
}

/// The walk of table `ti` from property index `i` on.
pub open spec fn spec_walk_props(
    tables: Seq<SendTable>,
    ti: int,
    i: nat,
    excl: Seq<(Seq<char>, Seq<char>)>,
    fuel: nat,
) -> Option<(Seq<FlattenedProp>, Seq<FlattenedProp>)>
    decreases fuel, props_left(tables, ti, i), 0int,
{
    if !(0 <= ti < tables.len()) || fuel == 0 {
        None
    } else if i >= tables[ti].prop_list@.len() {
        Some((Seq::empty(), Seq::empty()))
    } else {
        let table = tables[ti];
        let prop = table.prop_list@[i as int];
        if prop.flags.bits & PROP_EXCLUDE == PROP_EXCLUDE || prop.flags.bits & PROP_INSIDE_ARRAY
            == PROP_INSIDE_ARRAY || in_excludes(excl, prop.name@, table.name@) {
            spec_walk_props(tables, ti, i + 1, excl, fuel)
        } else if prop.send_prop_type is DataTable {
            match prop.exclude_dt_name {
                None => None,
                Some(n) => match spec_find_table(tables, n@, 0) {
                    None => None,
                    Some(si) => if prop.flags.bits & PROP_COLLAPSIBLE == PROP_COLLAPSIBLE {
                        match spec_walk(tables, si, excl, (fuel - 1) as nat) {
                            None => None,
                            Some(sub) => match spec_walk_props(tables, ti, i + 1, excl, fuel) {
                                None => None,
                                Some(rest) => Some((sub.0 + rest.0, sub.1 + rest.1)),
                            },
                        }
                    } else {
                        match spec_gather(tables, si, excl, (fuel - 1) as nat) {
                            None => None,
                            Some(g) => match spec_walk_props(tables, ti, i + 1, excl, fuel) {
                                None => None,
                                Some(rest) => Some((g + rest.0, rest.1)),
                            },
                        }
                    },
                },
            }
        } else {
            let elem: Option<SendTableProp> = if prop.send_prop_type is Array {
                if i == 0 {
                    None
                } else {
                    Some(table.prop_list@[i - 1])
                }
            } else {
                None
            };
            if prop.send_prop_type is Array && i == 0 {
                None
            } else {
                let fp = FlattenedProp {
                    name: prop.name,
                    prop_info: prop,
                    array_element_prop_info: elem,
                };
                match spec_walk_props(tables, ti, i + 1, excl, fuel) {
                    None => None,
                    Some(rest) => Some((rest.0, seq![fp] + rest.1)),
                }
            }
        }
    }
}

/// The flattening of table `ti` into a class entry: everything its walk's
/// sub-tables contributed, then the table's own flat properties.
pub open spec fn spec_gather(
    tables: Seq<SendTable>,
    ti: int,
    excl: Seq<(Seq<char>, Seq<char>)>,
    fuel: nat,
) -> Option<Seq<FlattenedProp>>
    decreases fuel, props_left(tables, ti, 0) + 2, 0int,
{
    match spec_walk(tables, ti, excl, fuel) {
        None => None,
        Some(w) => Some(w.0 + w.1),
    }
}

/// A stable partition: the often-changing properties first, the rest after,
/// the declaration order kept inside each part.
pub open spec fn stable_partition(s: Seq<FlattenedProp>) -> Seq<FlattenedProp> {
    s.filter(|p: FlattenedProp| changes_often(p)) + s.filter(|p: FlattenedProp| !changes_often(p))
}

/// The fuel the flattener runs with: one more than the table count, enough
/// for any acyclic inclusion graph.
pub open spec fn spec_fuel(tables: Seq<SendTable>) -> nat {
    if tables.len() + 1 <= usize::MAX {
        (tables.len() + 1) as nat
    } else {
        usize::MAX as nat
    }
}

/// What flattening one class yields: its bound table's exclusion set
/// gathered, the table walked and gathered under that set, and the result
/// stable-partitioned; `None` on any schema inconsistency.
pub open spec fn spec_flatten_class(tables: Seq<SendTable>, class: ServerClass) -> Option<
    Seq<FlattenedProp>,
> {
    let ti = class.datatable_id as int;
    if !(0 <= ti < tables.len()) {
        None
    } else {
        match spec_excludes(tables, ti, spec_fuel(tables)) {
            None => None,
            Some(ex) => match spec_gather(tables, ti, ex, spec_fuel(tables)) {
                None => None,
                Some(fp) => Some(stable_partition(fp)),
            },
        }
    }
}

/// Flattening state: the declared tables and the per-class flattened lists.
pub struct DataTablesManager {
    pub datatables: DataTables,
    pub server_class_bits: i32,
    pub prop_lookup: Vec<(ServerClass, Vec<FlattenedProp>)>,
}

/// Copies one property declaration; the copy equals the original.
fn clone_prop(p: &SendTableProp) -> (r: SendTableProp)
    ensures
        r == *p,
{
    let exclude_dt_name: Option<String> = match &p.exclude_dt_name {
        Some(n) => Some(n.clone()),
        None => None,
    };
    SendTableProp {
        send_prop_type: p.send_prop_type,
        name: p.name.clone(),
        flags: p.flags,
        exclude_dt_name,
        low_value_bits: p.low_value_bits,
        high_value_bits: p.high_value_bits,
        num_bits: p.num_bits,
        num_elements: p.num_elements,
        float_parse_type: p.float_parse_type,
    }
}

/// Copies one flattened property; the copy equals the original.
fn clone_fprop(p: &FlattenedProp) -> (r: FlattenedProp)
    ensures
        r == *p,
{
    let array_element_prop_info: Option<SendTableProp> = match &p.array_element_prop_info {
        Some(e) => Some(clone_prop(e)),
        None => None,
    };
    FlattenedProp { name: p.name.clone(), prop_info: clone_prop(&p.prop_info), array_element_prop_info }
}

/// Finds the first declared table with the given name.
#[verifier::loop_isolation(false)]
fn find_table(tables: &Vec<SendTable>, name: &String) -> (r: Option<usize>)
    ensures
        r matches Some(i) ==> spec_find_table(tables@, name@, 0) == Some(i as int),
        r is None ==> spec_find_table(tables@, name@, 0) is None,
{
    let mut i: usize = 0;
    while i < tables.len()
        invariant
            i <= tables@.len(),
            spec_find_table(tables@, name@, 0) == spec_find_table(tables@, name@, i as nat),
        decreases tables@.len() - i,
    {
        if <String as PartialEq>::eq(&tables[i].name, name) {
            return Some(i);
        }
        i = i + 1;
    }
    None
}

/// The pair `(property name, owning table name)` is in the exclusion list.
#[verifier::loop_isolation(false)]
fn excludes_contain(excludes: &Vec<(String, String)>, name: &String, table: &String) -> (r: bool)
    ensures
        r == in_excludes(
            excludes@.map_values(|p: (String, String)| (p.0@, p.1@)),
            name@,
            table@,
        ),
{
    let ghost ev = excludes@.map_values(|p: (String, String)| (p.0@, p.1@));
    let mut i: usize = 0;
    while i < excludes.len()
        invariant
            i <= excludes@.len(),
            ev == excludes@.map_values(|p: (String, String)| (p.0@, p.1@)),
            forall|j: int| 0 <= j < i ==> (#[trigger] ev[j]) != (name@, table@),
        decreases excludes@.len() - i,
    {
        if <String as PartialEq>::eq(&excludes[i].0, name) && <String as PartialEq>::eq(
            &excludes[i].1,
            table,
        ) {
            proof {
                assert(ev[i as int] == (name@, table@));
            }
            return true;
        }
        i = i + 1;
    }
    false
}

/// Gathers exactly the exclusion pairs `spec_excludes` defines, appended to
/// `excludes`; fails exactly when the specification is `None`.
#[verifier::loop_isolation(false)]
fn gather_excludes(
    tables: &Vec<SendTable>,
    table_idx: usize,
    excludes: &mut Vec<(String, String)>,
    fuel: usize,
) -> (r: Result<(), DecodeError>)
    requires
        table_idx < tables@.len(),
    ensures
        r is Ok <==> spec_excludes(tables@, table_idx as int, fuel as nat) is Some,
        r is Ok ==> final(excludes)@.map_values(|p: (String, String)| (p.0@, p.1@)) == old(
            excludes,
        )@.map_values(|p: (String, String)| (p.0@, p.1@)) + spec_excludes(
            tables@,
            table_idx as int,
            fuel as nat,
        ).unwrap(),
        r matches Err(e) ==> e == DecodeError::SchemaInconsistency,
    decreases fuel,
{
    if fuel == 0 {
        return Err(DecodeError::SchemaInconsistency);
    }
    let ghost base = excludes@.map_values(|p: (String, String)| (p.0@, p.1@));
    let table = &tables[table_idx];
    let ghost ti = table_idx as int;
    let mut i: usize = 0;
    while i < table.prop_list.len()
        invariant
            fuel >= 1,
            table == tables@[ti],
            i <= table.prop_list@.len(),
            base == old(excludes)@.map_values(|p: (String, String)| (p.0@, p.1@)),
            ({
                let added = excludes@.map_values(|p: (String, String)| (p.0@, p.1@)).skip(
                    base.len() as int,
                );
                &&& excludes@.map_values(|p: (String, String)| (p.0@, p.1@)) == base + added
                &&& (spec_excludes_props(tables@, ti, i as nat, fuel as nat) matches Some(rest)
                    ==> spec_excludes_props(tables@, ti, 0, fuel as nat) == Some(added + rest))
                &&& (spec_excludes_props(tables@, ti, i as nat, fuel as nat) is None
                    ==> spec_excludes_props(tables@, ti, 0, fuel as nat) is None)
            }),
        decreases table.prop_list@.len() - i,
    {
        let ghost added0 = excludes@.map_values(|p: (String, String)| (p.0@, p.1@)).skip(
            base.len() as int,
        );
        let prop = &table.prop_list[i];
        if matches!(prop.send_prop_type, SendPropType::DataTable) {
            let sub_name = match &prop.exclude_dt_name {
                Some(n) => n,
                None => {
                    return Err(DecodeError::SchemaInconsistency);
                },
            };
            let sub_idx = match find_table(tables, sub_name) {
                Some(idx) => idx,
                None => {
                    return Err(DecodeError::SchemaInconsistency);
                },
            };
            proof {
                assert(0 <= spec_find_table(tables@, sub_name@, 0).unwrap() < tables@.len()) by {
                    lemma_find_table_in_range(tables@, sub_name@, 0);
                }
            }
            gather_excludes(tables, sub_idx, excludes, fuel - 1)?;
            proof {
                let sub = spec_excludes(tables@, sub_idx as int, (fuel - 1) as nat).unwrap();
                let added1 = excludes@.map_values(|p: (String, String)| (p.0@, p.1@)).skip(
                    base.len() as int,
                );
                assert(added1 =~= added0 + sub);
                assert((base + added0) + sub =~= base + (added0 + sub));
                assert(excludes@.map_values(|p: (String, String)| (p.0@, p.1@)) =~= base + added1);
                assert forall|rest: Seq<(Seq<char>, Seq<char>)>|
                    spec_excludes_props(tables@, ti, (i + 1) as nat, fuel as nat) == Some(rest)
                        implies spec_excludes_props(tables@, ti, 0, fuel as nat) == Some(
                    added1 + rest,
                ) by {
                    assert(spec_excludes_props(tables@, ti, i as nat, fuel as nat) == Some(
                        sub + rest,
                    ));
                    assert(added0 + (sub + rest) =~= added1 + rest);
                }
            }
        } else if prop.flags.contains(PROP_EXCLUDE) {
            let dt_name = match &prop.exclude_dt_name {
                Some(n) => n.clone(),
                None => {
                    return Err(DecodeError::SchemaInconsistency);
                },
            };
            let ghost pair = (prop.name@, dt_name@);
            excludes.push((prop.name.clone(), dt_name));
            proof {
                let added1 = excludes@.map_values(|p: (String, String)| (p.0@, p.1@)).skip(
                    base.len() as int,
                );
                assert(added1 =~= added0 + seq![pair]);
                assert((base + added0) + seq![pair] =~= base + (added0 + seq![pair]));
                assert(excludes@.map_values(|p: (String, String)| (p.0@, p.1@)) =~= base + added1);
                assert forall|rest: Seq<(Seq<char>, Seq<char>)>|
                    spec_excludes_props(tables@, ti, (i + 1) as nat, fuel as nat) == Some(rest)
                        implies spec_excludes_props(tables@, ti, 0, fuel as nat) == Some(
                    added1 + rest,
                ) by {
                    assert(spec_excludes_props(tables@, ti, i as nat, fuel as nat) == Some(
                        seq![pair] + rest,
                    ));
                    assert(added0 + (seq![pair] + rest) =~= added1 + rest);
                }
            }
        }
        i = i + 1;
    }
    proof {
        assert(spec_excludes_props(tables@, ti, i as nat, fuel as nat) == Some(Seq::<
            (Seq<char>, Seq<char>),
        >::empty()));
        let added = excludes@.map_values(|p: (String, String)| (p.0@, p.1@)).skip(
            base.len() as int,
        );
        assert(added + Seq::<(Seq<char>, Seq<char>)>::empty() =~= added);
    }
    Ok(())
}

/// A found table index is inside the table list.
proof fn lemma_find_table_in_range(tables: Seq<SendTable>, name: Seq<char>, i: nat)
    requires
        spec_find_table(tables, name, i) is Some,
    ensures
        0 <= spec_find_table(tables, name, i).unwrap() < tables.len(),
    decreases tables.len() - i,
{
    if i < tables.len() && tables[i as int].name@ != name {
        lemma_find_table_in_range(tables, name, i + 1);
    }
}

/// Walks table `table_idx` exactly as `spec_walk` defines: the sub-table
/// contributions appended to `entry`, the table's own flat properties
/// appended to `f_props`; fails exactly when the specification is `None`.
#[verifier::loop_isolation(false)]
fn iterate_props(
    tables: &Vec<SendTable>,
    table_idx: usize,
    excludes: &Vec<(String, String)>,
    entry: &mut Vec<FlattenedProp>,
    f_props: &mut Vec<FlattenedProp>,
    fuel: usize,
) -> (r: Result<(), DecodeError>)
    requires
        table_idx < tables@.len(),
    ensures
        r is Ok <==> spec_walk(
            tables@,
            table_idx as int,
            excludes@.map_values(|p: (String, String)| (p.0@, p.1@)),
            fuel as nat,
        ) is Some,
        r is Ok ==> ({
            let w = spec_walk(
                tables@,
                table_idx as int,
                excludes@.map_values(|p: (String, String)| (p.0@, p.1@)),
                fuel as nat,
            ).unwrap();
            &&& final(entry)@ == old(entry)@ + w.0
            &&& final(f_props)@ == old(f_props)@ + w.1
        }),
        r matches Err(e) ==> e == DecodeError::SchemaInconsistency,
    decreases fuel, 0int,
{
    if fuel == 0 {
        return Err(DecodeError::SchemaInconsistency);
    }
    let ghost ev = excludes@.map_values(|p: (String, String)| (p.0@, p.1@));
    let ghost e_base = entry@;
    let ghost o_base = f_props@;
    let table = &tables[table_idx];
    let ghost ti = table_idx as int;
    let mut i: usize = 0;
    while i < table.prop_list.len()
        invariant
            fuel >= 1,
            table == tables@[ti],
            i <= table.prop_list@.len(),
            ev == excludes@.map_values(|p: (String, String)| (p.0@, p.1@)),
            e_base == old(entry)@,
            o_base == old(f_props)@,
            ({
                let e_added = entry@.skip(e_base.len() as int);
                let o_added = f_props@.skip(o_base.len() as int);
                &&& entry@ == e_base + e_added
                &&& f_props@ == o_base + o_added
                &&& (spec_walk_props(tables@, ti, i as nat, ev, fuel as nat) matches Some(rest)
                    ==> spec_walk_props(tables@, ti, 0, ev, fuel as nat) == Some(
                    (e_added + rest.0, o_added + rest.1),
                ))
                &&& (spec_walk_props(tables@, ti, i as nat, ev, fuel as nat) is None
                    ==> spec_walk_props(tables@, ti, 0, ev, fuel as nat) is None)
            }),
        decreases table.prop_list@.len() - i,
    {
        let ghost e_added0 = entry@.skip(e_base.len() as int);
        let ghost o_added0 = f_props@.skip(o_base.len() as int);
        let prop = &table.prop_list[i];
        if prop.flags.contains(PROP_EXCLUDE) || prop.flags.contains(PROP_INSIDE_ARRAY)
            || excludes_contain(excludes, &prop.name, &table.name) {
            i = i + 1;
            continue ;
        }
        if matches!(prop.send_prop_type, SendPropType::DataTable) {
            let sub_name = match &prop.exclude_dt_name {
                Some(n) => n,
                None => {
                    return Err(DecodeError::SchemaInconsistency);
                },
            };
            let sub_idx = match find_table(tables, sub_name) {
                Some(idx) => idx,
                None => {
                    return Err(DecodeError::SchemaInconsistency);
                },
            };
            proof {
                lemma_find_table_in_range(tables@, sub_name@, 0);
            }
            if prop.flags.contains(PROP_COLLAPSIBLE) {
                iterate_props(tables, sub_idx, excludes, entry, f_props, fuel - 1)?;
                proof {
                    let sub = spec_walk(tables@, sub_idx as int, ev, (fuel - 1) as nat).unwrap();
                    let e_added1 = entry@.skip(e_base.len() as int);
                    let o_added1 = f_props@.skip(o_base.len() as int);
                    assert(e_added1 =~= e_added0 + sub.0);
                    assert(o_added1 =~= o_added0 + sub.1);
                    assert(entry@ =~= e_base + e_added1);
                    assert(f_props@ =~= o_base + o_added1);
                    assert forall|rest: (Seq<FlattenedProp>, Seq<FlattenedProp>)|
                        spec_walk_props(tables@, ti, (i + 1) as nat, ev, fuel as nat) == Some(rest)
                            implies spec_walk_props(tables@, ti, 0, ev, fuel as nat) == Some(
                        (e_added1 + rest.0, o_added1 + rest.1),
                    ) by {
                        assert(spec_walk_props(tables@, ti, i as nat, ev, fuel as nat) == Some(
                            (sub.0 + rest.0, sub.1 + rest.1),
                        ));
                        assert(e_added0 + (sub.0 + rest.0) =~= e_added1 + rest.0);
                        assert(o_added0 + (sub.1 + rest.1) =~= o_added1 + rest.1);
                    }
                }
            } else {
                gather_props(tables, sub_idx, excludes, entry, fuel - 1)?;
                proof {
                    let g = spec_gather(tables@, sub_idx as int, ev, (fuel - 1) as nat).unwrap();
                    let e_added1 = entry@.skip(e_base.len() as int);
                    let o_added1 = f_props@.skip(o_base.len() as int);
                    assert(e_added1 =~= e_added0 + g);
                    assert(o_added1 =~= o_added0);
                    assert(entry@ =~= e_base + e_added1);
                    assert forall|rest: (Seq<FlattenedProp>, Seq<FlattenedProp>)|
                        spec_walk_props(tables@, ti, (i + 1) as nat, ev, fuel as nat) == Some(rest)
                            implies spec_walk_props(tables@, ti, 0, ev, fuel as nat) == Some(
                        (e_added1 + rest.0, o_added1 + rest.1),
                    ) by {
                        assert(spec_walk_props(tables@, ti, i as nat, ev, fuel as nat) == Some(
                            (g + rest.0, rest.1),
                        ));
                        assert(e_added0 + (g + rest.0) =~= e_added1 + rest.0);
                    }
                }
            }
        } else {
            let array_element: Option<SendTableProp> = if matches!(
                prop.send_prop_type,
                SendPropType::Array,
            ) {
                if i == 0 {
                    return Err(DecodeError::SchemaInconsistency);
                }
                Some(clone_prop(&table.prop_list[i - 1]))
            } else {
                None
            };
            let fp = FlattenedProp::new(prop.name.clone(), clone_prop(prop), array_element);
            proof {
                assert(fp == (FlattenedProp {
                    name: table.prop_list@[i as int].name,
                    prop_info: table.prop_list@[i as int],
                    array_element_prop_info: if table.prop_list@[i as int].send_prop_type
                        is Array {
                        Some(table.prop_list@[i - 1])
                    } else {
                        None
                    },
                }));
            }
            f_props.push(fp);
            proof {
                let e_added1 = entry@.skip(e_base.len() as int);
                let o_added1 = f_props@.skip(o_base.len() as int);
                assert(e_added1 =~= e_added0);
                assert(o_added1 =~= o_added0 + seq![fp]);
                assert(f_props@ =~= o_base + o_added1);
                assert forall|rest: (Seq<FlattenedProp>, Seq<FlattenedProp>)|
                    spec_walk_props(tables@, ti, (i + 1) as nat, ev, fuel as nat) == Some(rest)
                        implies spec_walk_props(tables@, ti, 0, ev, fuel as nat) == Some(
                    (e_added1 + rest.0, o_added1 + rest.1),
                ) by {
                    assert(spec_walk_props(tables@, ti, i as nat, ev, fuel as nat) == Some(
                        (rest.0, seq![fp] + rest.1),
                    ));
                    assert(o_added0 + (seq![fp] + rest.1) =~= o_added1 + rest.1);
                }
            }
        }
        i = i + 1;
    }
    proof {
        assert(spec_walk_props(tables@, ti, i as nat, ev, fuel as nat) == Some(
            (Seq::<FlattenedProp>::empty(), Seq::<FlattenedProp>::empty()),
        ));
        let e_added = entry@.skip(e_base.len() as int);
        let o_added = f_props@.skip(o_base.len() as int);
        assert(e_added + Seq::<FlattenedProp>::empty() =~= e_added);
        assert(o_added + Seq::<FlattenedProp>::empty() =~= o_added);
    }
    Ok(())
}

/// Flattens table `table_idx` into the class entry exactly as `spec_gather`
/// defines: the walk's sub-table contributions, then the table's own flat
/// properties.
#[verifier::loop_isolation(false)]
fn gather_props(
    tables: &Vec<SendTable>,
    table_idx: usize,
    excludes: &Vec<(String, String)>,
    entry: &mut Vec<FlattenedProp>,
    fuel: usize,
) -> (r: Result<(), DecodeError>)
    requires
        table_idx < tables@.len(),
    ensures
        r is Ok <==> spec_gather(
            tables@,
            table_idx as int,
            excludes@.map_values(|p: (String, String)| (p.0@, p.1@)),
            fuel as nat,
        ) is Some,
        r is Ok ==> final(entry)@ == old(entry)@ + spec_gather(
            tables@,
            table_idx as int,
            excludes@.map_values(|p: (String, String)| (p.0@, p.1@)),
            fuel as nat,
        ).unwrap(),
        r matches Err(e) ==> e == DecodeError::SchemaInconsistency,
    decreases fuel, 1int,
{
    let ghost ev = excludes@.map_values(|p: (String, String)| (p.0@, p.1@));
    let ghost e_base = entry@;
    let mut f_props: Vec<FlattenedProp> = Vec::new();
    iterate_props(tables, table_idx, excludes, entry, &mut f_props, fuel)?;
    let ghost w = spec_walk(tables@, table_idx as int, ev, fuel as nat).unwrap();
    let mut i: usize = 0;
    while i < f_props.len()
        invariant
            i <= f_props@.len(),
            f_props@ == w.1,
            entry@ == e_base + w.0 + w.1.take(i as int),
        decreases f_props@.len() - i,
    {
        entry.push(clone_fprop(&f_props[i]));
        i = i + 1;
        proof {
            assert(e_base + w.0 + w.1.take(i - 1) + seq![w.1[i - 1]] =~= e_base + w.0 + w.1.take(
                i as int,
            ));
        }
    }
    proof {
        assert(w.1.take(w.1.len() as int) =~= w.1);
        assert(e_base + w.0 + w.1 =~= e_base + (w.0 + w.1));
    }
    Ok(())
}

/// Stable partition of a flattened list: properties flagged as changing
/// often first, the rest after, declaration order kept inside each part.
#[verifier::loop_isolation(false)]
pub fn sort_props(f_props: &mut Vec<FlattenedProp>)
    ensures
        final(f_props)@ == stable_partition(old(f_props)@),
{
    let ghost orig = f_props@;
    let mut out: Vec<FlattenedProp> = Vec::new();
    let mut i: usize = 0;
    proof {
        assert(orig.take(0).filter(|p: FlattenedProp| changes_often(p)) =~= Seq::<
            FlattenedProp,
        >::empty()) by {
            reveal_with_fuel(Seq::filter, 1);
            assert(orig.take(0) =~= Seq::<FlattenedProp>::empty());
        }
    }
    while i < f_props.len()
        invariant
            i <= f_props@.len(),
            f_props@ == orig,
            out@ == orig.take(i as int).filter(|p: FlattenedProp| changes_often(p)),
        decreases f_props@.len() - i,
    {
        let keep = f_props[i].prop_info.flags.contains(PROP_CHANGES_OFTEN);
        if keep {
            out.push(clone_fprop(&f_props[i]));
        }
        i = i + 1;
        proof {
            lemma_filter_take_step(orig, (i - 1) as int, |p: FlattenedProp| changes_often(p));
        }
    }
    let mut j: usize = 0;
    proof {
        assert(orig.take(f_props@.len() as int) =~= orig);
        assert(orig.take(0).filter(|p: FlattenedProp| !changes_often(p)) =~= Seq::<
            FlattenedProp,
        >::empty()) by {
            reveal_with_fuel(Seq::filter, 1);
            assert(orig.take(0) =~= Seq::<FlattenedProp>::empty());
        }
    }
    while j < f_props.len()
        invariant
            j <= f_props@.len(),
            f_props@ == orig,
            out@ == orig.filter(|p: FlattenedProp| changes_often(p)) + orig.take(
                j as int,
            ).filter(|p: FlattenedProp| !changes_often(p)),
        decreases f_props@.len() - j,
    {
        let keep = !f_props[j].prop_info.flags.contains(PROP_CHANGES_OFTEN);
        if keep {
            out.push(clone_fprop(&f_props[j]));
        }
        j = j + 1;
        proof {
            lemma_filter_take_step(orig, (j - 1) as int, |p: FlattenedProp| !changes_often(p));
        }
    }
    proof {
        assert(orig.take(f_props@.len() as int) =~= orig);
    }
    *f_props = out;
}

/// One unfolding of `filter` over a growing prefix: filtering `i + 1`
/// elements appends the element at `i` exactly when the predicate holds.
proof fn lemma_filter_take_step(s: Seq<FlattenedProp>, i: int, pred: spec_fn(FlattenedProp) -> bool)
    requires
        0 <= i < s.len(),
    ensures
        s.take(i + 1).filter(pred) == if pred(s[i]) {
            s.take(i).filter(pred).push(s[i])
        } else {
            s.take(i).filter(pred)
        },
{
    reveal_with_fuel(Seq::filter, 1);
    assert(s.take(i + 1).drop_last() =~= s.take(i));
    assert(s.take(i + 1).last() == s[i]);
    assert(s.take(i + 1).len() == i + 1 > 0);
}

impl DataTablesManager {
    pub fn new(datatables: DataTables, server_class_bits: i32) -> (r: Self)
        ensures
            r.server_class_bits == server_class_bits,
            r.prop_lookup@.len() == 0,
            r.datatables == datatables,
    {
        Self { datatables, server_class_bits, prop_lookup: Vec::new() }
    }

    /// Flattens one declared server class: exactly `spec_flatten_class` of
    /// the declared tables, or `SchemaInconsistency` exactly when that
    /// specification has no value (a class binding no declared table, a
    /// missing sub-table reference, or a reference cycle).
    #[verifier::loop_isolation(false)]
    pub fn flatten_one_class(&self, server_class: &ServerClass) -> (r: Result<
        Vec<FlattenedProp>,
        DecodeError,
    >)
        ensures
            r is Ok <==> spec_flatten_class(self.datatables.send_tables@, *server_class) is Some,
            r matches Ok(v) ==> Some(v@) == spec_flatten_class(
                self.datatables.send_tables@,
                *server_class,
            ),
            r matches Err(e) ==> e == DecodeError::SchemaInconsistency,
    {
        let fuel = if self.datatables.send_tables.len() < usize::MAX {
            self.datatables.send_tables.len() + 1
        } else {
            usize::MAX
        };
        let id = server_class.datatable_id;
        if id < 0 || (id as usize) >= self.datatables.send_tables.len() {
            return Err(DecodeError::SchemaInconsistency);
        }
        let table_idx = id as usize;
        let mut excludes: Vec<(String, String)> = Vec::new();
        gather_excludes(&self.datatables.send_tables, table_idx, &mut excludes, fuel)?;
        proof {
            assert(excludes@.map_values(|p: (String, String)| (p.0@, p.1@)) =~= Seq::<
                (Seq<char>, Seq<char>),
            >::empty() + spec_excludes(
                self.datatables.send_tables@,
                table_idx as int,
                fuel as nat,
            ).unwrap());
        }
        let mut entry: Vec<FlattenedProp> = Vec::new();
        gather_props(&self.datatables.send_tables, table_idx, &excludes, &mut entry, fuel)?;
        proof {
            assert(entry@ =~= Seq::<FlattenedProp>::empty() + spec_gather(
                self.datatables.send_tables@,
                table_idx as int,
                excludes@.map_values(|p: (String, String)| (p.0@, p.1@)),
                fuel as nat,
            ).unwrap());
        }
        sort_props(&mut entry);
        Ok(entry)
    }

    /// Flattens every declared server class into the lookup, in class
    /// order: one entry per class whose flattening specification has a
    /// value, holding exactly that value; classes whose specification is
    /// `None` (missing or circular table references) are skipped and the
    /// rest still flatten.
    #[verifier::loop_isolation(false)]
    pub fn flatten_classes(&mut self, server_classes: &Vec<ServerClass>)
        ensures
            final(self).datatables == old(self).datatables,
            final(self).server_class_bits == old(self).server_class_bits,
            final(self).prop_lookup@.len() <= old(self).prop_lookup@.len()
                + server_classes@.len(),
            final(self).prop_lookup@.len() >= old(self).prop_lookup@.len(),
            forall|k: int|
                old(self).prop_lookup@.len() <= k < final(self).prop_lookup@.len()
                    ==> spec_flatten_class(
                    old(self).datatables.send_tables@,
                    (#[trigger] final(self).prop_lookup@[k]).0,
                ) == Some(final(self).prop_lookup@[k].1@),
    {
        let mut c: usize = 0;
        while c < server_classes.len()
            invariant
                c <= server_classes@.len(),
                self.datatables == old(self).datatables,
                self.server_class_bits == old(self).server_class_bits,
                self.prop_lookup@.len() <= old(self).prop_lookup@.len() + c,
                self.prop_lookup@.len() >= old(self).prop_lookup@.len(),
                forall|k: int|
                    old(self).prop_lookup@.len() <= k < self.prop_lookup@.len()
                        ==> spec_flatten_class(
                        old(self).datatables.send_tables@,
                        (#[trigger] self.prop_lookup@[k]).0,
                    ) == Some(self.prop_lookup@[k].1@),
            decreases server_classes@.len() - c,
        {
            let server_class = &server_classes[c];
            match self.flatten_one_class(server_class) {
                Ok(entry) => {
                    let cls = ServerClass {
                        datatable_id: server_class.datatable_id,
                        class_name: server_class.class_name.clone(),
                        data_table_name: server_class.data_table_name.clone(),
                    };
                    proof {
                        assert(cls == *server_class);
                    }
                    self.prop_lookup.push((cls, entry));
                },
                Err(_) => {},
            }
            c = c + 1;
        }
    }
}

} // verus!
