//! The tree walker: a depth-first traversal of a unit's entry tree that
//! dispatches on each entry's tag, keeps the module-path scope stack, and
//! assembles the ordered item list with per-subtree error isolation.

use vstd::prelude::*;

use crate::dwarf::base_type::{base_type_of, from_base_type};
use crate::dwarf::function::{collect_params, from_subprogram, subprogram_of};
use crate::dwarf::pointer_type::{from_pointer_type, pointer_type_of};
use crate::dwarf::structure::{from_structure_type, member_of, structure_of};
use crate::entry::{find_attr, first_attr, AttrName, AttrValue, Entry, ExtractError, Tag, LANG_RUST};
use crate::item::{items_model, FunctionModel, Item, ItemModel, StructureModel};

verus! {

/// What walking one entry in the scope `module` yields: the items its
/// subtree appends to the output, in order, and the error it reports to its
/// parent, if any. An entry that reports an error may still have appended
/// items for method children already walked; items appended before a failure
/// are never discarded.
pub open spec fn walk_entry(e: Entry, module: Seq<Seq<char>>) -> (
    Seq<(usize, ItemModel)>,
    Option<ExtractError>,
)
    decreases e, 0int, 0int,
{
    match e.tag {
        // A unit not marked as Rust contributes nothing; a Rust unit's
        // children are walked with each child's error isolated.
        Tag::CompileUnit => {
            if first_attr(e.attrs@, AttrName::Language) == Some(
                AttrValue::Enumerator(LANG_RUST),
            ) {
                (walk_isolated(e.children@, module), None)
            } else {
                (Seq::empty(), None)
            }
        },
        // A named namespace pushes its name for the duration of its
        // children; each child's error is isolated.
        Tag::Namespace => match first_attr(e.attrs@, AttrName::Name) {
            Some(AttrValue::Text(s)) => (walk_isolated(e.children@, module.push(s@)), None),
            Some(_) => (Seq::empty(), Some(ExtractError::NameNotText)),
            None => (walk_isolated(e.children@, module), None),
        },
        // A subprogram that passes the classifier gate collects its formal
        // parameters and yields exactly one item; an excluded one yields
        // nothing, silently.
        Tag::Subprogram => match subprogram_of(e.attrs@, e.offset, module) {
            Err(er) => (Seq::empty(), Some(er)),
            Ok(None) => (Seq::empty(), None),
            Ok(Some(f)) => match collect_params(e.children@, f) {
                Err(er) => (Seq::empty(), Some(er)),
                Ok(f2) => (seq![(e.offset, ItemModel::Function(f2))], None),
            },
        },
        Tag::BaseType => match base_type_of(e.attrs@, module) {
            Err(er) => (Seq::empty(), Some(er)),
            Ok(bt) => (seq![(e.offset, ItemModel::BaseType(bt))], None),
        },
        Tag::PointerType => match pointer_type_of(e.attrs@, module) {
            Err(er) => (Seq::empty(), Some(er)),
            Ok(pt) => (seq![(e.offset, ItemModel::PointerType(pt))], None),
        },
        // A structure folds its member children into itself, walks its
        // method children with its own name pushed onto the scope, and is
        // appended after all of its children.
        Tag::StructureType => match structure_of(e.attrs@, module) {
            Err(er) => (Seq::empty(), Some(er)),
            Ok(st) => walk_struct_children(e.children@, e.offset, module, st),
        },
        // Any other kind of entry is recorded only for diagnostics.
        _ => (Seq::empty(), None),
    }
}

/// Walks a namespace's or compilation unit's children in order, with each
/// child's error caught and logged at this level: a failing child contributes
/// whatever it appended before failing, and its siblings are unaffected.
pub open spec fn walk_isolated(s: Seq<Entry>, module: Seq<Seq<char>>) -> Seq<(usize, ItemModel)>
    decreases s, 0int, 0int,
{
    if s.len() == 0 {
        Seq::empty()
    } else {
        walk_entry(s[0], module).0 + walk_isolated(s.drop_first(), module)
    }
}

/// How one child entry changes a structure under construction: a member
/// child appends one member and emits nothing; a subprogram child is walked
/// as a method, with the structure's name pushed onto the scope, and emits
/// its items into the same flat output; any other child changes nothing.
pub open spec fn structure_child(st: StructureModel, e: Entry, module: Seq<Seq<char>>) -> Result<
    (StructureModel, Seq<(usize, ItemModel)>),
    ExtractError,
>
    decreases e, 1int, 0int,
{
    if e.tag == Tag::Member {
        match member_of(e.attrs@) {
            Ok(m) => Ok((StructureModel { members: st.members.push(m), ..st }, Seq::empty())),
            Err(er) => Err(er),
        }
    } else if e.tag == Tag::Subprogram {
        let (emitted, err) = walk_entry(e, module.push(st.name));
        match err {
            None => Ok((st, emitted)),
            Some(er) => Err(er),
        }
    } else {
        Ok((st, Seq::empty()))
    }
}

/// Walks a structure's children in order. A child's failure stops the
/// structure: the structure item itself is dropped, though method items
/// already emitted stay, and the error is reported to the structure's
/// parent. When every child succeeds the finished structure is appended
/// after its methods.
pub open spec fn walk_struct_children(
    s: Seq<Entry>,
    offset: usize,
    module: Seq<Seq<char>>,
    st: StructureModel,
) -> (Seq<(usize, ItemModel)>, Option<ExtractError>)
    decreases s, 0int, 0int,
{
    if s.len() == 0 {
        (seq![(offset, ItemModel::Structure(st))], None)
    } else {
        match structure_child(st, s[0], module) {
            Ok((st2, emitted)) => {
                let (rest, err) = walk_struct_children(s.drop_first(), offset, module, st2);
                (emitted + rest, err)
            },
            Err(er) => (Seq::empty(), Some(er)),
        }
    }
}

/// What extracting a whole sequence of compilation units yields: the units'
/// emissions concatenated in order, each unit walked from an empty scope,
/// with each unit's error isolated, so a failing unit never stops the ones
/// after it.
pub open spec fn units_emitted(units: Seq<Entry>) -> Seq<(usize, ItemModel)> {
    walk_isolated(units, Seq::empty())
}

/// Walks every child in order, catching each child's error so that one
/// failing subtree never stops its siblings: the isolation loop shared by
/// compilation units and namespaces.
fn walk_children_isolated(
    children: &Vec<Entry>,
    module: &mut Vec<String>,
    items: &mut Vec<(usize, Item)>,
)
    ensures
        final(module)@ == old(module)@,
        items_model(final(items)@) == items_model(old(items)@) + walk_isolated(
            children@,
            old(module).deep_view(),
        ),
    decreases *children, 1int, 0int,
{
    proof {
        assert(children@.skip(0) =~= children@);
    }
    for i in 0..children.len()
        invariant
            module@ == old(module)@,
            items_model(items@) + walk_isolated(children@.skip(i as int), old(module).deep_view())
                == items_model(old(items)@) + walk_isolated(children@, old(module).deep_view()),
    {
        proof {
            assert(children@.skip(i as int)[0] == children@[i as int]);
            assert(children@.skip(i as int).drop_first() =~= children@.skip(i as int + 1));
            assert(module.deep_view() =~= old(module).deep_view());
        }
        let ghost items_before = items@;
        match handle_node(&children[i], module, items) {
            Ok(()) => {},
            Err(_) => {},
        }
        proof {
            let m = old(module).deep_view();
            assert((items_model(items_before) + walk_entry(children@[i as int], m).0)
                + walk_isolated(children@.skip(i as int + 1), m) =~= items_model(items_before) + (
            walk_entry(children@[i as int], m).0 + walk_isolated(
                children@.skip(i as int + 1),
                m,
            )));
        }
    }
    proof {
        assert(children@.skip(children@.len() as int) =~= Seq::<Entry>::empty());
        assert(items_model(items@) + Seq::<(usize, ItemModel)>::empty() =~= items_model(items@));
    }
}

/// Walks one entry: dispatches on its tag, appends the items its subtree
/// produces to `items` in order, and reports an error to the caller only for
/// this entry's own failure; the module-path stack is always restored, on
/// error paths too.
pub fn handle_node(entry: &Entry, module: &mut Vec<String>, items: &mut Vec<(usize, Item)>) -> (r:
    Result<(), ExtractError>)
    ensures
        final(module)@ == old(module)@,
        items_model(final(items)@) == items_model(old(items)@) + walk_entry(
            *entry,
            old(module).deep_view(),
        ).0,
        (match r {
            Ok(()) => walk_entry(*entry, old(module).deep_view()).1 is None,
            Err(e) => walk_entry(*entry, old(module).deep_view()).1 == Some(e),
        }),
    decreases *entry, 0int, 0int,
{
    let ghost m0 = old(module).deep_view();
    match entry.tag {
        Tag::CompileUnit => {
            let is_rust = match find_attr(&entry.attrs, AttrName::Language) {
                Some(AttrValue::Enumerator(l)) => *l == LANG_RUST,
                _ => false,
            };
            if is_rust {
                walk_children_isolated(&entry.children, module, items);
            } else {
                proof {
                    assert(items_model(items@) =~= items_model(items@) + Seq::<
                        (usize, ItemModel),
                    >::empty());
                }
            }
            Ok(())
        },
        Tag::Namespace => {
            let pushed: bool;
            match find_attr(&entry.attrs, AttrName::Name) {
                Some(AttrValue::Text(s)) => {
                    module.push(s.clone());
                    proof {
                        assert(module.deep_view() =~= m0.push(s@));
                    }
                    pushed = true;
                },
                Some(_) => {
                    proof {
                        assert(items_model(items@) =~= items_model(items@) + Seq::<
                            (usize, ItemModel),
                        >::empty());
                    }
                    return Err(ExtractError::NameNotText);
                },
                None => {
                    pushed = false;
                },
            }
            walk_children_isolated(&entry.children, module, items);
            if pushed {
                let _popped = module.pop();
                proof {
                    assert(module@ =~= old(module)@);
                }
            }
            Ok(())
        },
        Tag::Subprogram => {
            let func_opt = match from_subprogram(entry, module) {
                Ok(o) => o,
                Err(e) => {
                    proof {
                        assert(items_model(items@) =~= items_model(items@) + Seq::<
                            (usize, ItemModel),
                        >::empty());
                    }
                    return Err(e);
                },
            };
            let mut func = match func_opt {
                Some(f) => f,
                None => {
                    proof {
                        assert(items_model(items@) =~= items_model(items@) + Seq::<
                            (usize, ItemModel),
                        >::empty());
                    }
                    return Ok(());
                },
            };
            let ghost f0 = func@;
            proof {
                assert(entry.children@.skip(0) =~= entry.children@);
            }
            for i in 0..entry.children.len()
                invariant
                    entry.tag == Tag::Subprogram,
                    m0 == old(module).deep_view(),
                    subprogram_of(entry.attrs@, entry.offset, m0) == Ok::<
                        Option<FunctionModel>,
                        ExtractError,
                    >(Some(f0)),
                    module@ == old(module)@,
                    items@ == old(items)@,
                    collect_params(entry.children@.skip(i as int), func@) == collect_params(
                        entry.children@,
                        f0,
                    ),
            {
                proof {
                    assert(entry.children@.skip(i as int)[0] == entry.children@[i as int]);
                    assert(entry.children@.skip(i as int).drop_first() =~= entry.children@.skip(
                        i as int + 1,
                    ));
                }
                match crate::dwarf::function::modify(&mut func, &entry.children[i]) {
                    Ok(()) => {},
                    Err(e) => {
                        proof {
                            assert(items_model(items@) =~= items_model(items@) + Seq::<
                                (usize, ItemModel),
                            >::empty());
                        }
                        return Err(e);
                    },
                }
            }
            proof {
                assert(entry.children@.skip(entry.children@.len() as int) =~= Seq::<
                    Entry,
                >::empty());
            }
            let ghost f2 = func@;
            items.push((entry.offset, Item::Function(func)));
            proof {
                assert(items_model(items@) =~= items_model(old(items)@).push(
                    (entry.offset, ItemModel::Function(f2)),
                ));
                assert(items_model(old(items)@) + seq![(entry.offset, ItemModel::Function(f2))]
                    =~= items_model(old(items)@).push((entry.offset, ItemModel::Function(f2))));
            }
            Ok(())
        },
        Tag::BaseType => match from_base_type(entry, module) {
            Ok(bt) => {
                let ghost btm = bt@;
                items.push((entry.offset, Item::BaseType(bt)));
                proof {
                    assert(items_model(items@) =~= items_model(old(items)@).push(
                        (entry.offset, ItemModel::BaseType(btm)),
                    ));
                    assert(items_model(old(items)@) + seq![(entry.offset, ItemModel::BaseType(btm))]
                        =~= items_model(old(items)@).push((entry.offset, ItemModel::BaseType(btm))));
                }
                Ok(())
            },
            Err(e) => {
                proof {
                    assert(items_model(items@) =~= items_model(items@) + Seq::<
                        (usize, ItemModel),
                    >::empty());
                }
                Err(e)
            },
        },
        Tag::PointerType => match from_pointer_type(entry, module) {
            Ok(pt) => {
                let ghost ptm = pt@;
                items.push((entry.offset, Item::PointerType(pt)));
                proof {
                    assert(items_model(items@) =~= items_model(old(items)@).push(
                        (entry.offset, ItemModel::PointerType(ptm)),
                    ));
                    assert(items_model(old(items)@) + seq![
                        (entry.offset, ItemModel::PointerType(ptm)),
                    ] =~= items_model(old(items)@).push(
                        (entry.offset, ItemModel::PointerType(ptm)),
                    ));
                }
                Ok(())
            },
            Err(e) => {
                proof {
                    assert(items_model(items@) =~= items_model(items@) + Seq::<
                        (usize, ItemModel),
                    >::empty());
                }
                Err(e)
            },
        },
        Tag::StructureType => {
            let mut ty = match from_structure_type(entry, module) {
                Ok(t) => t,
                Err(e) => {
                    proof {
                        assert(items_model(items@) =~= items_model(items@) + Seq::<
                            (usize, ItemModel),
                        >::empty());
                    }
                    return Err(e);
                },
            };
            let ghost st0 = ty@;
            proof {
                assert(entry.children@.skip(0) =~= entry.children@);
            }
            for i in 0..entry.children.len()
                invariant
                    entry.tag == Tag::StructureType,
                    m0 == old(module).deep_view(),
                    structure_of(entry.attrs@, m0) == Ok::<StructureModel, ExtractError>(st0),
                    module@ == old(module)@,
                    items_model(items@) + walk_struct_children(
                        entry.children@.skip(i as int),
                        entry.offset,
                        m0,
                        ty@,
                    ).0 == items_model(old(items)@) + walk_struct_children(
                        entry.children@,
                        entry.offset,
                        m0,
                        st0,
                    ).0,
                    walk_struct_children(entry.children@.skip(i as int), entry.offset, m0, ty@).1
                        == walk_struct_children(entry.children@, entry.offset, m0, st0).1,
            {
                proof {
                    assert(entry.children@.skip(i as int)[0] == entry.children@[i as int]);
                    assert(entry.children@.skip(i as int).drop_first() =~= entry.children@.skip(
                        i as int + 1,
                    ));
                    assert(module.deep_view() =~= old(module).deep_view());
                }
                let ghost items_before = items@;
                let ghost ty_before = ty@;
                match crate::dwarf::structure::modify(module, items, &mut ty, &entry.children[i]) {
                    Ok(()) => {
                        proof {
                            let c = entry.children@[i as int];
                            let res = structure_child(ty_before, c, m0);
                            let emitted = res->Ok_0.1;
                            let rest = walk_struct_children(
                                entry.children@.skip(i as int + 1),
                                entry.offset,
                                m0,
                                ty@,
                            ).0;
                            assert((items_model(items_before) + emitted) + rest =~= items_model(
                                items_before,
                            ) + (emitted + rest));
                        }
                    },
                    Err(e) => {
                        proof {
                            assert(items_model(items@) + Seq::<(usize, ItemModel)>::empty()
                                =~= items_model(items@));
                        }
                        return Err(e);
                    },
                }
            }
            proof {
                assert(entry.children@.skip(entry.children@.len() as int) =~= Seq::<
                    Entry,
                >::empty());
            }
            let ghost stf = ty@;
            let ghost items_end = items@;
            items.push((entry.offset, Item::Structure(ty)));
            proof {
                assert(items_model(items@) =~= items_model(items_end).push(
                    (entry.offset, ItemModel::Structure(stf)),
                ));
                assert(items_model(items_end) + seq![(entry.offset, ItemModel::Structure(stf))]
                    =~= items_model(items_end).push((entry.offset, ItemModel::Structure(stf))));
            }
            Ok(())
        },
        _ => {
            proof {
                assert(items_model(items@) =~= items_model(items@) + Seq::<
                    (usize, ItemModel),
                >::empty());
            }
            Ok(())
        },
    }
}

/// Extracts the ordered `(origin offset, item)` list from a sequence of
/// compilation-unit root entries: each unit is walked from an empty scope,
/// and a failing unit or subtree only omits its own contribution.
pub fn get_items(units: &Vec<Entry>) -> (r: Vec<(usize, Item)>)
    ensures
        items_model(r@) == units_emitted(units@),
{
    let mut items: Vec<(usize, Item)> = Vec::new();
    let mut module: Vec<String> = Vec::new();
    proof {
        assert(units@.skip(0) =~= units@);
        assert(items_model(items@) =~= Seq::<(usize, ItemModel)>::empty());
    }
    for i in 0..units.len()
        invariant
            module@ == Seq::<String>::empty(),
            items_model(items@) + walk_isolated(units@.skip(i as int), Seq::empty()) == units_emitted(units@),
    {
        proof {
            assert(units@.skip(i as int)[0] == units@[i as int]);
            assert(units@.skip(i as int).drop_first() =~= units@.skip(i as int + 1));
            assert(module.deep_view() =~= Seq::<Seq<char>>::empty());
        }
        let ghost items_before = items@;
        match handle_node(&units[i], &mut module, &mut items) {
            Ok(()) => {},
            Err(_) => {},
        }
        proof {
            assert((items_model(items_before) + walk_entry(units@[i as int], Seq::empty()).0)
                + walk_isolated(units@.skip(i as int + 1), Seq::empty()) =~= items_model(
                items_before,
            ) + (walk_entry(units@[i as int], Seq::empty()).0 + walk_isolated(
                units@.skip(i as int + 1),
                Seq::empty(),
            )));
        }
    }
    proof {
        assert(units@.skip(units@.len() as int) =~= Seq::<Entry>::empty());
        assert(items_model(items@) + Seq::<(usize, ItemModel)>::empty() =~= items_model(items@));
    }
    items
}

} // verus!
