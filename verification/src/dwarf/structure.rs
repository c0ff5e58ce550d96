//! Interpretation of a structure-type entry: its own attributes, its data
//! members, and the methods nested inside it.

use vstd::prelude::*;

use crate::dwarf::walk::{handle_node, structure_child, walk_entry};
use crate::entry::{
    lemma_scan_attrs_err, lemma_scan_attrs_step, scan_attrs, Attr, AttrName, AttrValue, Entry,
    ExtractError, Tag,
};
use crate::item::{items_model, Item, ItemModel, MemberModel, Structure, StructureModel};

verus! {

/// The attributes a structure-type scan collects.
pub struct StState {
    pub name: Option<Seq<char>>,
    pub size: Option<u64>,
    pub alignment: Option<u64>,
}

/// How one attribute changes a structure-type scan: the last name, size and
/// alignment seen win; a size or alignment of another shape resets the value
/// to absent.
pub open spec fn st_step(st: StState, a: Attr) -> Result<StState, ExtractError> {
    match a.name {
        AttrName::Name => match a.value {
            AttrValue::Text(s) => Ok(StState { name: Some(s@), ..st }),
            _ => Err(ExtractError::NameNotText),
        },
        AttrName::ByteSize => match a.value {
            AttrValue::Unsigned(n) => Ok(StState { size: Some(n), ..st }),
            _ => Ok(StState { size: None, ..st }),
        },
        AttrName::Alignment => match a.value {
            AttrValue::Unsigned(n) => Ok(StState { alignment: Some(n), ..st }),
            _ => Ok(StState { alignment: None, ..st }),
        },
        _ => Ok(st),
    }
}

/// The empty structure-type scan state.
pub open spec fn st_init() -> StState {
    StState { name: None, size: None, alignment: None }
}

/// The structure-type step as a function value.
pub open spec fn st_step_fn() -> spec_fn(StState, Attr) -> Result<StState, ExtractError> {
    |st: StState, a: Attr| st_step(st, a)
}

/// What interpreting a structure-type entry's own attributes yields: name,
/// size and alignment, each required, with no members yet; member and method
/// children are folded in afterwards.
pub open spec fn structure_of(attrs: Seq<Attr>, module: Seq<Seq<char>>) -> Result<
    StructureModel,
    ExtractError,
> {
    match scan_attrs(st_step_fn(), st_init(), attrs) {
        Err(e) => Err(e),
        Ok(st) => match st.name {
            None => Err(ExtractError::MissingName),
            Some(name) => match st.size {
                None => Err(ExtractError::MissingByteSize),
                Some(size) => match st.alignment {
                    None => Err(ExtractError::MissingAlignment),
                    Some(alignment) => Ok(
                        StructureModel { name, module, size, alignment, members: Seq::empty() },
                    ),
                },
            },
        },
    }
}

/// Interprets a structure-type entry's own attributes in the scope `module`.
pub fn from_structure_type(entry: &Entry, module: &Vec<String>) -> (r: Result<
    Structure,
    ExtractError,
>)
    ensures
        match r {
            Ok(st) => structure_of(entry.attrs@, module.deep_view()) == Ok::<
                StructureModel,
                ExtractError,
            >(st@),
            Err(e) => structure_of(entry.attrs@, module.deep_view()) == Err::<
                StructureModel,
                ExtractError,
            >(e),
        },
{
    let mut name: Option<String> = None;
    let mut size: Option<u64> = None;
    let mut alignment: Option<u64> = None;

    proof {
        assert(entry.attrs@.take(0) =~= Seq::<Attr>::empty());
    }
    for i in 0..entry.attrs.len()
        invariant
            scan_attrs(st_step_fn(), st_init(), entry.attrs@.take(i as int)) == Ok::<
                StState,
                ExtractError,
            >(StState { name: name.deep_view(), size, alignment }),
    {
        proof {
            lemma_scan_attrs_step(st_step_fn(), st_init(), entry.attrs@, i as int);
        }
        let a = &entry.attrs[i];
        match a.name {
            AttrName::Name => match &a.value {
                AttrValue::Text(s) => {
                    name = Some(s.clone());
                },
                _ => {
                    proof {
                        lemma_scan_attrs_err(st_step_fn(), st_init(), entry.attrs@, i as int + 1);
                    }
                    return Err(ExtractError::NameNotText);
                },
            },
            AttrName::ByteSize => match &a.value {
                AttrValue::Unsigned(n) => {
                    size = Some(*n);
                },
                _ => {
                    size = None;
                },
            },
            AttrName::Alignment => match &a.value {
                AttrValue::Unsigned(n) => {
                    alignment = Some(*n);
                },
                _ => {
                    alignment = None;
                },
            },
            _ => {},
        }
    }
    proof {
        assert(entry.attrs@.take(entry.attrs@.len() as int) =~= entry.attrs@);
    }

    let name = match name {
        Some(n) => n,
        None => {
            return Err(ExtractError::MissingName);
        },
    };
    let size = match size {
        Some(s) => s,
        None => {
            return Err(ExtractError::MissingByteSize);
        },
    };
    let alignment = match alignment {
        Some(a) => a,
        None => {
            return Err(ExtractError::MissingAlignment);
        },
    };
    let st = Structure { name, module: module.clone(), size, alignment, members: Vec::new() };
    proof {
        assert(st@.members =~= Seq::<MemberModel>::empty());
    }
    Ok(st)
}

/// The attributes a member scan collects.
pub struct MemState {
    pub name: Option<Seq<char>>,
    pub type_index: Option<usize>,
    pub offset: Option<u64>,
    pub alignment: Option<u64>,
}

/// How one attribute changes a member scan.
pub open spec fn mem_step(st: MemState, a: Attr) -> Result<MemState, ExtractError> {
    match a.name {
        AttrName::Name => match a.value {
            AttrValue::Text(s) => Ok(MemState { name: Some(s@), ..st }),
            _ => Err(ExtractError::NameNotText),
        },
        AttrName::TypeRef => match a.value {
            AttrValue::EntryRef(n) => Ok(MemState { type_index: Some(n), ..st }),
            _ => Err(ExtractError::TypeRefNotRef),
        },
        AttrName::MemberLocation => match a.value {
            AttrValue::Unsigned(n) => Ok(MemState { offset: Some(n), ..st }),
            _ => Ok(MemState { offset: None, ..st }),
        },
        AttrName::Alignment => match a.value {
            AttrValue::Unsigned(n) => Ok(MemState { alignment: Some(n), ..st }),
            _ => Ok(MemState { alignment: None, ..st }),
        },
        _ => Ok(st),
    }
}

/// The empty member scan state.
pub open spec fn mem_init() -> MemState {
    MemState { name: None, type_index: None, offset: None, alignment: None }
}

/// The member step as a function value.
pub open spec fn mem_step_fn() -> spec_fn(MemState, Attr) -> Result<MemState, ExtractError> {
    |st: MemState, a: Attr| mem_step(st, a)
}

/// What interpreting a member entry's attributes yields: name, type
/// reference, byte offset and alignment, each required.
pub open spec fn member_of(attrs: Seq<Attr>) -> Result<MemberModel, ExtractError> {
    match scan_attrs(mem_step_fn(), mem_init(), attrs) {
        Err(e) => Err(e),
        Ok(st) => match st.name {
            None => Err(ExtractError::MissingName),
            Some(name) => match st.type_index {
                None => Err(ExtractError::MissingTypeRef),
                Some(type_index) => match st.offset {
                    None => Err(ExtractError::MissingMemberLocation),
                    Some(offset) => match st.alignment {
                        None => Err(ExtractError::MissingAlignment),
                        Some(alignment) => Ok(
                            MemberModel { name, type_index, offset, alignment },
                        ),
                    },
                },
            },
        },
    }
}

/// Interprets one member entry of a structure.
pub fn member_from_entry(entry: &Entry) -> (r: Result<
    crate::item::StructureMember,
    ExtractError,
>)
    ensures
        match r {
            Ok(m) => member_of(entry.attrs@) == Ok::<MemberModel, ExtractError>(m@),
            Err(e) => member_of(entry.attrs@) == Err::<MemberModel, ExtractError>(e),
        },
{
    let mut name: Option<String> = None;
    let mut type_index: Option<usize> = None;
    let mut offset: Option<u64> = None;
    let mut alignment: Option<u64> = None;

    proof {
        assert(entry.attrs@.take(0) =~= Seq::<Attr>::empty());
    }
    for i in 0..entry.attrs.len()
        invariant
            scan_attrs(mem_step_fn(), mem_init(), entry.attrs@.take(i as int)) == Ok::<
                MemState,
                ExtractError,
            >(MemState { name: name.deep_view(), type_index, offset, alignment }),
    {
        proof {
            lemma_scan_attrs_step(mem_step_fn(), mem_init(), entry.attrs@, i as int);
        }
        let a = &entry.attrs[i];
        match a.name {
            AttrName::Name => match &a.value {
                AttrValue::Text(s) => {
                    name = Some(s.clone());
                },
                _ => {
                    proof {
                        lemma_scan_attrs_err(mem_step_fn(), mem_init(), entry.attrs@, i as int + 1);
                    }
                    return Err(ExtractError::NameNotText);
                },
            },
            AttrName::TypeRef => match &a.value {
                AttrValue::EntryRef(n) => {
                    type_index = Some(*n);
                },
                _ => {
                    proof {
                        lemma_scan_attrs_err(mem_step_fn(), mem_init(), entry.attrs@, i as int + 1);
                    }
                    return Err(ExtractError::TypeRefNotRef);
                },
            },
            AttrName::MemberLocation => match &a.value {
                AttrValue::Unsigned(n) => {
                    offset = Some(*n);
                },
                _ => {
                    offset = None;
                },
            },
            AttrName::Alignment => match &a.value {
                AttrValue::Unsigned(n) => {
                    alignment = Some(*n);
                },
                _ => {
                    alignment = None;
                },
            },
            _ => {},
        }
    }
    proof {
        assert(entry.attrs@.take(entry.attrs@.len() as int) =~= entry.attrs@);
    }

    let name = match name {
        Some(n) => n,
        None => {
            return Err(ExtractError::MissingName);
        },
    };
    let type_index = match type_index {
        Some(t) => t,
        None => {
            return Err(ExtractError::MissingTypeRef);
        },
    };
    let offset = match offset {
        Some(o) => o,
        None => {
            return Err(ExtractError::MissingMemberLocation);
        },
    };
    let alignment = match alignment {
        Some(a) => a,
        None => {
            return Err(ExtractError::MissingAlignment);
        },
    };
    Ok(crate::item::StructureMember { name, type_index, offset, alignment })
}

} // verus!

use vstd::prelude::*;

verus! {

/// Applies one child entry to a structure under construction: a member child
/// appends one member; a subprogram child is walked as a method, with the
/// structure's name pushed onto the module-path stack for the duration, its
/// items going into the same flat output list. The stack is restored even
/// when the child fails, and a failure leaves the structure and the output
/// as they were.
pub fn modify(
    module: &mut Vec<String>,
    items: &mut Vec<(usize, Item)>,
    structure: &mut Structure,
    node: &Entry,
) -> (r: Result<(), ExtractError>)
    ensures
        final(module)@ == old(module)@,
        (match (r, structure_child(old(structure)@, *node, old(module).deep_view())) {
            (Ok(()), Ok((st2, emitted))) => final(structure)@ == st2 && items_model(final(items)@)
                == items_model(old(items)@) + emitted,
            (Err(e), Err(e2)) => e == e2 && *final(structure) == *old(structure) && items_model(
                final(items)@,
            ) == items_model(old(items)@),
            _ => false,
        }),
    decreases *node, 2int, 0int,
{
    match node.tag {
        Tag::Member => match member_from_entry(node) {
            Ok(m) => {
                let ghost mm = m@;
                structure.members.push(m);
                proof {
                    assert(structure@.members =~= old(structure)@.members.push(mm));
                    assert(items_model(items@) =~= items_model(items@) + Seq::<
                        (usize, ItemModel),
                    >::empty());
                }
                Ok(())
            },
            Err(e) => {
                proof {
                    assert(items_model(items@) =~= items_model(items@));
                }
                Err(e)
            },
        },
        Tag::Subprogram => {
            let ghost m0 = old(module).deep_view();
            module.push(structure.name.clone());
            proof {
                assert(module.deep_view() =~= m0.push(structure.name@));
            }
            let r = handle_node(node, module, items);
            let _popped = module.pop();
            proof {
                assert(module@ =~= old(module)@);
                if r is Err {
                    assert(walk_entry(*node, m0.push(old(structure)@.name)).0 =~= Seq::<
                        (usize, ItemModel),
                    >::empty());
                    assert(items_model(items@) =~= items_model(old(items)@) + Seq::<
                        (usize, ItemModel),
                    >::empty());
                }
            }
            r
        },
        _ => {
            proof {
                assert(items_model(items@) =~= items_model(items@) + Seq::<
                    (usize, ItemModel),
                >::empty());
            }
            Ok(())
        },
    }
}

} // verus!
