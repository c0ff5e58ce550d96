//! Interpretation of a pointer-type entry: a name and the pointee's type
//! reference.

use vstd::prelude::*;

use crate::entry::{
    lemma_scan_attrs_err, lemma_scan_attrs_step, scan_attrs, Attr, AttrName, AttrValue, Entry,
    ExtractError,
};
use crate::item::{PointerType, PointerTypeModel};

verus! {

/// The attributes a pointer-type scan collects.
pub struct PtState {
    pub name: Option<Seq<char>>,
    pub type_index: Option<usize>,
}

/// How one attribute changes a pointer-type scan: the last name and type
/// reference seen win; a non-text name or a type reference of another shape
/// is an error.
pub open spec fn pt_step(st: PtState, a: Attr) -> Result<PtState, ExtractError> {
    match a.name {
        AttrName::Name => match a.value {
            AttrValue::Text(s) => Ok(PtState { name: Some(s@), ..st }),
            _ => Err(ExtractError::NameNotText),
        },
        AttrName::TypeRef => match a.value {
            AttrValue::EntryRef(n) => Ok(PtState { type_index: Some(n), ..st }),
            _ => Err(ExtractError::TypeRefNotRef),
        },
        _ => Ok(st),
    }
}

/// The empty pointer-type scan state.
pub open spec fn pt_init() -> PtState {
    PtState { name: None, type_index: None }
}

/// The pointer-type step as a function value, so that every mention of the
/// scan names one and the same function.
pub open spec fn pt_step_fn() -> spec_fn(PtState, Attr) -> Result<PtState, ExtractError> {
    |st: PtState, a: Attr| pt_step(st, a)
}

/// What interpreting a pointer-type entry's attributes yields: the collected
/// name and pointee type reference, both required.
pub open spec fn pointer_type_of(attrs: Seq<Attr>, module: Seq<Seq<char>>) -> Result<
    PointerTypeModel,
    ExtractError,
> {
    match scan_attrs(pt_step_fn(), pt_init(), attrs) {
        Err(e) => Err(e),
        Ok(st) => match st.name {
            None => Err(ExtractError::MissingName),
            Some(name) => match st.type_index {
                None => Err(ExtractError::MissingTypeRef),
                Some(type_index) => Ok(PointerTypeModel { name, module, type_index }),
            },
        },
    }
}

/// Interprets a pointer-type entry in the scope `module`.
pub fn from_pointer_type(entry: &Entry, module: &Vec<String>) -> (r: Result<
    PointerType,
    ExtractError,
>)
    ensures
        match r {
            Ok(pt) => pointer_type_of(entry.attrs@, module.deep_view()) == Ok::<
                PointerTypeModel,
                ExtractError,
            >(pt@),
            Err(e) => pointer_type_of(entry.attrs@, module.deep_view()) == Err::<
                PointerTypeModel,
                ExtractError,
            >(e),
        },
{
    let mut name: Option<String> = None;
    let mut type_index: Option<usize> = None;

    proof {
        assert(entry.attrs@.take(0) =~= Seq::<Attr>::empty());
    }
    for i in 0..entry.attrs.len()
        invariant
            scan_attrs(pt_step_fn(), pt_init(), entry.attrs@.take(i as int)) == Ok::<
                PtState,
                ExtractError,
            >(PtState { name: name.deep_view(), type_index }),
    {
        proof {
            lemma_scan_attrs_step(pt_step_fn(), pt_init(), entry.attrs@, i as int);
        }
        let a = &entry.attrs[i];
        match a.name {
            AttrName::Name => match &a.value {
                AttrValue::Text(s) => {
                    name = Some(s.clone());
                },
                _ => {
                    proof {
                        lemma_scan_attrs_err(pt_step_fn(), pt_init(), entry.attrs@, i as int + 1);
                    }
                    return Err(ExtractError::NameNotText);
                },
            },
            AttrName::TypeRef => match &a.value {
                AttrValue::EntryRef(n) => {
                    type_index = Some(*n);
                },
                _ => {
                    proof {
                        lemma_scan_attrs_err(pt_step_fn(), pt_init(), entry.attrs@, i as int + 1);
                    }
                    return Err(ExtractError::TypeRefNotRef);
                },
            },
            _ => {},
        }
    }
    proof {
        assert(entry.attrs@.take(entry.attrs@.len() as int) =~= entry.attrs@);
    }

    let name = match name {
        Some(n) => n,
        None => {
            return Err(ExtractError::MissingName);
        },
    };
    let type_index = match type_index {
        Some(t) => t,
        None => {
            return Err(ExtractError::MissingTypeRef);
        },
    };
    Ok(PointerType { name, module: module.clone(), type_index })
}

} // verus!
