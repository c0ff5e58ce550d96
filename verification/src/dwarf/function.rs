//! Interpretation of a subprogram entry: the external-linkage gate, the
//! symbol classifier, and the formal-parameter children.

use vstd::prelude::*;

use crate::classify::{classify_symbol, demangled_of, spec_excluded};
use crate::entry::{
    lemma_scan_attrs_err, lemma_scan_attrs_step, scan_attrs, Attr, AttrName, AttrValue, Entry,
    ExtractError, Tag,
};
use crate::item::{Function, FunctionModel};

verus! {

/// The attributes a subprogram scan collects. Once `excluded` is set (an
/// external-linkage flag that is not the boolean `true`), the scan absorbs
/// every further attribute unchanged: the entry is not API surface and
/// nothing more is read from it.
pub struct SpState {
    pub name: Option<Seq<char>>,
    pub linkage_name: Option<Seq<char>>,
    pub ret_type_index: Option<usize>,
    pub external: bool,
    pub excluded: bool,
}

/// How one attribute changes a subprogram scan.
pub open spec fn sp_step(st: SpState, a: Attr) -> Result<SpState, ExtractError> {
    if st.excluded {
        Ok(st)
    } else {
        match a.name {
            AttrName::Name => match a.value {
                AttrValue::Text(s) => Ok(SpState { name: Some(s@), ..st }),
                _ => Err(ExtractError::NameNotText),
            },
            AttrName::External => match a.value {
                AttrValue::Flag(true) => Ok(SpState { external: true, ..st }),
                _ => Ok(SpState { excluded: true, ..st }),
            },
            AttrName::TypeRef => match a.value {
                AttrValue::EntryRef(n) => Ok(SpState { ret_type_index: Some(n), ..st }),
                _ => Err(ExtractError::TypeRefNotRef),
            },
            AttrName::LinkageName => match a.value {
                AttrValue::Text(s) => Ok(SpState { linkage_name: Some(s@), ..st }),
                _ => Err(ExtractError::NameNotText),
            },
            _ => Ok(st),
        }
    }
}

/// The empty subprogram scan state.
pub open spec fn sp_init() -> SpState {
    SpState {
        name: None,
        linkage_name: None,
        ret_type_index: None,
        external: false,
        excluded: false,
    }
}

/// The subprogram step as a function value, so that every mention of the
/// scan names one and the same function.
pub open spec fn sp_step_fn() -> spec_fn(SpState, Attr) -> Result<SpState, ExtractError> {
    |st: SpState, a: Attr| sp_step(st, a)
}

/// What interpreting a subprogram entry's attributes yields.
///
/// `Ok(None)` is a silent policy exclusion: the external-linkage flag was
/// absent or not `true`, or the demangled name falls in an internal
/// namespace. A missing linkage name on an external subprogram is a hard
/// error carrying the entry's offset. An included subprogram starts with no
/// arguments; its formal-parameter children are collected afterwards.
pub open spec fn subprogram_of(
    attrs: Seq<Attr>,
    offset: usize,
    module: Seq<Seq<char>>,
) -> Result<Option<FunctionModel>, ExtractError> {
    match scan_attrs(sp_step_fn(), sp_init(), attrs) {
        Err(e) => Err(e),
        Ok(st) => if st.excluded || !st.external {
            Ok(None)
        } else {
            match st.linkage_name {
                None => Err(ExtractError::MissingLinkageName { offset }),
                Some(linkage_name) => {
                    let full_name = demangled_of(linkage_name);
                    if spec_excluded(full_name) {
                        Ok(None)
                    } else {
                        Ok(
                            Some(
                                FunctionModel {
                                    full_name,
                                    linkage_name,
                                    name: st.name,
                                    module,
                                    ret_type_index: st.ret_type_index,
                                    arguments: Seq::empty(),
                                },
                            ),
                        )
                    }
                },
            }
        },
    }
}

/// Interprets a subprogram entry in the scope `module`: `Ok(None)` when the
/// entry is not part of the API surface.
pub fn from_subprogram(entry: &Entry, module: &Vec<String>) -> (r: Result<
    Option<Function>,
    ExtractError,
>)
    ensures
        match r {
            Ok(Some(f)) => subprogram_of(entry.attrs@, entry.offset, module.deep_view()) == Ok::<
                Option<FunctionModel>,
                ExtractError,
            >(Some(f@)),
            Ok(None) => subprogram_of(entry.attrs@, entry.offset, module.deep_view()) == Ok::<
                Option<FunctionModel>,
                ExtractError,
            >(None),
            Err(e) => subprogram_of(entry.attrs@, entry.offset, module.deep_view()) == Err::<
                Option<FunctionModel>,
                ExtractError,
            >(e),
        },
{
    let mut name: Option<String> = None;
    let mut linkage_name: Option<String> = None;
    let mut ret_type_index: Option<usize> = None;
    let mut external: bool = false;
    let mut excluded: bool = false;

    proof {
        assert(entry.attrs@.take(0) =~= Seq::<Attr>::empty());
    }
    for i in 0..entry.attrs.len()
        invariant
            scan_attrs(sp_step_fn(), sp_init(), entry.attrs@.take(i as int)) == Ok::<
                SpState,
                ExtractError,
            >(
                SpState {
                    name: name.deep_view(),
                    linkage_name: linkage_name.deep_view(),
                    ret_type_index,
                    external,
                    excluded,
                },
            ),
    {
        proof {
            lemma_scan_attrs_step(sp_step_fn(), sp_init(), entry.attrs@, i as int);
        }
        let a = &entry.attrs[i];
        if !excluded {
            match a.name {
                AttrName::Name => match &a.value {
                    AttrValue::Text(s) => {
                        name = Some(s.clone());
                    },
                    _ => {
                        proof {
                            lemma_scan_attrs_err(sp_step_fn(), sp_init(), entry.attrs@, i as int + 1);
                        }
                        return Err(ExtractError::NameNotText);
                    },
                },
                AttrName::External => match &a.value {
                    AttrValue::Flag(true) => {
                        external = true;
                    },
                    _ => {
                        excluded = true;
                    },
                },
                AttrName::TypeRef => match &a.value {
                    AttrValue::EntryRef(n) => {
                        ret_type_index = Some(*n);
                    },
                    _ => {
                        proof {
                            lemma_scan_attrs_err(sp_step_fn(), sp_init(), entry.attrs@, i as int + 1);
                        }
                        return Err(ExtractError::TypeRefNotRef);
                    },
                },
                AttrName::LinkageName => match &a.value {
                    AttrValue::Text(s) => {
                        linkage_name = Some(s.clone());
                    },
                    _ => {
                        proof {
                            lemma_scan_attrs_err(sp_step_fn(), sp_init(), entry.attrs@, i as int + 1);
                        }
                        return Err(ExtractError::NameNotText);
                    },
                },
                _ => {},
            }
        }
    }
    proof {
        assert(entry.attrs@.take(entry.attrs@.len() as int) =~= entry.attrs@);
    }

    if excluded || !external {
        return Ok(None);
    }
    let linkage_name = match linkage_name {
        Some(l) => l,
        None => {
            return Err(ExtractError::MissingLinkageName { offset: entry.offset });
        },
    };
    let full_name = match classify_symbol(linkage_name.as_str()) {
        Some(f) => f,
        None => {
            return Ok(None);
        },
    };
    let func = Function {
        full_name,
        linkage_name,
        name,
        module: module.clone(),
        ret_type_index,
        arguments: Vec::new(),
    };
    proof {
        assert(func.arguments.deep_view() =~= Seq::<(Option<Seq<char>>, usize)>::empty());
    }
    Ok(Some(func))
}

/// The attributes a formal-parameter scan collects.
pub struct ParamState {
    pub name: Option<Seq<char>>,
    pub type_index: Option<usize>,
}

/// How one attribute changes a formal-parameter scan.
pub open spec fn param_step(st: ParamState, a: Attr) -> Result<ParamState, ExtractError> {
    match a.name {
        AttrName::Name => match a.value {
            AttrValue::Text(s) => Ok(ParamState { name: Some(s@), ..st }),
            _ => Err(ExtractError::NameNotText),
        },
        AttrName::TypeRef => match a.value {
            AttrValue::EntryRef(n) => Ok(ParamState { type_index: Some(n), ..st }),
            _ => Err(ExtractError::TypeRefNotRef),
        },
        _ => Ok(st),
    }
}

/// The formal-parameter step as a function value.
pub open spec fn param_step_fn() -> spec_fn(ParamState, Attr) -> Result<ParamState, ExtractError> {
    |st: ParamState, a: Attr| param_step(st, a)
}

/// What interpreting a formal-parameter entry's attributes yields: an
/// optional parameter name and a required type reference.
pub open spec fn param_of(attrs: Seq<Attr>) -> Result<(Option<Seq<char>>, usize), ExtractError> {
    match scan_attrs(param_step_fn(), ParamState { name: None, type_index: None }, attrs) {
        Err(e) => Err(e),
        Ok(st) => match st.type_index {
            None => Err(ExtractError::MissingTypeRef),
            Some(t) => Ok((st.name, t)),
        },
    }
}

/// How one child entry changes a function under construction: a
/// formal-parameter child appends one argument pair; a child of any other
/// kind changes nothing.
pub open spec fn function_child(f: FunctionModel, e: Entry) -> Result<
    FunctionModel,
    ExtractError,
> {
    if e.tag == Tag::FormalParameter {
        match param_of(e.attrs@) {
            Ok(p) => Ok(FunctionModel { arguments: f.arguments.push(p), ..f }),
            Err(er) => Err(er),
        }
    } else {
        Ok(f)
    }
}

/// Folds every child entry of a subprogram, in order, into the function
/// under construction: the arguments end up in declaration order, and the
/// first failing parameter drops the whole function.
pub open spec fn collect_params(children: Seq<Entry>, f: FunctionModel) -> Result<
    FunctionModel,
    ExtractError,
>
    decreases children.len(),
{
    if children.len() == 0 {
        Ok(f)
    } else {
        match function_child(f, children[0]) {
            Ok(f2) => collect_params(children.drop_first(), f2),
            Err(e) => Err(e),
        }
    }
}

/// Applies one child entry of a subprogram to the function under
/// construction: a formal parameter appends one `(name, type index)` pair in
/// encounter order. On an error the function is left unchanged.
pub fn modify(function: &mut Function, entry: &Entry) -> (r: Result<(), ExtractError>)
    ensures
        match r {
            Ok(()) => function_child(old(function)@, *entry) == Ok::<FunctionModel, ExtractError>(
                final(function)@,
            ),
            Err(e) => function_child(old(function)@, *entry) == Err::<FunctionModel, ExtractError>(
                e,
            ) && *final(function) == *old(function),
        },
{
    match entry.tag {
        Tag::FormalParameter => {
            let mut name: Option<String> = None;
            let mut type_index: Option<usize> = None;

            proof {
                assert(entry.attrs@.take(0) =~= Seq::<Attr>::empty());
            }
            for i in 0..entry.attrs.len()
                invariant
                    entry.tag == Tag::FormalParameter,
                    *function == *old(function),
                    scan_attrs(
                        param_step_fn(),
                        ParamState { name: None, type_index: None },
                        entry.attrs@.take(i as int),
                    ) == Ok::<ParamState, ExtractError>(
                        ParamState { name: name.deep_view(), type_index },
                    ),
            {
                proof {
                    lemma_scan_attrs_step(
                        param_step_fn(),
                        ParamState { name: None, type_index: None },
                        entry.attrs@,
                        i as int,
                    );
                }
                let a = &entry.attrs[i];
                match a.name {
                    AttrName::Name => match &a.value {
                        AttrValue::Text(s) => {
                            name = Some(s.clone());
                        },
                        _ => {
                            proof {
                                lemma_scan_attrs_err(
                                    param_step_fn(),
                                    ParamState { name: None, type_index: None },
                                    entry.attrs@,
                                    i as int + 1,
                                );
                            }
                            return Err(ExtractError::NameNotText);
                        },
                    },
                    AttrName::TypeRef => match &a.value {
                        AttrValue::EntryRef(n) => {
                            type_index = Some(*n);
                        },
                        _ => {
                            proof {
                                lemma_scan_attrs_err(
                                    param_step_fn(),
                                    ParamState { name: None, type_index: None },
                                    entry.attrs@,
                                    i as int + 1,
                                );
                            }
                            return Err(ExtractError::TypeRefNotRef);
                        },
                    },
                    _ => {},
                }
            }
            proof {
                assert(entry.attrs@.take(entry.attrs@.len() as int) =~= entry.attrs@);
            }

            let type_index = match type_index {
                Some(t) => t,
                None => {
                    return Err(ExtractError::MissingTypeRef);
                },
            };
            function.arguments.push((name, type_index));
            proof {
                assert(function.arguments.deep_view() =~= old(
                    function,
                ).arguments.deep_view().push((name.deep_view(), type_index)));
                assert(function@ == FunctionModel {
                    arguments: old(function)@.arguments.push((name.deep_view(), type_index)),
                    ..old(function)@
                });
            }
            Ok(())
        },
        _ => Ok(()),
    }
}

} // verus!
