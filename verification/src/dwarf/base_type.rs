//! Interpretation of a base-type entry: name, byte size and encoding, with
//! the two special-cased zero-sized type names.

use vstd::prelude::*;

use crate::entry::{
    lemma_scan_attrs_err, lemma_scan_attrs_step, scan_attrs, Attr, AttrName, AttrValue, Entry,
    ExtractError,
};
use crate::entry::{ENC_FLOAT, ENC_SIGNED, ENC_UNSIGNED, ENC_UNSIGNED_CHAR};
use crate::item::{BaseType, BaseTypeKind, BaseTypeModel};
use vstd::string::StringExecFns;

verus! {

/// The attributes a base-type scan collects.
pub struct BtState {
    pub name: Option<Seq<char>>,
    pub size: Option<u64>,
    pub kind: Option<BaseTypeKind>,
}

/// How one attribute changes a base-type scan: the last name, size and
/// encoding seen win; a non-text name or an unsupported encoding is an error;
/// a size of another shape resets the size to absent.
pub open spec fn bt_step(st: BtState, a: Attr) -> Result<BtState, ExtractError> {
    match a.name {
        AttrName::Name => match a.value {
            AttrValue::Text(s) => Ok(BtState { name: Some(s@), ..st }),
            _ => Err(ExtractError::NameNotText),
        },
        AttrName::ByteSize => match a.value {
            AttrValue::Unsigned(n) => Ok(BtState { size: Some(n), ..st }),
            _ => Ok(BtState { size: None, ..st }),
        },
        AttrName::Encoding => match a.value {
            AttrValue::Enumerator(e) => if e == ENC_FLOAT {
                Ok(BtState { kind: Some(BaseTypeKind::Float), ..st })
            } else if e == ENC_SIGNED {
                Ok(BtState { kind: Some(BaseTypeKind::SignedInt), ..st })
            } else if e == ENC_UNSIGNED {
                Ok(BtState { kind: Some(BaseTypeKind::UnsignedInt), ..st })
            } else if e == ENC_UNSIGNED_CHAR {
                Ok(BtState { kind: Some(BaseTypeKind::Char), ..st })
            } else {
                Err(ExtractError::InvalidEncoding)
            },
            _ => Err(ExtractError::InvalidEncoding),
        },
        _ => Ok(st),
    }
}

/// The empty base-type scan state.
pub open spec fn bt_init() -> BtState {
    BtState { name: None, size: None, kind: None }
}

/// The base-type step as a function value, so that every mention of the scan
/// names one and the same function.
pub open spec fn bt_step_fn() -> spec_fn(BtState, Attr) -> Result<BtState, ExtractError> {
    |st: BtState, a: Attr| bt_step(st, a)
}

/// What interpreting a base-type entry's attributes yields: the collected
/// name, size and kind, each required, with a type named `"!"` of size 0
/// always classified `Never` and one named `"()"` of size 0 always `Unit`,
/// whatever their declared encoding.
pub open spec fn base_type_of(attrs: Seq<Attr>, module: Seq<Seq<char>>) -> Result<
    BaseTypeModel,
    ExtractError,
> {
    match scan_attrs(bt_step_fn(), bt_init(), attrs) {
        Err(e) => Err(e),
        Ok(st) => match st.name {
            None => Err(ExtractError::MissingName),
            Some(name) => match st.size {
                None => Err(ExtractError::MissingByteSize),
                Some(size) => match st.kind {
                    None => Err(ExtractError::MissingEncoding),
                    Some(kind) => {
                        let kind = if name == "!"@ && size == 0 {
                            BaseTypeKind::Never
                        } else if name == "()"@ && size == 0 {
                            BaseTypeKind::Unit
                        } else {
                            kind
                        };
                        Ok(BaseTypeModel { name, module, size, kind })
                    },
                },
            },
        },
    }
}

/// Interprets a base-type entry in the scope `module`.
pub fn from_base_type(entry: &Entry, module: &Vec<String>) -> (r: Result<BaseType, ExtractError>)
    ensures
        match r {
            Ok(bt) => base_type_of(entry.attrs@, module.deep_view()) == Ok::<
                BaseTypeModel,
                ExtractError,
            >(bt@),
            Err(e) => base_type_of(entry.attrs@, module.deep_view()) == Err::<
                BaseTypeModel,
                ExtractError,
            >(e),
        },
{
    let mut name: Option<String> = None;
    let mut size: Option<u64> = None;
    let mut kind: Option<BaseTypeKind> = None;

    proof {
        assert(entry.attrs@.take(0) =~= Seq::<Attr>::empty());
    }
    for i in 0..entry.attrs.len()
        invariant
            scan_attrs(bt_step_fn(), bt_init(), entry.attrs@.take(i as int)) == Ok::<BtState, ExtractError>(
                BtState { name: name.deep_view(), size, kind },
            ),
    {
        proof {
            lemma_scan_attrs_step(bt_step_fn(), bt_init(), entry.attrs@, i as int);
        }
        let a = &entry.attrs[i];
        match a.name {
            AttrName::Name => match &a.value {
                AttrValue::Text(s) => {
                    name = Some(s.clone());
                },
                _ => {
                    proof {
                        lemma_scan_attrs_err(bt_step_fn(), bt_init(), entry.attrs@, i as int + 1);
                    }
                    return Err(ExtractError::NameNotText);
                },
            },
            AttrName::ByteSize => match &a.value {
                AttrValue::Unsigned(n) => {
                    size = Some(*n);
                },
                _ => {
                    size = None;
                },
            },
            AttrName::Encoding => match &a.value {
                AttrValue::Enumerator(e) => {
                    if *e == ENC_FLOAT {
                        kind = Some(BaseTypeKind::Float);
                    } else if *e == ENC_SIGNED {
                        kind = Some(BaseTypeKind::SignedInt);
                    } else if *e == ENC_UNSIGNED {
                        kind = Some(BaseTypeKind::UnsignedInt);
                    } else if *e == ENC_UNSIGNED_CHAR {
                        kind = Some(BaseTypeKind::Char);
                    } else {
                        proof {
                            lemma_scan_attrs_err(bt_step_fn(), bt_init(), entry.attrs@, i as int + 1);
                        }
                        return Err(ExtractError::InvalidEncoding);
                    }
                },
                _ => {
                    proof {
                        lemma_scan_attrs_err(bt_step_fn(), bt_init(), entry.attrs@, i as int + 1);
                    }
                    return Err(ExtractError::InvalidEncoding);
                },
            },
            _ => {},
        }
    }
    proof {
        assert(entry.attrs@.take(entry.attrs@.len() as int) =~= entry.attrs@);
    }

    let name = match name {
        Some(n) => n,
        None => {
            return Err(ExtractError::MissingName);
        },
    };
    let size = match size {
        Some(s) => s,
        None => {
            return Err(ExtractError::MissingByteSize);
        },
    };
    let mut kind = match kind {
        Some(k) => k,
        None => {
            return Err(ExtractError::MissingEncoding);
        },
    };
    if name == String::from_str("!") && size == 0 {
        kind = BaseTypeKind::Never;
    } else if name == String::from_str("()") && size == 0 {
        kind = BaseTypeKind::Unit;
    }
    Ok(BaseType { name, module: module.clone(), size, kind })
}

} // verus!

verus! {

/// A base type named `"!"` with size 0 always classifies as `Never`, and one
/// named `"()"` with size 0 always as `Unit`, whatever encoding the entry
/// declared.
pub proof fn lemma_zero_sized_overrides(attrs: Seq<Attr>, module: Seq<Seq<char>>, bt: BaseTypeModel)
    requires
        base_type_of(attrs, module) == Ok::<BaseTypeModel, ExtractError>(bt),
    ensures
        bt.name == "!"@ && bt.size == 0 ==> bt.kind == BaseTypeKind::Never,
        bt.name == "()"@ && bt.size == 0 ==> bt.kind == BaseTypeKind::Unit,
{
    reveal_strlit("!");
    reveal_strlit("()");
    assert("!"@.len() == 1);
    assert("()"@.len() == 2);
}

} // verus!
