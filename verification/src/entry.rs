//! The library's model of a debug-information tree: entries with a tag, a
//! flat attribute list, and child entries.
//!
//! A caller that owns a parsed debug-info section converts its reader's
//! entries into this shape; everything the extraction logic reads is held
//! here as a plain value.

use vstd::prelude::*;

verus! {

/// The kind discriminator of a debug-info entry. Kinds outside the closed
/// set the extractor understands fall into [`Tag::Other`].
#[derive(Debug, Clone, Copy, PartialEq, Eq, Structural)]
pub enum Tag {
    /// The root entry of a compilation unit.
    CompileUnit,
    /// A namespace scope.
    Namespace,
    /// A function or method (a subprogram).
    Subprogram,
    /// A formal parameter of a subprogram.
    FormalParameter,
    /// A built-in type.
    BaseType,
    /// A pointer type.
    PointerType,
    /// A structure type.
    StructureType,
    /// A data member of a structure.
    Member,
    /// Any entry kind the extractor does not interpret.
    Other,
}

/// The name of an attribute on a debug-info entry. Names outside the set the
/// extractor reads fall into [`AttrName::Other`].
#[derive(Debug, Clone, Copy, PartialEq, Eq, Structural)]
pub enum AttrName {
    /// The declared name of the entry.
    Name,
    /// The raw exported symbol name of a subprogram.
    LinkageName,
    /// The external-linkage flag of a subprogram.
    External,
    /// A reference to the entry describing this entry's type.
    TypeRef,
    /// The byte size of a type.
    ByteSize,
    /// The alignment of a type or member, in bytes.
    Alignment,
    /// The encoding of a base type, as a standard enumerator.
    Encoding,
    /// The byte offset of a member within its structure.
    MemberLocation,
    /// The source language of a compilation unit, as a standard enumerator.
    Language,
    /// Any attribute the extractor does not read.
    Other,
}

/// The value of an attribute, already resolved to a plain value.
#[derive(Debug, Clone, PartialEq)]
pub enum AttrValue {
    /// A resolved text value.
    Text(String),
    /// An unsigned integer value.
    Unsigned(u64),
    /// A boolean flag.
    Flag(bool),
    /// A reference to another entry of the same unit, by its origin offset.
    EntryRef(usize),
    /// An encoded enumerator (a base-type encoding or a language code).
    Enumerator(u64),
    /// A value of a shape the extractor cannot read.
    Other,
}

/// A named attribute on a debug-info entry.
#[derive(Debug, Clone, PartialEq)]
pub struct Attr {
    pub name: AttrName,
    pub value: AttrValue,
}

/// One node of a debug-info tree.
#[derive(Debug, PartialEq)]
pub struct Entry {
    /// The entry's position within the debug-info tree of its unit; unique
    /// within the unit, and the stable identity other items refer to.
    pub offset: usize,
    /// The kind of program construct this entry describes.
    pub tag: Tag,
    /// The entry's attributes, in the order they were encountered.
    pub attrs: Vec<Attr>,
    /// The entry's children, in the order they were encountered.
    pub children: Vec<Entry>,
}

/// Why an entry could not be interpreted: a required attribute was absent,
/// or an attribute's value had an unexpected shape.
///
/// Such an error is always confined to the entry it names: the nearest
/// enclosing child-iteration loop catches it and goes on with the next
/// sibling.
#[derive(Debug, Clone, Copy, PartialEq, Eq, Structural)]
pub enum ExtractError {
    /// A required name attribute was absent.
    MissingName,
    /// A name attribute's value was not text.
    NameNotText,
    /// A subprogram had external linkage but no linkage-name attribute;
    /// the field is the entry's origin offset.
    MissingLinkageName { offset: usize },
    /// A required byte-size attribute was absent or not an unsigned integer.
    MissingByteSize,
    /// A base type had no encoding attribute.
    MissingEncoding,
    /// A base type's encoding attribute held an enumerator outside the
    /// supported set, or a value of another shape.
    InvalidEncoding,
    /// A required type-reference attribute was absent.
    MissingTypeRef,
    /// A type-reference attribute's value was not an entry reference.
    TypeRefNotRef,
    /// A required alignment attribute was absent or not an unsigned integer.
    MissingAlignment,
    /// A structure member had no byte-offset attribute, or one that was not
    /// an unsigned integer.
    MissingMemberLocation,
}

/// The standard encoding enumerator for a floating-point base type.
pub const ENC_FLOAT: u64 = 4;

/// The standard encoding enumerator for a signed integer base type.
pub const ENC_SIGNED: u64 = 5;

/// The standard encoding enumerator for an unsigned integer base type.
pub const ENC_UNSIGNED: u64 = 7;

/// The standard encoding enumerator for an unsigned character base type.
pub const ENC_UNSIGNED_CHAR: u64 = 8;

/// The standard language enumerator for a compilation unit produced from
/// Rust sources: the one language the extractor accepts.
pub const LANG_RUST: u64 = 28;

/// Folds a step function over an attribute list in encounter order, stopping
/// at the first attribute the step rejects: the shape every interpreter's
/// attribute scan takes.
pub open spec fn scan_attrs<S>(
    f: spec_fn(S, Attr) -> Result<S, ExtractError>,
    init: S,
    attrs: Seq<Attr>,
) -> Result<S, ExtractError>
    decreases attrs.len(),
{
    if attrs.len() == 0 {
        Ok(init)
    } else {
        match scan_attrs(f, init, attrs.drop_last()) {
            Ok(st) => f(st, attrs.last()),
            Err(e) => Err(e),
        }
    }
}

/// One step of `scan_attrs`: scanning one attribute further applies the step
/// function once to the scan of the prefix.
pub proof fn lemma_scan_attrs_step<S>(
    f: spec_fn(S, Attr) -> Result<S, ExtractError>,
    init: S,
    attrs: Seq<Attr>,
    i: int,
)
    requires
        0 <= i < attrs.len(),
    ensures
        scan_attrs(f, init, attrs.take(i + 1)) == (match scan_attrs(f, init, attrs.take(i)) {
            Ok(st) => f(st, attrs[i]),
            Err(e) => Err(e),
        }),
{
    assert(attrs.take(i + 1).drop_last() =~= attrs.take(i));
    assert(attrs.take(i + 1).last() == attrs[i]);
}

/// Once a prefix of the attribute list fails to scan, the whole list fails
/// with the same error.
pub proof fn lemma_scan_attrs_err<S>(
    f: spec_fn(S, Attr) -> Result<S, ExtractError>,
    init: S,
    attrs: Seq<Attr>,
    i: int,
)
    requires
        0 <= i <= attrs.len(),
        scan_attrs(f, init, attrs.take(i)) is Err,
    ensures
        scan_attrs(f, init, attrs) == scan_attrs(f, init, attrs.take(i)),
    decreases attrs.len() - i,
{
    if i < attrs.len() {
        lemma_scan_attrs_step(f, init, attrs, i);
        lemma_scan_attrs_err(f, init, attrs, i + 1);
    } else {
        assert(attrs.take(i) =~= attrs);
    }
}

/// The value of the first attribute named `name`, if any: the lookup the
/// walker uses for a compilation unit's language and a namespace's name.
pub open spec fn first_attr(attrs: Seq<Attr>, name: AttrName) -> Option<AttrValue>
    decreases attrs.len(),
{
    if attrs.len() == 0 {
        None
    } else if attrs[0].name == name {
        Some(attrs[0].value)
    } else {
        first_attr(attrs.drop_first(), name)
    }
}

/// Finds the value of the first attribute named `name`.
pub fn find_attr<'a>(attrs: &'a Vec<Attr>, name: AttrName) -> (r: Option<&'a AttrValue>)
    ensures
        match r {
            Some(v) => first_attr(attrs@, name) == Some(*v),
            None => first_attr(attrs@, name) is None,
        },
{
    proof {
        assert(attrs@.skip(0) =~= attrs@);
    }
    for i in 0..attrs.len()
        invariant
            first_attr(attrs@, name) == first_attr(attrs@.skip(i as int), name),
    {
        proof {
            assert(attrs@.skip(i as int)[0] == attrs@[i as int]);
            assert(attrs@.skip(i as int).drop_first() =~= attrs@.skip(i as int + 1));
        }
        if attrs[i].name == name {
            return Some(&attrs[i].value);
        }
    }
    proof {
        assert(attrs@.skip(attrs@.len() as int) =~= Seq::<Attr>::empty());
    }
    None
}

} // verus!
