//! The output schema: the tagged union of items a binding generator cares
//! about, together with the spec-level models the contracts speak of.

use vstd::prelude::*;

verus! {

/// An item the foreign-function interface cares about.
#[derive(Debug, Clone, PartialEq)]
pub enum Item {
    /// A method or function.
    Function(Function),
    /// A built-in type.
    BaseType(BaseType),
    /// A pointer type.
    PointerType(PointerType),
    /// A structure.
    Structure(Structure),
}

/// A method or function.
#[derive(Debug, Clone, PartialEq)]
pub struct Function {
    /// The fully qualified name of the function.
    pub full_name: String,
    /// The name of the function, as it appears in the binary's symbol table.
    pub linkage_name: String,
    /// The name of the function, as written in its declaration, if present.
    pub name: Option<String>,
    /// The module in which the function appeared, outermost name first.
    pub module: Vec<String>,
    /// The index of the return type. If `None`, the function returns no value.
    pub ret_type_index: Option<usize>,
    /// The arguments to the function, as pairs of `(name, type index)`,
    /// in declaration order.
    pub arguments: Vec<(Option<String>, usize)>,
}

/// A built-in type.
#[derive(Debug, Clone, PartialEq)]
pub struct BaseType {
    /// The name of the type.
    pub name: String,
    /// The module in which the type appeared, outermost name first.
    pub module: Vec<String>,
    /// The size of the type, in bytes.
    pub size: u64,
    /// The kind of type this is.
    pub kind: BaseTypeKind,
}

/// The kind of type a `BaseType` is.
#[derive(Debug, Clone, Copy, PartialEq, Eq, Structural)]
pub enum BaseTypeKind {
    UnsignedInt,
    SignedInt,
    Float,
    Bool,
    Char,
    Never,
    Unit,
}

/// A pointer type.
#[derive(Debug, Clone, PartialEq)]
pub struct PointerType {
    /// The name of the type.
    pub name: String,
    /// The module in which the type appeared, outermost name first.
    pub module: Vec<String>,
    /// The index of the type being pointed to.
    pub type_index: usize,
}

/// A structure.
#[derive(Debug, Clone, PartialEq)]
pub struct Structure {
    /// The name of the type.
    pub name: String,
    /// The module in which the type appeared, outermost name first.
    pub module: Vec<String>,
    /// The size of the type, in bytes.
    pub size: u64,
    /// The alignment of the type, in bytes.
    pub alignment: u64,
    /// The direct data members of the struct, in declaration order.
    pub members: Vec<StructureMember>,
}

/// A structure member.
#[derive(Debug, Clone, PartialEq)]
pub struct StructureMember {
    /// The name of the member.
    pub name: String,
    /// The index of the member's type.
    pub type_index: usize,
    /// The offset of the member within the struct, in bytes.
    pub offset: u64,
    /// The alignment of the member, in bytes.
    pub alignment: u64,
}

/// Mathematical model of a [`Function`]: every text field as a sequence of
/// characters, every list as a sequence.
pub struct FunctionModel {
    pub full_name: Seq<char>,
    pub linkage_name: Seq<char>,
    pub name: Option<Seq<char>>,
    pub module: Seq<Seq<char>>,
    pub ret_type_index: Option<usize>,
    pub arguments: Seq<(Option<Seq<char>>, usize)>,
}

/// Mathematical model of a [`BaseType`].
pub struct BaseTypeModel {
    pub name: Seq<char>,
    pub module: Seq<Seq<char>>,
    pub size: u64,
    pub kind: BaseTypeKind,
}

/// Mathematical model of a [`PointerType`].
pub struct PointerTypeModel {
    pub name: Seq<char>,
    pub module: Seq<Seq<char>>,
    pub type_index: usize,
}

/// Mathematical model of a [`StructureMember`].
pub struct MemberModel {
    pub name: Seq<char>,
    pub type_index: usize,
    pub offset: u64,
    pub alignment: u64,
}

/// Mathematical model of a [`Structure`].
pub struct StructureModel {
    pub name: Seq<char>,
    pub module: Seq<Seq<char>>,
    pub size: u64,
    pub alignment: u64,
    pub members: Seq<MemberModel>,
}

/// Mathematical model of an [`Item`].
pub enum ItemModel {
    Function(FunctionModel),
    BaseType(BaseTypeModel),
    PointerType(PointerTypeModel),
    Structure(StructureModel),
}

impl View for Function {
    type V = FunctionModel;

    open spec fn view(&self) -> FunctionModel {
        FunctionModel {
            full_name: self.full_name@,
            linkage_name: self.linkage_name@,
            name: self.name.deep_view(),
            module: self.module.deep_view(),
            ret_type_index: self.ret_type_index,
            arguments: self.arguments.deep_view(),
        }
    }
}

impl View for BaseType {
    type V = BaseTypeModel;

    open spec fn view(&self) -> BaseTypeModel {
        BaseTypeModel {
            name: self.name@,
            module: self.module.deep_view(),
            size: self.size,
            kind: self.kind,
        }
    }
}

impl View for PointerType {
    type V = PointerTypeModel;

    open spec fn view(&self) -> PointerTypeModel {
        PointerTypeModel {
            name: self.name@,
            module: self.module.deep_view(),
            type_index: self.type_index,
        }
    }
}

impl View for StructureMember {
    type V = MemberModel;

    open spec fn view(&self) -> MemberModel {
        MemberModel {
            name: self.name@,
            type_index: self.type_index,
            offset: self.offset,
            alignment: self.alignment,
        }
    }
}

impl View for Structure {
    type V = StructureModel;

    open spec fn view(&self) -> StructureModel {
        StructureModel {
            name: self.name@,
            module: self.module.deep_view(),
            size: self.size,
            alignment: self.alignment,
            members: Seq::new(self.members@.len(), |i: int| self.members@[i]@),
        }
    }
}

/// The model of an extracted item list: each `(origin offset, item)` pair
/// with the item replaced by its model.
pub open spec fn items_model(s: Seq<(usize, Item)>) -> Seq<(usize, ItemModel)> {
    Seq::new(s.len(), |i: int| (s[i].0, s[i].1@))
}

impl View for Item {
    type V = ItemModel;

    open spec fn view(&self) -> ItemModel {
        match self {
            Item::Function(f) => ItemModel::Function(f@),
            Item::BaseType(b) => ItemModel::BaseType(b@),
            Item::PointerType(p) => ItemModel::PointerType(p@),
            Item::Structure(s) => ItemModel::Structure(s@),
        }
    }
}

} // verus!
