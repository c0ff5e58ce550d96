//! The serialized form of the item list: a JSON document model, an encoder
//! to the canonical tagged-object shape, a decoder of that shape, and the
//! proof that decoding an encoded list reproduces every variant tag and
//! field value.

use vstd::prelude::*;

use crate::item::{
    BaseTypeKind, BaseTypeModel, FunctionModel, Item, ItemModel, MemberModel, PointerTypeModel,
    StructureModel,
};

verus! {

/// A JSON document: the library's own model of what it hands the downstream
/// generator.
#[derive(Debug, PartialEq)]
pub enum Json {
    Null,
    Bool(bool),
    UInt(u64),
    Str(String),
    Arr(Vec<Json>),
    Obj(Vec<(String, Json)>),
}

/// Mathematical model of a [`Json`] document.
pub enum JsonModel {
    Null,
    Bool(bool),
    UInt(u64),
    Str(Seq<char>),
    Arr(Seq<JsonModel>),
    Obj(Seq<(Seq<char>, JsonModel)>),
}

/// The model of a JSON value.
pub open spec fn json_view(j: Json) -> JsonModel
    decreases j, 0int,
{
    match j {
        Json::Null => JsonModel::Null,
        Json::Bool(b) => JsonModel::Bool(b),
        Json::UInt(n) => JsonModel::UInt(n),
        Json::Str(s) => JsonModel::Str(s@),
        Json::Arr(v) => JsonModel::Arr(json_views(v@)),
        Json::Obj(v) => JsonModel::Obj(json_kvs(v@)),
    }
}

/// The models of a sequence of JSON values.
pub open spec fn json_views(s: Seq<Json>) -> Seq<JsonModel>
    decreases s, 0int,
{
    if s.len() == 0 {
        Seq::empty()
    } else {
        seq![json_view(s[0])] + json_views(s.drop_first())
    }
}

/// The models of a sequence of JSON key-value pairs.
pub open spec fn json_kvs(s: Seq<(String, Json)>) -> Seq<(Seq<char>, JsonModel)>
    decreases s, 0int,
{
    if s.len() == 0 {
        Seq::empty()
    } else {
        seq![(s[0].0@, json_view(s[0].1))] + json_kvs(s.drop_first())
    }
}

impl View for Json {
    type V = JsonModel;

    open spec fn view(&self) -> JsonModel {
        json_view(*self)
    }
}

/// An optional text value: `null` when absent.
pub open spec fn opt_str_json(o: Option<Seq<char>>) -> JsonModel {
    match o {
        Some(s) => JsonModel::Str(s),
        None => JsonModel::Null,
    }
}

/// An optional type index: `null` when absent.
pub open spec fn opt_idx_json(o: Option<usize>) -> JsonModel {
    match o {
        Some(n) => JsonModel::UInt(n as u64),
        None => JsonModel::Null,
    }
}

/// The name of a base-type kind, as the serialized form spells it.
pub open spec fn kind_json(k: BaseTypeKind) -> JsonModel {
    match k {
        BaseTypeKind::UnsignedInt => JsonModel::Str("UnsignedInt"@),
        BaseTypeKind::SignedInt => JsonModel::Str("SignedInt"@),
        BaseTypeKind::Float => JsonModel::Str("Float"@),
        BaseTypeKind::Bool => JsonModel::Str("Bool"@),
        BaseTypeKind::Char => JsonModel::Str("Char"@),
        BaseTypeKind::Never => JsonModel::Str("Never"@),
        BaseTypeKind::Unit => JsonModel::Str("Unit"@),
    }
}

/// A module path as a JSON array of strings.
pub open spec fn module_json(m: Seq<Seq<char>>) -> Seq<JsonModel> {
    m.map_values(|s: Seq<char>| JsonModel::Str(s))
}

/// An argument pair as a two-element JSON array.
pub open spec fn arg_json(p: (Option<Seq<char>>, usize)) -> JsonModel {
    JsonModel::Arr(seq![opt_str_json(p.0), JsonModel::UInt(p.1 as u64)])
}

/// The argument list as a JSON array.
pub open spec fn args_json(a: Seq<(Option<Seq<char>>, usize)>) -> Seq<JsonModel> {
    a.map_values(|p: (Option<Seq<char>>, usize)| arg_json(p))
}

/// One structure member as a JSON object.
pub open spec fn member_json(m: MemberModel) -> JsonModel {
    JsonModel::Obj(
        seq![
            ("name"@, JsonModel::Str(m.name)),
            ("type_index"@, JsonModel::UInt(m.type_index as u64)),
            ("offset"@, JsonModel::UInt(m.offset)),
            ("alignment"@, JsonModel::UInt(m.alignment)),
        ],
    )
}

/// The member list as a JSON array.
pub open spec fn members_json(ms: Seq<MemberModel>) -> Seq<JsonModel> {
    ms.map_values(|m: MemberModel| member_json(m))
}

/// One item as a tagged JSON object: a discriminator field naming the
/// variant, then the variant's fields in declaration order.
pub open spec fn item_json(m: ItemModel) -> JsonModel {
    match m {
        ItemModel::Function(f) => JsonModel::Obj(
            seq![
                ("type"@, JsonModel::Str("Function"@)),
                ("full_name"@, JsonModel::Str(f.full_name)),
                ("linkage_name"@, JsonModel::Str(f.linkage_name)),
                ("name"@, opt_str_json(f.name)),
                ("module"@, JsonModel::Arr(module_json(f.module))),
                ("ret_type_index"@, opt_idx_json(f.ret_type_index)),
                ("arguments"@, JsonModel::Arr(args_json(f.arguments))),
            ],
        ),
        ItemModel::BaseType(b) => JsonModel::Obj(
            seq![
                ("type"@, JsonModel::Str("BaseType"@)),
                ("name"@, JsonModel::Str(b.name)),
                ("module"@, JsonModel::Arr(module_json(b.module))),
                ("size"@, JsonModel::UInt(b.size)),
                ("kind"@, kind_json(b.kind)),
            ],
        ),
        ItemModel::PointerType(p) => JsonModel::Obj(
            seq![
                ("type"@, JsonModel::Str("PointerType"@)),
                ("name"@, JsonModel::Str(p.name)),
                ("module"@, JsonModel::Arr(module_json(p.module))),
                ("type_index"@, JsonModel::UInt(p.type_index as u64)),
            ],
        ),
        ItemModel::Structure(s) => JsonModel::Obj(
            seq![
                ("type"@, JsonModel::Str("Structure"@)),
                ("name"@, JsonModel::Str(s.name)),
                ("module"@, JsonModel::Arr(module_json(s.module))),
                ("size"@, JsonModel::UInt(s.size)),
                ("alignment"@, JsonModel::UInt(s.alignment)),
                ("members"@, JsonModel::Arr(members_json(s.members))),
            ],
        ),
    }
}

/// The whole item list as a JSON array of `[offset, item]` pairs.
pub open spec fn item_list_json(s: Seq<(usize, ItemModel)>) -> JsonModel {
    JsonModel::Arr(
        s.map_values(
            |p: (usize, ItemModel)|
                JsonModel::Arr(seq![JsonModel::UInt(p.0 as u64), item_json(p.1)]),
        ),
    )
}

} // verus!

verus! {

/// Reads an optional text value: `null` or a string.
pub open spec fn opt_str_from(j: JsonModel) -> Option<Option<Seq<char>>> {
    match j {
        JsonModel::Null => Some(None),
        JsonModel::Str(s) => Some(Some(s)),
        _ => None,
    }
}

/// Reads an optional type index: `null` or an unsigned integer that fits.
pub open spec fn opt_idx_from(j: JsonModel) -> Option<Option<usize>> {
    match j {
        JsonModel::Null => Some(None),
        JsonModel::UInt(n) => if n <= usize::MAX as u64 {
            Some(Some(n as usize))
        } else {
            None
        },
        _ => None,
    }
}

/// Reads a required type index: an unsigned integer that fits.
pub open spec fn idx_from(j: JsonModel) -> Option<usize> {
    match j {
        JsonModel::UInt(n) => if n <= usize::MAX as u64 {
            Some(n as usize)
        } else {
            None
        },
        _ => None,
    }
}

/// Reads a base-type kind from its serialized name.
pub open spec fn kind_from(j: JsonModel) -> Option<BaseTypeKind> {
    match j {
        JsonModel::Str(s) => if s == "UnsignedInt"@ {
            Some(BaseTypeKind::UnsignedInt)
        } else if s == "SignedInt"@ {
            Some(BaseTypeKind::SignedInt)
        } else if s == "Float"@ {
            Some(BaseTypeKind::Float)
        } else if s == "Bool"@ {
            Some(BaseTypeKind::Bool)
        } else if s == "Char"@ {
            Some(BaseTypeKind::Char)
        } else if s == "Never"@ {
            Some(BaseTypeKind::Never)
        } else if s == "Unit"@ {
            Some(BaseTypeKind::Unit)
        } else {
            None
        },
        _ => None,
    }
}

/// Reads a module path: an array of strings.
pub open spec fn module_from(s: Seq<JsonModel>) -> Option<Seq<Seq<char>>>
    decreases s.len(),
{
    if s.len() == 0 {
        Some(Seq::empty())
    } else {
        match s[0] {
            JsonModel::Str(t) => match module_from(s.drop_first()) {
                Some(r) => Some(seq![t] + r),
                None => None,
            },
            _ => None,
        }
    }
}

/// Reads one argument pair: a two-element array of an optional name and a
/// type index.
pub open spec fn arg_from(j: JsonModel) -> Option<(Option<Seq<char>>, usize)> {
    match j {
        JsonModel::Arr(v) => if v.len() == 2 {
            match opt_str_from(v[0]) {
                Some(name) => match idx_from(v[1]) {
                    Some(t) => Some((name, t)),
                    None => None,
                },
                None => None,
            }
        } else {
            None
        },
        _ => None,
    }
}

/// Reads an argument list.
pub open spec fn args_from(s: Seq<JsonModel>) -> Option<Seq<(Option<Seq<char>>, usize)>>
    decreases s.len(),
{
    if s.len() == 0 {
        Some(Seq::empty())
    } else {
        match arg_from(s[0]) {
            Some(p) => match args_from(s.drop_first()) {
                Some(r) => Some(seq![p] + r),
                None => None,
            },
            None => None,
        }
    }
}

/// Reads one structure member from its canonical object shape.
pub open spec fn member_from(j: JsonModel) -> Option<MemberModel> {
    match j {
        JsonModel::Obj(kvs) => if kvs.len() == 4 && kvs[0].0 == "name"@ && kvs[1].0
            == "type_index"@ && kvs[2].0 == "offset"@ && kvs[3].0 == "alignment"@ {
            match (kvs[0].1, kvs[1].1, kvs[2].1, kvs[3].1) {
                (JsonModel::Str(name), ti, JsonModel::UInt(offset), JsonModel::UInt(alignment)) => match idx_from(
                    ti,
                ) {
                    Some(type_index) => Some(MemberModel { name, type_index, offset, alignment }),
                    None => None,
                },
                _ => None,
            }
        } else {
            None
        },
        _ => None,
    }
}

/// Reads a member list.
pub open spec fn members_from(s: Seq<JsonModel>) -> Option<Seq<MemberModel>>
    decreases s.len(),
{
    if s.len() == 0 {
        Some(Seq::empty())
    } else {
        match member_from(s[0]) {
            Some(m) => match members_from(s.drop_first()) {
                Some(r) => Some(seq![m] + r),
                None => None,
            },
            None => None,
        }
    }
}

/// Reads one item from its canonical tagged-object shape: the discriminator
/// field first, then the variant's fields in declaration order.
pub open spec fn item_from_model(j: JsonModel) -> Option<ItemModel> {
    match j {
        JsonModel::Obj(kvs) => if kvs.len() >= 1 && kvs[0].0 == "type"@ {
            match kvs[0].1 {
                JsonModel::Str(tag) => if tag == "Function"@ {
                    function_from(kvs)
                } else if tag == "BaseType"@ {
                    base_type_from(kvs)
                } else if tag == "PointerType"@ {
                    pointer_type_from(kvs)
                } else if tag == "Structure"@ {
                    structure_from(kvs)
                } else {
                    None
                },
                _ => None,
            }
        } else {
            None
        },
        _ => None,
    }
}

/// Reads a `Function` item's fields.
pub open spec fn function_from(kvs: Seq<(Seq<char>, JsonModel)>) -> Option<ItemModel> {
    if kvs.len() == 7 && kvs[1].0 == "full_name"@ && kvs[2].0 == "linkage_name"@ && kvs[3].0
        == "name"@ && kvs[4].0 == "module"@ && kvs[5].0 == "ret_type_index"@ && kvs[6].0
        == "arguments"@ {
        match (kvs[1].1, kvs[2].1, kvs[4].1, kvs[6].1) {
            (
                JsonModel::Str(full_name),
                JsonModel::Str(linkage_name),
                JsonModel::Arr(mj),
                JsonModel::Arr(aj),
            ) => match (opt_str_from(kvs[3].1), module_from(mj), opt_idx_from(kvs[5].1), args_from(
                aj,
            )) {
                (Some(name), Some(module), Some(ret_type_index), Some(arguments)) => Some(
                    ItemModel::Function(
                        FunctionModel {
                            full_name,
                            linkage_name,
                            name,
                            module,
                            ret_type_index,
                            arguments,
                        },
                    ),
                ),
                _ => None,
            },
            _ => None,
        }
    } else {
        None
    }
}

/// Reads a `BaseType` item's fields.
pub open spec fn base_type_from(kvs: Seq<(Seq<char>, JsonModel)>) -> Option<ItemModel> {
    if kvs.len() == 5 && kvs[1].0 == "name"@ && kvs[2].0 == "module"@ && kvs[3].0 == "size"@
        && kvs[4].0 == "kind"@ {
        match (kvs[1].1, kvs[2].1, kvs[3].1) {
            (JsonModel::Str(name), JsonModel::Arr(mj), JsonModel::UInt(size)) => match (module_from(
                mj,
            ), kind_from(kvs[4].1)) {
                (Some(module), Some(kind)) => Some(
                    ItemModel::BaseType(BaseTypeModel { name, module, size, kind }),
                ),
                _ => None,
            },
            _ => None,
        }
    } else {
        None
    }
}

/// Reads a `PointerType` item's fields.
pub open spec fn pointer_type_from(kvs: Seq<(Seq<char>, JsonModel)>) -> Option<ItemModel> {
    if kvs.len() == 4 && kvs[1].0 == "name"@ && kvs[2].0 == "module"@ && kvs[3].0 == "type_index"@ {
        match (kvs[1].1, kvs[2].1) {
            (JsonModel::Str(name), JsonModel::Arr(mj)) => match (module_from(mj), idx_from(
                kvs[3].1,
            )) {
                (Some(module), Some(type_index)) => Some(
                    ItemModel::PointerType(PointerTypeModel { name, module, type_index }),
                ),
                _ => None,
            },
            _ => None,
        }
    } else {
        None
    }
}

/// Reads a `Structure` item's fields.
pub open spec fn structure_from(kvs: Seq<(Seq<char>, JsonModel)>) -> Option<ItemModel> {
    if kvs.len() == 6 && kvs[1].0 == "name"@ && kvs[2].0 == "module"@ && kvs[3].0 == "size"@
        && kvs[4].0 == "alignment"@ && kvs[5].0 == "members"@ {
        match (kvs[1].1, kvs[2].1, kvs[3].1, kvs[4].1, kvs[5].1) {
            (
                JsonModel::Str(name),
                JsonModel::Arr(mj),
                JsonModel::UInt(size),
                JsonModel::UInt(alignment),
                JsonModel::Arr(msj),
            ) => match (module_from(mj), members_from(msj)) {
                (Some(module), Some(members)) => Some(
                    ItemModel::Structure(
                        StructureModel { name, module, size, alignment, members },
                    ),
                ),
                _ => None,
            },
            _ => None,
        }
    } else {
        None
    }
}

/// Reads one `[offset, item]` pair.
pub open spec fn pair_from(j: JsonModel) -> Option<(usize, ItemModel)> {
    match j {
        JsonModel::Arr(v) => if v.len() == 2 {
            match (idx_from(v[0]), item_from_model(v[1])) {
                (Some(off), Some(it)) => Some((off, it)),
                _ => None,
            }
        } else {
            None
        },
        _ => None,
    }
}

/// Reads a pair list.
pub open spec fn pairs_from(s: Seq<JsonModel>) -> Option<Seq<(usize, ItemModel)>>
    decreases s.len(),
{
    if s.len() == 0 {
        Some(Seq::empty())
    } else {
        match pair_from(s[0]) {
            Some(p) => match pairs_from(s.drop_first()) {
                Some(r) => Some(seq![p] + r),
                None => None,
            },
            None => None,
        }
    }
}

/// Reads the whole item list: an array of `[offset, item]` pairs.
pub open spec fn item_list_from(j: JsonModel) -> Option<Seq<(usize, ItemModel)>> {
    match j {
        JsonModel::Arr(v) => pairs_from(v),
        _ => None,
    }
}

} // verus!

verus! {

/// Decoding an encoded module path gives the path back.
pub proof fn lemma_module_round(m: Seq<Seq<char>>)
    ensures
        module_from(module_json(m)) == Some(m),
    decreases m.len(),
{
    if m.len() == 0 {
        assert(module_json(m) =~= Seq::<JsonModel>::empty());
        assert(module_from(module_json(m)) == Some(Seq::<Seq<char>>::empty()));
        assert(Seq::<Seq<char>>::empty() =~= m);
    } else {
        assert(module_json(m)[0] == JsonModel::Str(m[0]));
        assert(module_json(m).drop_first() =~= module_json(m.drop_first()));
        lemma_module_round(m.drop_first());
        assert(seq![m[0]] + m.drop_first() =~= m);
    }
}

/// Decoding an encoded argument list gives the list back.
pub proof fn lemma_args_round(a: Seq<(Option<Seq<char>>, usize)>)
    ensures
        args_from(args_json(a)) == Some(a),
    decreases a.len(),
{
    if a.len() == 0 {
        assert(args_json(a) =~= Seq::<JsonModel>::empty());
        assert(Seq::<(Option<Seq<char>>, usize)>::empty() =~= a);
    } else {
        assert(args_json(a)[0] == arg_json(a[0]));
        assert(arg_from(arg_json(a[0])) == Some(a[0]));
        assert(args_json(a).drop_first() =~= args_json(a.drop_first()));
        lemma_args_round(a.drop_first());
        assert(seq![a[0]] + a.drop_first() =~= a);
    }
}

/// Decoding an encoded member list gives the list back.
pub proof fn lemma_members_round(ms: Seq<MemberModel>)
    ensures
        members_from(members_json(ms)) == Some(ms),
    decreases ms.len(),
{
    if ms.len() == 0 {
        assert(members_json(ms) =~= Seq::<JsonModel>::empty());
        assert(Seq::<MemberModel>::empty() =~= ms);
    } else {
        assert(members_json(ms)[0] == member_json(ms[0]));
        assert(member_from(member_json(ms[0])) == Some(ms[0]));
        assert(members_json(ms).drop_first() =~= members_json(ms.drop_first()));
        lemma_members_round(ms.drop_first());
        assert(seq![ms[0]] + ms.drop_first() =~= ms);
    }
}

/// Decoding an encoded kind name gives the kind back.
pub proof fn lemma_kind_round(k: BaseTypeKind)
    ensures
        kind_from(kind_json(k)) == Some(k),
{
    reveal_strlit("UnsignedInt");
    reveal_strlit("SignedInt");
    reveal_strlit("Float");
    reveal_strlit("Bool");
    reveal_strlit("Char");
    reveal_strlit("Never");
    reveal_strlit("Unit");
    assert("UnsignedInt"@.len() == 11);
    assert("SignedInt"@.len() == 9);
    assert("Float"@.len() == 5);
    assert("Bool"@.len() == 4);
    assert("Char"@.len() == 4);
    assert("Never"@.len() == 5);
    assert("Unit"@.len() == 4);
    assert("Bool"@[0] == 'B' && "Char"@[0] == 'C' && "Unit"@[0] == 'U');
    assert("Float"@[0] == 'F' && "Never"@[0] == 'N');
}

/// Decoding an encoded item reproduces its variant tag and every field
/// value.
pub proof fn lemma_item_round(m: ItemModel)
    ensures
        item_from_model(item_json(m)) == Some(m),
{
    reveal_strlit("Function");
    reveal_strlit("BaseType");
    reveal_strlit("PointerType");
    reveal_strlit("Structure");
    assert("Function"@.len() == 8);
    assert("BaseType"@.len() == 8);
    assert("PointerType"@.len() == 11);
    assert("Structure"@.len() == 9);
    assert("Function"@[0] == 'F' && "BaseType"@[0] == 'B');
    match m {
        ItemModel::Function(f) => {
            lemma_module_round(f.module);
            lemma_args_round(f.arguments);
        },
        ItemModel::BaseType(b) => {
            lemma_module_round(b.module);
            lemma_kind_round(b.kind);
        },
        ItemModel::PointerType(p) => {
            lemma_module_round(p.module);
        },
        ItemModel::Structure(s) => {
            lemma_module_round(s.module);
            lemma_members_round(s.members);
        },
    }
}

/// The round-trip law: serializing an item list and deserializing it back
/// reproduces the list, with identical variant tags and field values.
pub proof fn lemma_item_list_round(s: Seq<(usize, ItemModel)>)
    ensures
        item_list_from(item_list_json(s)) == Some(s),
    decreases s.len(),
{
    let enc = |p: (usize, ItemModel)|
        JsonModel::Arr(seq![JsonModel::UInt(p.0 as u64), item_json(p.1)]);
    if s.len() == 0 {
        assert(s.map_values(enc) =~= Seq::<JsonModel>::empty());
        assert(Seq::<(usize, ItemModel)>::empty() =~= s);
    } else {
        assert(s.map_values(enc)[0] == enc(s[0]));
        lemma_item_round(s[0].1);
        assert(pair_from(enc(s[0])) == Some(s[0]));
        assert(s.map_values(enc).drop_first() =~= s.drop_first().map_values(enc));
        lemma_item_list_round(s.drop_first());
        assert(seq![s[0]] + s.drop_first() =~= s);
    }
}

} // verus!

verus! {

/// Appending one value to a sequence appends its model.
pub proof fn lemma_json_views_push(s: Seq<Json>, x: Json)
    ensures
        json_views(s.push(x)) == json_views(s).push(json_view(x)),
    decreases s.len(),
{
    if s.len() == 0 {
        assert(s.push(x)[0] == x);
        assert(s.push(x).drop_first() =~= Seq::<Json>::empty());
        assert(seq![json_view(x)] + json_views(Seq::<Json>::empty()) =~= json_views(s).push(
            json_view(x),
        ));
    } else {
        assert(s.push(x)[0] == s[0]);
        assert(s.push(x).drop_first() =~= s.drop_first().push(x));
        lemma_json_views_push(s.drop_first(), x);
        assert(seq![json_view(s[0])] + json_views(s.drop_first()).push(json_view(x)) =~= (
        seq![json_view(s[0])] + json_views(s.drop_first())).push(json_view(x)));
    }
}

/// Appending one key-value pair to a sequence appends its model.
pub proof fn lemma_json_kvs_push(s: Seq<(String, Json)>, x: (String, Json))
    ensures
        json_kvs(s.push(x)) == json_kvs(s).push((x.0@, json_view(x.1))),
    decreases s.len(),
{
    if s.len() == 0 {
        assert(s.push(x)[0] == x);
        assert(s.push(x).drop_first() =~= Seq::<(String, Json)>::empty());
        assert(seq![(x.0@, json_view(x.1))] + json_kvs(Seq::<(String, Json)>::empty())
            =~= json_kvs(s).push((x.0@, json_view(x.1))));
    } else {
        assert(s.push(x)[0] == s[0]);
        assert(s.push(x).drop_first() =~= s.drop_first().push(x));
        lemma_json_kvs_push(s.drop_first(), x);
        assert(seq![(s[0].0@, json_view(s[0].1))] + json_kvs(s.drop_first()).push(
            (x.0@, json_view(x.1)),
        ) =~= (seq![(s[0].0@, json_view(s[0].1))] + json_kvs(s.drop_first())).push(
            (x.0@, json_view(x.1)),
        ));
    }
}

/// The model list of a value sequence has the same length and pointwise
/// models.
pub proof fn lemma_json_views_elems(s: Seq<Json>)
    ensures
        json_views(s).len() == s.len(),
        forall|i: int| 0 <= i < s.len() ==> json_views(s)[i] == json_view(s[i]),
    decreases s.len(),
{
    if s.len() > 0 {
        lemma_json_views_elems(s.drop_first());
        assert(forall|i: int| 0 <= i < s.drop_first().len() ==> s.drop_first()[i] == s[i + 1]);
    }
}

/// The model list of a key-value sequence has the same length and pointwise
/// models.
pub proof fn lemma_json_kvs_elems(s: Seq<(String, Json)>)
    ensures
        json_kvs(s).len() == s.len(),
        forall|i: int|
            0 <= i < s.len() ==> json_kvs(s)[i] == (s[i].0@, json_view(s[i].1)),
    decreases s.len(),
{
    if s.len() > 0 {
        lemma_json_kvs_elems(s.drop_first());
        assert(forall|i: int| 0 <= i < s.drop_first().len() ==> s.drop_first()[i] == s[i + 1]);
    }
}

} // verus!

use crate::item::StructureMember;
use vstd::string::StringExecFns;

verus! {

/// Encodes an optional text value.
fn opt_str_to_json(o: &Option<String>) -> (r: Json)
    ensures
        r@ == opt_str_json(o.deep_view()),
{
    match o {
        Some(s) => Json::Str(s.clone()),
        None => Json::Null,
    }
}

/// Encodes an optional type index.
fn opt_idx_to_json(o: &Option<usize>) -> (r: Json)
    ensures
        r@ == opt_idx_json(*o),
{
    match o {
        Some(n) => Json::UInt(*n as u64),
        None => Json::Null,
    }
}

/// Encodes a module path.
fn module_to_json(m: &Vec<String>) -> (r: Json)
    ensures
        r@ == JsonModel::Arr(module_json(m.deep_view())),
{
    let mut v: Vec<Json> = Vec::new();
    proof {
        assert(json_views(v@) =~= module_json(m.deep_view().take(0)));
    }
    for i in 0..m.len()
        invariant
            json_views(v@) == module_json(m.deep_view().take(i as int)),
    {
        let ghost before = v@;
        v.push(Json::Str(m[i].clone()));
        proof {
            lemma_json_views_push(before, v@[v@.len() - 1]);
            assert(module_json(m.deep_view().take(i as int + 1)) =~= module_json(
                m.deep_view().take(i as int),
            ).push(JsonModel::Str(m.deep_view()[i as int])));
        }
    }
    proof {
        assert(m.deep_view().take(m.deep_view().len() as int) =~= m.deep_view());
    }
    Json::Arr(v)
}

/// Encodes an argument list.
fn args_to_json(a: &Vec<(Option<String>, usize)>) -> (r: Json)
    ensures
        r@ == JsonModel::Arr(args_json(a.deep_view())),
{
    let mut v: Vec<Json> = Vec::new();
    proof {
        assert(json_views(v@) =~= args_json(a.deep_view().take(0)));
    }
    for i in 0..a.len()
        invariant
            json_views(v@) == args_json(a.deep_view().take(i as int)),
    {
        let mut pair: Vec<Json> = Vec::new();
        let name = opt_str_to_json(&a[i].0);
        let ghost name_model = name@;
        proof {
            assert(json_views(pair@) =~= Seq::<JsonModel>::empty());
        }
        let ghost q0 = pair@;
        pair.push(name);
        proof {
            lemma_json_views_push(q0, pair@[pair@.len() - 1]);
        }
        let ghost q1 = pair@;
        pair.push(Json::UInt(a[i].1 as u64));
        let pj = Json::Arr(pair);
        proof {
            lemma_json_views_push(q1, Json::UInt(a@[i as int].1 as u64));
            let pv = (match &pj {
                Json::Arr(inner) => inner@,
                _ => Seq::<Json>::empty(),
            });
            assert(json_views(pv) =~= seq![
                name_model,
                JsonModel::UInt(a@[i as int].1 as u64),
            ]);
            assert(pj@ == arg_json(a.deep_view()[i as int]));
        }
        let ghost before = v@;
        v.push(pj);
        proof {
            lemma_json_views_push(before, v@[v@.len() - 1]);
            assert(args_json(a.deep_view().take(i as int + 1)) =~= args_json(
                a.deep_view().take(i as int),
            ).push(arg_json(a.deep_view()[i as int])));
        }
    }
    proof {
        assert(a.deep_view().take(a.deep_view().len() as int) =~= a.deep_view());
    }
    Json::Arr(v)
}

/// Encodes a base-type kind as its name.
fn kind_to_json(k: &BaseTypeKind) -> (r: Json)
    ensures
        r@ == kind_json(*k),
{
    match k {
        BaseTypeKind::UnsignedInt => Json::Str(String::from_str("UnsignedInt")),
        BaseTypeKind::SignedInt => Json::Str(String::from_str("SignedInt")),
        BaseTypeKind::Float => Json::Str(String::from_str("Float")),
        BaseTypeKind::Bool => Json::Str(String::from_str("Bool")),
        BaseTypeKind::Char => Json::Str(String::from_str("Char")),
        BaseTypeKind::Never => Json::Str(String::from_str("Never")),
        BaseTypeKind::Unit => Json::Str(String::from_str("Unit")),
    }
}

/// Encodes one structure member as its canonical object.
fn member_to_json(m: &StructureMember) -> (r: Json)
    ensures
        r@ == member_json(m@),
{
    let mut kv: Vec<(String, Json)> = Vec::new();
    proof {
        assert(json_kvs(kv@) =~= Seq::<(Seq<char>, JsonModel)>::empty());
    }
    let ghost s0 = kv@;
    kv.push((String::from_str("name"), Json::Str(m.name.clone())));
    proof {
        lemma_json_kvs_push(s0, kv@[kv@.len() - 1]);
    }
    let ghost s1 = kv@;
    kv.push((String::from_str("type_index"), Json::UInt(m.type_index as u64)));
    proof {
        lemma_json_kvs_push(s1, kv@[kv@.len() - 1]);
    }
    let ghost s2 = kv@;
    kv.push((String::from_str("offset"), Json::UInt(m.offset)));
    proof {
        lemma_json_kvs_push(s2, kv@[kv@.len() - 1]);
    }
    let ghost s3 = kv@;
    kv.push((String::from_str("alignment"), Json::UInt(m.alignment)));
    proof {
        lemma_json_kvs_push(s3, kv@[kv@.len() - 1]);
        assert(json_kvs(kv@) =~= seq![
            ("name"@, JsonModel::Str(m.name@)),
            ("type_index"@, JsonModel::UInt(m.type_index as u64)),
            ("offset"@, JsonModel::UInt(m.offset)),
            ("alignment"@, JsonModel::UInt(m.alignment)),
        ]);
    }
    Json::Obj(kv)
}

/// Encodes a member list.
fn members_to_json(ms: &Vec<StructureMember>) -> (r: Json)
    ensures
        r@ == JsonModel::Arr(members_json(Seq::new(ms@.len(), |i: int| ms@[i]@))),
{
    let ghost model = Seq::new(ms@.len(), |i: int| ms@[i]@);
    let mut v: Vec<Json> = Vec::new();
    proof {
        assert(json_views(v@) =~= members_json(model.take(0)));
    }
    for i in 0..ms.len()
        invariant
            model == Seq::new(ms@.len(), |i: int| ms@[i]@),
            json_views(v@) == members_json(model.take(i as int)),
    {
        let mj = member_to_json(&ms[i]);
        let ghost before = v@;
        v.push(mj);
        proof {
            lemma_json_views_push(before, v@[v@.len() - 1]);
            assert(members_json(model.take(i as int + 1)) =~= members_json(
                model.take(i as int),
            ).push(member_json(model[i as int])));
        }
    }
    proof {
        assert(model.take(model.len() as int) =~= model);
    }
    Json::Arr(v)
}

} // verus!

verus! {

/// Encodes one item as its canonical tagged object.
pub fn item_to_json(it: &Item) -> (r: Json)
    ensures
        r@ == item_json(it@),
{
    match it {
        Item::Function(f) => {
            let mut kv: Vec<(String, Json)> = Vec::new();
            proof {
                assert(json_kvs(kv@) =~= Seq::<(Seq<char>, JsonModel)>::empty());
            }
            let ghost s0 = kv@;
            kv.push((String::from_str("type"), Json::Str(String::from_str("Function"))));
            proof {
                lemma_json_kvs_push(s0, kv@[kv@.len() - 1]);
            }
            let ghost s1 = kv@;
            kv.push((String::from_str("full_name"), Json::Str(f.full_name.clone())));
            proof {
                lemma_json_kvs_push(s1, kv@[kv@.len() - 1]);
            }
            let ghost s2 = kv@;
            kv.push((String::from_str("linkage_name"), Json::Str(f.linkage_name.clone())));
            proof {
                lemma_json_kvs_push(s2, kv@[kv@.len() - 1]);
            }
            let ghost s3 = kv@;
            kv.push((String::from_str("name"), opt_str_to_json(&f.name)));
            proof {
                lemma_json_kvs_push(s3, kv@[kv@.len() - 1]);
            }
            let ghost s4 = kv@;
            kv.push((String::from_str("module"), module_to_json(&f.module)));
            proof {
                lemma_json_kvs_push(s4, kv@[kv@.len() - 1]);
            }
            let ghost s5 = kv@;
            kv.push((String::from_str("ret_type_index"), opt_idx_to_json(&f.ret_type_index)));
            proof {
                lemma_json_kvs_push(s5, kv@[kv@.len() - 1]);
            }
            let ghost s6 = kv@;
            kv.push((String::from_str("arguments"), args_to_json(&f.arguments)));
            proof {
                lemma_json_kvs_push(s6, kv@[kv@.len() - 1]);
                assert(json_kvs(kv@) =~= seq![
                    ("type"@, JsonModel::Str("Function"@)),
                    ("full_name"@, JsonModel::Str(f.full_name@)),
                    ("linkage_name"@, JsonModel::Str(f.linkage_name@)),
                    ("name"@, opt_str_json(f.name.deep_view())),
                    ("module"@, JsonModel::Arr(module_json(f.module.deep_view()))),
                    ("ret_type_index"@, opt_idx_json(f.ret_type_index)),
                    ("arguments"@, JsonModel::Arr(args_json(f.arguments.deep_view()))),
                ]);
            }
            Json::Obj(kv)
        },
        Item::BaseType(b) => {
            let mut kv: Vec<(String, Json)> = Vec::new();
            proof {
                assert(json_kvs(kv@) =~= Seq::<(Seq<char>, JsonModel)>::empty());
            }
            let ghost s0 = kv@;
            kv.push((String::from_str("type"), Json::Str(String::from_str("BaseType"))));
            proof {
                lemma_json_kvs_push(s0, kv@[kv@.len() - 1]);
            }
            let ghost s1 = kv@;
            kv.push((String::from_str("name"), Json::Str(b.name.clone())));
            proof {
                lemma_json_kvs_push(s1, kv@[kv@.len() - 1]);
            }
            let ghost s2 = kv@;
            kv.push((String::from_str("module"), module_to_json(&b.module)));
            proof {
                lemma_json_kvs_push(s2, kv@[kv@.len() - 1]);
            }
            let ghost s3 = kv@;
            kv.push((String::from_str("size"), Json::UInt(b.size)));
            proof {
                lemma_json_kvs_push(s3, kv@[kv@.len() - 1]);
            }
            let ghost s4 = kv@;
            kv.push((String::from_str("kind"), kind_to_json(&b.kind)));
            proof {
                lemma_json_kvs_push(s4, kv@[kv@.len() - 1]);
                assert(json_kvs(kv@) =~= seq![
                    ("type"@, JsonModel::Str("BaseType"@)),
                    ("name"@, JsonModel::Str(b.name@)),
                    ("module"@, JsonModel::Arr(module_json(b.module.deep_view()))),
                    ("size"@, JsonModel::UInt(b.size)),
                    ("kind"@, kind_json(b.kind)),
                ]);
            }
            Json::Obj(kv)
        },
        Item::PointerType(p) => {
            let mut kv: Vec<(String, Json)> = Vec::new();
            proof {
                assert(json_kvs(kv@) =~= Seq::<(Seq<char>, JsonModel)>::empty());
            }
            let ghost s0 = kv@;
            kv.push((String::from_str("type"), Json::Str(String::from_str("PointerType"))));
            proof {
                lemma_json_kvs_push(s0, kv@[kv@.len() - 1]);
            }
            let ghost s1 = kv@;
            kv.push((String::from_str("name"), Json::Str(p.name.clone())));
            proof {
                lemma_json_kvs_push(s1, kv@[kv@.len() - 1]);
            }
            let ghost s2 = kv@;
            kv.push((String::from_str("module"), module_to_json(&p.module)));
            proof {
                lemma_json_kvs_push(s2, kv@[kv@.len() - 1]);
            }
            let ghost s3 = kv@;
            kv.push((String::from_str("type_index"), Json::UInt(p.type_index as u64)));
            proof {
                lemma_json_kvs_push(s3, kv@[kv@.len() - 1]);
                assert(json_kvs(kv@) =~= seq![
                    ("type"@, JsonModel::Str("PointerType"@)),
                    ("name"@, JsonModel::Str(p.name@)),
                    ("module"@, JsonModel::Arr(module_json(p.module.deep_view()))),
                    ("type_index"@, JsonModel::UInt(p.type_index as u64)),
                ]);
            }
            Json::Obj(kv)
        },
        Item::Structure(st) => {
            let mut kv: Vec<(String, Json)> = Vec::new();
            proof {
                assert(json_kvs(kv@) =~= Seq::<(Seq<char>, JsonModel)>::empty());
            }
            let ghost s0 = kv@;
            kv.push((String::from_str("type"), Json::Str(String::from_str("Structure"))));
            proof {
                lemma_json_kvs_push(s0, kv@[kv@.len() - 1]);
            }
            let ghost s1 = kv@;
            kv.push((String::from_str("name"), Json::Str(st.name.clone())));
            proof {
                lemma_json_kvs_push(s1, kv@[kv@.len() - 1]);
            }
            let ghost s2 = kv@;
            kv.push((String::from_str("module"), module_to_json(&st.module)));
            proof {
                lemma_json_kvs_push(s2, kv@[kv@.len() - 1]);
            }
            let ghost s3 = kv@;
            kv.push((String::from_str("size"), Json::UInt(st.size)));
            proof {
                lemma_json_kvs_push(s3, kv@[kv@.len() - 1]);
            }
            let ghost s4 = kv@;
            kv.push((String::from_str("alignment"), Json::UInt(st.alignment)));
            proof {
                lemma_json_kvs_push(s4, kv@[kv@.len() - 1]);
            }
            let ghost s5 = kv@;
            kv.push((String::from_str("members"), members_to_json(&st.members)));
            proof {
                lemma_json_kvs_push(s5, kv@[kv@.len() - 1]);
                assert(json_kvs(kv@) =~= seq![
                    ("type"@, JsonModel::Str("Structure"@)),
                    ("name"@, JsonModel::Str(st.name@)),
                    ("module"@, JsonModel::Arr(module_json(st.module.deep_view()))),
                    ("size"@, JsonModel::UInt(st.size)),
                    ("alignment"@, JsonModel::UInt(st.alignment)),
                    (
                        "members"@,
                        JsonModel::Arr(
                            members_json(Seq::new(st.members@.len(), |i: int| st.members@[i]@)),
                        ),
                    ),
                ]);
            }
            Json::Obj(kv)
        },
    }
}

/// Encodes the whole item list as a JSON array of `[offset, item]` pairs.
pub fn items_to_json(items: &Vec<(usize, Item)>) -> (r: Json)
    ensures
        r@ == item_list_json(crate::item::items_model(items@)),
{
    let ghost model = crate::item::items_model(items@);
    let ghost enc = |p: (usize, ItemModel)|
        JsonModel::Arr(seq![JsonModel::UInt(p.0 as u64), item_json(p.1)]);
    let mut v: Vec<Json> = Vec::new();
    proof {
        assert(json_views(v@) =~= model.take(0).map_values(enc));
    }
    for i in 0..items.len()
        invariant
            model == crate::item::items_model(items@),
            enc == (|p: (usize, ItemModel)|
                JsonModel::Arr(seq![JsonModel::UInt(p.0 as u64), item_json(p.1)])),
            json_views(v@) == model.take(i as int).map_values(enc),
    {
        let mut pair: Vec<Json> = Vec::new();
        proof {
            assert(json_views(pair@) =~= Seq::<JsonModel>::empty());
        }
        let ghost q0 = pair@;
        pair.push(Json::UInt(items[i].0 as u64));
        proof {
            lemma_json_views_push(q0, Json::UInt(items@[i as int].0 as u64));
        }
        let ij = item_to_json(&items[i].1);
        let ghost ij_model = ij@;
        let ghost q1 = pair@;
        pair.push(ij);
        let pj = Json::Arr(pair);
        proof {
            let pv = (match &pj {
                Json::Arr(inner) => inner@,
                _ => Seq::<Json>::empty(),
            });
            lemma_json_views_push(q1, pv[pv.len() - 1]);
            assert(json_views(pv) =~= seq![
                JsonModel::UInt(items@[i as int].0 as u64),
                ij_model,
            ]);
            assert(pj@ == enc(model[i as int]));
        }
        let ghost before = v@;
        v.push(pj);
        proof {
            lemma_json_views_push(before, v@[v@.len() - 1]);
            assert(model.take(i as int + 1).map_values(enc) =~= model.take(
                i as int,
            ).map_values(enc).push(enc(model[i as int])));
        }
    }
    proof {
        assert(model.take(model.len() as int) =~= model);
    }
    Json::Arr(v)
}

} // verus!

verus! {

/// Decodes an optional text value.
fn opt_str_from_json(j: &Json) -> (r: Option<Option<String>>)
    ensures
        (match r {
            Some(os) => opt_str_from(j@) == Some(os.deep_view()),
            None => opt_str_from(j@) is None,
        }),
{
    match j {
        Json::Null => Some(None),
        Json::Str(s) => Some(Some(s.clone())),
        _ => None,
    }
}

/// Decodes a required type index: an unsigned integer that fits.
fn idx_from_json(j: &Json) -> (r: Option<usize>)
    ensures
        (match r {
            Some(n) => idx_from(j@) == Some(n),
            None => idx_from(j@) is None,
        }),
{
    match j {
        Json::UInt(n) => if *n <= usize::MAX as u64 {
            Some(*n as usize)
        } else {
            None
        },
        _ => None,
    }
}

/// Decodes an optional type index.
fn opt_idx_from_json(j: &Json) -> (r: Option<Option<usize>>)
    ensures
        (match r {
            Some(o) => opt_idx_from(j@) == Some(o),
            None => opt_idx_from(j@) is None,
        }),
{
    match j {
        Json::Null => Some(None),
        Json::UInt(n) => if *n <= usize::MAX as u64 {
            Some(Some(*n as usize))
        } else {
            None
        },
        _ => None,
    }
}

/// Decodes a base-type kind from its name.
fn kind_from_json(j: &Json) -> (r: Option<BaseTypeKind>)
    ensures
        (match r {
            Some(k) => kind_from(j@) == Some(k),
            None => kind_from(j@) is None,
        }),
{
    match j {
        Json::Str(s) => {
            if *s == String::from_str("UnsignedInt") {
                Some(BaseTypeKind::UnsignedInt)
            } else if *s == String::from_str("SignedInt") {
                Some(BaseTypeKind::SignedInt)
            } else if *s == String::from_str("Float") {
                Some(BaseTypeKind::Float)
            } else if *s == String::from_str("Bool") {
                Some(BaseTypeKind::Bool)
            } else if *s == String::from_str("Char") {
                Some(BaseTypeKind::Char)
            } else if *s == String::from_str("Never") {
                Some(BaseTypeKind::Never)
            } else if *s == String::from_str("Unit") {
                Some(BaseTypeKind::Unit)
            } else {
                None
            }
        },
        _ => None,
    }
}

/// Decodes a module path from an array of strings.
fn module_from_json(v: &Vec<Json>) -> (r: Option<Vec<String>>)
    ensures
        (match r {
            Some(m) => module_from(json_views(v@)) == Some(m.deep_view()),
            None => module_from(json_views(v@)) is None,
        }),
{
    let ghost w = json_views(v@);
    proof {
        lemma_json_views_elems(v@);
    }
    let mut out: Vec<String> = Vec::new();
    proof {
        assert(w.skip(0) =~= w);
        match module_from(w) {
            Some(rest) => {
                assert(out.deep_view() + rest =~= rest);
            },
            None => {},
        }
    }
    for i in 0..v.len()
        invariant
            w == json_views(v@),
            w.len() == v@.len(),
            forall|j: int| 0 <= j < v@.len() ==> w[j] == json_view(v@[j]),
            (match module_from(w.skip(i as int)) {
                Some(rest) => module_from(w) == Some(out.deep_view() + rest),
                None => module_from(w) is None,
            }),
    {
        proof {
            assert(w.skip(i as int)[0] == w[i as int]);
            assert(w.skip(i as int).drop_first() =~= w.skip(i as int + 1));
        }
        match &v[i] {
            Json::Str(s) => {
                let ghost before = out.deep_view();
                out.push(s.clone());
                proof {
                    assert(out.deep_view() =~= before.push(s@));
                    match module_from(w.skip(i as int + 1)) {
                        Some(rest2) => {
                            assert(before + (seq![s@] + rest2) =~= before.push(s@) + rest2);
                        },
                        None => {},
                    }
                }
            },
            _ => {
                return None;
            },
        }
    }
    proof {
        assert(w.skip(v@.len() as int) =~= Seq::<JsonModel>::empty());
        assert(out.deep_view() + Seq::<Seq<char>>::empty() =~= out.deep_view());
    }
    Some(out)
}

/// Decodes an argument list from an array of two-element arrays.
fn args_from_json(v: &Vec<Json>) -> (r: Option<Vec<(Option<String>, usize)>>)
    ensures
        (match r {
            Some(a) => args_from(json_views(v@)) == Some(a.deep_view()),
            None => args_from(json_views(v@)) is None,
        }),
{
    let ghost w = json_views(v@);
    proof {
        lemma_json_views_elems(v@);
    }
    let mut out: Vec<(Option<String>, usize)> = Vec::new();
    proof {
        assert(w.skip(0) =~= w);
        match args_from(w) {
            Some(rest) => {
                assert(out.deep_view() + rest =~= rest);
            },
            None => {},
        }
    }
    for i in 0..v.len()
        invariant
            w == json_views(v@),
            w.len() == v@.len(),
            forall|j: int| 0 <= j < v@.len() ==> w[j] == json_view(v@[j]),
            (match args_from(w.skip(i as int)) {
                Some(rest) => args_from(w) == Some(out.deep_view() + rest),
                None => args_from(w) is None,
            }),
    {
        proof {
            assert(w.skip(i as int)[0] == w[i as int]);
            assert(w.skip(i as int).drop_first() =~= w.skip(i as int + 1));
        }
        match &v[i] {
            Json::Arr(p) => {
                proof {
                    lemma_json_views_elems(p@);
                }
                if p.len() != 2 {
                    return None;
                }
                let name = match opt_str_from_json(&p[0]) {
                    Some(n) => n,
                    None => {
                        return None;
                    },
                };
                let t = match idx_from_json(&p[1]) {
                    Some(t) => t,
                    None => {
                        return None;
                    },
                };
                let ghost before = out.deep_view();
                let ghost pm = (name.deep_view(), t);
                out.push((name, t));
                proof {
                    assert(out.deep_view() =~= before.push(pm));
                    assert(arg_from(w[i as int]) == Some(pm));
                    match args_from(w.skip(i as int + 1)) {
                        Some(rest2) => {
                            assert(before + (seq![pm] + rest2) =~= before.push(pm) + rest2);
                        },
                        None => {},
                    }
                }
            },
            _ => {
                return None;
            },
        }
    }
    proof {
        assert(w.skip(v@.len() as int) =~= Seq::<JsonModel>::empty());
        assert(out.deep_view() + Seq::<(Option<Seq<char>>, usize)>::empty() =~= out.deep_view());
    }
    Some(out)
}

/// Decodes one structure member from its canonical object.
fn member_from_json(j: &Json) -> (r: Option<StructureMember>)
    ensures
        (match r {
            Some(m) => member_from(j@) == Some(m@),
            None => member_from(j@) is None,
        }),
{
    match j {
        Json::Obj(kvs) => {
            proof {
                lemma_json_kvs_elems(kvs@);
            }
            if kvs.len() != 4 {
                return None;
            }
            if !(kvs[0].0 == String::from_str("name")) {
                return None;
            }
            if !(kvs[1].0 == String::from_str("type_index")) {
                return None;
            }
            if !(kvs[2].0 == String::from_str("offset")) {
                return None;
            }
            if !(kvs[3].0 == String::from_str("alignment")) {
                return None;
            }
            let name = match &kvs[0].1 {
                Json::Str(s) => s.clone(),
                _ => {
                    return None;
                },
            };
            let type_index = match idx_from_json(&kvs[1].1) {
                Some(t) => t,
                None => {
                    return None;
                },
            };
            let offset = match &kvs[2].1 {
                Json::UInt(n) => *n,
                _ => {
                    return None;
                },
            };
            let alignment = match &kvs[3].1 {
                Json::UInt(n) => *n,
                _ => {
                    return None;
                },
            };
            Some(StructureMember { name, type_index, offset, alignment })
        },
        _ => None,
    }
}

/// Decodes a member list.
fn members_from_json(v: &Vec<Json>) -> (r: Option<Vec<StructureMember>>)
    ensures
        (match r {
            Some(ms) => members_from(json_views(v@)) == Some(
                Seq::new(ms@.len(), |i: int| ms@[i]@),
            ),
            None => members_from(json_views(v@)) is None,
        }),
{
    let ghost w = json_views(v@);
    proof {
        lemma_json_views_elems(v@);
    }
    let mut out: Vec<StructureMember> = Vec::new();
    proof {
        assert(w.skip(0) =~= w);
        match members_from(w) {
            Some(rest) => {
                assert(Seq::new(out@.len(), |k: int| out@[k]@) + rest =~= rest);
            },
            None => {},
        }
    }
    for i in 0..v.len()
        invariant
            w == json_views(v@),
            w.len() == v@.len(),
            forall|j: int| 0 <= j < v@.len() ==> w[j] == json_view(v@[j]),
            (match members_from(w.skip(i as int)) {
                Some(rest) => members_from(w) == Some(
                    Seq::new(out@.len(), |k: int| out@[k]@) + rest,
                ),
                None => members_from(w) is None,
            }),
    {
        proof {
            assert(w.skip(i as int)[0] == w[i as int]);
            assert(w.skip(i as int).drop_first() =~= w.skip(i as int + 1));
        }
        let m = match member_from_json(&v[i]) {
            Some(m) => m,
            None => {
                return None;
            },
        };
        let ghost before = Seq::new(out@.len(), |k: int| out@[k]@);
        let ghost mm = m@;
        out.push(m);
        proof {
            assert(Seq::new(out@.len(), |k: int| out@[k]@) =~= before.push(mm));
            match members_from(w.skip(i as int + 1)) {
                Some(rest2) => {
                    assert(before + (seq![mm] + rest2) =~= before.push(mm) + rest2);
                },
                None => {},
            }
        }
    }
    proof {
        assert(w.skip(v@.len() as int) =~= Seq::<JsonModel>::empty());
        assert(Seq::new(out@.len(), |k: int| out@[k]@) + Seq::<MemberModel>::empty() =~= Seq::new(
            out@.len(),
            |k: int| out@[k]@,
        ));
    }
    Some(out)
}

} // verus!

use crate::item::{BaseType, Function, PointerType, Structure};

verus! {

/// Decodes one item from its canonical tagged object: `None` when the value
/// is not of that shape.
pub fn item_from_json(j: &Json) -> (r: Option<Item>)
    ensures
        (match r {
            Some(it) => item_from_model(j@) == Some(it@),
            None => item_from_model(j@) is None,
        }),
{
    let kvs = match j {
        Json::Obj(kvs) => kvs,
        _ => {
            return None;
        },
    };
    proof {
        lemma_json_kvs_elems(kvs@);
    }
    if kvs.len() == 0 {
        return None;
    }
    if !(kvs[0].0 == String::from_str("type")) {
        return None;
    }
    let tag = match &kvs[0].1 {
        Json::Str(s) => s,
        _ => {
            return None;
        },
    };
    if *tag == String::from_str("Function") {
        if kvs.len() != 7 {
            return None;
        }
        if !(kvs[1].0 == String::from_str("full_name")) {
            return None;
        }
        if !(kvs[2].0 == String::from_str("linkage_name")) {
            return None;
        }
        if !(kvs[3].0 == String::from_str("name")) {
            return None;
        }
        if !(kvs[4].0 == String::from_str("module")) {
            return None;
        }
        if !(kvs[5].0 == String::from_str("ret_type_index")) {
            return None;
        }
        if !(kvs[6].0 == String::from_str("arguments")) {
            return None;
        }
        let full_name = match &kvs[1].1 {
            Json::Str(s) => s.clone(),
            _ => {
                return None;
            },
        };
        let linkage_name = match &kvs[2].1 {
            Json::Str(s) => s.clone(),
            _ => {
                return None;
            },
        };
        let name = match opt_str_from_json(&kvs[3].1) {
            Some(n) => n,
            None => {
                return None;
            },
        };
        let module = match &kvs[4].1 {
            Json::Arr(mv) => match module_from_json(mv) {
                Some(m) => m,
                None => {
                    return None;
                },
            },
            _ => {
                return None;
            },
        };
        let ret_type_index = match opt_idx_from_json(&kvs[5].1) {
            Some(o) => o,
            None => {
                return None;
            },
        };
        let arguments = match &kvs[6].1 {
            Json::Arr(av) => match args_from_json(av) {
                Some(a) => a,
                None => {
                    return None;
                },
            },
            _ => {
                return None;
            },
        };
        Some(
            Item::Function(
                Function { full_name, linkage_name, name, module, ret_type_index, arguments },
            ),
        )
    } else if *tag == String::from_str("BaseType") {
        if kvs.len() != 5 {
            return None;
        }
        if !(kvs[1].0 == String::from_str("name")) {
            return None;
        }
        if !(kvs[2].0 == String::from_str("module")) {
            return None;
        }
        if !(kvs[3].0 == String::from_str("size")) {
            return None;
        }
        if !(kvs[4].0 == String::from_str("kind")) {
            return None;
        }
        let name = match &kvs[1].1 {
            Json::Str(s) => s.clone(),
            _ => {
                return None;
            },
        };
        let module = match &kvs[2].1 {
            Json::Arr(mv) => match module_from_json(mv) {
                Some(m) => m,
                None => {
                    return None;
                },
            },
            _ => {
                return None;
            },
        };
        let size = match &kvs[3].1 {
            Json::UInt(n) => *n,
            _ => {
                return None;
            },
        };
        let kind = match kind_from_json(&kvs[4].1) {
            Some(k) => k,
            None => {
                return None;
            },
        };
        Some(Item::BaseType(BaseType { name, module, size, kind }))
    } else if *tag == String::from_str("PointerType") {
        if kvs.len() != 4 {
            return None;
        }
        if !(kvs[1].0 == String::from_str("name")) {
            return None;
        }
        if !(kvs[2].0 == String::from_str("module")) {
            return None;
        }
        if !(kvs[3].0 == String::from_str("type_index")) {
            return None;
        }
        let name = match &kvs[1].1 {
            Json::Str(s) => s.clone(),
            _ => {
                return None;
            },
        };
        let module = match &kvs[2].1 {
            Json::Arr(mv) => match module_from_json(mv) {
                Some(m) => m,
                None => {
                    return None;
                },
            },
            _ => {
                return None;
            },
        };
        let type_index = match idx_from_json(&kvs[3].1) {
            Some(t) => t,
            None => {
                return None;
            },
        };
        Some(Item::PointerType(PointerType { name, module, type_index }))
    } else if *tag == String::from_str("Structure") {
        if kvs.len() != 6 {
            return None;
        }
        if !(kvs[1].0 == String::from_str("name")) {
            return None;
        }
        if !(kvs[2].0 == String::from_str("module")) {
            return None;
        }
        if !(kvs[3].0 == String::from_str("size")) {
            return None;
        }
        if !(kvs[4].0 == String::from_str("alignment")) {
            return None;
        }
        if !(kvs[5].0 == String::from_str("members")) {
            return None;
        }
        let name = match &kvs[1].1 {
            Json::Str(s) => s.clone(),
            _ => {
                return None;
            },
        };
        let module = match &kvs[2].1 {
            Json::Arr(mv) => match module_from_json(mv) {
                Some(m) => m,
                None => {
                    return None;
                },
            },
            _ => {
                return None;
            },
        };
        let size = match &kvs[3].1 {
            Json::UInt(n) => *n,
            _ => {
                return None;
            },
        };
        let alignment = match &kvs[4].1 {
            Json::UInt(n) => *n,
            _ => {
                return None;
            },
        };
        let members = match &kvs[5].1 {
            Json::Arr(mv) => match members_from_json(mv) {
                Some(ms) => ms,
                None => {
                    return None;
                },
            },
            _ => {
                return None;
            },
        };
        Some(Item::Structure(Structure { name, module, size, alignment, members }))
    } else {
        None
    }
}

/// Decodes the whole item list from a JSON array of `[offset, item]` pairs:
/// `None` when the document is not of that shape.
pub fn items_from_json(j: &Json) -> (r: Option<Vec<(usize, Item)>>)
    ensures
        (match r {
            Some(v) => item_list_from(j@) == Some(crate::item::items_model(v@)),
            None => item_list_from(j@) is None,
        }),
{
    let arr = match j {
        Json::Arr(v) => v,
        _ => {
            return None;
        },
    };
    let ghost w = json_views(arr@);
    proof {
        lemma_json_views_elems(arr@);
    }
    let mut out: Vec<(usize, Item)> = Vec::new();
    proof {
        assert(w.skip(0) =~= w);
        match pairs_from(w) {
            Some(rest) => {
                assert(crate::item::items_model(out@) + rest =~= rest);
            },
            None => {},
        }
    }
    for i in 0..arr.len()
        invariant
            j@ == JsonModel::Arr(w),
            w == json_views(arr@),
            w.len() == arr@.len(),
            forall|k: int| 0 <= k < arr@.len() ==> w[k] == json_view(arr@[k]),
            (match pairs_from(w.skip(i as int)) {
                Some(rest) => pairs_from(w) == Some(crate::item::items_model(out@) + rest),
                None => pairs_from(w) is None,
            }),
    {
        proof {
            assert(w.skip(i as int)[0] == w[i as int]);
            assert(w.skip(i as int).drop_first() =~= w.skip(i as int + 1));
        }
        match &arr[i] {
            Json::Arr(p) => {
                proof {
                    lemma_json_views_elems(p@);
                }
                if p.len() != 2 {
                    return None;
                }
                let off = match idx_from_json(&p[0]) {
                    Some(o) => o,
                    None => {
                        return None;
                    },
                };
                let it = match item_from_json(&p[1]) {
                    Some(it) => it,
                    None => {
                        return None;
                    },
                };
                let ghost before = crate::item::items_model(out@);
                let ghost pm = (off, it@);
                out.push((off, it));
                proof {
                    assert(crate::item::items_model(out@) =~= before.push(pm));
                    assert(pair_from(w[i as int]) == Some(pm));
                    match pairs_from(w.skip(i as int + 1)) {
                        Some(rest2) => {
                            assert(before + (seq![pm] + rest2) =~= before.push(pm) + rest2);
                        },
                        None => {},
                    }
                }
            },
            _ => {
                return None;
            },
        }
    }
    proof {
        assert(w.skip(arr@.len() as int) =~= Seq::<JsonModel>::empty());
        assert(crate::item::items_model(out@) + Seq::<(usize, ItemModel)>::empty()
            =~= crate::item::items_model(out@));
    }
    Some(out)
}

} // verus!
