use dwarffi::item::{
    BaseType, BaseTypeKind, Function, Item, PointerType, Structure, StructureMember,
};
use dwarffi::json::{item_from_json, item_to_json, items_from_json, items_to_json, Json};

fn sample_items() -> Vec<(usize, Item)> {
    vec![
        (
            1,
            Item::BaseType(BaseType {
                name: String::from("i32"),
                module: vec![String::from("mylib")],
                size: 4,
                kind: BaseTypeKind::SignedInt,
            }),
        ),
        (
            3,
            Item::PointerType(PointerType {
                name: String::from("&Point"),
                module: vec![String::from("mylib")],
                type_index: 2,
            }),
        ),
        (
            5,
            Item::Function(Function {
                full_name: String::from("mylib::Point::distance"),
                linkage_name: String::from("_ZN5mylib5Point8distanceE"),
                name: Some(String::from("distance")),
                module: vec![String::from("mylib"), String::from("Point")],
                ret_type_index: Some(4),
                arguments: vec![(Some(String::from("self")), 3), (None, 1)],
            }),
        ),
        (
            2,
            Item::Structure(Structure {
                name: String::from("Point"),
                module: vec![String::from("mylib")],
                size: 8,
                alignment: 4,
                members: vec![
                    StructureMember {
                        name: String::from("x"),
                        type_index: 1,
                        offset: 0,
                        alignment: 4,
                    },
                    StructureMember {
                        name: String::from("y"),
                        type_index: 1,
                        offset: 4,
                        alignment: 4,
                    },
                ],
            }),
        ),
    ]
}

#[test]
fn item_list_round_trips() {
    let items = sample_items();
    let doc = items_to_json(&items);
    let back = items_from_json(&doc).unwrap();
    assert_eq!(back, items);
}

#[test]
fn single_item_round_trips_each_variant() {
    for (_, item) in sample_items() {
        let doc = item_to_json(&item);
        let back = item_from_json(&doc).unwrap();
        assert_eq!(back, item);
    }
}

#[test]
fn base_type_kind_names_round_trip() {
    let kinds = vec![
        BaseTypeKind::UnsignedInt,
        BaseTypeKind::SignedInt,
        BaseTypeKind::Float,
        BaseTypeKind::Bool,
        BaseTypeKind::Char,
        BaseTypeKind::Never,
        BaseTypeKind::Unit,
    ];
    for kind in kinds {
        let item = Item::BaseType(BaseType {
            name: String::from("t"),
            module: Vec::new(),
            size: 1,
            kind,
        });
        let doc = item_to_json(&item);
        let back = item_from_json(&doc).unwrap();
        assert_eq!(back, item);
    }
}

#[test]
fn decoding_a_non_list_document_fails() {
    assert_eq!(items_from_json(&Json::Null), None);
    assert_eq!(items_from_json(&Json::UInt(3)), None);
    assert_eq!(item_from_json(&Json::Str(String::from("Function"))), None);
}

#[test]
fn decoding_a_wrongly_tagged_object_fails() {
    let doc = Json::Obj(vec![(
        String::from("type"),
        Json::Str(String::from("Enum")),
    )]);
    assert_eq!(item_from_json(&doc), None);
}

#[test]
fn function_encoding_has_the_variant_tag() {
    let item = &sample_items()[2].1;
    let doc = item_to_json(item);
    match doc {
        Json::Obj(kvs) => {
            assert_eq!(kvs[0].0, "type");
            assert_eq!(kvs[0].1, Json::Str(String::from("Function")));
            assert_eq!(kvs.len(), 7);
        }
        other => panic!("expected an object, got {:?}", other),
    }
}
