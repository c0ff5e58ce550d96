use dwarffi::dwarf::base_type::from_base_type;
use dwarffi::dwarf::function::from_subprogram;
use dwarffi::dwarf::pointer_type::from_pointer_type;
use dwarffi::dwarf::structure::{from_structure_type, member_from_entry};
use dwarffi::dwarf::walk::{get_items, handle_node};
use dwarffi::entry::{Attr, AttrName, AttrValue, Entry, ExtractError, Tag, LANG_RUST};
use dwarffi::item::Item;

fn attr(name: AttrName, value: AttrValue) -> Attr {
    Attr { name, value }
}

fn text(s: &str) -> AttrValue {
    AttrValue::Text(String::from(s))
}

fn leaf(offset: usize, tag: Tag, attrs: Vec<Attr>) -> Entry {
    Entry { offset, tag, attrs, children: Vec::new() }
}

fn node(offset: usize, tag: Tag, attrs: Vec<Attr>, children: Vec<Entry>) -> Entry {
    Entry { offset, tag, attrs, children }
}

fn base_type_entry(offset: usize, name: &str, size: u64, encoding: u64) -> Entry {
    leaf(
        offset,
        Tag::BaseType,
        vec![
            attr(AttrName::Name, text(name)),
            attr(AttrName::ByteSize, AttrValue::Unsigned(size)),
            attr(AttrName::Encoding, AttrValue::Enumerator(encoding)),
        ],
    )
}

fn rust_unit(children: Vec<Entry>) -> Entry {
    node(
        0,
        Tag::CompileUnit,
        vec![attr(AttrName::Language, AttrValue::Enumerator(LANG_RUST))],
        children,
    )
}

#[test]
fn base_type_signed_int() {
    let e = base_type_entry(7, "i32", 4, 5);
    let bt = from_base_type(&e, &Vec::new()).unwrap();
    assert_eq!(bt.name, "i32");
    assert_eq!(bt.size, 4);
    assert_eq!(bt.kind, dwarffi::item::BaseTypeKind::SignedInt);
    assert!(bt.module.is_empty());
}

#[test]
fn base_type_never_override() {
    let e = base_type_entry(7, "!", 0, 5);
    let bt = from_base_type(&e, &Vec::new()).unwrap();
    assert_eq!(bt.kind, dwarffi::item::BaseTypeKind::Never);
}

#[test]
fn base_type_unit_override() {
    let e = base_type_entry(7, "()", 0, 7);
    let bt = from_base_type(&e, &Vec::new()).unwrap();
    assert_eq!(bt.kind, dwarffi::item::BaseTypeKind::Unit);
}

#[test]
fn base_type_nonzero_size_not_overridden() {
    let e = base_type_entry(7, "!", 8, 5);
    let bt = from_base_type(&e, &Vec::new()).unwrap();
    assert_eq!(bt.kind, dwarffi::item::BaseTypeKind::SignedInt);
}

#[test]
fn base_type_missing_attributes() {
    let e = leaf(1, Tag::BaseType, vec![attr(AttrName::ByteSize, AttrValue::Unsigned(4))]);
    assert_eq!(from_base_type(&e, &Vec::new()), Err(ExtractError::MissingName));

    let e = leaf(1, Tag::BaseType, vec![attr(AttrName::Name, text("u8"))]);
    assert_eq!(from_base_type(&e, &Vec::new()), Err(ExtractError::MissingByteSize));

    let e = leaf(
        1,
        Tag::BaseType,
        vec![attr(AttrName::Name, text("u8")), attr(AttrName::ByteSize, AttrValue::Unsigned(1))],
    );
    assert_eq!(from_base_type(&e, &Vec::new()), Err(ExtractError::MissingEncoding));
}

#[test]
fn base_type_invalid_encoding() {
    let e = base_type_entry(1, "u8", 1, 2);
    assert_eq!(from_base_type(&e, &Vec::new()), Err(ExtractError::InvalidEncoding));
}

#[test]
fn base_type_name_not_text() {
    let e = leaf(1, Tag::BaseType, vec![attr(AttrName::Name, AttrValue::Unsigned(3))]);
    assert_eq!(from_base_type(&e, &Vec::new()), Err(ExtractError::NameNotText));
}

#[test]
fn pointer_type_ok_and_missing() {
    let e = leaf(
        2,
        Tag::PointerType,
        vec![attr(AttrName::Name, text("&u8")), attr(AttrName::TypeRef, AttrValue::EntryRef(9))],
    );
    let pt = from_pointer_type(&e, &Vec::new()).unwrap();
    assert_eq!(pt.name, "&u8");
    assert_eq!(pt.type_index, 9);

    let e = leaf(2, Tag::PointerType, vec![attr(AttrName::Name, text("&u8"))]);
    assert_eq!(from_pointer_type(&e, &Vec::new()), Err(ExtractError::MissingTypeRef));

    let e = leaf(
        2,
        Tag::PointerType,
        vec![attr(AttrName::Name, text("&u8")), attr(AttrName::TypeRef, AttrValue::Flag(true))],
    );
    assert_eq!(from_pointer_type(&e, &Vec::new()), Err(ExtractError::TypeRefNotRef));
}

#[test]
fn structure_missing_alignment() {
    let e = leaf(
        3,
        Tag::StructureType,
        vec![attr(AttrName::Name, text("P")), attr(AttrName::ByteSize, AttrValue::Unsigned(8))],
    );
    assert_eq!(from_structure_type(&e, &Vec::new()), Err(ExtractError::MissingAlignment));
}

#[test]
fn member_missing_location() {
    let e = leaf(
        4,
        Tag::Member,
        vec![
            attr(AttrName::Name, text("x")),
            attr(AttrName::TypeRef, AttrValue::EntryRef(1)),
            attr(AttrName::Alignment, AttrValue::Unsigned(4)),
        ],
    );
    assert_eq!(member_from_entry(&e), Err(ExtractError::MissingMemberLocation));
}

#[test]
fn subprogram_without_external_flag_is_excluded() {
    let e = leaf(
        5,
        Tag::Subprogram,
        vec![attr(AttrName::LinkageName, text("_ZN5mylib5helloE"))],
    );
    assert_eq!(from_subprogram(&e, &Vec::new()), Ok(None));
}

#[test]
fn subprogram_with_false_external_flag_is_excluded() {
    let e = leaf(
        5,
        Tag::Subprogram,
        vec![
            attr(AttrName::External, AttrValue::Flag(false)),
            attr(AttrName::LinkageName, text("_ZN5mylib5helloE")),
        ],
    );
    assert_eq!(from_subprogram(&e, &Vec::new()), Ok(None));
}

#[test]
fn subprogram_missing_linkage_name_is_an_error() {
    let e = leaf(
        42,
        Tag::Subprogram,
        vec![attr(AttrName::External, AttrValue::Flag(true))],
    );
    assert_eq!(
        from_subprogram(&e, &Vec::new()),
        Err(ExtractError::MissingLinkageName { offset: 42 })
    );
}

#[test]
fn subprogram_with_internal_prefix_is_excluded() {
    // Demangles to a name under `core::`, which the classifier rejects even
    // though the external flag is set.
    let e = leaf(
        5,
        Tag::Subprogram,
        vec![
            attr(AttrName::External, AttrValue::Flag(true)),
            attr(AttrName::LinkageName, text("_ZN4core9panicking5panicE")),
        ],
    );
    assert_eq!(from_subprogram(&e, &Vec::new()), Ok(None));
}

#[test]
fn subprogram_demangles_linkage_name() {
    let e = leaf(
        5,
        Tag::Subprogram,
        vec![
            attr(AttrName::External, AttrValue::Flag(true)),
            attr(AttrName::Name, text("hello")),
            attr(AttrName::LinkageName, text("_ZN5mylib5helloE")),
        ],
    );
    let f = from_subprogram(&e, &Vec::new()).unwrap().unwrap();
    assert_eq!(f.full_name, "mylib::hello");
    assert_eq!(f.linkage_name, "_ZN5mylib5helloE");
    assert_eq!(f.name.as_deref(), Some("hello"));
    assert!(f.arguments.is_empty());
    assert_eq!(f.ret_type_index, None);
}

#[test]
fn function_arguments_keep_declaration_order() {
    let params = vec![
        leaf(
            10,
            Tag::FormalParameter,
            vec![attr(AttrName::Name, text("a")), attr(AttrName::TypeRef, AttrValue::EntryRef(1))],
        ),
        leaf(
            11,
            Tag::FormalParameter,
            vec![attr(AttrName::TypeRef, AttrValue::EntryRef(2))],
        ),
        leaf(
            12,
            Tag::FormalParameter,
            vec![attr(AttrName::Name, text("c")), attr(AttrName::TypeRef, AttrValue::EntryRef(3))],
        ),
    ];
    let sub = node(
        9,
        Tag::Subprogram,
        vec![
            attr(AttrName::External, AttrValue::Flag(true)),
            attr(AttrName::LinkageName, text("_ZN5mylib3addE")),
        ],
        params,
    );
    let items = get_items(&vec![rust_unit(vec![sub])]);
    assert_eq!(items.len(), 1);
    let (offset, item) = &items[0];
    assert_eq!(*offset, 9);
    match item {
        Item::Function(f) => {
            assert_eq!(
                f.arguments,
                vec![
                    (Some(String::from("a")), 1),
                    (None, 2),
                    (Some(String::from("c")), 3),
                ]
            );
        }
        other => panic!("expected a function, got {:?}", other),
    }
}

#[test]
fn parameter_missing_type_drops_whole_function() {
    let params = vec![
        leaf(
            10,
            Tag::FormalParameter,
            vec![attr(AttrName::Name, text("a")), attr(AttrName::TypeRef, AttrValue::EntryRef(1))],
        ),
        leaf(11, Tag::FormalParameter, vec![attr(AttrName::Name, text("b"))]),
    ];
    let sub = node(
        9,
        Tag::Subprogram,
        vec![
            attr(AttrName::External, AttrValue::Flag(true)),
            attr(AttrName::LinkageName, text("_ZN5mylib3addE")),
        ],
        params,
    );
    let items = get_items(&vec![rust_unit(vec![sub])]);
    assert!(items.is_empty());
}

#[test]
fn sibling_survives_failing_entry() {
    let bad = leaf(1, Tag::BaseType, vec![attr(AttrName::Name, text("i32"))]);
    let good = base_type_entry(2, "u8", 1, 7);
    let ns = node(
        3,
        Tag::Namespace,
        vec![attr(AttrName::Name, text("mylib"))],
        vec![bad, good],
    );
    let items = get_items(&vec![rust_unit(vec![ns])]);
    assert_eq!(items.len(), 1);
    assert_eq!(items[0].0, 2);
    match &items[0].1 {
        Item::BaseType(bt) => {
            assert_eq!(bt.name, "u8");
            assert_eq!(bt.module, vec![String::from("mylib")]);
        }
        other => panic!("expected a base type, got {:?}", other),
    }
}

#[test]
fn module_stack_balanced_after_errors() {
    let bad_sub = leaf(
        9,
        Tag::Subprogram,
        vec![attr(AttrName::External, AttrValue::Flag(true))],
    );
    let ns = node(
        3,
        Tag::Namespace,
        vec![attr(AttrName::Name, text("mylib"))],
        vec![bad_sub],
    );
    let mut module: Vec<String> = Vec::new();
    let mut items: Vec<(usize, Item)> = Vec::new();
    let r = handle_node(&ns, &mut module, &mut items);
    assert!(r.is_ok());
    assert!(module.is_empty());
    assert!(items.is_empty());
}

#[test]
fn non_rust_unit_contributes_nothing() {
    let foreign = node(
        0,
        Tag::CompileUnit,
        vec![attr(AttrName::Language, AttrValue::Enumerator(2))],
        vec![base_type_entry(1, "int", 4, 5)],
    );
    let rust = rust_unit(vec![base_type_entry(2, "u8", 1, 7)]);
    let items = get_items(&vec![foreign, rust]);
    assert_eq!(items.len(), 1);
    assert_eq!(items[0].0, 2);
}

#[test]
fn end_to_end_scenario() {
    let i32_entry = base_type_entry(1, "i32", 4, 5);
    let f64_entry = base_type_entry(4, "f64", 8, 4);
    let ptr_entry = leaf(
        3,
        Tag::PointerType,
        vec![
            attr(AttrName::Name, text("&Point")),
            attr(AttrName::TypeRef, AttrValue::EntryRef(2)),
        ],
    );
    let method = node(
        5,
        Tag::Subprogram,
        vec![
            attr(AttrName::External, AttrValue::Flag(true)),
            attr(AttrName::Name, text("distance")),
            attr(AttrName::LinkageName, text("_ZN5mylib5Point8distanceE")),
            attr(AttrName::TypeRef, AttrValue::EntryRef(4)),
        ],
        vec![leaf(
            6,
            Tag::FormalParameter,
            vec![
                attr(AttrName::Name, text("self")),
                attr(AttrName::TypeRef, AttrValue::EntryRef(3)),
            ],
        )],
    );
    let member_x = leaf(
        7,
        Tag::Member,
        vec![
            attr(AttrName::Name, text("x")),
            attr(AttrName::TypeRef, AttrValue::EntryRef(1)),
            attr(AttrName::MemberLocation, AttrValue::Unsigned(0)),
            attr(AttrName::Alignment, AttrValue::Unsigned(4)),
        ],
    );
    let member_y = leaf(
        8,
        Tag::Member,
        vec![
            attr(AttrName::Name, text("y")),
            attr(AttrName::TypeRef, AttrValue::EntryRef(1)),
            attr(AttrName::MemberLocation, AttrValue::Unsigned(4)),
            attr(AttrName::Alignment, AttrValue::Unsigned(4)),
        ],
    );
    let point = node(
        2,
        Tag::StructureType,
        vec![
            attr(AttrName::Name, text("Point")),
            attr(AttrName::ByteSize, AttrValue::Unsigned(8)),
            attr(AttrName::Alignment, AttrValue::Unsigned(4)),
        ],
        vec![member_x, member_y, method],
    );
    let ns = node(
        9,
        Tag::Namespace,
        vec![attr(AttrName::Name, text("mylib"))],
        vec![i32_entry, ptr_entry, f64_entry, point],
    );
    let items = get_items(&vec![rust_unit(vec![ns])]);

    let offsets: Vec<usize> = items.iter().map(|(o, _)| *o).collect();
    assert_eq!(offsets, vec![1, 3, 4, 5, 2]);

    match &items[0].1 {
        Item::BaseType(bt) => {
            assert_eq!(bt.name, "i32");
            assert_eq!(bt.size, 4);
            assert_eq!(bt.kind, dwarffi::item::BaseTypeKind::SignedInt);
        }
        other => panic!("expected i32, got {:?}", other),
    }
    match &items[2].1 {
        Item::BaseType(bt) => {
            assert_eq!(bt.name, "f64");
            assert_eq!(bt.kind, dwarffi::item::BaseTypeKind::Float);
        }
        other => panic!("expected f64, got {:?}", other),
    }
    match &items[3].1 {
        Item::Function(f) => {
            assert_eq!(f.full_name, "mylib::Point::distance");
            assert_eq!(f.module, vec![String::from("mylib"), String::from("Point")]);
            assert_eq!(f.arguments, vec![(Some(String::from("self")), 3)]);
            assert_eq!(f.ret_type_index, Some(4));
        }
        other => panic!("expected the method, got {:?}", other),
    }
    match &items[4].1 {
        Item::Structure(s) => {
            assert_eq!(s.name, "Point");
            assert_eq!(s.module, vec![String::from("mylib")]);
            assert_eq!(s.size, 8);
            assert_eq!(s.alignment, 4);
            assert_eq!(s.members.len(), 2);
            assert_eq!(s.members[0].name, "x");
            assert_eq!(s.members[0].offset, 0);
            assert_eq!(s.members[0].type_index, 1);
            assert_eq!(s.members[1].name, "y");
            assert_eq!(s.members[1].offset, 4);
        }
        other => panic!("expected the structure, got {:?}", other),
    }
}

#[test]
fn unnamed_namespace_does_not_scope() {
    let ns = node(3, Tag::Namespace, vec![], vec![base_type_entry(1, "u8", 1, 7)]);
    let items = get_items(&vec![rust_unit(vec![ns])]);
    assert_eq!(items.len(), 1);
    match &items[0].1 {
        Item::BaseType(bt) => assert!(bt.module.is_empty()),
        other => panic!("expected a base type, got {:?}", other),
    }
}

#[test]
fn unknown_tag_produces_nothing() {
    let odd = leaf(1, Tag::Other, vec![attr(AttrName::Name, text("whatever"))]);
    let items = get_items(&vec![rust_unit(vec![odd])]);
    assert!(items.is_empty());
}

#[test]
fn empty_unit_list_gives_empty_output() {
    let items = get_items(&Vec::new());
    assert!(items.is_empty());
}

#[test]
fn failing_member_drops_structure_but_keeps_methods() {
    let method = node(
        5,
        Tag::Subprogram,
        vec![
            attr(AttrName::External, AttrValue::Flag(true)),
            attr(AttrName::LinkageName, text("_ZN5mylib5Point3newE")),
        ],
        vec![],
    );
    let bad_member = leaf(7, Tag::Member, vec![attr(AttrName::Name, text("x"))]);
    let point = node(
        2,
        Tag::StructureType,
        vec![
            attr(AttrName::Name, text("Point")),
            attr(AttrName::ByteSize, AttrValue::Unsigned(8)),
            attr(AttrName::Alignment, AttrValue::Unsigned(4)),
        ],
        vec![method, bad_member],
    );
    let items = get_items(&vec![rust_unit(vec![point])]);
    // The method was already emitted; the structure itself is dropped.
    assert_eq!(items.len(), 1);
    assert_eq!(items[0].0, 5);
    match &items[0].1 {
        Item::Function(f) => {
            assert_eq!(f.full_name, "mylib::Point::new");
            assert_eq!(f.module, vec![String::from("Point")]);
        }
        other => panic!("expected the method, got {:?}", other),
    }
}
