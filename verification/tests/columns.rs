use spacetime_bindings_macro_input::column::MAX_COLUMNS;
use spacetime_bindings_macro_input::error::{Category, ErrorKind, Form};
use spacetime_bindings_macro_input::sym::Key;
use spacetime_bindings_macro_input::syntax::{
    AttrArgs, Attribute, Field, Ident, Item, ItemData, Meta, Path, Span, Tokens,
};
use spacetime_bindings_macro_input::table::{
    ColumnArgs, ColumnAttr, IndexArg, IndexType, TableArgs,
};

fn sp(n: usize) -> Span {
    Span { start: n, end: n }
}

fn field(name: &str, ty: &str, attrs: Vec<Attribute>) -> Field {
    Field {
        ident: Ident::new(name, sp(10)),
        vis: Tokens::new("pub", sp(11)),
        ty: Tokens::new(ty, sp(12)),
        attrs,
    }
}

fn item(fields: Vec<Field>) -> Item {
    Item {
        ident: Ident::new("Person", sp(1)),
        attrs: vec![],
        data: ItemData::Struct(fields),
        span: sp(999),
    }
}

fn table(indices: Vec<IndexArg>) -> TableArgs {
    TableArgs {
        access: None,
        scheduled: None,
        accessor: Ident::new("people", sp(2)),
        indices,
        event: None,
    }
}

fn flag(name: &str, n: usize) -> Attribute {
    Attribute::flag(name, sp(n))
}

fn many_fields(count: usize) -> Vec<Field> {
    (0..count).map(|i| field(&format!("f{}", i), "u8", vec![])).collect()
}

#[test]
fn columns_follow_the_fields_in_order() {
    let item = item(vec![
        field("id", "u64", vec![]),
        field("name", "String", vec![]),
        field("age", "u8", vec![]),
    ]);
    let (table, columns) = ColumnArgs::parse(table(vec![]), &item).unwrap();
    assert_eq!(columns.original_struct_name, Ident::new("Person", sp(1)));
    assert_eq!(columns.fields.len(), 3);
    assert_eq!(columns.columns.len(), 3);
    for (i, name) in ["id", "name", "age"].iter().enumerate() {
        assert_eq!(columns.columns[i].index as usize, i);
        assert_eq!(columns.columns[i].ident.name, *name);
        assert_eq!(columns.columns[i].vis.text, "pub");
        assert_eq!(columns.columns[i].default_value, None);
    }
    assert_eq!(columns.columns[0].ty.text, "u64");
    assert_eq!(columns.columns[1].ty.text, "String");
    assert!(columns.unique_columns.is_empty());
    assert!(columns.sequenced_columns.is_empty());
    assert_eq!(columns.primary_key_column, None);
    assert!(table.indices.is_empty());
    assert_eq!(table.accessor.name, "people");
}

#[test]
fn struct_without_fields_has_no_columns() {
    let item = item(vec![]);
    let (_, columns) = ColumnArgs::parse(table(vec![]), &item).unwrap();
    assert!(columns.columns.is_empty());
}

#[test]
fn parsing_twice_gives_the_same_columns() {
    let item = item(vec![
        field("id", "u64", vec![flag("primary_key", 1), flag("auto_inc", 2)]),
        field("name", "String", vec![flag("unique", 3)]),
    ]);
    let first = ColumnArgs::parse(table(vec![]), &item).unwrap();
    let second = ColumnArgs::parse(table(vec![]), &item).unwrap();
    assert_eq!(first, second);
}

#[test]
fn table_with_the_most_columns_is_accepted() {
    assert_eq!(MAX_COLUMNS, 65536);
    let item = item(many_fields(65536));
    let (_, columns) = ColumnArgs::parse(table(vec![]), &item).unwrap();
    assert_eq!(columns.columns.len(), 65536);
    assert_eq!(columns.columns[0].index, 0);
    assert_eq!(columns.columns[65535].index, 65535);
    assert_eq!(columns.columns[65535].ident.name, "f65535");
}

#[test]
fn table_with_one_column_too_many_is_rejected() {
    let item = item(many_fields(65537));
    let error = ColumnArgs::parse(table(vec![]), &item).unwrap_err();
    assert_eq!(error.kind, ErrorKind::TooManyColumns);
    assert_eq!(error.span, sp(999));
    assert_eq!(error.message(), "too many columns; the most a table can have is 2^16");
    assert_eq!(error.kind.category(), Category::ConflictingCardinality);
}

#[test]
fn too_many_columns_is_found_before_the_fields_are_read() {
    let mut fields = many_fields(65537);
    fields[0].attrs.push(flag("unique", 1));
    fields[0].attrs.push(flag("unique", 2));
    let error = ColumnArgs::parse(table(vec![]), &item(fields)).unwrap_err();
    assert_eq!(error.kind, ErrorKind::TooManyColumns);
}

#[test]
fn only_a_struct_with_named_fields_is_a_table() {
    for data in [ItemData::Enum, ItemData::Tuple, ItemData::Union] {
        let item = Item { ident: Ident::new("Shape", sp(1)), attrs: vec![], data, span: sp(9) };
        let error = ColumnArgs::parse(table(vec![]), &item).unwrap_err();
        assert_eq!(error.kind, ErrorKind::NotAStruct);
        assert_eq!(error.span, Span::call_site());
        assert_eq!(error.message(), "spacetimedb table must be a struct");
        assert!(error.message().contains("table must be a struct"));
        assert_eq!(error.kind.category(), Category::StructuralShape);
    }
}

#[test]
fn primary_key_is_unique_and_gets_a_btree_index() {
    let item = item(vec![
        field("id", "u64", vec![flag("primary_key", 1)]),
        field("name", "String", vec![]),
    ]);
    let (table, columns) = ColumnArgs::parse(table(vec![]), &item).unwrap();
    assert_eq!(columns.unique_columns.len(), 1);
    assert_eq!(columns.unique_columns[0], columns.columns[0]);
    assert_eq!(columns.primary_key_column, Some(columns.columns[0].clone()));
    assert_eq!(table.indices.len(), 1);
    assert_eq!(table.indices[0].accessor, Ident::new("id", sp(10)));
    assert!(table.indices[0].is_unique);
    assert_eq!(table.indices[0].kind, IndexType::BTree { columns: vec![Ident::new("id", sp(10))] });
}

#[test]
fn unique_and_primary_key_together_list_the_column_once() {
    let item = item(vec![field("id", "u64", vec![flag("unique", 1), flag("primary_key", 2)])]);
    let (table, columns) = ColumnArgs::parse(table(vec![]), &item).unwrap();
    assert_eq!(columns.unique_columns.len(), 1);
    assert_eq!(columns.primary_key_column, Some(columns.columns[0].clone()));
    assert_eq!(table.indices.len(), 1);
}

#[test]
fn two_primary_keys_are_rejected() {
    let item = item(vec![
        field("a", "u64", vec![flag("primary_key", 1)]),
        field("b", "u64", vec![]),
        field("c", "u64", vec![flag("primary_key", 2)]),
    ]);
    let error = ColumnArgs::parse(table(vec![]), &item).unwrap_err();
    assert_eq!(error.kind, ErrorKind::MultiplePrimaryKeys);
    assert_eq!(error.span, sp(2));
    assert_eq!(error.message(), "can only have one primary key per table");
    assert_eq!(error.kind.category(), Category::ConflictingCardinality);
}

#[test]
fn primary_key_twice_on_one_field_is_a_duplicate() {
    let item = item(vec![field("a", "u64", vec![flag("primary_key", 1), flag("primary_key", 2)])]);
    let error = ColumnArgs::parse(table(vec![]), &item).unwrap_err();
    assert_eq!(error.kind, ErrorKind::Duplicate(Key::PrimaryKey));
    assert_eq!(error.span, sp(2));
    assert_eq!(error.message(), "already specified primary_key");
}

#[test]
fn unique_twice_on_one_field_is_a_duplicate() {
    let item = item(vec![field("a", "u64", vec![flag("unique", 1), flag("unique", 2)])]);
    let error = ColumnArgs::parse(table(vec![]), &item).unwrap_err();
    assert_eq!(error.kind, ErrorKind::Duplicate(Key::Unique));
    assert_eq!(error.span, sp(2));
    assert_eq!(error.message(), "already specified unique");
    assert_eq!(error.kind.category(), Category::DuplicateOption);
}

#[test]
fn unique_on_two_fields_is_no_duplicate() {
    let item = item(vec![
        field("a", "u64", vec![flag("unique", 1)]),
        field("b", "u64", vec![flag("unique", 2)]),
    ]);
    let (table, columns) = ColumnArgs::parse(table(vec![]), &item).unwrap();
    assert_eq!(columns.unique_columns.len(), 2);
    assert_eq!(columns.unique_columns[0].ident.name, "a");
    assert_eq!(columns.unique_columns[1].ident.name, "b");
    assert_eq!(columns.unique_columns[1].index, 1);
    assert_eq!(table.indices.len(), 2);
    assert_eq!(table.indices[0].accessor.name, "a");
    assert_eq!(table.indices[1].accessor.name, "b");
}

#[test]
fn auto_inc_lists_the_column_as_sequenced() {
    let item = item(vec![
        field("a", "u64", vec![]),
        field("b", "u64", vec![flag("auto_inc", 1)]),
    ]);
    let (table, columns) = ColumnArgs::parse(table(vec![]), &item).unwrap();
    assert_eq!(columns.sequenced_columns.len(), 1);
    assert_eq!(columns.sequenced_columns[0], columns.columns[1]);
    assert!(columns.unique_columns.is_empty());
    assert!(table.indices.is_empty());
}

#[test]
fn auto_inc_twice_on_one_field_is_a_duplicate() {
    let item = item(vec![field("a", "u64", vec![flag("auto_inc", 1), flag("auto_inc", 2)])]);
    let error = ColumnArgs::parse(table(vec![]), &item).unwrap_err();
    assert_eq!(error.kind, ErrorKind::Duplicate(Key::AutoInc));
    assert_eq!(error.message(), "already specified auto_inc");
}

#[test]
fn default_value_is_kept_with_the_column() {
    let default = Attribute::expr("default", Tokens::new("1 + 2", sp(5)), sp(6));
    let item = item(vec![field("a", "u64", vec![default])]);
    let (_, columns) = ColumnArgs::parse(table(vec![]), &item).unwrap();
    assert_eq!(columns.columns[0].default_value, Some(Tokens::new("1 + 2", sp(5))));
}

#[test]
fn default_twice_on_one_field_is_a_duplicate() {
    let default = |n| Attribute::expr("default", Tokens::new("0", sp(5)), sp(n));
    let item = item(vec![field("a", "u64", vec![default(1), default(2)])]);
    let error = ColumnArgs::parse(table(vec![]), &item).unwrap_err();
    assert_eq!(error.kind, ErrorKind::Duplicate(Key::DefaultValue));
    assert_eq!(error.span, sp(2));
    assert_eq!(error.message(), "already specified default");
}

#[test]
fn index_on_a_field_is_added_to_the_table() {
    let declared = IndexArg::new(
        Ident::new("by_name", sp(3)),
        IndexType::BTree { columns: vec![Ident::new("name", sp(3))] },
    );
    let item = item(vec![
        field("id", "u64", vec![Attribute::list("index", vec![Meta::flag("direct", sp(1))], sp(2))]),
        field("name", "String", vec![]),
        field("age", "u8", vec![Attribute::list("index", vec![Meta::flag("hash", sp(4))], sp(5))]),
    ]);
    let (table, columns) = ColumnArgs::parse(table(vec![declared]), &item).unwrap();
    assert!(columns.unique_columns.is_empty());
    assert_eq!(table.indices.len(), 3);
    assert_eq!(table.indices[0].accessor.name, "by_name");
    assert_eq!(table.indices[1].accessor.name, "id");
    assert_eq!(table.indices[1].kind, IndexType::Direct { column: Ident::new("id", sp(10)) });
    assert_eq!(table.indices[2].accessor.name, "age");
    assert_eq!(table.indices[2].kind, IndexType::Hash { columns: vec![Ident::new("age", sp(10))] });
    assert!(table.indices.iter().all(|index| !index.is_unique));
}

#[test]
fn index_on_a_unique_field_becomes_unique() {
    let item = item(vec![field(
        "id",
        "u64",
        vec![flag("unique", 1), Attribute::list("index", vec![Meta::flag("hash", sp(2))], sp(3))],
    )]);
    let (table, _) = ColumnArgs::parse(table(vec![]), &item).unwrap();
    assert_eq!(table.indices.len(), 1);
    assert!(table.indices[0].is_unique);
    assert_eq!(table.indices[0].kind, IndexType::Hash { columns: vec![Ident::new("id", sp(10))] });
}

#[test]
fn other_attributes_are_left_alone() {
    let doc = Attribute {
        path: Path::from_ident(Ident::new("doc", sp(1))),
        args: AttrArgs::Value(Tokens::new("\"The name.\"", sp(2))),
        span: sp(3),
    };
    let long = Attribute {
        path: Path { segments: vec![Ident::new("serde", sp(1)), Ident::new("unique", sp(1))], span: sp(1) },
        args: AttrArgs::Bare,
        span: sp(1),
    };
    let item = item(vec![field("name", "String", vec![doc, long, flag("public", 4)])]);
    let (table, columns) = ColumnArgs::parse(table(vec![]), &item).unwrap();
    assert!(columns.unique_columns.is_empty());
    assert!(table.indices.is_empty());
}

#[test]
fn first_error_among_the_fields_wins() {
    let item = item(vec![
        field("a", "u64", vec![flag("primary_key", 1)]),
        field("b", "u64", vec![flag("unique", 2), flag("unique", 3), flag("primary_key", 4)]),
    ]);
    let error = ColumnArgs::parse(table(vec![]), &item).unwrap_err();
    assert_eq!(error.kind, ErrorKind::Duplicate(Key::Unique));
    assert_eq!(error.span, sp(3));
}

#[test]
fn column_attr_reads_each_kind() {
    let field = Ident::new("id", sp(9));
    assert_eq!(ColumnAttr::parse(&flag("unique", 1), &field), Ok(Some(ColumnAttr::Unique(sp(1)))));
    assert_eq!(ColumnAttr::parse(&flag("auto_inc", 2), &field), Ok(Some(ColumnAttr::AutoInc(sp(2)))));
    assert_eq!(
        ColumnAttr::parse(&flag("primary_key", 3), &field),
        Ok(Some(ColumnAttr::PrimaryKey(sp(3))))
    );
    let default = Attribute::expr("default", Tokens::new("7", sp(4)), sp(5));
    assert_eq!(
        ColumnAttr::parse(&default, &field),
        Ok(Some(ColumnAttr::Default(Tokens::new("7", sp(4)), sp(5))))
    );
    let index = Attribute::list("index", vec![Meta::flag("btree", sp(6))], sp(7));
    assert_eq!(
        ColumnAttr::parse(&index, &field),
        Ok(Some(ColumnAttr::Index(IndexArg::new(
            Ident::new("id", sp(9)),
            IndexType::BTree { columns: vec![Ident::new("id", sp(9))] }
        ))))
    );
    assert_eq!(ColumnAttr::parse(&flag("doc", 8), &field), Ok(None));
}

#[test]
fn column_attr_takes_its_place_from_the_name() {
    let attr = Attribute {
        path: Path { segments: vec![Ident::new("unique", sp(21))], span: sp(22) },
        args: AttrArgs::Bare,
        span: sp(23),
    };
    let field = Ident::new("id", sp(9));
    assert_eq!(ColumnAttr::parse(&attr, &field), Ok(Some(ColumnAttr::Unique(sp(21)))));
}

#[test]
fn constraint_takes_no_argument() {
    let field = Ident::new("id", sp(9));
    for name in ["unique", "auto_inc", "primary_key"] {
        let attr = Attribute::list(name, vec![], sp(3));
        let error = ColumnAttr::parse(&attr, &field).unwrap_err();
        assert_eq!(error.kind, ErrorKind::Expected(Form::Nothing));
        assert_eq!(error.span, sp(3));
        assert_eq!(error.message(), "unexpected token in attribute");
    }
    let attr = Attribute {
        path: Path::from_ident(Ident::new("unique", sp(1))),
        args: AttrArgs::Value(Tokens::new("true", sp(2))),
        span: sp(3),
    };
    let error = ColumnAttr::parse(&attr, &field).unwrap_err();
    assert_eq!(error.kind, ErrorKind::Expected(Form::Nothing));
}

#[test]
fn default_needs_an_expression_in_parentheses() {
    let field = Ident::new("id", sp(9));
    let error = ColumnAttr::parse(&flag("default", 1), &field).unwrap_err();
    assert_eq!(error.kind, ErrorKind::Expected(Form::Parens));

    let attr = Attribute {
        path: Path::from_ident(Ident::new("default", sp(1))),
        args: AttrArgs::List { metas: Some(vec![]), expr: None },
        span: sp(3),
    };
    let error = ColumnAttr::parse(&attr, &field).unwrap_err();
    assert_eq!(error.kind, ErrorKind::Expected(Form::Expression));
    assert_eq!(error.message(), "expected an expression");
}

#[test]
fn default_may_read_as_options_too() {
    let attr = Attribute {
        path: Path::from_ident(Ident::new("default", sp(1))),
        args: AttrArgs::List {
            metas: Some(vec![Meta::flag("x", sp(2))]),
            expr: Some(Tokens::new("x", sp(2))),
        },
        span: sp(3),
    };
    let field = Ident::new("id", sp(9));
    assert_eq!(
        ColumnAttr::parse(&attr, &field),
        Ok(Some(ColumnAttr::Default(Tokens::new("x", sp(2)), sp(1))))
    );
}

#[test]
fn table_options_are_kept() {
    let input = vec![Meta::flag("public", sp(1)), Meta::ident_value("accessor", "people", sp(2)), Meta::flag("event", sp(3))];
    let item = item(vec![field("id", "u64", vec![flag("primary_key", 4)])]);
    let parsed = TableArgs::parse(&input, &item).unwrap();
    let access = parsed.access;
    let (table, _) = ColumnArgs::parse(parsed, &item).unwrap();
    assert_eq!(table.access, access);
    assert_eq!(table.accessor, Ident::new("people", sp(2)));
    assert_eq!(table.event, Some(()));
    assert_eq!(table.scheduled, None);
}
