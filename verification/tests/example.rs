use spacetime_bindings_macro_input::error::{Category, ErrorKind, Form};
use spacetime_bindings_macro_input::example::{get_table_attribute_macro, Entity, Timestamp};
use spacetime_bindings_macro_input::syntax::{
    AttrArgs, Attribute, Ident, Item, ItemData, Meta, Path, Span, Tokens,
};
use spacetime_bindings_macro_input::table::{ColumnArgs, IndexType, TableArgs};

fn sp(n: usize) -> Span {
    Span { start: n, end: n }
}

fn item_with(attrs: Vec<Attribute>) -> Item {
    Item { ident: Ident::new("T", sp(0)), attrs, data: ItemData::Struct(vec![]), span: sp(0) }
}

#[test]
fn entity_without_accessor_is_told_to_add_one() {
    let item = Entity::item();
    let options = get_table_attribute_macro(&item, "table").unwrap();
    let error = TableArgs::parse(options, &item).unwrap_err();
    assert_eq!(error.kind, ErrorKind::MissingTableAccessor);
    assert_eq!(error.kind.category(), Category::MissingRequiredOption);
    assert_eq!(error.span, Span::call_site());
    assert_eq!(error.detail, "entity");
    assert_eq!(
        error.message(),
        "must specify table accessor, e.g. `#[spacetimedb::table(accessor = entity)]"
    );
}

#[test]
fn entity_declaration() {
    let item = Entity::item();
    assert_eq!(item.ident.name, "Entity");
    assert_eq!(item.attrs.len(), 1);
    assert_eq!(item.attrs[0].path.segments[0].name, "table");
    let ItemData::Struct(fields) = &item.data else {
        panic!("the example is a struct");
    };
    assert_eq!(fields.len(), 2);
    assert_eq!(fields[0].ident.name, "id");
    assert_eq!(fields[0].ty.text, "u128");
    assert_eq!(fields[0].attrs.len(), 2);
    assert_eq!(fields[0].attrs[0], Attribute::flag("primary_key", Span::call_site()));
    assert_eq!(fields[0].attrs[1], Attribute::flag("auto_inc", Span::call_site()));
    assert_eq!(fields[1].ident.name, "created_at");
    assert_eq!(fields[1].ty.text, "Timestamp");
    assert!(fields[1].attrs.is_empty());
}

#[test]
fn entity_table_options() {
    let options = Entity::table_options();
    assert_eq!(
        options,
        vec![
            Meta::ident_value("name", "entity", Span::call_site()),
            Meta::flag("public", Span::call_site()),
        ]
    );
}

#[test]
fn entity_with_an_accessor_is_a_table() {
    let item = Entity::item();
    let mut options = Entity::table_options();
    options.push(Meta::ident_value("accessor", "entity", sp(1)));
    let table = TableArgs::parse(&options, &item).unwrap();
    let (table, columns) = ColumnArgs::parse(table, &item).unwrap();
    assert_eq!(columns.original_struct_name.name, "Entity");
    assert_eq!(columns.columns.len(), 2);
    assert_eq!(columns.columns[0].index, 0);
    assert_eq!(columns.columns[1].index, 1);
    assert_eq!(columns.unique_columns.len(), 1);
    assert_eq!(columns.unique_columns[0].ident.name, "id");
    assert_eq!(columns.sequenced_columns.len(), 1);
    assert_eq!(columns.sequenced_columns[0].ident.name, "id");
    assert_eq!(columns.primary_key_column.as_ref().unwrap().ident.name, "id");
    assert_eq!(table.indices.len(), 1);
    assert!(table.indices[0].is_unique);
    assert_eq!(table.indices[0].accessor.name, "id");
    assert_eq!(
        table.indices[0].kind,
        IndexType::BTree { columns: vec![Ident::new("id", Span::call_site())] }
    );
}

#[test]
fn entity_is_a_plain_record() {
    let entity = Entity { id: 7, created_at: Timestamp { micros: 1_000_000 } };
    assert_eq!(entity.id, 7);
    assert_eq!(entity.created_at.micros, 1_000_000);
}

#[test]
fn attribute_that_is_missing() {
    let error = get_table_attribute_macro(&item_with(vec![]), "table").unwrap_err();
    assert_eq!(error.kind, ErrorKind::MissingAttribute);
    assert_eq!(error.span, Span::call_site());
    assert_eq!(error.message(), "Haven't found #[table] attribute macro!");

    let other = Attribute::list("derive", vec![Meta::flag("Clone", sp(1))], sp(2));
    let error = get_table_attribute_macro(&item_with(vec![other]), "table").unwrap_err();
    assert_eq!(error.kind, ErrorKind::MissingAttribute);
    assert_eq!(error.detail, "table");
}

#[test]
fn attribute_without_parentheses_does_not_count() {
    let bare = Attribute::flag("table", sp(1));
    let valued = Attribute {
        path: Path::from_ident(Ident::new("table", sp(2))),
        args: AttrArgs::Value(Tokens::new("x", sp(2))),
        span: sp(2),
    };
    let error = get_table_attribute_macro(&item_with(vec![bare, valued]), "table").unwrap_err();
    assert_eq!(error.kind, ErrorKind::MissingAttribute);
}

#[test]
fn last_attribute_of_the_name_is_taken() {
    let first = Attribute::list("table", vec![Meta::flag("public", sp(1))], sp(2));
    let between = Attribute::flag("table", sp(3));
    let last = Attribute::list("table", vec![Meta::flag("private", sp(4))], sp(5));
    let after = Attribute::list("other", vec![Meta::flag("event", sp(6))], sp(7));
    let item = item_with(vec![first, between, last, after]);
    let options = get_table_attribute_macro(&item, "table").unwrap();
    assert_eq!(options, &vec![Meta::flag("private", sp(4))]);
    let options = get_table_attribute_macro(&item, "other").unwrap();
    assert_eq!(options, &vec![Meta::flag("event", sp(6))]);
}

#[test]
fn attribute_under_a_longer_path_does_not_count() {
    let attr = Attribute {
        path: Path {
            segments: vec![Ident::new("spacetimedb", sp(1)), Ident::new("table", sp(2))],
            span: sp(3),
        },
        args: AttrArgs::List { metas: Some(vec![]), expr: None },
        span: sp(4),
    };
    let error = get_table_attribute_macro(&item_with(vec![attr]), "table").unwrap_err();
    assert_eq!(error.kind, ErrorKind::MissingAttribute);
}

#[test]
fn attribute_whose_tokens_are_no_options() {
    let attr = Attribute::expr("table", Tokens::new("1 + 2", sp(1)), sp(2));
    let error = get_table_attribute_macro(&item_with(vec![attr]), "table").unwrap_err();
    assert_eq!(error.kind, ErrorKind::Expected(Form::Options));
    assert_eq!(error.span, sp(2));
}
