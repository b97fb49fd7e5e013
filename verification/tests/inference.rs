use spacetime_bindings_macro_input::infer::{ensure_unique_index, infer_unique_indices};
use spacetime_bindings_macro_input::syntax::{Attribute, Field, Ident, Item, ItemData, Meta, Span, Tokens};
use spacetime_bindings_macro_input::table::{Column, ColumnArgs, IndexArg, IndexType, TableArgs};

fn sp(n: usize) -> Span {
    Span { start: n, end: n }
}

fn idents(names: &[&str]) -> Vec<Ident> {
    names.iter().map(|name| Ident::new(name, sp(7))).collect()
}

fn btree(accessor: &str, columns: &[&str]) -> IndexArg {
    IndexArg::new(Ident::new(accessor, sp(1)), IndexType::BTree { columns: idents(columns) })
}

fn hash(accessor: &str, columns: &[&str]) -> IndexArg {
    IndexArg::new(Ident::new(accessor, sp(1)), IndexType::Hash { columns: idents(columns) })
}

fn direct(accessor: &str, column: &str) -> IndexArg {
    IndexArg::new(Ident::new(accessor, sp(1)), IndexType::Direct { column: Ident::new(column, sp(7)) })
}

fn unique(index: IndexArg) -> IndexArg {
    IndexArg { is_unique: true, ..index }
}

fn added(column: &str) -> IndexArg {
    IndexArg {
        accessor: Ident::new(column, sp(10)),
        is_unique: true,
        kind: IndexType::BTree { columns: vec![Ident::new(column, sp(10))] },
    }
}

struct Parts {
    vis: Tokens,
    ty: Tokens,
    idents: Vec<Ident>,
}

fn parts(names: &[&str]) -> Parts {
    Parts {
        vis: Tokens::new("", sp(0)),
        ty: Tokens::new("u64", sp(0)),
        idents: names.iter().map(|name| Ident::new(name, sp(10))).collect(),
    }
}

fn columns(parts: &Parts) -> Vec<Column<'_>> {
    parts
        .idents
        .iter()
        .enumerate()
        .map(|(i, ident)| Column { index: i as u16, vis: &parts.vis, ident, ty: &parts.ty, default_value: None })
        .collect()
}

#[test]
fn declared_hash_index_on_a_unique_column_is_marked() {
    let mut indices = vec![hash("idx1", &["a"])];
    let parts = parts(&["a"]);
    infer_unique_indices(&mut indices, &columns(&parts));
    assert_eq!(indices, vec![unique(hash("idx1", &["a"]))]);
}

#[test]
fn declared_index_is_marked_through_the_whole_parse() {
    let input = vec![
        Meta::ident_value("accessor", "t", sp(1)),
        Meta::group(
            "index",
            vec![
                Meta::ident_value("accessor", "idx1", sp(2)),
                Meta::group("hash", vec![Meta::list_value("columns", idents(&["a"]), sp(3))], sp(3)),
            ],
            sp(4),
        ),
    ];
    let item = Item {
        ident: Ident::new("T", sp(0)),
        attrs: vec![],
        data: ItemData::Struct(vec![Field {
            ident: Ident::new("a", sp(10)),
            vis: Tokens::new("", sp(0)),
            ty: Tokens::new("u64", sp(0)),
            attrs: vec![Attribute::flag("unique", sp(5))],
        }]),
        span: sp(0),
    };
    let table = TableArgs::parse(&input, &item).unwrap();
    assert!(!table.indices[0].is_unique);
    let (table, columns) = ColumnArgs::parse(table, &item).unwrap();
    assert_eq!(columns.unique_columns.len(), 1);
    assert_eq!(table.indices.len(), 1);
    assert_eq!(table.indices[0].accessor.name, "idx1");
    assert!(table.indices[0].is_unique);
    assert_eq!(table.indices[0].kind, IndexType::Hash { columns: idents(&["a"]) });
}

#[test]
fn unique_column_without_index_gets_one_btree_index() {
    let mut indices = vec![btree("by_a", &["a"])];
    let parts = parts(&["b"]);
    infer_unique_indices(&mut indices, &columns(&parts));
    assert_eq!(indices, vec![btree("by_a", &["a"]), added("b")]);
    assert_eq!(indices[1].accessor.name, "b");
    assert!(indices[1].is_unique);
}

#[test]
fn index_on_more_columns_does_not_count() {
    let mut indices = vec![btree("by_ab", &["a", "b"]), hash("by_ba", &["b", "a"])];
    let parts = parts(&["a"]);
    infer_unique_indices(&mut indices, &columns(&parts));
    assert_eq!(indices, vec![btree("by_ab", &["a", "b"]), hash("by_ba", &["b", "a"]), added("a")]);
}

#[test]
fn index_without_columns_does_not_count() {
    let mut indices = vec![btree("empty", &[])];
    let parts = parts(&["a"]);
    infer_unique_indices(&mut indices, &columns(&parts));
    assert_eq!(indices, vec![btree("empty", &[]), added("a")]);
}

#[test]
fn direct_index_counts() {
    let mut indices = vec![direct("by_a", "a")];
    let parts = parts(&["a"]);
    infer_unique_indices(&mut indices, &columns(&parts));
    assert_eq!(indices, vec![unique(direct("by_a", "a"))]);
}

#[test]
fn only_the_first_matching_index_is_marked() {
    let mut indices = vec![btree("x", &["b"]), hash("first", &["a"]), btree("second", &["a"])];
    let parts = parts(&["a"]);
    infer_unique_indices(&mut indices, &columns(&parts));
    assert_eq!(
        indices,
        vec![btree("x", &["b"]), unique(hash("first", &["a"])), btree("second", &["a"])]
    );
}

#[test]
fn columns_are_taken_in_order() {
    let mut indices = vec![direct("by_c", "c")];
    let parts = parts(&["b", "c", "a"]);
    infer_unique_indices(&mut indices, &columns(&parts));
    assert_eq!(indices, vec![unique(direct("by_c", "c")), added("b"), added("a")]);
}

#[test]
fn no_unique_columns_change_nothing() {
    let mut indices = vec![btree("by_a", &["a"])];
    infer_unique_indices(&mut indices, &vec![]);
    assert_eq!(indices, vec![btree("by_a", &["a"])]);
}

#[test]
fn same_name_twice_adds_one_index() {
    let mut indices = vec![];
    let parts = parts(&["a", "a"]);
    infer_unique_indices(&mut indices, &columns(&parts));
    assert_eq!(indices, vec![added("a")]);
}

#[test]
fn inference_run_again_changes_nothing() {
    let mut indices = vec![btree("by_ab", &["a", "b"]), hash("by_b", &["b"]), btree("again_b", &["b"])];
    let parts = parts(&["a", "b", "c"]);
    let unique_columns = columns(&parts);
    infer_unique_indices(&mut indices, &unique_columns);
    let once: Vec<IndexArg> = vec![
        btree("by_ab", &["a", "b"]),
        unique(hash("by_b", &["b"])),
        btree("again_b", &["b"]),
        added("a"),
        added("c"),
    ];
    assert_eq!(indices, once);
    infer_unique_indices(&mut indices, &unique_columns);
    assert_eq!(indices, once);
    infer_unique_indices(&mut indices, &unique_columns);
    assert_eq!(indices, once);
}

#[test]
fn one_column_at_a_time() {
    let mut indices = vec![hash("by_a", &["a"])];
    ensure_unique_index(&mut indices, &Ident::new("a", sp(10)));
    assert_eq!(indices, vec![unique(hash("by_a", &["a"]))]);
    ensure_unique_index(&mut indices, &Ident::new("b", sp(10)));
    assert_eq!(indices, vec![unique(hash("by_a", &["a"])), added("b")]);
    ensure_unique_index(&mut indices, &Ident::new("b", sp(11)));
    assert_eq!(indices.len(), 2);
}

#[test]
fn names_are_compared_and_places_are_not() {
    let mut indices = vec![IndexArg::new(
        Ident::new("by_a", sp(1)),
        IndexType::BTree { columns: vec![Ident::new("a", sp(500))] },
    )];
    ensure_unique_index(&mut indices, &Ident::new("a", sp(10)));
    assert_eq!(indices.len(), 1);
    assert!(indices[0].is_unique);
}
