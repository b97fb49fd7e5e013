use spacetime_bindings_macro_input::error::{Category, ErrorKind, Form, Scope};
use spacetime_bindings_macro_input::sym::Key;
use spacetime_bindings_macro_input::syntax::{Attribute, Ident, Meta, Span, Tokens};
use spacetime_bindings_macro_input::table::{IndexArg, IndexType};

fn sp(n: usize) -> Span {
    Span { start: n, end: n }
}

fn idents(names: &[&str]) -> Vec<Ident> {
    names.iter().map(|name| Ident::new(name, sp(7))).collect()
}

fn columns(names: &[&str]) -> Meta {
    Meta::list_value("columns", idents(names), sp(8))
}

fn index(items: Vec<Meta>) -> Meta {
    Meta::group("index", items, sp(100))
}

#[test]
fn new_index_is_not_yet_unique() {
    let made = IndexArg::new(Ident::new("by_id", sp(1)), IndexType::Direct { column: Ident::new("id", sp(2)) });
    assert_eq!(made.accessor, Ident::new("by_id", sp(1)));
    assert!(!made.is_unique);
    assert_eq!(made.kind, IndexType::Direct { column: Ident::new("id", sp(2)) });
}

#[test]
fn btree_index_with_two_columns() {
    let meta = index(vec![
        Meta::ident_value("accessor", "by_ab", sp(1)),
        Meta::group("btree", vec![columns(&["a", "b"])], sp(2)),
    ]);
    let parsed = IndexArg::parse_meta(&meta).unwrap();
    assert_eq!(parsed.accessor, Ident::new("by_ab", sp(1)));
    assert!(!parsed.is_unique);
    assert_eq!(parsed.kind, IndexType::BTree { columns: idents(&["a", "b"]) });
}

#[test]
fn hash_index_with_the_algorithm_first() {
    let meta = index(vec![
        Meta::group("hash", vec![columns(&["a"])], sp(2)),
        Meta::ident_value("accessor", "idx1", sp(1)),
    ]);
    let parsed = IndexArg::parse_meta(&meta).unwrap();
    assert_eq!(parsed.accessor.name, "idx1");
    assert_eq!(parsed.kind, IndexType::Hash { columns: idents(&["a"]) });
}

#[test]
fn direct_index_takes_one_column() {
    let meta = index(vec![
        Meta::ident_value("accessor", "by_id", sp(1)),
        Meta::group("direct", vec![Meta::list_value("column", idents(&["id"]), sp(3))], sp(2)),
    ]);
    let parsed = IndexArg::parse_meta(&meta).unwrap();
    assert_eq!(parsed.kind, IndexType::Direct { column: Ident::new("id", sp(7)) });
}

#[test]
fn direct_index_rejects_a_second_column() {
    let meta = Meta::group("direct", vec![Meta::list_value("column", idents(&["a", "b"]), sp(3))], sp(2));
    let error = IndexArg::parse_direct(&meta).unwrap_err();
    assert_eq!(error.kind, ErrorKind::Expected(Form::OneIdent));
    assert_eq!(error.span, sp(3));
    assert_eq!(error.message(), "expected exactly one identifier");
}

#[test]
fn direct_index_rejects_an_empty_list() {
    let meta = Meta::group("direct", vec![Meta::list_value("column", vec![], sp(3))], sp(2));
    let error = IndexArg::parse_direct(&meta).unwrap_err();
    assert_eq!(error.kind, ErrorKind::Expected(Form::OneIdent));
}

#[test]
fn direct_index_needs_brackets() {
    let meta = Meta::group("direct", vec![Meta::ident_value("column", "id", sp(3))], sp(2));
    let error = IndexArg::parse_direct(&meta).unwrap_err();
    assert_eq!(error.kind, ErrorKind::Expected(Form::Brackets));
    assert_eq!(error.message(), "expected square brackets");
}

#[test]
fn direct_index_without_column_fails() {
    let error = IndexArg::parse_direct(&Meta::group("direct", vec![], sp(2))).unwrap_err();
    assert_eq!(error.kind, ErrorKind::MissingDirectColumn);
    assert_eq!(error.span, sp(2));
    assert_eq!(
        error.message(),
        "must specify the column for direct index, e.g. `direct(column = col1)`"
    );
}

#[test]
fn direct_index_with_column_twice_fails() {
    let meta = Meta::group(
        "direct",
        vec![
            Meta::list_value("column", idents(&["a"]), sp(3)),
            Meta::list_value("column", idents(&["b"]), sp(4)),
        ],
        sp(2),
    );
    let error = IndexArg::parse_direct(&meta).unwrap_err();
    assert_eq!(error.kind, ErrorKind::Duplicate(Key::Column));
    assert_eq!(error.span, sp(4));
    assert_eq!(error.message(), "already specified column");
}

#[test]
fn direct_index_knows_only_column() {
    let meta = Meta::group("direct", vec![columns(&["a"])], sp(2));
    let error = IndexArg::parse_direct(&meta).unwrap_err();
    assert_eq!(error.kind, ErrorKind::Unrecognized(Scope::DirectColumn));
    assert_eq!(error.message(), "expected `column`");
}

#[test]
fn columns_are_read_in_order() {
    let meta = Meta::group("btree", vec![columns(&["x", "y", "z"])], sp(2));
    let parsed = IndexArg::parse_columns(&meta).unwrap();
    assert_eq!(parsed, Some(idents(&["x", "y", "z"])));
}

#[test]
fn columns_may_be_missing() {
    let meta = Meta::group("btree", vec![], sp(2));
    assert_eq!(IndexArg::parse_columns(&meta).unwrap(), None);
}

#[test]
fn columns_twice_fails() {
    let meta = Meta::group("btree", vec![columns(&["a"]), columns(&["b"])], sp(2));
    let error = IndexArg::parse_columns(&meta).unwrap_err();
    assert_eq!(error.kind, ErrorKind::Duplicate(Key::Columns));
    assert_eq!(error.message(), "already specified columns");
}

#[test]
fn empty_column_list_fails() {
    let meta = Meta::group("btree", vec![columns(&[])], sp(2));
    let error = IndexArg::parse_columns(&meta).unwrap_err();
    assert_eq!(error.kind, ErrorKind::Expected(Form::Ident));
    assert_eq!(error.span, sp(8));
}

#[test]
fn columns_need_brackets() {
    let meta = Meta::group("btree", vec![Meta::ident_value("columns", "a", sp(3))], sp(2));
    let error = IndexArg::parse_columns(&meta).unwrap_err();
    assert_eq!(error.kind, ErrorKind::Expected(Form::Brackets));

    let meta = Meta::group("btree", vec![Meta::flag("columns", sp(3))], sp(2));
    let error = IndexArg::parse_columns(&meta).unwrap_err();
    assert_eq!(error.kind, ErrorKind::Expected(Form::Eq));
}

#[test]
fn columns_group_knows_only_columns() {
    let meta = Meta::group("btree", vec![Meta::flag("rows", sp(3))], sp(2));
    let error = IndexArg::parse_columns(&meta).unwrap_err();
    assert_eq!(error.kind, ErrorKind::Unrecognized(Scope::Columns));
    assert_eq!(error.span, sp(3));
    assert_eq!(error.message(), "expected `columns`");
}

#[test]
fn btree_without_columns_fails() {
    let error = IndexArg::parse_btree(&Meta::group("btree", vec![], sp(2))).unwrap_err();
    assert_eq!(error.kind, ErrorKind::MissingBtreeColumns);
    assert_eq!(
        error.message(),
        "must specify columns for btree index, e.g. `btree(columns = [col1, col2])`"
    );
}

#[test]
fn hash_without_columns_fails() {
    let error = IndexArg::parse_hash(&Meta::group("hash", vec![], sp(2))).unwrap_err();
    assert_eq!(error.kind, ErrorKind::MissingHashColumns);
    assert_eq!(
        error.message(),
        "must specify columns for hash index, e.g. `hash(columns = [col1, col2])`"
    );
}

#[test]
fn btree_and_hash_give_their_own_kind() {
    let btree = IndexArg::parse_btree(&Meta::group("btree", vec![columns(&["a"])], sp(2))).unwrap();
    assert_eq!(btree, IndexType::BTree { columns: idents(&["a"]) });
    let hash = IndexArg::parse_hash(&Meta::group("hash", vec![columns(&["a"])], sp(2))).unwrap();
    assert_eq!(hash, IndexType::Hash { columns: idents(&["a"]) });
}

#[test]
fn algorithm_needs_parentheses() {
    let error = IndexArg::parse_btree(&Meta::flag("btree", sp(2))).unwrap_err();
    assert_eq!(error.kind, ErrorKind::Expected(Form::Parens));
}

#[test]
fn index_with_two_algorithms_fails() {
    let meta = index(vec![
        Meta::ident_value("accessor", "i", sp(1)),
        Meta::group("btree", vec![columns(&["a"])], sp(2)),
        Meta::group("hash", vec![columns(&["a"])], sp(3)),
    ]);
    let error = IndexArg::parse_meta(&meta).unwrap_err();
    assert_eq!(error.kind, ErrorKind::DuplicateIndexAlgorithm);
    assert_eq!(error.span, sp(3));
    assert_eq!(error.message(), "index algorithm specified twice");
    assert_eq!(error.kind.category(), Category::ConflictingCardinality);
}

#[test]
fn index_with_the_same_algorithm_twice_fails() {
    let meta = index(vec![
        Meta::group("direct", vec![Meta::list_value("column", idents(&["a"]), sp(4))], sp(2)),
        Meta::group("direct", vec![Meta::list_value("column", idents(&["a"]), sp(4))], sp(3)),
    ]);
    let error = IndexArg::parse_meta(&meta).unwrap_err();
    assert_eq!(error.kind, ErrorKind::DuplicateIndexAlgorithm);
}

#[test]
fn index_without_accessor_fails() {
    let meta = index(vec![Meta::group("btree", vec![columns(&["a"])], sp(2))]);
    let error = IndexArg::parse_meta(&meta).unwrap_err();
    assert_eq!(error.kind, ErrorKind::MissingIndexAccessor);
    assert_eq!(error.span, sp(100));
    assert_eq!(error.message(), "missing index accessor, e.g. accessor = my_index");
}

#[test]
fn index_without_algorithm_fails() {
    let meta = index(vec![Meta::ident_value("accessor", "i", sp(1))]);
    let error = IndexArg::parse_meta(&meta).unwrap_err();
    assert_eq!(error.kind, ErrorKind::MissingIndexAlgorithm);
    assert_eq!(
        error.message(),
        "missing index algorithm, e.g., `btree(columns = [col1, col2])`, `hash(columns = [col1, col2])` or `direct(column = col1)`"
    );
}

#[test]
fn index_with_accessor_twice_fails() {
    let meta = index(vec![
        Meta::ident_value("accessor", "i", sp(1)),
        Meta::ident_value("accessor", "j", sp(2)),
    ]);
    let error = IndexArg::parse_meta(&meta).unwrap_err();
    assert_eq!(error.kind, ErrorKind::Duplicate(Key::Accessor));
    assert_eq!(error.span, sp(2));
}

#[test]
fn index_ignores_name() {
    let meta = index(vec![
        Meta::ident_value("name", "whatever", sp(1)),
        Meta::ident_value("accessor", "i", sp(2)),
        Meta::group("btree", vec![columns(&["a"])], sp(3)),
    ]);
    assert!(IndexArg::parse_meta(&meta).is_ok());
}

#[test]
fn index_knows_no_other_option() {
    let meta = index(vec![Meta::flag("unique", sp(1))]);
    let error = IndexArg::parse_meta(&meta).unwrap_err();
    assert_eq!(error.kind, ErrorKind::Unrecognized(Scope::Index));
    assert_eq!(
        error.message(),
        "expected one of: `name`, `accessor`, `btree`, `hash`, `direct`"
    );
}

#[test]
fn index_needs_parentheses() {
    let error = IndexArg::parse_meta(&Meta::ident_value("index", "a", sp(1))).unwrap_err();
    assert_eq!(error.kind, ErrorKind::Expected(Form::Parens));
}

#[test]
fn index_on_a_column_alone() {
    let one = IndexArg::new(Ident::new("i", sp(1)), IndexType::BTree { columns: idents(&["a"]) });
    assert!(one.is_on("a"));
    assert!(!one.is_on("b"));
    let two = IndexArg::new(Ident::new("i", sp(1)), IndexType::Hash { columns: idents(&["a", "b"]) });
    assert!(!two.is_on("a"));
    assert!(!two.is_on("b"));
    let none = IndexArg::new(Ident::new("i", sp(1)), IndexType::BTree { columns: vec![] });
    assert!(!none.is_on("a"));
    let direct = IndexArg::new(Ident::new("i", sp(1)), IndexType::Direct { column: Ident::new("a", sp(2)) });
    assert!(direct.is_on("a"));
    assert!(!direct.is_on("i"));
}

#[test]
fn field_index_uses_the_field_as_column_and_accessor() {
    let field = Ident::new("age", sp(5));
    let attr = Attribute::list("index", vec![Meta::flag("btree", sp(1))], sp(2));
    let parsed = IndexArg::parse_index_attr(&field, &attr).unwrap();
    assert_eq!(parsed.accessor, field);
    assert!(!parsed.is_unique);
    assert_eq!(parsed.kind, IndexType::BTree { columns: vec![Ident::new("age", sp(5))] });

    let attr = Attribute::list("index", vec![Meta::flag("hash", sp(1))], sp(2));
    let parsed = IndexArg::parse_index_attr(&field, &attr).unwrap();
    assert_eq!(parsed.kind, IndexType::Hash { columns: vec![Ident::new("age", sp(5))] });

    let attr = Attribute::list("index", vec![Meta::flag("direct", sp(1))], sp(2));
    let parsed = IndexArg::parse_index_attr(&field, &attr).unwrap();
    assert_eq!(parsed.kind, IndexType::Direct { column: Ident::new("age", sp(5)) });
}

#[test]
fn field_index_with_two_algorithms_fails() {
    let field = Ident::new("age", sp(5));
    let attr = Attribute::list("index", vec![Meta::flag("btree", sp(1)), Meta::flag("hash", sp(2))], sp(3));
    let error = IndexArg::parse_index_attr(&field, &attr).unwrap_err();
    assert_eq!(error.kind, ErrorKind::DuplicateIndexKind);
    assert_eq!(error.span, sp(2));
    assert_eq!(error.message(), "index type specified twice");
}

#[test]
fn field_index_without_algorithm_fails() {
    let field = Ident::new("age", sp(5));
    let attr = Attribute::list("index", vec![], sp(3));
    let error = IndexArg::parse_index_attr(&field, &attr).unwrap_err();
    assert_eq!(error.kind, ErrorKind::MissingIndexKind);
    assert_eq!(error.span, sp(3));
    assert_eq!(error.message(), "must specify kind of index (`btree`, `hash` or `direct`)");
}

#[test]
fn field_index_knows_only_algorithms() {
    let field = Ident::new("age", sp(5));
    let attr = Attribute::list("index", vec![Meta::flag("unique", sp(1))], sp(3));
    let error = IndexArg::parse_index_attr(&field, &attr).unwrap_err();
    assert_eq!(error.kind, ErrorKind::Unrecognized(Scope::FieldIndex));
    assert_eq!(error.message(), "expected one of: `btree`, `hash`, `direct`");
}

#[test]
fn field_index_algorithm_takes_no_argument() {
    let field = Ident::new("age", sp(5));
    let attr = Attribute::list("index", vec![Meta::group("btree", vec![], sp(1))], sp(3));
    let error = IndexArg::parse_index_attr(&field, &attr).unwrap_err();
    assert_eq!(error.kind, ErrorKind::Expected(Form::Comma));
}

#[test]
fn field_index_needs_options_in_parentheses() {
    let field = Ident::new("age", sp(5));
    let error = IndexArg::parse_index_attr(&field, &Attribute::flag("index", sp(3))).unwrap_err();
    assert_eq!(error.kind, ErrorKind::Expected(Form::Parens));
    assert_eq!(error.span, sp(3));

    let attr = Attribute::expr("index", Tokens::new("1 + 2", sp(1)), sp(3));
    let error = IndexArg::parse_index_attr(&field, &attr).unwrap_err();
    assert_eq!(error.kind, ErrorKind::Expected(Form::Options));
    assert_eq!(error.message(), "expected nested attribute");
}
