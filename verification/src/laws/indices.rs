//! Every index is built on at least one column.
use vstd::prelude::*;
use crate::column::{attrs_said, column_args_of, column_slots_of, ColumnView};
use crate::fold::fold;
use crate::forms::options_of;
use crate::index::{
    btree_of, direct_of, field_index_of, field_index_step, hash_of, index_of, index_slots_of,
    IndexArgView, IndexTypeView,
};
use crate::infer::{infer, lemma_ensure_unique};
use crate::laws::columns::fields_of;
use crate::sym::{path_key, Key};
use crate::syntax::{AttributeView, FieldView, IdentView, ItemView, MetaView};
use crate::table::{table_slots_of, TableArgsView};

verus! {

/// Whether every one of the indices is built on at least one column.
pub open spec fn all_have_columns(indices: Seq<IndexArgView>) -> bool {
    forall|i: int| 0 <= i < indices.len() ==> (#[trigger] indices[i]).kind.has_columns()
}

/// An algorithm that is accepted names its columns: a b-tree or hash index
/// has at least one column.
pub proof fn lemma_algorithm_has_columns(meta: MetaView)
    ensures
        btree_of(meta) is Ok ==> btree_of(meta)->Ok_0.has_columns(),
        hash_of(meta) is Ok ==> hash_of(meta)->Ok_0.has_columns(),
        direct_of(meta) is Ok ==> direct_of(meta)->Ok_0.has_columns(),
{
}

/// The algorithm that has been read so far has columns.
pub proof fn lemma_index_slots_have_columns(items: Seq<MetaView>)
    requires
        index_slots_of(items) is Ok,
    ensures
        index_slots_of(items)->Ok_0.1 matches Some(kind) ==> kind.has_columns(),
    decreases items.len(),
{
    if items.len() > 0 {
        lemma_index_slots_have_columns(items.drop_last());
        lemma_algorithm_has_columns(items.last());
    }
}

/// An index that is accepted is built on at least one column.
pub proof fn lemma_index_has_columns(meta: MetaView)
    requires
        index_of(meta) is Ok,
    ensures
        index_of(meta)->Ok_0.kind.has_columns(),
{
    lemma_index_slots_have_columns(meta.arg->Group_0);
}

/// The algorithm that `#[index(...)]` has named so far is on the field
/// alone.
pub proof fn lemma_field_index_slot(field: IdentView, items: Seq<MetaView>)
    requires
        fold(
            items,
            None,
            |kind: Option<IndexTypeView>, item: MetaView| field_index_step(field, kind, item),
        ) is Ok,
    ensures
        fold(
            items,
            None,
            |kind: Option<IndexTypeView>, item: MetaView| field_index_step(field, kind, item),
        )->Ok_0 matches Some(kind) ==> kind.is_on(field.name),
    decreases items.len(),
{
    if items.len() > 0 {
        lemma_field_index_slot(field, items.drop_last());
    }
}

/// An index that a field declares is built on that field alone.
pub proof fn lemma_field_index_is_on_field(field: IdentView, attr: AttributeView)
    requires
        field_index_of(field, attr) is Ok,
    ensures
        field_index_of(field, attr)->Ok_0.kind.is_on(field.name),
        field_index_of(field, attr)->Ok_0.accessor == field,
        !field_index_of(field, attr)->Ok_0.is_unique,
{
    let items = options_of(attr)->Ok_0;
    lemma_field_index_slot(field, items);
}

/// The indices among a table's options are built on at least one column
/// each.
pub proof fn lemma_table_indices_have_columns(input: Seq<MetaView>)
    requires
        table_slots_of(input) is Ok,
    ensures
        all_have_columns(table_slots_of(input)->Ok_0.indices),
    decreases input.len(),
{
    if input.len() > 0 {
        let rest = input.drop_last();
        lemma_table_indices_have_columns(rest);
        let before = table_slots_of(rest)->Ok_0.indices;
        let after = table_slots_of(input)->Ok_0.indices;
        if path_key(input.last().path) == Some(Key::Index) {
            lemma_index_has_columns(input.last());
        }
        assert forall|i: int| 0 <= i < after.len() implies (#[trigger] after[i]).kind.has_columns() by {
            if i < before.len() {
                assert(after[i] == before[i]);
            }
        }
    }
}

/// The indices that the attributes of a field add are built on at least one
/// column each.
pub proof fn lemma_attrs_keep_columns(
    field: IdentView,
    attrs: Seq<AttributeView>,
    indices: Seq<IndexArgView>,
)
    requires
        all_have_columns(indices),
        attrs_said(field, attrs, indices) is Ok,
    ensures
        all_have_columns(attrs_said(field, attrs, indices)->Ok_0.indices),
    decreases attrs.len(),
{
    if attrs.len() > 0 {
        let rest = attrs.drop_last();
        lemma_attrs_keep_columns(field, rest, indices);
        let before = attrs_said(field, rest, indices)->Ok_0.indices;
        let after = attrs_said(field, attrs, indices)->Ok_0.indices;
        if path_key(attrs.last().path) == Some(Key::Index) {
            lemma_field_index_is_on_field(field, attrs.last());
        }
        assert forall|i: int| 0 <= i < after.len() implies (#[trigger] after[i]).kind.has_columns() by {
            if i < before.len() {
                assert(after[i] == before[i]);
            }
        }
    }
}

/// The indices that the fields add are built on at least one column each.
pub proof fn lemma_fields_keep_columns(fields: Seq<FieldView>, indices: Seq<IndexArgView>)
    requires
        all_have_columns(indices),
        column_slots_of(fields, indices) is Ok,
    ensures
        all_have_columns(column_slots_of(fields, indices)->Ok_0.indices),
    decreases fields.len(),
{
    if fields.len() > 0 {
        let rest = fields.drop_last();
        lemma_fields_keep_columns(rest, indices);
        let before = column_slots_of(rest, indices)->Ok_0;
        lemma_attrs_keep_columns(fields.last().ident, fields.last().attrs, before.indices);
    }
}

/// The inference adds only indices that are built on a column.
pub proof fn lemma_infer_keeps_columns(indices: Seq<IndexArgView>, columns: Seq<ColumnView>)
    requires
        all_have_columns(indices),
    ensures
        all_have_columns(infer(indices, columns)),
    decreases columns.len(),
{
    if columns.len() > 0 {
        let earlier = infer(indices, columns.drop_last());
        let later = infer(indices, columns);
        lemma_infer_keeps_columns(indices, columns.drop_last());
        lemma_ensure_unique(earlier, columns.last().ident);
        assert forall|i: int| 0 <= i < later.len() implies (#[trigger] later[i]).kind.has_columns() by {
            if i < earlier.len() {
                assert(later[i].kind == earlier[i].kind);
            }
        }
    }
}

/// Every index is built on a column: where the indices of a table are built
/// on at least one column each, as those that the table parser accepts are,
/// and the type is accepted, so are all the indices of the result.
pub proof fn lemma_indices_have_columns(table: TableArgsView, item: ItemView)
    requires
        all_have_columns(table.indices),
        column_args_of(table, item) is Ok,
    ensures
        all_have_columns(column_args_of(table, item)->Ok_0.0.indices),
{
    let slots = column_slots_of(fields_of(item), table.indices)->Ok_0;
    lemma_fields_keep_columns(fields_of(item), table.indices);
    lemma_infer_keeps_columns(slots.indices, slots.unique_columns);
}

} // verus!
