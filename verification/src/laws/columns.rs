//! What holds of the columns of a table and of its indices, once the
//! fields of the type are read.
use vstd::prelude::*;
use crate::column::{
    attrs_said, column_args_of, column_of, column_slots_of, field_slots_of, field_step,
    ColumnArgsView, ColumnSlotsView, ColumnView, FieldSlotsView, MAX_COLUMNS,
};
use crate::error::{ErrorKind, ErrorView};
use crate::index::IndexArgView;
use crate::infer::{
    added_at, extends, first_on, has_index_on, infer, lemma_infer_adds_missing,
    lemma_infer_covers, lemma_infer_extends, lemma_infer_marks_declared, names,
};
use crate::sym::{path_key, Key};
use crate::syntax::{AttributeView, FieldView, IdentView, ItemView};
use crate::table::TableArgsView;

verus! {

/// Whether one of the attributes is called by the name of `key`.
pub open spec fn marked(attrs: Seq<AttributeView>, key: Key) -> bool {
    exists|i: int| 0 <= i < attrs.len() && path_key((#[trigger] attrs[i]).path) == Some(key)
}

/// Whether the field is marked `unique` or `primary_key`.
pub open spec fn is_unique_field(field: FieldView) -> bool {
    marked(field.attrs, Key::Unique) || marked(field.attrs, Key::PrimaryKey)
}

/// Whether `said` holds a value exactly for the constraints that `attrs`
/// mark.
pub open spec fn says_what_is_marked(attrs: Seq<AttributeView>, said: FieldSlotsView) -> bool {
    &&& said.unique is Some <==> marked(attrs, Key::Unique)
    &&& said.auto_inc is Some <==> marked(attrs, Key::AutoInc)
    &&& said.primary_key is Some <==> marked(attrs, Key::PrimaryKey)
    &&& said.default_value is Some <==> marked(attrs, Key::DefaultValue)
}

/// An attribute list marks a constraint if its last attribute does or the
/// ones before it do.
pub proof fn lemma_marked_last(attrs: Seq<AttributeView>, key: Key)
    requires
        attrs.len() > 0,
    ensures
        marked(attrs, key) <==> marked(attrs.drop_last(), key) || path_key(attrs.last().path)
            == Some(key),
{
    let rest = attrs.drop_last();
    if marked(rest, key) {
        let i = choose|i: int| 0 <= i < rest.len() && path_key((#[trigger] rest[i]).path) == Some(key);
        assert(attrs[i] == rest[i]);
    }
    if path_key(attrs.last().path) == Some(key) {
        assert(attrs[attrs.len() - 1] == attrs.last());
    }
    if marked(attrs, key) {
        let i = choose|i: int|
            0 <= i < attrs.len() && path_key((#[trigger] attrs[i]).path) == Some(key);
        if i < rest.len() {
            assert(rest[i] == attrs[i]);
        }
    }
}

/// Where the attributes of a field are accepted, the field is known as
/// unique, sequenced, primary key or with a default exactly if an attribute
/// of that name is on it; and the table's indices are still there, in front
/// of those that the field declares.
pub proof fn lemma_attrs_said(
    field: IdentView,
    attrs: Seq<AttributeView>,
    indices: Seq<IndexArgView>,
)
    requires
        attrs_said(field, attrs, indices) is Ok,
    ensures
        says_what_is_marked(attrs, attrs_said(field, attrs, indices)->Ok_0),
        indices.is_prefix_of(attrs_said(field, attrs, indices)->Ok_0.indices),
    decreases attrs.len(),
{
    if attrs.len() > 0 {
        let rest = attrs.drop_last();
        lemma_attrs_said(field, rest, indices);
        lemma_marked_last(attrs, Key::Unique);
        lemma_marked_last(attrs, Key::AutoInc);
        lemma_marked_last(attrs, Key::PrimaryKey);
        lemma_marked_last(attrs, Key::DefaultValue);
    }
}

/// Whether the columns are the fields, in order, each at its position.
pub open spec fn columns_follow_fields(fields: Seq<FieldView>, columns: Seq<ColumnView>) -> bool {
    &&& columns.len() == fields.len()
    &&& forall|i: int|
        0 <= i < fields.len() ==> {
            &&& (#[trigger] columns[i]).index == i
            &&& columns[i].ident == fields[i].ident
            &&& columns[i].vis == fields[i].vis
            &&& columns[i].ty == fields[i].ty
        }
}

/// Whether `chosen` holds exactly the columns whose position is flagged in
/// `wanted`, each once, in the order of the columns.
pub open spec fn selected(
    columns: Seq<ColumnView>,
    chosen: Seq<ColumnView>,
    wanted: Seq<bool>,
) -> bool {
    &&& forall|k: int|
        0 <= k < chosen.len() ==> {
            let at = (#[trigger] chosen[k]).index as int;
            at < columns.len() && columns[at] == chosen[k] && wanted[at]
        }
    &&& forall|k: int, l: int|
        0 <= k < l < chosen.len() ==> (#[trigger] chosen[k]).index < (#[trigger] chosen[l]).index
    &&& forall|i: int|
        0 <= i < columns.len() && #[trigger] wanted[i] ==> chosen.contains(columns[i])
}

/// For each field, whether it is marked `unique` or `primary_key`.
pub open spec fn unique_flags(fields: Seq<FieldView>) -> Seq<bool> {
    Seq::new(fields.len(), |i: int| is_unique_field(fields[i]))
}

/// For each field, whether it is marked `auto_inc`.
pub open spec fn sequenced_flags(fields: Seq<FieldView>) -> Seq<bool> {
    Seq::new(fields.len(), |i: int| marked(fields[i].attrs, Key::AutoInc))
}

/// Whether the primary key is the column of the one field marked
/// `primary_key`, and there is none where no field is marked.
pub open spec fn primary_key_follows(fields: Seq<FieldView>, slots: ColumnSlotsView) -> bool {
    &&& forall|i: int|
        0 <= i < fields.len() && marked((#[trigger] fields[i]).attrs, Key::PrimaryKey)
            ==> slots.primary_key_column == Some(slots.columns[i])
    &&& slots.primary_key_column matches Some(column) ==> {
        &&& column.index < fields.len()
        &&& slots.columns[column.index as int] == column
        &&& marked(fields[column.index as int].attrs, Key::PrimaryKey)
    }
}

/// Whether the columns in `slots` are what the fields describe.
pub open spec fn classified(fields: Seq<FieldView>, slots: ColumnSlotsView) -> bool {
    &&& columns_follow_fields(fields, slots.columns)
    &&& selected(slots.columns, slots.unique_columns, unique_flags(fields))
    &&& selected(slots.columns, slots.sequenced_columns, sequenced_flags(fields))
    &&& primary_key_follows(fields, slots)
}

/// Selecting goes on with the next column.
pub proof fn lemma_selected_push(
    columns: Seq<ColumnView>,
    chosen: Seq<ColumnView>,
    wanted: Seq<bool>,
    column: ColumnView,
    flag: bool,
)
    requires
        selected(columns, chosen, wanted),
        wanted.len() == columns.len(),
        column.index == columns.len(),
        forall|i: int| 0 <= i < columns.len() ==> (#[trigger] columns[i]).index == i,
    ensures
        selected(
            columns.push(column),
            if flag {
                chosen.push(column)
            } else {
                chosen
            },
            wanted.push(flag),
        ),
{
    let columns2 = columns.push(column);
    let chosen2 = if flag {
        chosen.push(column)
    } else {
        chosen
    };
    let wanted2 = wanted.push(flag);
    assert forall|k: int| 0 <= k < chosen2.len() implies {
        let at = (#[trigger] chosen2[k]).index as int;
        at < columns2.len() && columns2[at] == chosen2[k] && wanted2[at]
    } by {
        if k < chosen.len() {
            let at = chosen[k].index as int;
            assert(columns2[at] == columns[at]);
            assert(wanted2[at] == wanted[at]);
        }
    }
    assert forall|k: int, l: int| 0 <= k < l < chosen2.len() implies (#[trigger] chosen2[k]).index
        < (#[trigger] chosen2[l]).index by {
        if l < chosen.len() {
            assert(chosen2[k] == chosen[k] && chosen2[l] == chosen[l]);
        } else {
            assert(chosen2[k] == chosen[k]);
            assert(chosen[k].index < columns.len());
        }
    }
    assert forall|i: int| 0 <= i < columns2.len() && #[trigger] wanted2[i] implies chosen2.contains(
        columns2[i],
    ) by {
        if i < columns.len() {
            assert(wanted[i]);
            assert(chosen.contains(columns[i]));
            let k = choose|k: int| 0 <= k < chosen.len() && chosen[k] == columns[i];
            assert(chosen2[k] == columns2[i]);
        } else {
            assert(chosen2[chosen.len() as int] == column);
        }
    }
}

/// Where the fields of a type are accepted, the columns are what the fields
/// describe: one column for each field, in the order of the fields, each at
/// its position, counted from 0; the unique columns are the columns of the
/// fields marked `unique` or `primary_key`, each once and in order; the
/// sequenced columns are those of the fields marked `auto_inc`; and the
/// primary key is the column of the one field marked `primary_key`.
pub proof fn lemma_classified(fields: Seq<FieldView>, indices: Seq<IndexArgView>)
    requires
        fields.len() <= MAX_COLUMNS,
        column_slots_of(fields, indices) is Ok,
    ensures
        classified(fields, column_slots_of(fields, indices)->Ok_0),
        indices.is_prefix_of(column_slots_of(fields, indices)->Ok_0.indices),
    decreases fields.len(),
{
    let slots = column_slots_of(fields, indices)->Ok_0;
    if fields.len() > 0 {
        let rest = fields.drop_last();
        let last = fields.last();
        lemma_classified(rest, indices);
        let before = column_slots_of(rest, indices)->Ok_0;
        assert(field_step(before, last) == Ok::<ColumnSlotsView, ErrorView>(slots));
        lemma_attrs_said(last.ident, last.attrs, before.indices);
        let said = field_slots_of(last, before.indices)->Ok_0;
        let column = column_of(last, before.columns.len(), said);
        let at = rest.len() as int;
        assert(column.index == at);
        assert(slots.columns == before.columns.push(column));
        assert(columns_follow_fields(fields, slots.columns)) by {
            assert forall|i: int| 0 <= i < fields.len() implies {
                &&& (#[trigger] slots.columns[i]).index == i
                &&& slots.columns[i].ident == fields[i].ident
                &&& slots.columns[i].vis == fields[i].vis
                &&& slots.columns[i].ty == fields[i].ty
            } by {
                if i < at {
                    assert(slots.columns[i] == before.columns[i]);
                    assert(fields[i] == rest[i]);
                }
            }
        }
        assert(selected(slots.columns, slots.unique_columns, unique_flags(fields))) by {
            lemma_selected_push(
                before.columns,
                before.unique_columns,
                unique_flags(rest),
                column,
                is_unique_field(last),
            );
            assert(unique_flags(fields) =~= unique_flags(rest).push(is_unique_field(last)));
        }
        assert(selected(slots.columns, slots.sequenced_columns, sequenced_flags(fields))) by {
            lemma_selected_push(
                before.columns,
                before.sequenced_columns,
                sequenced_flags(rest),
                column,
                marked(last.attrs, Key::AutoInc),
            );
            assert(sequenced_flags(fields) =~= sequenced_flags(rest).push(
                marked(last.attrs, Key::AutoInc),
            ));
        }
        assert(primary_key_follows(fields, slots)) by {
            assert forall|i: int|
                0 <= i < fields.len() && marked(
                    (#[trigger] fields[i]).attrs,
                    Key::PrimaryKey,
                ) implies slots.primary_key_column == Some(slots.columns[i]) by {
                if i < at {
                    assert(fields[i] == rest[i]);
                    assert(before.primary_key_column == Some(before.columns[i]));
                    assert(slots.columns[i] == before.columns[i]);
                }
            }
            if said.primary_key is None {
                let column = before.primary_key_column->0;
                if before.primary_key_column is Some {
                    assert(fields[column.index as int] == rest[column.index as int]);
                    assert(slots.columns[column.index as int] == before.columns[column.index as int]);
                }
            }
        }
    } else {
        assert(slots == ColumnSlotsView::start(indices));
    }
}

/// The fields of a struct.
pub open spec fn fields_of(item: ItemView) -> Seq<FieldView> {
    item.data->Struct_0
}

/// Field order is kept and positions count from 0: where a type is
/// accepted it is a struct with at most [`MAX_COLUMNS`] fields, and its
/// columns are its fields, in order, the column of the field at position
/// `i` having the position `i`, and the identifier, visibility and type of
/// that field.
pub proof fn lemma_columns_in_order(table: TableArgsView, item: ItemView)
    requires
        column_args_of(table, item) is Ok,
    ensures
        item.data is Struct,
        fields_of(item).len() <= MAX_COLUMNS,
        column_args_of(table, item)->Ok_0.1.fields == fields_of(item),
        column_args_of(table, item)->Ok_0.1.original_struct_name == item.ident,
        columns_follow_fields(fields_of(item), column_args_of(table, item)->Ok_0.1.columns),
{
    lemma_classified(fields_of(item), table.indices);
}

/// The constraints follow the marks: where a type is accepted, its unique
/// columns are the columns of the fields marked `unique` or `primary_key`,
/// each once and in the order of the fields, and its sequenced columns are
/// those of the fields marked `auto_inc`.
pub proof fn lemma_constraints_follow_marks(table: TableArgsView, item: ItemView)
    requires
        column_args_of(table, item) is Ok,
    ensures
        selected(
            column_args_of(table, item)->Ok_0.1.columns,
            column_args_of(table, item)->Ok_0.1.unique_columns,
            unique_flags(fields_of(item)),
        ),
        selected(
            column_args_of(table, item)->Ok_0.1.columns,
            column_args_of(table, item)->Ok_0.1.sequenced_columns,
            sequenced_flags(fields_of(item)),
        ),
{
    lemma_classified(fields_of(item), table.indices);
}

/// Every unique column is covered: where a type is accepted, each of its
/// unique columns has, among the indices of the table, a unique index built
/// on that column alone.
pub proof fn lemma_unique_columns_are_covered(table: TableArgsView, item: ItemView, j: int)
    requires
        column_args_of(table, item) is Ok,
        0 <= j < column_args_of(table, item)->Ok_0.1.unique_columns.len(),
    ensures
        exists|i: int|
            0 <= i < column_args_of(table, item)->Ok_0.0.indices.len() && (
            #[trigger] column_args_of(table, item)->Ok_0.0.indices[i]).is_unique
                && column_args_of(table, item)->Ok_0.0.indices[i].kind.is_on(
                column_args_of(table, item)->Ok_0.1.unique_columns[j].ident.name,
            ),
{
    let slots = column_slots_of(fields_of(item), table.indices)->Ok_0;
    let after = infer(slots.indices, slots.unique_columns);
    lemma_infer_covers(slots.indices, slots.unique_columns, j);
    let i = choose|i: int|
        0 <= i < after.len() && (#[trigger] after[i]).is_unique && after[i].kind.is_on(
            slots.unique_columns[j].ident.name,
        );
    assert(column_args_of(table, item)->Ok_0.0.indices == after);
    assert(column_args_of(table, item)->Ok_0.0.indices[i].is_unique);
}

/// A primary key is unique and indexed: where a type is accepted and a
/// field of it is marked `primary_key`, the column of that field is the
/// primary key, it is one of the unique columns, and the table has a unique
/// index built on that column alone.
pub proof fn lemma_primary_key_is_unique(table: TableArgsView, item: ItemView, i: int)
    requires
        column_args_of(table, item) is Ok,
        0 <= i < fields_of(item).len(),
        marked(fields_of(item)[i].attrs, Key::PrimaryKey),
    ensures
        column_args_of(table, item)->Ok_0.1.primary_key_column == Some(
            column_args_of(table, item)->Ok_0.1.columns[i],
        ),
        column_args_of(table, item)->Ok_0.1.unique_columns.contains(
            column_args_of(table, item)->Ok_0.1.columns[i],
        ),
        exists|k: int|
            0 <= k < column_args_of(table, item)->Ok_0.0.indices.len() && (
            #[trigger] column_args_of(table, item)->Ok_0.0.indices[k]).is_unique
                && column_args_of(table, item)->Ok_0.0.indices[k].kind.is_on(
                fields_of(item)[i].ident.name,
            ),
{
    let fields = fields_of(item);
    let columns = column_args_of(table, item)->Ok_0.1;
    lemma_classified(fields, table.indices);
    assert(unique_flags(fields)[i]);
    assert(columns.unique_columns.contains(columns.columns[i]));
    let j = choose|j: int|
        0 <= j < columns.unique_columns.len() && columns.unique_columns[j] == columns.columns[i];
    lemma_unique_columns_are_covered(table, item, j);
}

/// A table has one primary key: a type with two fields marked
/// `primary_key` is not accepted.
pub proof fn lemma_two_primary_keys_fail(table: TableArgsView, item: ItemView, i: int, j: int)
    requires
        item.data is Struct,
        0 <= i < j < fields_of(item).len(),
        marked(fields_of(item)[i].attrs, Key::PrimaryKey),
        marked(fields_of(item)[j].attrs, Key::PrimaryKey),
    ensures
        column_args_of(table, item) is Err,
{
    let fields = fields_of(item);
    if column_args_of(table, item) is Ok {
        lemma_classified(fields, table.indices);
        let slots = column_slots_of(fields, table.indices)->Ok_0;
        assert(slots.primary_key_column == Some(slots.columns[i]));
        assert(slots.primary_key_column == Some(slots.columns[j]));
        assert(slots.columns[i].index == i);
        assert(slots.columns[j].index == j);
    }
}

/// A type with more than [`MAX_COLUMNS`] fields is not accepted, whatever
/// its fields are.
pub proof fn lemma_too_many_columns(table: TableArgsView, item: ItemView)
    requires
        item.data is Struct,
        fields_of(item).len() > MAX_COLUMNS,
    ensures
        column_args_of(table, item) == Err::<(TableArgsView, ColumnArgsView), ErrorView>(
            ErrorView::new(ErrorKind::TooManyColumns, item.span),
        ),
{
}

/// Reading the columns leaves the table's own options alone: access,
/// schedule, accessor and event are as they were, and the declared indices
/// are still there, in front, in their order, with their accessors and
/// kinds; only their uniqueness may have been found out.
pub proof fn lemma_table_is_kept(table: TableArgsView, item: ItemView)
    requires
        column_args_of(table, item) is Ok,
    ensures
        column_args_of(table, item)->Ok_0.0.access == table.access,
        column_args_of(table, item)->Ok_0.0.scheduled == table.scheduled,
        column_args_of(table, item)->Ok_0.0.accessor == table.accessor,
        column_args_of(table, item)->Ok_0.0.event == table.event,
        extends(column_args_of(table, item)->Ok_0.0.indices, table.indices),
{
    let fields = fields_of(item);
    lemma_classified(fields, table.indices);
    let slots = column_slots_of(fields, table.indices)->Ok_0;
    lemma_infer_extends(slots.indices, slots.unique_columns);
    let after = infer(slots.indices, slots.unique_columns);
    assert forall|i: int| 0 <= i < table.indices.len() implies {
        &&& (#[trigger] after[i]).accessor == table.indices[i].accessor
        &&& after[i].kind == table.indices[i].kind
        &&& table.indices[i].is_unique ==> after[i].is_unique
    } by {
        assert(slots.indices[i] == table.indices[i]);
    }
}

/// The indices that the table and the fields of the type declare, before
/// uniqueness is inferred: the table's own, then those of the fields, in
/// the order of the fields.
pub open spec fn declared_indices(table: TableArgsView, item: ItemView) -> Seq<IndexArgView> {
    column_slots_of(fields_of(item), table.indices)->Ok_0.indices
}

/// A unique column without a declared index gets a b-tree index: where a
/// type is accepted and no declared index is built on a unique column
/// alone, the table has, behind the declared indices, exactly one index
/// built on that column alone; it is a unique b-tree index, and its accessor
/// is the column.
pub proof fn lemma_missing_index_is_added(table: TableArgsView, item: ItemView, j: int)
    requires
        column_args_of(table, item) is Ok,
        0 <= j < column_args_of(table, item)->Ok_0.1.unique_columns.len(),
        !has_index_on(
            declared_indices(table, item),
            column_args_of(table, item)->Ok_0.1.unique_columns[j].ident.name,
        ),
    ensures
        added_at(
            column_args_of(table, item)->Ok_0.0.indices,
            declared_indices(table, item).len() as int,
            column_args_of(table, item)->Ok_0.1.unique_columns[j].ident.name,
            first_on(
                column_args_of(table, item)->Ok_0.0.indices,
                column_args_of(table, item)->Ok_0.1.unique_columns[j].ident.name,
                0,
            ),
        ),
{
    let slots = column_slots_of(fields_of(item), table.indices)->Ok_0;
    let name = slots.unique_columns[j].ident.name;
    assert(names(slots.unique_columns, name));
    lemma_infer_adds_missing(slots.indices, slots.unique_columns, name);
}

/// A declared index on a unique column is used: where a type is accepted
/// and a declared index is built on a unique column alone, the first such
/// index is unique in the result, and no index is added for that column.
pub proof fn lemma_declared_index_is_used(table: TableArgsView, item: ItemView, j: int)
    requires
        column_args_of(table, item) is Ok,
        0 <= j < column_args_of(table, item)->Ok_0.1.unique_columns.len(),
        has_index_on(
            declared_indices(table, item),
            column_args_of(table, item)->Ok_0.1.unique_columns[j].ident.name,
        ),
    ensures
        column_args_of(table, item)->Ok_0.0.indices[first_on(
            declared_indices(table, item),
            column_args_of(table, item)->Ok_0.1.unique_columns[j].ident.name,
            0,
        )].is_unique,
        forall|i: int|
            declared_indices(table, item).len() <= i < column_args_of(
                table,
                item,
            )->Ok_0.0.indices.len() ==> !(#[trigger] column_args_of(
                table,
                item,
            )->Ok_0.0.indices[i]).kind.is_on(
                column_args_of(table, item)->Ok_0.1.unique_columns[j].ident.name,
            ),
{
    let slots = column_slots_of(fields_of(item), table.indices)->Ok_0;
    let name = slots.unique_columns[j].ident.name;
    assert(names(slots.unique_columns, name));
    lemma_infer_marks_declared(slots.indices, slots.unique_columns, name);
}

/// Reading the columns is a function of the table and the type: two results
/// that meet the contract of the column parser on the same views have the
/// same view.
pub proof fn lemma_same_type_same_columns(
    first: Result<(TableArgsView, ColumnArgsView), ErrorView>,
    second: Result<(TableArgsView, ColumnArgsView), ErrorView>,
    table: TableArgsView,
    item: ItemView,
)
    requires
        first == column_args_of(table, item),
        second == column_args_of(table, item),
    ensures
        first == second,
{
}

} // verus!
