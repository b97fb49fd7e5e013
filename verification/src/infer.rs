//! Uniqueness of indices, inferred from the constraints on the columns.
//!
//! A column marked `unique` or `primary_key` needs a unique index on that
//! column alone. Where the table declares such an index, it becomes unique;
//! where it declares none, a b-tree index on the column is added.
use vstd::prelude::*;
use crate::column::{Column, ColumnView};
use crate::index::{IndexArg, IndexArgView, IndexType};
use crate::syntax::{lemma_push_view, Ident, IdentView};

verus! {

/// The position of the first index, from position `from` on, that is built
/// on the column `name` alone; the number of indices if there is none.
pub open spec fn first_on(indices: Seq<IndexArgView>, name: Seq<char>, from: int) -> int
    decreases indices.len() - from,
{
    if from >= indices.len() {
        indices.len() as int
    } else if indices[from].kind.is_on(name) {
        from
    } else {
        first_on(indices, name, from + 1)
    }
}

/// The indices once `column` has its unique index: the first index built on
/// that column alone is made unique, or, if there is none, a unique b-tree
/// index on the column is added at the end.
pub open spec fn ensure_unique(indices: Seq<IndexArgView>, column: IdentView) -> Seq<IndexArgView> {
    let at = first_on(indices, column.name, 0);
    if at < indices.len() {
        indices.update(at, indices[at].unique())
    } else {
        indices.push(IndexArgView::for_column(column))
    }
}

/// The indices once every one of `columns` has its unique index, the columns
/// taken in order.
pub open spec fn infer(indices: Seq<IndexArgView>, columns: Seq<ColumnView>) -> Seq<IndexArgView>
    decreases columns.len(),
{
    if columns.len() == 0 {
        indices
    } else {
        ensure_unique(infer(indices, columns.drop_last()), columns.last().ident)
    }
}

/// Whether some index is built on the column `name` alone.
pub open spec fn has_index_on(indices: Seq<IndexArgView>, name: Seq<char>) -> bool {
    first_on(indices, name, 0) < indices.len()
}

/// Whether one of the columns is called `name`.
pub open spec fn names(columns: Seq<ColumnView>, name: Seq<char>) -> bool {
    exists|j: int| 0 <= j < columns.len() && #[trigger] columns[j].ident.name == name
}

/// Whether the column `name` has its unique index: the first index built on
/// that column alone exists and is unique.
pub open spec fn settled_for(indices: Seq<IndexArgView>, name: Seq<char>) -> bool {
    let at = first_on(indices, name, 0);
    at < indices.len() && indices[at].is_unique
}

/// Whether every one of the columns has its unique index.
pub open spec fn settled(indices: Seq<IndexArgView>, columns: Seq<ColumnView>) -> bool {
    forall|j: int|
        0 <= j < columns.len() ==> settled_for(indices, (#[trigger] columns[j]).ident.name)
}

/// Whether `later` keeps every index of `earlier` in its place, with its
/// accessor and kind, and unique if it was unique.
pub open spec fn extends(later: Seq<IndexArgView>, earlier: Seq<IndexArgView>) -> bool {
    &&& earlier.len() <= later.len()
    &&& forall|i: int|
        0 <= i < earlier.len() ==> {
            &&& (#[trigger] later[i]).accessor == earlier[i].accessor
            &&& later[i].kind == earlier[i].kind
            &&& earlier[i].is_unique ==> later[i].is_unique
        }
}

/// Whether the one index built on the column `name` alone stands at `at`:
/// it was added by the inference behind the `declared` first indices, it is
/// the unique b-tree index on that column, and its accessor is the column.
pub open spec fn added_at(
    indices: Seq<IndexArgView>,
    declared: int,
    name: Seq<char>,
    at: int,
) -> bool {
    &&& declared <= at < indices.len()
    &&& indices[at] == IndexArgView::for_column(indices[at].accessor)
    &&& indices[at].accessor.name == name
    &&& forall|i: int| 0 <= i < indices.len() && (#[trigger] indices[i]).kind.is_on(name) ==> i == at
}

/// Gives `column` its unique index among `indices`.
pub fn ensure_unique_index(indices: &mut Vec<IndexArg>, column: &Ident)
    ensures
        final(indices).deep_view() == ensure_unique(old(indices).deep_view(), column@),
{
    let ghost before = indices.deep_view();
    let mut i: usize = 0;
    while i < indices.len()
        invariant
            i <= indices.len(),
            indices.deep_view() == before,
            before == old(indices).deep_view(),
            first_on(before, column@.name, 0) == first_on(before, column@.name, i as int),
        decreases indices.len() - i,
    {
        assert(before[i as int] == indices[i as int]@);
        if indices[i].is_on(column.name.as_str()) {
            assert(first_on(before, column@.name, i as int) == i);
            indices[i].is_unique = true;
            assert(indices.deep_view() =~= before.update(i as int, before[i as int].unique()));
            return ;
        }
        i += 1;
    }
    let accessor = column.clone();
    let mut columns: Vec<Ident> = Vec::new();
    columns.push(column.clone());
    assert(columns.deep_view() =~= seq![column@]);
    let ghost unchanged = *indices;
    indices.push(IndexArg { accessor, is_unique: true, kind: IndexType::BTree { columns } });
    proof {
        lemma_push_view(unchanged, *indices, indices@.last());
    }
}

/// Gives every one of `unique_columns` its unique index among `indices`, the
/// columns taken in order.
pub fn infer_unique_indices(indices: &mut Vec<IndexArg>, unique_columns: &Vec<Column>)
    ensures
        final(indices).deep_view() == infer(old(indices).deep_view(), unique_columns.deep_view()),
{
    let ghost before = indices.deep_view();
    let ghost columns = unique_columns.deep_view();
    let mut i: usize = 0;
    while i < unique_columns.len()
        invariant
            i <= unique_columns.len(),
            columns == unique_columns.deep_view(),
            indices.deep_view() == infer(before, columns.take(i as int)),
        decreases unique_columns.len() - i,
    {
        ensure_unique_index(indices, unique_columns[i].ident);
        proof {
            assert(columns.take(i + 1).drop_last() =~= columns.take(i as int));
        }
        i += 1;
    }
    assert(columns.take(unique_columns.len() as int) =~= columns);
}

/// What `first_on` finds: a position between `from` and the end, with no
/// index on the column before it, and with one at it unless it is the end.
pub proof fn lemma_first_on(indices: Seq<IndexArgView>, name: Seq<char>, from: int)
    requires
        0 <= from <= indices.len(),
    ensures
        from <= first_on(indices, name, from) <= indices.len(),
        first_on(indices, name, from) < indices.len() ==> indices[first_on(
            indices,
            name,
            from,
        )].kind.is_on(name),
        forall|i: int| from <= i < first_on(indices, name, from) ==> !indices[i].kind.is_on(name),
    decreases indices.len() - from,
{
    if from < indices.len() && !indices[from].kind.is_on(name) {
        lemma_first_on(indices, name, from + 1);
    }
}

/// An index that was found stays the first one found, whatever is changed
/// in uniqueness or added behind.
pub proof fn lemma_first_on_extends(
    later: Seq<IndexArgView>,
    earlier: Seq<IndexArgView>,
    name: Seq<char>,
    from: int,
)
    requires
        extends(later, earlier),
        0 <= from <= earlier.len(),
    ensures
        first_on(earlier, name, from) < earlier.len() ==> first_on(later, name, from) == first_on(
            earlier,
            name,
            from,
        ),
        first_on(earlier, name, from) == earlier.len() ==> first_on(later, name, from)
            >= earlier.len(),
    decreases earlier.len() - from,
{
    if from < earlier.len() {
        assert(later[from].kind == earlier[from].kind);
        if !earlier[from].kind.is_on(name) {
            lemma_first_on_extends(later, earlier, name, from + 1);
        }
    } else {
        lemma_first_on(later, name, from);
    }
}

/// One step of the inference: the declared indices stay as they are but for
/// uniqueness, the column has its unique index afterwards, and an index is
/// added exactly where none was built on the column alone; the added index
/// is the unique b-tree index on that column, named after it.
pub proof fn lemma_ensure_unique(indices: Seq<IndexArgView>, column: IdentView)
    ensures
        extends(ensure_unique(indices, column), indices),
        settled_for(ensure_unique(indices, column), column.name),
        has_index_on(indices, column.name) ==> ensure_unique(indices, column).len()
            == indices.len(),
        !has_index_on(indices, column.name) ==> ensure_unique(indices, column) == indices.push(
            IndexArgView::for_column(column),
        ),
{
    let after = ensure_unique(indices, column);
    lemma_first_on(indices, column.name, 0);
    lemma_first_on_extends(after, indices, column.name, 0);
    if !has_index_on(indices, column.name) {
        lemma_first_on(after, column.name, 0);
        assert(after[indices.len() as int].kind.is_on(column.name));
    }
}

/// A column that has its unique index keeps it under `extends`.
pub proof fn lemma_settled_extends(
    later: Seq<IndexArgView>,
    earlier: Seq<IndexArgView>,
    name: Seq<char>,
)
    requires
        extends(later, earlier),
        settled_for(earlier, name),
    ensures
        settled_for(later, name),
        first_on(later, name, 0) == first_on(earlier, name, 0),
{
    lemma_first_on(earlier, name, 0);
    lemma_first_on_extends(later, earlier, name, 0);
    let at = first_on(earlier, name, 0);
    assert(later[at].kind == earlier[at].kind);
}

/// The inference keeps every declared index in its place, with its accessor
/// and kind; it only makes indices unique and adds indices at the end.
pub proof fn lemma_infer_extends(indices: Seq<IndexArgView>, columns: Seq<ColumnView>)
    ensures
        extends(infer(indices, columns), indices),
    decreases columns.len(),
{
    if columns.len() > 0 {
        lemma_infer_extends(indices, columns.drop_last());
        lemma_ensure_unique(infer(indices, columns.drop_last()), columns.last().ident);
    }
}

/// After the inference every one of the columns has its unique index.
pub proof fn lemma_infer_settles(indices: Seq<IndexArgView>, columns: Seq<ColumnView>)
    ensures
        settled(infer(indices, columns), columns),
    decreases columns.len(),
{
    if columns.len() > 0 {
        let earlier = infer(indices, columns.drop_last());
        let later = infer(indices, columns);
        lemma_infer_settles(indices, columns.drop_last());
        lemma_ensure_unique(earlier, columns.last().ident);
        assert forall|j: int| 0 <= j < columns.len() implies settled_for(
            later,
            #[trigger] columns[j].ident.name,
        ) by {
            if j < columns.len() - 1 {
                assert(columns.drop_last()[j] == columns[j]);
                assert(settled_for(earlier, columns.drop_last()[j].ident.name));
                lemma_settled_extends(later, earlier, columns[j].ident.name);
            }
        }
    }
}

/// Every column marked unique is covered: after the inference some unique
/// index is built on that column alone.
pub proof fn lemma_infer_covers(indices: Seq<IndexArgView>, columns: Seq<ColumnView>, j: int)
    requires
        0 <= j < columns.len(),
    ensures
        exists|i: int|
            0 <= i < infer(indices, columns).len() && (#[trigger] infer(
                indices,
                columns,
            )[i]).is_unique && infer(indices, columns)[i].kind.is_on(columns[j].ident.name),
{
    let after = infer(indices, columns);
    lemma_infer_settles(indices, columns);
    let name = columns[j].ident.name;
    lemma_first_on(after, name, 0);
    let at = first_on(after, name, 0);
    assert(after[at].is_unique && after[at].kind.is_on(name));
}

/// Where every column has its unique index already, the inference changes
/// nothing.
pub proof fn lemma_infer_settled(indices: Seq<IndexArgView>, columns: Seq<ColumnView>)
    requires
        settled(indices, columns),
    ensures
        infer(indices, columns) == indices,
    decreases columns.len(),
{
    if columns.len() > 0 {
        assert forall|j: int| 0 <= j < columns.drop_last().len() implies settled_for(
            indices,
            #[trigger] columns.drop_last()[j].ident.name,
        ) by {
            assert(columns.drop_last()[j] == columns[j]);
        }
        lemma_infer_settled(indices, columns.drop_last());
        let last = columns[columns.len() - 1];
        let at = first_on(indices, last.ident.name, 0);
        lemma_first_on(indices, last.ident.name, 0);
        assert(settled_for(indices, last.ident.name));
        assert(indices[at].unique() == indices[at]);
        assert(indices.update(at, indices[at]) =~= indices);
    }
}

/// The inference is idempotent: run again on its own result, with the same
/// columns, it changes nothing and adds no index.
pub proof fn lemma_infer_idempotent(indices: Seq<IndexArgView>, columns: Seq<ColumnView>)
    ensures
        infer(infer(indices, columns), columns) == infer(indices, columns),
{
    lemma_infer_settles(indices, columns);
    lemma_infer_settled(infer(indices, columns), columns);
}

/// No index is added for a column on which an index is declared.
pub proof fn lemma_infer_adds_elsewhere(
    indices: Seq<IndexArgView>,
    columns: Seq<ColumnView>,
    name: Seq<char>,
)
    requires
        has_index_on(indices, name),
    ensures
        forall|i: int|
            indices.len() <= i < infer(indices, columns).len() ==> !(#[trigger] infer(
                indices,
                columns,
            )[i]).kind.is_on(name),
    decreases columns.len(),
{
    if columns.len() > 0 {
        let earlier = infer(indices, columns.drop_last());
        let column = columns.last().ident;
        lemma_infer_adds_elsewhere(indices, columns.drop_last(), name);
        lemma_infer_extends(indices, columns.drop_last());
        lemma_first_on_extends(earlier, indices, name, 0);
        lemma_ensure_unique(earlier, column);
        let later = ensure_unique(earlier, column);
        assert forall|i: int| indices.len() <= i < later.len() implies !(#[trigger] later[i]).kind.is_on(
            name,
        ) by {
            if i < earlier.len() {
                assert(later[i].kind == earlier[i].kind);
            } else {
                assert(!has_index_on(earlier, column.name));
                assert(column.name != name);
            }
        }
    }
}

/// A declared index on a unique column is used: where the table declares an
/// index built on that column alone, the first such index is unique after
/// the inference, and no index that the inference adds is built on that
/// column.
pub proof fn lemma_infer_marks_declared(
    indices: Seq<IndexArgView>,
    columns: Seq<ColumnView>,
    name: Seq<char>,
)
    requires
        names(columns, name),
        has_index_on(indices, name),
    ensures
        first_on(infer(indices, columns), name, 0) == first_on(indices, name, 0),
        infer(indices, columns)[first_on(indices, name, 0)].is_unique,
        forall|i: int|
            indices.len() <= i < infer(indices, columns).len() ==> !(#[trigger] infer(
                indices,
                columns,
            )[i]).kind.is_on(name),
{
    let after = infer(indices, columns);
    lemma_infer_extends(indices, columns);
    lemma_first_on_extends(after, indices, name, 0);
    lemma_infer_settles(indices, columns);
    let j = choose|j: int| 0 <= j < columns.len() && #[trigger] columns[j].ident.name == name;
    assert(settled_for(after, columns[j].ident.name));
    lemma_infer_adds_elsewhere(indices, columns, name);
}

/// The state of one column during the inference: as long as no column of
/// that name was seen no index is built on it, and from then on exactly one
/// is, the one that was added for it.
pub proof fn lemma_infer_adds_one(
    indices: Seq<IndexArgView>,
    columns: Seq<ColumnView>,
    name: Seq<char>,
)
    requires
        !has_index_on(indices, name),
    ensures
        !names(columns, name) ==> !has_index_on(infer(indices, columns), name),
        names(columns, name) ==> added_at(
            infer(indices, columns),
            indices.len() as int,
            name,
            first_on(infer(indices, columns), name, 0),
        ),
    decreases columns.len(),
{
    if columns.len() > 0 {
        let rest = columns.drop_last();
        let earlier = infer(indices, rest);
        let column = columns.last().ident;
        let later = ensure_unique(earlier, column);
        lemma_infer_adds_one(indices, rest, name);
        lemma_infer_extends(indices, rest);
        lemma_ensure_unique(earlier, column);
        lemma_first_on(earlier, name, 0);
        lemma_first_on(later, name, 0);
        lemma_first_on_extends(later, earlier, name, 0);
        if names(rest, name) {
            let j = choose|j: int| 0 <= j < rest.len() && #[trigger] rest[j].ident.name == name;
            assert(columns[j] == rest[j]);
            let at = first_on(earlier, name, 0);
            assert(later[at] == earlier[at]) by {
                if later.len() == earlier.len() {
                    assert(earlier[at].unique() == earlier[at]);
                }
            }
            assert forall|i: int|
                0 <= i < later.len() && (#[trigger] later[i]).kind.is_on(name) implies i == at by {
                if i < earlier.len() {
                    assert(later[i].kind == earlier[i].kind);
                    assert(earlier[i].kind.is_on(name));
                } else {
                    assert(!has_index_on(earlier, column.name));
                }
            }
        } else if column.name == name {
            assert(columns[columns.len() - 1].ident.name == name);
            let at = earlier.len() as int;
            assert(later[at] == IndexArgView::for_column(column));
            assert forall|i: int|
                0 <= i < later.len() && (#[trigger] later[i]).kind.is_on(name) implies i == at by {
                if i < earlier.len() {
                    assert(later[i].kind == earlier[i].kind);
                }
            }
        } else {
            assert(!names(columns, name)) by {
                if names(columns, name) {
                    let j = choose|j: int|
                        0 <= j < columns.len() && #[trigger] columns[j].ident.name == name;
                    assert(rest[j] == columns[j]);
                }
            }
            assert forall|i: int| 0 <= i < later.len() implies !(#[trigger] later[i]).kind.is_on(
                name,
            ) by {
                if i < earlier.len() {
                    assert(later[i].kind == earlier[i].kind);
                }
            }
        }
    } else {
        assert(!names(columns, name));
    }
}

/// A unique column without a declared index gets exactly one: where no
/// declared index is built on that column alone, the inference adds one
/// unique b-tree index on it, whose accessor is the column's name, and no
/// other index of the result is built on that column alone.
pub proof fn lemma_infer_adds_missing(
    indices: Seq<IndexArgView>,
    columns: Seq<ColumnView>,
    name: Seq<char>,
)
    requires
        names(columns, name),
        !has_index_on(indices, name),
    ensures
        added_at(
            infer(indices, columns),
            indices.len() as int,
            name,
            first_on(infer(indices, columns), name, 0),
        ),
{
    lemma_infer_adds_one(indices, columns, name);
}

} // verus!
