//! What holds of the options of a table, of an index and of a schedule.
use vstd::prelude::*;
use crate::error::ErrorView;
use crate::fold::{lemma_fold_next, lemma_fold_prefix_ok};
use crate::forms::ident_of;
use crate::index::{index_of, index_slots_of, index_step, IndexArgView, IndexTypeView};
use crate::scheduled::{scheduled_of, scheduled_slots_of, scheduled_step, ScheduledArgView};
use crate::sym::{path_key, Key};
use crate::syntax::{IdentView, MetaView, PathView};
use crate::table::{
    table_of, table_slots_of, table_step, TableAccess, TableArgsView, TableSlotsView,
};
use crate::text::snake_case;

verus! {

/// Whether one of the options is called by the name of `key`.
pub open spec fn has_option(input: Seq<MetaView>, key: Key) -> bool {
    exists|i: int| 0 <= i < input.len() && path_key((#[trigger] input[i]).path) == Some(key)
}

/// Whether the option sets the access level.
pub open spec fn is_access(meta: MetaView) -> bool {
    path_key(meta.path) == Some(Key::Public) || path_key(meta.path) == Some(Key::Private)
}

/// A list of options has an option if its last one is that option or the
/// ones before it have it.
pub proof fn lemma_has_option_last(input: Seq<MetaView>, key: Key)
    requires
        input.len() > 0,
    ensures
        has_option(input, key) <==> has_option(input.drop_last(), key) || path_key(
            input.last().path,
        ) == Some(key),
{
    let rest = input.drop_last();
    if has_option(rest, key) {
        let i = choose|i: int| 0 <= i < rest.len() && path_key((#[trigger] rest[i]).path) == Some(key);
        assert(input[i] == rest[i]);
    }
    if path_key(input.last().path) == Some(key) {
        assert(input[input.len() - 1] == input.last());
    }
    if has_option(input, key) {
        let i = choose|i: int|
            0 <= i < input.len() && path_key((#[trigger] input[i]).path) == Some(key);
        if i < rest.len() {
            assert(rest[i] == input[i]);
        }
    }
}

/// Where the options of a table are accepted, a slot holds a value exactly
/// if an option for it was given.
pub proof fn lemma_table_slots(input: Seq<MetaView>)
    requires
        table_slots_of(input) is Ok,
    ensures
        table_slots_of(input)->Ok_0.access is Some <==> has_option(input, Key::Public)
            || has_option(input, Key::Private),
        table_slots_of(input)->Ok_0.accessor is Some <==> has_option(input, Key::Accessor),
        table_slots_of(input)->Ok_0.scheduled is Some <==> has_option(input, Key::Scheduled),
        table_slots_of(input)->Ok_0.event is Some <==> has_option(input, Key::Event),
    decreases input.len(),
{
    if input.len() > 0 {
        lemma_table_slots(input.drop_last());
        lemma_has_option_last(input, Key::Public);
        lemma_has_option_last(input, Key::Private);
        lemma_has_option_last(input, Key::Accessor);
        lemma_has_option_last(input, Key::Scheduled);
        lemma_has_option_last(input, Key::Event);
    }
}

/// The access level is given once: a table with two options that set it,
/// `public` or `private` in any combination, is not accepted.
pub proof fn lemma_access_given_once(input: Seq<MetaView>, item_name: Seq<char>, i: int, j: int)
    requires
        0 <= i < j < input.len(),
        is_access(input[i]),
        is_access(input[j]),
    ensures
        table_of(input, item_name) is Err,
{
    if table_slots_of(input) is Ok {
        let step = |slots: TableSlotsView, item: MetaView| table_step(slots, item);
        lemma_fold_prefix_ok(input, TableSlotsView::empty(), step, j);
        lemma_fold_prefix_ok(input, TableSlotsView::empty(), step, j + 1);
        lemma_fold_next(input, TableSlotsView::empty(), step, j);
        lemma_table_slots(input.take(j));
        assert(input.take(j)[i] == input[i]);
    }
}

/// The accessor is required: a table without the option `accessor` is not
/// accepted, and where nothing else is wrong with its options the error is
/// the one that proposes the snake-case form of the type's name.
pub proof fn lemma_accessor_is_required(input: Seq<MetaView>, item_name: Seq<char>)
    requires
        !has_option(input, Key::Accessor),
    ensures
        table_of(input, item_name) is Err,
        table_slots_of(input) is Ok ==> table_of(input, item_name) == Err::<
            TableArgsView,
            ErrorView,
        >(ErrorView::missing_table_accessor(snake_case(item_name))),
{
    if table_slots_of(input) is Ok {
        lemma_table_slots(input);
    }
}

/// The indices that the options `index(...)` among `input` describe, in the
/// order in which they are written.
pub open spec fn index_options(input: Seq<MetaView>) -> Seq<IndexArgView>
    decreases input.len(),
{
    if input.len() == 0 {
        Seq::empty()
    } else if path_key(input.last().path) == Some(Key::Index) {
        index_options(input.drop_last()).push(index_of(input.last())->Ok_0)
    } else {
        index_options(input.drop_last())
    }
}

/// Whether each slot holds what the option for it says: the access level
/// with the place of `public` or `private`, the accessor that `accessor`
/// names, the schedule that `scheduled` describes, and the event flag.
pub open spec fn slots_hold_options(input: Seq<MetaView>, slots: TableSlotsView) -> bool {
    forall|i: int|
        0 <= i < input.len() ==> match path_key((#[trigger] input[i]).path) {
            Some(Key::Public) => slots.access == Some(TableAccess::Public(input[i].path.span)),
            Some(Key::Private) => slots.access == Some(TableAccess::Private(input[i].path.span)),
            Some(Key::Accessor) => ident_of(input[i]) == Ok::<IdentView, ErrorView>(
                slots.accessor->0,
            ) && slots.accessor is Some,
            Some(Key::Scheduled) => scheduled_of(input[i]) == Ok::<ScheduledArgView, ErrorView>(
                slots.scheduled->0,
            ) && slots.scheduled is Some,
            Some(Key::Event) => slots.event == Some(()),
            _ => true,
        }
}

/// Where the options of a table are accepted, the table is what they say:
/// each slot holds the value of the one option for it, and the indices are
/// those of the options `index(...)`, in the order in which they are
/// written.
pub proof fn lemma_table_holds_options(input: Seq<MetaView>)
    requires
        table_slots_of(input) is Ok,
    ensures
        slots_hold_options(input, table_slots_of(input)->Ok_0),
        table_slots_of(input)->Ok_0.indices == index_options(input),
    decreases input.len(),
{
    let slots = table_slots_of(input)->Ok_0;
    if input.len() > 0 {
        let rest = input.drop_last();
        let last = input.last();
        lemma_table_holds_options(rest);
        let before = table_slots_of(rest)->Ok_0;
        assert(table_step(before, last) == Ok::<TableSlotsView, ErrorView>(slots));
        assert forall|i: int| 0 <= i < input.len() implies match path_key(
            (#[trigger] input[i]).path,
        ) {
            Some(Key::Public) => slots.access == Some(TableAccess::Public(input[i].path.span)),
            Some(Key::Private) => slots.access == Some(TableAccess::Private(input[i].path.span)),
            Some(Key::Accessor) => ident_of(input[i]) == Ok::<IdentView, ErrorView>(
                slots.accessor->0,
            ) && slots.accessor is Some,
            Some(Key::Scheduled) => scheduled_of(input[i]) == Ok::<ScheduledArgView, ErrorView>(
                slots.scheduled->0,
            ) && slots.scheduled is Some,
            Some(Key::Event) => slots.event == Some(()),
            _ => true,
        } by {
            if i < rest.len() {
                assert(input[i] == rest[i]);
            }
        }
    }
}

/// Parsing is a function of the annotation tree: two results that meet the
/// contract of the table parser on trees with the same view, for types of
/// the same name, have the same view.
pub proof fn lemma_same_tree_same_table(
    first: Result<TableArgsView, ErrorView>,
    second: Result<TableArgsView, ErrorView>,
    input: Seq<MetaView>,
    again: Seq<MetaView>,
    item_name: Seq<char>,
)
    requires
        input == again,
        first == table_of(input, item_name),
        second == table_of(again, item_name),
    ensures
        first == second,
{
}

/// Whether the option names an index algorithm.
pub open spec fn is_algorithm(meta: MetaView) -> bool {
    ||| path_key(meta.path) == Some(Key::Btree)
    ||| path_key(meta.path) == Some(Key::Hash)
    ||| path_key(meta.path) == Some(Key::Direct)
}

/// Whether one of the options names an index algorithm.
pub open spec fn has_algorithm(items: Seq<MetaView>) -> bool {
    exists|i: int| 0 <= i < items.len() && is_algorithm(#[trigger] items[i])
}

/// Where the options of an index are accepted, the index has an accessor
/// exactly if `accessor` was given, and an algorithm exactly if one was
/// named.
pub proof fn lemma_index_slots(items: Seq<MetaView>)
    requires
        index_slots_of(items) is Ok,
    ensures
        index_slots_of(items)->Ok_0.0 is Some <==> has_option(items, Key::Accessor),
        index_slots_of(items)->Ok_0.1 is Some <==> has_algorithm(items),
    decreases items.len(),
{
    if items.len() > 0 {
        let rest = items.drop_last();
        lemma_index_slots(rest);
        lemma_has_option_last(items, Key::Accessor);
        if has_algorithm(rest) {
            let i = choose|i: int| 0 <= i < rest.len() && is_algorithm(#[trigger] rest[i]);
            assert(items[i] == rest[i]);
        }
        if is_algorithm(items.last()) {
            assert(items[items.len() - 1] == items.last());
        }
        if has_algorithm(items) {
            let i = choose|i: int| 0 <= i < items.len() && is_algorithm(#[trigger] items[i]);
            if i < rest.len() {
                assert(rest[i] == items[i]);
            }
        }
    }
}

/// An index has one algorithm: `index(...)` that names two algorithms, the
/// same or different ones, is not accepted.
pub proof fn lemma_one_algorithm(meta: MetaView, i: int, j: int)
    requires
        meta.arg is Group,
        0 <= i < j < meta.arg->Group_0.len(),
        is_algorithm(meta.arg->Group_0[i]),
        is_algorithm(meta.arg->Group_0[j]),
    ensures
        index_of(meta) is Err,
{
    let items = meta.arg->Group_0;
    if index_slots_of(items) is Ok {
        let step = |slots: (Option<IdentView>, Option<IndexTypeView>), item: MetaView|
            index_step(slots, item);
        lemma_fold_prefix_ok(items, (None, None), step, j);
        lemma_fold_prefix_ok(items, (None, None), step, j + 1);
        lemma_fold_next(items, (None, None), step, j);
        lemma_index_slots(items.take(j));
        assert(items.take(j)[i] == items[i]);
    }
}

/// An index that is accepted has an accessor and an algorithm: `index(...)`
/// without the option `accessor`, or without an algorithm, is not accepted.
pub proof fn lemma_index_is_complete(meta: MetaView)
    requires
        index_of(meta) is Ok,
    ensures
        meta.arg is Group,
        has_option(meta.arg->Group_0, Key::Accessor),
        has_algorithm(meta.arg->Group_0),
        !index_of(meta)->Ok_0.is_unique,
{
    lemma_index_slots(meta.arg->Group_0);
}

/// Where the options of a schedule are accepted, the function is the path
/// of the one option without argument, and the column is the value of the
/// one option `at = column`; each is missing exactly if there is no such
/// option.
pub proof fn lemma_scheduled_slots(items: Seq<MetaView>)
    requires
        scheduled_slots_of(items) is Ok,
    ensures
        forall|i: int|
            0 <= i < items.len() && (#[trigger] items[i]).arg is Flag ==> scheduled_slots_of(
                items,
            )->Ok_0.0 == Some(items[i].path),
        forall|i: int|
            0 <= i < items.len() && (#[trigger] items[i]).arg !is Flag ==> ident_of(items[i])
                == Ok::<IdentView, ErrorView>(scheduled_slots_of(items)->Ok_0.1->0)
                && scheduled_slots_of(items)->Ok_0.1 is Some,
        scheduled_slots_of(items)->Ok_0.0 is None ==> forall|i: int|
            0 <= i < items.len() ==> (#[trigger] items[i]).arg !is Flag,
        scheduled_slots_of(items)->Ok_0.1 is None ==> forall|i: int|
            0 <= i < items.len() ==> (#[trigger] items[i]).arg is Flag,
    decreases items.len(),
{
    if items.len() > 0 {
        let rest = items.drop_last();
        let slots = scheduled_slots_of(items)->Ok_0;
        lemma_scheduled_slots(rest);
        assert forall|i: int| 0 <= i < items.len() && (#[trigger] items[i]).arg is Flag implies slots.0
            == Some(items[i].path) by {
            if i < rest.len() {
                assert(items[i] == rest[i]);
            }
        }
        assert forall|i: int| 0 <= i < items.len() && (#[trigger] items[i]).arg !is Flag implies ident_of(
            items[i],
        ) == Ok::<IdentView, ErrorView>(slots.1->0) && slots.1 is Some by {
            if i < rest.len() {
                assert(items[i] == rest[i]);
            }
        }
        if slots.0 is None {
            assert forall|i: int| 0 <= i < items.len() implies (#[trigger] items[i]).arg !is Flag by {
                if i < rest.len() {
                    assert(items[i] == rest[i]);
                }
            }
        }
        if slots.1 is None {
            assert forall|i: int| 0 <= i < items.len() implies (#[trigger] items[i]).arg is Flag by {
                if i < rest.len() {
                    assert(items[i] == rest[i]);
                }
            }
        }
    }
}

/// A schedule has one function: `scheduled(...)` with two options without
/// argument is not accepted.
pub proof fn lemma_one_scheduled_function(meta: MetaView, i: int, j: int)
    requires
        meta.arg is Group,
        0 <= i < j < meta.arg->Group_0.len(),
        meta.arg->Group_0[i].arg is Flag,
        meta.arg->Group_0[j].arg is Flag,
    ensures
        scheduled_of(meta) is Err,
{
    let items = meta.arg->Group_0;
    if scheduled_slots_of(items) is Ok {
        let step = |slots: (Option<PathView>, Option<IdentView>), item: MetaView|
            scheduled_step(slots, item);
        lemma_fold_prefix_ok(items, (None, None), step, j);
        lemma_fold_prefix_ok(items, (None, None), step, j + 1);
        lemma_fold_next(items, (None, None), step, j);
        lemma_scheduled_slots(items.take(j));
        assert(items.take(j)[i] == items[i]);
    }
}

} // verus!
