//! The description of a table, read from the annotations on a type.
use vstd::prelude::*;
use crate::error::{
    check_duplicate, check_duplicate_msg, result_view, Error, ErrorKind, ErrorView, Scope,
};
use crate::fold::{fold, lemma_fold_error, lemma_fold_next};
use crate::forms::{duplicate, flag_of, ident_of, parse_flag, parse_ident, unrecognized};
use crate::index::index_of;
use crate::scheduled::scheduled_of;
use crate::sym::{path_key, Key};
use crate::syntax::{
    lemma_group_view, lemma_push_view, Ident, IdentView, Item, Meta, MetaView, Span,
};
use crate::text::{snake_case, to_snake_case};

pub use crate::column::{Column, ColumnArgs, ColumnAttr};
pub use crate::index::{IndexArg, IndexArgView, IndexType};
pub use crate::scheduled::{ScheduledArg, ScheduledArgView};

verus! {

/// Who may read the table, with the place of the option that said so.
#[derive(Clone, Copy, Debug, PartialEq, Eq, Structural)]
pub enum TableAccess {
    Public(Span),
    Private(Span),
}

impl DeepView for TableAccess {
    type V = TableAccess;

    open spec fn deep_view(&self) -> TableAccess {
        *self
    }
}

/// The table-level options of an annotated type.
#[derive(Debug, PartialEq, Eq)]
pub struct TableArgs {
    pub access: Option<TableAccess>,
    pub scheduled: Option<ScheduledArg>,
    pub accessor: Ident,
    pub indices: Vec<IndexArg>,
    pub event: Option<()>,
}

/// The view of [`TableArgs`].
pub struct TableArgsView {
    pub access: Option<TableAccess>,
    pub scheduled: Option<ScheduledArgView>,
    pub accessor: IdentView,
    pub indices: Seq<IndexArgView>,
    pub event: Option<()>,
}

impl DeepView for TableArgs {
    type V = TableArgsView;

    open spec fn deep_view(&self) -> TableArgsView {
        TableArgsView {
            access: self.access,
            scheduled: self.scheduled.deep_view(),
            accessor: self.accessor@,
            indices: self.indices.deep_view(),
            event: self.event,
        }
    }
}

impl View for TableArgs {
    type V = TableArgsView;

    open spec fn view(&self) -> TableArgsView {
        self.deep_view()
    }
}

/// The table's options as far as they have been read.
#[derive(Debug, PartialEq, Eq)]
pub struct TableSlots {
    pub access: Option<TableAccess>,
    pub scheduled: Option<ScheduledArg>,
    pub accessor: Option<Ident>,
    pub indices: Vec<IndexArg>,
    pub event: Option<()>,
}

/// The view of [`TableSlots`].
pub struct TableSlotsView {
    pub access: Option<TableAccess>,
    pub scheduled: Option<ScheduledArgView>,
    pub accessor: Option<IdentView>,
    pub indices: Seq<IndexArgView>,
    pub event: Option<()>,
}

impl DeepView for TableSlots {
    type V = TableSlotsView;

    open spec fn deep_view(&self) -> TableSlotsView {
        TableSlotsView {
            access: self.access,
            scheduled: self.scheduled.deep_view(),
            accessor: self.accessor.deep_view(),
            indices: self.indices.deep_view(),
            event: self.event,
        }
    }
}

impl View for TableSlots {
    type V = TableSlotsView;

    open spec fn view(&self) -> TableSlotsView {
        self.deep_view()
    }
}

impl TableSlotsView {
    /// Nothing read yet.
    pub open spec fn empty() -> TableSlotsView {
        TableSlotsView {
            access: None,
            scheduled: None,
            accessor: None,
            indices: Seq::empty(),
            event: None,
        }
    }
}

/// One option of the table.
///
/// `public` and `private` share the access level, which is set once; so are
/// `accessor`, `scheduled` and `event`. `index` may be repeated, and each
/// one becomes one more index, in the order in which they are written.
/// `name` is accepted and not looked at.
pub open spec fn table_step(slots: TableSlotsView, meta: MetaView) -> Result<
    TableSlotsView,
    ErrorView,
> {
    match path_key(meta.path) {
        Some(Key::Public) => if slots.access is Some {
            Err(ErrorView::new(ErrorKind::DuplicateAccess, meta.path.span))
        } else {
            match flag_of(meta) {
                Ok(_) => Ok(
                    TableSlotsView { access: Some(TableAccess::Public(meta.path.span)), ..slots },
                ),
                Err(error) => Err(error),
            }
        },
        Some(Key::Private) => if slots.access is Some {
            Err(ErrorView::new(ErrorKind::DuplicateAccess, meta.path.span))
        } else {
            match flag_of(meta) {
                Ok(_) => Ok(
                    TableSlotsView { access: Some(TableAccess::Private(meta.path.span)), ..slots },
                ),
                Err(error) => Err(error),
            }
        },
        Some(Key::Name) => Ok(slots),
        Some(Key::Accessor) => if slots.accessor is Some {
            Err(duplicate(Key::Accessor, meta))
        } else {
            match ident_of(meta) {
                Ok(accessor) => Ok(TableSlotsView { accessor: Some(accessor), ..slots }),
                Err(error) => Err(error),
            }
        },
        Some(Key::Index) => match index_of(meta) {
            Ok(index) => Ok(TableSlotsView { indices: slots.indices.push(index), ..slots }),
            Err(error) => Err(error),
        },
        Some(Key::Scheduled) => if slots.scheduled is Some {
            Err(duplicate(Key::Scheduled, meta))
        } else {
            match scheduled_of(meta) {
                Ok(scheduled) => Ok(TableSlotsView { scheduled: Some(scheduled), ..slots }),
                Err(error) => Err(error),
            }
        },
        Some(Key::Event) => if slots.event is Some {
            Err(duplicate(Key::Event, meta))
        } else {
            match flag_of(meta) {
                Ok(_) => Ok(TableSlotsView { event: Some(()), ..slots }),
                Err(error) => Err(error),
            }
        },
        _ => Err(unrecognized(Scope::Table, meta)),
    }
}

/// The table's options after all of `input` has been read, or the first
/// error.
pub open spec fn table_slots_of(input: Seq<MetaView>) -> Result<TableSlotsView, ErrorView> {
    fold(
        input,
        TableSlotsView::empty(),
        |slots: TableSlotsView, item: MetaView| table_step(slots, item),
    )
}

/// The table that the options `input` describe, on a type called
/// `item_name`. The accessor is required; where it is missing, the error
/// proposes the snake-case form of the type's name.
pub open spec fn table_of(input: Seq<MetaView>, item_name: Seq<char>) -> Result<
    TableArgsView,
    ErrorView,
> {
    match table_slots_of(input) {
        Ok(slots) => match slots.accessor {
            Some(accessor) => Ok(
                TableArgsView {
                    access: slots.access,
                    scheduled: slots.scheduled,
                    accessor,
                    indices: slots.indices,
                    event: slots.event,
                },
            ),
            None => Err(ErrorView::missing_table_accessor(snake_case(item_name))),
        },
        Err(error) => Err(error),
    }
}

impl TableArgs {
    fn table_step(slots: TableSlots, meta: &Meta) -> (result: Result<TableSlots, Error>)
        ensures
            result_view(result) == table_step(slots@, meta@),
    {
        proof {
            lemma_group_view(*meta);
        }
        let mut slots = slots;
        match Key::of_path(&meta.path) {
            Some(Key::Public) => {
                check_duplicate_msg(&slots.access, meta.path.span, ErrorKind::DuplicateAccess)?;
                parse_flag(meta)?;
                slots.access = Some(TableAccess::Public(meta.path.span));
            },
            Some(Key::Private) => {
                check_duplicate_msg(&slots.access, meta.path.span, ErrorKind::DuplicateAccess)?;
                parse_flag(meta)?;
                slots.access = Some(TableAccess::Private(meta.path.span));
            },
            Some(Key::Name) => {},
            Some(Key::Accessor) => {
                check_duplicate(&slots.accessor, meta.path.span, Key::Accessor)?;
                slots.accessor = Some(parse_ident(meta)?);
            },
            Some(Key::Index) => {
                let index = IndexArg::parse_meta(meta)?;
                let ghost before = slots.indices;
                slots.indices.push(index);
                proof {
                    lemma_push_view(before, slots.indices, index);
                }
            },
            Some(Key::Scheduled) => {
                check_duplicate(&slots.scheduled, meta.path.span, Key::Scheduled)?;
                slots.scheduled = Some(ScheduledArg::parse_meta(meta)?);
            },
            Some(Key::Event) => {
                check_duplicate(&slots.event, meta.path.span, Key::Event)?;
                parse_flag(meta)?;
                slots.event = Some(());
            },
            _ => {
                return Err(Error::new(ErrorKind::Unrecognized(Scope::Table), meta.path.span));
            },
        }
        Ok(slots)
    }

    /// Reads the options of the table, written on the type `item`.
    ///
    /// The result is a function of the options and of the type's name:
    /// [`table_of`]. It is the table with every option in its slot and the
    /// indices in the order in which they are written, or the error of the
    /// first option that cannot be accepted, or, where no option is wrong
    /// and the accessor is missing, the error that proposes an accessor.
    pub fn parse(input: &Vec<Meta>, item: &Item) -> (result: Result<TableArgs, Error>)
        ensures
            result_view(result) == table_of(input.deep_view(), item@.ident.name),
    {
        let ghost views = input.deep_view();
        let ghost step = |slots: TableSlotsView, item: MetaView| table_step(slots, item);
        let mut slots = TableSlots {
            access: None,
            scheduled: None,
            accessor: None,
            indices: Vec::new(),
            event: None,
        };
        assert(slots@.indices =~= Seq::empty());
        let mut i: usize = 0;
        while i < input.len()
            invariant
                i <= input.len(),
                views == input.deep_view(),
                step == |slots: TableSlotsView, item: MetaView| table_step(slots, item),
                fold(views.take(i as int), TableSlotsView::empty(), step) == Ok::<_, ErrorView>(
                    slots@,
                ),
            decreases input.len() - i,
        {
            proof {
                lemma_fold_next(views, TableSlotsView::empty(), step, i as int);
            }
            match Self::table_step(slots, &input[i]) {
                Ok(next) => {
                    slots = next;
                },
                Err(error) => {
                    proof {
                        lemma_fold_error(views, TableSlotsView::empty(), step, i + 1);
                    }
                    return Err(error);
                },
            }
            i += 1;
        }
        assert(views.take(input.len() as int) =~= views);
        match slots.accessor {
            Some(accessor) => Ok(
                TableArgs {
                    access: slots.access,
                    scheduled: slots.scheduled,
                    accessor,
                    indices: slots.indices,
                    event: slots.event,
                },
            ),
            None => Err(Error::missing_table_accessor(to_snake_case(item.ident.name.as_str()))),
        }
    }
}

} // verus!
