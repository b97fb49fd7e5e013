//! The schedule of a table: the function that runs, and the column that
//! holds the time.
use vstd::prelude::*;
use crate::error::{
    check_duplicate, check_duplicate_msg, result_view, Error, ErrorKind, ErrorView, Scope,
};
use crate::fold::{fold, lemma_fold_error, lemma_fold_next};
use crate::forms::{duplicate, group_of, ident_of, parse_group, parse_ident, unrecognized};
use crate::sym::{path_key, Key};
use crate::syntax::{
    lemma_group_view, Ident, IdentView, Meta, MetaArg, MetaView, Path, PathView, Span,
};

verus! {

/// The function that runs on the table's schedule, and the column that holds
/// the time.
#[derive(Debug, PartialEq, Eq)]
pub struct ScheduledArg {
    pub span: Span,
    pub reducer_or_procedure: Path,
    pub at: Option<Ident>,
}

/// The view of [`ScheduledArg`].
pub struct ScheduledArgView {
    pub span: Span,
    pub reducer_or_procedure: PathView,
    pub at: Option<IdentView>,
}

impl DeepView for ScheduledArg {
    type V = ScheduledArgView;

    open spec fn deep_view(&self) -> ScheduledArgView {
        ScheduledArgView {
            span: self.span,
            reducer_or_procedure: self.reducer_or_procedure@,
            at: self.at.deep_view(),
        }
    }
}

impl View for ScheduledArg {
    type V = ScheduledArgView;

    open spec fn view(&self) -> ScheduledArgView {
        self.deep_view()
    }
}

/// One option of `scheduled(...)`. An option without argument is the path of
/// the function to run; `at = column` names the column that holds the time.
/// The state is the function and the column found so far.
pub open spec fn scheduled_step(
    slots: (Option<PathView>, Option<IdentView>),
    meta: MetaView,
) -> Result<(Option<PathView>, Option<IdentView>), ErrorView> {
    if meta.arg is Flag {
        if slots.0 is Some {
            Err(ErrorView::new(ErrorKind::DuplicateScheduledFunction, meta.path.span))
        } else {
            Ok((Some(meta.path), slots.1))
        }
    } else if path_key(meta.path) != Some(Key::At) {
        Err(unrecognized(Scope::Scheduled, meta))
    } else if slots.1 is Some {
        Err(duplicate(Key::At, meta))
    } else {
        match ident_of(meta) {
            Ok(at) => Ok((slots.0, Some(at))),
            Err(error) => Err(error),
        }
    }
}

/// The function and the column after all of `items` have been read, or the
/// first error.
pub open spec fn scheduled_slots_of(items: Seq<MetaView>) -> Result<
    (Option<PathView>, Option<IdentView>),
    ErrorView,
> {
    fold(
        items,
        (None, None),
        |slots: (Option<PathView>, Option<IdentView>), item: MetaView|
            scheduled_step(slots, item),
    )
}

/// The schedule that `scheduled(function, at = column)` describes: exactly
/// one function, and at most one column.
pub open spec fn scheduled_of(meta: MetaView) -> Result<ScheduledArgView, ErrorView> {
    match group_of(meta) {
        Ok(items) => match scheduled_slots_of(items) {
            Ok((Some(reducer_or_procedure), at)) => Ok(
                ScheduledArgView { span: meta.path.span, reducer_or_procedure, at },
            ),
            Ok((None, _)) => Err(ErrorView::new(ErrorKind::MissingScheduledFunction, meta.span)),
            Err(error) => Err(error),
        },
        Err(error) => Err(error),
    }
}

impl ScheduledArg {
    fn scheduled_step(slots: (Option<Path>, Option<Ident>), meta: &Meta) -> (result: Result<
        (Option<Path>, Option<Ident>),
        Error,
    >)
        ensures
            result_view(result) == scheduled_step(slots.deep_view(), meta@),
    {
        proof {
            lemma_group_view(*meta);
        }
        let (reducer_or_procedure, at) = slots;
        match &meta.arg {
            MetaArg::Flag => {
                check_duplicate_msg(
                    &reducer_or_procedure,
                    meta.path.span,
                    ErrorKind::DuplicateScheduledFunction,
                )?;
                Ok((Some(meta.path.clone()), at))
            },
            _ => {
                match Key::of_path(&meta.path) {
                    Some(Key::At) => {},
                    _ => {
                        return Err(
                            Error::new(ErrorKind::Unrecognized(Scope::Scheduled), meta.path.span),
                        );
                    },
                }
                check_duplicate(&at, meta.path.span, Key::At)?;
                let ident = parse_ident(meta)?;
                Ok((reducer_or_procedure, Some(ident)))
            },
        }
    }

    /// Reads `scheduled(function, at = column)`.
    pub fn parse_meta(meta: &Meta) -> (result: Result<ScheduledArg, Error>)
        ensures
            result_view(result) == scheduled_of(meta@),
    {
        let items = parse_group(meta)?;
        let ghost views = items.deep_view();
        let ghost step = |slots: (Option<PathView>, Option<IdentView>), item: MetaView|
            scheduled_step(slots, item);
        let mut slots: (Option<Path>, Option<Ident>) = (None, None);
        let mut i: usize = 0;
        while i < items.len()
            invariant
                i <= items.len(),
                views == items.deep_view(),
                group_of(meta@) == Ok::<Seq<MetaView>, ErrorView>(views),
                step == |slots: (Option<PathView>, Option<IdentView>), item: MetaView|
                    scheduled_step(slots, item),
                fold(views.take(i as int), (None, None), step) == Ok::<_, ErrorView>(
                    slots.deep_view(),
                ),
            decreases items.len() - i,
        {
            proof {
                lemma_fold_next(views, (None, None), step, i as int);
            }
            match Self::scheduled_step(slots, &items[i]) {
                Ok(next) => {
                    slots = next;
                },
                Err(error) => {
                    proof {
                        lemma_fold_error(views, (None, None), step, i + 1);
                    }
                    return Err(error);
                },
            }
            i += 1;
        }
        assert(views.take(items.len() as int) =~= views);
        proof {
            lemma_group_view(*meta);
        }
        match slots {
            (Some(reducer_or_procedure), at) => Ok(
                ScheduledArg { span: meta.path.span, reducer_or_procedure, at },
            ),
            (None, _) => Err(Error::new(ErrorKind::MissingScheduledFunction, meta.span)),
        }
    }
}

} // verus!
