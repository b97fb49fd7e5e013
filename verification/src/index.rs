//! Indices: the algorithm, the columns, and how they are written, among the
//! table's options and on a field.
use vstd::prelude::*;
use crate::error::{
    check_duplicate, check_duplicate_msg, result_view, Error, ErrorKind, ErrorView, Form, Scope,
};
use crate::fold::{fold, lemma_fold_error, lemma_fold_next};
use crate::forms::{
    duplicate, expected, flag_of, group_of, ident_of, list_of, options_of, parse_flag,
    parse_group, parse_ident, parse_list, parse_options, unrecognized,
};
use crate::sym::{path_key, Key};
use crate::syntax::{lemma_group_view, Attribute, AttributeView, Ident, IdentView, Meta, MetaView};
use crate::text::str_eq;

verus! {

/// The algorithm of an index and the columns it is built on.
#[derive(Debug, PartialEq, Eq)]
pub enum IndexType {
    BTree { columns: Vec<Ident> },
    Hash { columns: Vec<Ident> },
    Direct { column: Ident },
}

/// The view of [`IndexType`].
pub enum IndexTypeView {
    BTree { columns: Seq<IdentView> },
    Hash { columns: Seq<IdentView> },
    Direct { column: IdentView },
}

impl DeepView for IndexType {
    type V = IndexTypeView;

    open spec fn deep_view(&self) -> IndexTypeView {
        match self {
            IndexType::BTree { columns } => IndexTypeView::BTree { columns: columns.deep_view() },
            IndexType::Hash { columns } => IndexTypeView::Hash { columns: columns.deep_view() },
            IndexType::Direct { column } => IndexTypeView::Direct { column: column@ },
        }
    }
}

impl View for IndexType {
    type V = IndexTypeView;

    open spec fn view(&self) -> IndexTypeView {
        self.deep_view()
    }
}

impl IndexTypeView {
    /// Whether the index is built on at least one column.
    pub open spec fn has_columns(self) -> bool {
        match self {
            IndexTypeView::BTree { columns } => columns.len() > 0,
            IndexTypeView::Hash { columns } => columns.len() > 0,
            IndexTypeView::Direct { .. } => true,
        }
    }

    /// Whether the index is built on the one column called `name`, and on no
    /// other.
    pub open spec fn is_on(self, name: Seq<char>) -> bool {
        match self {
            IndexTypeView::BTree { columns } => columns.len() == 1 && columns[0].name == name,
            IndexTypeView::Hash { columns } => columns.len() == 1 && columns[0].name == name,
            IndexTypeView::Direct { column } => column.name == name,
        }
    }
}

/// An index of the table.
#[derive(Debug, PartialEq, Eq)]
pub struct IndexArg {
    pub accessor: Ident,
    pub is_unique: bool,
    pub kind: IndexType,
}

/// The view of [`IndexArg`].
pub struct IndexArgView {
    pub accessor: IdentView,
    pub is_unique: bool,
    pub kind: IndexTypeView,
}

impl DeepView for IndexArg {
    type V = IndexArgView;

    open spec fn deep_view(&self) -> IndexArgView {
        IndexArgView { accessor: self.accessor@, is_unique: self.is_unique, kind: self.kind@ }
    }
}

impl View for IndexArg {
    type V = IndexArgView;

    open spec fn view(&self) -> IndexArgView {
        self.deep_view()
    }
}

impl IndexArgView {
    /// An index as the parsers leave it: not yet known to be unique.
    pub open spec fn new(accessor: IdentView, kind: IndexTypeView) -> IndexArgView {
        IndexArgView { accessor, is_unique: false, kind }
    }

    /// The same index, known to be unique.
    pub open spec fn unique(self) -> IndexArgView {
        IndexArgView { is_unique: true, ..self }
    }

    /// The unique b-tree index that is made for a column which no declared
    /// index is built on.
    pub open spec fn for_column(column: IdentView) -> IndexArgView {
        IndexArgView {
            accessor: column,
            is_unique: true,
            kind: IndexTypeView::BTree { columns: seq![column] },
        }
    }
}

impl IndexArg {
    /// An index that is not yet known to be unique: that is found out once
    /// the constraints on the columns have been collected.
    pub fn new(accessor: Ident, kind: IndexType) -> (index: IndexArg)
        ensures
            index@ == IndexArgView::new(accessor@, kind@),
    {
        IndexArg { accessor, is_unique: false, kind }
    }

    /// Whether the index is built on the one column called `name`, and on no
    /// other.
    pub fn is_on(&self, name: &str) -> (on: bool)
        ensures
            on == self@.kind.is_on(name@),
    {
        match &self.kind {
            IndexType::BTree { columns } => columns.len() == 1 && str_eq(
                columns[0].name.as_str(),
                name,
            ),
            IndexType::Hash { columns } => columns.len() == 1 && str_eq(
                columns[0].name.as_str(),
                name,
            ),
            IndexType::Direct { column } => str_eq(column.name.as_str(), name),
        }
    }
}

/// One option of `btree(...)` or `hash(...)`: `columns = [a, b, ...]`, once,
/// with at least one column.
pub open spec fn columns_step(columns: Option<Seq<IdentView>>, meta: MetaView) -> Result<
    Option<Seq<IdentView>>,
    ErrorView,
> {
    if path_key(meta.path) != Some(Key::Columns) {
        Err(unrecognized(Scope::Columns, meta))
    } else if columns is Some {
        Err(duplicate(Key::Columns, meta))
    } else {
        match list_of(meta) {
            Ok(idents) => if idents.len() == 0 {
                Err(expected(Form::Ident, meta))
            } else {
                Ok(Some(idents))
            },
            Err(error) => Err(error),
        }
    }
}

/// The columns that `btree(...)` or `hash(...)` names, if it names any.
pub open spec fn columns_of(meta: MetaView) -> Result<Option<Seq<IdentView>>, ErrorView> {
    match group_of(meta) {
        Ok(items) => fold(
            items,
            None,
            |columns: Option<Seq<IdentView>>, item: MetaView| columns_step(columns, item),
        ),
        Err(error) => Err(error),
    }
}

/// The b-tree index that `btree(columns = [...])` describes.
pub open spec fn btree_of(meta: MetaView) -> Result<IndexTypeView, ErrorView> {
    match columns_of(meta) {
        Ok(Some(columns)) => Ok(IndexTypeView::BTree { columns }),
        Ok(None) => Err(ErrorView::new(ErrorKind::MissingBtreeColumns, meta.span)),
        Err(error) => Err(error),
    }
}

/// The hash index that `hash(columns = [...])` describes.
pub open spec fn hash_of(meta: MetaView) -> Result<IndexTypeView, ErrorView> {
    match columns_of(meta) {
        Ok(Some(columns)) => Ok(IndexTypeView::Hash { columns }),
        Ok(None) => Err(ErrorView::new(ErrorKind::MissingHashColumns, meta.span)),
        Err(error) => Err(error),
    }
}

/// One option of `direct(...)`: `column = [a]`, once, with exactly one
/// column between the brackets.
pub open spec fn direct_step(column: Option<IdentView>, meta: MetaView) -> Result<
    Option<IdentView>,
    ErrorView,
> {
    if path_key(meta.path) != Some(Key::Column) {
        Err(unrecognized(Scope::DirectColumn, meta))
    } else if column is Some {
        Err(duplicate(Key::Column, meta))
    } else {
        match list_of(meta) {
            Ok(idents) => if idents.len() == 1 {
                Ok(Some(idents[0]))
            } else {
                Err(expected(Form::OneIdent, meta))
            },
            Err(error) => Err(error),
        }
    }
}

/// The direct index that `direct(column = [a])` describes.
pub open spec fn direct_of(meta: MetaView) -> Result<IndexTypeView, ErrorView> {
    match group_of(meta) {
        Ok(items) => match fold(
            items,
            None,
            |column: Option<IdentView>, item: MetaView| direct_step(column, item),
        ) {
            Ok(Some(column)) => Ok(IndexTypeView::Direct { column }),
            Ok(None) => Err(ErrorView::new(ErrorKind::MissingDirectColumn, meta.span)),
            Err(error) => Err(error),
        },
        Err(error) => Err(error),
    }
}

impl IndexArg {
    fn columns_step(columns: Option<Vec<Ident>>, meta: &Meta) -> (result: Result<
        Option<Vec<Ident>>,
        Error,
    >)
        ensures
            result_view(result) == columns_step(columns.deep_view(), meta@),
    {
        proof {
            lemma_group_view(*meta);
        }
        match Key::of_path(&meta.path) {
            Some(Key::Columns) => {},
            _ => {
                return Err(Error::new(ErrorKind::Unrecognized(Scope::Columns), meta.path.span));
            },
        }
        check_duplicate(&columns, meta.path.span, Key::Columns)?;
        let idents = parse_list(meta)?;
        if idents.len() == 0 {
            return Err(Error::new(ErrorKind::Expected(Form::Ident), meta.span));
        }
        Ok(Some(idents))
    }

    /// Reads the columns of `btree(...)` or `hash(...)`: the one option
    /// `columns = [a, b, ...]`, if it is there.
    pub fn parse_columns(meta: &Meta) -> (result: Result<Option<Vec<Ident>>, Error>)
        ensures
            result_view(result) == columns_of(meta@),
    {
        let items = parse_group(meta)?;
        let ghost views = items.deep_view();
        let ghost step = |columns: Option<Seq<IdentView>>, item: MetaView|
            columns_step(columns, item);
        let mut columns: Option<Vec<Ident>> = None;
        let mut i: usize = 0;
        while i < items.len()
            invariant
                i <= items.len(),
                views == items.deep_view(),
                group_of(meta@) == Ok::<Seq<MetaView>, ErrorView>(views),
                step == |columns: Option<Seq<IdentView>>, item: MetaView|
                    columns_step(columns, item),
                fold(views.take(i as int), None, step) == Ok::<_, ErrorView>(columns.deep_view()),
            decreases items.len() - i,
        {
            proof {
                lemma_fold_next(views, None, step, i as int);
            }
            match Self::columns_step(columns, &items[i]) {
                Ok(next) => {
                    columns = next;
                },
                Err(error) => {
                    proof {
                        lemma_fold_error(views, None, step, i + 1);
                    }
                    return Err(error);
                },
            }
            i += 1;
        }
        assert(views.take(items.len() as int) =~= views);
        Ok(columns)
    }

    /// Reads `btree(columns = [a, b, ...])`.
    pub fn parse_btree(meta: &Meta) -> (result: Result<IndexType, Error>)
        ensures
            result_view(result) == btree_of(meta@),
    {
        match Self::parse_columns(meta)? {
            Some(columns) => Ok(IndexType::BTree { columns }),
            None => Err(Error::new(ErrorKind::MissingBtreeColumns, meta.span)),
        }
    }

    /// Reads `hash(columns = [a, b, ...])`.
    pub fn parse_hash(meta: &Meta) -> (result: Result<IndexType, Error>)
        ensures
            result_view(result) == hash_of(meta@),
    {
        match Self::parse_columns(meta)? {
            Some(columns) => Ok(IndexType::Hash { columns }),
            None => Err(Error::new(ErrorKind::MissingHashColumns, meta.span)),
        }
    }

    fn direct_step(column: Option<Ident>, meta: &Meta) -> (result: Result<Option<Ident>, Error>)
        ensures
            result_view(result) == direct_step(column.deep_view(), meta@),
    {
        proof {
            lemma_group_view(*meta);
        }
        match Key::of_path(&meta.path) {
            Some(Key::Column) => {},
            _ => {
                return Err(
                    Error::new(ErrorKind::Unrecognized(Scope::DirectColumn), meta.path.span),
                );
            },
        }
        check_duplicate(&column, meta.path.span, Key::Column)?;
        let idents = parse_list(meta)?;
        if idents.len() != 1 {
            return Err(Error::new(ErrorKind::Expected(Form::OneIdent), meta.span));
        }
        Ok(Some(idents[0].clone()))
    }

    /// Reads `direct(column = [a])`.
    pub fn parse_direct(meta: &Meta) -> (result: Result<IndexType, Error>)
        ensures
            result_view(result) == direct_of(meta@),
    {
        let items = parse_group(meta)?;
        let ghost views = items.deep_view();
        let ghost step = |column: Option<IdentView>, item: MetaView| direct_step(column, item);
        let mut column: Option<Ident> = None;
        let mut i: usize = 0;
        while i < items.len()
            invariant
                i <= items.len(),
                views == items.deep_view(),
                group_of(meta@) == Ok::<Seq<MetaView>, ErrorView>(views),
                step == |column: Option<IdentView>, item: MetaView| direct_step(column, item),
                fold(views.take(i as int), None, step) == Ok::<_, ErrorView>(column.deep_view()),
            decreases items.len() - i,
        {
            proof {
                lemma_fold_next(views, None, step, i as int);
            }
            match Self::direct_step(column, &items[i]) {
                Ok(next) => {
                    column = next;
                },
                Err(error) => {
                    proof {
                        lemma_fold_error(views, None, step, i + 1);
                    }
                    return Err(error);
                },
            }
            i += 1;
        }
        assert(views.take(items.len() as int) =~= views);
        match column {
            Some(column) => Ok(IndexType::Direct { column }),
            None => Err(Error::new(ErrorKind::MissingDirectColumn, meta.span)),
        }
    }
}

/// One option of `index(...)` among the table's options. The state is the
/// accessor and the algorithm found so far.
pub open spec fn index_step(
    slots: (Option<IdentView>, Option<IndexTypeView>),
    meta: MetaView,
) -> Result<(Option<IdentView>, Option<IndexTypeView>), ErrorView> {
    match path_key(meta.path) {
        Some(Key::Name) => Ok(slots),
        Some(Key::Accessor) => if slots.0 is Some {
            Err(duplicate(Key::Accessor, meta))
        } else {
            match ident_of(meta) {
                Ok(accessor) => Ok((Some(accessor), slots.1)),
                Err(error) => Err(error),
            }
        },
        Some(Key::Btree) => if slots.1 is Some {
            Err(ErrorView::new(ErrorKind::DuplicateIndexAlgorithm, meta.path.span))
        } else {
            match btree_of(meta) {
                Ok(kind) => Ok((slots.0, Some(kind))),
                Err(error) => Err(error),
            }
        },
        Some(Key::Hash) => if slots.1 is Some {
            Err(ErrorView::new(ErrorKind::DuplicateIndexAlgorithm, meta.path.span))
        } else {
            match hash_of(meta) {
                Ok(kind) => Ok((slots.0, Some(kind))),
                Err(error) => Err(error),
            }
        },
        Some(Key::Direct) => if slots.1 is Some {
            Err(ErrorView::new(ErrorKind::DuplicateIndexAlgorithm, meta.path.span))
        } else {
            match direct_of(meta) {
                Ok(kind) => Ok((slots.0, Some(kind))),
                Err(error) => Err(error),
            }
        },
        _ => Err(unrecognized(Scope::Index, meta)),
    }
}

/// The accessor and the algorithm after all of `items` have been read, or
/// the first error.
pub open spec fn index_slots_of(items: Seq<MetaView>) -> Result<
    (Option<IdentView>, Option<IndexTypeView>),
    ErrorView,
> {
    fold(
        items,
        (None, None),
        |slots: (Option<IdentView>, Option<IndexTypeView>), item: MetaView|
            index_step(slots, item),
    )
}

/// The index that `index(accessor = name, algorithm(...))` describes: an
/// accessor and exactly one algorithm, in any order.
pub open spec fn index_of(meta: MetaView) -> Result<IndexArgView, ErrorView> {
    match group_of(meta) {
        Ok(items) => match index_slots_of(items) {
            Ok((Some(accessor), Some(kind))) => Ok(IndexArgView::new(accessor, kind)),
            Ok((Some(_), None)) => Err(ErrorView::new(ErrorKind::MissingIndexAlgorithm, meta.span)),
            Ok((None, _)) => Err(ErrorView::new(ErrorKind::MissingIndexAccessor, meta.span)),
            Err(error) => Err(error),
        },
        Err(error) => Err(error),
    }
}

impl IndexArg {
    fn index_step(slots: (Option<Ident>, Option<IndexType>), meta: &Meta) -> (result: Result<
        (Option<Ident>, Option<IndexType>),
        Error,
    >)
        ensures
            result_view(result) == index_step(slots.deep_view(), meta@),
    {
        proof {
            lemma_group_view(*meta);
        }
        let (accessor, algo) = slots;
        match Key::of_path(&meta.path) {
            Some(Key::Name) => Ok((accessor, algo)),
            Some(Key::Accessor) => {
                check_duplicate(&accessor, meta.path.span, Key::Accessor)?;
                let ident = parse_ident(meta)?;
                Ok((Some(ident), algo))
            },
            Some(Key::Btree) => {
                check_duplicate_msg(&algo, meta.path.span, ErrorKind::DuplicateIndexAlgorithm)?;
                let kind = Self::parse_btree(meta)?;
                Ok((accessor, Some(kind)))
            },
            Some(Key::Hash) => {
                check_duplicate_msg(&algo, meta.path.span, ErrorKind::DuplicateIndexAlgorithm)?;
                let kind = Self::parse_hash(meta)?;
                Ok((accessor, Some(kind)))
            },
            Some(Key::Direct) => {
                check_duplicate_msg(&algo, meta.path.span, ErrorKind::DuplicateIndexAlgorithm)?;
                let kind = Self::parse_direct(meta)?;
                Ok((accessor, Some(kind)))
            },
            _ => Err(Error::new(ErrorKind::Unrecognized(Scope::Index), meta.path.span)),
        }
    }

    /// Reads `index(accessor = name, algorithm(...))` among the table's
    /// options.
    pub fn parse_meta(meta: &Meta) -> (result: Result<IndexArg, Error>)
        ensures
            result_view(result) == index_of(meta@),
    {
        let items = parse_group(meta)?;
        let ghost views = items.deep_view();
        let ghost step = |slots: (Option<IdentView>, Option<IndexTypeView>), item: MetaView|
            index_step(slots, item);
        let mut slots: (Option<Ident>, Option<IndexType>) = (None, None);
        let mut i: usize = 0;
        while i < items.len()
            invariant
                i <= items.len(),
                views == items.deep_view(),
                group_of(meta@) == Ok::<Seq<MetaView>, ErrorView>(views),
                step == |slots: (Option<IdentView>, Option<IndexTypeView>), item: MetaView|
                    index_step(slots, item),
                fold(views.take(i as int), (None, None), step) == Ok::<_, ErrorView>(
                    slots.deep_view(),
                ),
            decreases items.len() - i,
        {
            proof {
                lemma_fold_next(views, (None, None), step, i as int);
            }
            match Self::index_step(slots, &items[i]) {
                Ok(next) => {
                    slots = next;
                },
                Err(error) => {
                    proof {
                        lemma_fold_error(views, (None, None), step, i + 1);
                    }
                    return Err(error);
                },
            }
            i += 1;
        }
        assert(views.take(items.len() as int) =~= views);
        match slots {
            (Some(accessor), Some(kind)) => Ok(IndexArg::new(accessor, kind)),
            (Some(_), None) => Err(Error::new(ErrorKind::MissingIndexAlgorithm, meta.span)),
            (None, _) => Err(Error::new(ErrorKind::MissingIndexAccessor, meta.span)),
        }
    }
}

/// The index that the algorithm `key` gives on the one column `field`, if
/// `key` is an algorithm.
pub open spec fn algorithm_on(key: Option<Key>, field: IdentView) -> Option<IndexTypeView> {
    match key {
        Some(Key::Btree) => Some(IndexTypeView::BTree { columns: seq![field] }),
        Some(Key::Hash) => Some(IndexTypeView::Hash { columns: seq![field] }),
        Some(Key::Direct) => Some(IndexTypeView::Direct { column: field }),
        _ => None,
    }
}

/// One option of `#[index(...)]` on the field `field`: an algorithm, once,
/// without arguments.
pub open spec fn field_index_step(
    field: IdentView,
    kind: Option<IndexTypeView>,
    meta: MetaView,
) -> Result<Option<IndexTypeView>, ErrorView> {
    match algorithm_on(path_key(meta.path), field) {
        Some(chosen) => if kind is Some {
            Err(ErrorView::new(ErrorKind::DuplicateIndexKind, meta.path.span))
        } else {
            match flag_of(meta) {
                Ok(_) => Ok(Some(chosen)),
                Err(error) => Err(error),
            }
        },
        None => Err(unrecognized(Scope::FieldIndex, meta)),
    }
}

/// The index that `#[index(algorithm)]` on the field `field` describes: the
/// field is its only column and its accessor.
pub open spec fn field_index_of(field: IdentView, attr: AttributeView) -> Result<
    IndexArgView,
    ErrorView,
> {
    match options_of(attr) {
        Ok(items) => match fold(
            items,
            None,
            |kind: Option<IndexTypeView>, item: MetaView| field_index_step(field, kind, item),
        ) {
            Ok(Some(kind)) => Ok(IndexArgView::new(field, kind)),
            Ok(None) => Err(ErrorView::new(ErrorKind::MissingIndexKind, attr.span)),
            Err(error) => Err(error),
        },
        Err(error) => Err(error),
    }
}

impl IndexArg {
    fn field_index_step(field: &Ident, kind: Option<IndexType>, meta: &Meta) -> (result: Result<
        Option<IndexType>,
        Error,
    >)
        ensures
            result_view(result) == field_index_step(field@, kind.deep_view(), meta@),
    {
        proof {
            lemma_group_view(*meta);
        }
        let key = Key::of_path(&meta.path);
        match key {
            Some(Key::Btree) | Some(Key::Hash) | Some(Key::Direct) => {},
            _ => {
                return Err(Error::new(ErrorKind::Unrecognized(Scope::FieldIndex), meta.path.span));
            },
        }
        check_duplicate_msg(&kind, meta.path.span, ErrorKind::DuplicateIndexKind)?;
        parse_flag(meta)?;
        match key {
            Some(Key::Btree) => {
                let mut columns: Vec<Ident> = Vec::new();
                columns.push(field.clone());
                assert(columns.deep_view() =~= seq![field@]);
                Ok(Some(IndexType::BTree { columns }))
            },
            Some(Key::Hash) => {
                let mut columns: Vec<Ident> = Vec::new();
                columns.push(field.clone());
                assert(columns.deep_view() =~= seq![field@]);
                Ok(Some(IndexType::Hash { columns }))
            },
            _ => Ok(Some(IndexType::Direct { column: field.clone() })),
        }
    }

    /// Reads `#[index(btree)]`, `#[index(hash)]` or `#[index(direct)]` on
    /// the field `field`.
    pub fn parse_index_attr(field: &Ident, attr: &Attribute) -> (result: Result<IndexArg, Error>)
        ensures
            result_view(result) == field_index_of(field@, attr@),
    {
        let items = parse_options(attr)?;
        let ghost views = items.deep_view();
        let ghost name = field@;
        let ghost step = |kind: Option<IndexTypeView>, item: MetaView|
            field_index_step(name, kind, item);
        let mut kind: Option<IndexType> = None;
        let mut i: usize = 0;
        while i < items.len()
            invariant
                i <= items.len(),
                views == items.deep_view(),
                name == field@,
                options_of(attr@) == Ok::<Seq<MetaView>, ErrorView>(views),
                step == |kind: Option<IndexTypeView>, item: MetaView|
                    field_index_step(name, kind, item),
                fold(views.take(i as int), None, step) == Ok::<_, ErrorView>(kind.deep_view()),
            decreases items.len() - i,
        {
            proof {
                lemma_fold_next(views, None, step, i as int);
            }
            match Self::field_index_step(field, kind, &items[i]) {
                Ok(next) => {
                    kind = next;
                },
                Err(error) => {
                    proof {
                        lemma_fold_error(views, None, step, i + 1);
                    }
                    return Err(error);
                },
            }
            i += 1;
        }
        assert(views.take(items.len() as int) =~= views);
        match kind {
            Some(kind) => Ok(IndexArg::new(field.clone(), kind)),
            None => Err(Error::new(ErrorKind::MissingIndexKind, attr.span)),
        }
    }
}

} // verus!
