//! The columns of a table, read from the fields of the annotated type.
use vstd::prelude::*;
use crate::error::{
    check_duplicate, check_duplicate_msg, result_view, Error, ErrorKind, ErrorView,
};
use crate::fold::{fold, lemma_fold_error, lemma_fold_next};
use crate::forms::{bare_of, expr_of, parse_bare, parse_expr};
use crate::index::{field_index_of, IndexArg, IndexArgView};
use crate::infer::{infer, infer_unique_indices};
use crate::sym::{path_key, Key};
use crate::syntax::{
    lemma_push_view, Attribute, AttributeView, Expr, Field, FieldView, Ident, IdentView, Item,
    ItemData, ItemDataView, ItemView, Span, TokensView, Type, Visibility,
};
use crate::table::{TableArgs, TableArgsView};

verus! {

/// A column of the table: a field of the annotated type with its position.
#[derive(Debug, PartialEq, Eq)]
pub struct Column<'a> {
    pub index: u16,
    pub vis: &'a Visibility,
    pub ident: &'a Ident,
    pub ty: &'a Type,
    pub default_value: Option<Expr>,
}

/// The view of [`Column`].
pub struct ColumnView {
    pub index: u16,
    pub vis: TokensView,
    pub ident: IdentView,
    pub ty: TokensView,
    pub default_value: Option<TokensView>,
}

impl<'a> DeepView for Column<'a> {
    type V = ColumnView;

    open spec fn deep_view(&self) -> ColumnView {
        ColumnView {
            index: self.index,
            vis: self.vis@,
            ident: self.ident@,
            ty: self.ty@,
            default_value: self.default_value.deep_view(),
        }
    }
}

impl<'a> View for Column<'a> {
    type V = ColumnView;

    open spec fn view(&self) -> ColumnView {
        self.deep_view()
    }
}

impl<'a> Clone for Column<'a> {
    fn clone(&self) -> (copy: Column<'a>)
        ensures
            copy@ == self@,
    {
        Column {
            index: self.index,
            vis: self.vis,
            ident: self.ident,
            ty: self.ty,
            default_value: match &self.default_value {
                Some(expr) => Some(expr.clone()),
                None => None,
            },
        }
    }
}

/// The most columns that a table can have.
pub const MAX_COLUMNS: usize = 65536;

/// What an attribute on a field says about the column.
#[derive(Debug, PartialEq, Eq)]
pub enum ColumnAttr {
    Unique(Span),
    AutoInc(Span),
    PrimaryKey(Span),
    Index(IndexArg),
    Default(Expr, Span),
}

/// The view of [`ColumnAttr`].
pub enum ColumnAttrView {
    Unique(Span),
    AutoInc(Span),
    PrimaryKey(Span),
    Index(IndexArgView),
    Default(TokensView, Span),
}

impl DeepView for ColumnAttr {
    type V = ColumnAttrView;

    open spec fn deep_view(&self) -> ColumnAttrView {
        match self {
            ColumnAttr::Unique(span) => ColumnAttrView::Unique(*span),
            ColumnAttr::AutoInc(span) => ColumnAttrView::AutoInc(*span),
            ColumnAttr::PrimaryKey(span) => ColumnAttrView::PrimaryKey(*span),
            ColumnAttr::Index(index) => ColumnAttrView::Index(index@),
            ColumnAttr::Default(expr, span) => ColumnAttrView::Default(expr@, *span),
        }
    }
}

impl View for ColumnAttr {
    type V = ColumnAttrView;

    open spec fn view(&self) -> ColumnAttrView {
        self.deep_view()
    }
}

/// What the attribute `attr` on the field `field` says about the column;
/// `None` for an attribute that is not about the column.
pub open spec fn column_attr_of(attr: AttributeView, field: IdentView) -> Result<
    Option<ColumnAttrView>,
    ErrorView,
> {
    match path_key(attr.path) {
        Some(Key::Index) => match field_index_of(field, attr) {
            Ok(index) => Ok(Some(ColumnAttrView::Index(index))),
            Err(error) => Err(error),
        },
        Some(Key::Unique) => match bare_of(attr) {
            Ok(_) => Ok(Some(ColumnAttrView::Unique(attr.path.segments[0].span))),
            Err(error) => Err(error),
        },
        Some(Key::AutoInc) => match bare_of(attr) {
            Ok(_) => Ok(Some(ColumnAttrView::AutoInc(attr.path.segments[0].span))),
            Err(error) => Err(error),
        },
        Some(Key::PrimaryKey) => match bare_of(attr) {
            Ok(_) => Ok(Some(ColumnAttrView::PrimaryKey(attr.path.segments[0].span))),
            Err(error) => Err(error),
        },
        Some(Key::DefaultValue) => match expr_of(attr) {
            Ok(expr) => Ok(Some(ColumnAttrView::Default(expr, attr.path.segments[0].span))),
            Err(error) => Err(error),
        },
        _ => Ok(None),
    }
}

impl ColumnAttr {
    /// Reads an attribute of the field `field_ident`. Attributes that are
    /// not about the column give `None`.
    pub fn parse(attr: &Attribute, field_ident: &Ident) -> (result: Result<
        Option<ColumnAttr>,
        Error,
    >)
        ensures
            result_view(result) == column_attr_of(attr@, field_ident@),
    {
        match Key::of_path(&attr.path) {
            Some(Key::Index) => {
                let index = IndexArg::parse_index_attr(field_ident, attr)?;
                Ok(Some(ColumnAttr::Index(index)))
            },
            Some(Key::Unique) => {
                parse_bare(attr)?;
                Ok(Some(ColumnAttr::Unique(attr.path.segments[0].span)))
            },
            Some(Key::AutoInc) => {
                parse_bare(attr)?;
                Ok(Some(ColumnAttr::AutoInc(attr.path.segments[0].span)))
            },
            Some(Key::PrimaryKey) => {
                parse_bare(attr)?;
                Ok(Some(ColumnAttr::PrimaryKey(attr.path.segments[0].span)))
            },
            Some(Key::DefaultValue) => {
                let expr = parse_expr(attr)?;
                Ok(Some(ColumnAttr::Default(expr, attr.path.segments[0].span)))
            },
            _ => Ok(None),
        }
    }
}

/// What the attributes of one field have said so far, with the indices of
/// the table, to which `#[index(...)]` on the field adds.
#[derive(Debug, PartialEq, Eq)]
pub struct FieldSlots {
    pub unique: Option<Span>,
    pub auto_inc: Option<Span>,
    pub primary_key: Option<Span>,
    pub default_value: Option<Expr>,
    pub indices: Vec<IndexArg>,
}

/// The view of [`FieldSlots`].
pub struct FieldSlotsView {
    pub unique: Option<Span>,
    pub auto_inc: Option<Span>,
    pub primary_key: Option<Span>,
    pub default_value: Option<TokensView>,
    pub indices: Seq<IndexArgView>,
}

impl DeepView for FieldSlots {
    type V = FieldSlotsView;

    open spec fn deep_view(&self) -> FieldSlotsView {
        FieldSlotsView {
            unique: self.unique,
            auto_inc: self.auto_inc,
            primary_key: self.primary_key,
            default_value: self.default_value.deep_view(),
            indices: self.indices.deep_view(),
        }
    }
}

impl View for FieldSlots {
    type V = FieldSlotsView;

    open spec fn view(&self) -> FieldSlotsView {
        self.deep_view()
    }
}

impl FieldSlotsView {
    /// Nothing said yet, and the table's indices as they are.
    pub open spec fn start(indices: Seq<IndexArgView>) -> FieldSlotsView {
        FieldSlotsView {
            unique: None,
            auto_inc: None,
            primary_key: None,
            default_value: None,
            indices,
        }
    }
}

/// One attribute of the field `field`. Each of `unique`, `auto_inc`,
/// `primary_key` and `default` may be given once on a field; `index` may be
/// repeated, and each one becomes one more index of the table.
pub open spec fn attr_step(field: IdentView, slots: FieldSlotsView, attr: AttributeView) -> Result<
    FieldSlotsView,
    ErrorView,
> {
    match column_attr_of(attr, field) {
        Ok(None) => Ok(slots),
        Ok(Some(ColumnAttrView::Unique(span))) => if slots.unique is Some {
            Err(ErrorView::new(ErrorKind::Duplicate(Key::Unique), span))
        } else {
            Ok(FieldSlotsView { unique: Some(span), ..slots })
        },
        Ok(Some(ColumnAttrView::AutoInc(span))) => if slots.auto_inc is Some {
            Err(ErrorView::new(ErrorKind::Duplicate(Key::AutoInc), span))
        } else {
            Ok(FieldSlotsView { auto_inc: Some(span), ..slots })
        },
        Ok(Some(ColumnAttrView::PrimaryKey(span))) => if slots.primary_key is Some {
            Err(ErrorView::new(ErrorKind::Duplicate(Key::PrimaryKey), span))
        } else {
            Ok(FieldSlotsView { primary_key: Some(span), ..slots })
        },
        Ok(Some(ColumnAttrView::Index(index))) => Ok(
            FieldSlotsView { indices: slots.indices.push(index), ..slots },
        ),
        Ok(Some(ColumnAttrView::Default(expr, span))) => if slots.default_value is Some {
            Err(ErrorView::new(ErrorKind::Duplicate(Key::DefaultValue), span))
        } else {
            Ok(FieldSlotsView { default_value: Some(expr), ..slots })
        },
        Err(error) => Err(error),
    }
}

/// What the attributes `attrs` of the field called `field` say, starting
/// from the table's `indices`.
pub open spec fn attrs_said(
    field: IdentView,
    attrs: Seq<AttributeView>,
    indices: Seq<IndexArgView>,
) -> Result<FieldSlotsView, ErrorView> {
    fold(
        attrs,
        FieldSlotsView::start(indices),
        |slots: FieldSlotsView, attr: AttributeView| attr_step(field, slots, attr),
    )
}

/// What the attributes of `field` say, starting from the table's `indices`.
pub open spec fn field_slots_of(field: FieldView, indices: Seq<IndexArgView>) -> Result<
    FieldSlotsView,
    ErrorView,
> {
    attrs_said(field.ident, field.attrs, indices)
}

/// The columns as far as the fields have been read, with the indices of the
/// table.
#[derive(Debug, PartialEq, Eq)]
pub struct ColumnSlots<'a> {
    pub columns: Vec<Column<'a>>,
    pub unique_columns: Vec<Column<'a>>,
    pub sequenced_columns: Vec<Column<'a>>,
    pub primary_key_column: Option<Column<'a>>,
    pub indices: Vec<IndexArg>,
}

/// The view of [`ColumnSlots`].
pub struct ColumnSlotsView {
    pub columns: Seq<ColumnView>,
    pub unique_columns: Seq<ColumnView>,
    pub sequenced_columns: Seq<ColumnView>,
    pub primary_key_column: Option<ColumnView>,
    pub indices: Seq<IndexArgView>,
}

impl<'a> DeepView for ColumnSlots<'a> {
    type V = ColumnSlotsView;

    open spec fn deep_view(&self) -> ColumnSlotsView {
        ColumnSlotsView {
            columns: self.columns.deep_view(),
            unique_columns: self.unique_columns.deep_view(),
            sequenced_columns: self.sequenced_columns.deep_view(),
            primary_key_column: self.primary_key_column.deep_view(),
            indices: self.indices.deep_view(),
        }
    }
}

impl<'a> View for ColumnSlots<'a> {
    type V = ColumnSlotsView;

    open spec fn view(&self) -> ColumnSlotsView {
        self.deep_view()
    }
}

impl ColumnSlotsView {
    /// No column yet, and the table's indices as they are.
    pub open spec fn start(indices: Seq<IndexArgView>) -> ColumnSlotsView {
        ColumnSlotsView {
            columns: Seq::empty(),
            unique_columns: Seq::empty(),
            sequenced_columns: Seq::empty(),
            primary_key_column: None,
            indices,
        }
    }
}

/// The column that `field` becomes at position `position`, given what its
/// attributes say.
pub open spec fn column_of(field: FieldView, position: nat, slots: FieldSlotsView) -> ColumnView {
    ColumnView {
        index: position as u16,
        vis: field.vis,
        ident: field.ident,
        ty: field.ty,
        default_value: slots.default_value,
    }
}

/// One field. It becomes the next column. The column is also listed as
/// unique if the field is marked `unique` or `primary_key`, and as sequenced
/// if it is marked `auto_inc`. A field marked `primary_key` is the primary
/// key, of which the table has at most one.
pub open spec fn field_step(slots: ColumnSlotsView, field: FieldView) -> Result<
    ColumnSlotsView,
    ErrorView,
> {
    match field_slots_of(field, slots.indices) {
        Ok(said) => {
            let column = column_of(field, slots.columns.len(), said);
            if said.primary_key is Some && slots.primary_key_column is Some {
                Err(ErrorView::new(ErrorKind::MultiplePrimaryKeys, said.primary_key->0))
            } else {
                Ok(
                    ColumnSlotsView {
                        columns: slots.columns.push(column),
                        unique_columns: if said.unique is Some || said.primary_key is Some {
                            slots.unique_columns.push(column)
                        } else {
                            slots.unique_columns
                        },
                        sequenced_columns: if said.auto_inc is Some {
                            slots.sequenced_columns.push(column)
                        } else {
                            slots.sequenced_columns
                        },
                        primary_key_column: if said.primary_key is Some {
                            Some(column)
                        } else {
                            slots.primary_key_column
                        },
                        indices: said.indices,
                    },
                )
            }
        },
        Err(error) => Err(error),
    }
}

/// The columns after all of `fields` have been read, starting from the
/// table's `indices`; or the first error.
pub open spec fn column_slots_of(fields: Seq<FieldView>, indices: Seq<IndexArgView>) -> Result<
    ColumnSlotsView,
    ErrorView,
> {
    fold(
        fields,
        ColumnSlotsView::start(indices),
        |slots: ColumnSlotsView, field: FieldView| field_step(slots, field),
    )
}

/// The columns of a table, with the columns that carry a constraint.
#[derive(Debug, PartialEq, Eq)]
pub struct ColumnArgs<'a> {
    pub original_struct_name: Ident,
    pub fields: &'a Vec<Field>,
    pub columns: Vec<Column<'a>>,
    pub unique_columns: Vec<Column<'a>>,
    pub sequenced_columns: Vec<Column<'a>>,
    pub primary_key_column: Option<Column<'a>>,
}

/// The view of [`ColumnArgs`].
pub struct ColumnArgsView {
    pub original_struct_name: IdentView,
    pub fields: Seq<FieldView>,
    pub columns: Seq<ColumnView>,
    pub unique_columns: Seq<ColumnView>,
    pub sequenced_columns: Seq<ColumnView>,
    pub primary_key_column: Option<ColumnView>,
}

impl<'a> DeepView for ColumnArgs<'a> {
    type V = ColumnArgsView;

    open spec fn deep_view(&self) -> ColumnArgsView {
        ColumnArgsView {
            original_struct_name: self.original_struct_name@,
            fields: self.fields.deep_view(),
            columns: self.columns.deep_view(),
            unique_columns: self.unique_columns.deep_view(),
            sequenced_columns: self.sequenced_columns.deep_view(),
            primary_key_column: self.primary_key_column.deep_view(),
        }
    }
}

impl<'a> View for ColumnArgs<'a> {
    type V = ColumnArgsView;

    open spec fn view(&self) -> ColumnArgsView {
        self.deep_view()
    }
}

/// The table and its columns, as the type `item` with the table options
/// `table` describes them.
///
/// The type must be a struct with named fields, of which it has at most
/// [`MAX_COLUMNS`]. The fields become the columns, in order; the indices
/// that fields declare are added to the table's, in order; and at the end
/// every unique column is given its unique index ([`infer`]).
pub open spec fn column_args_of(table: TableArgsView, item: ItemView) -> Result<
    (TableArgsView, ColumnArgsView),
    ErrorView,
> {
    match item.data {
        ItemDataView::Struct(fields) => if fields.len() > MAX_COLUMNS {
            Err(ErrorView::new(ErrorKind::TooManyColumns, item.span))
        } else {
            match column_slots_of(fields, table.indices) {
                Ok(slots) => Ok(
                    (
                        TableArgsView {
                            indices: infer(slots.indices, slots.unique_columns),
                            ..table
                        },
                        ColumnArgsView {
                            original_struct_name: item.ident,
                            fields,
                            columns: slots.columns,
                            unique_columns: slots.unique_columns,
                            sequenced_columns: slots.sequenced_columns,
                            primary_key_column: slots.primary_key_column,
                        },
                    ),
                ),
                Err(error) => Err(error),
            }
        },
        _ => Err(ErrorView::new(ErrorKind::NotAStruct, Span::call_site())),
    }
}

impl<'a> ColumnArgs<'a> {
    fn attr_step(field: &Ident, slots: FieldSlots, attr: &Attribute) -> (result: Result<
        FieldSlots,
        Error,
    >)
        ensures
            result_view(result) == attr_step(field@, slots@, attr@),
    {
        let mut slots = slots;
        match ColumnAttr::parse(attr, field)? {
            None => {},
            Some(ColumnAttr::Unique(span)) => {
                check_duplicate(&slots.unique, span, Key::Unique)?;
                slots.unique = Some(span);
            },
            Some(ColumnAttr::AutoInc(span)) => {
                check_duplicate(&slots.auto_inc, span, Key::AutoInc)?;
                slots.auto_inc = Some(span);
            },
            Some(ColumnAttr::PrimaryKey(span)) => {
                check_duplicate(&slots.primary_key, span, Key::PrimaryKey)?;
                slots.primary_key = Some(span);
            },
            Some(ColumnAttr::Index(index)) => {
                let ghost before = slots.indices;
                slots.indices.push(index);
                proof {
                    lemma_push_view(before, slots.indices, index);
                }
            },
            Some(ColumnAttr::Default(expr, span)) => {
                check_duplicate(&slots.default_value, span, Key::DefaultValue)?;
                slots.default_value = Some(expr);
            },
        }
        Ok(slots)
    }

    fn field_slots(field: &Field, indices: Vec<IndexArg>) -> (result: Result<FieldSlots, Error>)
        ensures
            result_view(result) == field_slots_of(field@, indices.deep_view()),
    {
        let ghost views = field.attrs.deep_view();
        let ghost name = field.ident@;
        let ghost start = FieldSlotsView::start(indices.deep_view());
        let ghost step = |slots: FieldSlotsView, attr: AttributeView| attr_step(name, slots, attr);
        let mut slots = FieldSlots {
            unique: None,
            auto_inc: None,
            primary_key: None,
            default_value: None,
            indices,
        };
        let mut i: usize = 0;
        while i < field.attrs.len()
            invariant
                i <= field.attrs.len(),
                views == field.attrs.deep_view(),
                name == field.ident@,
                start == FieldSlotsView::start(indices.deep_view()),
                step == |slots: FieldSlotsView, attr: AttributeView| attr_step(name, slots, attr),
                fold(views.take(i as int), start, step) == Ok::<_, ErrorView>(slots@),
            decreases field.attrs.len() - i,
        {
            proof {
                lemma_fold_next(views, start, step, i as int);
            }
            match Self::attr_step(&field.ident, slots, &field.attrs[i]) {
                Ok(next) => {
                    slots = next;
                },
                Err(error) => {
                    proof {
                        lemma_fold_error(views, start, step, i + 1);
                    }
                    return Err(error);
                },
            }
            i += 1;
        }
        assert(views.take(field.attrs.len() as int) =~= views);
        Ok(slots)
    }

    fn field_step(slots: ColumnSlots<'a>, field: &'a Field) -> (result: Result<
        ColumnSlots<'a>,
        Error,
    >)
        requires
            slots.columns.len() < MAX_COLUMNS,
        ensures
            result_view(result) == field_step(slots@, field@),
            result matches Ok(next) ==> next.columns.len() == slots.columns.len() + 1,
    {
        let ColumnSlots {
            mut columns,
            mut unique_columns,
            mut sequenced_columns,
            mut primary_key_column,
            indices,
        } = slots;
        let said = Self::field_slots(field, indices)?;
        let column = Column {
            index: columns.len() as u16,
            vis: &field.vis,
            ident: &field.ident,
            ty: &field.ty,
            default_value: said.default_value,
        };
        if said.unique.is_some() || said.primary_key.is_some() {
            let ghost before = unique_columns;
            unique_columns.push(column.clone());
            proof {
                lemma_push_view(before, unique_columns, unique_columns@.last());
            }
        }
        if said.auto_inc.is_some() {
            let ghost before = sequenced_columns;
            sequenced_columns.push(column.clone());
            proof {
                lemma_push_view(before, sequenced_columns, sequenced_columns@.last());
            }
        }
        if let Some(span) = said.primary_key {
            check_duplicate_msg(&primary_key_column, span, ErrorKind::MultiplePrimaryKeys)?;
            primary_key_column = Some(column.clone());
        }
        let ghost before = columns;
        columns.push(column);
        proof {
            lemma_push_view(before, columns, column);
        }
        Ok(
            ColumnSlots {
                columns,
                unique_columns,
                sequenced_columns,
                primary_key_column,
                indices: said.indices,
            },
        )
    }

    /// Reads the fields of the type `item` into the columns of the table
    /// `table`, and settles the table's indices.
    ///
    /// The result is a function of the table and of the type:
    /// [`column_args_of`]. It fails on a type that is not a struct with
    /// named fields, on one with more than [`MAX_COLUMNS`] fields, on the
    /// first attribute that cannot be accepted, and on a second primary key.
    pub fn parse(table: TableArgs, item: &'a Item) -> (result: Result<
        (TableArgs, ColumnArgs<'a>),
        Error,
    >)
        ensures
            result_view(result) == column_args_of(table@, item@),
    {
        let fields = match &item.data {
            ItemData::Struct(fields) => fields,
            _ => {
                return Err(Error::new(ErrorKind::NotAStruct, Span::call_site()));
            },
        };
        if fields.len() > MAX_COLUMNS {
            return Err(Error::new(ErrorKind::TooManyColumns, item.span));
        }
        let TableArgs { access, scheduled, accessor, indices, event } = table;
        let ghost views = fields.deep_view();
        let ghost start = ColumnSlotsView::start(indices.deep_view());
        let ghost step = |slots: ColumnSlotsView, field: FieldView| field_step(slots, field);
        let mut slots = ColumnSlots {
            columns: Vec::new(),
            unique_columns: Vec::new(),
            sequenced_columns: Vec::new(),
            primary_key_column: None,
            indices,
        };
        assert(slots@.columns =~= Seq::empty());
        assert(slots@.unique_columns =~= Seq::empty());
        assert(slots@.sequenced_columns =~= Seq::empty());
        let mut i: usize = 0;
        while i < fields.len()
            invariant
                i <= fields.len() <= MAX_COLUMNS,
                views == fields.deep_view(),
                item@.data == ItemDataView::Struct(views),
                start == ColumnSlotsView::start(table@.indices),
                step == |slots: ColumnSlotsView, field: FieldView| field_step(slots, field),
                fold(views.take(i as int), start, step) == Ok::<_, ErrorView>(slots@),
                slots.columns.len() == i,
            decreases fields.len() - i,
        {
            proof {
                lemma_fold_next(views, start, step, i as int);
            }
            match Self::field_step(slots, &fields[i]) {
                Ok(next) => {
                    slots = next;
                },
                Err(error) => {
                    proof {
                        lemma_fold_error(views, start, step, i + 1);
                    }
                    return Err(error);
                },
            }
            i += 1;
        }
        assert(views.take(fields.len() as int) =~= views);
        let ColumnSlots {
            columns,
            unique_columns,
            sequenced_columns,
            primary_key_column,
            mut indices,
        } = slots;
        infer_unique_indices(&mut indices, &unique_columns);
        Ok(
            (
                TableArgs { access, scheduled, accessor, indices, event },
                ColumnArgs {
                    original_struct_name: item.ident.clone(),
                    fields,
                    columns,
                    unique_columns,
                    sequenced_columns,
                    primary_key_column,
                },
            ),
        )
    }
}

} // verus!
