//! A worked example: an annotated record, and how its table annotation is
//! found among its attributes.
use vstd::prelude::*;
use crate::error::{result_view, Error, ErrorView};
use crate::forms::{options_of, parse_options};
use crate::syntax::{
    AttrArgs, AttrArgsView, Attribute, AttributeView, Field, FieldView, Ident, IdentView, Item,
    ItemData, ItemDataView, ItemView, Meta, MetaArgView, MetaValueView, MetaView, PathView,
    Span, Tokens, TokensView,
};
use crate::text::str_eq;

verus! {

/// Whether the attribute has arguments in parentheses and is called `name`.
pub open spec fn is_list_named(attr: AttributeView, name: Seq<char>) -> bool {
    &&& attr.args is List
    &&& attr.path.segments.len() == 1
    &&& attr.path.segments[0].name == name
}

/// The last of the attributes that has arguments in parentheses and is
/// called `name`.
pub open spec fn last_list_named(attrs: Seq<AttributeView>, name: Seq<char>) -> Option<
    AttributeView,
>
    decreases attrs.len(),
{
    if attrs.len() == 0 {
        None
    } else if is_list_named(attrs.last(), name) {
        Some(attrs.last())
    } else {
        last_list_named(attrs.drop_last(), name)
    }
}

/// The options of the attribute called `name` on the type `item`: those of
/// the last such attribute, where there are several.
pub open spec fn table_attribute_of(item: ItemView, name: Seq<char>) -> Result<
    Seq<MetaView>,
    ErrorView,
> {
    match last_list_named(item.attrs, name) {
        Some(attr) => options_of(attr),
        None => Err(ErrorView::missing_attribute(name)),
    }
}

/// Finds the options of the attribute `#[path(...)]` on the type `item`.
///
/// Only attributes with arguments in parentheses count. Where the type has
/// several of that name, the last one is taken; where it has none, the error
/// names the attribute that was looked for.
pub fn get_table_attribute_macro<'a>(item: &'a Item, path: &str) -> (result: Result<
    &'a Vec<Meta>,
    Error,
>)
    ensures
        result_view(result) == table_attribute_of(item@, path@),
{
    let ghost views = item.attrs.deep_view();
    let mut table: Option<&'a Attribute> = None;
    let mut i: usize = 0;
    while i < item.attrs.len()
        invariant
            i <= item.attrs.len(),
            views == item.attrs.deep_view(),
            table.deep_view() == last_list_named(views.take(i as int), path@),
        decreases item.attrs.len() - i,
    {
        let attr = &item.attrs[i];
        proof {
            assert(views.take(i + 1).drop_last() =~= views.take(i as int));
        }
        let is_list = match &attr.args {
            AttrArgs::List { .. } => true,
            _ => false,
        };
        if is_list && attr.path.segments.len() == 1 && str_eq(
            attr.path.segments[0].name.as_str(),
            path,
        ) {
            table = Some(attr);
        }
        i += 1;
    }
    assert(views.take(item.attrs.len() as int) =~= views);
    match table {
        Some(attr) => parse_options(attr),
        None => Err(Error::missing_attribute(path)),
    }
}

/// A point in time, in microseconds since the Unix epoch.
#[derive(Clone, Copy, Debug, PartialEq, Eq, Structural)]
pub struct Timestamp {
    pub micros: i64,
}

/// The record of the example:
///
/// ```text
/// #[table(name = entity, public)]
/// pub struct Entity {
///     #[primary_key]
///     #[auto_inc]
///     id: u128,
///     created_at: Timestamp,
/// }
/// ```
///
/// Its table annotation names no accessor, so reading it fails with the
/// error that proposes one.
#[derive(Clone, Copy, Debug, PartialEq, Eq, Structural)]
pub struct Entity {
    /// The unique ID of the entity.
    pub id: u128,
    pub created_at: Timestamp,
}

/// The identifier `name` as the example has it: every place in the example
/// is the call site.
pub open spec fn example_ident(name: Seq<char>) -> IdentView {
    IdentView { name, span: Span::call_site() }
}

/// The path made of the one identifier `name`.
pub open spec fn example_path(name: Seq<char>) -> PathView {
    PathView { segments: seq![example_ident(name)], span: Span::call_site() }
}

/// The attribute `#[name]`.
pub open spec fn example_flag(name: Seq<char>) -> AttributeView {
    AttributeView { path: example_path(name), args: AttrArgsView::Bare, span: Span::call_site() }
}

/// The field `name: ty` with the attributes `attrs`.
pub open spec fn example_field(
    name: Seq<char>,
    ty: Seq<char>,
    attrs: Seq<AttributeView>,
) -> FieldView {
    FieldView {
        ident: example_ident(name),
        vis: TokensView { text: ""@, span: Span::call_site() },
        ty: TokensView { text: ty, span: Span::call_site() },
        attrs,
    }
}

impl Entity {
    /// The options of the example's table annotation: `name = entity, public`.
    pub open spec fn spec_table_options() -> Seq<MetaView> {
        seq![
            MetaView {
                path: example_path("name"@),
                arg: MetaArgView::Value(MetaValueView::Ident(example_ident("entity"@))),
                span: Span::call_site(),
            },
            MetaView {
                path: example_path("public"@),
                arg: MetaArgView::Flag,
                span: Span::call_site(),
            },
        ]
    }

    /// The declaration of the example.
    pub open spec fn spec_item() -> ItemView {
        ItemView {
            ident: example_ident("Entity"@),
            attrs: seq![
                AttributeView {
                    path: example_path("table"@),
                    args: AttrArgsView::List {
                        metas: Some(Entity::spec_table_options()),
                        expr: None,
                    },
                    span: Span::call_site(),
                },
            ],
            data: ItemDataView::Struct(
                seq![
                    example_field(
                        "id"@,
                        "u128"@,
                        seq![example_flag("primary_key"@), example_flag("auto_inc"@)],
                    ),
                    example_field("created_at"@, "Timestamp"@, Seq::empty()),
                ],
            ),
            span: Span::call_site(),
        }
    }

    /// The options of the example's table annotation: `name = entity, public`.
    pub fn table_options() -> (options: Vec<Meta>)
        ensures
            options.deep_view() == Entity::spec_table_options(),
    {
        let mut options: Vec<Meta> = Vec::new();
        options.push(Meta::ident_value("name", "entity", Span::call_site()));
        options.push(Meta::flag("public", Span::call_site()));
        assert(options.deep_view() =~= Entity::spec_table_options());
        options
    }

    /// The declaration of the example, as a reader of its source hands it
    /// over.
    pub fn item() -> (item: Item)
        ensures
            item@ == Entity::spec_item(),
    {
        let span = Span::call_site();
        let mut attrs: Vec<Attribute> = Vec::new();
        attrs.push(Attribute::list("table", Entity::table_options(), span));
        assert(attrs.deep_view() =~= Entity::spec_item().attrs);
        let mut id_attrs: Vec<Attribute> = Vec::new();
        id_attrs.push(Attribute::flag("primary_key", span));
        id_attrs.push(Attribute::flag("auto_inc", span));
        assert(id_attrs.deep_view() =~= seq![
            example_flag("primary_key"@),
            example_flag("auto_inc"@),
        ]);
        let no_attrs: Vec<Attribute> = Vec::new();
        assert(no_attrs.deep_view() =~= Seq::<AttributeView>::empty());
        let mut fields: Vec<Field> = Vec::new();
        fields.push(
            Field {
                ident: Ident::new("id", span),
                vis: Tokens::new("", span),
                ty: Tokens::new("u128", span),
                attrs: id_attrs,
            },
        );
        fields.push(
            Field {
                ident: Ident::new("created_at", span),
                vis: Tokens::new("", span),
                ty: Tokens::new("Timestamp", span),
                attrs: no_attrs,
            },
        );
        assert(fields.deep_view() =~= Entity::spec_item().data->Struct_0);
        Item { ident: Ident::new("Entity", span), attrs, data: ItemData::Struct(fields), span }
    }
}

} // verus!
