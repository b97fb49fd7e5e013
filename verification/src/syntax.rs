//! The annotation tree that the parsers read.
//!
//! A reader of source text hands over what it found as plain data: identifiers
//! with their place in the source, options with their arguments, and the
//! declaration of the annotated type. Every type here has a mathematical view
//! (`deep_view`, also written `@`) in which text is a sequence of characters
//! and lists are sequences; the contracts of the parsers speak of those views.
use vstd::prelude::*;

verus! {

/// Appending an element appends its view.
pub proof fn lemma_push_view<T: DeepView>(before: Vec<T>, after: Vec<T>, item: T)
    requires
        after@ == before@.push(item),
    ensures
        after.deep_view() == before.deep_view().push(item.deep_view()),
{
    assert(after.deep_view() =~= before.deep_view().push(item.deep_view()));
}

/// A region of the annotated source.
///
/// The reader issues spans; the parsers only carry them into their results
/// and errors.
#[derive(Clone, Copy, Debug, PartialEq, Eq, Structural)]
pub struct Span {
    pub start: usize,
    pub end: usize,
}

impl Span {
    /// The place where the annotation as a whole was applied.
    pub open spec fn spec_call_site() -> Span {
        Span { start: 0, end: 0 }
    }

    /// The place where the annotation as a whole was applied.
    #[verifier::when_used_as_spec(spec_call_site)]
    pub fn call_site() -> (span: Span)
        ensures
            span == Span::spec_call_site(),
    {
        Span { start: 0, end: 0 }
    }
}

impl DeepView for Span {
    type V = Span;

    open spec fn deep_view(&self) -> Span {
        *self
    }
}

/// An identifier with its place in the source.
#[derive(Debug, PartialEq, Eq)]
pub struct Ident {
    pub name: String,
    pub span: Span,
}

/// The view of [`Ident`].
pub struct IdentView {
    pub name: Seq<char>,
    pub span: Span,
}

impl DeepView for Ident {
    type V = IdentView;

    open spec fn deep_view(&self) -> IdentView {
        IdentView { name: self.name@, span: self.span }
    }
}

impl View for Ident {
    type V = IdentView;

    open spec fn view(&self) -> IdentView {
        self.deep_view()
    }
}

impl Clone for Ident {
    fn clone(&self) -> (copy: Ident)
        ensures
            copy@ == self@,
    {
        Ident { name: self.name.clone(), span: self.span }
    }
}

impl Ident {
    /// An identifier with the given name at the given place.
    pub fn new(name: &str, span: Span) -> (ident: Ident)
        ensures
            ident@ == (IdentView { name: name@, span }),
    {
        Ident { name: name.to_owned(), span }
    }
}

/// A copy of a list of identifiers.
pub fn clone_idents(idents: &Vec<Ident>) -> (copy: Vec<Ident>)
    ensures
        copy.deep_view() == idents.deep_view(),
{
    let mut copy: Vec<Ident> = Vec::new();
    let mut i: usize = 0;
    while i < idents.len()
        invariant
            i <= idents.len(),
            copy.deep_view() == idents.deep_view().take(i as int),
        decreases idents.len() - i,
    {
        let ghost before = copy;
        copy.push(idents[i].clone());
        proof {
            lemma_push_view(before, copy, copy@.last());
            assert(copy.deep_view() =~= idents.deep_view().take(i + 1));
        }
        i += 1;
    }
    assert(idents.deep_view().take(idents.len() as int) =~= idents.deep_view());
    copy
}

/// A path: identifiers separated by `::`.
#[derive(Debug, PartialEq, Eq)]
pub struct Path {
    pub segments: Vec<Ident>,
    pub span: Span,
}

/// The view of [`Path`].
pub struct PathView {
    pub segments: Seq<IdentView>,
    pub span: Span,
}

impl DeepView for Path {
    type V = PathView;

    open spec fn deep_view(&self) -> PathView {
        PathView { segments: self.segments.deep_view(), span: self.span }
    }
}

impl View for Path {
    type V = PathView;

    open spec fn view(&self) -> PathView {
        self.deep_view()
    }
}

impl Clone for Path {
    fn clone(&self) -> (copy: Path)
        ensures
            copy@ == self@,
    {
        Path { segments: clone_idents(&self.segments), span: self.span }
    }
}

impl Path {
    /// The path made of one identifier.
    pub fn from_ident(ident: Ident) -> (path: Path)
        ensures
            path@ == (PathView { segments: seq![ident@], span: ident.span }),
    {
        let span = ident.span;
        let mut segments: Vec<Ident> = Vec::new();
        segments.push(ident);
        assert(segments.deep_view() =~= seq![ident@]);
        Path { segments, span }
    }
}

/// A run of source tokens that the parsers do not look into: an expression,
/// a type, a visibility. It is kept as its source text.
#[derive(Debug, PartialEq, Eq)]
pub struct Tokens {
    pub text: String,
    pub span: Span,
}

/// The view of [`Tokens`].
pub struct TokensView {
    pub text: Seq<char>,
    pub span: Span,
}

impl DeepView for Tokens {
    type V = TokensView;

    open spec fn deep_view(&self) -> TokensView {
        TokensView { text: self.text@, span: self.span }
    }
}

impl View for Tokens {
    type V = TokensView;

    open spec fn view(&self) -> TokensView {
        self.deep_view()
    }
}

impl Clone for Tokens {
    fn clone(&self) -> (copy: Tokens)
        ensures
            copy@ == self@,
    {
        Tokens { text: self.text.clone(), span: self.span }
    }
}

impl Tokens {
    /// The tokens with the given source text at the given place.
    pub fn new(text: &str, span: Span) -> (tokens: Tokens)
        ensures
            tokens@ == (TokensView { text: text@, span }),
    {
        Tokens { text: text.to_owned(), span }
    }
}

/// An expression, kept as source text.
pub type Expr = Tokens;

/// A type, kept as source text.
pub type Type = Tokens;

/// A visibility, kept as source text.
pub type Visibility = Tokens;

/// What stands behind `=` in `key = value`.
#[derive(Debug, PartialEq, Eq)]
pub enum MetaValue {
    /// `key = name`
    Ident(Ident),
    /// `key = [a, b, c]`
    List(Vec<Ident>),
    /// `key = ` followed by anything else
    Other(Tokens),
}

/// The view of [`MetaValue`].
pub enum MetaValueView {
    Ident(IdentView),
    List(Seq<IdentView>),
    Other(TokensView),
}

impl DeepView for MetaValue {
    type V = MetaValueView;

    open spec fn deep_view(&self) -> MetaValueView {
        match self {
            MetaValue::Ident(ident) => MetaValueView::Ident(ident@),
            MetaValue::List(idents) => MetaValueView::List(idents.deep_view()),
            MetaValue::Other(tokens) => MetaValueView::Other(tokens@),
        }
    }
}

impl View for MetaValue {
    type V = MetaValueView;

    open spec fn view(&self) -> MetaValueView {
        self.deep_view()
    }
}

/// The argument of an option.
#[derive(Debug, PartialEq, Eq)]
pub enum MetaArg {
    /// `key`
    Flag,
    /// `key = value`
    Value(MetaValue),
    /// `key(option, option, ...)`
    Group(Vec<Meta>),
}

/// One option of an annotation: a path and its argument.
#[derive(Debug, PartialEq, Eq)]
pub struct Meta {
    pub path: Path,
    pub arg: MetaArg,
    /// The whole option, argument included.
    pub span: Span,
}

/// The view of [`MetaArg`].
pub enum MetaArgView {
    Flag,
    Value(MetaValueView),
    Group(Seq<MetaView>),
}

/// The view of [`Meta`].
pub struct MetaView {
    pub path: PathView,
    pub arg: MetaArgView,
    pub span: Span,
}

/// The view of an option, by recursion over its nested groups.
pub open spec fn meta_view(meta: Meta) -> MetaView
    decreases meta,
{
    MetaView {
        path: meta.path@,
        arg: match meta.arg {
            MetaArg::Flag => MetaArgView::Flag,
            MetaArg::Value(value) => MetaArgView::Value(value@),
            MetaArg::Group(items) => MetaArgView::Group(
                Seq::new(
                    items.len() as nat,
                    |i: int|
                        if 0 <= i < items.len() {
                            meta_view(items[i])
                        } else {
                            arbitrary()
                        },
                ),
            ),
        },
        span: meta.span,
    }
}

impl DeepView for Meta {
    type V = MetaView;

    open spec fn deep_view(&self) -> MetaView {
        meta_view(*self)
    }
}

impl View for Meta {
    type V = MetaView;

    open spec fn view(&self) -> MetaView {
        meta_view(*self)
    }
}

/// The view of a group is the sequence of the views of its options.
pub proof fn lemma_group_view(meta: Meta)
    ensures
        meta.arg matches MetaArg::Group(items) ==> meta@.arg == MetaArgView::Group(items.deep_view()),
        meta.arg matches MetaArg::Value(value) ==> meta@.arg == MetaArgView::Value(value@),
        meta.arg is Flag ==> meta@.arg == MetaArgView::Flag,
        meta@.path == meta.path@,
        meta@.span == meta.span,
{
    match meta.arg {
        MetaArg::Group(items) => {
            assert(meta@.arg->Group_0 =~= items.deep_view());
        },
        _ => {},
    }
}

impl Meta {
    /// The option `key`.
    pub fn flag(key: &str, span: Span) -> (meta: Meta)
        ensures
            meta@ == (MetaView {
                path: PathView { segments: seq![IdentView { name: key@, span }], span },
                arg: MetaArgView::Flag,
                span,
            }),
    {
        Meta { path: Path::from_ident(Ident::new(key, span)), arg: MetaArg::Flag, span }
    }

    /// The option `key = value`, where the value is one identifier.
    pub fn ident_value(key: &str, value: &str, span: Span) -> (meta: Meta)
        ensures
            meta@ == (MetaView {
                path: PathView { segments: seq![IdentView { name: key@, span }], span },
                arg: MetaArgView::Value(MetaValueView::Ident(IdentView { name: value@, span })),
                span,
            }),
    {
        Meta {
            path: Path::from_ident(Ident::new(key, span)),
            arg: MetaArg::Value(MetaValue::Ident(Ident::new(value, span))),
            span,
        }
    }

    /// The option `key = [a, b, ...]`.
    pub fn list_value(key: &str, idents: Vec<Ident>, span: Span) -> (meta: Meta)
        ensures
            meta@ == (MetaView {
                path: PathView { segments: seq![IdentView { name: key@, span }], span },
                arg: MetaArgView::Value(MetaValueView::List(idents.deep_view())),
                span,
            }),
    {
        Meta {
            path: Path::from_ident(Ident::new(key, span)),
            arg: MetaArg::Value(MetaValue::List(idents)),
            span,
        }
    }

    /// The option `key(items...)`.
    pub fn group(key: &str, items: Vec<Meta>, span: Span) -> (meta: Meta)
        ensures
            meta@ == (MetaView {
                path: PathView { segments: seq![IdentView { name: key@, span }], span },
                arg: MetaArgView::Group(items.deep_view()),
                span,
            }),
    {
        let meta = Meta {
            path: Path::from_ident(Ident::new(key, span)),
            arg: MetaArg::Group(items),
            span,
        };
        proof {
            lemma_group_view(meta);
        }
        meta
    }
}

/// What follows the path of an attribute on a field or on the type.
#[derive(Debug, PartialEq, Eq)]
pub enum AttrArgs {
    /// `#[key]`
    Bare,
    /// `#[key = value]`
    Value(Expr),
    /// `#[key(...)]`: the delimited tokens, read both ways. `metas` is their
    /// reading as a list of options and `expr` their reading as one
    /// expression; each is `None` where the tokens cannot be read so.
    List { metas: Option<Vec<Meta>>, expr: Option<Expr> },
}

/// The view of [`AttrArgs`].
pub enum AttrArgsView {
    Bare,
    Value(TokensView),
    List { metas: Option<Seq<MetaView>>, expr: Option<TokensView> },
}

impl DeepView for AttrArgs {
    type V = AttrArgsView;

    open spec fn deep_view(&self) -> AttrArgsView {
        match self {
            AttrArgs::Bare => AttrArgsView::Bare,
            AttrArgs::Value(value) => AttrArgsView::Value(value@),
            AttrArgs::List { metas, expr } => AttrArgsView::List {
                metas: match metas {
                    Some(items) => Some(items.deep_view()),
                    None => None,
                },
                expr: expr.deep_view(),
            },
        }
    }
}

impl View for AttrArgs {
    type V = AttrArgsView;

    open spec fn view(&self) -> AttrArgsView {
        self.deep_view()
    }
}

/// An attribute: `#[path]`, `#[path = value]` or `#[path(...)]`.
#[derive(Debug, PartialEq, Eq)]
pub struct Attribute {
    pub path: Path,
    pub args: AttrArgs,
    /// The whole attribute.
    pub span: Span,
}

/// The view of [`Attribute`].
pub struct AttributeView {
    pub path: PathView,
    pub args: AttrArgsView,
    pub span: Span,
}

impl DeepView for Attribute {
    type V = AttributeView;

    open spec fn deep_view(&self) -> AttributeView {
        AttributeView { path: self.path@, args: self.args@, span: self.span }
    }
}

impl View for Attribute {
    type V = AttributeView;

    open spec fn view(&self) -> AttributeView {
        self.deep_view()
    }
}

impl Attribute {
    /// The attribute `#[key]`.
    pub fn flag(key: &str, span: Span) -> (attr: Attribute)
        ensures
            attr@ == (AttributeView {
                path: PathView { segments: seq![IdentView { name: key@, span }], span },
                args: AttrArgsView::Bare,
                span,
            }),
    {
        Attribute { path: Path::from_ident(Ident::new(key, span)), args: AttrArgs::Bare, span }
    }

    /// The attribute `#[key(...)]` whose tokens read as the given options.
    pub fn list(key: &str, metas: Vec<Meta>, span: Span) -> (attr: Attribute)
        ensures
            attr@ == (AttributeView {
                path: PathView { segments: seq![IdentView { name: key@, span }], span },
                args: AttrArgsView::List { metas: Some(metas.deep_view()), expr: None },
                span,
            }),
    {
        Attribute {
            path: Path::from_ident(Ident::new(key, span)),
            args: AttrArgs::List { metas: Some(metas), expr: None },
            span,
        }
    }

    /// The attribute `#[key(...)]` whose tokens read as the given expression.
    pub fn expr(key: &str, expr: Expr, span: Span) -> (attr: Attribute)
        ensures
            attr@ == (AttributeView {
                path: PathView { segments: seq![IdentView { name: key@, span }], span },
                args: AttrArgsView::List { metas: None, expr: Some(expr@) },
                span,
            }),
    {
        Attribute {
            path: Path::from_ident(Ident::new(key, span)),
            args: AttrArgs::List { metas: None, expr: Some(expr) },
            span,
        }
    }
}

/// A named field of the annotated type.
#[derive(Debug, PartialEq, Eq)]
pub struct Field {
    pub ident: Ident,
    pub vis: Visibility,
    pub ty: Type,
    pub attrs: Vec<Attribute>,
}

/// The view of [`Field`].
pub struct FieldView {
    pub ident: IdentView,
    pub vis: TokensView,
    pub ty: TokensView,
    pub attrs: Seq<AttributeView>,
}

impl DeepView for Field {
    type V = FieldView;

    open spec fn deep_view(&self) -> FieldView {
        FieldView { ident: self.ident@, vis: self.vis@, ty: self.ty@, attrs: self.attrs.deep_view() }
    }
}

impl View for Field {
    type V = FieldView;

    open spec fn view(&self) -> FieldView {
        self.deep_view()
    }
}

/// The shape of the annotated type.
#[derive(Debug, PartialEq, Eq)]
pub enum ItemData {
    /// A struct with named fields, or with none at all.
    Struct(Vec<Field>),
    /// A struct with unnamed fields.
    Tuple,
    /// An enum.
    Enum,
    /// A union.
    Union,
}

/// The view of [`ItemData`].
pub enum ItemDataView {
    Struct(Seq<FieldView>),
    Tuple,
    Enum,
    Union,
}

impl DeepView for ItemData {
    type V = ItemDataView;

    open spec fn deep_view(&self) -> ItemDataView {
        match self {
            ItemData::Struct(fields) => ItemDataView::Struct(fields.deep_view()),
            ItemData::Tuple => ItemDataView::Tuple,
            ItemData::Enum => ItemDataView::Enum,
            ItemData::Union => ItemDataView::Union,
        }
    }
}

impl View for ItemData {
    type V = ItemDataView;

    open spec fn view(&self) -> ItemDataView {
        self.deep_view()
    }
}

/// The declaration of the annotated type.
#[derive(Debug, PartialEq, Eq)]
pub struct Item {
    pub ident: Ident,
    pub attrs: Vec<Attribute>,
    pub data: ItemData,
    /// The whole declaration.
    pub span: Span,
}

/// The view of [`Item`].
pub struct ItemView {
    pub ident: IdentView,
    pub attrs: Seq<AttributeView>,
    pub data: ItemDataView,
    pub span: Span,
}

impl DeepView for Item {
    type V = ItemView;

    open spec fn deep_view(&self) -> ItemView {
        ItemView {
            ident: self.ident@,
            attrs: self.attrs.deep_view(),
            data: self.data@,
            span: self.span,
        }
    }
}

impl View for Item {
    type V = ItemView;

    open spec fn view(&self) -> ItemView {
        self.deep_view()
    }
}

} // verus!
