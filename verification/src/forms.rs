//! The shapes that the argument of an option can have, and the errors for
//! an option that does not fit.
use vstd::prelude::*;
use crate::error::{result_view, Error, ErrorKind, ErrorView, Form, Scope};
use crate::sym::Key;
use crate::syntax::{
    clone_idents, lemma_group_view, AttrArgs, AttrArgsView, Attribute, AttributeView, Expr,
    Ident, IdentView, Meta, MetaArg, MetaArgView, MetaValue, MetaValueView, MetaView,
    TokensView,
};

verus! {

/// The error for an option that the group `scope` does not know.
pub open spec fn unrecognized(scope: Scope, meta: MetaView) -> ErrorView {
    ErrorView::new(ErrorKind::Unrecognized(scope), meta.path.span)
}

/// The error for the option `key` given a second time.
pub open spec fn duplicate(key: Key, meta: MetaView) -> ErrorView {
    ErrorView::new(ErrorKind::Duplicate(key), meta.path.span)
}

/// The error for an option whose argument is not of the form `form`.
pub open spec fn expected(form: Form, meta: MetaView) -> ErrorView {
    ErrorView::new(ErrorKind::Expected(form), meta.span)
}

/// A flag takes no argument.
pub open spec fn flag_of(meta: MetaView) -> Result<(), ErrorView> {
    match meta.arg {
        MetaArgView::Flag => Ok(()),
        _ => Err(expected(Form::Comma, meta)),
    }
}

/// The identifier in `key = name`.
pub open spec fn ident_of(meta: MetaView) -> Result<IdentView, ErrorView> {
    match meta.arg {
        MetaArgView::Value(MetaValueView::Ident(ident)) => Ok(ident),
        MetaArgView::Value(_) => Err(expected(Form::Ident, meta)),
        _ => Err(expected(Form::Eq, meta)),
    }
}

/// The identifiers in `key = [a, b, ...]`.
pub open spec fn list_of(meta: MetaView) -> Result<Seq<IdentView>, ErrorView> {
    match meta.arg {
        MetaArgView::Value(MetaValueView::List(idents)) => Ok(idents),
        MetaArgView::Value(_) => Err(expected(Form::Brackets, meta)),
        _ => Err(expected(Form::Eq, meta)),
    }
}

/// The options in `key(option, option, ...)`.
pub open spec fn group_of(meta: MetaView) -> Result<Seq<MetaView>, ErrorView> {
    match meta.arg {
        MetaArgView::Group(items) => Ok(items),
        _ => Err(expected(Form::Parens, meta)),
    }
}

/// Reads a flag: an option without argument.
pub fn parse_flag(meta: &Meta) -> (result: Result<(), Error>)
    ensures
        result_view(result) == flag_of(meta@),
{
    proof {
        lemma_group_view(*meta);
    }
    match &meta.arg {
        MetaArg::Flag => Ok(()),
        _ => Err(Error::new(ErrorKind::Expected(Form::Comma), meta.span)),
    }
}

/// Reads the identifier of `key = name`.
pub fn parse_ident(meta: &Meta) -> (result: Result<Ident, Error>)
    ensures
        result_view(result) == ident_of(meta@),
{
    proof {
        lemma_group_view(*meta);
    }
    match &meta.arg {
        MetaArg::Value(MetaValue::Ident(ident)) => Ok(ident.clone()),
        MetaArg::Value(_) => Err(Error::new(ErrorKind::Expected(Form::Ident), meta.span)),
        _ => Err(Error::new(ErrorKind::Expected(Form::Eq), meta.span)),
    }
}

/// Reads the identifiers of `key = [a, b, ...]`.
pub fn parse_list(meta: &Meta) -> (result: Result<Vec<Ident>, Error>)
    ensures
        result_view(result) == list_of(meta@),
{
    proof {
        lemma_group_view(*meta);
    }
    match &meta.arg {
        MetaArg::Value(MetaValue::List(idents)) => Ok(clone_idents(idents)),
        MetaArg::Value(_) => Err(Error::new(ErrorKind::Expected(Form::Brackets), meta.span)),
        _ => Err(Error::new(ErrorKind::Expected(Form::Eq), meta.span)),
    }
}

/// Reads the options of `key(option, option, ...)`.
pub fn parse_group(meta: &Meta) -> (result: Result<&Vec<Meta>, Error>)
    ensures
        result_view(result) == group_of(meta@),
{
    proof {
        lemma_group_view(*meta);
    }
    match &meta.arg {
        MetaArg::Group(items) => Ok(items),
        _ => Err(Error::new(ErrorKind::Expected(Form::Parens), meta.span)),
    }
}

/// The error for an attribute whose arguments are not of the form `form`.
pub open spec fn attr_expected(form: Form, attr: AttributeView) -> ErrorView {
    ErrorView::new(ErrorKind::Expected(form), attr.span)
}

/// An attribute without arguments: `#[key]`.
pub open spec fn bare_of(attr: AttributeView) -> Result<(), ErrorView> {
    match attr.args {
        AttrArgsView::Bare => Ok(()),
        _ => Err(attr_expected(Form::Nothing, attr)),
    }
}

/// The options of `#[key(option, option, ...)]`.
pub open spec fn options_of(attr: AttributeView) -> Result<Seq<MetaView>, ErrorView> {
    match attr.args {
        AttrArgsView::List { metas: Some(items), .. } => Ok(items),
        AttrArgsView::List { metas: None, .. } => Err(attr_expected(Form::Options, attr)),
        _ => Err(attr_expected(Form::Parens, attr)),
    }
}

/// The expression of `#[key(expression)]`.
pub open spec fn expr_of(attr: AttributeView) -> Result<TokensView, ErrorView> {
    match attr.args {
        AttrArgsView::List { expr: Some(expr), .. } => Ok(expr),
        AttrArgsView::List { expr: None, .. } => Err(attr_expected(Form::Expression, attr)),
        _ => Err(attr_expected(Form::Parens, attr)),
    }
}

/// Reads an attribute without arguments.
pub fn parse_bare(attr: &Attribute) -> (result: Result<(), Error>)
    ensures
        result_view(result) == bare_of(attr@),
{
    match &attr.args {
        AttrArgs::Bare => Ok(()),
        _ => Err(Error::new(ErrorKind::Expected(Form::Nothing), attr.span)),
    }
}

/// Reads the options of `#[key(option, option, ...)]`.
pub fn parse_options(attr: &Attribute) -> (result: Result<&Vec<Meta>, Error>)
    ensures
        result_view(result) == options_of(attr@),
{
    match &attr.args {
        AttrArgs::List { metas: Some(items), .. } => Ok(items),
        AttrArgs::List { metas: None, .. } => Err(
            Error::new(ErrorKind::Expected(Form::Options), attr.span),
        ),
        _ => Err(Error::new(ErrorKind::Expected(Form::Parens), attr.span)),
    }
}

/// Reads the expression of `#[key(expression)]`.
pub fn parse_expr(attr: &Attribute) -> (result: Result<Expr, Error>)
    ensures
        result_view(result) == expr_of(attr@),
{
    match &attr.args {
        AttrArgs::List { expr: Some(expr), .. } => Ok(expr.clone()),
        AttrArgs::List { expr: None, .. } => Err(
            Error::new(ErrorKind::Expected(Form::Expression), attr.span),
        ),
        _ => Err(Error::new(ErrorKind::Expected(Form::Parens), attr.span)),
    }
}

} // verus!
