//! What the parsers report when an annotation cannot be accepted.
use vstd::prelude::*;
use vstd::string::StringExecFns;
use crate::sym::Key;
use crate::syntax::Span;

verus! {

/// The shape that an option's argument was expected to have.
#[derive(Clone, Copy, Debug, PartialEq, Eq, Structural)]
pub enum Form {
    /// Nothing more: the option is a flag.
    Comma,
    /// `= value`
    Eq,
    /// One identifier.
    Ident,
    /// Exactly one identifier between the brackets.
    OneIdent,
    /// A list in square brackets.
    Brackets,
    /// A group in parentheses.
    Parens,
    /// A list of options between the parentheses.
    Options,
    /// An expression between the parentheses.
    Expression,
    /// Nothing at all behind the attribute's name.
    Nothing,
}

/// The group in which an option was read.
#[derive(Clone, Copy, Debug, PartialEq, Eq, Structural)]
pub enum Scope {
    /// The options of the table itself.
    Table,
    /// `scheduled(...)`
    Scheduled,
    /// `index(...)` among the table's options.
    Index,
    /// `btree(...)` and `hash(...)`
    Columns,
    /// `direct(...)`
    DirectColumn,
    /// `#[index(...)]` on a field.
    FieldIndex,
}

/// What went wrong.
#[derive(Clone, Copy, Debug, PartialEq, Eq, Structural)]
pub enum ErrorKind {
    /// An option that may be given once was given again.
    Duplicate(Key),
    /// `public` or `private` after the access level was set.
    DuplicateAccess,
    /// A second function in `scheduled(...)`.
    DuplicateScheduledFunction,
    /// A second algorithm in `index(...)`.
    DuplicateIndexAlgorithm,
    /// A second algorithm in `#[index(...)]` on a field.
    DuplicateIndexKind,
    /// A second field marked `primary_key`.
    MultiplePrimaryKeys,
    /// More fields than a table can have columns.
    TooManyColumns,
    /// The table has no `accessor`; the detail is the name to suggest.
    MissingTableAccessor,
    /// `scheduled(...)` names no function.
    MissingScheduledFunction,
    /// `index(...)` has no `accessor`.
    MissingIndexAccessor,
    /// `index(...)` has no algorithm.
    MissingIndexAlgorithm,
    /// `btree(...)` has no `columns`.
    MissingBtreeColumns,
    /// `hash(...)` has no `columns`.
    MissingHashColumns,
    /// `direct(...)` has no `column`.
    MissingDirectColumn,
    /// `#[index(...)]` on a field has no algorithm.
    MissingIndexKind,
    /// The type has no attribute of the wanted name; the detail is that name.
    MissingAttribute,
    /// The annotated type is not a struct with named fields.
    NotAStruct,
    /// An option that the group does not know.
    Unrecognized(Scope),
    /// An option whose argument has the wrong shape.
    Expected(Form),
}

/// The classes of errors.
#[derive(Clone, Copy, Debug, PartialEq, Eq, Structural)]
pub enum Category {
    DuplicateOption,
    MissingRequiredOption,
    ConflictingCardinality,
    StructuralShape,
    UnrecognizedOption,
    MalformedOption,
}

impl ErrorKind {
    /// The class that this error belongs to.
    pub open spec fn spec_category(self) -> Category {
        match self {
            ErrorKind::Duplicate(_) => Category::DuplicateOption,
            ErrorKind::DuplicateAccess => Category::DuplicateOption,
            ErrorKind::DuplicateScheduledFunction => Category::DuplicateOption,
            ErrorKind::DuplicateIndexAlgorithm => Category::ConflictingCardinality,
            ErrorKind::DuplicateIndexKind => Category::ConflictingCardinality,
            ErrorKind::MultiplePrimaryKeys => Category::ConflictingCardinality,
            ErrorKind::TooManyColumns => Category::ConflictingCardinality,
            ErrorKind::MissingTableAccessor => Category::MissingRequiredOption,
            ErrorKind::MissingScheduledFunction => Category::MissingRequiredOption,
            ErrorKind::MissingIndexAccessor => Category::MissingRequiredOption,
            ErrorKind::MissingIndexAlgorithm => Category::MissingRequiredOption,
            ErrorKind::MissingBtreeColumns => Category::MissingRequiredOption,
            ErrorKind::MissingHashColumns => Category::MissingRequiredOption,
            ErrorKind::MissingDirectColumn => Category::MissingRequiredOption,
            ErrorKind::MissingIndexKind => Category::MissingRequiredOption,
            ErrorKind::MissingAttribute => Category::MissingRequiredOption,
            ErrorKind::NotAStruct => Category::StructuralShape,
            ErrorKind::Unrecognized(_) => Category::UnrecognizedOption,
            ErrorKind::Expected(_) => Category::MalformedOption,
        }
    }

    /// The class that this error belongs to.
    #[verifier::when_used_as_spec(spec_category)]
    pub fn category(self) -> (category: Category)
        ensures
            category == self.spec_category(),
    {
        match self {
            ErrorKind::Duplicate(_) => Category::DuplicateOption,
            ErrorKind::DuplicateAccess => Category::DuplicateOption,
            ErrorKind::DuplicateScheduledFunction => Category::DuplicateOption,
            ErrorKind::DuplicateIndexAlgorithm => Category::ConflictingCardinality,
            ErrorKind::DuplicateIndexKind => Category::ConflictingCardinality,
            ErrorKind::MultiplePrimaryKeys => Category::ConflictingCardinality,
            ErrorKind::TooManyColumns => Category::ConflictingCardinality,
            ErrorKind::MissingTableAccessor => Category::MissingRequiredOption,
            ErrorKind::MissingScheduledFunction => Category::MissingRequiredOption,
            ErrorKind::MissingIndexAccessor => Category::MissingRequiredOption,
            ErrorKind::MissingIndexAlgorithm => Category::MissingRequiredOption,
            ErrorKind::MissingBtreeColumns => Category::MissingRequiredOption,
            ErrorKind::MissingHashColumns => Category::MissingRequiredOption,
            ErrorKind::MissingDirectColumn => Category::MissingRequiredOption,
            ErrorKind::MissingIndexKind => Category::MissingRequiredOption,
            ErrorKind::MissingAttribute => Category::MissingRequiredOption,
            ErrorKind::NotAStruct => Category::StructuralShape,
            ErrorKind::Unrecognized(_) => Category::UnrecognizedOption,
            ErrorKind::Expected(_) => Category::MalformedOption,
        }
    }
}

impl Form {
    /// The words that say what was expected.
    pub open spec fn text(self) -> Seq<char> {
        match self {
            Form::Comma => "expected `,`"@,
            Form::Eq => "expected `=`"@,
            Form::Ident => "expected identifier"@,
            Form::OneIdent => "expected exactly one identifier"@,
            Form::Brackets => "expected square brackets"@,
            Form::Parens => "expected parentheses"@,
            Form::Options => "expected nested attribute"@,
            Form::Expression => "expected an expression"@,
            Form::Nothing => "unexpected token in attribute"@,
        }
    }

    /// The words that say what was expected.
    pub fn as_str(self) -> (text: &'static str)
        ensures
            text@ == self.text(),
    {
        match self {
            Form::Comma => "expected `,`",
            Form::Eq => "expected `=`",
            Form::Ident => "expected identifier",
            Form::OneIdent => "expected exactly one identifier",
            Form::Brackets => "expected square brackets",
            Form::Parens => "expected parentheses",
            Form::Options => "expected nested attribute",
            Form::Expression => "expected an expression",
            Form::Nothing => "unexpected token in attribute",
        }
    }
}

impl Scope {
    /// The words that list the options of the group.
    pub open spec fn text(self) -> Seq<char> {
        match self {
            Scope::Table =>
                "expected one of: `public`, `private`, `name`, `accessor`, `index`, `scheduled`, `event`"@,
            Scope::Scheduled => "expected `at`"@,
            Scope::Index => "expected one of: `name`, `accessor`, `btree`, `hash`, `direct`"@,
            Scope::Columns => "expected `columns`"@,
            Scope::DirectColumn => "expected `column`"@,
            Scope::FieldIndex => "expected one of: `btree`, `hash`, `direct`"@,
        }
    }

    /// The words that list the options of the group.
    pub fn as_str(self) -> (text: &'static str)
        ensures
            text@ == self.text(),
    {
        match self {
            Scope::Table =>
                "expected one of: `public`, `private`, `name`, `accessor`, `index`, `scheduled`, `event`",
            Scope::Scheduled => "expected `at`",
            Scope::Index => "expected one of: `name`, `accessor`, `btree`, `hash`, `direct`",
            Scope::Columns => "expected `columns`",
            Scope::DirectColumn => "expected `column`",
            Scope::FieldIndex => "expected one of: `btree`, `hash`, `direct`",
        }
    }
}

/// An error: what went wrong, where, and the name that the message quotes
/// (empty where the message quotes none).
#[derive(Debug, PartialEq, Eq)]
pub struct Error {
    pub kind: ErrorKind,
    pub span: Span,
    pub detail: String,
}

/// The view of [`Error`].
pub struct ErrorView {
    pub kind: ErrorKind,
    pub span: Span,
    pub detail: Seq<char>,
}

impl DeepView for Error {
    type V = ErrorView;

    open spec fn deep_view(&self) -> ErrorView {
        ErrorView { kind: self.kind, span: self.span, detail: self.detail@ }
    }
}

impl View for Error {
    type V = ErrorView;

    open spec fn view(&self) -> ErrorView {
        self.deep_view()
    }
}

impl ErrorView {
    /// An error that quotes no name.
    pub open spec fn new(kind: ErrorKind, span: Span) -> ErrorView {
        ErrorView { kind, span, detail: Seq::empty() }
    }

    /// The error of a table without `accessor`.
    pub open spec fn missing_table_accessor(suggestion: Seq<char>) -> ErrorView {
        ErrorView {
            kind: ErrorKind::MissingTableAccessor,
            span: Span::call_site(),
            detail: suggestion,
        }
    }

    /// The error of a type without the attribute called `name`.
    pub open spec fn missing_attribute(name: Seq<char>) -> ErrorView {
        ErrorView { kind: ErrorKind::MissingAttribute, span: Span::call_site(), detail: name }
    }

    /// The text shown to the user.
    pub open spec fn message(self) -> Seq<char> {
        match self.kind {
            ErrorKind::Duplicate(key) => "already specified "@ + key.text(),
            ErrorKind::DuplicateAccess => "already specified access level"@,
            ErrorKind::DuplicateScheduledFunction =>
                "can only specify one scheduled reducer or procedure"@,
            ErrorKind::DuplicateIndexAlgorithm => "index algorithm specified twice"@,
            ErrorKind::DuplicateIndexKind => "index type specified twice"@,
            ErrorKind::MultiplePrimaryKeys => "can only have one primary key per table"@,
            ErrorKind::TooManyColumns => "too many columns; the most a table can have is 2^16"@,
            ErrorKind::MissingTableAccessor =>
                "must specify table accessor, e.g. `#[spacetimedb::table(accessor = "@
                    + self.detail + ")]"@,
            ErrorKind::MissingScheduledFunction =>
                "must specify scheduled reducer or procedure associated with the table: scheduled(function_name)"@,
            ErrorKind::MissingIndexAccessor => "missing index accessor, e.g. accessor = my_index"@,
            ErrorKind::MissingIndexAlgorithm =>
                "missing index algorithm, e.g., `btree(columns = [col1, col2])`, `hash(columns = [col1, col2])` or `direct(column = col1)`"@,
            ErrorKind::MissingBtreeColumns =>
                "must specify columns for btree index, e.g. `btree(columns = [col1, col2])`"@,
            ErrorKind::MissingHashColumns =>
                "must specify columns for hash index, e.g. `hash(columns = [col1, col2])`"@,
            ErrorKind::MissingDirectColumn =>
                "must specify the column for direct index, e.g. `direct(column = col1)`"@,
            ErrorKind::MissingIndexKind =>
                "must specify kind of index (`btree`, `hash` or `direct`)"@,
            ErrorKind::MissingAttribute =>
                "Haven't found #["@ + self.detail + "] attribute macro!"@,
            ErrorKind::NotAStruct => "spacetimedb table must be a struct"@,
            ErrorKind::Unrecognized(scope) => scope.text(),
            ErrorKind::Expected(form) => form.text(),
        }
    }
}

impl Error {
    /// An error that quotes no name.
    pub fn new(kind: ErrorKind, span: Span) -> (error: Error)
        ensures
            error@ == ErrorView::new(kind, span),
    {
        Error { kind, span, detail: String::new() }
    }

    /// The error of a table without `accessor`. The message proposes
    /// `suggestion` as the accessor.
    pub fn missing_table_accessor(suggestion: String) -> (error: Error)
        ensures
            error@ == ErrorView::missing_table_accessor(suggestion@),
    {
        Error { kind: ErrorKind::MissingTableAccessor, span: Span::call_site(), detail: suggestion }
    }

    /// The error of a type without the attribute called `name`.
    pub fn missing_attribute(name: &str) -> (error: Error)
        ensures
            error@ == ErrorView::missing_attribute(name@),
    {
        Error {
            kind: ErrorKind::MissingAttribute,
            span: Span::call_site(),
            detail: name.to_owned(),
        }
    }

    /// The text shown to the user.
    pub fn message(&self) -> (text: String)
        ensures
            text@ == self@.message(),
    {
        match self.kind {
            ErrorKind::Duplicate(key) => {
                let mut text = "already specified ".to_owned();
                text.append(key.as_str());
                text
            },
            ErrorKind::DuplicateAccess => "already specified access level".to_owned(),
            ErrorKind::DuplicateScheduledFunction =>
                "can only specify one scheduled reducer or procedure".to_owned(),
            ErrorKind::DuplicateIndexAlgorithm => "index algorithm specified twice".to_owned(),
            ErrorKind::DuplicateIndexKind => "index type specified twice".to_owned(),
            ErrorKind::MultiplePrimaryKeys => "can only have one primary key per table".to_owned(),
            ErrorKind::TooManyColumns =>
                "too many columns; the most a table can have is 2^16".to_owned(),
            ErrorKind::MissingTableAccessor => {
                let mut text =
                    "must specify table accessor, e.g. `#[spacetimedb::table(accessor = ".to_owned();
                text.append(self.detail.as_str());
                text.append(")]");
                text
            },
            ErrorKind::MissingScheduledFunction =>
                "must specify scheduled reducer or procedure associated with the table: scheduled(function_name)".to_owned(),
            ErrorKind::MissingIndexAccessor =>
                "missing index accessor, e.g. accessor = my_index".to_owned(),
            ErrorKind::MissingIndexAlgorithm =>
                "missing index algorithm, e.g., `btree(columns = [col1, col2])`, `hash(columns = [col1, col2])` or `direct(column = col1)`".to_owned(),
            ErrorKind::MissingBtreeColumns =>
                "must specify columns for btree index, e.g. `btree(columns = [col1, col2])`".to_owned(),
            ErrorKind::MissingHashColumns =>
                "must specify columns for hash index, e.g. `hash(columns = [col1, col2])`".to_owned(),
            ErrorKind::MissingDirectColumn =>
                "must specify the column for direct index, e.g. `direct(column = col1)`".to_owned(),
            ErrorKind::MissingIndexKind =>
                "must specify kind of index (`btree`, `hash` or `direct`)".to_owned(),
            ErrorKind::MissingAttribute => {
                let mut text = "Haven't found #[".to_owned();
                text.append(self.detail.as_str());
                text.append("] attribute macro!");
                text
            },
            ErrorKind::NotAStruct => "spacetimedb table must be a struct".to_owned(),
            ErrorKind::Unrecognized(scope) => scope.as_str().to_owned(),
            ErrorKind::Expected(form) => form.as_str().to_owned(),
        }
    }
}

/// The view of a result: the view of what it holds.
pub open spec fn result_view<T: DeepView>(result: Result<T, Error>) -> Result<T::V, ErrorView> {
    match result {
        Ok(value) => Ok(value.deep_view()),
        Err(error) => Err(error@),
    }
}

/// Passes where the slot is still empty, and reports `kind` at `span` where
/// it already holds a value.
pub fn check_duplicate_msg<T>(slot: &Option<T>, span: Span, kind: ErrorKind) -> (result: Result<
    (),
    Error,
>)
    ensures
        slot is None ==> result is Ok,
        slot is Some ==> result is Err && result->Err_0@ == ErrorView::new(kind, span),
{
    if slot.is_none() {
        Ok(())
    } else {
        Err(Error::new(kind, span))
    }
}

/// Passes where the slot is still empty, and reports the option `key` as
/// given twice where it already holds a value.
pub fn check_duplicate<T>(slot: &Option<T>, span: Span, key: Key) -> (result: Result<(), Error>)
    ensures
        slot is None ==> result is Ok,
        slot is Some ==> result is Err && result->Err_0@ == ErrorView::new(
            ErrorKind::Duplicate(key),
            span,
        ),
{
    check_duplicate_msg(slot, span, ErrorKind::Duplicate(key))
}

} // verus!
