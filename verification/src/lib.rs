//! Reads the annotations that describe a database table and checks them.
//!
//! A table is described by options written on a record type and on its
//! fields: who may read it, how its handle is called, which indices it has,
//! whether it runs on a schedule, which columns are unique, sequenced or the
//! primary key. This crate turns those options into a checked description,
//! [`table::TableArgs`] and [`table::ColumnArgs`], or into the first error.
//!
//! The crate does not read source text. A reader hands over the annotation
//! tree of [`syntax`]; the parsers in [`table`], [`scheduled`], [`index`] and
//! [`column`] read that tree from left to right ([`fold`]) and stop at the
//! first option that cannot be accepted ([`error`]). At the end [`infer`]
//! gives every unique column its unique index.
//!
//! Every parser is verified against a mathematical model of what it
//! returns, stated over the views of its arguments. [`laws`] states what
//! follows for every table that is accepted. The one thing taken on trust
//! is the snake-case form of a name, which comes from the crate
//! `ident_case` ([`text`]).
pub mod column;
pub mod error;
pub mod example;
pub mod fold;
pub mod forms;
pub mod index;
pub mod infer;
pub mod laws;
pub mod scheduled;
pub mod sym;
pub mod syntax;
pub mod table;
pub mod text;
