//! What holds of every table that the parsers accept.
//!
//! The parsers are specified by what they return, option by option. The
//! laws here say what follows of a whole table: which option fills which
//! slot, how the columns follow the fields, and which indices a table ends
//! up with.
pub mod columns;
pub mod indices;
pub mod options;
