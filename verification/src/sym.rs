//! The option names that the annotation grammar knows.
use vstd::prelude::*;
use crate::syntax::{Path, PathView};
use crate::text::str_eq;

verus! {

/// A name with a meaning somewhere in the grammar.
#[derive(Clone, Copy, Debug, PartialEq, Eq, Structural)]
pub enum Key {
    Public,
    Private,
    Name,
    Accessor,
    Index,
    Scheduled,
    Event,
    At,
    Btree,
    Hash,
    Direct,
    Columns,
    Column,
    Unique,
    AutoInc,
    PrimaryKey,
    DefaultValue,
}

impl Key {
    /// The name as it is written in an annotation.
    pub open spec fn text(self) -> Seq<char> {
        match self {
            Key::Public => "public"@,
            Key::Private => "private"@,
            Key::Name => "name"@,
            Key::Accessor => "accessor"@,
            Key::Index => "index"@,
            Key::Scheduled => "scheduled"@,
            Key::Event => "event"@,
            Key::At => "at"@,
            Key::Btree => "btree"@,
            Key::Hash => "hash"@,
            Key::Direct => "direct"@,
            Key::Columns => "columns"@,
            Key::Column => "column"@,
            Key::Unique => "unique"@,
            Key::AutoInc => "auto_inc"@,
            Key::PrimaryKey => "primary_key"@,
            Key::DefaultValue => "default"@,
        }
    }

    /// The name as it is written in an annotation.
    pub fn as_str(self) -> (text: &'static str)
        ensures
            text@ == self.text(),
    {
        match self {
            Key::Public => "public",
            Key::Private => "private",
            Key::Name => "name",
            Key::Accessor => "accessor",
            Key::Index => "index",
            Key::Scheduled => "scheduled",
            Key::Event => "event",
            Key::At => "at",
            Key::Btree => "btree",
            Key::Hash => "hash",
            Key::Direct => "direct",
            Key::Columns => "columns",
            Key::Column => "column",
            Key::Unique => "unique",
            Key::AutoInc => "auto_inc",
            Key::PrimaryKey => "primary_key",
            Key::DefaultValue => "default",
        }
    }

    /// The key that is written as `name`, if there is one.
    pub fn from_name(name: &str) -> (key: Option<Key>)
        ensures
            key == key_of(name@),
    {
        if str_eq(name, "public") {
            Some(Key::Public)
        } else if str_eq(name, "private") {
            Some(Key::Private)
        } else if str_eq(name, "name") {
            Some(Key::Name)
        } else if str_eq(name, "accessor") {
            Some(Key::Accessor)
        } else if str_eq(name, "index") {
            Some(Key::Index)
        } else if str_eq(name, "scheduled") {
            Some(Key::Scheduled)
        } else if str_eq(name, "event") {
            Some(Key::Event)
        } else if str_eq(name, "at") {
            Some(Key::At)
        } else if str_eq(name, "btree") {
            Some(Key::Btree)
        } else if str_eq(name, "hash") {
            Some(Key::Hash)
        } else if str_eq(name, "direct") {
            Some(Key::Direct)
        } else if str_eq(name, "columns") {
            Some(Key::Columns)
        } else if str_eq(name, "column") {
            Some(Key::Column)
        } else if str_eq(name, "unique") {
            Some(Key::Unique)
        } else if str_eq(name, "auto_inc") {
            Some(Key::AutoInc)
        } else if str_eq(name, "primary_key") {
            Some(Key::PrimaryKey)
        } else if str_eq(name, "default") {
            Some(Key::DefaultValue)
        } else {
            None
        }
    }

    /// The key that a path names: the path is one identifier, and that
    /// identifier is the key's text.
    pub fn of_path(path: &Path) -> (key: Option<Key>)
        ensures
            key == path_key(path@),
    {
        if path.segments.len() == 1 {
            Key::from_name(path.segments[0].name.as_str())
        } else {
            None
        }
    }
}

/// The key that is written as `name`, if there is one.
pub open spec fn key_of(name: Seq<char>) -> Option<Key> {
    if name == Key::Public.text() {
        Some(Key::Public)
    } else if name == Key::Private.text() {
        Some(Key::Private)
    } else if name == Key::Name.text() {
        Some(Key::Name)
    } else if name == Key::Accessor.text() {
        Some(Key::Accessor)
    } else if name == Key::Index.text() {
        Some(Key::Index)
    } else if name == Key::Scheduled.text() {
        Some(Key::Scheduled)
    } else if name == Key::Event.text() {
        Some(Key::Event)
    } else if name == Key::At.text() {
        Some(Key::At)
    } else if name == Key::Btree.text() {
        Some(Key::Btree)
    } else if name == Key::Hash.text() {
        Some(Key::Hash)
    } else if name == Key::Direct.text() {
        Some(Key::Direct)
    } else if name == Key::Columns.text() {
        Some(Key::Columns)
    } else if name == Key::Column.text() {
        Some(Key::Column)
    } else if name == Key::Unique.text() {
        Some(Key::Unique)
    } else if name == Key::AutoInc.text() {
        Some(Key::AutoInc)
    } else if name == Key::PrimaryKey.text() {
        Some(Key::PrimaryKey)
    } else if name == Key::DefaultValue.text() {
        Some(Key::DefaultValue)
    } else {
        None
    }
}

/// The key that a path names, if it names one.
pub open spec fn path_key(path: PathView) -> Option<Key> {
    if path.segments.len() == 1 {
        key_of(path.segments[0].name)
    } else {
        None
    }
}

/// A name is a key exactly if it is that key's text; so no two keys are
/// written alike.
pub proof fn lemma_key_of(name: Seq<char>, key: Key)
    ensures
        key_of(name) == Some(key) <==> name == key.text(),
{
    reveal_strlit("public");
    reveal_strlit("private");
    reveal_strlit("name");
    reveal_strlit("accessor");
    reveal_strlit("index");
    reveal_strlit("scheduled");
    reveal_strlit("event");
    reveal_strlit("at");
    reveal_strlit("btree");
    reveal_strlit("hash");
    reveal_strlit("direct");
    reveal_strlit("columns");
    reveal_strlit("column");
    reveal_strlit("unique");
    reveal_strlit("auto_inc");
    reveal_strlit("primary_key");
    reveal_strlit("default");
    if name == key.text() {
        assert(name.len() == key.text().len());
        assert(name[0] == key.text()[0]);
        assert(name[1] == key.text()[1]);
    }
}

} // verus!
