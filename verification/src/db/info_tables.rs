//! Information tables: keyed rows shown alongside talents, spells and traditions.
use vstd::prelude::*;
use crate::text::text_is;
use crate::util::{to_lowercase, unicode_lower};

verus! {

#[derive(Debug)]
pub struct InfoTable {
    pub id: i64,
    pub name: String,
    pub kind: TableKind,
    pub key_label: String,
    pub value_label: String,
}

/// How a table is shown. `TABLE` is the most general and the fallback.
#[derive(Debug, Clone, Copy)]
pub enum TableKind {
    TABLE,
    BLOCK,
    ROLL,
}

#[derive(Debug)]
pub struct Entry {
    pub key: String,
    pub value: String,
}

#[derive(Debug)]
pub struct FullInfoTable {
    pub id: i64,
    pub name: String,
    pub kind: TableKind,
    pub key_label: String,
    pub value_label: String,
    pub entries: Vec<Entry>,
}

/// The kind a text names, compared with the uppercase names as written; `TABLE`, the most general, for any other text.
pub open spec fn table_kind_of_lowercase(l: Seq<char>) -> TableKind {
    if l == "TABLE"@ {
        TableKind::TABLE
    } else if l == "BLOCK"@ {
        TableKind::BLOCK
    } else if l == "ROLL"@ {
        TableKind::ROLL
    } else {
        TableKind::TABLE
    }
}

impl TableKind {
    /// The value a lowercased text names.
    pub fn of_lowercase(l: &String) -> (r: Self)
        ensures
            r == table_kind_of_lowercase(l@),
    {
        if text_is(l, "TABLE") {
            TableKind::TABLE
        } else if text_is(l, "BLOCK") {
            TableKind::BLOCK
        } else if text_is(l, "ROLL") {
            TableKind::ROLL
        } else {
            TableKind::TABLE
        }
    }
}

impl From<String> for TableKind {
    fn from(value: String) -> (r: Self) {
        let lower = to_lowercase(&value);
        TableKind::of_lowercase(&lower)
    }
}

impl vstd::std_specs::convert::FromSpecImpl<String> for TableKind {
    open spec fn obeys_from_spec() -> bool {
        true
    }

    open spec fn from_spec(v: String) -> TableKind {
        table_kind_of_lowercase(unicode_lower(v@))
    }
}

} // verus!
