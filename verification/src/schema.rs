//! Schema cache: the ordered column list of a target table, fetched once at
//! connector construction and cached for the connector's life, together with
//! the pre-quoted forms every write statement reuses.

use vstd::prelude::*;
use crate::errors::SinkReason;
use crate::sql::{quote_ident, quote_identifier};
use crate::strutil::{push_char, str_eq};

verus! {

/// The cached column order of one target table. Write statements always
/// enumerate all cached columns, in cached order; the cache is never
/// refreshed after construction.
#[derive(Debug, Clone)]
pub struct TableSchema {
    /// The fully quoted `database`.`table` name.
    pub quoted_table: String,
    /// Column names, by ordinal position.
    pub column_order: Vec<String>,
    /// The quoted form of each column, in the same order.
    pub quoted_columns: Vec<String>,
}

impl TableSchema {
    /// Well-formedness: at least one column, and the quoted forms match the
    /// plain names position by position.
    pub open spec fn wf(&self) -> bool {
        &&& self.column_order@.len() > 0
        &&& self.quoted_columns@.len() == self.column_order@.len()
        &&& forall|i: int|
            0 <= i < self.column_order@.len() ==> (#[trigger] self.quoted_columns@[i])@
                == quote_ident(self.column_order@[i]@)
    }

    /// Builds the cache for `database`.`table` from an introspected column
    /// list. Fails with a `Schema` error exactly when the list is empty
    /// (the table has no columns, or does not exist).
    pub fn new(database: &str, table: &str, columns: Vec<String>) -> (r: Result<
        TableSchema,
        SinkReason,
    >)
        ensures
            match r {
                Ok(s) => columns@.len() > 0 && s.wf() && s.column_order@ == columns@
                    && s.quoted_table@ == quote_ident(database@ + seq!['.'] + table@),
                Err(e) => columns@.len() == 0 && e is Schema,
            },
    {
        if columns.len() == 0 {
            let mut msg = database.to_owned();
            push_char(&mut msg, '.');
            msg.append(table);
            msg.append(": introspection returned no columns");
            return Err(SinkReason::Schema(msg));
        }
        let mut dotted = database.to_owned();
        push_char(&mut dotted, '.');
        dotted.append(table);
        proof {
            assert(dotted@ =~= database@ + seq!['.'] + table@);
        }
        let quoted_table = quote_identifier(dotted.as_str());
        let mut quoted_columns: Vec<String> = Vec::new();
        let mut i: usize = 0;
        while i < columns.len()
            invariant
                i <= columns@.len(),
                quoted_columns@.len() == i,
                forall|j: int|
                    0 <= j < i ==> (#[trigger] quoted_columns@[j])@ == quote_ident(columns@[j]@),
            decreases columns@.len() - i,
        {
            let q = quote_identifier(columns[i].as_str());
            quoted_columns.push(q);
            i = i + 1;
        }
        Ok(TableSchema { quoted_table, column_order: columns, quoted_columns })
    }

    /// Whether a field name is one of the cached columns.
    pub fn has_column(&self, name: &str) -> (r: bool)
        ensures
            r == self.column_order.deep_view().contains(name@),
    {
        let mut i: usize = 0;
        while i < self.column_order.len()
            invariant
                i <= self.column_order@.len(),
                forall|j: int| 0 <= j < i ==> self.column_order.deep_view()[j] != name@,
            decreases self.column_order@.len() - i,
        {
            if str_eq(self.column_order[i].as_str(), name) {
                proof {
                    assert(self.column_order.deep_view()[i as int] == name@);
                }
                return true;
            }
            i = i + 1;
        }
        proof {
            assert(forall|j: int|
                0 <= j < self.column_order.deep_view().len()
                    ==> self.column_order.deep_view()[j] != name@);
        }
        false
    }
}

} // verus!
