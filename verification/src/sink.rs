//! The batched-write algorithm shared by every structured SQL sink: each
//! record becomes one value tuple by walking the cached column order and
//! looking the column up among the record's fields (the `Ignore` tag and
//! unknown field names are skipped); all tuples of a batch are joined into
//! one `INSERT` statement, executed exactly once per batch.

use vstd::prelude::*;
use crate::errors::SinkReason;
use crate::record::{rendered_value, DataField, DataRecord, DataType, Value};
use crate::schema::TableSchema;
use crate::sql::{escape_seq, escape_sql_string};
use crate::strutil::{push_char, str_eq};
use crate::text::{join_seq, join_with};

verus! {

/// The value a column takes from a record: the last field carrying that
/// name and not tagged `Ignore`, as the original's per-record field map
/// lets later fields overwrite earlier ones.
pub open spec fn field_for(items: Seq<DataField>, col: Seq<char>) -> Option<Value>
    decreases items.len(),
{
    if items.len() == 0 {
        None
    } else if items.last().meta != DataType::Ignore && items.last().name@ == col {
        Some(items.last().value)
    } else {
        field_for(items.drop_last(), col)
    }
}

/// Whether a record contributes at least one column: some field is not
/// tagged `Ignore` and carries the name of a cached column.
pub open spec fn has_known_field(cols: Seq<Seq<char>>, items: Seq<DataField>) -> bool {
    exists|i: int|
        0 <= i < items.len() && (#[trigger] items[i]).meta != DataType::Ignore && cols.contains(
            items[i].name@,
        )
}

/// One cell of a value tuple: the escaped, quoted literal for the column's
/// value, or the `NULL` literal for a column the record does not carry.
pub open spec fn value_cell(items: Seq<DataField>, col: Seq<char>) -> Seq<char> {
    match field_for(items, col) {
        Some(v) => seq!['\''] + escape_seq(rendered_value(v)) + seq!['\''],
        None => "NULL"@,
    }
}

/// The whole value tuple of one record: every cached column, in cached
/// order, comma-separated and parenthesised.
pub open spec fn tuple_of(cols: Seq<Seq<char>>, items: Seq<DataField>) -> Seq<char> {
    seq!['('] + join_seq(cols.map_values(|c: Seq<char>| value_cell(items, c)), ", "@) + seq![')']
}

/// The fixed statement prefix: quoted target, quoted column list, `VALUES`.
pub open spec fn insert_prefix(s: TableSchema) -> Seq<char> {
    "INSERT INTO "@ + s.quoted_table@ + " ("@ + join_seq(s.quoted_columns.deep_view(), ", "@)
        + ") VALUES "@
}

/// The tuples a batch of records emits: one per record that contributes at
/// least one known column, in batch order; a record with zero known columns
/// contributes nothing.
pub open spec fn batch_tuples(cols: Seq<Seq<char>>, recs: Seq<DataRecord>) -> Seq<Seq<char>>
    decreases recs.len(),
{
    if recs.len() == 0 {
        Seq::empty()
    } else {
        batch_tuples(cols, recs.drop_last()) + (if has_known_field(cols, recs.last().items@) {
            seq![tuple_of(cols, recs.last().items@)]
        } else {
            Seq::<Seq<char>>::empty()
        })
    }
}

/// The one `INSERT` statement a non-empty batch is flushed with.
pub open spec fn insert_statement(s: TableSchema, recs: Seq<DataRecord>) -> Seq<char> {
    insert_prefix(s) + join_seq(batch_tuples(s.column_order.deep_view(), recs), ", "@)
}

/// The last field of the record that carries the given column name and is
/// not tagged `Ignore`.
pub fn last_field_for<'a>(record: &'a DataRecord, col: &str) -> (r: Option<&'a DataField>)
    ensures
        match r {
            Some(f) => field_for(record.items@, col@) == Some(f.value),
            None => field_for(record.items@, col@) is None,
        },
{
    let mut i: usize = record.items.len();
    proof {
        assert(record.items@.take(record.items@.len() as int) =~= record.items@);
    }
    while i > 0
        invariant
            i <= record.items@.len(),
            field_for(record.items@, col@) == field_for(record.items@.take(i as int), col@),
        decreases i,
    {
        proof {
            assert(record.items@.take(i as int).last() == record.items@[i - 1]);
            assert(record.items@.take(i as int).drop_last() =~= record.items@.take(i - 1));
        }
        let f = &record.items[i - 1];
        if f.meta != DataType::Ignore && str_eq(f.name.as_str(), col) {
            return Some(f);
        }
        i = i - 1;
    }
    proof {
        assert(record.items@.take(0) =~= Seq::<DataField>::empty());
    }
    None
}

impl TableSchema {
    /// The fixed `INSERT INTO <target> (<columns>) VALUES ` prefix every
    /// batch statement starts with.
    pub fn base_insert_prefix(&self) -> (r: String)
        ensures
            r@ == insert_prefix(*self),
    {
        let mut s = "INSERT INTO ".to_owned();
        s.append(self.quoted_table.as_str());
        s.append(" (");
        let joined = join_with(&self.quoted_columns, ", ");
        s.append(joined.as_str());
        s.append(") VALUES ");
        proof {
            assert(s@ =~= insert_prefix(*self));
        }
        s
    }

    /// Whether the record contributes at least one known column.
    pub fn record_has_known_field(&self, record: &DataRecord) -> (r: bool)
        ensures
            r == has_known_field(self.column_order.deep_view(), record.items@),
    {
        let mut i: usize = 0;
        while i < record.items.len()
            invariant
                i <= record.items@.len(),
                forall|j: int|
                    0 <= j < i ==> !((#[trigger] record.items@[j]).meta != DataType::Ignore
                        && self.column_order.deep_view().contains(record.items@[j].name@)),
            decreases record.items@.len() - i,
        {
            let f = &record.items[i];
            if f.meta != DataType::Ignore && self.has_column(f.name.as_str()) {
                proof {
                    assert(record.items@[i as int].meta != DataType::Ignore
                        && self.column_order.deep_view().contains(record.items@[i as int].name@));
                }
                return true;
            }
            i = i + 1;
        }
        false
    }

    /// The value tuple of one record: `None` exactly when the record
    /// contributes zero known columns, so that it is silently omitted from
    /// the batch rather than half-inserted.
    pub fn format_values_tuple(&self, record: &DataRecord) -> (r: Option<String>)
        ensures
            match r {
                Some(t) => has_known_field(self.column_order.deep_view(), record.items@) && t@
                    == tuple_of(self.column_order.deep_view(), record.items@),
                None => !has_known_field(self.column_order.deep_view(), record.items@),
            },
    {
        if !self.record_has_known_field(record) {
            return None;
        }
        let ghost cols = self.column_order.deep_view();
        let mut cells: Vec<String> = Vec::new();
        let mut i: usize = 0;
        while i < self.column_order.len()
            invariant
                i <= self.column_order@.len(),
                cols == self.column_order.deep_view(),
                cells@.len() == i,
                forall|j: int|
                    0 <= j < i ==> (#[trigger] cells@[j])@ == value_cell(record.items@, cols[j]),
            decreases self.column_order@.len() - i,
        {
            let col = &self.column_order[i];
            let cell: String = match last_field_for(record, col.as_str()) {
                Some(f) => {
                    let mut lit = String::new();
                    push_char(&mut lit, '\'');
                    let rendered = f.rendered();
                    let escaped = escape_sql_string(rendered.as_str());
                    lit.append(escaped.as_str());
                    push_char(&mut lit, '\'');
                    proof {
                        assert(lit@ =~= value_cell(record.items@, cols[i as int]));
                    }
                    lit
                },
                None => {
                    let lit = "NULL".to_owned();
                    proof {
                        assert(lit@ =~= value_cell(record.items@, cols[i as int]));
                    }
                    lit
                },
            };
            cells.push(cell);
            i = i + 1;
        }
        let mut t = String::new();
        push_char(&mut t, '(');
        let joined = join_with(&cells, ", ");
        t.append(joined.as_str());
        push_char(&mut t, ')');
        proof {
            let m = |c: Seq<char>| value_cell(record.items@, c);
            assert forall|j: int| 0 <= j < cols.len() implies cells.deep_view()[j]
                == cols.map_values(m)[j] by {
                assert(cells.deep_view()[j] == cells@[j].deep_view());
                assert((cells@[j])@ == value_cell(record.items@, cols[j]));
                assert(cols.map_values(m)[j] == m(cols[j]));
                assert(m(cols[j]) == value_cell(record.items@, cols[j]));
            }
            assert(cells.deep_view() =~= cols.map_values(m));
            assert(t@ =~= seq!['('] + join_seq(cells.deep_view(), ", "@) + seq![')']);
            assert(t@ =~= tuple_of(cols, record.items@));
        }
        Some(t)
    }

    /// The single statement that flushes a batch, or `None` when no record
    /// of the batch contributes a tuple (then nothing is to be executed and
    /// the batch succeeds as a whole).
    pub fn statement_for_batch(&self, records: &Vec<DataRecord>) -> (r: Option<String>)
        ensures
            match r {
                Some(s) => batch_tuples(self.column_order.deep_view(), records@).len() > 0 && s@
                    == insert_statement(*self, records@),
                None => batch_tuples(self.column_order.deep_view(), records@).len() == 0,
            },
    {
        let ghost cols = self.column_order.deep_view();
        let mut tuples: Vec<String> = Vec::new();
        let mut i: usize = 0;
        proof {
            assert(records@.take(0) =~= Seq::<DataRecord>::empty());
        }
        while i < records.len()
            invariant
                i <= records@.len(),
                cols == self.column_order.deep_view(),
                tuples.deep_view() == batch_tuples(cols, records@.take(i as int)),
            decreases records@.len() - i,
        {
            proof {
                assert(records@.take(i + 1).drop_last() =~= records@.take(i as int));
                assert(records@.take(i + 1).last() == records@[i as int]);
            }
            match self.format_values_tuple(&records[i]) {
                Some(t) => {
                    tuples.push(t);
                    proof {
                        assert(tuples.deep_view() =~= batch_tuples(cols, records@.take(i + 1)));
                    }
                },
                None => {
                    proof {
                        assert(tuples.deep_view() =~= batch_tuples(cols, records@.take(i + 1)));
                    }
                },
            }
            i = i + 1;
        }
        proof {
            assert(records@.take(records@.len() as int) =~= records@);
        }
        if tuples.len() == 0 {
            return None;
        }
        let mut s = self.base_insert_prefix();
        let joined = join_with(&tuples, ", ");
        s.append(joined.as_str());
        Some(s)
    }
}

/// A record with zero known columns leaves the emitted tuple list exactly as
/// if the record were not in the batch at all: it neither appears nor errors
/// the batch.
pub proof fn lemma_empty_record_omitted(cols: Seq<Seq<char>>, recs: Seq<DataRecord>, i: int)
    requires
        0 <= i < recs.len(),
        !has_known_field(cols, recs[i].items@),
    ensures
        batch_tuples(cols, recs) == batch_tuples(cols, recs.remove(i)),
    decreases recs.len(),
{
    if i == recs.len() - 1 {
        assert(recs.remove(i) =~= recs.drop_last());
    } else {
        assert(recs.remove(i).drop_last() =~= recs.drop_last().remove(i));
        assert(recs.remove(i).last() == recs.last());
        assert(recs.drop_last()[i] == recs[i]);
        lemma_empty_record_omitted(cols, recs.drop_last(), i);
    }
}

/// The standard refusal of raw, unstructured input on a structured sink:
/// an `Unsupported` failure naming the connector kind and the operation,
/// never a silent drop.
pub fn unsupported_raw(kind: &str, operation: &str) -> (r: SinkReason)
    ensures
        r is Unsupported,
        sink_reason_text_is(r, kind@ + " sink does not accept "@ + operation@),
{
    let mut msg = kind.to_owned();
    msg.append(" sink does not accept ");
    msg.append(operation);
    SinkReason::Unsupported(msg)
}

/// Whether a sink failure carries exactly the given text.
pub open spec fn sink_reason_text_is(r: SinkReason, text: Seq<char>) -> bool {
    crate::errors::sink_reason_text(r) == text
}

} // verus!
