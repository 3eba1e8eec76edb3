use vstd::prelude::*;
use crate::error::{DbError, DbErrorView};
use crate::row::Row;
use crate::scan::{Scan, on_record};
use crate::value::Value;

verus! {

/// The message of the error that reading gives while the cursor is not on
/// a record.
pub open spec fn not_on_record_message() -> Seq<char> {
    "Итератор не указывает на запись. Вызовите next() перед чтением."@
}

/// What reading `field` gives over the records `rows` with the cursor at
/// `pos`: an error off the records, the field's value in the current record,
/// `FieldNotFound` when that record lacks the field.
pub open spec fn table_read(rows: Seq<Map<Seq<char>, Value>>, pos: int, field: Seq<char>) -> Result<
    Value,
    DbErrorView,
> {
    if !on_record(pos, rows.len()) {
        Err(DbErrorView::Other(not_on_record_message()))
    } else if rows[pos].contains_key(field) {
        Ok(rows[pos][field])
    } else {
        Err(DbErrorView::FieldNotFound(field))
    }
}

/// Whether the table `rows` offers `field`: decided by its first record;
/// an empty table offers none.
pub open spec fn table_has_field(rows: Seq<Map<Seq<char>, Value>>, field: Seq<char>) -> bool {
    rows.len() > 0 && rows[0].contains_key(field)
}

/// The records of a list of rows, each taken as a map.
pub open spec fn rows_view(rows: Seq<Row>) -> Seq<Map<Seq<char>, Value>> {
    rows.map_values(|r: Row| r@)
}

/// A table held in memory, for tests; it stands in for a table scan that
/// reads from disk, behind the same `Scan` interface.
pub struct MockTableScan {
    rows: Vec<Row>,
    // -1 means "before the first record", until the first call of next().
    current: i64,
    // Whether close() has been called; an in-memory table has nothing to
    // release, so this is kept for the proofs only.
    closed: Ghost<bool>,
}

impl MockTableScan {
    #[verifier::type_invariant]
    spec fn cursor_in_range(self) -> bool {
        &&& -1 <= self.current <= self.rows@.len()
        &&& self.rows@.len() < i64::MAX
    }

    /// The records of the table.
    pub closed spec fn records(&self) -> Seq<Map<Seq<char>, Value>> {
        rows_view(self.rows@)
    }

    /// The position of the cursor: -1 before the first record, `i` on
    /// record `i`, the number of records past the last one. (The stored
    /// position always lies in that range; the bounds are written out so
    /// that the range holds of every value of this type.)
    pub closed spec fn cursor(&self) -> int {
        if self.current < -1 {
            -1
        } else if self.current > self.rows@.len() {
            self.rows@.len() as int
        } else {
            self.current as int
        }
    }

    /// The cursor of a table lies between -1 (before the first record) and
    /// the number of records (past the last one).
    pub proof fn lemma_cursor_in_range(&self)
        ensures
            -1 <= self.spec_pos() <= self.spec_len(),
    {
    }

    /// Whether the scan has been closed.
    pub closed spec fn is_closed(&self) -> bool {
        self.closed@
    }

    /// A scan over `rows`, with the cursor before the first record.
    pub fn new(rows: Vec<Row>) -> (s: Self)
        requires
            rows@.len() < i64::MAX,
        ensures
            s.records() == rows_view(rows@),
            s.records().len() == rows@.len(),
            forall|i: int| 0 <= i < rows@.len() ==> #[trigger] s.records()[i] == rows@[i]@,
            s.cursor() == -1,
            !s.is_closed(),
    {
        MockTableScan { rows, current: -1, closed: Ghost(false) }
    }

    /// The value of a field in the current record.
    fn get_current_value(&self, field_name: &str) -> (r: Result<&Value, DbError>)
        ensures
            match r {
                Ok(v) => table_read(self.records(), self.cursor(), field_name@) == Ok::<
                    Value,
                    DbErrorView,
                >(*v),
                Err(e) => table_read(self.records(), self.cursor(), field_name@) == Err::<
                    Value,
                    DbErrorView,
                >(e@),
            },
    {
        proof {
            use_type_invariant(self);
        }
        if self.current < 0 || self.current as usize >= self.rows.len() {
            proof {
                reveal_strlit("Итератор не указывает на запись. Вызовите next() перед чтением.");
            }
            return Err(
                DbError::Other(
                    "Итератор не указывает на запись. Вызовите next() перед чтением.".to_owned(),
                ),
            );
        }
        let row = &self.rows[self.current as usize];
        match row.get(field_name) {
            Some(v) => Ok(v),
            None => Err(DbError::FieldNotFound(field_name.to_owned())),
        }
    }
}

impl Scan for MockTableScan {
    open spec fn spec_len(&self) -> nat {
        self.records().len()
    }

    open spec fn spec_pos(&self) -> int {
        self.cursor()
    }

    open spec fn spec_read(&self, pos: int, field: Seq<char>) -> Result<Value, DbErrorView> {
        table_read(self.records(), pos, field)
    }

    open spec fn spec_has_field(&self, field: Seq<char>) -> bool {
        table_has_field(self.records(), field)
    }

    open spec fn spec_closed(&self) -> bool {
        self.is_closed()
    }

    fn before_first(&mut self) {
        proof {
            use_type_invariant(&*self);
        }
        self.current = -1;
    }

    fn next(&mut self) -> (r: bool) {
        proof {
            use_type_invariant(&*self);
        }
        let len = self.rows.len();
        if self.current < len as i64 {
            self.current = self.current + 1;
        }
        self.current >= 0 && (self.current as usize) < len
    }

    fn get_int(&self, field_name: &str) -> (r: Result<i64, DbError>) {
        match self.get_current_value(field_name) {
            Ok(Value::Int(n)) => Ok(*n),
            Ok(Value::Str(_)) => {
                proof {
                    reveal_strlit("Int");
                    reveal_strlit("String");
                }
                Err(
                    DbError::TypeMismatch {
                        field: field_name.to_owned(),
                        expected: "Int".to_owned(),
                        got: "String".to_owned(),
                    },
                )
            },
            Err(e) => Err(e),
        }
    }

    fn get_string(&self, field_name: &str) -> (r: Result<String, DbError>) {
        match self.get_current_value(field_name) {
            Ok(Value::Str(s)) => Ok(s.clone()),
            Ok(Value::Int(_)) => {
                proof {
                    reveal_strlit("Int");
                    reveal_strlit("String");
                }
                Err(
                    DbError::TypeMismatch {
                        field: field_name.to_owned(),
                        expected: "String".to_owned(),
                        got: "Int".to_owned(),
                    },
                )
            },
            Err(e) => Err(e),
        }
    }

    fn get_value(&self, field_name: &str) -> (r: Result<Value, DbError>) {
        match self.get_current_value(field_name) {
            Ok(v) => Ok(v.duplicate()),
            Err(e) => Err(e),
        }
    }

    // Which fields the table has is decided by its first record.
    fn has_field(&self, field_name: &str) -> (r: bool) {
        if self.rows.len() == 0 {
            false
        } else {
            self.rows[0].contains_key(field_name)
        }
    }

    // The table stays readable: closing it releases nothing.
    fn close(&mut self)
        ensures
            final(self).records() == old(self).records(),
            final(self).cursor() == old(self).cursor(),
    {
        proof {
            use_type_invariant(&*self);
            self.closed = Ghost(true);
        }
    }
}

} // verus!
