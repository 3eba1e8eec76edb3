use vstd::prelude::*;
use crate::error::{DbError, DbErrorView, result_view};
use crate::value::Value;

verus! {

/// The position that `next()` moves a cursor at `pos` to, over `len`
/// records: one record on, but never past the end (position `len`).
pub open spec fn next_pos(pos: int, len: nat) -> int {
    if pos < len {
        pos + 1
    } else {
        pos
    }
}

/// Whether a cursor at `pos` stands on one of `len` records.
pub open spec fn on_record(pos: int, len: nat) -> bool {
    0 <= pos < len
}

/// What `get_int()` gives for a field whose reading is `read`: the integer,
/// a `TypeMismatch` for a string, the error of the reading otherwise.
pub open spec fn int_reading(read: Result<Value, DbErrorView>, field: Seq<char>) -> Result<
    i64,
    DbErrorView,
> {
    match read {
        Ok(Value::Int(n)) => Ok(n),
        Ok(Value::Str(_)) => Err(
            DbErrorView::TypeMismatch { field: field, expected: "Int"@, got: "String"@ },
        ),
        Err(e) => Err(e),
    }
}

/// What `get_string()` gives for a field whose reading is `read`: the
/// string, a `TypeMismatch` for an integer, the error of the reading
/// otherwise.
pub open spec fn string_reading(read: Result<Value, DbErrorView>, field: Seq<char>) -> Result<
    String,
    DbErrorView,
> {
    match read {
        Ok(Value::Str(s)) => Ok(s),
        Ok(Value::Int(_)) => Err(
            DbErrorView::TypeMismatch { field: field, expected: "String"@, got: "Int"@ },
        ),
        Err(e) => Err(e),
    }
}

/// The interface of every scan operator (Volcano / iterator model).
///
/// Order of calls:
/// 1. `before_first()` resets the scan to before its first record;
/// 2. loop: `next()`, and while it returns `true`, read fields with `get_*`;
/// 3. `close()` releases the operator's resources.
///
/// A scan is described by the number of its records, the position of its
/// cursor (`-1` before the first record, `i` on record `i`, the number of
/// records past the last one), what reading a field gives at each position,
/// which fields it makes available, and whether it has been closed. Moving
/// the cursor changes nothing else.
pub trait Scan {
    /// The number of records.
    spec fn spec_len(&self) -> nat;

    /// The position of the cursor.
    spec fn spec_pos(&self) -> int;

    /// What `get_value(field)` gives while the cursor stands at `pos`.
    spec fn spec_read(&self, pos: int, field: Seq<char>) -> Result<Value, DbErrorView>;

    /// Whether `field` is available through this operator.
    spec fn spec_has_field(&self, field: Seq<char>) -> bool;

    /// Whether the operator has been closed, its resources released.
    spec fn spec_closed(&self) -> bool;

    /// Resets the cursor to before the first record.
    fn before_first(&mut self)
        ensures
            final(self).spec_pos() == -1,
            final(self).spec_len() == old(self).spec_len(),
            final(self).spec_closed() == old(self).spec_closed(),
            forall|p: int, f: Seq<char>| #[trigger]
                final(self).spec_read(p, f) == old(self).spec_read(p, f),
            forall|f: Seq<char>| #[trigger]
                final(self).spec_has_field(f) == old(self).spec_has_field(f),
    ;

    /// Moves to the next record; returns `false` once the records have run out.
    fn next(&mut self) -> (r: bool)
        ensures
            final(self).spec_pos() == next_pos(old(self).spec_pos(), old(self).spec_len()),
            r == on_record(final(self).spec_pos(), final(self).spec_len()),
            final(self).spec_len() == old(self).spec_len(),
            final(self).spec_closed() == old(self).spec_closed(),
            forall|p: int, f: Seq<char>| #[trigger]
                final(self).spec_read(p, f) == old(self).spec_read(p, f),
            forall|f: Seq<char>| #[trigger]
                final(self).spec_has_field(f) == old(self).spec_has_field(f),
    ;

    /// The integer value of a field of the current record.
    /// Errors: `FieldNotFound`, `TypeMismatch`, and whatever error the
    /// operator gives off a record (`Other` for an in-memory table).
    fn get_int(&self, field_name: &str) -> (r: Result<i64, DbError>)
        ensures
            result_view(r) == int_reading(
                self.spec_read(self.spec_pos(), field_name@),
                field_name@,
            ),
    ;

    /// The string value of a field of the current record.
    /// Errors: `FieldNotFound`, `TypeMismatch`, and whatever error the
    /// operator gives off a record (`Other` for an in-memory table).
    fn get_string(&self, field_name: &str) -> (r: Result<String, DbError>)
        ensures
            result_view(r) == string_reading(
                self.spec_read(self.spec_pos(), field_name@),
                field_name@,
            ),
    ;

    /// The value of a field of the current record, whatever its type.
    /// Errors: `FieldNotFound`, and whatever error the operator gives off a
    /// record (`Other` for an in-memory table).
    fn get_value(&self, field_name: &str) -> (r: Result<Value, DbError>)
        ensures
            result_view(r) == self.spec_read(self.spec_pos(), field_name@),
    ;

    /// Whether the field is available through this operator; for a
    /// projection, only the fields of its list are.
    fn has_field(&self, field_name: &str) -> (r: bool)
        ensures
            r == self.spec_has_field(field_name@),
    ;

    /// Releases the operator's resources; the operator is closed afterwards.
    /// Its cursor, its records, what they read and the fields it offers are
    /// left as they were.
    fn close(&mut self)
        ensures
            final(self).spec_closed(),
            final(self).spec_pos() == old(self).spec_pos(),
            final(self).spec_len() == old(self).spec_len(),
            forall|p: int, f: Seq<char>| #[trigger]
                final(self).spec_read(p, f) == old(self).spec_read(p, f),
            forall|f: Seq<char>| #[trigger]
                final(self).spec_has_field(f) == old(self).spec_has_field(f),
    ;
}

} // verus!
