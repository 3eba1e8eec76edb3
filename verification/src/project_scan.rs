use vstd::prelude::*;
use crate::error::{DbError, DbErrorView};
use crate::scan::Scan;
use crate::value::Value;

verus! {

/// Whether `field` is one of the names in `fields`.
pub open spec fn lists_field(fields: Seq<String>, field: Seq<char>) -> bool {
    exists|i: int| 0 <= i < fields.len() && #[trigger] fields[i]@ == field
}

/// What reading `field` through a projection on `fields` gives, where the
/// scan beneath reads `base`: the same when the list names the field,
/// `FieldNotFound` otherwise.
pub open spec fn projected_read(
    fields: Seq<String>,
    field: Seq<char>,
    base: Result<Value, DbErrorView>,
) -> Result<Value, DbErrorView> {
    if lists_field(fields, field) {
        base
    } else {
        Err(DbErrorView::FieldNotFound(field))
    }
}

/// The projection operator (`SELECT col1, col2 FROM ...`).
///
/// It wraps any scan beneath it (a table scan, a selection, another
/// projection, ...; by default a `Box<dyn Scan>`) and limits the fields available to
/// those of `field_list`. Moving the cursor and reading are handed to the
/// scan beneath; a field outside `field_list` gives `FieldNotFound`.
pub struct ProjectScan<S: Scan + ?Sized = dyn Scan> {
    base_scan: Box<S>,
    field_list: Vec<String>,
}

impl<S: Scan + ?Sized> ProjectScan<S> {
    /// The scan beneath.
    pub closed spec fn base(&self) -> Box<S> {
        self.base_scan
    }

    /// The projection list.
    pub closed spec fn fields(&self) -> Seq<String> {
        self.field_list@
    }

    /// A projection of `base_scan` on the fields of `field_list`.
    pub fn new(base_scan: Box<S>, field_list: Vec<String>) -> (s: Self)
        ensures
            s.base() == base_scan,
            s.fields() == field_list@,
    {
        ProjectScan { base_scan, field_list }
    }

    /// Whether the projection list names `field_name`.
    fn lists(&self, field_name: &str) -> (r: bool)
        ensures
            r == lists_field(self.fields(), field_name@),
    {
        let target = field_name.to_owned();
        let mut i: usize = 0;
        while i < self.field_list.len()
            invariant
                i <= self.field_list@.len(),
                target@ == field_name@,
                forall|j: int| 0 <= j < i ==> self.field_list@[j]@ != field_name@,
            decreases self.field_list@.len() - i,
        {
            if self.field_list[i] == target {
                return true;
            }
            i = i + 1;
        }
        false
    }

    /// `Ok` when the projection list names `field_name`, `FieldNotFound`
    /// otherwise: it passes exactly the fields that `has_field` reports.
    pub fn check_field(&self, field_name: &str) -> (r: Result<(), DbError>)
        ensures
            r is Ok <==> lists_field(self.fields(), field_name@),
            r is Ok <==> self.spec_has_field(field_name@),
            r matches Err(e) ==> e@ == DbErrorView::FieldNotFound(field_name@),
    {
        if self.lists(field_name) {
            Ok(())
        } else {
            Err(DbError::FieldNotFound(field_name.to_owned()))
        }
    }
}

impl<S: Scan + ?Sized> Scan for ProjectScan<S> {
    open spec fn spec_len(&self) -> nat {
        self.base().spec_len()
    }

    open spec fn spec_pos(&self) -> int {
        self.base().spec_pos()
    }

    open spec fn spec_read(&self, pos: int, field: Seq<char>) -> Result<Value, DbErrorView> {
        projected_read(self.fields(), field, self.base().spec_read(pos, field))
    }

    open spec fn spec_has_field(&self, field: Seq<char>) -> bool {
        lists_field(self.fields(), field)
    }

    /// A projection is closed when the scan beneath is.
    open spec fn spec_closed(&self) -> bool {
        self.base().spec_closed()
    }

    fn before_first(&mut self) {
        self.base_scan.before_first();
    }

    fn next(&mut self) -> (r: bool) {
        self.base_scan.next()
    }

    fn get_int(&self, field_name: &str) -> (r: Result<i64, DbError>) {
        match self.check_field(field_name) {
            Ok(()) => self.base_scan.get_int(field_name),
            Err(e) => Err(e),
        }
    }

    fn get_string(&self, field_name: &str) -> (r: Result<String, DbError>) {
        match self.check_field(field_name) {
            Ok(()) => self.base_scan.get_string(field_name),
            Err(e) => Err(e),
        }
    }

    fn get_value(&self, field_name: &str) -> (r: Result<Value, DbError>) {
        match self.check_field(field_name) {
            Ok(()) => self.base_scan.get_value(field_name),
            Err(e) => Err(e),
        }
    }

    fn has_field(&self, field_name: &str) -> (r: bool) {
        self.lists(field_name)
    }

    // Closing a projection closes the scan beneath it.
    fn close(&mut self)
        ensures
            final(self).fields() == old(self).fields(),
            final(self).base().spec_closed(),
    {
        self.base_scan.close();
    }
}

} // verus!
