use vstd::prelude::*;
use crate::error::DbErrorView;
use crate::project_scan::{ProjectScan, lists_field};
use crate::mock_scan::MockTableScan;
use crate::row::pairs_map;
use crate::scan::{Scan, next_pos, on_record, int_reading, string_reading};
use crate::value::{
    Value,
    digit_char,
    nat_decimal,
    int_decimal,
    digits_value,
    decimal_value,
    display_text,
};

verus! {

/// Where the cursor of a scan with `len` records stands after `k` calls of
/// `next()` from `start`.
pub open spec fn pos_after_nexts(start: int, len: nat, k: nat) -> int
    decreases k,
{
    if k == 0 {
        start
    } else {
        next_pos(pos_after_nexts(start, len, (k - 1) as nat), len)
    }
}

/// A pass from before the first record visits the records in order: the
/// `k`-th call of `next()` stands on record `k - 1` and returns `true` for
/// `k` up to the number of records, and every later call returns `false`.
/// Since `before_first()` puts the cursor back before the first record and
/// changes nothing else, every pass after it visits the same records.
pub proof fn lemma_full_pass(len: nat, k: nat)
    ensures
        pos_after_nexts(-1, len, k) == (if k <= len {
            k - 1
        } else {
            len as int
        }),
        k >= 1 ==> (on_record(pos_after_nexts(-1, len, k), len) <==> k <= len),
    decreases k,
{
    if k > 0 {
        lemma_full_pass(len, (k - 1) as nat);
    }
}

/// The typed getters agree with `get_value()`: `get_int()` gives `n`
/// exactly when the value is the integer `n`, `get_string()` gives `s`
/// exactly when the value is the string `s`, both pass on the error of
/// a failed reading unchanged, and a value of the other type gives
/// `TypeMismatch` naming the field, the type asked for and the type found.
pub proof fn lemma_typed_reads_agree(read: Result<Value, DbErrorView>, field: Seq<char>)
    ensures
        forall|n: i64| int_reading(read, field) == Ok::<i64, DbErrorView>(n) <==> read == Ok::<
            Value,
            DbErrorView,
        >(Value::Int(n)),
        forall|s: String| string_reading(read, field) == Ok::<String, DbErrorView>(s) <==> read
            == Ok::<Value, DbErrorView>(Value::Str(s)),
        forall|e: DbErrorView|
            read == Err::<Value, DbErrorView>(e) ==> int_reading(read, field) == Err::<
                i64,
                DbErrorView,
            >(e) && string_reading(read, field) == Err::<String, DbErrorView>(e),
        read matches Ok(Value::Str(_)) ==> int_reading(read, field) == Err::<i64, DbErrorView>(
            DbErrorView::TypeMismatch { field: field, expected: "Int"@, got: "String"@ },
        ),
        read matches Ok(Value::Int(_)) ==> string_reading(read, field) == Err::<
            String,
            DbErrorView,
        >(DbErrorView::TypeMismatch { field: field, expected: "String"@, got: "Int"@ }),
{
}

/// The decimal text of a natural number starts with a digit and reads back
/// as that number.
proof fn lemma_nat_decimal_reads_back(n: nat)
    ensures
        nat_decimal(n).len() > 0,
        48 <= nat_decimal(n)[0] as int <= 57,
        digits_value(nat_decimal(n)) == n,
    decreases n,
{
    if n < 10 {
        assert(nat_decimal(n).drop_last() =~= Seq::<char>::empty());
        assert(nat_decimal(n).last() as int == 48 + n);
        assert(digits_value(nat_decimal(n)) == digits_value(nat_decimal(n).drop_last()) * 10 + (
        nat_decimal(n).last() as int - 48));
    } else {
        lemma_nat_decimal_reads_back(n / 10);
        assert(nat_decimal(n).drop_last() =~= nat_decimal(n / 10));
        assert(digit_char(n % 10) as int == 48 + n % 10);
        assert(digits_value(nat_decimal(n)) == digits_value(nat_decimal(n).drop_last()) * 10 + (
        nat_decimal(n).last() as int - 48));
    }
}

/// A value displays as text that gives the value back: an integer as
/// decimal text that reads back as the same integer (`i64::MIN` and
/// `i64::MAX` included), a string as its own characters.
pub proof fn lemma_display_reads_back(v: Value)
    ensures
        v matches Value::Int(n) ==> decimal_value(display_text(v)) == n,
        v matches Value::Str(s) ==> display_text(v) == s@,
{
    if let Value::Int(n) = v {
        if n < 0 {
            let m = (-n) as nat;
            lemma_nat_decimal_reads_back(m);
            assert((seq!['-'] + nat_decimal(m)).drop_first() =~= nat_decimal(m));
        } else {
            lemma_nat_decimal_reads_back(n as nat);
        }
    }
}

/// A projection never offers a field that its list does not name: reading
/// such a field gives `FieldNotFound` with its name, wherever the cursor
/// stands and whatever the scan beneath holds.
pub proof fn lemma_hidden_field_not_found<S: Scan + ?Sized>(
    scan: &ProjectScan<S>,
    pos: int,
    field: Seq<char>,
)
    requires
        !scan.spec_has_field(field),
    ensures
        scan.spec_read(pos, field) == Err::<crate::value::Value, DbErrorView>(
            DbErrorView::FieldNotFound(field),
        ),
{
}

/// A projection reads a field of its list exactly as the scan beneath
/// does, and moves over the same records.
pub proof fn lemma_listed_field_passes_through<S: Scan + ?Sized>(
    scan: &ProjectScan<S>,
    pos: int,
    field: Seq<char>,
)
    requires
        scan.spec_has_field(field),
    ensures
        scan.spec_read(pos, field) == scan.base().spec_read(pos, field),
        scan.spec_pos() == scan.base().spec_pos(),
        scan.spec_len() == scan.base().spec_len(),
{
}

/// A projection over a projection behaves as one projection on the fields
/// that both lists name: such a field reads as in the innermost scan, any
/// other gives `FieldNotFound`; the cursor and the records are those of the
/// innermost scan. The outer projection offers (`has_field`) the fields of
/// its own list.
pub proof fn lemma_chained_projection<S: Scan + ?Sized>(
    outer: &ProjectScan<ProjectScan<S>>,
    pos: int,
    field: Seq<char>,
)
    ensures
        outer.spec_read(pos, field) == (if lists_field(outer.fields(), field) && lists_field(
            outer.base().fields(),
            field,
        ) {
            outer.base().base().spec_read(pos, field)
        } else {
            Err(DbErrorView::FieldNotFound(field))
        }),
        outer.spec_pos() == outer.base().base().spec_pos(),
        outer.spec_len() == outer.base().base().spec_len(),
        outer.spec_has_field(field) == lists_field(outer.fields(), field),
{
}

/// A projection passes a field exactly when some entry of its list is equal
/// to the field's name: such a field is offered and reads as in the scan
/// beneath; any other field (a longer or shorter name included) is not
/// offered and reads `FieldNotFound` with its name.
pub proof fn lemma_projection_passes_exactly_listed<S: Scan + ?Sized>(
    scan: &ProjectScan<S>,
    pos: int,
    field: Seq<char>,
)
    ensures
        scan.spec_has_field(field) <==> exists|i: int|
            0 <= i < scan.fields().len() && #[trigger] scan.fields()[i]@ == field,
        (exists|i: int| 0 <= i < scan.fields().len() && #[trigger] scan.fields()[i]@ == field)
            ==> scan.spec_read(pos, field) == scan.base().spec_read(pos, field),
        !(exists|i: int| 0 <= i < scan.fields().len() && #[trigger] scan.fields()[i]@ == field)
            ==> scan.spec_read(pos, field) == Err::<Value, DbErrorView>(
            DbErrorView::FieldNotFound(field),
        ),
{
}

/// Reading an in-memory table: on a record that holds the field, its value;
/// on a record that lacks it, `FieldNotFound` with its name; off the records,
/// the `Other` error. A non-empty table offers exactly the fields of its
/// first record, an empty one none.
pub proof fn lemma_table_reads(table: &MockTableScan, pos: int, field: Seq<char>)
    ensures
        table.spec_len() == table.records().len(),
        0 <= pos < table.records().len() && table.records()[pos].contains_key(field)
            ==> table.spec_read(pos, field) == Ok::<Value, DbErrorView>(
            table.records()[pos][field],
        ),
        0 <= pos < table.records().len() && !table.records()[pos].contains_key(field)
            ==> table.spec_read(pos, field) == Err::<Value, DbErrorView>(
            DbErrorView::FieldNotFound(field),
        ),
        !(0 <= pos < table.records().len()) ==> table.spec_read(pos, field) == Err::<
            Value,
            DbErrorView,
        >(DbErrorView::Other("Итератор не указывает на запись. Вызовите next() перед чтением."@)),
        table.records().len() > 0 ==> (table.spec_has_field(field)
            <==> table.records()[0].contains_key(field)),
        table.records().len() == 0 ==> !table.spec_has_field(field),
{
}

/// The record built from (name, value) pairs has exactly the names of the
/// pairs as its fields, each with the value of the last pair of that name.
pub proof fn lemma_pairs_map(pairs: Seq<(String, Value)>)
    ensures
        forall|k: Seq<char>| #[trigger]
            pairs_map(pairs).contains_key(k) <==> exists|i: int|
                0 <= i < pairs.len() && #[trigger] pairs[i].0@ == k,
        forall|i: int|
            0 <= i < pairs.len() && (forall|j: int|
                i < j < pairs.len() ==> #[trigger] pairs[j].0@ != pairs[i].0@)
                ==> pairs_map(pairs)[#[trigger] pairs[i].0@] == pairs[i].1,
    decreases pairs.len(),
{
    if pairs.len() > 0 {
        let init = pairs.drop_last();
        lemma_pairs_map(init);
        let n = pairs.len() - 1;
        assert(pairs_map(pairs) == pairs_map(init).insert(pairs[n].0@, pairs[n].1));
        assert forall|k: Seq<char>| #[trigger]
            pairs_map(pairs).contains_key(k) <==> exists|i: int|
                0 <= i < pairs.len() && #[trigger] pairs[i].0@ == k by {
            if pairs_map(pairs).contains_key(k) && k != pairs[n].0@ {
                assert(pairs_map(init).contains_key(k));
                let i = choose|i: int| 0 <= i < init.len() && #[trigger] init[i].0@ == k;
                assert(init[i] == pairs[i]);
            }
            if exists|i: int| 0 <= i < pairs.len() && #[trigger] pairs[i].0@ == k {
                let i = choose|i: int| 0 <= i < pairs.len() && #[trigger] pairs[i].0@ == k;
                if i < n {
                    assert(init[i] == pairs[i]);
                    assert(pairs_map(init).contains_key(k));
                }
            }
        }
        assert forall|i: int|
            0 <= i < pairs.len() && (forall|j: int|
                i < j < pairs.len() ==> #[trigger] pairs[j].0@ != pairs[i].0@) implies
                pairs_map(pairs)[#[trigger] pairs[i].0@] == pairs[i].1 by {
            if i < n {
                assert(pairs[n].0@ != pairs[i].0@);
                assert(init[i] == pairs[i]);
                assert forall|j: int| i < j < init.len() implies #[trigger] init[j].0@ != init[i].0@ by {
                    assert(init[j] == pairs[j]);
                }
            }
        }
    }
}

/// Whether `c` is one of the decimal digits `0` to `9`.
pub open spec fn is_decimal_digit(c: char) -> bool {
    48 <= c as int <= 57
}

/// The decimal text of a natural number is made of digits only, and it
/// starts with `0` only when the number is 0.
proof fn lemma_nat_decimal_digits(n: nat)
    ensures
        nat_decimal(n).len() > 0,
        forall|i: int| 0 <= i < nat_decimal(n).len() ==> is_decimal_digit(#[trigger] nat_decimal(n)[i]),
        n > 0 ==> nat_decimal(n)[0] != '0',
        n == 0 ==> nat_decimal(n) == seq!['0'],
    decreases n,
{
    if n >= 10 {
        lemma_nat_decimal_digits(n / 10);
        assert(nat_decimal(n)[0] == nat_decimal(n / 10)[0]);
    } else {
        assert(digit_char(n) as int == 48 + n);
        if n == 0 {
            assert(nat_decimal(n) =~= seq!['0']);
        }
    }
}

/// An integer is displayed in canonical decimal notation: digits only, with
/// a `-` in front of a negative number, no leading zero (the number 0 is
/// `0`), and the text denotes the number.
pub proof fn lemma_display_is_canonical_decimal(n: i64)
    ensures
        ({
            let t = display_text(Value::Int(n));
            &&& n >= 0 ==> {
                &&& t.len() > 0
                &&& forall|i: int| 0 <= i < t.len() ==> is_decimal_digit(#[trigger] t[i])
                &&& t[0] == '0' ==> n == 0 && t.len() == 1
            }
            &&& n < 0 ==> {
                &&& t.len() > 1
                &&& t[0] == '-'
                &&& forall|i: int| 1 <= i < t.len() ==> is_decimal_digit(#[trigger] t[i])
                &&& t[1] != '0'
            }
            &&& decimal_value(t) == n
        }),
{
    lemma_display_reads_back(Value::Int(n));
    if n < 0 {
        let m = (-n) as nat;
        lemma_nat_decimal_digits(m);
        let t = seq!['-'] + nat_decimal(m);
        assert forall|i: int| 1 <= i < t.len() implies is_decimal_digit(#[trigger] t[i]) by {
            assert(t[i] == nat_decimal(m)[i - 1]);
        }
    } else {
        lemma_nat_decimal_digits(n as nat);
    }
}

} // verus!
