//! The `comp_types_mat_view` table (PostgreSQL dialect, compact layout): rows, orderings, constraints and statements.
use vstd::prelude::*;
use crate::value::{SqlValue, BindV, Statement, UtcTimestamp, CalendarDate, opt_text_v, opt_bytes_v, opt_chars};
use crate::order::{order_allowed, order_error, check_order};
use crate::sql::{paged_sql, paged_text, Placeholder, values_sql, values_text, values_piece, values_plan, chunks, rows_view};
use crate::paging::{page_offset, offset_of};

verus! {

/// A row of `comp_types_mat_view`.
#[derive(Clone, Debug)]
pub struct CompTypesMatView {
    pub f_blob: Option<Vec<u8>>,
    pub f_bool: Option<bool>,
    pub f_date: Option<CalendarDate>,
    pub f_datetime: Option<UtcTimestamp>,
    pub f_decimal: Option<String>,
    pub f_double: Option<String>,
    pub f_float: Option<String>,
    pub f_int: Option<i32>,
    pub f_json: Option<String>,
    pub f_text: Option<String>,
    pub f_timestamp: Option<UtcTimestamp>,
    pub f_varchar: Option<String>,
    pub id: i64,
}

impl CompTypesMatView {
    /// The statement that counts the rows.
    pub fn count() -> (st: Statement)
        ensures
            st@.sql == "SELECT COUNT(*) FROM comp_types_mat_view"@,
            st@.binds == Seq::<BindV>::empty(),
    {
        Statement::new("SELECT COUNT(*) FROM comp_types_mat_view", Vec::new())
    }

    /// The statement that streams all rows.
    pub fn stream_all() -> (st: Statement)
        ensures
            st@.sql == "SELECT \"f_blob\", \"f_bool\", \"f_date\", \"f_datetime\", \"f_decimal\", \"f_double\", \"f_float\", \"f_int\", \"f_json\", \"f_text\", \"f_timestamp\", \"f_varchar\", \"id\" FROM comp_types_mat_view"@,
            st@.binds == Seq::<BindV>::empty(),
    {
        Statement::new("SELECT \"f_blob\", \"f_bool\", \"f_date\", \"f_datetime\", \"f_decimal\", \"f_double\", \"f_float\", \"f_int\", \"f_json\", \"f_text\", \"f_timestamp\", \"f_varchar\", \"id\" FROM comp_types_mat_view", Vec::new())
    }

    /// The statement that reads one page of rows ordered by the given
    /// `ORDER BY` text, passed on unchanged once every term names one of the
    /// listed columns: page `page` (counted from one; zero reads as one) of
    /// `page_size` rows. A term whose
    /// column is not listed is refused with its column.
    pub fn list_paginated(order_by: &str, page: u32, page_size: u32) -> (r: Result<Statement, String>)
        requires
            order_allowed(order_by@, seq!["f_blob"@, "f_bool"@, "f_date"@, "f_datetime"@, "f_decimal"@, "f_double"@, "f_float"@, "f_int"@, "f_json"@, "f_text"@, "f_timestamp"@, "f_varchar"@, "id"@], false)
                ==> offset_of(page, page_size) <= u32::MAX,
        ensures
            r is Ok <==> order_allowed(order_by@, seq!["f_blob"@, "f_bool"@, "f_date"@, "f_datetime"@, "f_decimal"@, "f_double"@, "f_float"@, "f_int"@, "f_json"@, "f_text"@, "f_timestamp"@, "f_varchar"@, "id"@], false),
            r matches Err(m) ==> order_error(order_by@, seq!["f_blob"@, "f_bool"@, "f_date"@, "f_datetime"@, "f_decimal"@, "f_double"@, "f_float"@, "f_int"@, "f_json"@, "f_text"@, "f_timestamp"@, "f_varchar"@, "id"@], false, m@),
            r matches Ok(st) ==> st@.sql == paged_sql("SELECT \"f_blob\", \"f_bool\", \"f_date\", \"f_datetime\", \"f_decimal\", \"f_double\", \"f_float\", \"f_int\", \"f_json\", \"f_text\", \"f_timestamp\", \"f_varchar\", \"id\" FROM comp_types_mat_view ORDER BY "@, order_by@, Placeholder::Numbered)
                && st@.binds == seq![
                    BindV::BigInt(Some((page_size) as i64)),
                    BindV::BigInt(Some(offset_of(page, page_size) as i64)),
                ],
    {
        let allowed: Vec<&str> = vec!["f_blob", "f_bool", "f_date", "f_datetime", "f_decimal", "f_double", "f_float", "f_int", "f_json", "f_text", "f_timestamp", "f_varchar", "id"];
        assert(allowed@.map_values(|a: &str| a@) =~= seq!["f_blob"@, "f_bool"@, "f_date"@, "f_datetime"@, "f_decimal"@, "f_double"@, "f_float"@, "f_int"@, "f_json"@, "f_text"@, "f_timestamp"@, "f_varchar"@, "id"@]);
        match check_order(order_by, &allowed, false) {
            Ok(()) => {},
            Err(m) => {
                return Err(m);
            },
        }
        let size = page_size;
        let offset = page_offset(page, size);
        Ok(Statement {
            sql: paged_text("SELECT \"f_blob\", \"f_bool\", \"f_date\", \"f_datetime\", \"f_decimal\", \"f_double\", \"f_float\", \"f_int\", \"f_json\", \"f_text\", \"f_timestamp\", \"f_varchar\", \"id\" FROM comp_types_mat_view ORDER BY ", order_by, Placeholder::Numbered),
            binds: vec![SqlValue::BigInt(Some(size as i64)), SqlValue::BigInt(Some(offset as i64))],
        })
    }

    /// The value this row holds in the column named `column`, as the
    /// statements bind it; `None` for a name that is not a column.
    pub open spec fn column_value(self, column: Seq<char>) -> Option<BindV> {
        if column == "f_blob"@ {
            Some(opt_bytes_v(self.f_blob))
        } else if column == "f_bool"@ {
            Some(BindV::Bool(self.f_bool))
        } else if column == "f_date"@ {
            Some(BindV::Date(self.f_date))
        } else if column == "f_datetime"@ {
            Some(BindV::Timestamp(self.f_datetime))
        } else if column == "f_decimal"@ {
            Some(opt_text_v(self.f_decimal))
        } else if column == "f_double"@ {
            Some(BindV::Double(opt_chars(self.f_double)))
        } else if column == "f_float"@ {
            Some(BindV::Real(opt_chars(self.f_float)))
        } else if column == "f_int"@ {
            Some(BindV::Int(self.f_int))
        } else if column == "f_json"@ {
            Some(opt_text_v(self.f_json))
        } else if column == "f_text"@ {
            Some(opt_text_v(self.f_text))
        } else if column == "f_timestamp"@ {
            Some(BindV::Timestamp(self.f_timestamp))
        } else if column == "f_varchar"@ {
            Some(opt_text_v(self.f_varchar))
        } else if column == "id"@ {
            Some(BindV::BigInt(Some(self.id)))
        } else {
            None
        }
    }

    /// The text that starts the single-row and multi-row writes, up to their
    /// `VALUES`.
    pub open spec fn insert_head() -> Seq<char> {
        "INSERT INTO comp_types_mat_view (\"f_blob\", \"f_bool\", \"f_date\", \"f_datetime\", \"f_decimal\", \"f_double\", \"f_float\", \"f_int\", \"f_json\", \"f_text\", \"f_timestamp\", \"f_varchar\", \"id\") "@
    }

    /// The single-row and multi-row writes name the columns `f_blob`, `f_bool`, `f_date`, `f_datetime`, `f_decimal`, `f_double`, `f_float`, `f_int`, `f_json`, `f_text`, `f_timestamp`, `f_varchar`, `id`
    /// in this order, and bind for each of them this row's value of that column.
    pub proof fn law_row_binds_named_columns(self)
        ensures
            Self::insert_head() == "INSERT INTO comp_types_mat_view ("@ + "\"f_blob\""@ + ", "@ + "\"f_bool\""@ + ", "@ + "\"f_date\""@ + ", "@ + "\"f_datetime\""@ + ", "@ + "\"f_decimal\""@ + ", "@ + "\"f_double\""@ + ", "@ + "\"f_float\""@ + ", "@ + "\"f_int\""@ + ", "@ + "\"f_json\""@ + ", "@ + "\"f_text\""@ + ", "@ + "\"f_timestamp\""@ + ", "@ + "\"f_varchar\""@ + ", "@ + "\"id\""@ + ") "@,
            self.row_values().len() == 13,
            self.column_value("f_blob"@) == Some(self.row_values()[0]),
            self.column_value("f_bool"@) == Some(self.row_values()[1]),
            self.column_value("f_date"@) == Some(self.row_values()[2]),
            self.column_value("f_datetime"@) == Some(self.row_values()[3]),
            self.column_value("f_decimal"@) == Some(self.row_values()[4]),
            self.column_value("f_double"@) == Some(self.row_values()[5]),
            self.column_value("f_float"@) == Some(self.row_values()[6]),
            self.column_value("f_int"@) == Some(self.row_values()[7]),
            self.column_value("f_json"@) == Some(self.row_values()[8]),
            self.column_value("f_text"@) == Some(self.row_values()[9]),
            self.column_value("f_timestamp"@) == Some(self.row_values()[10]),
            self.column_value("f_varchar"@) == Some(self.row_values()[11]),
            self.column_value("id"@) == Some(self.row_values()[12]),
    {
        reveal_strlit("f_blob");
        assert("f_blob"@.len() == 6 && "f_blob"@[3] == 'l');
        reveal_strlit("f_bool");
        assert("f_bool"@.len() == 6 && "f_bool"@[3] == 'o');
        reveal_strlit("f_date");
        assert("f_date"@.len() == 6 && "f_date"@[3] == 'a');
        reveal_strlit("f_datetime");
        assert("f_datetime"@.len() == 10 && "f_datetime"@[3] == 'a');
        reveal_strlit("f_decimal");
        assert("f_decimal"@.len() == 9 && "f_decimal"@[3] == 'e');
        reveal_strlit("f_double");
        assert("f_double"@.len() == 8 && "f_double"@[3] == 'o');
        reveal_strlit("f_float");
        assert("f_float"@.len() == 7 && "f_float"@[3] == 'l');
        reveal_strlit("f_int");
        assert("f_int"@.len() == 5 && "f_int"@[3] == 'n');
        reveal_strlit("f_json");
        assert("f_json"@.len() == 6 && "f_json"@[3] == 's');
        reveal_strlit("f_text");
        assert("f_text"@.len() == 6 && "f_text"@[3] == 'e');
        reveal_strlit("f_timestamp");
        assert("f_timestamp"@.len() == 11 && "f_timestamp"@[3] == 'i');
        reveal_strlit("f_varchar");
        assert("f_varchar"@.len() == 9 && "f_varchar"@[3] == 'a');
        reveal_strlit("id");
        assert("id"@.len() == 2);
        reveal_strlit("INSERT INTO comp_types_mat_view (\"f_blob\", \"f_bool\", \"f_date\", \"f_datetime\", \"f_decimal\", \"f_double\", \"f_float\", \"f_int\", \"f_json\", \"f_text\", \"f_timestamp\", \"f_varchar\", \"id\") ");
        reveal_strlit("INSERT INTO comp_types_mat_view (");
        reveal_strlit("\"f_blob\"");
        reveal_strlit(", ");
        reveal_strlit("\"f_bool\"");
        reveal_strlit("\"f_date\"");
        reveal_strlit("\"f_datetime\"");
        reveal_strlit("\"f_decimal\"");
        reveal_strlit("\"f_double\"");
        reveal_strlit("\"f_float\"");
        reveal_strlit("\"f_int\"");
        reveal_strlit("\"f_json\"");
        reveal_strlit("\"f_text\"");
        reveal_strlit("\"f_timestamp\"");
        reveal_strlit("\"f_varchar\"");
        reveal_strlit("\"id\"");
        reveal_strlit(") ");
    }

    /// A batch holds one row of values an item, in the order of the items.
    pub proof fn law_batch_rows_are_the_items_in_order(items: Seq<Self>)
        ensures
            Self::rows_values(items).len() == items.len(),
            forall|i: int| 0 <= i < items.len() ==> #[trigger] Self::rows_values(items)[i] == items[i].row_values(),
    {
    }

    /// The values of this row's columns, in the order the single-row and multi-row writes bind them.
    pub open spec fn row_values(self) -> Seq<BindV> {
        seq![opt_bytes_v(self.f_blob), BindV::Bool(self.f_bool), BindV::Date(self.f_date), BindV::Timestamp(self.f_datetime), opt_text_v(self.f_decimal), BindV::Double(opt_chars(self.f_double)), BindV::Real(opt_chars(self.f_float)), BindV::Int(self.f_int), opt_text_v(self.f_json), opt_text_v(self.f_text), BindV::Timestamp(self.f_timestamp), opt_text_v(self.f_varchar), BindV::BigInt(Some(self.id))]
    }

    /// The values of this row's columns, in the order the single-row and multi-row writes bind them.
    pub fn row(&self) -> (r: Vec<SqlValue>)
        ensures
            r@.map_values(|b: SqlValue| b@) == self.row_values(),
    {
        vec![SqlValue::opt_bytes(&self.f_blob), SqlValue::Bool(self.f_bool), SqlValue::Date(self.f_date), SqlValue::Timestamp(self.f_datetime), SqlValue::opt_text(&self.f_decimal), SqlValue::opt_double(&self.f_double), SqlValue::opt_real(&self.f_float), SqlValue::Int(self.f_int), SqlValue::opt_text(&self.f_json), SqlValue::opt_text(&self.f_text), SqlValue::Timestamp(self.f_timestamp), SqlValue::opt_text(&self.f_varchar), SqlValue::BigInt(Some(self.id))]
    }

    /// The statement that inserts this row.
    pub fn insert(&self) -> (st: Statement)
        ensures
            st@.sql == values_sql(Self::insert_head(), Placeholder::Numbered, 1, 13, ""@),
            st@.binds == self.row_values(),
    {
        Statement { sql: values_text("INSERT INTO comp_types_mat_view (\"f_blob\", \"f_bool\", \"f_date\", \"f_datetime\", \"f_decimal\", \"f_double\", \"f_float\", \"f_int\", \"f_json\", \"f_text\", \"f_timestamp\", \"f_varchar\", \"id\") ", Placeholder::Numbered, 1, 13, ""), binds: self.row() }
    }

    /// The values of each row, in statement order.
    pub open spec fn rows_values(items: Seq<Self>) -> Seq<Seq<BindV>> {
        items.map_values(|it: Self| it.row_values())
    }

    /// The values of each row, in statement order.
    pub fn rows(items: &[Self]) -> (r: Vec<Vec<SqlValue>>)
        ensures
            rows_view(r@) == Self::rows_values(items@),
    {
        let mut r: Vec<Vec<SqlValue>> = Vec::new();
        let mut i: usize = 0;
        while i < items.len()
            invariant
                0 <= i <= items.len(),
                rows_view(r@) == Self::rows_values(items@.take(i as int)),
            decreases items.len() - i,
        {
            let row = items[i].row();
            let ghost prev = r@;
            r.push(row);
            proof {
                assert(r@ =~= prev.push(row));
                assert(rows_view(r@) =~= rows_view(prev).push(row@.map_values(|b: SqlValue| b@)));
                assert(items@.take(i + 1) =~= items@.take(i as int).push(items@[i as int]));
                assert(Self::rows_values(items@.take(i + 1))
                    =~= Self::rows_values(items@.take(i as int)).push(items@[i as int].row_values()));
            }
            i = i + 1;
        }
        assert(items@.take(items.len() as int) =~= items@);
        r
    }

    /// The multi-row statements that write the given rows, pieces of at most 5000 rows; no
    /// statement for no rows.
    pub fn insert_batch(items: &[Self]) -> (plan: Vec<Statement>)
        ensures
            plan@.len() == chunks(Self::rows_values(items@), 5000 as nat).len(),
            forall|k: int| 0 <= k < plan@.len() ==> (#[trigger] plan@[k])@ == values_piece(
                Self::insert_head(), ""@, Placeholder::Numbered, 13, chunks(Self::rows_values(items@), 5000 as nat)[k]),
            forall|k: int| 0 <= k < plan@.len() ==> (#[trigger] plan@[k])@.binds.len() <= 65000,
    {
        let rows = Self::rows(items);
        assert(rows_view(rows@).len() == items@.len());
        assert(rows_view(rows@).len() == rows@.len());
        assert forall|j: int| 0 <= j < rows@.len() implies (#[trigger] rows_view(rows@)[j]).len() == 13 by {
            assert(Self::rows_values(items@)[j] == items@[j].row_values());
            assert(rows_view(rows@)[j] == items@[j].row_values());
        }
        values_plan("INSERT INTO comp_types_mat_view (\"f_blob\", \"f_bool\", \"f_date\", \"f_datetime\", \"f_decimal\", \"f_double\", \"f_float\", \"f_int\", \"f_json\", \"f_text\", \"f_timestamp\", \"f_varchar\", \"id\") ", "", Placeholder::Numbered, 13, 5000, &rows)
    }
}

} // verus!
