//! The `comp_types_table` table (PostgreSQL dialect, compact layout): rows, orderings, constraints and statements.
use vstd::prelude::*;
use crate::value::{SqlValue, BindV, Statement, opt_text_v, opt_chars, values_of_i64};
use crate::order::{order_allowed, order_error, check_order};
use crate::sql::{push_assignment, assigned_column, paged_sql, paged_text, Placeholder, values_sql, values_text, values_piece, values_plan, update_sql, update_text, in_list_piece, in_list_plan, chunks, rows_view, excluded_assignment};
use crate::paging::{page_offset, offset_of};

verus! {

/// A row of `comp_types_table`.
#[derive(Clone, Debug)]
pub struct CompTypesTable {
    pub f_bool: Option<bool>,
    pub f_decimal: Option<String>,
    pub f_double: Option<String>,
    pub f_float: Option<String>,
    pub f_int: Option<i32>,
    pub f_text: Option<String>,
    pub f_varchar: Option<String>,
    pub id: i64,
}

/// The columns of `comp_types_table` to change: `None` leaves a column as it is, `Some(v)` writes `v`.
#[derive(Clone, Debug)]
pub struct CompTypesTablePatch {
    pub f_bool: Option<Option<bool>>,
    pub f_decimal: Option<Option<String>>,
    pub f_double: Option<Option<String>>,
    pub f_float: Option<Option<String>>,
    pub f_int: Option<Option<i32>>,
    pub f_text: Option<Option<String>>,
    pub f_varchar: Option<Option<String>>,
}

impl Default for CompTypesTablePatch {
    /// A patch that changes nothing.
    fn default() -> (p: Self)
        ensures
            p.f_bool is None,
            p.f_decimal is None,
            p.f_double is None,
            p.f_float is None,
            p.f_int is None,
            p.f_text is None,
            p.f_varchar is None,
    {
        CompTypesTablePatch { f_bool: None, f_decimal: None, f_double: None, f_float: None, f_int: None, f_text: None, f_varchar: None }
    }
}

impl CompTypesTable {
    /// The statement that counts the rows.
    pub fn count() -> (st: Statement)
        ensures
            st@.sql == "SELECT COUNT(*) FROM comp_types_table"@,
            st@.binds == Seq::<BindV>::empty(),
    {
        Statement::new("SELECT COUNT(*) FROM comp_types_table", Vec::new())
    }

    /// The statement that streams all rows.
    pub fn stream_all() -> (st: Statement)
        ensures
            st@.sql == "SELECT \"f_bool\", \"f_decimal\", \"f_double\", \"f_float\", \"f_int\", \"f_text\", \"f_varchar\", \"id\" FROM comp_types_table"@,
            st@.binds == Seq::<BindV>::empty(),
    {
        Statement::new("SELECT \"f_bool\", \"f_decimal\", \"f_double\", \"f_float\", \"f_int\", \"f_text\", \"f_varchar\", \"id\" FROM comp_types_table", Vec::new())
    }

    /// The statement that reads one page of rows ordered by the given
    /// `ORDER BY` text, passed on unchanged once every term names one of the
    /// listed columns: page `page` (counted from one; zero reads as one) of
    /// `page_size` rows. A term whose
    /// column is not listed is refused with its column.
    pub fn list_paginated(order_by: &str, page: u32, page_size: u32) -> (r: Result<Statement, String>)
        requires
            order_allowed(order_by@, seq!["f_bool"@, "f_decimal"@, "f_double"@, "f_float"@, "f_int"@, "f_text"@, "f_varchar"@, "id"@], false)
                ==> offset_of(page, page_size) <= u32::MAX,
        ensures
            r is Ok <==> order_allowed(order_by@, seq!["f_bool"@, "f_decimal"@, "f_double"@, "f_float"@, "f_int"@, "f_text"@, "f_varchar"@, "id"@], false),
            r matches Err(m) ==> order_error(order_by@, seq!["f_bool"@, "f_decimal"@, "f_double"@, "f_float"@, "f_int"@, "f_text"@, "f_varchar"@, "id"@], false, m@),
            r matches Ok(st) ==> st@.sql == paged_sql("SELECT \"f_bool\", \"f_decimal\", \"f_double\", \"f_float\", \"f_int\", \"f_text\", \"f_varchar\", \"id\" FROM comp_types_table ORDER BY "@, order_by@, Placeholder::Numbered)
                && st@.binds == seq![
                    BindV::BigInt(Some((page_size) as i64)),
                    BindV::BigInt(Some(offset_of(page, page_size) as i64)),
                ],
    {
        let allowed: Vec<&str> = vec!["f_bool", "f_decimal", "f_double", "f_float", "f_int", "f_text", "f_varchar", "id"];
        assert(allowed@.map_values(|a: &str| a@) =~= seq!["f_bool"@, "f_decimal"@, "f_double"@, "f_float"@, "f_int"@, "f_text"@, "f_varchar"@, "id"@]);
        match check_order(order_by, &allowed, false) {
            Ok(()) => {},
            Err(m) => {
                return Err(m);
            },
        }
        let size = page_size;
        let offset = page_offset(page, size);
        Ok(Statement {
            sql: paged_text("SELECT \"f_bool\", \"f_decimal\", \"f_double\", \"f_float\", \"f_int\", \"f_text\", \"f_varchar\", \"id\" FROM comp_types_table ORDER BY ", order_by, Placeholder::Numbered),
            binds: vec![SqlValue::BigInt(Some(size as i64)), SqlValue::BigInt(Some(offset as i64))],
        })
    }

    /// The statement that reads the row with the given key.
    pub fn get_by_id(id: i64) -> (st: Statement)
        ensures
            st@.sql == "SELECT \"f_bool\", \"f_decimal\", \"f_double\", \"f_float\", \"f_int\", \"f_text\", \"f_varchar\", \"id\" FROM comp_types_table WHERE \"id\" = $1"@,
            st@.binds == seq![BindV::BigInt(Some(id))],
    {
        Statement::new("SELECT \"f_bool\", \"f_decimal\", \"f_double\", \"f_float\", \"f_int\", \"f_text\", \"f_varchar\", \"id\" FROM comp_types_table WHERE \"id\" = $1", vec![SqlValue::BigInt(Some(id))])
    }

    /// The statement that tells whether a row with the given key exists.
    pub fn exists_by_id(id: i64) -> (st: Statement)
        ensures
            st@.sql == "SELECT 1 FROM comp_types_table WHERE \"id\" = $1 LIMIT 1"@,
            st@.binds == seq![BindV::BigInt(Some(id))],
    {
        Statement::new("SELECT 1 FROM comp_types_table WHERE \"id\" = $1 LIMIT 1", vec![SqlValue::BigInt(Some(id))])
    }

    /// The statement that lists the rows after a key in key order, at most `limit` of them.
    pub fn list_by_cursor(last_id: i64, limit: u32) -> (st: Statement)
        ensures
            st@.sql == "SELECT \"f_bool\", \"f_decimal\", \"f_double\", \"f_float\", \"f_int\", \"f_text\", \"f_varchar\", \"id\" FROM comp_types_table WHERE \"id\" > $1 ORDER BY \"id\" ASC LIMIT $2"@,
            st@.binds == seq![BindV::BigInt(Some(last_id)), BindV::BigInt(Some(limit as i64))],
    {
        Statement::new("SELECT \"f_bool\", \"f_decimal\", \"f_double\", \"f_float\", \"f_int\", \"f_text\", \"f_varchar\", \"id\" FROM comp_types_table WHERE \"id\" > $1 ORDER BY \"id\" ASC LIMIT $2", vec![SqlValue::BigInt(Some(last_id)), SqlValue::BigInt(Some(limit as i64))])
    }

    /// The value this row holds in the column named `column`, as the
    /// statements bind it; `None` for a name that is not a column.
    pub open spec fn column_value(self, column: Seq<char>) -> Option<BindV> {
        if column == "f_bool"@ {
            Some(BindV::Bool(self.f_bool))
        } else if column == "f_decimal"@ {
            Some(opt_text_v(self.f_decimal))
        } else if column == "f_double"@ {
            Some(BindV::Double(opt_chars(self.f_double)))
        } else if column == "f_float"@ {
            Some(BindV::Real(opt_chars(self.f_float)))
        } else if column == "f_int"@ {
            Some(BindV::Int(self.f_int))
        } else if column == "f_text"@ {
            Some(opt_text_v(self.f_text))
        } else if column == "f_varchar"@ {
            Some(opt_text_v(self.f_varchar))
        } else if column == "id"@ {
            Some(BindV::BigInt(Some(self.id)))
        } else {
            None
        }
    }

    /// The text that starts the single-row and multi-row writes, up to their
    /// `VALUES`.
    pub open spec fn insert_head() -> Seq<char> {
        "INSERT INTO comp_types_table (\"f_bool\", \"f_decimal\", \"f_double\", \"f_float\", \"f_int\", \"f_text\", \"f_varchar\") "@
    }

    /// The single-row and multi-row writes name the columns `f_bool`, `f_decimal`, `f_double`, `f_float`, `f_int`, `f_text`, `f_varchar`
    /// in this order, and bind for each of them this row's value of that column.
    pub proof fn law_row_binds_named_columns(self)
        ensures
            Self::insert_head() == "INSERT INTO comp_types_table ("@ + "\"f_bool\""@ + ", "@ + "\"f_decimal\""@ + ", "@ + "\"f_double\""@ + ", "@ + "\"f_float\""@ + ", "@ + "\"f_int\""@ + ", "@ + "\"f_text\""@ + ", "@ + "\"f_varchar\""@ + ") "@,
            self.row_values().len() == 7,
            self.column_value("f_bool"@) == Some(self.row_values()[0]),
            self.column_value("f_decimal"@) == Some(self.row_values()[1]),
            self.column_value("f_double"@) == Some(self.row_values()[2]),
            self.column_value("f_float"@) == Some(self.row_values()[3]),
            self.column_value("f_int"@) == Some(self.row_values()[4]),
            self.column_value("f_text"@) == Some(self.row_values()[5]),
            self.column_value("f_varchar"@) == Some(self.row_values()[6]),
    {
        reveal_strlit("f_bool");
        assert("f_bool"@.len() == 6 && "f_bool"@[2] == 'b');
        reveal_strlit("f_decimal");
        assert("f_decimal"@.len() == 9 && "f_decimal"@[2] == 'd');
        reveal_strlit("f_double");
        assert("f_double"@.len() == 8 && "f_double"@[2] == 'd');
        reveal_strlit("f_float");
        assert("f_float"@.len() == 7 && "f_float"@[2] == 'f');
        reveal_strlit("f_int");
        assert("f_int"@.len() == 5 && "f_int"@[2] == 'i');
        reveal_strlit("f_text");
        assert("f_text"@.len() == 6 && "f_text"@[2] == 't');
        reveal_strlit("f_varchar");
        assert("f_varchar"@.len() == 9 && "f_varchar"@[2] == 'v');
        reveal_strlit("id");
        assert("id"@.len() == 2);
        reveal_strlit("INSERT INTO comp_types_table (\"f_bool\", \"f_decimal\", \"f_double\", \"f_float\", \"f_int\", \"f_text\", \"f_varchar\") ");
        reveal_strlit("INSERT INTO comp_types_table (");
        reveal_strlit("\"f_bool\"");
        reveal_strlit(", ");
        reveal_strlit("\"f_decimal\"");
        reveal_strlit("\"f_double\"");
        reveal_strlit("\"f_float\"");
        reveal_strlit("\"f_int\"");
        reveal_strlit("\"f_text\"");
        reveal_strlit("\"f_varchar\"");
        reveal_strlit(") ");
    }

    /// The columns the full update sets, as its text names them.
    pub open spec fn row_then_id_set_columns() -> Seq<Seq<char>> {
        seq!["\"f_bool\""@, "\"f_decimal\""@, "\"f_double\""@, "\"f_float\""@, "\"f_int\""@, "\"f_text\""@, "\"f_varchar\""@]
    }

    /// The key columns the full update selects the row by, as its text names them.
    pub open spec fn row_then_id_key_columns() -> Seq<Seq<char>> {
        seq!["\"id\""@]
    }

    /// The full update binds this row's value of each column it sets
    /// (`f_bool`, `f_decimal`, `f_double`, `f_float`, `f_int`, `f_text`, `f_varchar`), then of each key column
    /// (`id`), in the order the statement names them.
    pub proof fn law_row_then_id_binds_named_columns(self)
        ensures
            Self::row_then_id_set_columns() == seq!["\"f_bool\""@, "\"f_decimal\""@, "\"f_double\""@, "\"f_float\""@, "\"f_int\""@, "\"f_text\""@, "\"f_varchar\""@],
            Self::row_then_id_key_columns() == seq!["\"id\""@],
            self.row_then_id_values().len() == 8,
            self.column_value("f_bool"@) == Some(self.row_then_id_values()[0]),
            self.column_value("f_decimal"@) == Some(self.row_then_id_values()[1]),
            self.column_value("f_double"@) == Some(self.row_then_id_values()[2]),
            self.column_value("f_float"@) == Some(self.row_then_id_values()[3]),
            self.column_value("f_int"@) == Some(self.row_then_id_values()[4]),
            self.column_value("f_text"@) == Some(self.row_then_id_values()[5]),
            self.column_value("f_varchar"@) == Some(self.row_then_id_values()[6]),
            self.column_value("id"@) == Some(self.row_then_id_values()[7]),
    {
        reveal_strlit("f_bool");
        assert("f_bool"@.len() == 6 && "f_bool"@[2] == 'b');
        reveal_strlit("f_decimal");
        assert("f_decimal"@.len() == 9 && "f_decimal"@[2] == 'd');
        reveal_strlit("f_double");
        assert("f_double"@.len() == 8 && "f_double"@[2] == 'd');
        reveal_strlit("f_float");
        assert("f_float"@.len() == 7 && "f_float"@[2] == 'f');
        reveal_strlit("f_int");
        assert("f_int"@.len() == 5 && "f_int"@[2] == 'i');
        reveal_strlit("f_text");
        assert("f_text"@.len() == 6 && "f_text"@[2] == 't');
        reveal_strlit("f_varchar");
        assert("f_varchar"@.len() == 9 && "f_varchar"@[2] == 'v');
        reveal_strlit("id");
        assert("id"@.len() == 2);
    }

    /// A batch holds one row of values an item, in the order of the items.
    pub proof fn law_batch_rows_are_the_items_in_order(items: Seq<Self>)
        ensures
            Self::rows_values(items).len() == items.len(),
            forall|i: int| 0 <= i < items.len() ==> #[trigger] Self::rows_values(items)[i] == items[i].row_values(),
    {
    }

    /// What the upsert does on a key conflict, after its `VALUES`.
    pub open spec fn upsert_tail() -> Seq<char> {
        " ON CONFLICT (\"id\") DO UPDATE SET \"f_bool\" = EXCLUDED.\"f_bool\", \"f_decimal\" = EXCLUDED.\"f_decimal\", \"f_double\" = EXCLUDED.\"f_double\", \"f_float\" = EXCLUDED.\"f_float\", \"f_int\" = EXCLUDED.\"f_int\", \"f_text\" = EXCLUDED.\"f_text\", \"f_varchar\" = EXCLUDED.\"f_varchar\""@
    }

    /// On a key conflict the upsert sets each of `f_bool`, `f_decimal`, `f_double`, `f_float`, `f_int`, `f_text`, `f_varchar` to the
    /// value the new row brings for that same column.
    pub proof fn law_upsert_sets_each_column_from_the_new_row()
        ensures
            Self::upsert_tail() == " ON CONFLICT (\"id\") DO UPDATE SET "@ + excluded_assignment("\"f_bool\""@) + ", "@ + excluded_assignment("\"f_decimal\""@) + ", "@ + excluded_assignment("\"f_double\""@) + ", "@ + excluded_assignment("\"f_float\""@) + ", "@ + excluded_assignment("\"f_int\""@) + ", "@ + excluded_assignment("\"f_text\""@) + ", "@ + excluded_assignment("\"f_varchar\""@),
    {
        reveal_strlit(" ON CONFLICT (\"id\") DO UPDATE SET \"f_bool\" = EXCLUDED.\"f_bool\", \"f_decimal\" = EXCLUDED.\"f_decimal\", \"f_double\" = EXCLUDED.\"f_double\", \"f_float\" = EXCLUDED.\"f_float\", \"f_int\" = EXCLUDED.\"f_int\", \"f_text\" = EXCLUDED.\"f_text\", \"f_varchar\" = EXCLUDED.\"f_varchar\"");
        reveal_strlit(" ON CONFLICT (\"id\") DO UPDATE SET ");
        reveal_strlit(", ");
        reveal_strlit(" = EXCLUDED.");
        reveal_strlit("\"f_bool\"");
        reveal_strlit("\"f_decimal\"");
        reveal_strlit("\"f_double\"");
        reveal_strlit("\"f_float\"");
        reveal_strlit("\"f_int\"");
        reveal_strlit("\"f_text\"");
        reveal_strlit("\"f_varchar\"");
    }

    /// The values of this row's columns, in the order the single-row and multi-row writes bind them.
    pub open spec fn row_values(self) -> Seq<BindV> {
        seq![BindV::Bool(self.f_bool), opt_text_v(self.f_decimal), BindV::Double(opt_chars(self.f_double)), BindV::Real(opt_chars(self.f_float)), BindV::Int(self.f_int), opt_text_v(self.f_text), opt_text_v(self.f_varchar)]
    }

    /// The values of this row's columns, in the order the single-row and multi-row writes bind them.
    pub fn row(&self) -> (r: Vec<SqlValue>)
        ensures
            r@.map_values(|b: SqlValue| b@) == self.row_values(),
    {
        vec![SqlValue::Bool(self.f_bool), SqlValue::opt_text(&self.f_decimal), SqlValue::opt_double(&self.f_double), SqlValue::opt_real(&self.f_float), SqlValue::Int(self.f_int), SqlValue::opt_text(&self.f_text), SqlValue::opt_text(&self.f_varchar)]
    }

    /// The statement that inserts this row.
    pub fn insert(&self) -> (st: Statement)
        ensures
            st@.sql == values_sql(Self::insert_head(), Placeholder::Numbered, 1, 7, " RETURNING \"id\"::bigint"@),
            st@.binds == self.row_values(),
    {
        Statement { sql: values_text("INSERT INTO comp_types_table (\"f_bool\", \"f_decimal\", \"f_double\", \"f_float\", \"f_int\", \"f_text\", \"f_varchar\") ", Placeholder::Numbered, 1, 7, " RETURNING \"id\"::bigint"), binds: self.row() }
    }

    /// The values of each row, in statement order.
    pub open spec fn rows_values(items: Seq<Self>) -> Seq<Seq<BindV>> {
        items.map_values(|it: Self| it.row_values())
    }

    /// The values of each row, in statement order.
    pub fn rows(items: &[Self]) -> (r: Vec<Vec<SqlValue>>)
        ensures
            rows_view(r@) == Self::rows_values(items@),
    {
        let mut r: Vec<Vec<SqlValue>> = Vec::new();
        let mut i: usize = 0;
        while i < items.len()
            invariant
                0 <= i <= items.len(),
                rows_view(r@) == Self::rows_values(items@.take(i as int)),
            decreases items.len() - i,
        {
            let row = items[i].row();
            let ghost prev = r@;
            r.push(row);
            proof {
                assert(r@ =~= prev.push(row));
                assert(rows_view(r@) =~= rows_view(prev).push(row@.map_values(|b: SqlValue| b@)));
                assert(items@.take(i + 1) =~= items@.take(i as int).push(items@[i as int]));
                assert(Self::rows_values(items@.take(i + 1))
                    =~= Self::rows_values(items@.take(i as int)).push(items@[i as int].row_values()));
            }
            i = i + 1;
        }
        assert(items@.take(items.len() as int) =~= items@);
        r
    }

    /// The multi-row statements that write the given rows, pieces of at most 9285 rows; no
    /// statement for no rows.
    pub fn insert_batch(items: &[Self]) -> (plan: Vec<Statement>)
        ensures
            plan@.len() == chunks(Self::rows_values(items@), 9285 as nat).len(),
            forall|k: int| 0 <= k < plan@.len() ==> (#[trigger] plan@[k])@ == values_piece(
                Self::insert_head(), ""@, Placeholder::Numbered, 7, chunks(Self::rows_values(items@), 9285 as nat)[k]),
            forall|k: int| 0 <= k < plan@.len() ==> (#[trigger] plan@[k])@.binds.len() <= 65000,
    {
        let rows = Self::rows(items);
        assert(rows_view(rows@).len() == items@.len());
        assert(rows_view(rows@).len() == rows@.len());
        assert forall|j: int| 0 <= j < rows@.len() implies (#[trigger] rows_view(rows@)[j]).len() == 7 by {
            assert(Self::rows_values(items@)[j] == items@[j].row_values());
            assert(rows_view(rows@)[j] == items@[j].row_values());
        }
        values_plan("INSERT INTO comp_types_table (\"f_bool\", \"f_decimal\", \"f_double\", \"f_float\", \"f_int\", \"f_text\", \"f_varchar\") ", "", Placeholder::Numbered, 7, 9285, &rows)
    }

    /// The statement that inserts this row or, on a key conflict, updates it.
    pub fn upsert(&self) -> (st: Statement)
        ensures
            st@.sql == values_sql(Self::insert_head(), Placeholder::Numbered, 1, 7, Self::upsert_tail()),
            st@.binds == self.row_values(),
    {
        Statement { sql: values_text("INSERT INTO comp_types_table (\"f_bool\", \"f_decimal\", \"f_double\", \"f_float\", \"f_int\", \"f_text\", \"f_varchar\") ", Placeholder::Numbered, 1, 7, " ON CONFLICT (\"id\") DO UPDATE SET \"f_bool\" = EXCLUDED.\"f_bool\", \"f_decimal\" = EXCLUDED.\"f_decimal\", \"f_double\" = EXCLUDED.\"f_double\", \"f_float\" = EXCLUDED.\"f_float\", \"f_int\" = EXCLUDED.\"f_int\", \"f_text\" = EXCLUDED.\"f_text\", \"f_varchar\" = EXCLUDED.\"f_varchar\""), binds: self.row() }
    }

    /// The multi-row statements that write the given rows, pieces of at most 9285 rows; no
    /// statement for no rows.
    pub fn upsert_batch(items: &[Self]) -> (plan: Vec<Statement>)
        ensures
            plan@.len() == chunks(Self::rows_values(items@), 9285 as nat).len(),
            forall|k: int| 0 <= k < plan@.len() ==> (#[trigger] plan@[k])@ == values_piece(
                Self::insert_head(), Self::upsert_tail(), Placeholder::Numbered, 7, chunks(Self::rows_values(items@), 9285 as nat)[k]),
            forall|k: int| 0 <= k < plan@.len() ==> (#[trigger] plan@[k])@.binds.len() <= 65000,
    {
        let rows = Self::rows(items);
        assert(rows_view(rows@).len() == items@.len());
        assert(rows_view(rows@).len() == rows@.len());
        assert forall|j: int| 0 <= j < rows@.len() implies (#[trigger] rows_view(rows@)[j]).len() == 7 by {
            assert(Self::rows_values(items@)[j] == items@[j].row_values());
            assert(rows_view(rows@)[j] == items@[j].row_values());
        }
        values_plan("INSERT INTO comp_types_table (\"f_bool\", \"f_decimal\", \"f_double\", \"f_float\", \"f_int\", \"f_text\", \"f_varchar\") ", " ON CONFLICT (\"id\") DO UPDATE SET \"f_bool\" = EXCLUDED.\"f_bool\", \"f_decimal\" = EXCLUDED.\"f_decimal\", \"f_double\" = EXCLUDED.\"f_double\", \"f_float\" = EXCLUDED.\"f_float\", \"f_int\" = EXCLUDED.\"f_int\", \"f_text\" = EXCLUDED.\"f_text\", \"f_varchar\" = EXCLUDED.\"f_varchar\"", Placeholder::Numbered, 7, 9285, &rows)
    }

    /// The values of this row's columns and then of its key columns, in the order the full update binds them.
    pub open spec fn row_then_id_values(self) -> Seq<BindV> {
        seq![BindV::Bool(self.f_bool), opt_text_v(self.f_decimal), BindV::Double(opt_chars(self.f_double)), BindV::Real(opt_chars(self.f_float)), BindV::Int(self.f_int), opt_text_v(self.f_text), opt_text_v(self.f_varchar), BindV::BigInt(Some(self.id))]
    }

    /// The values of this row's columns and then of its key columns, in the order the full update binds them.
    pub fn row_then_id(&self) -> (r: Vec<SqlValue>)
        ensures
            r@.map_values(|b: SqlValue| b@) == self.row_then_id_values(),
    {
        vec![SqlValue::Bool(self.f_bool), SqlValue::opt_text(&self.f_decimal), SqlValue::opt_double(&self.f_double), SqlValue::opt_real(&self.f_float), SqlValue::Int(self.f_int), SqlValue::opt_text(&self.f_text), SqlValue::opt_text(&self.f_varchar), SqlValue::BigInt(Some(self.id))]
    }

    /// The statement that writes every column of this row, selected by its key.
    pub fn update_by_id(&self) -> (st: Statement)
        ensures
            st@.sql == update_sql("UPDATE comp_types_table SET "@, Self::row_then_id_set_columns(), Self::row_then_id_key_columns(), Placeholder::Numbered),
            st@.binds == self.row_then_id_values(),
    {
        let set: Vec<&str> = vec!["\"f_bool\"", "\"f_decimal\"", "\"f_double\"", "\"f_float\"", "\"f_int\"", "\"f_text\"", "\"f_varchar\""];
        let keys: Vec<&str> = vec!["\"id\""];
        proof {
            assert(set@.map_values(|n: &str| n@) =~= seq!["\"f_bool\""@, "\"f_decimal\""@, "\"f_double\""@, "\"f_float\""@, "\"f_int\""@, "\"f_text\""@, "\"f_varchar\""@]);
            assert(keys@.map_values(|n: &str| n@) =~= seq!["\"id\""@]);
        }
        Statement { sql: update_text("UPDATE comp_types_table SET ", &set, &keys, Placeholder::Numbered), binds: self.row_then_id() }
    }

    /// The statement that deletes the rows with the given key.
    pub fn delete_by_id(id: i64) -> (st: Statement)
        ensures
            st@.sql == "DELETE FROM comp_types_table WHERE \"id\" = $1"@,
            st@.binds == seq![BindV::BigInt(Some(id))],
    {
        Statement::new("DELETE FROM comp_types_table WHERE \"id\" = $1", vec![SqlValue::BigInt(Some(id))])
    }

    /// The statements that delete the rows with the given keys, pieces of at most 500 keys;
    /// no statement for no keys.
    pub fn delete_many_by_id(ids: &[i64]) -> (plan: Vec<Statement>)
        ensures
            plan@.len() == chunks(ids@.map_values(|x: i64| BindV::BigInt(Some(x))), 500 as nat).len(),
            forall|k: int| 0 <= k < plan@.len() ==> (#[trigger] plan@[k])@ == in_list_piece(
                "DELETE FROM comp_types_table WHERE \"id\" IN "@, Placeholder::Numbered, chunks(ids@.map_values(|x: i64| BindV::BigInt(Some(x))), 500 as nat)[k]),
    {
        let values = values_of_i64(ids);
        in_list_plan("DELETE FROM comp_types_table WHERE \"id\" IN ", Placeholder::Numbered, 500, &values)
    }

    /// The columns the patch sets and their values, in column order.
    fn update_partial_by_id_assignments(patch: &CompTypesTablePatch) -> (r: (Vec<&'static str>, Vec<SqlValue>))
        ensures
            r.0@.map_values(|n: &str| n@) == Self::update_partial_by_id_columns(*patch),
            r.1@.map_values(|b: SqlValue| b@) == Self::update_partial_by_id_values(*patch),
            r.0@.len() <= 7,
    {
        let mut set: Vec<&'static str> = Vec::new();
        let mut binds: Vec<SqlValue> = Vec::new();
        assert(set@.map_values(|n: &str| n@) =~= Seq::<Seq<char>>::empty());
        assert(binds@.map_values(|b: SqlValue| b@) =~= Seq::<BindV>::empty());
        let value = match &patch.f_bool {
            Some(v) => Some(SqlValue::Bool(*v)),
            None => None,
        };
        push_assignment(&mut set, &mut binds, "\"f_bool\"", value);
        let value = match &patch.f_decimal {
            Some(v) => Some(SqlValue::opt_text(v)),
            None => None,
        };
        push_assignment(&mut set, &mut binds, "\"f_decimal\"", value);
        let value = match &patch.f_double {
            Some(v) => Some(SqlValue::opt_double(v)),
            None => None,
        };
        push_assignment(&mut set, &mut binds, "\"f_double\"", value);
        let value = match &patch.f_float {
            Some(v) => Some(SqlValue::opt_real(v)),
            None => None,
        };
        push_assignment(&mut set, &mut binds, "\"f_float\"", value);
        let value = match &patch.f_int {
            Some(v) => Some(SqlValue::Int(*v)),
            None => None,
        };
        push_assignment(&mut set, &mut binds, "\"f_int\"", value);
        let value = match &patch.f_text {
            Some(v) => Some(SqlValue::opt_text(v)),
            None => None,
        };
        push_assignment(&mut set, &mut binds, "\"f_text\"", value);
        let value = match &patch.f_varchar {
            Some(v) => Some(SqlValue::opt_text(v)),
            None => None,
        };
        push_assignment(&mut set, &mut binds, "\"f_varchar\"", value);
        (set, binds)
    }

    /// The statement that writes only the columns the patch sets, on the row
    /// with the given key; none when the patch sets no column.
    pub fn update_partial_by_id(id: i64, patch: &CompTypesTablePatch) -> (r: Option<Statement>)
        ensures
            r is None <==> Self::update_partial_by_id_columns(*patch).len() == 0,
            r matches Some(st) ==> st@.sql == update_sql("UPDATE comp_types_table SET "@, Self::update_partial_by_id_columns(*patch), seq!["\"id\""@], Placeholder::Numbered)
                && st@.binds == Self::update_partial_by_id_values(*patch) + seq![BindV::BigInt(Some(id))],
    {
        let (set, mut binds) = Self::update_partial_by_id_assignments(patch);
        if set.len() == 0 {
            return None;
        }
        let ghost vals = binds@.map_values(|b: SqlValue| b@);
        binds.push(SqlValue::BigInt(Some(id)));
        let keys: Vec<&str> = vec!["\"id\""];
        proof {
            assert(keys@.map_values(|n: &str| n@) =~= seq!["\"id\""@]);
            assert(binds@.map_values(|b: SqlValue| b@) =~= vals + seq![BindV::BigInt(Some(id))]);
        }
        Some(Statement { sql: update_text("UPDATE comp_types_table SET ", &set, &keys, Placeholder::Numbered), binds })
    }

    /// The columns a patch assigns, in column order.
    pub open spec fn update_partial_by_id_columns(p: CompTypesTablePatch) -> Seq<Seq<char>> {
        Seq::empty()
            + assigned_column(p.f_bool, "\"f_bool\""@)
            + assigned_column(p.f_decimal, "\"f_decimal\""@)
            + assigned_column(p.f_double, "\"f_double\""@)
            + assigned_column(p.f_float, "\"f_float\""@)
            + assigned_column(p.f_int, "\"f_int\""@)
            + assigned_column(p.f_text, "\"f_text\""@)
            + assigned_column(p.f_varchar, "\"f_varchar\""@)
    }

    /// The values a patch assigns, in column order.
    pub open spec fn update_partial_by_id_values(p: CompTypesTablePatch) -> Seq<BindV> {
        Seq::empty()
            + (match p.f_bool { Some(v) => seq![BindV::Bool(v)], None => Seq::empty() })
            + (match p.f_decimal { Some(v) => seq![opt_text_v(v)], None => Seq::empty() })
            + (match p.f_double { Some(v) => seq![BindV::Double(opt_chars(v))], None => Seq::empty() })
            + (match p.f_float { Some(v) => seq![BindV::Real(opt_chars(v))], None => Seq::empty() })
            + (match p.f_int { Some(v) => seq![BindV::Int(v)], None => Seq::empty() })
            + (match p.f_text { Some(v) => seq![opt_text_v(v)], None => Seq::empty() })
            + (match p.f_varchar { Some(v) => seq![opt_text_v(v)], None => Seq::empty() })
    }

    /// A partial update binds one value for each column it assigns, so its
    /// placeholders and its values always match in number.
    pub proof fn law_update_partial_by_id_one_value_per_column(patch: CompTypesTablePatch)
        ensures
            Self::update_partial_by_id_columns(patch).len() == Self::update_partial_by_id_values(patch).len(),
    {
    }

    /// A patch that sets every column to the values of `row`, applied to the
    /// row's key, gives the statement that `update_by_id` gives for the row: the
    /// same text and the same values.
    pub proof fn law_full_patch_matches_update_by_id(row: Self, patch: CompTypesTablePatch)
        requires
            patch.f_bool == Some(row.f_bool),
            patch.f_decimal == Some(row.f_decimal),
            patch.f_double == Some(row.f_double),
            patch.f_float == Some(row.f_float),
            patch.f_int == Some(row.f_int),
            patch.f_text == Some(row.f_text),
            patch.f_varchar == Some(row.f_varchar),
        ensures
            update_sql("UPDATE comp_types_table SET "@, Self::update_partial_by_id_columns(patch), seq!["\"id\""@], Placeholder::Numbered)
                == update_sql("UPDATE comp_types_table SET "@, seq!["\"f_bool\""@, "\"f_decimal\""@, "\"f_double\""@, "\"f_float\""@, "\"f_int\""@, "\"f_text\""@, "\"f_varchar\""@], seq!["\"id\""@], Placeholder::Numbered),
            Self::update_partial_by_id_values(patch) + seq![BindV::BigInt(Some(row.id))] == row.row_then_id_values(),
    {
        assert(Self::update_partial_by_id_columns(patch) =~= seq!["\"f_bool\""@, "\"f_decimal\""@, "\"f_double\""@, "\"f_float\""@, "\"f_int\""@, "\"f_text\""@, "\"f_varchar\""@]);
        assert(Self::update_partial_by_id_values(patch) + seq![BindV::BigInt(Some(row.id))] =~= row.row_then_id_values());
    }
}

} // verus!
