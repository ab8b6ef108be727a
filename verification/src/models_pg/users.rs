//! The `users` table (PostgreSQL dialect): rows, orderings, constraints and statements.
use vstd::prelude::*;
use crate::value::{SqlValue, BindV, Statement, UtcTimestamp, text_v, opt_text_v, values_of_i64};
use crate::sql::{push_assignment, assigned_column, Placeholder, values_sql, values_text, values_piece, values_plan, update_sql, update_text, in_list_piece, in_list_plan, chunks, rows_view, excluded_assignment};
use crate::copy::{CsvField, CsvFieldV, CopyPlan, copy_payloads, payloads, field_rows_view, escaped_v, opt_escaped_v, opt_utc_v, utc_writable, quoted_plain};
use crate::csv_read::{readable, read_records, field_value, law_copy_payloads_read_back};
use crate::text::concat;

verus! {

/// A row of `users`.
#[derive(Clone, Debug)]
pub struct Users {
    pub created_at: Option<UtcTimestamp>,
    pub email: String,
    pub first_name: Option<String>,
    pub id: i64,
    pub last_name: String,
    pub status: String,
}

/// The columns of `users` to change: `None` leaves a column as it is, `Some(v)` writes `v`.
#[derive(Clone, Debug)]
pub struct UsersPatch {
    pub created_at: Option<Option<UtcTimestamp>>,
    pub email: Option<String>,
    pub first_name: Option<Option<String>>,
    pub last_name: Option<String>,
    pub status: Option<String>,
}

impl Default for UsersPatch {
    /// A patch that changes nothing.
    fn default() -> (p: Self)
        ensures
            p.created_at is None,
            p.email is None,
            p.first_name is None,
            p.last_name is None,
            p.status is None,
    {
        UsersPatch { created_at: None, email: None, first_name: None, last_name: None, status: None }
    }
}

impl Users {
    /// The statement that counts the rows.
    pub fn count() -> (st: Statement)
        ensures
            st@.sql == "SELECT COUNT(*) FROM users"@,
            st@.binds == Seq::<BindV>::empty(),
    {
        Statement::new("SELECT COUNT(*) FROM users", Vec::new())
    }

    /// The statement that streams all rows.
    pub fn stream_all() -> (st: Statement)
        ensures
            st@.sql == "SELECT \"created_at\", \"email\", \"first_name\", \"id\", \"last_name\", \"status\" FROM users ORDER BY \"id\" ASC"@,
            st@.binds == Seq::<BindV>::empty(),
    {
        Statement::new("SELECT \"created_at\", \"email\", \"first_name\", \"id\", \"last_name\", \"status\" FROM users ORDER BY \"id\" ASC", Vec::new())
    }

    /// The statement that reads the row with the given key.
    pub fn get_by_id(id: i64) -> (st: Statement)
        ensures
            st@.sql == "SELECT \"created_at\", \"email\", \"first_name\", \"id\", \"last_name\", \"status\" FROM users WHERE \"id\" = $1"@,
            st@.binds == seq![BindV::BigInt(Some(id))],
    {
        Statement::new("SELECT \"created_at\", \"email\", \"first_name\", \"id\", \"last_name\", \"status\" FROM users WHERE \"id\" = $1", vec![SqlValue::BigInt(Some(id))])
    }

    /// The statement that tells whether a row with the given key exists.
    pub fn exists_by_id(id: i64) -> (st: Statement)
        ensures
            st@.sql == "SELECT 1 FROM users WHERE \"id\" = $1 LIMIT 1"@,
            st@.binds == seq![BindV::BigInt(Some(id))],
    {
        Statement::new("SELECT 1 FROM users WHERE \"id\" = $1 LIMIT 1", vec![SqlValue::BigInt(Some(id))])
    }

    /// The statement that lists the rows after a key in key order, at most `limit` of them.
    pub fn list_by_cursor(last_id: i64, limit: u32) -> (st: Statement)
        ensures
            st@.sql == "SELECT \"created_at\", \"email\", \"first_name\", \"id\", \"last_name\", \"status\" FROM users WHERE \"id\" > $1 ORDER BY \"id\" ASC LIMIT $2"@,
            st@.binds == seq![BindV::BigInt(Some(last_id)), BindV::BigInt(Some(limit as i64))],
    {
        Statement::new("SELECT \"created_at\", \"email\", \"first_name\", \"id\", \"last_name\", \"status\" FROM users WHERE \"id\" > $1 ORDER BY \"id\" ASC LIMIT $2", vec![SqlValue::BigInt(Some(last_id)), SqlValue::BigInt(Some(limit as i64))])
    }

    /// The value this row holds in the column named `column`, as the
    /// statements bind it; `None` for a name that is not a column.
    pub open spec fn column_value(self, column: Seq<char>) -> Option<BindV> {
        if column == "created_at"@ {
            Some(BindV::Timestamp(self.created_at))
        } else if column == "email"@ {
            Some(text_v(self.email))
        } else if column == "first_name"@ {
            Some(opt_text_v(self.first_name))
        } else if column == "last_name"@ {
            Some(text_v(self.last_name))
        } else if column == "status"@ {
            Some(text_v(self.status))
        } else if column == "id"@ {
            Some(BindV::BigInt(Some(self.id)))
        } else {
            None
        }
    }

    /// The text that starts the single-row and multi-row writes, up to their
    /// `VALUES`.
    pub open spec fn insert_head() -> Seq<char> {
        "INSERT INTO users (\"created_at\", \"email\", \"first_name\", \"last_name\", \"status\") "@
    }

    /// The single-row and multi-row writes name the columns `created_at`, `email`, `first_name`, `last_name`, `status`
    /// in this order, and bind for each of them this row's value of that column.
    pub proof fn law_row_binds_named_columns(self)
        ensures
            Self::insert_head() == "INSERT INTO users ("@ + "\"created_at\""@ + ", "@ + "\"email\""@ + ", "@ + "\"first_name\""@ + ", "@ + "\"last_name\""@ + ", "@ + "\"status\""@ + ") "@,
            self.row_values().len() == 5,
            self.column_value("created_at"@) == Some(self.row_values()[0]),
            self.column_value("email"@) == Some(self.row_values()[1]),
            self.column_value("first_name"@) == Some(self.row_values()[2]),
            self.column_value("last_name"@) == Some(self.row_values()[3]),
            self.column_value("status"@) == Some(self.row_values()[4]),
    {
        reveal_strlit("created_at");
        assert("created_at"@.len() == 10 && "created_at"@[0] == 'c');
        reveal_strlit("email");
        assert("email"@.len() == 5 && "email"@[0] == 'e');
        reveal_strlit("first_name");
        assert("first_name"@.len() == 10 && "first_name"@[0] == 'f');
        reveal_strlit("last_name");
        assert("last_name"@.len() == 9 && "last_name"@[0] == 'l');
        reveal_strlit("status");
        assert("status"@.len() == 6 && "status"@[0] == 's');
        reveal_strlit("id");
        assert("id"@.len() == 2 && "id"@[0] == 'i');
        reveal_strlit("INSERT INTO users (\"created_at\", \"email\", \"first_name\", \"last_name\", \"status\") ");
        reveal_strlit("INSERT INTO users (");
        reveal_strlit("\"created_at\"");
        reveal_strlit(", ");
        reveal_strlit("\"email\"");
        reveal_strlit("\"first_name\"");
        reveal_strlit("\"last_name\"");
        reveal_strlit("\"status\"");
        reveal_strlit(") ");
    }

    /// The columns the full update sets, as its text names them.
    pub open spec fn row_then_id_set_columns() -> Seq<Seq<char>> {
        seq!["\"created_at\""@, "\"email\""@, "\"first_name\""@, "\"last_name\""@, "\"status\""@]
    }

    /// The key columns the full update selects the row by, as its text names them.
    pub open spec fn row_then_id_key_columns() -> Seq<Seq<char>> {
        seq!["\"id\""@]
    }

    /// The full update binds this row's value of each column it sets
    /// (`created_at`, `email`, `first_name`, `last_name`, `status`), then of each key column
    /// (`id`), in the order the statement names them.
    pub proof fn law_row_then_id_binds_named_columns(self)
        ensures
            Self::row_then_id_set_columns() == seq!["\"created_at\""@, "\"email\""@, "\"first_name\""@, "\"last_name\""@, "\"status\""@],
            Self::row_then_id_key_columns() == seq!["\"id\""@],
            self.row_then_id_values().len() == 6,
            self.column_value("created_at"@) == Some(self.row_then_id_values()[0]),
            self.column_value("email"@) == Some(self.row_then_id_values()[1]),
            self.column_value("first_name"@) == Some(self.row_then_id_values()[2]),
            self.column_value("last_name"@) == Some(self.row_then_id_values()[3]),
            self.column_value("status"@) == Some(self.row_then_id_values()[4]),
            self.column_value("id"@) == Some(self.row_then_id_values()[5]),
    {
        reveal_strlit("created_at");
        assert("created_at"@.len() == 10 && "created_at"@[0] == 'c');
        reveal_strlit("email");
        assert("email"@.len() == 5 && "email"@[0] == 'e');
        reveal_strlit("first_name");
        assert("first_name"@.len() == 10 && "first_name"@[0] == 'f');
        reveal_strlit("last_name");
        assert("last_name"@.len() == 9 && "last_name"@[0] == 'l');
        reveal_strlit("status");
        assert("status"@.len() == 6 && "status"@[0] == 's');
        reveal_strlit("id");
        assert("id"@.len() == 2 && "id"@[0] == 'i');
    }

    /// A batch holds one row of values an item, in the order of the items.
    pub proof fn law_batch_rows_are_the_items_in_order(items: Seq<Self>)
        ensures
            Self::rows_values(items).len() == items.len(),
            forall|i: int| 0 <= i < items.len() ==> #[trigger] Self::rows_values(items)[i] == items[i].row_values(),
    {
    }

    /// What the upsert does on a key conflict, after its `VALUES`.
    pub open spec fn upsert_tail() -> Seq<char> {
        " ON CONFLICT (\"id\") DO UPDATE SET \"created_at\" = EXCLUDED.\"created_at\", \"email\" = EXCLUDED.\"email\", \"first_name\" = EXCLUDED.\"first_name\", \"last_name\" = EXCLUDED.\"last_name\", \"status\" = EXCLUDED.\"status\""@
    }

    /// On a key conflict the upsert sets each of `created_at`, `email`, `first_name`, `last_name`, `status` to the
    /// value the new row brings for that same column.
    pub proof fn law_upsert_sets_each_column_from_the_new_row()
        ensures
            Self::upsert_tail() == " ON CONFLICT (\"id\") DO UPDATE SET "@ + excluded_assignment("\"created_at\""@) + ", "@ + excluded_assignment("\"email\""@) + ", "@ + excluded_assignment("\"first_name\""@) + ", "@ + excluded_assignment("\"last_name\""@) + ", "@ + excluded_assignment("\"status\""@),
    {
        reveal_strlit(" ON CONFLICT (\"id\") DO UPDATE SET \"created_at\" = EXCLUDED.\"created_at\", \"email\" = EXCLUDED.\"email\", \"first_name\" = EXCLUDED.\"first_name\", \"last_name\" = EXCLUDED.\"last_name\", \"status\" = EXCLUDED.\"status\"");
        reveal_strlit(" ON CONFLICT (\"id\") DO UPDATE SET ");
        reveal_strlit(", ");
        reveal_strlit(" = EXCLUDED.");
        reveal_strlit("\"created_at\"");
        reveal_strlit("\"email\"");
        reveal_strlit("\"first_name\"");
        reveal_strlit("\"last_name\"");
        reveal_strlit("\"status\"");
    }

    /// The values of this row's columns, in the order the single-row and multi-row writes bind them.
    pub open spec fn row_values(self) -> Seq<BindV> {
        seq![BindV::Timestamp(self.created_at), text_v(self.email), opt_text_v(self.first_name), text_v(self.last_name), text_v(self.status)]
    }

    /// The values of this row's columns, in the order the single-row and multi-row writes bind them.
    pub fn row(&self) -> (r: Vec<SqlValue>)
        ensures
            r@.map_values(|b: SqlValue| b@) == self.row_values(),
    {
        vec![SqlValue::Timestamp(self.created_at), SqlValue::text(&self.email), SqlValue::opt_text(&self.first_name), SqlValue::text(&self.last_name), SqlValue::text(&self.status)]
    }

    /// The statement that inserts this row.
    pub fn insert(&self) -> (st: Statement)
        ensures
            st@.sql == values_sql(Self::insert_head(), Placeholder::Numbered, 1, 5, " RETURNING \"id\"::bigint"@),
            st@.binds == self.row_values(),
    {
        Statement { sql: values_text("INSERT INTO users (\"created_at\", \"email\", \"first_name\", \"last_name\", \"status\") ", Placeholder::Numbered, 1, 5, " RETURNING \"id\"::bigint"), binds: self.row() }
    }

    /// Whether every instant and date of this row can be written as text:
    /// `chrono` can hold each of them.
    pub open spec fn copy_writable(self) -> bool {
        utc_writable(self.created_at)
    }

    /// Whether every instant and date of this row can be written as text.
    pub fn can_copy(&self) -> (r: bool)
        ensures
            r == self.copy_writable(),
    {
        (match self.created_at { Some(t) => t.in_range(), None => true })
    }

    /// The `COPY` statement of the batch writes.
    pub open spec fn copy_statement() -> Seq<char> {
        "COPY users (\"created_at\", \"email\", \"first_name\", \"last_name\", \"status\") FROM STDIN WITH (FORMAT csv)"@
    }

    /// The CSV field this row writes for the column named `column`; `None`
    /// for a name that is not a column.
    pub open spec fn column_field(self, column: Seq<char>) -> Option<CsvFieldV> {
        if column == "created_at"@ {
            Some(opt_utc_v(self.created_at))
        } else if column == "email"@ {
            Some(escaped_v(self.email))
        } else if column == "first_name"@ {
            Some(opt_escaped_v(self.first_name))
        } else if column == "last_name"@ {
            Some(escaped_v(self.last_name))
        } else if column == "status"@ {
            Some(escaped_v(self.status))
        } else {
            None
        }
    }

    /// A `COPY` batch holds one CSV line an item, in the order of the items.
    pub proof fn law_copy_lines_are_the_items_in_order(items: Seq<Self>)
        ensures
            Self::copy_rows_values(items).len() == items.len(),
            forall|i: int| 0 <= i < items.len() ==> #[trigger] Self::copy_rows_values(items)[i] == items[i].copy_values(),
    {
    }

    /// The `COPY` statement names the columns `created_at`, `email`, `first_name`, `last_name`, `status` in this
    /// order, and each CSV line holds this row's field for each of them, in
    /// the same order.
    pub proof fn law_copy_fields_follow_named_columns(self)
        ensures
            Self::copy_statement() == "COPY users ("@ + "\"created_at\""@ + ", "@ + "\"email\""@ + ", "@ + "\"first_name\""@ + ", "@ + "\"last_name\""@ + ", "@ + "\"status\""@ + ") FROM STDIN WITH (FORMAT csv)"@,
            self.copy_values().len() == 5,
            self.column_field("created_at"@) == Some(self.copy_values()[0]),
            self.column_field("email"@) == Some(self.copy_values()[1]),
            self.column_field("first_name"@) == Some(self.copy_values()[2]),
            self.column_field("last_name"@) == Some(self.copy_values()[3]),
            self.column_field("status"@) == Some(self.copy_values()[4]),
    {
        reveal_strlit("created_at");
        assert("created_at"@.len() == 10 && "created_at"@[0] == 'c');
        reveal_strlit("email");
        assert("email"@.len() == 5 && "email"@[0] == 'e');
        reveal_strlit("first_name");
        assert("first_name"@.len() == 10 && "first_name"@[0] == 'f');
        reveal_strlit("last_name");
        assert("last_name"@.len() == 9 && "last_name"@[0] == 'l');
        reveal_strlit("status");
        assert("status"@.len() == 6 && "status"@[0] == 's');
        reveal_strlit("COPY users (\"created_at\", \"email\", \"first_name\", \"last_name\", \"status\") FROM STDIN WITH (FORMAT csv)");
        reveal_strlit("COPY users (");
        reveal_strlit("\"created_at\"");
        reveal_strlit(", ");
        reveal_strlit("\"email\"");
        reveal_strlit("\"first_name\"");
        reveal_strlit("\"last_name\"");
        reveal_strlit("\"status\"");
        reveal_strlit(") FROM STDIN WITH (FORMAT csv)");
    }

    /// This row as the fields of one CSV line of the `COPY` payload.
    pub open spec fn copy_values(self) -> Seq<CsvFieldV> {
        seq![opt_utc_v(self.created_at), escaped_v(self.email), opt_escaped_v(self.first_name), escaped_v(self.last_name), escaped_v(self.status)]
    }

    /// This row as the fields of one CSV line of the `COPY` payload.
    pub fn copy_row(&self) -> (r: Vec<CsvField>)
        requires
            self.copy_writable(),
        ensures
            r@.map_values(|f: CsvField| f@) == self.copy_values(),
            self.copy_quotes_plain(),
    {
        vec![CsvField::opt_utc(self.created_at), CsvField::escaped(&self.email), CsvField::opt_escaped(&self.first_name), CsvField::escaped(&self.last_name), CsvField::escaped(&self.status)]
    }

    /// Whether the instants and dates of this row, as written, hold no double
    /// quote.
    pub open spec fn copy_quotes_plain(self) -> bool {
        quoted_plain(opt_utc_v(self.created_at))
    }

    /// Whether the texts this row writes unquoted (numbers held as text)
    /// read back: non-empty, with no comma, line end or quote.
    pub open spec fn copy_texts_readable(self) -> bool {
        true
    }

    proof fn lemma_copy_field_readable(self, k: int)
        requires
            self.copy_quotes_plain(),
            self.copy_texts_readable(),
            0 <= k < 5,
        ensures
            readable(self.copy_values()[k]),
    {
        if k == 0 {
        } else if k == 1 {
        } else if k == 2 {
        } else if k == 3 {
        } else if k == 4 {
        }
    }


    /// The CSV fields of each row.
    pub open spec fn copy_rows_values(items: Seq<Self>) -> Seq<Seq<CsvFieldV>> {
        items.map_values(|it: Self| it.copy_values())
    }

    fn copy_rows(items: &[Self]) -> (r: Vec<Vec<CsvField>>)
        requires
            forall|j: int| 0 <= j < items@.len() ==> (#[trigger] items@[j]).copy_writable(),
        ensures
            field_rows_view(r@) == Self::copy_rows_values(items@),
            forall|j: int| 0 <= j < items@.len() ==> (#[trigger] items@[j]).copy_quotes_plain(),
    {
        let mut r: Vec<Vec<CsvField>> = Vec::new();
        let mut i: usize = 0;
        while i < items.len()
            invariant
                0 <= i <= items.len(),
                forall|j: int| 0 <= j < items@.len() ==> (#[trigger] items@[j]).copy_writable(),
                field_rows_view(r@) == Self::copy_rows_values(items@.take(i as int)),
                forall|j: int| 0 <= j < i ==> (#[trigger] items@[j]).copy_quotes_plain(),
            decreases items.len() - i,
        {
            let row = items[i].copy_row();
            let ghost prev = r@;
            r.push(row);
            proof {
                assert(r@ =~= prev.push(row));
                assert(field_rows_view(r@) =~= field_rows_view(prev).push(row@.map_values(|f: CsvField| f@)));
                assert(items@.take(i + 1) =~= items@.take(i as int).push(items@[i as int]));
                assert(Self::copy_rows_values(items@.take(i + 1))
                    =~= Self::copy_rows_values(items@.take(i as int)).push(items@[i as int].copy_values()));
            }
            i = i + 1;
        }
        assert(items@.take(items.len() as int) =~= items@);
        r
    }

    /// The `COPY ... FROM STDIN WITH (FORMAT csv)` statement for the given rows
    /// and the payloads to send: the rows in pieces of 10000; none for no rows.
    pub fn insert_batch(items: &[Self]) -> (plan: Option<CopyPlan>)
        requires
            forall|j: int| 0 <= j < items@.len() ==> (#[trigger] items@[j]).copy_writable(),
        ensures
            plan is None <==> items@.len() == 0,
            plan matches Some(c) ==> c.statement@ == Self::copy_statement()
                && c.payloads@.map_values(|s: String| s@) == payloads(Self::copy_rows_values(items@), 10000, None),
            plan matches Some(c) ==> ((forall|j: int| 0 <= j < items@.len() ==> (#[trigger] items@[j]).copy_texts_readable())
                ==> read_records(concat(c.payloads@.map_values(|s: String| s@))) == Some(Self::copy_rows_values(items@)
                    .map_values(|r: Seq<CsvFieldV>| r.map_values(|f: CsvFieldV| field_value(f))))),
    {
        if items.len() == 0 {
            return None;
        }
        let rows = Self::copy_rows(items);
        proof {
            if forall|j: int| 0 <= j < items@.len() ==> (#[trigger] items@[j]).copy_texts_readable() {
                let vals = Self::copy_rows_values(items@);
                assert forall|i: int| 0 <= i < vals.len() implies (#[trigger] vals[i]).len() > 0 by {
                    assert(vals[i] == items@[i].copy_values());
                }
                assert forall|i: int, k: int| 0 <= i < vals.len() && 0 <= k < vals[i].len() implies readable(#[trigger] vals[i][k]) by {
                    assert(vals[i] == items@[i].copy_values());
                    items@[i].lemma_copy_field_readable(k);
                }
                law_copy_payloads_read_back(vals, 10000, None);
            }
        }
        Some(CopyPlan { statement: "COPY users (\"created_at\", \"email\", \"first_name\", \"last_name\", \"status\") FROM STDIN WITH (FORMAT csv)".to_owned(), payloads: copy_payloads(&rows, 10000, None) })
    }

    /// The statement that inserts this row or, on a key conflict, updates it.
    pub fn upsert(&self) -> (st: Statement)
        ensures
            st@.sql == values_sql(Self::insert_head(), Placeholder::Numbered, 1, 5, Self::upsert_tail()),
            st@.binds == self.row_values(),
    {
        Statement { sql: values_text("INSERT INTO users (\"created_at\", \"email\", \"first_name\", \"last_name\", \"status\") ", Placeholder::Numbered, 1, 5, " ON CONFLICT (\"id\") DO UPDATE SET \"created_at\" = EXCLUDED.\"created_at\", \"email\" = EXCLUDED.\"email\", \"first_name\" = EXCLUDED.\"first_name\", \"last_name\" = EXCLUDED.\"last_name\", \"status\" = EXCLUDED.\"status\""), binds: self.row() }
    }

    /// The values of each row, in statement order.
    pub open spec fn rows_values(items: Seq<Self>) -> Seq<Seq<BindV>> {
        items.map_values(|it: Self| it.row_values())
    }

    /// The values of each row, in statement order.
    pub fn rows(items: &[Self]) -> (r: Vec<Vec<SqlValue>>)
        ensures
            rows_view(r@) == Self::rows_values(items@),
    {
        let mut r: Vec<Vec<SqlValue>> = Vec::new();
        let mut i: usize = 0;
        while i < items.len()
            invariant
                0 <= i <= items.len(),
                rows_view(r@) == Self::rows_values(items@.take(i as int)),
            decreases items.len() - i,
        {
            let row = items[i].row();
            let ghost prev = r@;
            r.push(row);
            proof {
                assert(r@ =~= prev.push(row));
                assert(rows_view(r@) =~= rows_view(prev).push(row@.map_values(|b: SqlValue| b@)));
                assert(items@.take(i + 1) =~= items@.take(i as int).push(items@[i as int]));
                assert(Self::rows_values(items@.take(i + 1))
                    =~= Self::rows_values(items@.take(i as int)).push(items@[i as int].row_values()));
            }
            i = i + 1;
        }
        assert(items@.take(items.len() as int) =~= items@);
        r
    }

    /// The multi-row statements that write the given rows, pieces of at most 13107 rows; no
    /// statement for no rows.
    pub fn upsert_batch(items: &[Self]) -> (plan: Vec<Statement>)
        ensures
            plan@.len() == chunks(Self::rows_values(items@), 13107 as nat).len(),
            forall|k: int| 0 <= k < plan@.len() ==> (#[trigger] plan@[k])@ == values_piece(
                Self::insert_head(), Self::upsert_tail(), Placeholder::Numbered, 5, chunks(Self::rows_values(items@), 13107 as nat)[k]),
            forall|k: int| 0 <= k < plan@.len() ==> (#[trigger] plan@[k])@.binds.len() <= 65535,
    {
        let rows = Self::rows(items);
        assert(rows_view(rows@).len() == items@.len());
        assert(rows_view(rows@).len() == rows@.len());
        assert forall|j: int| 0 <= j < rows@.len() implies (#[trigger] rows_view(rows@)[j]).len() == 5 by {
            assert(Self::rows_values(items@)[j] == items@[j].row_values());
            assert(rows_view(rows@)[j] == items@[j].row_values());
        }
        values_plan("INSERT INTO users (\"created_at\", \"email\", \"first_name\", \"last_name\", \"status\") ", " ON CONFLICT (\"id\") DO UPDATE SET \"created_at\" = EXCLUDED.\"created_at\", \"email\" = EXCLUDED.\"email\", \"first_name\" = EXCLUDED.\"first_name\", \"last_name\" = EXCLUDED.\"last_name\", \"status\" = EXCLUDED.\"status\"", Placeholder::Numbered, 5, 13107, &rows)
    }

    /// The values of this row's columns and then of its key columns, in the order the full update binds them.
    pub open spec fn row_then_id_values(self) -> Seq<BindV> {
        seq![BindV::Timestamp(self.created_at), text_v(self.email), opt_text_v(self.first_name), text_v(self.last_name), text_v(self.status), BindV::BigInt(Some(self.id))]
    }

    /// The values of this row's columns and then of its key columns, in the order the full update binds them.
    pub fn row_then_id(&self) -> (r: Vec<SqlValue>)
        ensures
            r@.map_values(|b: SqlValue| b@) == self.row_then_id_values(),
    {
        vec![SqlValue::Timestamp(self.created_at), SqlValue::text(&self.email), SqlValue::opt_text(&self.first_name), SqlValue::text(&self.last_name), SqlValue::text(&self.status), SqlValue::BigInt(Some(self.id))]
    }

    /// The statement that writes every column of this row, selected by its key.
    pub fn update_by_id(&self) -> (st: Statement)
        ensures
            st@.sql == update_sql("UPDATE users SET "@, Self::row_then_id_set_columns(), Self::row_then_id_key_columns(), Placeholder::Numbered),
            st@.binds == self.row_then_id_values(),
    {
        let set: Vec<&str> = vec!["\"created_at\"", "\"email\"", "\"first_name\"", "\"last_name\"", "\"status\""];
        let keys: Vec<&str> = vec!["\"id\""];
        proof {
            assert(set@.map_values(|n: &str| n@) =~= seq!["\"created_at\""@, "\"email\""@, "\"first_name\""@, "\"last_name\""@, "\"status\""@]);
            assert(keys@.map_values(|n: &str| n@) =~= seq!["\"id\""@]);
        }
        Statement { sql: update_text("UPDATE users SET ", &set, &keys, Placeholder::Numbered), binds: self.row_then_id() }
    }

    /// The statement that deletes the rows with the given key.
    pub fn delete_by_id(id: i64) -> (st: Statement)
        ensures
            st@.sql == "DELETE FROM users WHERE \"id\" = $1"@,
            st@.binds == seq![BindV::BigInt(Some(id))],
    {
        Statement::new("DELETE FROM users WHERE \"id\" = $1", vec![SqlValue::BigInt(Some(id))])
    }

    /// The statements that delete the rows with the given keys, pieces of at most 65535 keys;
    /// no statement for no keys.
    pub fn delete_many_by_id(ids: &[i64]) -> (plan: Vec<Statement>)
        ensures
            plan@.len() == chunks(ids@.map_values(|x: i64| BindV::BigInt(Some(x))), 65535 as nat).len(),
            forall|k: int| 0 <= k < plan@.len() ==> (#[trigger] plan@[k])@ == in_list_piece(
                "DELETE FROM users WHERE \"id\" IN "@, Placeholder::Numbered, chunks(ids@.map_values(|x: i64| BindV::BigInt(Some(x))), 65535 as nat)[k]),
    {
        let values = values_of_i64(ids);
        in_list_plan("DELETE FROM users WHERE \"id\" IN ", Placeholder::Numbered, 65535, &values)
    }

    /// The columns the patch sets and their values, in column order.
    fn update_partial_by_id_assignments(patch: &UsersPatch) -> (r: (Vec<&'static str>, Vec<SqlValue>))
        ensures
            r.0@.map_values(|n: &str| n@) == Self::update_partial_by_id_columns(*patch),
            r.1@.map_values(|b: SqlValue| b@) == Self::update_partial_by_id_values(*patch),
            r.0@.len() <= 5,
    {
        let mut set: Vec<&'static str> = Vec::new();
        let mut binds: Vec<SqlValue> = Vec::new();
        assert(set@.map_values(|n: &str| n@) =~= Seq::<Seq<char>>::empty());
        assert(binds@.map_values(|b: SqlValue| b@) =~= Seq::<BindV>::empty());
        let value = match &patch.created_at {
            Some(v) => Some(SqlValue::Timestamp(*v)),
            None => None,
        };
        push_assignment(&mut set, &mut binds, "\"created_at\"", value);
        let value = match &patch.email {
            Some(v) => Some(SqlValue::text(v)),
            None => None,
        };
        push_assignment(&mut set, &mut binds, "\"email\"", value);
        let value = match &patch.first_name {
            Some(v) => Some(SqlValue::opt_text(v)),
            None => None,
        };
        push_assignment(&mut set, &mut binds, "\"first_name\"", value);
        let value = match &patch.last_name {
            Some(v) => Some(SqlValue::text(v)),
            None => None,
        };
        push_assignment(&mut set, &mut binds, "\"last_name\"", value);
        let value = match &patch.status {
            Some(v) => Some(SqlValue::text(v)),
            None => None,
        };
        push_assignment(&mut set, &mut binds, "\"status\"", value);
        (set, binds)
    }

    /// The statement that writes only the columns the patch sets, on the row
    /// with the given key; none when the patch sets no column.
    pub fn update_partial_by_id(id: i64, patch: &UsersPatch) -> (r: Option<Statement>)
        ensures
            r is None <==> Self::update_partial_by_id_columns(*patch).len() == 0,
            r matches Some(st) ==> st@.sql == update_sql("UPDATE users SET "@, Self::update_partial_by_id_columns(*patch), seq!["\"id\""@], Placeholder::Numbered)
                && st@.binds == Self::update_partial_by_id_values(*patch) + seq![BindV::BigInt(Some(id))],
    {
        let (set, mut binds) = Self::update_partial_by_id_assignments(patch);
        if set.len() == 0 {
            return None;
        }
        let ghost vals = binds@.map_values(|b: SqlValue| b@);
        binds.push(SqlValue::BigInt(Some(id)));
        let keys: Vec<&str> = vec!["\"id\""];
        proof {
            assert(keys@.map_values(|n: &str| n@) =~= seq!["\"id\""@]);
            assert(binds@.map_values(|b: SqlValue| b@) =~= vals + seq![BindV::BigInt(Some(id))]);
        }
        Some(Statement { sql: update_text("UPDATE users SET ", &set, &keys, Placeholder::Numbered), binds })
    }

    /// The statement that reads the row with the given key.
    pub fn get_by_email(email: &String) -> (st: Statement)
        ensures
            st@.sql == "SELECT \"created_at\", \"email\", \"first_name\", \"id\", \"last_name\", \"status\" FROM users WHERE \"email\" = $1"@,
            st@.binds == seq![text_v(*email)],
    {
        Statement::new("SELECT \"created_at\", \"email\", \"first_name\", \"id\", \"last_name\", \"status\" FROM users WHERE \"email\" = $1", vec![SqlValue::text(email)])
    }

    /// The statement that tells whether a row with the given key exists.
    pub fn exists_by_email(email: &String) -> (st: Statement)
        ensures
            st@.sql == "SELECT 1 FROM users WHERE \"email\" = $1 LIMIT 1"@,
            st@.binds == seq![text_v(*email)],
    {
        Statement::new("SELECT 1 FROM users WHERE \"email\" = $1 LIMIT 1", vec![SqlValue::text(email)])
    }

    /// The statement that deletes the rows with the given key.
    pub fn delete_by_email(email: &String) -> (st: Statement)
        ensures
            st@.sql == "DELETE FROM users WHERE \"email\" = $1"@,
            st@.binds == seq![text_v(*email)],
    {
        Statement::new("DELETE FROM users WHERE \"email\" = $1", vec![SqlValue::text(email)])
    }

    /// The statement that lists the rows with the given values, at most `limit` of them.
    pub fn list_by_first_name_and_last_name(first_name: &String, last_name: &String, limit: i64) -> (st: Statement)
        ensures
            st@.sql == "SELECT \"created_at\", \"email\", \"first_name\", \"id\", \"last_name\", \"status\" FROM users WHERE \"first_name\" = $1 AND \"last_name\" = $2 ORDER BY \"id\" ASC LIMIT $3"@,
            st@.binds == seq![text_v(*first_name), text_v(*last_name), BindV::BigInt(Some(limit))],
    {
        Statement::new("SELECT \"created_at\", \"email\", \"first_name\", \"id\", \"last_name\", \"status\" FROM users WHERE \"first_name\" = $1 AND \"last_name\" = $2 ORDER BY \"id\" ASC LIMIT $3", vec![SqlValue::text(first_name), SqlValue::text(last_name), SqlValue::BigInt(Some(limit))])
    }

    /// The statement that streams the rows with the given values.
    pub fn stream_by_first_name_and_last_name(first_name: &String, last_name: &String) -> (st: Statement)
        ensures
            st@.sql == "SELECT \"created_at\", \"email\", \"first_name\", \"id\", \"last_name\", \"status\" FROM users WHERE \"first_name\" = $1 AND \"last_name\" = $2 ORDER BY \"id\" ASC"@,
            st@.binds == seq![text_v(*first_name), text_v(*last_name)],
    {
        Statement::new("SELECT \"created_at\", \"email\", \"first_name\", \"id\", \"last_name\", \"status\" FROM users WHERE \"first_name\" = $1 AND \"last_name\" = $2 ORDER BY \"id\" ASC", vec![SqlValue::text(first_name), SqlValue::text(last_name)])
    }

    /// The statement that tells whether a row with the given key exists.
    pub fn exists_by_first_name_and_last_name(first_name: &String, last_name: &String) -> (st: Statement)
        ensures
            st@.sql == "SELECT 1 FROM users WHERE \"first_name\" = $1 AND \"last_name\" = $2 LIMIT 1"@,
            st@.binds == seq![text_v(*first_name), text_v(*last_name)],
    {
        Statement::new("SELECT 1 FROM users WHERE \"first_name\" = $1 AND \"last_name\" = $2 LIMIT 1", vec![SqlValue::text(first_name), SqlValue::text(last_name)])
    }

    /// The statement that deletes the rows with the given key.
    pub fn delete_by_first_name_and_last_name(first_name: &String, last_name: &String) -> (st: Statement)
        ensures
            st@.sql == "DELETE FROM users WHERE \"first_name\" = $1 AND \"last_name\" = $2"@,
            st@.binds == seq![text_v(*first_name), text_v(*last_name)],
    {
        Statement::new("DELETE FROM users WHERE \"first_name\" = $1 AND \"last_name\" = $2", vec![SqlValue::text(first_name), SqlValue::text(last_name)])
    }

    /// The columns a patch assigns, in column order.
    pub open spec fn update_partial_by_id_columns(p: UsersPatch) -> Seq<Seq<char>> {
        Seq::empty()
            + assigned_column(p.created_at, "\"created_at\""@)
            + assigned_column(p.email, "\"email\""@)
            + assigned_column(p.first_name, "\"first_name\""@)
            + assigned_column(p.last_name, "\"last_name\""@)
            + assigned_column(p.status, "\"status\""@)
    }

    /// The values a patch assigns, in column order.
    pub open spec fn update_partial_by_id_values(p: UsersPatch) -> Seq<BindV> {
        Seq::empty()
            + (match p.created_at { Some(v) => seq![BindV::Timestamp(v)], None => Seq::empty() })
            + (match p.email { Some(v) => seq![text_v(v)], None => Seq::empty() })
            + (match p.first_name { Some(v) => seq![opt_text_v(v)], None => Seq::empty() })
            + (match p.last_name { Some(v) => seq![text_v(v)], None => Seq::empty() })
            + (match p.status { Some(v) => seq![text_v(v)], None => Seq::empty() })
    }

    /// A partial update binds one value for each column it assigns, so its
    /// placeholders and its values always match in number.
    pub proof fn law_update_partial_by_id_one_value_per_column(patch: UsersPatch)
        ensures
            Self::update_partial_by_id_columns(patch).len() == Self::update_partial_by_id_values(patch).len(),
    {
    }

    /// A patch that sets every column to the values of `row`, applied to the
    /// row's key, gives the statement that `update_by_id` gives for the row: the
    /// same text and the same values.
    pub proof fn law_full_patch_matches_update_by_id(row: Self, patch: UsersPatch)
        requires
            patch.created_at == Some(row.created_at),
            patch.email == Some(row.email),
            patch.first_name == Some(row.first_name),
            patch.last_name == Some(row.last_name),
            patch.status == Some(row.status),
        ensures
            update_sql("UPDATE users SET "@, Self::update_partial_by_id_columns(patch), seq!["\"id\""@], Placeholder::Numbered)
                == update_sql("UPDATE users SET "@, seq!["\"created_at\""@, "\"email\""@, "\"first_name\""@, "\"last_name\""@, "\"status\""@], seq!["\"id\""@], Placeholder::Numbered),
            Self::update_partial_by_id_values(patch) + seq![BindV::BigInt(Some(row.id))] == row.row_then_id_values(),
    {
        assert(Self::update_partial_by_id_columns(patch) =~= seq!["\"created_at\""@, "\"email\""@, "\"first_name\""@, "\"last_name\""@, "\"status\""@]);
        assert(Self::update_partial_by_id_values(patch) + seq![BindV::BigInt(Some(row.id))] =~= row.row_then_id_values());
    }
}

} // verus!

