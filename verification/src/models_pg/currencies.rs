//! The `currencies` table (PostgreSQL dialect): rows, orderings, constraints and statements.
use vstd::prelude::*;
use crate::value::{SqlValue, BindV, Statement, text_v, values_of_strs};
use crate::sql::{push_assignment, assigned_column, Placeholder, values_sql, values_text, values_piece, values_plan, update_sql, update_text, in_list_piece, in_list_plan, chunks, rows_view, excluded_assignment};
use crate::copy::{CsvField, CsvFieldV, CopyPlan, copy_payloads, payloads, field_rows_view, escaped_v};
use crate::csv_read::{readable, read_records, field_value, law_copy_payloads_read_back};
use crate::validation::{error_if, format_error, errors_view, check_min_len, check_max_len, check_format, outcome, joined_errors, validation_result, lemma_contains_concat, lemma_error_if_reports, lemma_format_error_reports, regex_match};
use crate::paging::{row_limit, page_limit, clamp};
use crate::text::{utf8_len, join, concat};

verus! {

/// A row of `currencies`.
#[derive(Clone, Debug)]
pub struct Currencies {
    pub code: String,
    pub name: String,
}

/// The columns of `currencies` to change: `None` leaves a column as it is, `Some(v)` writes `v`.
#[derive(Clone, Debug)]
pub struct CurrenciesPatch {
    pub name: Option<String>,
}

impl Default for CurrenciesPatch {
    /// A patch that changes nothing.
    fn default() -> (p: Self)
        ensures
            p.name is None,
    {
        CurrenciesPatch { name: None }
    }
}

/// A column and a direction to order listings by.
#[derive(Clone, Copy, Debug, PartialEq, Eq, Structural)]
pub enum CurrenciesOrderBy {
    CodeAsc,
    CodeDesc,
    NameAsc,
    NameDesc,
}

impl CurrenciesOrderBy {
    /// The `ORDER BY` term of this ordering.
    pub open spec fn term(self) -> Seq<char> {
        match self {
            CurrenciesOrderBy::CodeAsc => "\"code\" ASC"@,
            CurrenciesOrderBy::CodeDesc => "\"code\" DESC"@,
            CurrenciesOrderBy::NameAsc => "\"name\" ASC"@,
            CurrenciesOrderBy::NameDesc => "\"name\" DESC"@,
        }
    }

    /// An ordering sorts by the column its name says, ascending for an
    /// `...Asc` ordering and descending for a `...Desc` one: its term is that
    /// column, then `ASC` or `DESC`.
    pub proof fn law_term_names_column_and_direction(self)
        ensures
            (self is CodeAsc || self is CodeDesc) ==> self.term() == "\"code\""@ + (if self is CodeDesc { " DESC"@ } else { " ASC"@ }),
            (self is NameAsc || self is NameDesc) ==> self.term() == "\"name\""@ + (if self is NameDesc { " DESC"@ } else { " ASC"@ }),
    {
        reveal_strlit("\"code\" ASC");
        reveal_strlit("code");
        reveal_strlit("\"code\" DESC");
        reveal_strlit("\"name\" ASC");
        reveal_strlit("name");
        reveal_strlit("\"name\" DESC");
        reveal_strlit("\"code\"");
        reveal_strlit("\"name\"");
        reveal_strlit(" ASC");
        reveal_strlit(" DESC");
    }

    /// The `ORDER BY` term of this ordering.
    pub fn as_str(&self) -> (s: &'static str)
        ensures
            s@ == self.term(),
    {
        match self {
            CurrenciesOrderBy::CodeAsc => "\"code\" ASC",
            CurrenciesOrderBy::CodeDesc => "\"code\" DESC",
            CurrenciesOrderBy::NameAsc => "\"name\" ASC",
            CurrenciesOrderBy::NameDesc => "\"name\" DESC",
        }
    }

    /// Different orderings have different terms: a term names one column and
    /// one direction.
    pub proof fn law_terms_are_distinct(a: Self, b: Self)
        ensures
            a.term() == b.term() ==> a == b,
    {
        reveal_strlit("\"code\" ASC");
        assert("\"code\" ASC"@.len() == 10 && "\"code\" ASC"@[1] == 'c');
        reveal_strlit("\"code\" DESC");
        assert("\"code\" DESC"@.len() == 11 && "\"code\" DESC"@[1] == 'c');
        reveal_strlit("\"name\" ASC");
        assert("\"name\" ASC"@.len() == 10 && "\"name\" ASC"@[1] == 'n');
        reveal_strlit("\"name\" DESC");
        assert("\"name\" DESC"@.len() == 11 && "\"name\" DESC"@[1] == 'n');
    }
}


impl Currencies {
    /// The constraint violations of this row, in the order the checks run.
    pub open spec fn validation_errors(self) -> Seq<Seq<char>> {
        Seq::empty()
            + error_if((utf8_len(self.code@) as usize) < 1, "code: min_length 1 not met"@)
            + error_if((utf8_len(self.code@) as usize) > 3, "code: exceeds max_length 3"@)
            + format_error("^[\u{c0}-\u{ff}A-Za-z0-9_ -]*$"@, self.code@, "code: format constraint not met"@, "code: configured regex is invalid"@)
            + error_if((utf8_len(self.name@) as usize) < 1, "name: min_length 1 not met"@)
            + error_if((utf8_len(self.name@) as usize) > 50, "name: exceeds max_length 50"@)
            + format_error("^[\u{c0}-\u{ff}A-Za-z0-9_ -]*$"@, self.name@, "name: format constraint not met"@, "name: configured regex is invalid"@)
    }

    /// The constraints of `code` are checked: a value that breaks one gets
    /// that constraint's message.
    pub proof fn law_code_constraints_are_reported(self)
        ensures
            ((utf8_len(self.code@) as usize) < 1) ==> self.validation_errors().contains("code: min_length 1 not met"@),
            ((utf8_len(self.code@) as usize) > 3) ==> self.validation_errors().contains("code: exceeds max_length 3"@),
            (regex_match("^[\u{c0}-\u{ff}A-Za-z0-9_ -]*$"@, self.code@) == Some(false)) ==> self.validation_errors().contains("code: format constraint not met"@),
            (regex_match("^[\u{c0}-\u{ff}A-Za-z0-9_ -]*$"@, self.code@) is None) ==> self.validation_errors().contains("code: configured regex is invalid"@),
    {
        assert(((utf8_len(self.code@) as usize) < 1) ==> self.validation_errors().contains("code: min_length 1 not met"@)) by {
            broadcast use lemma_contains_concat;
            lemma_error_if_reports((utf8_len(self.code@) as usize) < 1, "code: min_length 1 not met"@);
        }
        assert(((utf8_len(self.code@) as usize) > 3) ==> self.validation_errors().contains("code: exceeds max_length 3"@)) by {
            broadcast use lemma_contains_concat;
            lemma_error_if_reports((utf8_len(self.code@) as usize) > 3, "code: exceeds max_length 3"@);
        }
        assert((regex_match("^[\u{c0}-\u{ff}A-Za-z0-9_ -]*$"@, self.code@) == Some(false)) ==> self.validation_errors().contains("code: format constraint not met"@)) by {
            broadcast use lemma_contains_concat;
            lemma_format_error_reports("^[\u{c0}-\u{ff}A-Za-z0-9_ -]*$"@, self.code@, "code: format constraint not met"@, "code: configured regex is invalid"@);
        }
        assert((regex_match("^[\u{c0}-\u{ff}A-Za-z0-9_ -]*$"@, self.code@) is None) ==> self.validation_errors().contains("code: configured regex is invalid"@)) by {
            broadcast use lemma_contains_concat;
            lemma_format_error_reports("^[\u{c0}-\u{ff}A-Za-z0-9_ -]*$"@, self.code@, "code: format constraint not met"@, "code: configured regex is invalid"@);
        }
    }

    /// The constraints of `name` are checked: a value that breaks one gets
    /// that constraint's message.
    pub proof fn law_name_constraints_are_reported(self)
        ensures
            ((utf8_len(self.name@) as usize) < 1) ==> self.validation_errors().contains("name: min_length 1 not met"@),
            ((utf8_len(self.name@) as usize) > 50) ==> self.validation_errors().contains("name: exceeds max_length 50"@),
            (regex_match("^[\u{c0}-\u{ff}A-Za-z0-9_ -]*$"@, self.name@) == Some(false)) ==> self.validation_errors().contains("name: format constraint not met"@),
            (regex_match("^[\u{c0}-\u{ff}A-Za-z0-9_ -]*$"@, self.name@) is None) ==> self.validation_errors().contains("name: configured regex is invalid"@),
    {
        assert(((utf8_len(self.name@) as usize) < 1) ==> self.validation_errors().contains("name: min_length 1 not met"@)) by {
            broadcast use lemma_contains_concat;
            lemma_error_if_reports((utf8_len(self.name@) as usize) < 1, "name: min_length 1 not met"@);
        }
        assert(((utf8_len(self.name@) as usize) > 50) ==> self.validation_errors().contains("name: exceeds max_length 50"@)) by {
            broadcast use lemma_contains_concat;
            lemma_error_if_reports((utf8_len(self.name@) as usize) > 50, "name: exceeds max_length 50"@);
        }
        assert((regex_match("^[\u{c0}-\u{ff}A-Za-z0-9_ -]*$"@, self.name@) == Some(false)) ==> self.validation_errors().contains("name: format constraint not met"@)) by {
            broadcast use lemma_contains_concat;
            lemma_format_error_reports("^[\u{c0}-\u{ff}A-Za-z0-9_ -]*$"@, self.name@, "name: format constraint not met"@, "name: configured regex is invalid"@);
        }
        assert((regex_match("^[\u{c0}-\u{ff}A-Za-z0-9_ -]*$"@, self.name@) is None) ==> self.validation_errors().contains("name: configured regex is invalid"@)) by {
            broadcast use lemma_contains_concat;
            lemma_format_error_reports("^[\u{c0}-\u{ff}A-Za-z0-9_ -]*$"@, self.name@, "name: format constraint not met"@, "name: configured regex is invalid"@);
        }
    }

    /// A row that breaks none of the constraints gets no message at all.
    pub proof fn law_row_within_constraints_gets_no_message(self)
        ensures
            ((!((utf8_len(self.code@) as usize) < 1))
                && (!((utf8_len(self.code@) as usize) > 3))
                && (regex_match("^[\u{c0}-\u{ff}A-Za-z0-9_ -]*$"@, self.code@) == Some(true))
                && (!((utf8_len(self.name@) as usize) < 1))
                && (!((utf8_len(self.name@) as usize) > 50))
                && (regex_match("^[\u{c0}-\u{ff}A-Za-z0-9_ -]*$"@, self.name@) == Some(true)))
                ==> self.validation_errors() == Seq::<Seq<char>>::empty(),
    {
        if (!((utf8_len(self.code@) as usize) < 1))
            && (!((utf8_len(self.code@) as usize) > 3))
            && (regex_match("^[\u{c0}-\u{ff}A-Za-z0-9_ -]*$"@, self.code@) == Some(true))
            && (!((utf8_len(self.name@) as usize) < 1))
            && (!((utf8_len(self.name@) as usize) > 50))
            && (regex_match("^[\u{c0}-\u{ff}A-Za-z0-9_ -]*$"@, self.name@) == Some(true)) {
            lemma_error_if_reports((utf8_len(self.code@) as usize) < 1, "code: min_length 1 not met"@);
            lemma_error_if_reports((utf8_len(self.code@) as usize) > 3, "code: exceeds max_length 3"@);
            lemma_format_error_reports("^[\u{c0}-\u{ff}A-Za-z0-9_ -]*$"@, self.code@, "code: format constraint not met"@, "code: configured regex is invalid"@);
            lemma_error_if_reports((utf8_len(self.name@) as usize) < 1, "name: min_length 1 not met"@);
            lemma_error_if_reports((utf8_len(self.name@) as usize) > 50, "name: exceeds max_length 50"@);
            lemma_format_error_reports("^[\u{c0}-\u{ff}A-Za-z0-9_ -]*$"@, self.name@, "name: format constraint not met"@, "name: configured regex is invalid"@);
        }
    }

    fn collect_errors(&self) -> (errors: Vec<String>)
        ensures
            errors_view(errors@) == self.validation_errors(),
    {
        let mut errors: Vec<String> = Vec::new();
        check_min_len(&mut errors, self.code.as_str(), 1, "code: min_length 1 not met");
        check_max_len(&mut errors, self.code.as_str(), 3, "code: exceeds max_length 3");
        check_format(&mut errors, "^[\u{c0}-\u{ff}A-Za-z0-9_ -]*$", self.code.as_str(), "code: format constraint not met", "code: configured regex is invalid");
        check_min_len(&mut errors, self.name.as_str(), 1, "name: min_length 1 not met");
        check_max_len(&mut errors, self.name.as_str(), 50, "name: exceeds max_length 50");
        check_format(&mut errors, "^[\u{c0}-\u{ff}A-Za-z0-9_ -]*$", self.name.as_str(), "name: format constraint not met", "name: configured regex is invalid");
        errors
    }

    /// Checks the constraints of the columns (lengths, ranges, allowed values,
    /// finite numbers and formats): `Ok` when all hold, the messages of those
    /// that fail otherwise, in the order the checks run.
    pub fn validate(&self) -> (r: Result<(), Vec<String>>)
        ensures
            validation_result(r, self.validation_errors()),
    {
        outcome(self.collect_errors())
    }

    /// The statement that counts the rows.
    pub fn count() -> (st: Statement)
        ensures
            st@.sql == "SELECT COUNT(*) FROM \"currencies\""@,
            st@.binds == Seq::<BindV>::empty(),
    {
        Statement::new("SELECT COUNT(*) FROM \"currencies\"", Vec::new())
    }

    /// The statement that reads the row-count estimate from the database statistics.
    pub fn approximate_count() -> (st: Statement)
        ensures
            st@.sql == "SELECT reltuples::bigint FROM pg_class WHERE relname = 'currencies'"@,
            st@.binds == Seq::<BindV>::empty(),
    {
        Statement::new("SELECT reltuples::bigint FROM pg_class WHERE relname = 'currencies'", Vec::new())
    }

    /// The statement that streams the rows in key order, at most `limit` of them (brought into `1..=10000`).
    pub fn stream_all(limit: i64) -> (st: Statement)
        ensures
            st@.sql == "SELECT \"code\", \"name\" FROM \"currencies\" ORDER BY \"code\" ASC LIMIT $1"@,
            st@.binds == seq![BindV::BigInt(Some(clamp(limit as int, 1, 10000) as i64))],
    {
        Statement::new("SELECT \"code\", \"name\" FROM \"currencies\" ORDER BY \"code\" ASC LIMIT $1", vec![SqlValue::BigInt(Some(row_limit(limit)))])
    }

    /// The statement that reads the row with the given key.
    pub fn get_by_code(code: &str) -> (st: Statement)
        ensures
            st@.sql == "SELECT \"code\", \"name\" FROM \"currencies\" WHERE \"code\" = $1"@,
            st@.binds == seq![BindV::Text(Some(code@))],
    {
        Statement::new("SELECT \"code\", \"name\" FROM \"currencies\" WHERE \"code\" = $1", vec![SqlValue::str(code)])
    }

    /// The statement that tells whether a row with the given key exists.
    pub fn exists_by_code(code: &str) -> (st: Statement)
        ensures
            st@.sql == "SELECT 1 FROM \"currencies\" WHERE \"code\" = $1 LIMIT 1"@,
            st@.binds == seq![BindV::Text(Some(code@))],
    {
        Statement::new("SELECT 1 FROM \"currencies\" WHERE \"code\" = $1 LIMIT 1", vec![SqlValue::str(code)])
    }

    /// The statement that lists the rows after a key in key order, at most `limit` of them (brought into `1..=10000`).
    pub fn list_by_cursor(last_id: &str, limit: u32) -> (st: Statement)
        ensures
            st@.sql == "SELECT \"code\", \"name\" FROM \"currencies\" WHERE \"code\" > $1 ORDER BY \"code\" ASC LIMIT $2"@,
            st@.binds == seq![BindV::Text(Some(last_id@)), BindV::BigInt(Some(clamp(limit as int, 1, 10000) as i64))],
    {
        Statement::new("SELECT \"code\", \"name\" FROM \"currencies\" WHERE \"code\" > $1 ORDER BY \"code\" ASC LIMIT $2", vec![SqlValue::str(last_id), SqlValue::BigInt(Some(page_limit(limit) as i64))])
    }

    /// The value this row holds in the column named `column`, as the
    /// statements bind it; `None` for a name that is not a column.
    pub open spec fn column_value(self, column: Seq<char>) -> Option<BindV> {
        if column == "code"@ {
            Some(text_v(self.code))
        } else if column == "name"@ {
            Some(text_v(self.name))
        } else {
            None
        }
    }

    /// The text that starts the single-row and multi-row writes, up to their
    /// `VALUES`.
    pub open spec fn insert_head() -> Seq<char> {
        "INSERT INTO \"currencies\" (\"code\", \"name\") "@
    }

    /// The single-row and multi-row writes name the columns `code`, `name`
    /// in this order, and bind for each of them this row's value of that column.
    pub proof fn law_row_binds_named_columns(self)
        ensures
            Self::insert_head() == "INSERT INTO \"currencies\" ("@ + "\"code\""@ + ", "@ + "\"name\""@ + ") "@,
            self.row_values().len() == 2,
            self.column_value("code"@) == Some(self.row_values()[0]),
            self.column_value("name"@) == Some(self.row_values()[1]),
    {
        reveal_strlit("code");
        assert("code"@.len() == 4 && "code"@[0] == 'c');
        reveal_strlit("name");
        assert("name"@.len() == 4 && "name"@[0] == 'n');
        reveal_strlit("INSERT INTO \"currencies\" (\"code\", \"name\") ");
        reveal_strlit("INSERT INTO \"currencies\" (");
        reveal_strlit("\"code\"");
        reveal_strlit(", ");
        reveal_strlit("\"name\"");
        reveal_strlit(") ");
    }

    /// The columns the full update sets, as its text names them.
    pub open spec fn row_then_code_set_columns() -> Seq<Seq<char>> {
        seq!["\"name\""@]
    }

    /// The key columns the full update selects the row by, as its text names them.
    pub open spec fn row_then_code_key_columns() -> Seq<Seq<char>> {
        seq!["\"code\""@]
    }

    /// The full update binds this row's value of each column it sets
    /// (`name`), then of each key column
    /// (`code`), in the order the statement names them.
    pub proof fn law_row_then_code_binds_named_columns(self)
        ensures
            Self::row_then_code_set_columns() == seq!["\"name\""@],
            Self::row_then_code_key_columns() == seq!["\"code\""@],
            self.row_then_code_values().len() == 2,
            self.column_value("name"@) == Some(self.row_then_code_values()[0]),
            self.column_value("code"@) == Some(self.row_then_code_values()[1]),
    {
        reveal_strlit("code");
        assert("code"@.len() == 4 && "code"@[0] == 'c');
        reveal_strlit("name");
        assert("name"@.len() == 4 && "name"@[0] == 'n');
    }

    /// A batch holds one row of values an item, in the order of the items.
    pub proof fn law_batch_rows_are_the_items_in_order(items: Seq<Self>)
        ensures
            Self::rows_values(items).len() == items.len(),
            forall|i: int| 0 <= i < items.len() ==> #[trigger] Self::rows_values(items)[i] == items[i].row_values(),
    {
    }

    /// What the upsert does on a key conflict, after its `VALUES`.
    pub open spec fn upsert_tail() -> Seq<char> {
        " ON CONFLICT (\"code\") DO UPDATE SET \"name\" = EXCLUDED.\"name\""@
    }

    /// On a key conflict the upsert sets each of `name` to the
    /// value the new row brings for that same column.
    pub proof fn law_upsert_sets_each_column_from_the_new_row()
        ensures
            Self::upsert_tail() == " ON CONFLICT (\"code\") DO UPDATE SET "@ + excluded_assignment("\"name\""@),
    {
        reveal_strlit(" ON CONFLICT (\"code\") DO UPDATE SET \"name\" = EXCLUDED.\"name\"");
        reveal_strlit(" ON CONFLICT (\"code\") DO UPDATE SET ");
        reveal_strlit(", ");
        reveal_strlit(" = EXCLUDED.");
        reveal_strlit("\"name\"");
    }

    /// The values of this row's columns, in the order the single-row and multi-row writes bind them.
    pub open spec fn row_values(self) -> Seq<BindV> {
        seq![text_v(self.code), text_v(self.name)]
    }

    /// The values of this row's columns, in the order the single-row and multi-row writes bind them.
    pub fn row(&self) -> (r: Vec<SqlValue>)
        ensures
            r@.map_values(|b: SqlValue| b@) == self.row_values(),
    {
        vec![SqlValue::text(&self.code), SqlValue::text(&self.name)]
    }

    /// The statement that inserts this row, without checking its constraints.
    pub fn insert_unchecked(&self) -> (st: Statement)
        ensures
            st@.sql == values_sql(Self::insert_head(), Placeholder::Numbered, 1, 2, ""@),
            st@.binds == self.row_values(),
    {
        Statement { sql: values_text("INSERT INTO \"currencies\" (\"code\", \"name\") ", Placeholder::Numbered, 1, 2, ""), binds: self.row() }
    }

    /// The statement of `insert_unchecked` when the row passes [`Self::validate`]; the
    /// validation messages joined by `, ` otherwise.
    pub fn insert(&self) -> (r: Result<Statement, String>)
        ensures
            r is Ok <==> self.validation_errors().len() == 0,
            r matches Err(m) ==> m@ == join(self.validation_errors(), seq![',', ' ']),
            r matches Ok(st) ==> st@.sql == values_sql(Self::insert_head(), Placeholder::Numbered, 1, 2, ""@) && st@.binds == self.row_values(),
    {
        match self.validate() {
            Ok(()) => Ok(self.insert_unchecked()),
            Err(errors) => Err(joined_errors(&errors)),
        }
    }

    /// The `COPY` statement of the batch writes.
    pub open spec fn copy_statement() -> Seq<char> {
        "COPY \"currencies\" (\"code\", \"name\") FROM STDIN WITH (FORMAT csv)"@
    }

    /// The CSV field this row writes for the column named `column`; `None`
    /// for a name that is not a column.
    pub open spec fn column_field(self, column: Seq<char>) -> Option<CsvFieldV> {
        if column == "code"@ {
            Some(escaped_v(self.code))
        } else if column == "name"@ {
            Some(escaped_v(self.name))
        } else {
            None
        }
    }

    /// A `COPY` batch holds one CSV line an item, in the order of the items.
    pub proof fn law_copy_lines_are_the_items_in_order(items: Seq<Self>)
        ensures
            Self::copy_rows_values(items).len() == items.len(),
            forall|i: int| 0 <= i < items.len() ==> #[trigger] Self::copy_rows_values(items)[i] == items[i].copy_values(),
    {
    }

    /// The `COPY` statement names the columns `code`, `name` in this
    /// order, and each CSV line holds this row's field for each of them, in
    /// the same order.
    pub proof fn law_copy_fields_follow_named_columns(self)
        ensures
            Self::copy_statement() == "COPY \"currencies\" ("@ + "\"code\""@ + ", "@ + "\"name\""@ + ") FROM STDIN WITH (FORMAT csv)"@,
            self.copy_values().len() == 2,
            self.column_field("code"@) == Some(self.copy_values()[0]),
            self.column_field("name"@) == Some(self.copy_values()[1]),
    {
        reveal_strlit("code");
        assert("code"@.len() == 4 && "code"@[0] == 'c');
        reveal_strlit("name");
        assert("name"@.len() == 4 && "name"@[0] == 'n');
        reveal_strlit("COPY \"currencies\" (\"code\", \"name\") FROM STDIN WITH (FORMAT csv)");
        reveal_strlit("COPY \"currencies\" (");
        reveal_strlit("\"code\"");
        reveal_strlit(", ");
        reveal_strlit("\"name\"");
        reveal_strlit(") FROM STDIN WITH (FORMAT csv)");
    }

    /// This row as the fields of one CSV line of the `COPY` payload.
    pub open spec fn copy_values(self) -> Seq<CsvFieldV> {
        seq![escaped_v(self.code), escaped_v(self.name)]
    }

    /// This row as the fields of one CSV line of the `COPY` payload.
    pub fn copy_row(&self) -> (r: Vec<CsvField>)
        ensures
            r@.map_values(|f: CsvField| f@) == self.copy_values(),
            self.copy_quotes_plain(),
    {
        vec![CsvField::escaped(&self.code), CsvField::escaped(&self.name)]
    }

    /// Whether the instants and dates of this row, as written, hold no double
    /// quote.
    pub open spec fn copy_quotes_plain(self) -> bool {
        true
    }

    /// Whether the texts this row writes unquoted (numbers held as text)
    /// read back: non-empty, with no comma, line end or quote.
    pub open spec fn copy_texts_readable(self) -> bool {
        true
    }

    proof fn lemma_copy_field_readable(self, k: int)
        requires
            self.copy_quotes_plain(),
            self.copy_texts_readable(),
            0 <= k < 2,
        ensures
            readable(self.copy_values()[k]),
    {
        if k == 0 {
        } else if k == 1 {
        }
    }


    /// The CSV fields of each row.
    pub open spec fn copy_rows_values(items: Seq<Self>) -> Seq<Seq<CsvFieldV>> {
        items.map_values(|it: Self| it.copy_values())
    }

    fn copy_rows(items: &[Self]) -> (r: Vec<Vec<CsvField>>)
        ensures
            field_rows_view(r@) == Self::copy_rows_values(items@),
            forall|j: int| 0 <= j < items@.len() ==> (#[trigger] items@[j]).copy_quotes_plain(),
    {
        let mut r: Vec<Vec<CsvField>> = Vec::new();
        let mut i: usize = 0;
        while i < items.len()
            invariant
                0 <= i <= items.len(),
                field_rows_view(r@) == Self::copy_rows_values(items@.take(i as int)),
                forall|j: int| 0 <= j < i ==> (#[trigger] items@[j]).copy_quotes_plain(),
            decreases items.len() - i,
        {
            let row = items[i].copy_row();
            let ghost prev = r@;
            r.push(row);
            proof {
                assert(r@ =~= prev.push(row));
                assert(field_rows_view(r@) =~= field_rows_view(prev).push(row@.map_values(|f: CsvField| f@)));
                assert(items@.take(i + 1) =~= items@.take(i as int).push(items@[i as int]));
                assert(Self::copy_rows_values(items@.take(i + 1))
                    =~= Self::copy_rows_values(items@.take(i as int)).push(items@[i as int].copy_values()));
            }
            i = i + 1;
        }
        assert(items@.take(items.len() as int) =~= items@);
        r
    }

    /// The `COPY ... FROM STDIN WITH (FORMAT csv)` statement for the given rows
    /// and the payloads to send: the rows in pieces of 1000; none for no rows.
    pub fn insert_batch(items: &[Self]) -> (plan: Option<CopyPlan>)
        ensures
            plan is None <==> items@.len() == 0,
            plan matches Some(c) ==> c.statement@ == Self::copy_statement()
                && c.payloads@.map_values(|s: String| s@) == payloads(Self::copy_rows_values(items@), 1000, None),
            plan matches Some(c) ==> ((forall|j: int| 0 <= j < items@.len() ==> (#[trigger] items@[j]).copy_texts_readable())
                ==> read_records(concat(c.payloads@.map_values(|s: String| s@))) == Some(Self::copy_rows_values(items@)
                    .map_values(|r: Seq<CsvFieldV>| r.map_values(|f: CsvFieldV| field_value(f))))),
    {
        if items.len() == 0 {
            return None;
        }
        let rows = Self::copy_rows(items);
        proof {
            if forall|j: int| 0 <= j < items@.len() ==> (#[trigger] items@[j]).copy_texts_readable() {
                let vals = Self::copy_rows_values(items@);
                assert forall|i: int| 0 <= i < vals.len() implies (#[trigger] vals[i]).len() > 0 by {
                    assert(vals[i] == items@[i].copy_values());
                }
                assert forall|i: int, k: int| 0 <= i < vals.len() && 0 <= k < vals[i].len() implies readable(#[trigger] vals[i][k]) by {
                    assert(vals[i] == items@[i].copy_values());
                    items@[i].lemma_copy_field_readable(k);
                }
                law_copy_payloads_read_back(vals, 1000, None);
            }
        }
        Some(CopyPlan { statement: "COPY \"currencies\" (\"code\", \"name\") FROM STDIN WITH (FORMAT csv)".to_owned(), payloads: copy_payloads(&rows, 1000, None) })
    }

    /// The statement that inserts this row or, on a key conflict, updates it.
    pub fn upsert(&self) -> (st: Statement)
        ensures
            st@.sql == values_sql(Self::insert_head(), Placeholder::Numbered, 1, 2, Self::upsert_tail()),
            st@.binds == self.row_values(),
    {
        Statement { sql: values_text("INSERT INTO \"currencies\" (\"code\", \"name\") ", Placeholder::Numbered, 1, 2, " ON CONFLICT (\"code\") DO UPDATE SET \"name\" = EXCLUDED.\"name\""), binds: self.row() }
    }

    /// The values of each row, in statement order.
    pub open spec fn rows_values(items: Seq<Self>) -> Seq<Seq<BindV>> {
        items.map_values(|it: Self| it.row_values())
    }

    /// The values of each row, in statement order.
    pub fn rows(items: &[Self]) -> (r: Vec<Vec<SqlValue>>)
        ensures
            rows_view(r@) == Self::rows_values(items@),
    {
        let mut r: Vec<Vec<SqlValue>> = Vec::new();
        let mut i: usize = 0;
        while i < items.len()
            invariant
                0 <= i <= items.len(),
                rows_view(r@) == Self::rows_values(items@.take(i as int)),
            decreases items.len() - i,
        {
            let row = items[i].row();
            let ghost prev = r@;
            r.push(row);
            proof {
                assert(r@ =~= prev.push(row));
                assert(rows_view(r@) =~= rows_view(prev).push(row@.map_values(|b: SqlValue| b@)));
                assert(items@.take(i + 1) =~= items@.take(i as int).push(items@[i as int]));
                assert(Self::rows_values(items@.take(i + 1))
                    =~= Self::rows_values(items@.take(i as int)).push(items@[i as int].row_values()));
            }
            i = i + 1;
        }
        assert(items@.take(items.len() as int) =~= items@);
        r
    }

    /// The multi-row statements that write the given rows, pieces of at most 32767 rows; no
    /// statement for no rows.
    pub fn upsert_batch(items: &[Self]) -> (plan: Vec<Statement>)
        ensures
            plan@.len() == chunks(Self::rows_values(items@), 32767 as nat).len(),
            forall|k: int| 0 <= k < plan@.len() ==> (#[trigger] plan@[k])@ == values_piece(
                Self::insert_head(), Self::upsert_tail(), Placeholder::Numbered, 2, chunks(Self::rows_values(items@), 32767 as nat)[k]),
            forall|k: int| 0 <= k < plan@.len() ==> (#[trigger] plan@[k])@.binds.len() <= 65535,
    {
        let rows = Self::rows(items);
        assert(rows_view(rows@).len() == items@.len());
        assert(rows_view(rows@).len() == rows@.len());
        assert forall|j: int| 0 <= j < rows@.len() implies (#[trigger] rows_view(rows@)[j]).len() == 2 by {
            assert(Self::rows_values(items@)[j] == items@[j].row_values());
            assert(rows_view(rows@)[j] == items@[j].row_values());
        }
        values_plan("INSERT INTO \"currencies\" (\"code\", \"name\") ", " ON CONFLICT (\"code\") DO UPDATE SET \"name\" = EXCLUDED.\"name\"", Placeholder::Numbered, 2, 32767, &rows)
    }

    /// The values of this row's columns and then of its key columns, in the order the full update binds them.
    pub open spec fn row_then_code_values(self) -> Seq<BindV> {
        seq![text_v(self.name), text_v(self.code)]
    }

    /// The values of this row's columns and then of its key columns, in the order the full update binds them.
    pub fn row_then_code(&self) -> (r: Vec<SqlValue>)
        ensures
            r@.map_values(|b: SqlValue| b@) == self.row_then_code_values(),
    {
        vec![SqlValue::text(&self.name), SqlValue::text(&self.code)]
    }

    /// The statement that writes every column of this row, selected by its key.
    pub fn update_by_code(&self) -> (st: Statement)
        ensures
            st@.sql == update_sql("UPDATE \"currencies\" SET "@, Self::row_then_code_set_columns(), Self::row_then_code_key_columns(), Placeholder::Numbered),
            st@.binds == self.row_then_code_values(),
    {
        let set: Vec<&str> = vec!["\"name\""];
        let keys: Vec<&str> = vec!["\"code\""];
        proof {
            assert(set@.map_values(|n: &str| n@) =~= seq!["\"name\""@]);
            assert(keys@.map_values(|n: &str| n@) =~= seq!["\"code\""@]);
        }
        Statement { sql: update_text("UPDATE \"currencies\" SET ", &set, &keys, Placeholder::Numbered), binds: self.row_then_code() }
    }

    /// The statement that deletes the rows with the given key.
    pub fn delete_by_code(code: &str) -> (st: Statement)
        ensures
            st@.sql == "DELETE FROM \"currencies\" WHERE \"code\" = $1"@,
            st@.binds == seq![BindV::Text(Some(code@))],
    {
        Statement::new("DELETE FROM \"currencies\" WHERE \"code\" = $1", vec![SqlValue::str(code)])
    }

    /// The statements that delete the rows with the given keys, pieces of at most 5000 keys;
    /// no statement for no keys.
    pub fn delete_many_by_code(ids: &[&str]) -> (plan: Vec<Statement>)
        ensures
            plan@.len() == chunks(ids@.map_values(|x: &str| BindV::Text(Some(x@))), 5000 as nat).len(),
            forall|k: int| 0 <= k < plan@.len() ==> (#[trigger] plan@[k])@ == in_list_piece(
                "DELETE FROM \"currencies\" WHERE \"code\" IN "@, Placeholder::Numbered, chunks(ids@.map_values(|x: &str| BindV::Text(Some(x@))), 5000 as nat)[k]),
    {
        let values = values_of_strs(ids);
        in_list_plan("DELETE FROM \"currencies\" WHERE \"code\" IN ", Placeholder::Numbered, 5000, &values)
    }

    /// The columns the patch sets and their values, in column order.
    fn update_partial_by_code_assignments(patch: &CurrenciesPatch) -> (r: (Vec<&'static str>, Vec<SqlValue>))
        ensures
            r.0@.map_values(|n: &str| n@) == Self::update_partial_by_code_columns(*patch),
            r.1@.map_values(|b: SqlValue| b@) == Self::update_partial_by_code_values(*patch),
            r.0@.len() <= 1,
    {
        let mut set: Vec<&'static str> = Vec::new();
        let mut binds: Vec<SqlValue> = Vec::new();
        assert(set@.map_values(|n: &str| n@) =~= Seq::<Seq<char>>::empty());
        assert(binds@.map_values(|b: SqlValue| b@) =~= Seq::<BindV>::empty());
        let value = match &patch.name {
            Some(v) => Some(SqlValue::text(v)),
            None => None,
        };
        push_assignment(&mut set, &mut binds, "\"name\"", value);
        (set, binds)
    }

    /// The statement that writes only the columns the patch sets, on the row
    /// with the given key; none when the patch sets no column.
    pub fn update_partial_by_code(code: &str, patch: &CurrenciesPatch) -> (r: Option<Statement>)
        ensures
            r is None <==> Self::update_partial_by_code_columns(*patch).len() == 0,
            r matches Some(st) ==> st@.sql == update_sql("UPDATE \"currencies\" SET "@, Self::update_partial_by_code_columns(*patch), seq!["\"code\""@], Placeholder::Numbered)
                && st@.binds == Self::update_partial_by_code_values(*patch) + seq![BindV::Text(Some(code@))],
    {
        let (set, mut binds) = Self::update_partial_by_code_assignments(patch);
        if set.len() == 0 {
            return None;
        }
        let ghost vals = binds@.map_values(|b: SqlValue| b@);
        binds.push(SqlValue::str(code));
        let keys: Vec<&str> = vec!["\"code\""];
        proof {
            assert(keys@.map_values(|n: &str| n@) =~= seq!["\"code\""@]);
            assert(binds@.map_values(|b: SqlValue| b@) =~= vals + seq![BindV::Text(Some(code@))]);
        }
        Some(Statement { sql: update_text("UPDATE \"currencies\" SET ", &set, &keys, Placeholder::Numbered), binds })
    }

    /// The columns a patch assigns, in column order.
    pub open spec fn update_partial_by_code_columns(p: CurrenciesPatch) -> Seq<Seq<char>> {
        Seq::empty()
            + assigned_column(p.name, "\"name\""@)
    }

    /// The values a patch assigns, in column order.
    pub open spec fn update_partial_by_code_values(p: CurrenciesPatch) -> Seq<BindV> {
        Seq::empty()
            + (match p.name { Some(v) => seq![text_v(v)], None => Seq::empty() })
    }

    /// A partial update binds one value for each column it assigns, so its
    /// placeholders and its values always match in number.
    pub proof fn law_update_partial_by_code_one_value_per_column(patch: CurrenciesPatch)
        ensures
            Self::update_partial_by_code_columns(patch).len() == Self::update_partial_by_code_values(patch).len(),
    {
    }

    /// A patch that sets every column to the values of `row`, applied to the
    /// row's key, gives the statement that `update_by_code` gives for the row: the
    /// same text and the same values.
    pub proof fn law_full_patch_matches_update_by_code(row: Self, patch: CurrenciesPatch)
        requires
            patch.name == Some(row.name),
        ensures
            update_sql("UPDATE \"currencies\" SET "@, Self::update_partial_by_code_columns(patch), seq!["\"code\""@], Placeholder::Numbered)
                == update_sql("UPDATE \"currencies\" SET "@, seq!["\"name\""@], seq!["\"code\""@], Placeholder::Numbered),
            Self::update_partial_by_code_values(patch) + seq![text_v(row.code)] == row.row_then_code_values(),
    {
        assert(Self::update_partial_by_code_columns(patch) =~= seq!["\"name\""@]);
        assert(Self::update_partial_by_code_values(patch) + seq![text_v(row.code)] =~= row.row_then_code_values());
    }
}

} // verus!

