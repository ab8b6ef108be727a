//! The `comp_types_metadata` table (SQLite dialect): rows, orderings, constraints and statements.
use vstd::prelude::*;
use crate::value::{SqlValue, BindV, Statement, UtcTimestamp, CalendarDate, opt_bytes_v, opt_chars, values_of_i32};
use crate::sql::{push_assignment, assigned_column, Placeholder, values_sql, values_text, values_piece, values_plan, update_sql, update_text, in_list_piece, in_list_plan, chunks, rows_view, excluded_assignment};
use crate::validation::{error_if, errors_view, check_min, check_max, outcome, joined_errors, validation_result, lemma_contains_concat, lemma_error_if_reports, lemma_format_error_reports, regex_match};
use crate::paging::{row_limit, clamp};
use crate::text::join;

verus! {

/// A row of `comp_types_metadata`.
#[derive(Clone, Debug)]
pub struct CompTypesMetadata {
    pub comp_types_id: i32,
    pub f_blob: Option<Vec<u8>>,
    pub f_date: Option<CalendarDate>,
    pub f_datetime: Option<UtcTimestamp>,
    pub f_json: Option<String>,
    pub f_timestamp: Option<UtcTimestamp>,
    pub id: i32,
}

/// The columns of `comp_types_metadata` to change: `None` leaves a column as it is, `Some(v)` writes `v`.
#[derive(Clone, Debug)]
pub struct CompTypesMetadataPatch {
    pub comp_types_id: Option<i32>,
    pub f_blob: Option<Option<Vec<u8>>>,
    pub f_date: Option<Option<CalendarDate>>,
    pub f_datetime: Option<Option<UtcTimestamp>>,
    pub f_json: Option<Option<String>>,
    pub f_timestamp: Option<Option<UtcTimestamp>>,
}

impl Default for CompTypesMetadataPatch {
    /// A patch that changes nothing.
    fn default() -> (p: Self)
        ensures
            p.comp_types_id is None,
            p.f_blob is None,
            p.f_date is None,
            p.f_datetime is None,
            p.f_json is None,
            p.f_timestamp is None,
    {
        CompTypesMetadataPatch { comp_types_id: None, f_blob: None, f_date: None, f_datetime: None, f_json: None, f_timestamp: None }
    }
}

/// A column and a direction to order listings by.
#[derive(Clone, Copy, Debug, PartialEq, Eq, Structural)]
pub enum CompTypesMetadataOrderBy {
    CompTypesIdAsc,
    CompTypesIdDesc,
    FBlobAsc,
    FBlobDesc,
    FDateAsc,
    FDateDesc,
    FDatetimeAsc,
    FDatetimeDesc,
    FJsonAsc,
    FJsonDesc,
    FTimestampAsc,
    FTimestampDesc,
    IdAsc,
    IdDesc,
}

impl CompTypesMetadataOrderBy {
    /// The `ORDER BY` term of this ordering.
    pub open spec fn term(self) -> Seq<char> {
        match self {
            CompTypesMetadataOrderBy::CompTypesIdAsc => "`comp_types_id` ASC"@,
            CompTypesMetadataOrderBy::CompTypesIdDesc => "`comp_types_id` DESC"@,
            CompTypesMetadataOrderBy::FBlobAsc => "`f_blob` ASC"@,
            CompTypesMetadataOrderBy::FBlobDesc => "`f_blob` DESC"@,
            CompTypesMetadataOrderBy::FDateAsc => "`f_date` ASC"@,
            CompTypesMetadataOrderBy::FDateDesc => "`f_date` DESC"@,
            CompTypesMetadataOrderBy::FDatetimeAsc => "`f_datetime` ASC"@,
            CompTypesMetadataOrderBy::FDatetimeDesc => "`f_datetime` DESC"@,
            CompTypesMetadataOrderBy::FJsonAsc => "`f_json` ASC"@,
            CompTypesMetadataOrderBy::FJsonDesc => "`f_json` DESC"@,
            CompTypesMetadataOrderBy::FTimestampAsc => "`f_timestamp` ASC"@,
            CompTypesMetadataOrderBy::FTimestampDesc => "`f_timestamp` DESC"@,
            CompTypesMetadataOrderBy::IdAsc => "`id` ASC"@,
            CompTypesMetadataOrderBy::IdDesc => "`id` DESC"@,
        }
    }

    /// An ordering sorts by the column its name says, ascending for an
    /// `...Asc` ordering and descending for a `...Desc` one: its term is that
    /// column, then `ASC` or `DESC`.
    pub proof fn law_term_names_column_and_direction(self)
        ensures
            (self is CompTypesIdAsc || self is CompTypesIdDesc) ==> self.term() == "`comp_types_id`"@ + (if self is CompTypesIdDesc { " DESC"@ } else { " ASC"@ }),
            (self is FBlobAsc || self is FBlobDesc) ==> self.term() == "`f_blob`"@ + (if self is FBlobDesc { " DESC"@ } else { " ASC"@ }),
            (self is FDateAsc || self is FDateDesc) ==> self.term() == "`f_date`"@ + (if self is FDateDesc { " DESC"@ } else { " ASC"@ }),
            (self is FDatetimeAsc || self is FDatetimeDesc) ==> self.term() == "`f_datetime`"@ + (if self is FDatetimeDesc { " DESC"@ } else { " ASC"@ }),
            (self is FJsonAsc || self is FJsonDesc) ==> self.term() == "`f_json`"@ + (if self is FJsonDesc { " DESC"@ } else { " ASC"@ }),
            (self is FTimestampAsc || self is FTimestampDesc) ==> self.term() == "`f_timestamp`"@ + (if self is FTimestampDesc { " DESC"@ } else { " ASC"@ }),
            (self is IdAsc || self is IdDesc) ==> self.term() == "`id`"@ + (if self is IdDesc { " DESC"@ } else { " ASC"@ }),
    {
        reveal_strlit("`comp_types_id` ASC");
        reveal_strlit("comp_types_id");
        reveal_strlit("`comp_types_id` DESC");
        reveal_strlit("`f_blob` ASC");
        reveal_strlit("f_blob");
        reveal_strlit("`f_blob` DESC");
        reveal_strlit("`f_date` ASC");
        reveal_strlit("f_date");
        reveal_strlit("`f_date` DESC");
        reveal_strlit("`f_datetime` ASC");
        reveal_strlit("f_datetime");
        reveal_strlit("`f_datetime` DESC");
        reveal_strlit("`f_json` ASC");
        reveal_strlit("f_json");
        reveal_strlit("`f_json` DESC");
        reveal_strlit("`f_timestamp` ASC");
        reveal_strlit("f_timestamp");
        reveal_strlit("`f_timestamp` DESC");
        reveal_strlit("`id` ASC");
        reveal_strlit("id");
        reveal_strlit("`id` DESC");
        reveal_strlit("`comp_types_id`");
        reveal_strlit("`f_blob`");
        reveal_strlit("`f_date`");
        reveal_strlit("`f_datetime`");
        reveal_strlit("`f_json`");
        reveal_strlit("`f_timestamp`");
        reveal_strlit("`id`");
        reveal_strlit(" ASC");
        reveal_strlit(" DESC");
    }

    /// The `ORDER BY` term of this ordering.
    pub fn as_str(&self) -> (s: &'static str)
        ensures
            s@ == self.term(),
    {
        match self {
            CompTypesMetadataOrderBy::CompTypesIdAsc => "`comp_types_id` ASC",
            CompTypesMetadataOrderBy::CompTypesIdDesc => "`comp_types_id` DESC",
            CompTypesMetadataOrderBy::FBlobAsc => "`f_blob` ASC",
            CompTypesMetadataOrderBy::FBlobDesc => "`f_blob` DESC",
            CompTypesMetadataOrderBy::FDateAsc => "`f_date` ASC",
            CompTypesMetadataOrderBy::FDateDesc => "`f_date` DESC",
            CompTypesMetadataOrderBy::FDatetimeAsc => "`f_datetime` ASC",
            CompTypesMetadataOrderBy::FDatetimeDesc => "`f_datetime` DESC",
            CompTypesMetadataOrderBy::FJsonAsc => "`f_json` ASC",
            CompTypesMetadataOrderBy::FJsonDesc => "`f_json` DESC",
            CompTypesMetadataOrderBy::FTimestampAsc => "`f_timestamp` ASC",
            CompTypesMetadataOrderBy::FTimestampDesc => "`f_timestamp` DESC",
            CompTypesMetadataOrderBy::IdAsc => "`id` ASC",
            CompTypesMetadataOrderBy::IdDesc => "`id` DESC",
        }
    }

    /// Different orderings have different terms: a term names one column and
    /// one direction.
    pub proof fn law_terms_are_distinct(a: Self, b: Self)
        ensures
            a.term() == b.term() ==> a == b,
    {
        reveal_strlit("`comp_types_id` ASC");
        assert("`comp_types_id` ASC"@.len() == 19 && "`comp_types_id` ASC"@[3] == 'm');
        reveal_strlit("`comp_types_id` DESC");
        assert("`comp_types_id` DESC"@.len() == 20 && "`comp_types_id` DESC"@[3] == 'm');
        reveal_strlit("`f_blob` ASC");
        assert("`f_blob` ASC"@.len() == 12 && "`f_blob` ASC"@[3] == 'b');
        reveal_strlit("`f_blob` DESC");
        assert("`f_blob` DESC"@.len() == 13 && "`f_blob` DESC"@[3] == 'b');
        reveal_strlit("`f_date` ASC");
        assert("`f_date` ASC"@.len() == 12 && "`f_date` ASC"@[3] == 'd');
        reveal_strlit("`f_date` DESC");
        assert("`f_date` DESC"@.len() == 13 && "`f_date` DESC"@[3] == 'd');
        reveal_strlit("`f_datetime` ASC");
        assert("`f_datetime` ASC"@.len() == 16 && "`f_datetime` ASC"@[3] == 'd');
        reveal_strlit("`f_datetime` DESC");
        assert("`f_datetime` DESC"@.len() == 17 && "`f_datetime` DESC"@[3] == 'd');
        reveal_strlit("`f_json` ASC");
        assert("`f_json` ASC"@.len() == 12 && "`f_json` ASC"@[3] == 'j');
        reveal_strlit("`f_json` DESC");
        assert("`f_json` DESC"@.len() == 13 && "`f_json` DESC"@[3] == 'j');
        reveal_strlit("`f_timestamp` ASC");
        assert("`f_timestamp` ASC"@.len() == 17 && "`f_timestamp` ASC"@[3] == 't');
        reveal_strlit("`f_timestamp` DESC");
        assert("`f_timestamp` DESC"@.len() == 18 && "`f_timestamp` DESC"@[3] == 't');
        reveal_strlit("`id` ASC");
        assert("`id` ASC"@.len() == 8 && "`id` ASC"@[3] == '`');
        reveal_strlit("`id` DESC");
        assert("`id` DESC"@.len() == 9 && "`id` DESC"@[3] == '`');
    }
}


impl CompTypesMetadata {
    /// The constraint violations of this row, in the order the checks run.
    pub open spec fn validation_errors(self) -> Seq<Seq<char>> {
        Seq::empty()
            + error_if((self.comp_types_id as int) < 0, "comp_types_id: minimum value '0' not met"@)
            + error_if((self.comp_types_id as int) > 2147483647, "comp_types_id: maximum value '2147483647' exceeded"@)
            + error_if((self.id as int) < 0, "id: minimum value '0' not met"@)
            + error_if((self.id as int) > 2147483647, "id: maximum value '2147483647' exceeded"@)
    }

    /// The constraints of `comp_types_id` are checked: a value that breaks one gets
    /// that constraint's message.
    pub proof fn law_comp_types_id_constraints_are_reported(self)
        ensures
            ((self.comp_types_id as int) < 0) ==> self.validation_errors().contains("comp_types_id: minimum value '0' not met"@),
            ((self.comp_types_id as int) > 2147483647) ==> self.validation_errors().contains("comp_types_id: maximum value '2147483647' exceeded"@),
    {
        assert(((self.comp_types_id as int) < 0) ==> self.validation_errors().contains("comp_types_id: minimum value '0' not met"@)) by {
            broadcast use lemma_contains_concat;
            lemma_error_if_reports((self.comp_types_id as int) < 0, "comp_types_id: minimum value '0' not met"@);
        }
        assert(((self.comp_types_id as int) > 2147483647) ==> self.validation_errors().contains("comp_types_id: maximum value '2147483647' exceeded"@)) by {
            broadcast use lemma_contains_concat;
            lemma_error_if_reports((self.comp_types_id as int) > 2147483647, "comp_types_id: maximum value '2147483647' exceeded"@);
        }
    }

    /// The constraints of `id` are checked: a value that breaks one gets
    /// that constraint's message.
    pub proof fn law_id_constraints_are_reported(self)
        ensures
            ((self.id as int) < 0) ==> self.validation_errors().contains("id: minimum value '0' not met"@),
            ((self.id as int) > 2147483647) ==> self.validation_errors().contains("id: maximum value '2147483647' exceeded"@),
    {
        assert(((self.id as int) < 0) ==> self.validation_errors().contains("id: minimum value '0' not met"@)) by {
            broadcast use lemma_contains_concat;
            lemma_error_if_reports((self.id as int) < 0, "id: minimum value '0' not met"@);
        }
        assert(((self.id as int) > 2147483647) ==> self.validation_errors().contains("id: maximum value '2147483647' exceeded"@)) by {
            broadcast use lemma_contains_concat;
            lemma_error_if_reports((self.id as int) > 2147483647, "id: maximum value '2147483647' exceeded"@);
        }
    }

    /// A row that breaks none of the constraints gets no message at all.
    pub proof fn law_row_within_constraints_gets_no_message(self)
        ensures
            ((!((self.comp_types_id as int) < 0))
                && (!((self.comp_types_id as int) > 2147483647))
                && (!((self.id as int) < 0))
                && (!((self.id as int) > 2147483647)))
                ==> self.validation_errors() == Seq::<Seq<char>>::empty(),
    {
        if (!((self.comp_types_id as int) < 0))
            && (!((self.comp_types_id as int) > 2147483647))
            && (!((self.id as int) < 0))
            && (!((self.id as int) > 2147483647)) {
            lemma_error_if_reports((self.comp_types_id as int) < 0, "comp_types_id: minimum value '0' not met"@);
            lemma_error_if_reports((self.comp_types_id as int) > 2147483647, "comp_types_id: maximum value '2147483647' exceeded"@);
            lemma_error_if_reports((self.id as int) < 0, "id: minimum value '0' not met"@);
            lemma_error_if_reports((self.id as int) > 2147483647, "id: maximum value '2147483647' exceeded"@);
        }
    }

    fn collect_errors(&self) -> (errors: Vec<String>)
        ensures
            errors_view(errors@) == self.validation_errors(),
    {
        let mut errors: Vec<String> = Vec::new();
        check_min(&mut errors, self.comp_types_id as i128, 0, "comp_types_id: minimum value '0' not met");
        check_max(&mut errors, self.comp_types_id as i128, 2147483647, "comp_types_id: maximum value '2147483647' exceeded");
        check_min(&mut errors, self.id as i128, 0, "id: minimum value '0' not met");
        check_max(&mut errors, self.id as i128, 2147483647, "id: maximum value '2147483647' exceeded");
        errors
    }

    /// Checks the constraints of the columns (lengths, ranges, allowed values,
    /// finite numbers and formats): `Ok` when all hold, the messages of those
    /// that fail otherwise, in the order the checks run.
    pub fn validate(&self) -> (r: Result<(), Vec<String>>)
        ensures
            validation_result(r, self.validation_errors()),
    {
        outcome(self.collect_errors())
    }

    /// The statement that counts the rows.
    pub fn count() -> (st: Statement)
        ensures
            st@.sql == "SELECT COUNT(*) FROM comp_types_metadata"@,
            st@.binds == Seq::<BindV>::empty(),
    {
        Statement::new("SELECT COUNT(*) FROM comp_types_metadata", Vec::new())
    }

    /// The statement that reads the row-count estimate from the database statistics.
    pub fn approximate_count() -> (st: Statement)
        ensures
            st@.sql == "SELECT MAX(rowid) FROM comp_types_metadata"@,
            st@.binds == Seq::<BindV>::empty(),
    {
        Statement::new("SELECT MAX(rowid) FROM comp_types_metadata", Vec::new())
    }

    /// The statement that streams the rows in key order, at most `limit` of them (brought into `1..=10000`).
    pub fn stream_all(limit: i64) -> (st: Statement)
        ensures
            st@.sql == "SELECT `comp_types_id`, `f_blob`, `f_date`, `f_datetime`, `f_json`, `f_timestamp`, `id` FROM comp_types_metadata ORDER BY `id` ASC LIMIT ?"@,
            st@.binds == seq![BindV::BigInt(Some(clamp(limit as int, 1, 10000) as i64))],
    {
        Statement::new("SELECT `comp_types_id`, `f_blob`, `f_date`, `f_datetime`, `f_json`, `f_timestamp`, `id` FROM comp_types_metadata ORDER BY `id` ASC LIMIT ?", vec![SqlValue::BigInt(Some(row_limit(limit)))])
    }

    /// The statement that reads the row with the given key.
    pub fn get_by_id(id: i32) -> (st: Statement)
        ensures
            st@.sql == "SELECT `comp_types_id`, `f_blob`, `f_date`, `f_datetime`, `f_json`, `f_timestamp`, `id` FROM comp_types_metadata WHERE `id` = ?"@,
            st@.binds == seq![BindV::Int(Some(id))],
    {
        Statement::new("SELECT `comp_types_id`, `f_blob`, `f_date`, `f_datetime`, `f_json`, `f_timestamp`, `id` FROM comp_types_metadata WHERE `id` = ?", vec![SqlValue::Int(Some(id))])
    }

    /// The statement that tells whether a row with the given key exists.
    pub fn exists_by_id(id: i32) -> (st: Statement)
        ensures
            st@.sql == "SELECT 1 FROM comp_types_metadata WHERE `id` = ? LIMIT 1"@,
            st@.binds == seq![BindV::Int(Some(id))],
    {
        Statement::new("SELECT 1 FROM comp_types_metadata WHERE `id` = ? LIMIT 1", vec![SqlValue::Int(Some(id))])
    }

    /// The statement that lists the rows after a key in key order, at most `limit` of them.
    pub fn list_by_cursor(last_id: i32, limit: u32) -> (st: Statement)
        ensures
            st@.sql == "SELECT `comp_types_id`, `f_blob`, `f_date`, `f_datetime`, `f_json`, `f_timestamp`, `id` FROM comp_types_metadata WHERE `id` > ? ORDER BY `id` ASC LIMIT ?"@,
            st@.binds == seq![BindV::Int(Some(last_id)), BindV::BigInt(Some(limit as i64))],
    {
        Statement::new("SELECT `comp_types_id`, `f_blob`, `f_date`, `f_datetime`, `f_json`, `f_timestamp`, `id` FROM comp_types_metadata WHERE `id` > ? ORDER BY `id` ASC LIMIT ?", vec![SqlValue::Int(Some(last_id)), SqlValue::BigInt(Some(limit as i64))])
    }

    /// The value this row holds in the column named `column`, as the
    /// statements bind it; `None` for a name that is not a column.
    pub open spec fn column_value(self, column: Seq<char>) -> Option<BindV> {
        if column == "comp_types_id"@ {
            Some(BindV::Int(Some(self.comp_types_id)))
        } else if column == "f_blob"@ {
            Some(opt_bytes_v(self.f_blob))
        } else if column == "f_date"@ {
            Some(BindV::Date(self.f_date))
        } else if column == "f_datetime"@ {
            Some(BindV::Timestamp(self.f_datetime))
        } else if column == "f_json"@ {
            Some(BindV::Json(opt_chars(self.f_json)))
        } else if column == "f_timestamp"@ {
            Some(BindV::Timestamp(self.f_timestamp))
        } else if column == "id"@ {
            Some(BindV::Int(Some(self.id)))
        } else {
            None
        }
    }

    /// The text that starts the single-row and multi-row writes, up to their
    /// `VALUES`.
    pub open spec fn insert_head() -> Seq<char> {
        "INSERT INTO comp_types_metadata (`comp_types_id`, `f_blob`, `f_date`, `f_datetime`, `f_json`, `f_timestamp`) "@
    }

    /// The single-row and multi-row writes name the columns `comp_types_id`, `f_blob`, `f_date`, `f_datetime`, `f_json`, `f_timestamp`
    /// in this order, and bind for each of them this row's value of that column.
    pub proof fn law_row_binds_named_columns(self)
        ensures
            Self::insert_head() == "INSERT INTO comp_types_metadata ("@ + "`comp_types_id`"@ + ", "@ + "`f_blob`"@ + ", "@ + "`f_date`"@ + ", "@ + "`f_datetime`"@ + ", "@ + "`f_json`"@ + ", "@ + "`f_timestamp`"@ + ") "@,
            self.row_values().len() == 6,
            self.column_value("comp_types_id"@) == Some(self.row_values()[0]),
            self.column_value("f_blob"@) == Some(self.row_values()[1]),
            self.column_value("f_date"@) == Some(self.row_values()[2]),
            self.column_value("f_datetime"@) == Some(self.row_values()[3]),
            self.column_value("f_json"@) == Some(self.row_values()[4]),
            self.column_value("f_timestamp"@) == Some(self.row_values()[5]),
    {
        reveal_strlit("comp_types_id");
        assert("comp_types_id"@.len() == 13 && "comp_types_id"@[2] == 'm');
        reveal_strlit("f_blob");
        assert("f_blob"@.len() == 6 && "f_blob"@[2] == 'b');
        reveal_strlit("f_date");
        assert("f_date"@.len() == 6 && "f_date"@[2] == 'd');
        reveal_strlit("f_datetime");
        assert("f_datetime"@.len() == 10 && "f_datetime"@[2] == 'd');
        reveal_strlit("f_json");
        assert("f_json"@.len() == 6 && "f_json"@[2] == 'j');
        reveal_strlit("f_timestamp");
        assert("f_timestamp"@.len() == 11 && "f_timestamp"@[2] == 't');
        reveal_strlit("id");
        assert("id"@.len() == 2);
        reveal_strlit("INSERT INTO comp_types_metadata (`comp_types_id`, `f_blob`, `f_date`, `f_datetime`, `f_json`, `f_timestamp`) ");
        reveal_strlit("INSERT INTO comp_types_metadata (");
        reveal_strlit("`comp_types_id`");
        reveal_strlit(", ");
        reveal_strlit("`f_blob`");
        reveal_strlit("`f_date`");
        reveal_strlit("`f_datetime`");
        reveal_strlit("`f_json`");
        reveal_strlit("`f_timestamp`");
        reveal_strlit(") ");
    }

    /// The columns the full update sets, as its text names them.
    pub open spec fn row_then_id_set_columns() -> Seq<Seq<char>> {
        seq!["`comp_types_id`"@, "`f_blob`"@, "`f_date`"@, "`f_datetime`"@, "`f_json`"@, "`f_timestamp`"@]
    }

    /// The key columns the full update selects the row by, as its text names them.
    pub open spec fn row_then_id_key_columns() -> Seq<Seq<char>> {
        seq!["`id`"@]
    }

    /// The full update binds this row's value of each column it sets
    /// (`comp_types_id`, `f_blob`, `f_date`, `f_datetime`, `f_json`, `f_timestamp`), then of each key column
    /// (`id`), in the order the statement names them.
    pub proof fn law_row_then_id_binds_named_columns(self)
        ensures
            Self::row_then_id_set_columns() == seq!["`comp_types_id`"@, "`f_blob`"@, "`f_date`"@, "`f_datetime`"@, "`f_json`"@, "`f_timestamp`"@],
            Self::row_then_id_key_columns() == seq!["`id`"@],
            self.row_then_id_values().len() == 7,
            self.column_value("comp_types_id"@) == Some(self.row_then_id_values()[0]),
            self.column_value("f_blob"@) == Some(self.row_then_id_values()[1]),
            self.column_value("f_date"@) == Some(self.row_then_id_values()[2]),
            self.column_value("f_datetime"@) == Some(self.row_then_id_values()[3]),
            self.column_value("f_json"@) == Some(self.row_then_id_values()[4]),
            self.column_value("f_timestamp"@) == Some(self.row_then_id_values()[5]),
            self.column_value("id"@) == Some(self.row_then_id_values()[6]),
    {
        reveal_strlit("comp_types_id");
        assert("comp_types_id"@.len() == 13 && "comp_types_id"@[2] == 'm');
        reveal_strlit("f_blob");
        assert("f_blob"@.len() == 6 && "f_blob"@[2] == 'b');
        reveal_strlit("f_date");
        assert("f_date"@.len() == 6 && "f_date"@[2] == 'd');
        reveal_strlit("f_datetime");
        assert("f_datetime"@.len() == 10 && "f_datetime"@[2] == 'd');
        reveal_strlit("f_json");
        assert("f_json"@.len() == 6 && "f_json"@[2] == 'j');
        reveal_strlit("f_timestamp");
        assert("f_timestamp"@.len() == 11 && "f_timestamp"@[2] == 't');
        reveal_strlit("id");
        assert("id"@.len() == 2);
    }

    /// A batch holds one row of values an item, in the order of the items.
    pub proof fn law_batch_rows_are_the_items_in_order(items: Seq<Self>)
        ensures
            Self::rows_values(items).len() == items.len(),
            forall|i: int| 0 <= i < items.len() ==> #[trigger] Self::rows_values(items)[i] == items[i].row_values(),
    {
    }

    /// What the upsert does on a key conflict, after its `VALUES`.
    pub open spec fn upsert_tail() -> Seq<char> {
        " ON CONFLICT (`id`) DO UPDATE SET `comp_types_id` = EXCLUDED.`comp_types_id`, `f_blob` = EXCLUDED.`f_blob`, `f_date` = EXCLUDED.`f_date`, `f_datetime` = EXCLUDED.`f_datetime`, `f_json` = EXCLUDED.`f_json`, `f_timestamp` = EXCLUDED.`f_timestamp`"@
    }

    /// On a key conflict the upsert sets each of `comp_types_id`, `f_blob`, `f_date`, `f_datetime`, `f_json`, `f_timestamp` to the
    /// value the new row brings for that same column.
    pub proof fn law_upsert_sets_each_column_from_the_new_row()
        ensures
            Self::upsert_tail() == " ON CONFLICT (`id`) DO UPDATE SET "@ + excluded_assignment("`comp_types_id`"@) + ", "@ + excluded_assignment("`f_blob`"@) + ", "@ + excluded_assignment("`f_date`"@) + ", "@ + excluded_assignment("`f_datetime`"@) + ", "@ + excluded_assignment("`f_json`"@) + ", "@ + excluded_assignment("`f_timestamp`"@),
    {
        reveal_strlit(" ON CONFLICT (`id`) DO UPDATE SET `comp_types_id` = EXCLUDED.`comp_types_id`, `f_blob` = EXCLUDED.`f_blob`, `f_date` = EXCLUDED.`f_date`, `f_datetime` = EXCLUDED.`f_datetime`, `f_json` = EXCLUDED.`f_json`, `f_timestamp` = EXCLUDED.`f_timestamp`");
        reveal_strlit(" ON CONFLICT (`id`) DO UPDATE SET ");
        reveal_strlit(", ");
        reveal_strlit(" = EXCLUDED.");
        reveal_strlit("`comp_types_id`");
        reveal_strlit("`f_blob`");
        reveal_strlit("`f_date`");
        reveal_strlit("`f_datetime`");
        reveal_strlit("`f_json`");
        reveal_strlit("`f_timestamp`");
    }

    /// The values of this row's columns, in the order the single-row and multi-row writes bind them.
    pub open spec fn row_values(self) -> Seq<BindV> {
        seq![BindV::Int(Some(self.comp_types_id)), opt_bytes_v(self.f_blob), BindV::Date(self.f_date), BindV::Timestamp(self.f_datetime), BindV::Json(opt_chars(self.f_json)), BindV::Timestamp(self.f_timestamp)]
    }

    /// The values of this row's columns, in the order the single-row and multi-row writes bind them.
    pub fn row(&self) -> (r: Vec<SqlValue>)
        ensures
            r@.map_values(|b: SqlValue| b@) == self.row_values(),
    {
        vec![SqlValue::Int(Some(self.comp_types_id)), SqlValue::opt_bytes(&self.f_blob), SqlValue::Date(self.f_date), SqlValue::Timestamp(self.f_datetime), SqlValue::opt_json(&self.f_json), SqlValue::Timestamp(self.f_timestamp)]
    }

    /// The statement that inserts this row, without checking its constraints.
    pub fn insert_unchecked(&self) -> (st: Statement)
        ensures
            st@.sql == values_sql(Self::insert_head(), Placeholder::Question, 1, 6, ""@),
            st@.binds == self.row_values(),
    {
        Statement { sql: values_text("INSERT INTO comp_types_metadata (`comp_types_id`, `f_blob`, `f_date`, `f_datetime`, `f_json`, `f_timestamp`) ", Placeholder::Question, 1, 6, ""), binds: self.row() }
    }

    /// The statement of `insert_unchecked` when the row passes [`Self::validate`]; the
    /// validation messages joined by `, ` otherwise.
    pub fn insert(&self) -> (r: Result<Statement, String>)
        ensures
            r is Ok <==> self.validation_errors().len() == 0,
            r matches Err(m) ==> m@ == join(self.validation_errors(), seq![',', ' ']),
            r matches Ok(st) ==> st@.sql == values_sql(Self::insert_head(), Placeholder::Question, 1, 6, ""@) && st@.binds == self.row_values(),
    {
        match self.validate() {
            Ok(()) => Ok(self.insert_unchecked()),
            Err(errors) => Err(joined_errors(&errors)),
        }
    }

    /// The values of each row, in statement order.
    pub open spec fn rows_values(items: Seq<Self>) -> Seq<Seq<BindV>> {
        items.map_values(|it: Self| it.row_values())
    }

    /// The values of each row, in statement order.
    pub fn rows(items: &[Self]) -> (r: Vec<Vec<SqlValue>>)
        ensures
            rows_view(r@) == Self::rows_values(items@),
    {
        let mut r: Vec<Vec<SqlValue>> = Vec::new();
        let mut i: usize = 0;
        while i < items.len()
            invariant
                0 <= i <= items.len(),
                rows_view(r@) == Self::rows_values(items@.take(i as int)),
            decreases items.len() - i,
        {
            let row = items[i].row();
            let ghost prev = r@;
            r.push(row);
            proof {
                assert(r@ =~= prev.push(row));
                assert(rows_view(r@) =~= rows_view(prev).push(row@.map_values(|b: SqlValue| b@)));
                assert(items@.take(i + 1) =~= items@.take(i as int).push(items@[i as int]));
                assert(Self::rows_values(items@.take(i + 1))
                    =~= Self::rows_values(items@.take(i as int)).push(items@[i as int].row_values()));
            }
            i = i + 1;
        }
        assert(items@.take(items.len() as int) =~= items@);
        r
    }

    /// The multi-row statements that write the given rows, pieces of at most 5461 rows; no
    /// statement for no rows.
    pub fn insert_batch(items: &[Self]) -> (plan: Vec<Statement>)
        ensures
            plan@.len() == chunks(Self::rows_values(items@), 5461 as nat).len(),
            forall|k: int| 0 <= k < plan@.len() ==> (#[trigger] plan@[k])@ == values_piece(
                Self::insert_head(), ""@, Placeholder::Question, 6, chunks(Self::rows_values(items@), 5461 as nat)[k]),
            forall|k: int| 0 <= k < plan@.len() ==> (#[trigger] plan@[k])@.binds.len() <= 32766,
    {
        let rows = Self::rows(items);
        assert(rows_view(rows@).len() == items@.len());
        assert(rows_view(rows@).len() == rows@.len());
        assert forall|j: int| 0 <= j < rows@.len() implies (#[trigger] rows_view(rows@)[j]).len() == 6 by {
            assert(Self::rows_values(items@)[j] == items@[j].row_values());
            assert(rows_view(rows@)[j] == items@[j].row_values());
        }
        values_plan("INSERT INTO comp_types_metadata (`comp_types_id`, `f_blob`, `f_date`, `f_datetime`, `f_json`, `f_timestamp`) ", "", Placeholder::Question, 6, 5461, &rows)
    }

    /// The statement that inserts this row or, on a key conflict, updates it.
    pub fn upsert(&self) -> (st: Statement)
        ensures
            st@.sql == values_sql(Self::insert_head(), Placeholder::Question, 1, 6, Self::upsert_tail()),
            st@.binds == self.row_values(),
    {
        Statement { sql: values_text("INSERT INTO comp_types_metadata (`comp_types_id`, `f_blob`, `f_date`, `f_datetime`, `f_json`, `f_timestamp`) ", Placeholder::Question, 1, 6, " ON CONFLICT (`id`) DO UPDATE SET `comp_types_id` = EXCLUDED.`comp_types_id`, `f_blob` = EXCLUDED.`f_blob`, `f_date` = EXCLUDED.`f_date`, `f_datetime` = EXCLUDED.`f_datetime`, `f_json` = EXCLUDED.`f_json`, `f_timestamp` = EXCLUDED.`f_timestamp`"), binds: self.row() }
    }

    /// The multi-row statements that write the given rows, pieces of at most 5461 rows; no
    /// statement for no rows.
    pub fn upsert_batch(items: &[Self]) -> (plan: Vec<Statement>)
        ensures
            plan@.len() == chunks(Self::rows_values(items@), 5461 as nat).len(),
            forall|k: int| 0 <= k < plan@.len() ==> (#[trigger] plan@[k])@ == values_piece(
                Self::insert_head(), Self::upsert_tail(), Placeholder::Question, 6, chunks(Self::rows_values(items@), 5461 as nat)[k]),
            forall|k: int| 0 <= k < plan@.len() ==> (#[trigger] plan@[k])@.binds.len() <= 32766,
    {
        let rows = Self::rows(items);
        assert(rows_view(rows@).len() == items@.len());
        assert(rows_view(rows@).len() == rows@.len());
        assert forall|j: int| 0 <= j < rows@.len() implies (#[trigger] rows_view(rows@)[j]).len() == 6 by {
            assert(Self::rows_values(items@)[j] == items@[j].row_values());
            assert(rows_view(rows@)[j] == items@[j].row_values());
        }
        values_plan("INSERT INTO comp_types_metadata (`comp_types_id`, `f_blob`, `f_date`, `f_datetime`, `f_json`, `f_timestamp`) ", " ON CONFLICT (`id`) DO UPDATE SET `comp_types_id` = EXCLUDED.`comp_types_id`, `f_blob` = EXCLUDED.`f_blob`, `f_date` = EXCLUDED.`f_date`, `f_datetime` = EXCLUDED.`f_datetime`, `f_json` = EXCLUDED.`f_json`, `f_timestamp` = EXCLUDED.`f_timestamp`", Placeholder::Question, 6, 5461, &rows)
    }

    /// The values of this row's columns and then of its key columns, in the order the full update binds them.
    pub open spec fn row_then_id_values(self) -> Seq<BindV> {
        seq![BindV::Int(Some(self.comp_types_id)), opt_bytes_v(self.f_blob), BindV::Date(self.f_date), BindV::Timestamp(self.f_datetime), BindV::Json(opt_chars(self.f_json)), BindV::Timestamp(self.f_timestamp), BindV::Int(Some(self.id))]
    }

    /// The values of this row's columns and then of its key columns, in the order the full update binds them.
    pub fn row_then_id(&self) -> (r: Vec<SqlValue>)
        ensures
            r@.map_values(|b: SqlValue| b@) == self.row_then_id_values(),
    {
        vec![SqlValue::Int(Some(self.comp_types_id)), SqlValue::opt_bytes(&self.f_blob), SqlValue::Date(self.f_date), SqlValue::Timestamp(self.f_datetime), SqlValue::opt_json(&self.f_json), SqlValue::Timestamp(self.f_timestamp), SqlValue::Int(Some(self.id))]
    }

    /// The statement that writes every column of this row, selected by its key.
    pub fn update_by_id(&self) -> (st: Statement)
        ensures
            st@.sql == update_sql("UPDATE comp_types_metadata SET "@, Self::row_then_id_set_columns(), Self::row_then_id_key_columns(), Placeholder::Question),
            st@.binds == self.row_then_id_values(),
    {
        let set: Vec<&str> = vec!["`comp_types_id`", "`f_blob`", "`f_date`", "`f_datetime`", "`f_json`", "`f_timestamp`"];
        let keys: Vec<&str> = vec!["`id`"];
        proof {
            assert(set@.map_values(|n: &str| n@) =~= seq!["`comp_types_id`"@, "`f_blob`"@, "`f_date`"@, "`f_datetime`"@, "`f_json`"@, "`f_timestamp`"@]);
            assert(keys@.map_values(|n: &str| n@) =~= seq!["`id`"@]);
        }
        Statement { sql: update_text("UPDATE comp_types_metadata SET ", &set, &keys, Placeholder::Question), binds: self.row_then_id() }
    }

    /// The statement that deletes the rows with the given key.
    pub fn delete_by_id(id: i32) -> (st: Statement)
        ensures
            st@.sql == "DELETE FROM comp_types_metadata WHERE `id` = ?"@,
            st@.binds == seq![BindV::Int(Some(id))],
    {
        Statement::new("DELETE FROM comp_types_metadata WHERE `id` = ?", vec![SqlValue::Int(Some(id))])
    }

    /// The statements that delete the rows with the given keys, pieces of at most 5000 keys;
    /// no statement for no keys.
    pub fn delete_many_by_id(ids: &[i32]) -> (plan: Vec<Statement>)
        ensures
            plan@.len() == chunks(ids@.map_values(|x: i32| BindV::Int(Some(x))), 5000 as nat).len(),
            forall|k: int| 0 <= k < plan@.len() ==> (#[trigger] plan@[k])@ == in_list_piece(
                "DELETE FROM comp_types_metadata WHERE `id` IN "@, Placeholder::Question, chunks(ids@.map_values(|x: i32| BindV::Int(Some(x))), 5000 as nat)[k]),
    {
        let values = values_of_i32(ids);
        in_list_plan("DELETE FROM comp_types_metadata WHERE `id` IN ", Placeholder::Question, 5000, &values)
    }

    /// The columns the patch sets and their values, in column order.
    fn update_partial_by_id_assignments(patch: &CompTypesMetadataPatch) -> (r: (Vec<&'static str>, Vec<SqlValue>))
        ensures
            r.0@.map_values(|n: &str| n@) == Self::update_partial_by_id_columns(*patch),
            r.1@.map_values(|b: SqlValue| b@) == Self::update_partial_by_id_values(*patch),
            r.0@.len() <= 6,
    {
        let mut set: Vec<&'static str> = Vec::new();
        let mut binds: Vec<SqlValue> = Vec::new();
        assert(set@.map_values(|n: &str| n@) =~= Seq::<Seq<char>>::empty());
        assert(binds@.map_values(|b: SqlValue| b@) =~= Seq::<BindV>::empty());
        let value = match &patch.comp_types_id {
            Some(v) => Some(SqlValue::Int(Some(*v))),
            None => None,
        };
        push_assignment(&mut set, &mut binds, "`comp_types_id`", value);
        let value = match &patch.f_blob {
            Some(v) => Some(SqlValue::opt_bytes(v)),
            None => None,
        };
        push_assignment(&mut set, &mut binds, "`f_blob`", value);
        let value = match &patch.f_date {
            Some(v) => Some(SqlValue::Date(*v)),
            None => None,
        };
        push_assignment(&mut set, &mut binds, "`f_date`", value);
        let value = match &patch.f_datetime {
            Some(v) => Some(SqlValue::Timestamp(*v)),
            None => None,
        };
        push_assignment(&mut set, &mut binds, "`f_datetime`", value);
        let value = match &patch.f_json {
            Some(v) => Some(SqlValue::opt_json(v)),
            None => None,
        };
        push_assignment(&mut set, &mut binds, "`f_json`", value);
        let value = match &patch.f_timestamp {
            Some(v) => Some(SqlValue::Timestamp(*v)),
            None => None,
        };
        push_assignment(&mut set, &mut binds, "`f_timestamp`", value);
        (set, binds)
    }

    /// The statement that writes only the columns the patch sets, on the row
    /// with the given key; none when the patch sets no column.
    pub fn update_partial_by_id(id: i32, patch: &CompTypesMetadataPatch) -> (r: Option<Statement>)
        ensures
            r is None <==> Self::update_partial_by_id_columns(*patch).len() == 0,
            r matches Some(st) ==> st@.sql == update_sql("UPDATE comp_types_metadata SET "@, Self::update_partial_by_id_columns(*patch), seq!["`id`"@], Placeholder::Question)
                && st@.binds == Self::update_partial_by_id_values(*patch) + seq![BindV::Int(Some(id))],
    {
        let (set, mut binds) = Self::update_partial_by_id_assignments(patch);
        if set.len() == 0 {
            return None;
        }
        let ghost vals = binds@.map_values(|b: SqlValue| b@);
        binds.push(SqlValue::Int(Some(id)));
        let keys: Vec<&str> = vec!["`id`"];
        proof {
            assert(keys@.map_values(|n: &str| n@) =~= seq!["`id`"@]);
            assert(binds@.map_values(|b: SqlValue| b@) =~= vals + seq![BindV::Int(Some(id))]);
        }
        Some(Statement { sql: update_text("UPDATE comp_types_metadata SET ", &set, &keys, Placeholder::Question), binds })
    }

    /// The columns a patch assigns, in column order.
    pub open spec fn update_partial_by_id_columns(p: CompTypesMetadataPatch) -> Seq<Seq<char>> {
        Seq::empty()
            + assigned_column(p.comp_types_id, "`comp_types_id`"@)
            + assigned_column(p.f_blob, "`f_blob`"@)
            + assigned_column(p.f_date, "`f_date`"@)
            + assigned_column(p.f_datetime, "`f_datetime`"@)
            + assigned_column(p.f_json, "`f_json`"@)
            + assigned_column(p.f_timestamp, "`f_timestamp`"@)
    }

    /// The values a patch assigns, in column order.
    pub open spec fn update_partial_by_id_values(p: CompTypesMetadataPatch) -> Seq<BindV> {
        Seq::empty()
            + (match p.comp_types_id { Some(v) => seq![BindV::Int(Some(v))], None => Seq::empty() })
            + (match p.f_blob { Some(v) => seq![opt_bytes_v(v)], None => Seq::empty() })
            + (match p.f_date { Some(v) => seq![BindV::Date(v)], None => Seq::empty() })
            + (match p.f_datetime { Some(v) => seq![BindV::Timestamp(v)], None => Seq::empty() })
            + (match p.f_json { Some(v) => seq![BindV::Json(opt_chars(v))], None => Seq::empty() })
            + (match p.f_timestamp { Some(v) => seq![BindV::Timestamp(v)], None => Seq::empty() })
    }

    /// A partial update binds one value for each column it assigns, so its
    /// placeholders and its values always match in number.
    pub proof fn law_update_partial_by_id_one_value_per_column(patch: CompTypesMetadataPatch)
        ensures
            Self::update_partial_by_id_columns(patch).len() == Self::update_partial_by_id_values(patch).len(),
    {
    }

    /// A patch that sets every column to the values of `row`, applied to the
    /// row's key, gives the statement that `update_by_id` gives for the row: the
    /// same text and the same values.
    pub proof fn law_full_patch_matches_update_by_id(row: Self, patch: CompTypesMetadataPatch)
        requires
            patch.comp_types_id == Some(row.comp_types_id),
            patch.f_blob == Some(row.f_blob),
            patch.f_date == Some(row.f_date),
            patch.f_datetime == Some(row.f_datetime),
            patch.f_json == Some(row.f_json),
            patch.f_timestamp == Some(row.f_timestamp),
        ensures
            update_sql("UPDATE comp_types_metadata SET "@, Self::update_partial_by_id_columns(patch), seq!["`id`"@], Placeholder::Question)
                == update_sql("UPDATE comp_types_metadata SET "@, seq!["`comp_types_id`"@, "`f_blob`"@, "`f_date`"@, "`f_datetime`"@, "`f_json`"@, "`f_timestamp`"@], seq!["`id`"@], Placeholder::Question),
            Self::update_partial_by_id_values(patch) + seq![BindV::Int(Some(row.id))] == row.row_then_id_values(),
    {
        assert(Self::update_partial_by_id_columns(patch) =~= seq!["`comp_types_id`"@, "`f_blob`"@, "`f_date`"@, "`f_datetime`"@, "`f_json`"@, "`f_timestamp`"@]);
        assert(Self::update_partial_by_id_values(patch) + seq![BindV::Int(Some(row.id))] =~= row.row_then_id_values());
    }
}

} // verus!

