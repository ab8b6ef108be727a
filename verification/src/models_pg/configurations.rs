//! The `configurations` table (PostgreSQL dialect): rows, orderings, constraints and statements.
use vstd::prelude::*;
use crate::value::{SqlValue, BindV, Statement, text_v, opt_text_v, values_of_i32};
use crate::sql::{push_assignment, assigned_column, Placeholder, values_sql, values_text, values_piece, values_plan, update_sql, update_text, in_list_piece, in_list_plan, chunks, rows_view, excluded_assignment};
use crate::copy::{CsvField, CsvFieldV, CopyPlan, copy_payloads, payloads, field_rows_view, escaped_v, opt_escaped_v};
use crate::csv_read::{readable, read_records, field_value, law_copy_payloads_read_back};
use crate::validation::{error_if, format_error, errors_view, check_min_len, check_max_len, check_min, check_max, check_format, outcome, joined_errors, validation_result, when_some, check_max_len_opt, check_format_opt, lemma_contains_concat, lemma_error_if_reports, lemma_format_error_reports, regex_match};
use crate::paging::{row_limit, page_limit, clamp};
use crate::text::{utf8_len, join, concat};

verus! {

/// A row of `configurations`.
#[derive(Clone, Debug)]
pub struct Configurations {
    pub id: i32,
    pub match_: Option<String>,
    pub type_: String,
    pub value: Option<String>,
}

/// The columns of `configurations` to change: `None` leaves a column as it is, `Some(v)` writes `v`.
#[derive(Clone, Debug)]
pub struct ConfigurationsPatch {
    pub match_: Option<Option<String>>,
    pub type_: Option<String>,
    pub value: Option<Option<String>>,
}

impl Default for ConfigurationsPatch {
    /// A patch that changes nothing.
    fn default() -> (p: Self)
        ensures
            p.match_ is None,
            p.type_ is None,
            p.value is None,
    {
        ConfigurationsPatch { match_: None, type_: None, value: None }
    }
}

/// A column and a direction to order listings by.
#[derive(Clone, Copy, Debug, PartialEq, Eq, Structural)]
pub enum ConfigurationsOrderBy {
    IdAsc,
    IdDesc,
    MatchAsc,
    MatchDesc,
    TypeAsc,
    TypeDesc,
    ValueAsc,
    ValueDesc,
}

impl ConfigurationsOrderBy {
    /// The `ORDER BY` term of this ordering.
    pub open spec fn term(self) -> Seq<char> {
        match self {
            ConfigurationsOrderBy::IdAsc => "\"id\" ASC"@,
            ConfigurationsOrderBy::IdDesc => "\"id\" DESC"@,
            ConfigurationsOrderBy::MatchAsc => "\"match\" ASC"@,
            ConfigurationsOrderBy::MatchDesc => "\"match\" DESC"@,
            ConfigurationsOrderBy::TypeAsc => "\"type\" ASC"@,
            ConfigurationsOrderBy::TypeDesc => "\"type\" DESC"@,
            ConfigurationsOrderBy::ValueAsc => "\"value\" ASC"@,
            ConfigurationsOrderBy::ValueDesc => "\"value\" DESC"@,
        }
    }

    /// An ordering sorts by the column its name says, ascending for an
    /// `...Asc` ordering and descending for a `...Desc` one: its term is that
    /// column, then `ASC` or `DESC`.
    pub proof fn law_term_names_column_and_direction(self)
        ensures
            (self is IdAsc || self is IdDesc) ==> self.term() == "\"id\""@ + (if self is IdDesc { " DESC"@ } else { " ASC"@ }),
            (self is MatchAsc || self is MatchDesc) ==> self.term() == "\"match\""@ + (if self is MatchDesc { " DESC"@ } else { " ASC"@ }),
            (self is TypeAsc || self is TypeDesc) ==> self.term() == "\"type\""@ + (if self is TypeDesc { " DESC"@ } else { " ASC"@ }),
            (self is ValueAsc || self is ValueDesc) ==> self.term() == "\"value\""@ + (if self is ValueDesc { " DESC"@ } else { " ASC"@ }),
    {
        reveal_strlit("\"id\" ASC");
        reveal_strlit("id");
        reveal_strlit("\"id\" DESC");
        reveal_strlit("\"match\" ASC");
        reveal_strlit("match");
        reveal_strlit("\"match\" DESC");
        reveal_strlit("\"type\" ASC");
        reveal_strlit("type");
        reveal_strlit("\"type\" DESC");
        reveal_strlit("\"value\" ASC");
        reveal_strlit("value");
        reveal_strlit("\"value\" DESC");
        reveal_strlit("\"id\"");
        reveal_strlit("\"match\"");
        reveal_strlit("\"type\"");
        reveal_strlit("\"value\"");
        reveal_strlit(" ASC");
        reveal_strlit(" DESC");
    }

    /// The `ORDER BY` term of this ordering.
    pub fn as_str(&self) -> (s: &'static str)
        ensures
            s@ == self.term(),
    {
        match self {
            ConfigurationsOrderBy::IdAsc => "\"id\" ASC",
            ConfigurationsOrderBy::IdDesc => "\"id\" DESC",
            ConfigurationsOrderBy::MatchAsc => "\"match\" ASC",
            ConfigurationsOrderBy::MatchDesc => "\"match\" DESC",
            ConfigurationsOrderBy::TypeAsc => "\"type\" ASC",
            ConfigurationsOrderBy::TypeDesc => "\"type\" DESC",
            ConfigurationsOrderBy::ValueAsc => "\"value\" ASC",
            ConfigurationsOrderBy::ValueDesc => "\"value\" DESC",
        }
    }

    /// Different orderings have different terms: a term names one column and
    /// one direction.
    pub proof fn law_terms_are_distinct(a: Self, b: Self)
        ensures
            a.term() == b.term() ==> a == b,
    {
        reveal_strlit("\"id\" ASC");
        assert("\"id\" ASC"@.len() == 8 && "\"id\" ASC"@[1] == 'i');
        reveal_strlit("\"id\" DESC");
        assert("\"id\" DESC"@.len() == 9 && "\"id\" DESC"@[1] == 'i');
        reveal_strlit("\"match\" ASC");
        assert("\"match\" ASC"@.len() == 11 && "\"match\" ASC"@[1] == 'm');
        reveal_strlit("\"match\" DESC");
        assert("\"match\" DESC"@.len() == 12 && "\"match\" DESC"@[1] == 'm');
        reveal_strlit("\"type\" ASC");
        assert("\"type\" ASC"@.len() == 10 && "\"type\" ASC"@[1] == 't');
        reveal_strlit("\"type\" DESC");
        assert("\"type\" DESC"@.len() == 11 && "\"type\" DESC"@[1] == 't');
        reveal_strlit("\"value\" ASC");
        assert("\"value\" ASC"@.len() == 11 && "\"value\" ASC"@[1] == 'v');
        reveal_strlit("\"value\" DESC");
        assert("\"value\" DESC"@.len() == 12 && "\"value\" DESC"@[1] == 'v');
    }
}


impl Configurations {
    /// The constraint violations of this row, in the order the checks run.
    pub open spec fn validation_errors(self) -> Seq<Seq<char>> {
        Seq::empty()
            + error_if((self.id as int) < 0, "id: minimum value '0' not met"@)
            + error_if((self.id as int) > 2147483647, "id: maximum value '2147483647' exceeded"@)
            + when_some(self.match_, |v: String| error_if((utf8_len(v@) as usize) > 255, "r#match: exceeds max_length 255"@))
            + when_some(self.match_, |v: String| format_error("^[\u{c0}-\u{ff}A-Za-z0-9_ -]*$"@, v@, "r#match: format constraint not met"@, "r#match: configured regex is invalid"@))
            + error_if((utf8_len(self.type_@) as usize) < 1, "r#type: min_length 1 not met"@)
            + error_if((utf8_len(self.type_@) as usize) > 50, "r#type: exceeds max_length 50"@)
            + format_error("^[\u{c0}-\u{ff}A-Za-z0-9_ -]*$"@, self.type_@, "r#type: format constraint not met"@, "r#type: configured regex is invalid"@)
            + when_some(self.value, |v: String| format_error("^[\u{c0}-\u{ff}A-Za-z0-9_ -]*$"@, v@, "value: format constraint not met"@, "value: configured regex is invalid"@))
    }

    /// The constraints of `id` are checked: a value that breaks one gets
    /// that constraint's message.
    pub proof fn law_id_constraints_are_reported(self)
        ensures
            ((self.id as int) < 0) ==> self.validation_errors().contains("id: minimum value '0' not met"@),
            ((self.id as int) > 2147483647) ==> self.validation_errors().contains("id: maximum value '2147483647' exceeded"@),
    {
        assert(((self.id as int) < 0) ==> self.validation_errors().contains("id: minimum value '0' not met"@)) by {
            broadcast use lemma_contains_concat;
            lemma_error_if_reports((self.id as int) < 0, "id: minimum value '0' not met"@);
        }
        assert(((self.id as int) > 2147483647) ==> self.validation_errors().contains("id: maximum value '2147483647' exceeded"@)) by {
            broadcast use lemma_contains_concat;
            lemma_error_if_reports((self.id as int) > 2147483647, "id: maximum value '2147483647' exceeded"@);
        }
    }

    /// The constraints of `match` are checked: a value that breaks one gets
    /// that constraint's message.
    pub proof fn law_match_constraints_are_reported(self)
        ensures
            self.match_ matches Some(v) ==> ((utf8_len(v@) as usize) > 255 ==> self.validation_errors().contains("r#match: exceeds max_length 255"@)),
            self.match_ matches Some(v) ==> (regex_match("^[\u{c0}-\u{ff}A-Za-z0-9_ -]*$"@, v@) == Some(false) ==> self.validation_errors().contains("r#match: format constraint not met"@)),
            self.match_ matches Some(v) ==> (regex_match("^[\u{c0}-\u{ff}A-Za-z0-9_ -]*$"@, v@) is None ==> self.validation_errors().contains("r#match: configured regex is invalid"@)),
    {
        assert(self.match_ matches Some(v) ==> ((utf8_len(v@) as usize) > 255 ==> self.validation_errors().contains("r#match: exceeds max_length 255"@))) by {
            broadcast use lemma_contains_concat;
            if let Some(v) = self.match_ {
                lemma_error_if_reports((utf8_len(v@) as usize) > 255, "r#match: exceeds max_length 255"@);
            }
        }
        assert(self.match_ matches Some(v) ==> (regex_match("^[\u{c0}-\u{ff}A-Za-z0-9_ -]*$"@, v@) == Some(false) ==> self.validation_errors().contains("r#match: format constraint not met"@))) by {
            broadcast use lemma_contains_concat;
            if let Some(v) = self.match_ {
                lemma_format_error_reports("^[\u{c0}-\u{ff}A-Za-z0-9_ -]*$"@, v@, "r#match: format constraint not met"@, "r#match: configured regex is invalid"@);
            }
        }
        assert(self.match_ matches Some(v) ==> (regex_match("^[\u{c0}-\u{ff}A-Za-z0-9_ -]*$"@, v@) is None ==> self.validation_errors().contains("r#match: configured regex is invalid"@))) by {
            broadcast use lemma_contains_concat;
            if let Some(v) = self.match_ {
                lemma_format_error_reports("^[\u{c0}-\u{ff}A-Za-z0-9_ -]*$"@, v@, "r#match: format constraint not met"@, "r#match: configured regex is invalid"@);
            }
        }
    }

    /// The constraints of `type` are checked: a value that breaks one gets
    /// that constraint's message.
    pub proof fn law_type_constraints_are_reported(self)
        ensures
            ((utf8_len(self.type_@) as usize) < 1) ==> self.validation_errors().contains("r#type: min_length 1 not met"@),
            ((utf8_len(self.type_@) as usize) > 50) ==> self.validation_errors().contains("r#type: exceeds max_length 50"@),
            (regex_match("^[\u{c0}-\u{ff}A-Za-z0-9_ -]*$"@, self.type_@) == Some(false)) ==> self.validation_errors().contains("r#type: format constraint not met"@),
            (regex_match("^[\u{c0}-\u{ff}A-Za-z0-9_ -]*$"@, self.type_@) is None) ==> self.validation_errors().contains("r#type: configured regex is invalid"@),
    {
        assert(((utf8_len(self.type_@) as usize) < 1) ==> self.validation_errors().contains("r#type: min_length 1 not met"@)) by {
            broadcast use lemma_contains_concat;
            lemma_error_if_reports((utf8_len(self.type_@) as usize) < 1, "r#type: min_length 1 not met"@);
        }
        assert(((utf8_len(self.type_@) as usize) > 50) ==> self.validation_errors().contains("r#type: exceeds max_length 50"@)) by {
            broadcast use lemma_contains_concat;
            lemma_error_if_reports((utf8_len(self.type_@) as usize) > 50, "r#type: exceeds max_length 50"@);
        }
        assert((regex_match("^[\u{c0}-\u{ff}A-Za-z0-9_ -]*$"@, self.type_@) == Some(false)) ==> self.validation_errors().contains("r#type: format constraint not met"@)) by {
            broadcast use lemma_contains_concat;
            lemma_format_error_reports("^[\u{c0}-\u{ff}A-Za-z0-9_ -]*$"@, self.type_@, "r#type: format constraint not met"@, "r#type: configured regex is invalid"@);
        }
        assert((regex_match("^[\u{c0}-\u{ff}A-Za-z0-9_ -]*$"@, self.type_@) is None) ==> self.validation_errors().contains("r#type: configured regex is invalid"@)) by {
            broadcast use lemma_contains_concat;
            lemma_format_error_reports("^[\u{c0}-\u{ff}A-Za-z0-9_ -]*$"@, self.type_@, "r#type: format constraint not met"@, "r#type: configured regex is invalid"@);
        }
    }

    /// The constraints of `value` are checked: a value that breaks one gets
    /// that constraint's message.
    pub proof fn law_value_constraints_are_reported(self)
        ensures
            self.value matches Some(v) ==> (regex_match("^[\u{c0}-\u{ff}A-Za-z0-9_ -]*$"@, v@) == Some(false) ==> self.validation_errors().contains("value: format constraint not met"@)),
            self.value matches Some(v) ==> (regex_match("^[\u{c0}-\u{ff}A-Za-z0-9_ -]*$"@, v@) is None ==> self.validation_errors().contains("value: configured regex is invalid"@)),
    {
        assert(self.value matches Some(v) ==> (regex_match("^[\u{c0}-\u{ff}A-Za-z0-9_ -]*$"@, v@) == Some(false) ==> self.validation_errors().contains("value: format constraint not met"@))) by {
            broadcast use lemma_contains_concat;
            if let Some(v) = self.value {
                lemma_format_error_reports("^[\u{c0}-\u{ff}A-Za-z0-9_ -]*$"@, v@, "value: format constraint not met"@, "value: configured regex is invalid"@);
            }
        }
        assert(self.value matches Some(v) ==> (regex_match("^[\u{c0}-\u{ff}A-Za-z0-9_ -]*$"@, v@) is None ==> self.validation_errors().contains("value: configured regex is invalid"@))) by {
            broadcast use lemma_contains_concat;
            if let Some(v) = self.value {
                lemma_format_error_reports("^[\u{c0}-\u{ff}A-Za-z0-9_ -]*$"@, v@, "value: format constraint not met"@, "value: configured regex is invalid"@);
            }
        }
    }

    /// A row that breaks none of the constraints gets no message at all.
    pub proof fn law_row_within_constraints_gets_no_message(self)
        ensures
            ((!((self.id as int) < 0))
                && (!((self.id as int) > 2147483647))
                && (self.match_ matches Some(v) ==> !((utf8_len(v@) as usize) > 255))
                && (self.match_ matches Some(v) ==> regex_match("^[\u{c0}-\u{ff}A-Za-z0-9_ -]*$"@, v@) == Some(true))
                && (!((utf8_len(self.type_@) as usize) < 1))
                && (!((utf8_len(self.type_@) as usize) > 50))
                && (regex_match("^[\u{c0}-\u{ff}A-Za-z0-9_ -]*$"@, self.type_@) == Some(true))
                && (self.value matches Some(v) ==> regex_match("^[\u{c0}-\u{ff}A-Za-z0-9_ -]*$"@, v@) == Some(true)))
                ==> self.validation_errors() == Seq::<Seq<char>>::empty(),
    {
        if (!((self.id as int) < 0))
            && (!((self.id as int) > 2147483647))
            && (self.match_ matches Some(v) ==> !((utf8_len(v@) as usize) > 255))
            && (self.match_ matches Some(v) ==> regex_match("^[\u{c0}-\u{ff}A-Za-z0-9_ -]*$"@, v@) == Some(true))
            && (!((utf8_len(self.type_@) as usize) < 1))
            && (!((utf8_len(self.type_@) as usize) > 50))
            && (regex_match("^[\u{c0}-\u{ff}A-Za-z0-9_ -]*$"@, self.type_@) == Some(true))
            && (self.value matches Some(v) ==> regex_match("^[\u{c0}-\u{ff}A-Za-z0-9_ -]*$"@, v@) == Some(true)) {
            lemma_error_if_reports((self.id as int) < 0, "id: minimum value '0' not met"@);
            lemma_error_if_reports((self.id as int) > 2147483647, "id: maximum value '2147483647' exceeded"@);
            if let Some(v) = self.match_ {
                lemma_error_if_reports((utf8_len(v@) as usize) > 255, "r#match: exceeds max_length 255"@);
            }
            if let Some(v) = self.match_ {
                lemma_format_error_reports("^[\u{c0}-\u{ff}A-Za-z0-9_ -]*$"@, v@, "r#match: format constraint not met"@, "r#match: configured regex is invalid"@);
            }
            lemma_error_if_reports((utf8_len(self.type_@) as usize) < 1, "r#type: min_length 1 not met"@);
            lemma_error_if_reports((utf8_len(self.type_@) as usize) > 50, "r#type: exceeds max_length 50"@);
            lemma_format_error_reports("^[\u{c0}-\u{ff}A-Za-z0-9_ -]*$"@, self.type_@, "r#type: format constraint not met"@, "r#type: configured regex is invalid"@);
            if let Some(v) = self.value {
                lemma_format_error_reports("^[\u{c0}-\u{ff}A-Za-z0-9_ -]*$"@, v@, "value: format constraint not met"@, "value: configured regex is invalid"@);
            }
        }
    }

    fn collect_errors(&self) -> (errors: Vec<String>)
        ensures
            errors_view(errors@) == self.validation_errors(),
    {
        let mut errors: Vec<String> = Vec::new();
        check_min(&mut errors, self.id as i128, 0, "id: minimum value '0' not met");
        check_max(&mut errors, self.id as i128, 2147483647, "id: maximum value '2147483647' exceeded");
        check_max_len_opt(&mut errors, &self.match_, 255, "r#match: exceeds max_length 255");
        check_format_opt(&mut errors, "^[\u{c0}-\u{ff}A-Za-z0-9_ -]*$", &self.match_, "r#match: format constraint not met", "r#match: configured regex is invalid");
        check_min_len(&mut errors, self.type_.as_str(), 1, "r#type: min_length 1 not met");
        check_max_len(&mut errors, self.type_.as_str(), 50, "r#type: exceeds max_length 50");
        check_format(&mut errors, "^[\u{c0}-\u{ff}A-Za-z0-9_ -]*$", self.type_.as_str(), "r#type: format constraint not met", "r#type: configured regex is invalid");
        check_format_opt(&mut errors, "^[\u{c0}-\u{ff}A-Za-z0-9_ -]*$", &self.value, "value: format constraint not met", "value: configured regex is invalid");
        errors
    }

    /// Checks the constraints of the columns (lengths, ranges, allowed values,
    /// finite numbers and formats): `Ok` when all hold, the messages of those
    /// that fail otherwise, in the order the checks run.
    pub fn validate(&self) -> (r: Result<(), Vec<String>>)
        ensures
            validation_result(r, self.validation_errors()),
    {
        outcome(self.collect_errors())
    }

    /// The statement that counts the rows.
    pub fn count() -> (st: Statement)
        ensures
            st@.sql == "SELECT COUNT(*) FROM \"configurations\""@,
            st@.binds == Seq::<BindV>::empty(),
    {
        Statement::new("SELECT COUNT(*) FROM \"configurations\"", Vec::new())
    }

    /// The statement that reads the row-count estimate from the database statistics.
    pub fn approximate_count() -> (st: Statement)
        ensures
            st@.sql == "SELECT reltuples::bigint FROM pg_class WHERE relname = $1"@,
            st@.binds == seq![BindV::Text(Some("configurations"@))],
    {
        Statement::new("SELECT reltuples::bigint FROM pg_class WHERE relname = $1", vec![SqlValue::str("configurations")])
    }

    /// The statement that streams the rows in key order, at most `limit` of them (brought into `1..=10000`).
    pub fn stream_all(limit: i64) -> (st: Statement)
        ensures
            st@.sql == "SELECT \"id\", \"match\", \"type\", \"value\" FROM \"configurations\" ORDER BY \"id\" ASC LIMIT $1"@,
            st@.binds == seq![BindV::BigInt(Some(clamp(limit as int, 1, 10000) as i64))],
    {
        Statement::new("SELECT \"id\", \"match\", \"type\", \"value\" FROM \"configurations\" ORDER BY \"id\" ASC LIMIT $1", vec![SqlValue::BigInt(Some(row_limit(limit)))])
    }

    /// The statement that reads the row with the given key.
    pub fn get_by_id(id: i32) -> (st: Statement)
        ensures
            st@.sql == "SELECT \"id\", \"match\", \"type\", \"value\" FROM \"configurations\" WHERE \"id\" = $1"@,
            st@.binds == seq![BindV::Int(Some(id))],
    {
        Statement::new("SELECT \"id\", \"match\", \"type\", \"value\" FROM \"configurations\" WHERE \"id\" = $1", vec![SqlValue::Int(Some(id))])
    }

    /// The statement that tells whether a row with the given key exists.
    pub fn exists_by_id(id: i32) -> (st: Statement)
        ensures
            st@.sql == "SELECT 1 FROM \"configurations\" WHERE \"id\" = $1 LIMIT 1"@,
            st@.binds == seq![BindV::Int(Some(id))],
    {
        Statement::new("SELECT 1 FROM \"configurations\" WHERE \"id\" = $1 LIMIT 1", vec![SqlValue::Int(Some(id))])
    }

    /// The statement that lists the rows after a key in key order, at most `limit` of them (brought into `1..=10000`).
    pub fn list_by_cursor(last_id: i32, limit: u32) -> (st: Statement)
        ensures
            st@.sql == "SELECT \"id\", \"match\", \"type\", \"value\" FROM \"configurations\" WHERE \"id\" > $1 ORDER BY \"id\" ASC LIMIT $2"@,
            st@.binds == seq![BindV::Int(Some(last_id)), BindV::BigInt(Some(clamp(limit as int, 1, 10000) as i64))],
    {
        Statement::new("SELECT \"id\", \"match\", \"type\", \"value\" FROM \"configurations\" WHERE \"id\" > $1 ORDER BY \"id\" ASC LIMIT $2", vec![SqlValue::Int(Some(last_id)), SqlValue::BigInt(Some(page_limit(limit) as i64))])
    }

    /// The value this row holds in the column named `column`, as the
    /// statements bind it; `None` for a name that is not a column.
    pub open spec fn column_value(self, column: Seq<char>) -> Option<BindV> {
        if column == "match"@ {
            Some(opt_text_v(self.match_))
        } else if column == "type"@ {
            Some(text_v(self.type_))
        } else if column == "value"@ {
            Some(opt_text_v(self.value))
        } else if column == "id"@ {
            Some(BindV::Int(Some(self.id)))
        } else {
            None
        }
    }

    /// The text that starts the single-row and multi-row writes, up to their
    /// `VALUES`.
    pub open spec fn insert_head() -> Seq<char> {
        "INSERT INTO \"configurations\" (\"match\", \"type\", \"value\") "@
    }

    /// The single-row and multi-row writes name the columns `match`, `type`, `value`
    /// in this order, and bind for each of them this row's value of that column.
    pub proof fn law_row_binds_named_columns(self)
        ensures
            Self::insert_head() == "INSERT INTO \"configurations\" ("@ + "\"match\""@ + ", "@ + "\"type\""@ + ", "@ + "\"value\""@ + ") "@,
            self.row_values().len() == 3,
            self.column_value("match"@) == Some(self.row_values()[0]),
            self.column_value("type"@) == Some(self.row_values()[1]),
            self.column_value("value"@) == Some(self.row_values()[2]),
    {
        reveal_strlit("match");
        assert("match"@.len() == 5 && "match"@[0] == 'm');
        reveal_strlit("type");
        assert("type"@.len() == 4 && "type"@[0] == 't');
        reveal_strlit("value");
        assert("value"@.len() == 5 && "value"@[0] == 'v');
        reveal_strlit("id");
        assert("id"@.len() == 2 && "id"@[0] == 'i');
        reveal_strlit("INSERT INTO \"configurations\" (\"match\", \"type\", \"value\") ");
        reveal_strlit("INSERT INTO \"configurations\" (");
        reveal_strlit("\"match\"");
        reveal_strlit(", ");
        reveal_strlit("\"type\"");
        reveal_strlit("\"value\"");
        reveal_strlit(") ");
    }

    /// The columns the full update sets, as its text names them.
    pub open spec fn row_then_id_set_columns() -> Seq<Seq<char>> {
        seq!["\"match\""@, "\"type\""@, "\"value\""@]
    }

    /// The key columns the full update selects the row by, as its text names them.
    pub open spec fn row_then_id_key_columns() -> Seq<Seq<char>> {
        seq!["\"id\""@]
    }

    /// The full update binds this row's value of each column it sets
    /// (`match`, `type`, `value`), then of each key column
    /// (`id`), in the order the statement names them.
    pub proof fn law_row_then_id_binds_named_columns(self)
        ensures
            Self::row_then_id_set_columns() == seq!["\"match\""@, "\"type\""@, "\"value\""@],
            Self::row_then_id_key_columns() == seq!["\"id\""@],
            self.row_then_id_values().len() == 4,
            self.column_value("match"@) == Some(self.row_then_id_values()[0]),
            self.column_value("type"@) == Some(self.row_then_id_values()[1]),
            self.column_value("value"@) == Some(self.row_then_id_values()[2]),
            self.column_value("id"@) == Some(self.row_then_id_values()[3]),
    {
        reveal_strlit("match");
        assert("match"@.len() == 5 && "match"@[0] == 'm');
        reveal_strlit("type");
        assert("type"@.len() == 4 && "type"@[0] == 't');
        reveal_strlit("value");
        assert("value"@.len() == 5 && "value"@[0] == 'v');
        reveal_strlit("id");
        assert("id"@.len() == 2 && "id"@[0] == 'i');
    }

    /// A batch holds one row of values an item, in the order of the items.
    pub proof fn law_batch_rows_are_the_items_in_order(items: Seq<Self>)
        ensures
            Self::rows_values(items).len() == items.len(),
            forall|i: int| 0 <= i < items.len() ==> #[trigger] Self::rows_values(items)[i] == items[i].row_values(),
    {
    }

    /// What the upsert does on a key conflict, after its `VALUES`.
    pub open spec fn upsert_tail() -> Seq<char> {
        " ON CONFLICT (\"id\") DO UPDATE SET \"match\" = EXCLUDED.\"match\", \"type\" = EXCLUDED.\"type\", \"value\" = EXCLUDED.\"value\""@
    }

    /// On a key conflict the upsert sets each of `match`, `type`, `value` to the
    /// value the new row brings for that same column.
    pub proof fn law_upsert_sets_each_column_from_the_new_row()
        ensures
            Self::upsert_tail() == " ON CONFLICT (\"id\") DO UPDATE SET "@ + excluded_assignment("\"match\""@) + ", "@ + excluded_assignment("\"type\""@) + ", "@ + excluded_assignment("\"value\""@),
    {
        reveal_strlit(" ON CONFLICT (\"id\") DO UPDATE SET \"match\" = EXCLUDED.\"match\", \"type\" = EXCLUDED.\"type\", \"value\" = EXCLUDED.\"value\"");
        reveal_strlit(" ON CONFLICT (\"id\") DO UPDATE SET ");
        reveal_strlit(", ");
        reveal_strlit(" = EXCLUDED.");
        reveal_strlit("\"match\"");
        reveal_strlit("\"type\"");
        reveal_strlit("\"value\"");
    }

    /// The values of this row's columns, in the order the single-row and multi-row writes bind them.
    pub open spec fn row_values(self) -> Seq<BindV> {
        seq![opt_text_v(self.match_), text_v(self.type_), opt_text_v(self.value)]
    }

    /// The values of this row's columns, in the order the single-row and multi-row writes bind them.
    pub fn row(&self) -> (r: Vec<SqlValue>)
        ensures
            r@.map_values(|b: SqlValue| b@) == self.row_values(),
    {
        vec![SqlValue::opt_text(&self.match_), SqlValue::text(&self.type_), SqlValue::opt_text(&self.value)]
    }

    /// The statement that inserts this row, without checking its constraints.
    pub fn insert_unchecked(&self) -> (st: Statement)
        ensures
            st@.sql == values_sql(Self::insert_head(), Placeholder::Numbered, 1, 3, " RETURNING \"id\"::bigint"@),
            st@.binds == self.row_values(),
    {
        Statement { sql: values_text("INSERT INTO \"configurations\" (\"match\", \"type\", \"value\") ", Placeholder::Numbered, 1, 3, " RETURNING \"id\"::bigint"), binds: self.row() }
    }

    /// The statement of `insert_unchecked` when the row passes [`Self::validate`]; the
    /// validation messages joined by `, ` otherwise.
    pub fn insert(&self) -> (r: Result<Statement, String>)
        ensures
            r is Ok <==> self.validation_errors().len() == 0,
            r matches Err(m) ==> m@ == join(self.validation_errors(), seq![',', ' ']),
            r matches Ok(st) ==> st@.sql == values_sql(Self::insert_head(), Placeholder::Numbered, 1, 3, " RETURNING \"id\"::bigint"@) && st@.binds == self.row_values(),
    {
        match self.validate() {
            Ok(()) => Ok(self.insert_unchecked()),
            Err(errors) => Err(joined_errors(&errors)),
        }
    }

    /// The statement of `insert_unchecked` when the row passes [`Self::validate`]; the
    /// validation messages joined by `, ` otherwise.
    pub fn insert_validated(&self) -> (r: Result<Statement, String>)
        ensures
            r is Ok <==> self.validation_errors().len() == 0,
            r matches Err(m) ==> m@ == join(self.validation_errors(), seq![',', ' ']),
            r matches Ok(st) ==> st@.sql == values_sql(Self::insert_head(), Placeholder::Numbered, 1, 3, " RETURNING \"id\"::bigint"@) && st@.binds == self.row_values(),
    {
        match self.validate() {
            Ok(()) => Ok(self.insert_unchecked()),
            Err(errors) => Err(joined_errors(&errors)),
        }
    }

    /// The `COPY` statement of the batch writes.
    pub open spec fn copy_statement() -> Seq<char> {
        "COPY \"configurations\" (\"match\", \"type\", \"value\") FROM STDIN WITH (FORMAT csv)"@
    }

    /// The CSV field this row writes for the column named `column`; `None`
    /// for a name that is not a column.
    pub open spec fn column_field(self, column: Seq<char>) -> Option<CsvFieldV> {
        if column == "match"@ {
            Some(opt_escaped_v(self.match_))
        } else if column == "type"@ {
            Some(escaped_v(self.type_))
        } else if column == "value"@ {
            Some(opt_escaped_v(self.value))
        } else {
            None
        }
    }

    /// A `COPY` batch holds one CSV line an item, in the order of the items.
    pub proof fn law_copy_lines_are_the_items_in_order(items: Seq<Self>)
        ensures
            Self::copy_rows_values(items).len() == items.len(),
            forall|i: int| 0 <= i < items.len() ==> #[trigger] Self::copy_rows_values(items)[i] == items[i].copy_values(),
    {
    }

    /// The `COPY` statement names the columns `match`, `type`, `value` in this
    /// order, and each CSV line holds this row's field for each of them, in
    /// the same order.
    pub proof fn law_copy_fields_follow_named_columns(self)
        ensures
            Self::copy_statement() == "COPY \"configurations\" ("@ + "\"match\""@ + ", "@ + "\"type\""@ + ", "@ + "\"value\""@ + ") FROM STDIN WITH (FORMAT csv)"@,
            self.copy_values().len() == 3,
            self.column_field("match"@) == Some(self.copy_values()[0]),
            self.column_field("type"@) == Some(self.copy_values()[1]),
            self.column_field("value"@) == Some(self.copy_values()[2]),
    {
        reveal_strlit("match");
        assert("match"@.len() == 5 && "match"@[0] == 'm');
        reveal_strlit("type");
        assert("type"@.len() == 4 && "type"@[0] == 't');
        reveal_strlit("value");
        assert("value"@.len() == 5 && "value"@[0] == 'v');
        reveal_strlit("COPY \"configurations\" (\"match\", \"type\", \"value\") FROM STDIN WITH (FORMAT csv)");
        reveal_strlit("COPY \"configurations\" (");
        reveal_strlit("\"match\"");
        reveal_strlit(", ");
        reveal_strlit("\"type\"");
        reveal_strlit("\"value\"");
        reveal_strlit(") FROM STDIN WITH (FORMAT csv)");
    }

    /// This row as the fields of one CSV line of the `COPY` payload.
    pub open spec fn copy_values(self) -> Seq<CsvFieldV> {
        seq![opt_escaped_v(self.match_), escaped_v(self.type_), opt_escaped_v(self.value)]
    }

    /// This row as the fields of one CSV line of the `COPY` payload.
    pub fn copy_row(&self) -> (r: Vec<CsvField>)
        ensures
            r@.map_values(|f: CsvField| f@) == self.copy_values(),
            self.copy_quotes_plain(),
    {
        vec![CsvField::opt_escaped(&self.match_), CsvField::escaped(&self.type_), CsvField::opt_escaped(&self.value)]
    }

    /// Whether the instants and dates of this row, as written, hold no double
    /// quote.
    pub open spec fn copy_quotes_plain(self) -> bool {
        true
    }

    /// Whether the texts this row writes unquoted (numbers held as text)
    /// read back: non-empty, with no comma, line end or quote.
    pub open spec fn copy_texts_readable(self) -> bool {
        true
    }

    proof fn lemma_copy_field_readable(self, k: int)
        requires
            self.copy_quotes_plain(),
            self.copy_texts_readable(),
            0 <= k < 3,
        ensures
            readable(self.copy_values()[k]),
    {
        if k == 0 {
        } else if k == 1 {
        } else if k == 2 {
        }
    }


    /// The CSV fields of each row.
    pub open spec fn copy_rows_values(items: Seq<Self>) -> Seq<Seq<CsvFieldV>> {
        items.map_values(|it: Self| it.copy_values())
    }

    fn copy_rows(items: &[Self]) -> (r: Vec<Vec<CsvField>>)
        ensures
            field_rows_view(r@) == Self::copy_rows_values(items@),
            forall|j: int| 0 <= j < items@.len() ==> (#[trigger] items@[j]).copy_quotes_plain(),
    {
        let mut r: Vec<Vec<CsvField>> = Vec::new();
        let mut i: usize = 0;
        while i < items.len()
            invariant
                0 <= i <= items.len(),
                field_rows_view(r@) == Self::copy_rows_values(items@.take(i as int)),
                forall|j: int| 0 <= j < i ==> (#[trigger] items@[j]).copy_quotes_plain(),
            decreases items.len() - i,
        {
            let row = items[i].copy_row();
            let ghost prev = r@;
            r.push(row);
            proof {
                assert(r@ =~= prev.push(row));
                assert(field_rows_view(r@) =~= field_rows_view(prev).push(row@.map_values(|f: CsvField| f@)));
                assert(items@.take(i + 1) =~= items@.take(i as int).push(items@[i as int]));
                assert(Self::copy_rows_values(items@.take(i + 1))
                    =~= Self::copy_rows_values(items@.take(i as int)).push(items@[i as int].copy_values()));
            }
            i = i + 1;
        }
        assert(items@.take(items.len() as int) =~= items@);
        r
    }

    /// The `COPY ... FROM STDIN WITH (FORMAT csv)` statement for the given rows
    /// and the payloads to send: the rows in pieces of 1000, each payload sent as soon as it passes 10 MiB; none for no rows.
    pub fn insert_batch(items: &[Self]) -> (plan: Option<CopyPlan>)
        ensures
            plan is None <==> items@.len() == 0,
            plan matches Some(c) ==> c.statement@ == Self::copy_statement()
                && c.payloads@.map_values(|s: String| s@) == payloads(Self::copy_rows_values(items@), 1000, Some(10485760)),
            plan matches Some(c) ==> ((forall|j: int| 0 <= j < items@.len() ==> (#[trigger] items@[j]).copy_texts_readable())
                ==> read_records(concat(c.payloads@.map_values(|s: String| s@))) == Some(Self::copy_rows_values(items@)
                    .map_values(|r: Seq<CsvFieldV>| r.map_values(|f: CsvFieldV| field_value(f))))),
    {
        if items.len() == 0 {
            return None;
        }
        let rows = Self::copy_rows(items);
        proof {
            if forall|j: int| 0 <= j < items@.len() ==> (#[trigger] items@[j]).copy_texts_readable() {
                let vals = Self::copy_rows_values(items@);
                assert forall|i: int| 0 <= i < vals.len() implies (#[trigger] vals[i]).len() > 0 by {
                    assert(vals[i] == items@[i].copy_values());
                }
                assert forall|i: int, k: int| 0 <= i < vals.len() && 0 <= k < vals[i].len() implies readable(#[trigger] vals[i][k]) by {
                    assert(vals[i] == items@[i].copy_values());
                    items@[i].lemma_copy_field_readable(k);
                }
                law_copy_payloads_read_back(vals, 1000, Some(10485760));
            }
        }
        Some(CopyPlan { statement: "COPY \"configurations\" (\"match\", \"type\", \"value\") FROM STDIN WITH (FORMAT csv)".to_owned(), payloads: copy_payloads(&rows, 1000, Some(10485760)) })
    }

    /// The statement that inserts this row or, on a key conflict, updates it.
    pub fn upsert(&self) -> (st: Statement)
        ensures
            st@.sql == values_sql(Self::insert_head(), Placeholder::Numbered, 1, 3, Self::upsert_tail()),
            st@.binds == self.row_values(),
    {
        Statement { sql: values_text("INSERT INTO \"configurations\" (\"match\", \"type\", \"value\") ", Placeholder::Numbered, 1, 3, " ON CONFLICT (\"id\") DO UPDATE SET \"match\" = EXCLUDED.\"match\", \"type\" = EXCLUDED.\"type\", \"value\" = EXCLUDED.\"value\""), binds: self.row() }
    }

    /// The statement of `upsert` when the row passes [`Self::validate`]; the
    /// validation messages joined by `, ` otherwise.
    pub fn upsert_validated(&self) -> (r: Result<Statement, String>)
        ensures
            r is Ok <==> self.validation_errors().len() == 0,
            r matches Err(m) ==> m@ == join(self.validation_errors(), seq![',', ' ']),
            r matches Ok(st) ==> st@.sql == values_sql(Self::insert_head(), Placeholder::Numbered, 1, 3, Self::upsert_tail()) && st@.binds == self.row_values(),
    {
        match self.validate() {
            Ok(()) => Ok(self.upsert()),
            Err(errors) => Err(joined_errors(&errors)),
        }
    }

    /// The values of each row, in statement order.
    pub open spec fn rows_values(items: Seq<Self>) -> Seq<Seq<BindV>> {
        items.map_values(|it: Self| it.row_values())
    }

    /// The values of each row, in statement order.
    pub fn rows(items: &[Self]) -> (r: Vec<Vec<SqlValue>>)
        ensures
            rows_view(r@) == Self::rows_values(items@),
    {
        let mut r: Vec<Vec<SqlValue>> = Vec::new();
        let mut i: usize = 0;
        while i < items.len()
            invariant
                0 <= i <= items.len(),
                rows_view(r@) == Self::rows_values(items@.take(i as int)),
            decreases items.len() - i,
        {
            let row = items[i].row();
            let ghost prev = r@;
            r.push(row);
            proof {
                assert(r@ =~= prev.push(row));
                assert(rows_view(r@) =~= rows_view(prev).push(row@.map_values(|b: SqlValue| b@)));
                assert(items@.take(i + 1) =~= items@.take(i as int).push(items@[i as int]));
                assert(Self::rows_values(items@.take(i + 1))
                    =~= Self::rows_values(items@.take(i as int)).push(items@[i as int].row_values()));
            }
            i = i + 1;
        }
        assert(items@.take(items.len() as int) =~= items@);
        r
    }

    /// The multi-row statements that write the given rows, pieces of at most 21845 rows; no
    /// statement for no rows.
    pub fn upsert_batch(items: &[Self]) -> (plan: Vec<Statement>)
        ensures
            plan@.len() == chunks(Self::rows_values(items@), 21845 as nat).len(),
            forall|k: int| 0 <= k < plan@.len() ==> (#[trigger] plan@[k])@ == values_piece(
                Self::insert_head(), Self::upsert_tail(), Placeholder::Numbered, 3, chunks(Self::rows_values(items@), 21845 as nat)[k]),
            forall|k: int| 0 <= k < plan@.len() ==> (#[trigger] plan@[k])@.binds.len() <= 65535,
    {
        let rows = Self::rows(items);
        assert(rows_view(rows@).len() == items@.len());
        assert(rows_view(rows@).len() == rows@.len());
        assert forall|j: int| 0 <= j < rows@.len() implies (#[trigger] rows_view(rows@)[j]).len() == 3 by {
            assert(Self::rows_values(items@)[j] == items@[j].row_values());
            assert(rows_view(rows@)[j] == items@[j].row_values());
        }
        values_plan("INSERT INTO \"configurations\" (\"match\", \"type\", \"value\") ", " ON CONFLICT (\"id\") DO UPDATE SET \"match\" = EXCLUDED.\"match\", \"type\" = EXCLUDED.\"type\", \"value\" = EXCLUDED.\"value\"", Placeholder::Numbered, 3, 21845, &rows)
    }

    /// The values of this row's columns and then of its key columns, in the order the full update binds them.
    pub open spec fn row_then_id_values(self) -> Seq<BindV> {
        seq![opt_text_v(self.match_), text_v(self.type_), opt_text_v(self.value), BindV::Int(Some(self.id))]
    }

    /// The values of this row's columns and then of its key columns, in the order the full update binds them.
    pub fn row_then_id(&self) -> (r: Vec<SqlValue>)
        ensures
            r@.map_values(|b: SqlValue| b@) == self.row_then_id_values(),
    {
        vec![SqlValue::opt_text(&self.match_), SqlValue::text(&self.type_), SqlValue::opt_text(&self.value), SqlValue::Int(Some(self.id))]
    }

    /// The statement that writes every column of this row, selected by its key.
    pub fn update_by_id(&self) -> (st: Statement)
        ensures
            st@.sql == update_sql("UPDATE \"configurations\" SET "@, Self::row_then_id_set_columns(), Self::row_then_id_key_columns(), Placeholder::Numbered),
            st@.binds == self.row_then_id_values(),
    {
        let set: Vec<&str> = vec!["\"match\"", "\"type\"", "\"value\""];
        let keys: Vec<&str> = vec!["\"id\""];
        proof {
            assert(set@.map_values(|n: &str| n@) =~= seq!["\"match\""@, "\"type\""@, "\"value\""@]);
            assert(keys@.map_values(|n: &str| n@) =~= seq!["\"id\""@]);
        }
        Statement { sql: update_text("UPDATE \"configurations\" SET ", &set, &keys, Placeholder::Numbered), binds: self.row_then_id() }
    }

    /// The statement of `update_by_id` when the row passes [`Self::validate`]; the
    /// validation messages joined by `, ` otherwise.
    pub fn update_validated_by_id(&self) -> (r: Result<Statement, String>)
        ensures
            r is Ok <==> self.validation_errors().len() == 0,
            r matches Err(m) ==> m@ == join(self.validation_errors(), seq![',', ' ']),
            r matches Ok(st) ==> st@.sql == update_sql("UPDATE \"configurations\" SET "@, seq!["\"match\""@, "\"type\""@, "\"value\""@], seq!["\"id\""@], Placeholder::Numbered) && st@.binds == self.row_then_id_values(),
    {
        match self.validate() {
            Ok(()) => Ok(self.update_by_id()),
            Err(errors) => Err(joined_errors(&errors)),
        }
    }

    /// The statement that deletes the rows with the given key.
    pub fn delete_by_id(id: i32) -> (st: Statement)
        ensures
            st@.sql == "DELETE FROM \"configurations\" WHERE \"id\" = $1"@,
            st@.binds == seq![BindV::Int(Some(id))],
    {
        Statement::new("DELETE FROM \"configurations\" WHERE \"id\" = $1", vec![SqlValue::Int(Some(id))])
    }

    /// The statements that delete the rows with the given keys, pieces of at most 5000 keys;
    /// no statement for no keys.
    pub fn delete_many_by_id(ids: &[i32]) -> (plan: Vec<Statement>)
        ensures
            plan@.len() == chunks(ids@.map_values(|x: i32| BindV::Int(Some(x))), 5000 as nat).len(),
            forall|k: int| 0 <= k < plan@.len() ==> (#[trigger] plan@[k])@ == in_list_piece(
                "DELETE FROM \"configurations\" WHERE \"id\" IN "@, Placeholder::Numbered, chunks(ids@.map_values(|x: i32| BindV::Int(Some(x))), 5000 as nat)[k]),
    {
        let values = values_of_i32(ids);
        in_list_plan("DELETE FROM \"configurations\" WHERE \"id\" IN ", Placeholder::Numbered, 5000, &values)
    }

    /// The columns the patch sets and their values, in column order.
    fn update_partial_by_id_assignments(patch: &ConfigurationsPatch) -> (r: (Vec<&'static str>, Vec<SqlValue>))
        ensures
            r.0@.map_values(|n: &str| n@) == Self::update_partial_by_id_columns(*patch),
            r.1@.map_values(|b: SqlValue| b@) == Self::update_partial_by_id_values(*patch),
            r.0@.len() <= 3,
    {
        let mut set: Vec<&'static str> = Vec::new();
        let mut binds: Vec<SqlValue> = Vec::new();
        assert(set@.map_values(|n: &str| n@) =~= Seq::<Seq<char>>::empty());
        assert(binds@.map_values(|b: SqlValue| b@) =~= Seq::<BindV>::empty());
        let value = match &patch.match_ {
            Some(v) => Some(SqlValue::opt_text(v)),
            None => None,
        };
        push_assignment(&mut set, &mut binds, "\"match\"", value);
        let value = match &patch.type_ {
            Some(v) => Some(SqlValue::text(v)),
            None => None,
        };
        push_assignment(&mut set, &mut binds, "\"type\"", value);
        let value = match &patch.value {
            Some(v) => Some(SqlValue::opt_text(v)),
            None => None,
        };
        push_assignment(&mut set, &mut binds, "\"value\"", value);
        (set, binds)
    }

    /// The statement that writes only the columns the patch sets, on the row
    /// with the given key; none when the patch sets no column.
    pub fn update_partial_by_id(id: i32, patch: &ConfigurationsPatch) -> (r: Option<Statement>)
        ensures
            r is None <==> Self::update_partial_by_id_columns(*patch).len() == 0,
            r matches Some(st) ==> st@.sql == update_sql("UPDATE \"configurations\" SET "@, Self::update_partial_by_id_columns(*patch), seq!["\"id\""@], Placeholder::Numbered)
                && st@.binds == Self::update_partial_by_id_values(*patch) + seq![BindV::Int(Some(id))],
    {
        let (set, mut binds) = Self::update_partial_by_id_assignments(patch);
        if set.len() == 0 {
            return None;
        }
        let ghost vals = binds@.map_values(|b: SqlValue| b@);
        binds.push(SqlValue::Int(Some(id)));
        let keys: Vec<&str> = vec!["\"id\""];
        proof {
            assert(keys@.map_values(|n: &str| n@) =~= seq!["\"id\""@]);
            assert(binds@.map_values(|b: SqlValue| b@) =~= vals + seq![BindV::Int(Some(id))]);
        }
        Some(Statement { sql: update_text("UPDATE \"configurations\" SET ", &set, &keys, Placeholder::Numbered), binds })
    }

    /// The columns a patch assigns, in column order.
    pub open spec fn update_partial_by_id_columns(p: ConfigurationsPatch) -> Seq<Seq<char>> {
        Seq::empty()
            + assigned_column(p.match_, "\"match\""@)
            + assigned_column(p.type_, "\"type\""@)
            + assigned_column(p.value, "\"value\""@)
    }

    /// The values a patch assigns, in column order.
    pub open spec fn update_partial_by_id_values(p: ConfigurationsPatch) -> Seq<BindV> {
        Seq::empty()
            + (match p.match_ { Some(v) => seq![opt_text_v(v)], None => Seq::empty() })
            + (match p.type_ { Some(v) => seq![text_v(v)], None => Seq::empty() })
            + (match p.value { Some(v) => seq![opt_text_v(v)], None => Seq::empty() })
    }

    /// A partial update binds one value for each column it assigns, so its
    /// placeholders and its values always match in number.
    pub proof fn law_update_partial_by_id_one_value_per_column(patch: ConfigurationsPatch)
        ensures
            Self::update_partial_by_id_columns(patch).len() == Self::update_partial_by_id_values(patch).len(),
    {
    }

    /// A patch that sets every column to the values of `row`, applied to the
    /// row's key, gives the statement that `update_by_id` gives for the row: the
    /// same text and the same values.
    pub proof fn law_full_patch_matches_update_by_id(row: Self, patch: ConfigurationsPatch)
        requires
            patch.match_ == Some(row.match_),
            patch.type_ == Some(row.type_),
            patch.value == Some(row.value),
        ensures
            update_sql("UPDATE \"configurations\" SET "@, Self::update_partial_by_id_columns(patch), seq!["\"id\""@], Placeholder::Numbered)
                == update_sql("UPDATE \"configurations\" SET "@, seq!["\"match\""@, "\"type\""@, "\"value\""@], seq!["\"id\""@], Placeholder::Numbered),
            Self::update_partial_by_id_values(patch) + seq![BindV::Int(Some(row.id))] == row.row_then_id_values(),
    {
        assert(Self::update_partial_by_id_columns(patch) =~= seq!["\"match\""@, "\"type\""@, "\"value\""@]);
        assert(Self::update_partial_by_id_values(patch) + seq![BindV::Int(Some(row.id))] =~= row.row_then_id_values());
    }
}

} // verus!

