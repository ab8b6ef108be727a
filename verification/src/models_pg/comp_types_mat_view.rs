//! The `comp_types_mat_view` table (PostgreSQL dialect): rows, orderings, constraints and statements.
use vstd::prelude::*;
use crate::value::{SqlValue, BindV, Statement, UtcTimestamp, CalendarDate, opt_text_v, opt_bytes_v, opt_chars};
use crate::sql::{Placeholder, values_sql, values_text};
use crate::copy::{CsvField, CsvFieldV, CopyPlan, copy_payloads, payloads, field_rows_view, opt_escaped_v, int_v, opt_int_v, opt_bool_v, opt_bare_v, opt_utc_v, opt_date_v, utc_writable, date_writable, opt_quoted_hex_v, quoted_plain};
use crate::csv_read::{readable, read_records, field_value, law_copy_payloads_read_back, lemma_int_v_readable, lemma_opt_int_v_readable, lemma_opt_bool_v_readable};
use crate::validation::{error_if, format_error, errors_view, check_min, check_max, outcome, joined_errors, validation_result, when_some, check_format_opt, check_min_opt_i32, check_max_opt_i32, lemma_contains_concat, lemma_error_if_reports, lemma_format_error_reports, regex_match};
use crate::paging::{row_limit, clamp};
use crate::text::{join, concat};

verus! {

/// A row of `comp_types_mat_view`.
#[derive(Clone, Debug)]
pub struct CompTypesMatView {
    pub f_blob: Option<Vec<u8>>,
    pub f_bool: Option<bool>,
    pub f_date: Option<CalendarDate>,
    pub f_datetime: Option<UtcTimestamp>,
    pub f_decimal: Option<String>,
    pub f_double: Option<String>,
    pub f_float: Option<String>,
    pub f_int: Option<i32>,
    pub f_json: Option<String>,
    pub f_text: Option<String>,
    pub f_timestamp: Option<UtcTimestamp>,
    pub f_varchar: Option<String>,
    pub id: i64,
}

/// A column and a direction to order listings by.
#[derive(Clone, Copy, Debug, PartialEq, Eq, Structural)]
pub enum CompTypesMatViewOrderBy {
    FBlobAsc,
    FBlobDesc,
    FBoolAsc,
    FBoolDesc,
    FDateAsc,
    FDateDesc,
    FDatetimeAsc,
    FDatetimeDesc,
    FDecimalAsc,
    FDecimalDesc,
    FDoubleAsc,
    FDoubleDesc,
    FFloatAsc,
    FFloatDesc,
    FIntAsc,
    FIntDesc,
    FJsonAsc,
    FJsonDesc,
    FTextAsc,
    FTextDesc,
    FTimestampAsc,
    FTimestampDesc,
    FVarcharAsc,
    FVarcharDesc,
    IdAsc,
    IdDesc,
}

impl CompTypesMatViewOrderBy {
    /// The `ORDER BY` term of this ordering.
    pub open spec fn term(self) -> Seq<char> {
        match self {
            CompTypesMatViewOrderBy::FBlobAsc => "\"f_blob\" ASC"@,
            CompTypesMatViewOrderBy::FBlobDesc => "\"f_blob\" DESC"@,
            CompTypesMatViewOrderBy::FBoolAsc => "\"f_bool\" ASC"@,
            CompTypesMatViewOrderBy::FBoolDesc => "\"f_bool\" DESC"@,
            CompTypesMatViewOrderBy::FDateAsc => "\"f_date\" ASC"@,
            CompTypesMatViewOrderBy::FDateDesc => "\"f_date\" DESC"@,
            CompTypesMatViewOrderBy::FDatetimeAsc => "\"f_datetime\" ASC"@,
            CompTypesMatViewOrderBy::FDatetimeDesc => "\"f_datetime\" DESC"@,
            CompTypesMatViewOrderBy::FDecimalAsc => "\"f_decimal\" ASC"@,
            CompTypesMatViewOrderBy::FDecimalDesc => "\"f_decimal\" DESC"@,
            CompTypesMatViewOrderBy::FDoubleAsc => "\"f_double\" ASC"@,
            CompTypesMatViewOrderBy::FDoubleDesc => "\"f_double\" DESC"@,
            CompTypesMatViewOrderBy::FFloatAsc => "\"f_float\" ASC"@,
            CompTypesMatViewOrderBy::FFloatDesc => "\"f_float\" DESC"@,
            CompTypesMatViewOrderBy::FIntAsc => "\"f_int\" ASC"@,
            CompTypesMatViewOrderBy::FIntDesc => "\"f_int\" DESC"@,
            CompTypesMatViewOrderBy::FJsonAsc => "\"f_json\" ASC"@,
            CompTypesMatViewOrderBy::FJsonDesc => "\"f_json\" DESC"@,
            CompTypesMatViewOrderBy::FTextAsc => "\"f_text\" ASC"@,
            CompTypesMatViewOrderBy::FTextDesc => "\"f_text\" DESC"@,
            CompTypesMatViewOrderBy::FTimestampAsc => "\"f_timestamp\" ASC"@,
            CompTypesMatViewOrderBy::FTimestampDesc => "\"f_timestamp\" DESC"@,
            CompTypesMatViewOrderBy::FVarcharAsc => "\"f_varchar\" ASC"@,
            CompTypesMatViewOrderBy::FVarcharDesc => "\"f_varchar\" DESC"@,
            CompTypesMatViewOrderBy::IdAsc => "\"id\" ASC"@,
            CompTypesMatViewOrderBy::IdDesc => "\"id\" DESC"@,
        }
    }

    /// An ordering sorts by the column its name says, ascending for an
    /// `...Asc` ordering and descending for a `...Desc` one: its term is that
    /// column, then `ASC` or `DESC`.
    pub proof fn law_term_names_column_and_direction(self)
        ensures
            (self is FBlobAsc || self is FBlobDesc) ==> self.term() == "\"f_blob\""@ + (if self is FBlobDesc { " DESC"@ } else { " ASC"@ }),
            (self is FBoolAsc || self is FBoolDesc) ==> self.term() == "\"f_bool\""@ + (if self is FBoolDesc { " DESC"@ } else { " ASC"@ }),
            (self is FDateAsc || self is FDateDesc) ==> self.term() == "\"f_date\""@ + (if self is FDateDesc { " DESC"@ } else { " ASC"@ }),
            (self is FDatetimeAsc || self is FDatetimeDesc) ==> self.term() == "\"f_datetime\""@ + (if self is FDatetimeDesc { " DESC"@ } else { " ASC"@ }),
            (self is FDecimalAsc || self is FDecimalDesc) ==> self.term() == "\"f_decimal\""@ + (if self is FDecimalDesc { " DESC"@ } else { " ASC"@ }),
            (self is FDoubleAsc || self is FDoubleDesc) ==> self.term() == "\"f_double\""@ + (if self is FDoubleDesc { " DESC"@ } else { " ASC"@ }),
            (self is FFloatAsc || self is FFloatDesc) ==> self.term() == "\"f_float\""@ + (if self is FFloatDesc { " DESC"@ } else { " ASC"@ }),
            (self is FIntAsc || self is FIntDesc) ==> self.term() == "\"f_int\""@ + (if self is FIntDesc { " DESC"@ } else { " ASC"@ }),
            (self is FJsonAsc || self is FJsonDesc) ==> self.term() == "\"f_json\""@ + (if self is FJsonDesc { " DESC"@ } else { " ASC"@ }),
            (self is FTextAsc || self is FTextDesc) ==> self.term() == "\"f_text\""@ + (if self is FTextDesc { " DESC"@ } else { " ASC"@ }),
            (self is FTimestampAsc || self is FTimestampDesc) ==> self.term() == "\"f_timestamp\""@ + (if self is FTimestampDesc { " DESC"@ } else { " ASC"@ }),
            (self is FVarcharAsc || self is FVarcharDesc) ==> self.term() == "\"f_varchar\""@ + (if self is FVarcharDesc { " DESC"@ } else { " ASC"@ }),
            (self is IdAsc || self is IdDesc) ==> self.term() == "\"id\""@ + (if self is IdDesc { " DESC"@ } else { " ASC"@ }),
    {
        reveal_strlit("\"f_blob\" ASC");
        reveal_strlit("f_blob");
        reveal_strlit("\"f_blob\" DESC");
        reveal_strlit("\"f_bool\" ASC");
        reveal_strlit("f_bool");
        reveal_strlit("\"f_bool\" DESC");
        reveal_strlit("\"f_date\" ASC");
        reveal_strlit("f_date");
        reveal_strlit("\"f_date\" DESC");
        reveal_strlit("\"f_datetime\" ASC");
        reveal_strlit("f_datetime");
        reveal_strlit("\"f_datetime\" DESC");
        reveal_strlit("\"f_decimal\" ASC");
        reveal_strlit("f_decimal");
        reveal_strlit("\"f_decimal\" DESC");
        reveal_strlit("\"f_double\" ASC");
        reveal_strlit("f_double");
        reveal_strlit("\"f_double\" DESC");
        reveal_strlit("\"f_float\" ASC");
        reveal_strlit("f_float");
        reveal_strlit("\"f_float\" DESC");
        reveal_strlit("\"f_int\" ASC");
        reveal_strlit("f_int");
        reveal_strlit("\"f_int\" DESC");
        reveal_strlit("\"f_json\" ASC");
        reveal_strlit("f_json");
        reveal_strlit("\"f_json\" DESC");
        reveal_strlit("\"f_text\" ASC");
        reveal_strlit("f_text");
        reveal_strlit("\"f_text\" DESC");
        reveal_strlit("\"f_timestamp\" ASC");
        reveal_strlit("f_timestamp");
        reveal_strlit("\"f_timestamp\" DESC");
        reveal_strlit("\"f_varchar\" ASC");
        reveal_strlit("f_varchar");
        reveal_strlit("\"f_varchar\" DESC");
        reveal_strlit("\"id\" ASC");
        reveal_strlit("id");
        reveal_strlit("\"id\" DESC");
        reveal_strlit("\"f_blob\"");
        reveal_strlit("\"f_bool\"");
        reveal_strlit("\"f_date\"");
        reveal_strlit("\"f_datetime\"");
        reveal_strlit("\"f_decimal\"");
        reveal_strlit("\"f_double\"");
        reveal_strlit("\"f_float\"");
        reveal_strlit("\"f_int\"");
        reveal_strlit("\"f_json\"");
        reveal_strlit("\"f_text\"");
        reveal_strlit("\"f_timestamp\"");
        reveal_strlit("\"f_varchar\"");
        reveal_strlit("\"id\"");
        reveal_strlit(" ASC");
        reveal_strlit(" DESC");
    }

    /// The `ORDER BY` term of this ordering.
    pub fn as_str(&self) -> (s: &'static str)
        ensures
            s@ == self.term(),
    {
        match self {
            CompTypesMatViewOrderBy::FBlobAsc => "\"f_blob\" ASC",
            CompTypesMatViewOrderBy::FBlobDesc => "\"f_blob\" DESC",
            CompTypesMatViewOrderBy::FBoolAsc => "\"f_bool\" ASC",
            CompTypesMatViewOrderBy::FBoolDesc => "\"f_bool\" DESC",
            CompTypesMatViewOrderBy::FDateAsc => "\"f_date\" ASC",
            CompTypesMatViewOrderBy::FDateDesc => "\"f_date\" DESC",
            CompTypesMatViewOrderBy::FDatetimeAsc => "\"f_datetime\" ASC",
            CompTypesMatViewOrderBy::FDatetimeDesc => "\"f_datetime\" DESC",
            CompTypesMatViewOrderBy::FDecimalAsc => "\"f_decimal\" ASC",
            CompTypesMatViewOrderBy::FDecimalDesc => "\"f_decimal\" DESC",
            CompTypesMatViewOrderBy::FDoubleAsc => "\"f_double\" ASC",
            CompTypesMatViewOrderBy::FDoubleDesc => "\"f_double\" DESC",
            CompTypesMatViewOrderBy::FFloatAsc => "\"f_float\" ASC",
            CompTypesMatViewOrderBy::FFloatDesc => "\"f_float\" DESC",
            CompTypesMatViewOrderBy::FIntAsc => "\"f_int\" ASC",
            CompTypesMatViewOrderBy::FIntDesc => "\"f_int\" DESC",
            CompTypesMatViewOrderBy::FJsonAsc => "\"f_json\" ASC",
            CompTypesMatViewOrderBy::FJsonDesc => "\"f_json\" DESC",
            CompTypesMatViewOrderBy::FTextAsc => "\"f_text\" ASC",
            CompTypesMatViewOrderBy::FTextDesc => "\"f_text\" DESC",
            CompTypesMatViewOrderBy::FTimestampAsc => "\"f_timestamp\" ASC",
            CompTypesMatViewOrderBy::FTimestampDesc => "\"f_timestamp\" DESC",
            CompTypesMatViewOrderBy::FVarcharAsc => "\"f_varchar\" ASC",
            CompTypesMatViewOrderBy::FVarcharDesc => "\"f_varchar\" DESC",
            CompTypesMatViewOrderBy::IdAsc => "\"id\" ASC",
            CompTypesMatViewOrderBy::IdDesc => "\"id\" DESC",
        }
    }

    /// Different orderings have different terms: a term names one column and
    /// one direction.
    pub proof fn law_terms_are_distinct(a: Self, b: Self)
        ensures
            a.term() == b.term() ==> a == b,
    {
        reveal_strlit("\"f_blob\" ASC");
        assert("\"f_blob\" ASC"@.len() == 12 && "\"f_blob\" ASC"@[3] == 'b' && "\"f_blob\" ASC"@[4] == 'l');
        reveal_strlit("\"f_blob\" DESC");
        assert("\"f_blob\" DESC"@.len() == 13 && "\"f_blob\" DESC"@[3] == 'b' && "\"f_blob\" DESC"@[4] == 'l');
        reveal_strlit("\"f_bool\" ASC");
        assert("\"f_bool\" ASC"@.len() == 12 && "\"f_bool\" ASC"@[3] == 'b' && "\"f_bool\" ASC"@[4] == 'o');
        reveal_strlit("\"f_bool\" DESC");
        assert("\"f_bool\" DESC"@.len() == 13 && "\"f_bool\" DESC"@[3] == 'b' && "\"f_bool\" DESC"@[4] == 'o');
        reveal_strlit("\"f_date\" ASC");
        assert("\"f_date\" ASC"@.len() == 12 && "\"f_date\" ASC"@[3] == 'd' && "\"f_date\" ASC"@[4] == 'a');
        reveal_strlit("\"f_date\" DESC");
        assert("\"f_date\" DESC"@.len() == 13 && "\"f_date\" DESC"@[3] == 'd' && "\"f_date\" DESC"@[4] == 'a');
        reveal_strlit("\"f_datetime\" ASC");
        assert("\"f_datetime\" ASC"@.len() == 16 && "\"f_datetime\" ASC"@[3] == 'd' && "\"f_datetime\" ASC"@[4] == 'a');
        reveal_strlit("\"f_datetime\" DESC");
        assert("\"f_datetime\" DESC"@.len() == 17 && "\"f_datetime\" DESC"@[3] == 'd' && "\"f_datetime\" DESC"@[4] == 'a');
        reveal_strlit("\"f_decimal\" ASC");
        assert("\"f_decimal\" ASC"@.len() == 15 && "\"f_decimal\" ASC"@[3] == 'd' && "\"f_decimal\" ASC"@[4] == 'e');
        reveal_strlit("\"f_decimal\" DESC");
        assert("\"f_decimal\" DESC"@.len() == 16 && "\"f_decimal\" DESC"@[3] == 'd' && "\"f_decimal\" DESC"@[4] == 'e');
        reveal_strlit("\"f_double\" ASC");
        assert("\"f_double\" ASC"@.len() == 14 && "\"f_double\" ASC"@[3] == 'd' && "\"f_double\" ASC"@[4] == 'o');
        reveal_strlit("\"f_double\" DESC");
        assert("\"f_double\" DESC"@.len() == 15 && "\"f_double\" DESC"@[3] == 'd' && "\"f_double\" DESC"@[4] == 'o');
        reveal_strlit("\"f_float\" ASC");
        assert("\"f_float\" ASC"@.len() == 13 && "\"f_float\" ASC"@[3] == 'f' && "\"f_float\" ASC"@[4] == 'l');
        reveal_strlit("\"f_float\" DESC");
        assert("\"f_float\" DESC"@.len() == 14 && "\"f_float\" DESC"@[3] == 'f' && "\"f_float\" DESC"@[4] == 'l');
        reveal_strlit("\"f_int\" ASC");
        assert("\"f_int\" ASC"@.len() == 11 && "\"f_int\" ASC"@[3] == 'i' && "\"f_int\" ASC"@[4] == 'n');
        reveal_strlit("\"f_int\" DESC");
        assert("\"f_int\" DESC"@.len() == 12 && "\"f_int\" DESC"@[3] == 'i' && "\"f_int\" DESC"@[4] == 'n');
        reveal_strlit("\"f_json\" ASC");
        assert("\"f_json\" ASC"@.len() == 12 && "\"f_json\" ASC"@[3] == 'j' && "\"f_json\" ASC"@[4] == 's');
        reveal_strlit("\"f_json\" DESC");
        assert("\"f_json\" DESC"@.len() == 13 && "\"f_json\" DESC"@[3] == 'j' && "\"f_json\" DESC"@[4] == 's');
        reveal_strlit("\"f_text\" ASC");
        assert("\"f_text\" ASC"@.len() == 12 && "\"f_text\" ASC"@[3] == 't' && "\"f_text\" ASC"@[4] == 'e');
        reveal_strlit("\"f_text\" DESC");
        assert("\"f_text\" DESC"@.len() == 13 && "\"f_text\" DESC"@[3] == 't' && "\"f_text\" DESC"@[4] == 'e');
        reveal_strlit("\"f_timestamp\" ASC");
        assert("\"f_timestamp\" ASC"@.len() == 17 && "\"f_timestamp\" ASC"@[3] == 't' && "\"f_timestamp\" ASC"@[4] == 'i');
        reveal_strlit("\"f_timestamp\" DESC");
        assert("\"f_timestamp\" DESC"@.len() == 18 && "\"f_timestamp\" DESC"@[3] == 't' && "\"f_timestamp\" DESC"@[4] == 'i');
        reveal_strlit("\"f_varchar\" ASC");
        assert("\"f_varchar\" ASC"@.len() == 15 && "\"f_varchar\" ASC"@[3] == 'v' && "\"f_varchar\" ASC"@[4] == 'a');
        reveal_strlit("\"f_varchar\" DESC");
        assert("\"f_varchar\" DESC"@.len() == 16 && "\"f_varchar\" DESC"@[3] == 'v' && "\"f_varchar\" DESC"@[4] == 'a');
        reveal_strlit("\"id\" ASC");
        assert("\"id\" ASC"@.len() == 8 && "\"id\" ASC"@[3] == '"' && "\"id\" ASC"@[4] == ' ');
        reveal_strlit("\"id\" DESC");
        assert("\"id\" DESC"@.len() == 9 && "\"id\" DESC"@[3] == '"' && "\"id\" DESC"@[4] == ' ');
    }
}


impl CompTypesMatView {
    /// The constraint violations of this row, in the order the checks run.
    pub open spec fn validation_errors(self) -> Seq<Seq<char>> {
        Seq::empty()
            + when_some(self.f_decimal, |v: String| format_error("^[\u{c0}-\u{ff}A-Za-z0-9_ -]*$"@, v@, "f_decimal: format constraint not met"@, "f_decimal: configured regex is invalid"@))
            + when_some(self.f_int, |v: i32| error_if((v as int) < 0, "f_int: minimum value '0' not met"@))
            + when_some(self.f_int, |v: i32| error_if((v as int) > 2147483647, "f_int: maximum value '2147483647' exceeded"@))
            + when_some(self.f_json, |v: String| format_error("^[\u{c0}-\u{ff}A-Za-z0-9_ -]*$"@, v@, "f_json: format constraint not met"@, "f_json: configured regex is invalid"@))
            + when_some(self.f_text, |v: String| format_error("^[\u{c0}-\u{ff}A-Za-z0-9_ -]*$"@, v@, "f_text: format constraint not met"@, "f_text: configured regex is invalid"@))
            + when_some(self.f_varchar, |v: String| format_error("^[\u{c0}-\u{ff}A-Za-z0-9_ -]*$"@, v@, "f_varchar: format constraint not met"@, "f_varchar: configured regex is invalid"@))
            + error_if((self.id as int) < 0, "id: minimum value '0' not met"@)
            + error_if((self.id as int) > 9223372036854775807, "id: maximum value '9223372036854775807' exceeded"@)
    }

    /// The constraints of `f_decimal` are checked: a value that breaks one gets
    /// that constraint's message.
    pub proof fn law_f_decimal_constraints_are_reported(self)
        ensures
            self.f_decimal matches Some(v) ==> (regex_match("^[\u{c0}-\u{ff}A-Za-z0-9_ -]*$"@, v@) == Some(false) ==> self.validation_errors().contains("f_decimal: format constraint not met"@)),
            self.f_decimal matches Some(v) ==> (regex_match("^[\u{c0}-\u{ff}A-Za-z0-9_ -]*$"@, v@) is None ==> self.validation_errors().contains("f_decimal: configured regex is invalid"@)),
    {
        assert(self.f_decimal matches Some(v) ==> (regex_match("^[\u{c0}-\u{ff}A-Za-z0-9_ -]*$"@, v@) == Some(false) ==> self.validation_errors().contains("f_decimal: format constraint not met"@))) by {
            broadcast use lemma_contains_concat;
            if let Some(v) = self.f_decimal {
                lemma_format_error_reports("^[\u{c0}-\u{ff}A-Za-z0-9_ -]*$"@, v@, "f_decimal: format constraint not met"@, "f_decimal: configured regex is invalid"@);
            }
        }
        assert(self.f_decimal matches Some(v) ==> (regex_match("^[\u{c0}-\u{ff}A-Za-z0-9_ -]*$"@, v@) is None ==> self.validation_errors().contains("f_decimal: configured regex is invalid"@))) by {
            broadcast use lemma_contains_concat;
            if let Some(v) = self.f_decimal {
                lemma_format_error_reports("^[\u{c0}-\u{ff}A-Za-z0-9_ -]*$"@, v@, "f_decimal: format constraint not met"@, "f_decimal: configured regex is invalid"@);
            }
        }
    }

    /// The constraints of `f_int` are checked: a value that breaks one gets
    /// that constraint's message.
    pub proof fn law_f_int_constraints_are_reported(self)
        ensures
            self.f_int matches Some(v) ==> ((v as int) < 0 ==> self.validation_errors().contains("f_int: minimum value '0' not met"@)),
            self.f_int matches Some(v) ==> ((v as int) > 2147483647 ==> self.validation_errors().contains("f_int: maximum value '2147483647' exceeded"@)),
    {
        assert(self.f_int matches Some(v) ==> ((v as int) < 0 ==> self.validation_errors().contains("f_int: minimum value '0' not met"@))) by {
            broadcast use lemma_contains_concat;
            if let Some(v) = self.f_int {
                lemma_error_if_reports((v as int) < 0, "f_int: minimum value '0' not met"@);
            }
        }
        assert(self.f_int matches Some(v) ==> ((v as int) > 2147483647 ==> self.validation_errors().contains("f_int: maximum value '2147483647' exceeded"@))) by {
            broadcast use lemma_contains_concat;
            if let Some(v) = self.f_int {
                lemma_error_if_reports((v as int) > 2147483647, "f_int: maximum value '2147483647' exceeded"@);
            }
        }
    }

    /// The constraints of `f_json` are checked: a value that breaks one gets
    /// that constraint's message.
    pub proof fn law_f_json_constraints_are_reported(self)
        ensures
            self.f_json matches Some(v) ==> (regex_match("^[\u{c0}-\u{ff}A-Za-z0-9_ -]*$"@, v@) == Some(false) ==> self.validation_errors().contains("f_json: format constraint not met"@)),
            self.f_json matches Some(v) ==> (regex_match("^[\u{c0}-\u{ff}A-Za-z0-9_ -]*$"@, v@) is None ==> self.validation_errors().contains("f_json: configured regex is invalid"@)),
    {
        assert(self.f_json matches Some(v) ==> (regex_match("^[\u{c0}-\u{ff}A-Za-z0-9_ -]*$"@, v@) == Some(false) ==> self.validation_errors().contains("f_json: format constraint not met"@))) by {
            broadcast use lemma_contains_concat;
            if let Some(v) = self.f_json {
                lemma_format_error_reports("^[\u{c0}-\u{ff}A-Za-z0-9_ -]*$"@, v@, "f_json: format constraint not met"@, "f_json: configured regex is invalid"@);
            }
        }
        assert(self.f_json matches Some(v) ==> (regex_match("^[\u{c0}-\u{ff}A-Za-z0-9_ -]*$"@, v@) is None ==> self.validation_errors().contains("f_json: configured regex is invalid"@))) by {
            broadcast use lemma_contains_concat;
            if let Some(v) = self.f_json {
                lemma_format_error_reports("^[\u{c0}-\u{ff}A-Za-z0-9_ -]*$"@, v@, "f_json: format constraint not met"@, "f_json: configured regex is invalid"@);
            }
        }
    }

    /// The constraints of `f_text` are checked: a value that breaks one gets
    /// that constraint's message.
    pub proof fn law_f_text_constraints_are_reported(self)
        ensures
            self.f_text matches Some(v) ==> (regex_match("^[\u{c0}-\u{ff}A-Za-z0-9_ -]*$"@, v@) == Some(false) ==> self.validation_errors().contains("f_text: format constraint not met"@)),
            self.f_text matches Some(v) ==> (regex_match("^[\u{c0}-\u{ff}A-Za-z0-9_ -]*$"@, v@) is None ==> self.validation_errors().contains("f_text: configured regex is invalid"@)),
    {
        assert(self.f_text matches Some(v) ==> (regex_match("^[\u{c0}-\u{ff}A-Za-z0-9_ -]*$"@, v@) == Some(false) ==> self.validation_errors().contains("f_text: format constraint not met"@))) by {
            broadcast use lemma_contains_concat;
            if let Some(v) = self.f_text {
                lemma_format_error_reports("^[\u{c0}-\u{ff}A-Za-z0-9_ -]*$"@, v@, "f_text: format constraint not met"@, "f_text: configured regex is invalid"@);
            }
        }
        assert(self.f_text matches Some(v) ==> (regex_match("^[\u{c0}-\u{ff}A-Za-z0-9_ -]*$"@, v@) is None ==> self.validation_errors().contains("f_text: configured regex is invalid"@))) by {
            broadcast use lemma_contains_concat;
            if let Some(v) = self.f_text {
                lemma_format_error_reports("^[\u{c0}-\u{ff}A-Za-z0-9_ -]*$"@, v@, "f_text: format constraint not met"@, "f_text: configured regex is invalid"@);
            }
        }
    }

    /// The constraints of `f_varchar` are checked: a value that breaks one gets
    /// that constraint's message.
    pub proof fn law_f_varchar_constraints_are_reported(self)
        ensures
            self.f_varchar matches Some(v) ==> (regex_match("^[\u{c0}-\u{ff}A-Za-z0-9_ -]*$"@, v@) == Some(false) ==> self.validation_errors().contains("f_varchar: format constraint not met"@)),
            self.f_varchar matches Some(v) ==> (regex_match("^[\u{c0}-\u{ff}A-Za-z0-9_ -]*$"@, v@) is None ==> self.validation_errors().contains("f_varchar: configured regex is invalid"@)),
    {
        assert(self.f_varchar matches Some(v) ==> (regex_match("^[\u{c0}-\u{ff}A-Za-z0-9_ -]*$"@, v@) == Some(false) ==> self.validation_errors().contains("f_varchar: format constraint not met"@))) by {
            broadcast use lemma_contains_concat;
            if let Some(v) = self.f_varchar {
                lemma_format_error_reports("^[\u{c0}-\u{ff}A-Za-z0-9_ -]*$"@, v@, "f_varchar: format constraint not met"@, "f_varchar: configured regex is invalid"@);
            }
        }
        assert(self.f_varchar matches Some(v) ==> (regex_match("^[\u{c0}-\u{ff}A-Za-z0-9_ -]*$"@, v@) is None ==> self.validation_errors().contains("f_varchar: configured regex is invalid"@))) by {
            broadcast use lemma_contains_concat;
            if let Some(v) = self.f_varchar {
                lemma_format_error_reports("^[\u{c0}-\u{ff}A-Za-z0-9_ -]*$"@, v@, "f_varchar: format constraint not met"@, "f_varchar: configured regex is invalid"@);
            }
        }
    }

    /// The constraints of `id` are checked: a value that breaks one gets
    /// that constraint's message.
    pub proof fn law_id_constraints_are_reported(self)
        ensures
            ((self.id as int) < 0) ==> self.validation_errors().contains("id: minimum value '0' not met"@),
            ((self.id as int) > 9223372036854775807) ==> self.validation_errors().contains("id: maximum value '9223372036854775807' exceeded"@),
    {
        assert(((self.id as int) < 0) ==> self.validation_errors().contains("id: minimum value '0' not met"@)) by {
            broadcast use lemma_contains_concat;
            lemma_error_if_reports((self.id as int) < 0, "id: minimum value '0' not met"@);
        }
        assert(((self.id as int) > 9223372036854775807) ==> self.validation_errors().contains("id: maximum value '9223372036854775807' exceeded"@)) by {
            broadcast use lemma_contains_concat;
            lemma_error_if_reports((self.id as int) > 9223372036854775807, "id: maximum value '9223372036854775807' exceeded"@);
        }
    }

    /// A row that breaks none of the constraints gets no message at all.
    pub proof fn law_row_within_constraints_gets_no_message(self)
        ensures
            ((self.f_decimal matches Some(v) ==> regex_match("^[\u{c0}-\u{ff}A-Za-z0-9_ -]*$"@, v@) == Some(true))
                && (self.f_int matches Some(v) ==> !((v as int) < 0))
                && (self.f_int matches Some(v) ==> !((v as int) > 2147483647))
                && (self.f_json matches Some(v) ==> regex_match("^[\u{c0}-\u{ff}A-Za-z0-9_ -]*$"@, v@) == Some(true))
                && (self.f_text matches Some(v) ==> regex_match("^[\u{c0}-\u{ff}A-Za-z0-9_ -]*$"@, v@) == Some(true))
                && (self.f_varchar matches Some(v) ==> regex_match("^[\u{c0}-\u{ff}A-Za-z0-9_ -]*$"@, v@) == Some(true))
                && (!((self.id as int) < 0))
                && (!((self.id as int) > 9223372036854775807)))
                ==> self.validation_errors() == Seq::<Seq<char>>::empty(),
    {
        if (self.f_decimal matches Some(v) ==> regex_match("^[\u{c0}-\u{ff}A-Za-z0-9_ -]*$"@, v@) == Some(true))
            && (self.f_int matches Some(v) ==> !((v as int) < 0))
            && (self.f_int matches Some(v) ==> !((v as int) > 2147483647))
            && (self.f_json matches Some(v) ==> regex_match("^[\u{c0}-\u{ff}A-Za-z0-9_ -]*$"@, v@) == Some(true))
            && (self.f_text matches Some(v) ==> regex_match("^[\u{c0}-\u{ff}A-Za-z0-9_ -]*$"@, v@) == Some(true))
            && (self.f_varchar matches Some(v) ==> regex_match("^[\u{c0}-\u{ff}A-Za-z0-9_ -]*$"@, v@) == Some(true))
            && (!((self.id as int) < 0))
            && (!((self.id as int) > 9223372036854775807)) {
            if let Some(v) = self.f_decimal {
                lemma_format_error_reports("^[\u{c0}-\u{ff}A-Za-z0-9_ -]*$"@, v@, "f_decimal: format constraint not met"@, "f_decimal: configured regex is invalid"@);
            }
            if let Some(v) = self.f_int {
                lemma_error_if_reports((v as int) < 0, "f_int: minimum value '0' not met"@);
            }
            if let Some(v) = self.f_int {
                lemma_error_if_reports((v as int) > 2147483647, "f_int: maximum value '2147483647' exceeded"@);
            }
            if let Some(v) = self.f_json {
                lemma_format_error_reports("^[\u{c0}-\u{ff}A-Za-z0-9_ -]*$"@, v@, "f_json: format constraint not met"@, "f_json: configured regex is invalid"@);
            }
            if let Some(v) = self.f_text {
                lemma_format_error_reports("^[\u{c0}-\u{ff}A-Za-z0-9_ -]*$"@, v@, "f_text: format constraint not met"@, "f_text: configured regex is invalid"@);
            }
            if let Some(v) = self.f_varchar {
                lemma_format_error_reports("^[\u{c0}-\u{ff}A-Za-z0-9_ -]*$"@, v@, "f_varchar: format constraint not met"@, "f_varchar: configured regex is invalid"@);
            }
            lemma_error_if_reports((self.id as int) < 0, "id: minimum value '0' not met"@);
            lemma_error_if_reports((self.id as int) > 9223372036854775807, "id: maximum value '9223372036854775807' exceeded"@);
        }
    }

    fn collect_errors(&self) -> (errors: Vec<String>)
        ensures
            errors_view(errors@) == self.validation_errors(),
    {
        let mut errors: Vec<String> = Vec::new();
        check_format_opt(&mut errors, "^[\u{c0}-\u{ff}A-Za-z0-9_ -]*$", &self.f_decimal, "f_decimal: format constraint not met", "f_decimal: configured regex is invalid");
        check_min_opt_i32(&mut errors, self.f_int, 0, "f_int: minimum value '0' not met");
        check_max_opt_i32(&mut errors, self.f_int, 2147483647, "f_int: maximum value '2147483647' exceeded");
        check_format_opt(&mut errors, "^[\u{c0}-\u{ff}A-Za-z0-9_ -]*$", &self.f_json, "f_json: format constraint not met", "f_json: configured regex is invalid");
        check_format_opt(&mut errors, "^[\u{c0}-\u{ff}A-Za-z0-9_ -]*$", &self.f_text, "f_text: format constraint not met", "f_text: configured regex is invalid");
        check_format_opt(&mut errors, "^[\u{c0}-\u{ff}A-Za-z0-9_ -]*$", &self.f_varchar, "f_varchar: format constraint not met", "f_varchar: configured regex is invalid");
        check_min(&mut errors, self.id as i128, 0, "id: minimum value '0' not met");
        check_max(&mut errors, self.id as i128, 9223372036854775807, "id: maximum value '9223372036854775807' exceeded");
        errors
    }

    /// Checks the constraints of the columns (lengths, ranges, allowed values,
    /// finite numbers and formats): `Ok` when all hold, the messages of those
    /// that fail otherwise, in the order the checks run.
    pub fn validate(&self) -> (r: Result<(), Vec<String>>)
        ensures
            validation_result(r, self.validation_errors()),
    {
        outcome(self.collect_errors())
    }

    /// The statement that counts the rows.
    pub fn count() -> (st: Statement)
        ensures
            st@.sql == "SELECT COUNT(*) FROM \"comp_types_mat_view\""@,
            st@.binds == Seq::<BindV>::empty(),
    {
        Statement::new("SELECT COUNT(*) FROM \"comp_types_mat_view\"", Vec::new())
    }

    /// The statement that reads the row-count estimate from the database statistics.
    pub fn approximate_count() -> (st: Statement)
        ensures
            st@.sql == "SELECT reltuples::bigint FROM pg_class WHERE relname = 'comp_types_mat_view'"@,
            st@.binds == Seq::<BindV>::empty(),
    {
        Statement::new("SELECT reltuples::bigint FROM pg_class WHERE relname = 'comp_types_mat_view'", Vec::new())
    }

    /// The statement that streams the rows in key order, at most `limit` of them (brought into `1..=10000`).
    pub fn stream_all(limit: i64) -> (st: Statement)
        ensures
            st@.sql == "SELECT \"f_blob\", \"f_bool\", \"f_date\", \"f_datetime\", \"f_decimal\", \"f_double\", \"f_float\", \"f_int\", \"f_json\", \"f_text\", \"f_timestamp\", \"f_varchar\", \"id\" FROM \"comp_types_mat_view\" ORDER BY \"id\" ASC LIMIT $1"@,
            st@.binds == seq![BindV::BigInt(Some(clamp(limit as int, 1, 10000) as i64))],
    {
        Statement::new("SELECT \"f_blob\", \"f_bool\", \"f_date\", \"f_datetime\", \"f_decimal\", \"f_double\", \"f_float\", \"f_int\", \"f_json\", \"f_text\", \"f_timestamp\", \"f_varchar\", \"id\" FROM \"comp_types_mat_view\" ORDER BY \"id\" ASC LIMIT $1", vec![SqlValue::BigInt(Some(row_limit(limit)))])
    }

    /// The value this row holds in the column named `column`, as the
    /// statements bind it; `None` for a name that is not a column.
    pub open spec fn column_value(self, column: Seq<char>) -> Option<BindV> {
        if column == "f_blob"@ {
            Some(opt_bytes_v(self.f_blob))
        } else if column == "f_bool"@ {
            Some(BindV::Bool(self.f_bool))
        } else if column == "f_date"@ {
            Some(BindV::Date(self.f_date))
        } else if column == "f_datetime"@ {
            Some(BindV::Timestamp(self.f_datetime))
        } else if column == "f_decimal"@ {
            Some(opt_text_v(self.f_decimal))
        } else if column == "f_double"@ {
            Some(BindV::Double(opt_chars(self.f_double)))
        } else if column == "f_float"@ {
            Some(BindV::Real(opt_chars(self.f_float)))
        } else if column == "f_int"@ {
            Some(BindV::Int(self.f_int))
        } else if column == "f_json"@ {
            Some(opt_text_v(self.f_json))
        } else if column == "f_text"@ {
            Some(opt_text_v(self.f_text))
        } else if column == "f_timestamp"@ {
            Some(BindV::Timestamp(self.f_timestamp))
        } else if column == "f_varchar"@ {
            Some(opt_text_v(self.f_varchar))
        } else if column == "id"@ {
            Some(BindV::BigInt(Some(self.id)))
        } else {
            None
        }
    }

    /// The text that starts the single-row and multi-row writes, up to their
    /// `VALUES`.
    pub open spec fn insert_head() -> Seq<char> {
        "INSERT INTO \"comp_types_mat_view\" (\"f_blob\", \"f_bool\", \"f_date\", \"f_datetime\", \"f_decimal\", \"f_double\", \"f_float\", \"f_int\", \"f_json\", \"f_text\", \"f_timestamp\", \"f_varchar\", \"id\") "@
    }

    /// The single-row and multi-row writes name the columns `f_blob`, `f_bool`, `f_date`, `f_datetime`, `f_decimal`, `f_double`, `f_float`, `f_int`, `f_json`, `f_text`, `f_timestamp`, `f_varchar`, `id`
    /// in this order, and bind for each of them this row's value of that column.
    pub proof fn law_row_binds_named_columns(self)
        ensures
            Self::insert_head() == "INSERT INTO \"comp_types_mat_view\" ("@ + "\"f_blob\""@ + ", "@ + "\"f_bool\""@ + ", "@ + "\"f_date\""@ + ", "@ + "\"f_datetime\""@ + ", "@ + "\"f_decimal\""@ + ", "@ + "\"f_double\""@ + ", "@ + "\"f_float\""@ + ", "@ + "\"f_int\""@ + ", "@ + "\"f_json\""@ + ", "@ + "\"f_text\""@ + ", "@ + "\"f_timestamp\""@ + ", "@ + "\"f_varchar\""@ + ", "@ + "\"id\""@ + ") "@,
            self.row_values().len() == 13,
            self.column_value("f_blob"@) == Some(self.row_values()[0]),
            self.column_value("f_bool"@) == Some(self.row_values()[1]),
            self.column_value("f_date"@) == Some(self.row_values()[2]),
            self.column_value("f_datetime"@) == Some(self.row_values()[3]),
            self.column_value("f_decimal"@) == Some(self.row_values()[4]),
            self.column_value("f_double"@) == Some(self.row_values()[5]),
            self.column_value("f_float"@) == Some(self.row_values()[6]),
            self.column_value("f_int"@) == Some(self.row_values()[7]),
            self.column_value("f_json"@) == Some(self.row_values()[8]),
            self.column_value("f_text"@) == Some(self.row_values()[9]),
            self.column_value("f_timestamp"@) == Some(self.row_values()[10]),
            self.column_value("f_varchar"@) == Some(self.row_values()[11]),
            self.column_value("id"@) == Some(self.row_values()[12]),
    {
        reveal_strlit("f_blob");
        assert("f_blob"@.len() == 6 && "f_blob"@[3] == 'l');
        reveal_strlit("f_bool");
        assert("f_bool"@.len() == 6 && "f_bool"@[3] == 'o');
        reveal_strlit("f_date");
        assert("f_date"@.len() == 6 && "f_date"@[3] == 'a');
        reveal_strlit("f_datetime");
        assert("f_datetime"@.len() == 10 && "f_datetime"@[3] == 'a');
        reveal_strlit("f_decimal");
        assert("f_decimal"@.len() == 9 && "f_decimal"@[3] == 'e');
        reveal_strlit("f_double");
        assert("f_double"@.len() == 8 && "f_double"@[3] == 'o');
        reveal_strlit("f_float");
        assert("f_float"@.len() == 7 && "f_float"@[3] == 'l');
        reveal_strlit("f_int");
        assert("f_int"@.len() == 5 && "f_int"@[3] == 'n');
        reveal_strlit("f_json");
        assert("f_json"@.len() == 6 && "f_json"@[3] == 's');
        reveal_strlit("f_text");
        assert("f_text"@.len() == 6 && "f_text"@[3] == 'e');
        reveal_strlit("f_timestamp");
        assert("f_timestamp"@.len() == 11 && "f_timestamp"@[3] == 'i');
        reveal_strlit("f_varchar");
        assert("f_varchar"@.len() == 9 && "f_varchar"@[3] == 'a');
        reveal_strlit("id");
        assert("id"@.len() == 2);
        reveal_strlit("INSERT INTO \"comp_types_mat_view\" (\"f_blob\", \"f_bool\", \"f_date\", \"f_datetime\", \"f_decimal\", \"f_double\", \"f_float\", \"f_int\", \"f_json\", \"f_text\", \"f_timestamp\", \"f_varchar\", \"id\") ");
        reveal_strlit("INSERT INTO \"comp_types_mat_view\" (");
        reveal_strlit("\"f_blob\"");
        reveal_strlit(", ");
        reveal_strlit("\"f_bool\"");
        reveal_strlit("\"f_date\"");
        reveal_strlit("\"f_datetime\"");
        reveal_strlit("\"f_decimal\"");
        reveal_strlit("\"f_double\"");
        reveal_strlit("\"f_float\"");
        reveal_strlit("\"f_int\"");
        reveal_strlit("\"f_json\"");
        reveal_strlit("\"f_text\"");
        reveal_strlit("\"f_timestamp\"");
        reveal_strlit("\"f_varchar\"");
        reveal_strlit("\"id\"");
        reveal_strlit(") ");
    }

    /// The values of this row's columns, in the order the single-row and multi-row writes bind them.
    pub open spec fn row_values(self) -> Seq<BindV> {
        seq![opt_bytes_v(self.f_blob), BindV::Bool(self.f_bool), BindV::Date(self.f_date), BindV::Timestamp(self.f_datetime), opt_text_v(self.f_decimal), BindV::Double(opt_chars(self.f_double)), BindV::Real(opt_chars(self.f_float)), BindV::Int(self.f_int), opt_text_v(self.f_json), opt_text_v(self.f_text), BindV::Timestamp(self.f_timestamp), opt_text_v(self.f_varchar), BindV::BigInt(Some(self.id))]
    }

    /// The values of this row's columns, in the order the single-row and multi-row writes bind them.
    pub fn row(&self) -> (r: Vec<SqlValue>)
        ensures
            r@.map_values(|b: SqlValue| b@) == self.row_values(),
    {
        vec![SqlValue::opt_bytes(&self.f_blob), SqlValue::Bool(self.f_bool), SqlValue::Date(self.f_date), SqlValue::Timestamp(self.f_datetime), SqlValue::opt_text(&self.f_decimal), SqlValue::opt_double(&self.f_double), SqlValue::opt_real(&self.f_float), SqlValue::Int(self.f_int), SqlValue::opt_text(&self.f_json), SqlValue::opt_text(&self.f_text), SqlValue::Timestamp(self.f_timestamp), SqlValue::opt_text(&self.f_varchar), SqlValue::BigInt(Some(self.id))]
    }

    /// The statement that inserts this row, without checking its constraints.
    pub fn insert_unchecked(&self) -> (st: Statement)
        ensures
            st@.sql == values_sql(Self::insert_head(), Placeholder::Numbered, 1, 13, ""@),
            st@.binds == self.row_values(),
    {
        Statement { sql: values_text("INSERT INTO \"comp_types_mat_view\" (\"f_blob\", \"f_bool\", \"f_date\", \"f_datetime\", \"f_decimal\", \"f_double\", \"f_float\", \"f_int\", \"f_json\", \"f_text\", \"f_timestamp\", \"f_varchar\", \"id\") ", Placeholder::Numbered, 1, 13, ""), binds: self.row() }
    }

    /// The statement of `insert_unchecked` when the row passes [`Self::validate`]; the
    /// validation messages joined by `, ` otherwise.
    pub fn insert(&self) -> (r: Result<Statement, String>)
        ensures
            r is Ok <==> self.validation_errors().len() == 0,
            r matches Err(m) ==> m@ == join(self.validation_errors(), seq![',', ' ']),
            r matches Ok(st) ==> st@.sql == values_sql(Self::insert_head(), Placeholder::Numbered, 1, 13, ""@) && st@.binds == self.row_values(),
    {
        match self.validate() {
            Ok(()) => Ok(self.insert_unchecked()),
            Err(errors) => Err(joined_errors(&errors)),
        }
    }

    /// Whether every instant and date of this row can be written as text:
    /// `chrono` can hold each of them.
    pub open spec fn copy_writable(self) -> bool {
        date_writable(self.f_date) && utc_writable(self.f_datetime) && utc_writable(self.f_timestamp)
    }

    /// Whether every instant and date of this row can be written as text.
    pub fn can_copy(&self) -> (r: bool)
        ensures
            r == self.copy_writable(),
    {
        (match self.f_date { Some(d) => d.in_range(), None => true }) && (match self.f_datetime { Some(t) => t.in_range(), None => true }) && (match self.f_timestamp { Some(t) => t.in_range(), None => true })
    }

    /// The `COPY` statement of the batch writes.
    pub open spec fn copy_statement() -> Seq<char> {
        "COPY \"comp_types_mat_view\" (\"f_blob\", \"f_bool\", \"f_date\", \"f_datetime\", \"f_decimal\", \"f_double\", \"f_float\", \"f_int\", \"f_json\", \"f_text\", \"f_timestamp\", \"f_varchar\", \"id\") FROM STDIN WITH (FORMAT csv)"@
    }

    /// The CSV field this row writes for the column named `column`; `None`
    /// for a name that is not a column.
    pub open spec fn column_field(self, column: Seq<char>) -> Option<CsvFieldV> {
        if column == "f_blob"@ {
            Some(opt_quoted_hex_v(self.f_blob))
        } else if column == "f_bool"@ {
            Some(opt_bool_v(self.f_bool))
        } else if column == "f_date"@ {
            Some(opt_date_v(self.f_date))
        } else if column == "f_datetime"@ {
            Some(opt_utc_v(self.f_datetime))
        } else if column == "f_decimal"@ {
            Some(opt_escaped_v(self.f_decimal))
        } else if column == "f_double"@ {
            Some(opt_bare_v(self.f_double))
        } else if column == "f_float"@ {
            Some(opt_bare_v(self.f_float))
        } else if column == "f_int"@ {
            Some(opt_int_v(match self.f_int { Some(i) => Some(i as i64), None => None }))
        } else if column == "f_json"@ {
            Some(opt_escaped_v(self.f_json))
        } else if column == "f_text"@ {
            Some(opt_escaped_v(self.f_text))
        } else if column == "f_timestamp"@ {
            Some(opt_utc_v(self.f_timestamp))
        } else if column == "f_varchar"@ {
            Some(opt_escaped_v(self.f_varchar))
        } else if column == "id"@ {
            Some(int_v(self.id))
        } else {
            None
        }
    }

    /// A `COPY` batch holds one CSV line an item, in the order of the items.
    pub proof fn law_copy_lines_are_the_items_in_order(items: Seq<Self>)
        ensures
            Self::copy_rows_values(items).len() == items.len(),
            forall|i: int| 0 <= i < items.len() ==> #[trigger] Self::copy_rows_values(items)[i] == items[i].copy_values(),
    {
    }

    /// The `COPY` statement names the columns `f_blob`, `f_bool`, `f_date`, `f_datetime`, `f_decimal`, `f_double`, `f_float`, `f_int`, `f_json`, `f_text`, `f_timestamp`, `f_varchar`, `id` in this
    /// order, and each CSV line holds this row's field for each of them, in
    /// the same order.
    pub proof fn law_copy_fields_follow_named_columns(self)
        ensures
            Self::copy_statement() == "COPY \"comp_types_mat_view\" ("@ + "\"f_blob\""@ + ", "@ + "\"f_bool\""@ + ", "@ + "\"f_date\""@ + ", "@ + "\"f_datetime\""@ + ", "@ + "\"f_decimal\""@ + ", "@ + "\"f_double\""@ + ", "@ + "\"f_float\""@ + ", "@ + "\"f_int\""@ + ", "@ + "\"f_json\""@ + ", "@ + "\"f_text\""@ + ", "@ + "\"f_timestamp\""@ + ", "@ + "\"f_varchar\""@ + ", "@ + "\"id\""@ + ") FROM STDIN WITH (FORMAT csv)"@,
            self.copy_values().len() == 13,
            self.column_field("f_blob"@) == Some(self.copy_values()[0]),
            self.column_field("f_bool"@) == Some(self.copy_values()[1]),
            self.column_field("f_date"@) == Some(self.copy_values()[2]),
            self.column_field("f_datetime"@) == Some(self.copy_values()[3]),
            self.column_field("f_decimal"@) == Some(self.copy_values()[4]),
            self.column_field("f_double"@) == Some(self.copy_values()[5]),
            self.column_field("f_float"@) == Some(self.copy_values()[6]),
            self.column_field("f_int"@) == Some(self.copy_values()[7]),
            self.column_field("f_json"@) == Some(self.copy_values()[8]),
            self.column_field("f_text"@) == Some(self.copy_values()[9]),
            self.column_field("f_timestamp"@) == Some(self.copy_values()[10]),
            self.column_field("f_varchar"@) == Some(self.copy_values()[11]),
            self.column_field("id"@) == Some(self.copy_values()[12]),
    {
        reveal_strlit("f_blob");
        assert("f_blob"@.len() == 6 && "f_blob"@[3] == 'l');
        reveal_strlit("f_bool");
        assert("f_bool"@.len() == 6 && "f_bool"@[3] == 'o');
        reveal_strlit("f_date");
        assert("f_date"@.len() == 6 && "f_date"@[3] == 'a');
        reveal_strlit("f_datetime");
        assert("f_datetime"@.len() == 10 && "f_datetime"@[3] == 'a');
        reveal_strlit("f_decimal");
        assert("f_decimal"@.len() == 9 && "f_decimal"@[3] == 'e');
        reveal_strlit("f_double");
        assert("f_double"@.len() == 8 && "f_double"@[3] == 'o');
        reveal_strlit("f_float");
        assert("f_float"@.len() == 7 && "f_float"@[3] == 'l');
        reveal_strlit("f_int");
        assert("f_int"@.len() == 5 && "f_int"@[3] == 'n');
        reveal_strlit("f_json");
        assert("f_json"@.len() == 6 && "f_json"@[3] == 's');
        reveal_strlit("f_text");
        assert("f_text"@.len() == 6 && "f_text"@[3] == 'e');
        reveal_strlit("f_timestamp");
        assert("f_timestamp"@.len() == 11 && "f_timestamp"@[3] == 'i');
        reveal_strlit("f_varchar");
        assert("f_varchar"@.len() == 9 && "f_varchar"@[3] == 'a');
        reveal_strlit("id");
        assert("id"@.len() == 2);
        reveal_strlit("COPY \"comp_types_mat_view\" (\"f_blob\", \"f_bool\", \"f_date\", \"f_datetime\", \"f_decimal\", \"f_double\", \"f_float\", \"f_int\", \"f_json\", \"f_text\", \"f_timestamp\", \"f_varchar\", \"id\") FROM STDIN WITH (FORMAT csv)");
        reveal_strlit("COPY \"comp_types_mat_view\" (");
        reveal_strlit("\"f_blob\"");
        reveal_strlit(", ");
        reveal_strlit("\"f_bool\"");
        reveal_strlit("\"f_date\"");
        reveal_strlit("\"f_datetime\"");
        reveal_strlit("\"f_decimal\"");
        reveal_strlit("\"f_double\"");
        reveal_strlit("\"f_float\"");
        reveal_strlit("\"f_int\"");
        reveal_strlit("\"f_json\"");
        reveal_strlit("\"f_text\"");
        reveal_strlit("\"f_timestamp\"");
        reveal_strlit("\"f_varchar\"");
        reveal_strlit("\"id\"");
        reveal_strlit(") FROM STDIN WITH (FORMAT csv)");
    }

    /// This row as the fields of one CSV line of the `COPY` payload.
    pub open spec fn copy_values(self) -> Seq<CsvFieldV> {
        seq![opt_quoted_hex_v(self.f_blob), opt_bool_v(self.f_bool), opt_date_v(self.f_date), opt_utc_v(self.f_datetime), opt_escaped_v(self.f_decimal), opt_bare_v(self.f_double), opt_bare_v(self.f_float), opt_int_v(match self.f_int { Some(i) => Some(i as i64), None => None }), opt_escaped_v(self.f_json), opt_escaped_v(self.f_text), opt_utc_v(self.f_timestamp), opt_escaped_v(self.f_varchar), int_v(self.id)]
    }

    /// This row as the fields of one CSV line of the `COPY` payload.
    pub fn copy_row(&self) -> (r: Vec<CsvField>)
        requires
            self.copy_writable(),
        ensures
            r@.map_values(|f: CsvField| f@) == self.copy_values(),
            self.copy_quotes_plain(),
    {
        vec![CsvField::opt_quoted_hex(&self.f_blob), CsvField::opt_bool(self.f_bool), CsvField::opt_date(self.f_date), CsvField::opt_utc(self.f_datetime), CsvField::opt_escaped(&self.f_decimal), CsvField::opt_bare(&self.f_double), CsvField::opt_bare(&self.f_float), CsvField::opt_int32(self.f_int), CsvField::opt_escaped(&self.f_json), CsvField::opt_escaped(&self.f_text), CsvField::opt_utc(self.f_timestamp), CsvField::opt_escaped(&self.f_varchar), CsvField::integer(self.id)]
    }

    /// Whether the instants and dates of this row, as written, hold no double
    /// quote.
    pub open spec fn copy_quotes_plain(self) -> bool {
        quoted_plain(opt_date_v(self.f_date)) && quoted_plain(opt_utc_v(self.f_datetime)) && quoted_plain(opt_utc_v(self.f_timestamp))
    }

    /// Whether the texts this row writes unquoted (numbers held as text)
    /// read back: non-empty, with no comma, line end or quote.
    pub open spec fn copy_texts_readable(self) -> bool {
        readable(opt_bare_v(self.f_double)) && readable(opt_bare_v(self.f_float))
    }

    proof fn lemma_copy_field_readable(self, k: int)
        requires
            self.copy_quotes_plain(),
            self.copy_texts_readable(),
            0 <= k < 13,
        ensures
            readable(self.copy_values()[k]),
    {
        if k == 0 {
        } else if k == 1 {
            lemma_opt_bool_v_readable(self.f_bool);
        } else if k == 2 {
        } else if k == 3 {
        } else if k == 4 {
        } else if k == 5 {
        } else if k == 6 {
        } else if k == 7 {
            lemma_opt_int_v_readable(match self.f_int { Some(i) => Some(i as i64), None => None });
        } else if k == 8 {
        } else if k == 9 {
        } else if k == 10 {
        } else if k == 11 {
        } else if k == 12 {
            lemma_int_v_readable(self.id);
        }
    }


    /// The CSV fields of each row.
    pub open spec fn copy_rows_values(items: Seq<Self>) -> Seq<Seq<CsvFieldV>> {
        items.map_values(|it: Self| it.copy_values())
    }

    fn copy_rows(items: &[Self]) -> (r: Vec<Vec<CsvField>>)
        requires
            forall|j: int| 0 <= j < items@.len() ==> (#[trigger] items@[j]).copy_writable(),
        ensures
            field_rows_view(r@) == Self::copy_rows_values(items@),
            forall|j: int| 0 <= j < items@.len() ==> (#[trigger] items@[j]).copy_quotes_plain(),
    {
        let mut r: Vec<Vec<CsvField>> = Vec::new();
        let mut i: usize = 0;
        while i < items.len()
            invariant
                0 <= i <= items.len(),
                forall|j: int| 0 <= j < items@.len() ==> (#[trigger] items@[j]).copy_writable(),
                field_rows_view(r@) == Self::copy_rows_values(items@.take(i as int)),
                forall|j: int| 0 <= j < i ==> (#[trigger] items@[j]).copy_quotes_plain(),
            decreases items.len() - i,
        {
            let row = items[i].copy_row();
            let ghost prev = r@;
            r.push(row);
            proof {
                assert(r@ =~= prev.push(row));
                assert(field_rows_view(r@) =~= field_rows_view(prev).push(row@.map_values(|f: CsvField| f@)));
                assert(items@.take(i + 1) =~= items@.take(i as int).push(items@[i as int]));
                assert(Self::copy_rows_values(items@.take(i + 1))
                    =~= Self::copy_rows_values(items@.take(i as int)).push(items@[i as int].copy_values()));
            }
            i = i + 1;
        }
        assert(items@.take(items.len() as int) =~= items@);
        r
    }

    /// The `COPY ... FROM STDIN WITH (FORMAT csv)` statement for the given rows
    /// and the payloads to send: the rows in pieces of 1000; none for no rows.
    pub fn insert_batch(items: &[Self]) -> (plan: Option<CopyPlan>)
        requires
            forall|j: int| 0 <= j < items@.len() ==> (#[trigger] items@[j]).copy_writable(),
        ensures
            plan is None <==> items@.len() == 0,
            plan matches Some(c) ==> c.statement@ == Self::copy_statement()
                && c.payloads@.map_values(|s: String| s@) == payloads(Self::copy_rows_values(items@), 1000, None),
            plan matches Some(c) ==> ((forall|j: int| 0 <= j < items@.len() ==> (#[trigger] items@[j]).copy_texts_readable())
                ==> read_records(concat(c.payloads@.map_values(|s: String| s@))) == Some(Self::copy_rows_values(items@)
                    .map_values(|r: Seq<CsvFieldV>| r.map_values(|f: CsvFieldV| field_value(f))))),
    {
        if items.len() == 0 {
            return None;
        }
        let rows = Self::copy_rows(items);
        proof {
            if forall|j: int| 0 <= j < items@.len() ==> (#[trigger] items@[j]).copy_texts_readable() {
                let vals = Self::copy_rows_values(items@);
                assert forall|i: int| 0 <= i < vals.len() implies (#[trigger] vals[i]).len() > 0 by {
                    assert(vals[i] == items@[i].copy_values());
                }
                assert forall|i: int, k: int| 0 <= i < vals.len() && 0 <= k < vals[i].len() implies readable(#[trigger] vals[i][k]) by {
                    assert(vals[i] == items@[i].copy_values());
                    items@[i].lemma_copy_field_readable(k);
                }
                law_copy_payloads_read_back(vals, 1000, None);
            }
        }
        Some(CopyPlan { statement: "COPY \"comp_types_mat_view\" (\"f_blob\", \"f_bool\", \"f_date\", \"f_datetime\", \"f_decimal\", \"f_double\", \"f_float\", \"f_int\", \"f_json\", \"f_text\", \"f_timestamp\", \"f_varchar\", \"id\") FROM STDIN WITH (FORMAT csv)".to_owned(), payloads: copy_payloads(&rows, 1000, None) })
    }
}

} // verus!

