//! The `comp_types_mat_view` table (SQLite dialect): rows, orderings, constraints and statements.
use vstd::prelude::*;
use crate::value::{SqlValue, BindV, Statement, opt_text_v, opt_bytes_v, opt_chars};
use crate::sql::{Placeholder, values_sql, values_text, values_piece, values_plan, chunks, rows_view};
use crate::validation::{non_finite_text, error_if, format_error, errors_view, outcome, joined_errors, validation_result, when_some, check_finite_opt, check_format_opt, check_min_opt_i32, check_max_opt_i32, batch_item_error, batch_item_message, lemma_contains_concat, lemma_error_if_reports, lemma_format_error_reports, regex_match};
use crate::paging::{row_limit, clamp};
use crate::text::join;

verus! {

/// A row of `comp_types_mat_view`.
#[derive(Clone, Debug)]
pub struct CompTypesMatView {
    pub f_blob: Option<Vec<u8>>,
    pub f_bool: Option<bool>,
    pub f_date: Option<String>,
    pub f_datetime: Option<String>,
    pub f_decimal: Option<String>,
    pub f_double: Option<String>,
    pub f_float: Option<String>,
    pub f_int: Option<i32>,
    pub f_json: Option<String>,
    pub f_text: Option<String>,
    pub f_timestamp: Option<String>,
    pub f_varchar: Option<String>,
    pub id: Option<i32>,
}

/// A column and a direction to order listings by.
#[derive(Clone, Copy, Debug, PartialEq, Eq, Structural)]
pub enum CompTypesMatViewOrderBy {
    FBlobAsc,
    FBlobDesc,
    FBoolAsc,
    FBoolDesc,
    FDateAsc,
    FDateDesc,
    FDatetimeAsc,
    FDatetimeDesc,
    FDecimalAsc,
    FDecimalDesc,
    FDoubleAsc,
    FDoubleDesc,
    FFloatAsc,
    FFloatDesc,
    FIntAsc,
    FIntDesc,
    FJsonAsc,
    FJsonDesc,
    FTextAsc,
    FTextDesc,
    FTimestampAsc,
    FTimestampDesc,
    FVarcharAsc,
    FVarcharDesc,
    IdAsc,
    IdDesc,
}

impl CompTypesMatViewOrderBy {
    /// The `ORDER BY` term of this ordering.
    pub open spec fn term(self) -> Seq<char> {
        match self {
            CompTypesMatViewOrderBy::FBlobAsc => "`f_blob` ASC"@,
            CompTypesMatViewOrderBy::FBlobDesc => "`f_blob` DESC"@,
            CompTypesMatViewOrderBy::FBoolAsc => "`f_bool` ASC"@,
            CompTypesMatViewOrderBy::FBoolDesc => "`f_bool` DESC"@,
            CompTypesMatViewOrderBy::FDateAsc => "`f_date` ASC"@,
            CompTypesMatViewOrderBy::FDateDesc => "`f_date` DESC"@,
            CompTypesMatViewOrderBy::FDatetimeAsc => "`f_datetime` ASC"@,
            CompTypesMatViewOrderBy::FDatetimeDesc => "`f_datetime` DESC"@,
            CompTypesMatViewOrderBy::FDecimalAsc => "`f_decimal` ASC"@,
            CompTypesMatViewOrderBy::FDecimalDesc => "`f_decimal` DESC"@,
            CompTypesMatViewOrderBy::FDoubleAsc => "`f_double` ASC"@,
            CompTypesMatViewOrderBy::FDoubleDesc => "`f_double` DESC"@,
            CompTypesMatViewOrderBy::FFloatAsc => "`f_float` ASC"@,
            CompTypesMatViewOrderBy::FFloatDesc => "`f_float` DESC"@,
            CompTypesMatViewOrderBy::FIntAsc => "`f_int` ASC"@,
            CompTypesMatViewOrderBy::FIntDesc => "`f_int` DESC"@,
            CompTypesMatViewOrderBy::FJsonAsc => "`f_json` ASC"@,
            CompTypesMatViewOrderBy::FJsonDesc => "`f_json` DESC"@,
            CompTypesMatViewOrderBy::FTextAsc => "`f_text` ASC"@,
            CompTypesMatViewOrderBy::FTextDesc => "`f_text` DESC"@,
            CompTypesMatViewOrderBy::FTimestampAsc => "`f_timestamp` ASC"@,
            CompTypesMatViewOrderBy::FTimestampDesc => "`f_timestamp` DESC"@,
            CompTypesMatViewOrderBy::FVarcharAsc => "`f_varchar` ASC"@,
            CompTypesMatViewOrderBy::FVarcharDesc => "`f_varchar` DESC"@,
            CompTypesMatViewOrderBy::IdAsc => "`id` ASC"@,
            CompTypesMatViewOrderBy::IdDesc => "`id` DESC"@,
        }
    }

    /// An ordering sorts by the column its name says, ascending for an
    /// `...Asc` ordering and descending for a `...Desc` one: its term is that
    /// column, then `ASC` or `DESC`.
    pub proof fn law_term_names_column_and_direction(self)
        ensures
            (self is FBlobAsc || self is FBlobDesc) ==> self.term() == "`f_blob`"@ + (if self is FBlobDesc { " DESC"@ } else { " ASC"@ }),
            (self is FBoolAsc || self is FBoolDesc) ==> self.term() == "`f_bool`"@ + (if self is FBoolDesc { " DESC"@ } else { " ASC"@ }),
            (self is FDateAsc || self is FDateDesc) ==> self.term() == "`f_date`"@ + (if self is FDateDesc { " DESC"@ } else { " ASC"@ }),
            (self is FDatetimeAsc || self is FDatetimeDesc) ==> self.term() == "`f_datetime`"@ + (if self is FDatetimeDesc { " DESC"@ } else { " ASC"@ }),
            (self is FDecimalAsc || self is FDecimalDesc) ==> self.term() == "`f_decimal`"@ + (if self is FDecimalDesc { " DESC"@ } else { " ASC"@ }),
            (self is FDoubleAsc || self is FDoubleDesc) ==> self.term() == "`f_double`"@ + (if self is FDoubleDesc { " DESC"@ } else { " ASC"@ }),
            (self is FFloatAsc || self is FFloatDesc) ==> self.term() == "`f_float`"@ + (if self is FFloatDesc { " DESC"@ } else { " ASC"@ }),
            (self is FIntAsc || self is FIntDesc) ==> self.term() == "`f_int`"@ + (if self is FIntDesc { " DESC"@ } else { " ASC"@ }),
            (self is FJsonAsc || self is FJsonDesc) ==> self.term() == "`f_json`"@ + (if self is FJsonDesc { " DESC"@ } else { " ASC"@ }),
            (self is FTextAsc || self is FTextDesc) ==> self.term() == "`f_text`"@ + (if self is FTextDesc { " DESC"@ } else { " ASC"@ }),
            (self is FTimestampAsc || self is FTimestampDesc) ==> self.term() == "`f_timestamp`"@ + (if self is FTimestampDesc { " DESC"@ } else { " ASC"@ }),
            (self is FVarcharAsc || self is FVarcharDesc) ==> self.term() == "`f_varchar`"@ + (if self is FVarcharDesc { " DESC"@ } else { " ASC"@ }),
            (self is IdAsc || self is IdDesc) ==> self.term() == "`id`"@ + (if self is IdDesc { " DESC"@ } else { " ASC"@ }),
    {
        reveal_strlit("`f_blob` ASC");
        reveal_strlit("f_blob");
        reveal_strlit("`f_blob` DESC");
        reveal_strlit("`f_bool` ASC");
        reveal_strlit("f_bool");
        reveal_strlit("`f_bool` DESC");
        reveal_strlit("`f_date` ASC");
        reveal_strlit("f_date");
        reveal_strlit("`f_date` DESC");
        reveal_strlit("`f_datetime` ASC");
        reveal_strlit("f_datetime");
        reveal_strlit("`f_datetime` DESC");
        reveal_strlit("`f_decimal` ASC");
        reveal_strlit("f_decimal");
        reveal_strlit("`f_decimal` DESC");
        reveal_strlit("`f_double` ASC");
        reveal_strlit("f_double");
        reveal_strlit("`f_double` DESC");
        reveal_strlit("`f_float` ASC");
        reveal_strlit("f_float");
        reveal_strlit("`f_float` DESC");
        reveal_strlit("`f_int` ASC");
        reveal_strlit("f_int");
        reveal_strlit("`f_int` DESC");
        reveal_strlit("`f_json` ASC");
        reveal_strlit("f_json");
        reveal_strlit("`f_json` DESC");
        reveal_strlit("`f_text` ASC");
        reveal_strlit("f_text");
        reveal_strlit("`f_text` DESC");
        reveal_strlit("`f_timestamp` ASC");
        reveal_strlit("f_timestamp");
        reveal_strlit("`f_timestamp` DESC");
        reveal_strlit("`f_varchar` ASC");
        reveal_strlit("f_varchar");
        reveal_strlit("`f_varchar` DESC");
        reveal_strlit("`id` ASC");
        reveal_strlit("id");
        reveal_strlit("`id` DESC");
        reveal_strlit("`f_blob`");
        reveal_strlit("`f_bool`");
        reveal_strlit("`f_date`");
        reveal_strlit("`f_datetime`");
        reveal_strlit("`f_decimal`");
        reveal_strlit("`f_double`");
        reveal_strlit("`f_float`");
        reveal_strlit("`f_int`");
        reveal_strlit("`f_json`");
        reveal_strlit("`f_text`");
        reveal_strlit("`f_timestamp`");
        reveal_strlit("`f_varchar`");
        reveal_strlit("`id`");
        reveal_strlit(" ASC");
        reveal_strlit(" DESC");
    }

    /// The `ORDER BY` term of this ordering.
    pub fn as_str(&self) -> (s: &'static str)
        ensures
            s@ == self.term(),
    {
        match self {
            CompTypesMatViewOrderBy::FBlobAsc => "`f_blob` ASC",
            CompTypesMatViewOrderBy::FBlobDesc => "`f_blob` DESC",
            CompTypesMatViewOrderBy::FBoolAsc => "`f_bool` ASC",
            CompTypesMatViewOrderBy::FBoolDesc => "`f_bool` DESC",
            CompTypesMatViewOrderBy::FDateAsc => "`f_date` ASC",
            CompTypesMatViewOrderBy::FDateDesc => "`f_date` DESC",
            CompTypesMatViewOrderBy::FDatetimeAsc => "`f_datetime` ASC",
            CompTypesMatViewOrderBy::FDatetimeDesc => "`f_datetime` DESC",
            CompTypesMatViewOrderBy::FDecimalAsc => "`f_decimal` ASC",
            CompTypesMatViewOrderBy::FDecimalDesc => "`f_decimal` DESC",
            CompTypesMatViewOrderBy::FDoubleAsc => "`f_double` ASC",
            CompTypesMatViewOrderBy::FDoubleDesc => "`f_double` DESC",
            CompTypesMatViewOrderBy::FFloatAsc => "`f_float` ASC",
            CompTypesMatViewOrderBy::FFloatDesc => "`f_float` DESC",
            CompTypesMatViewOrderBy::FIntAsc => "`f_int` ASC",
            CompTypesMatViewOrderBy::FIntDesc => "`f_int` DESC",
            CompTypesMatViewOrderBy::FJsonAsc => "`f_json` ASC",
            CompTypesMatViewOrderBy::FJsonDesc => "`f_json` DESC",
            CompTypesMatViewOrderBy::FTextAsc => "`f_text` ASC",
            CompTypesMatViewOrderBy::FTextDesc => "`f_text` DESC",
            CompTypesMatViewOrderBy::FTimestampAsc => "`f_timestamp` ASC",
            CompTypesMatViewOrderBy::FTimestampDesc => "`f_timestamp` DESC",
            CompTypesMatViewOrderBy::FVarcharAsc => "`f_varchar` ASC",
            CompTypesMatViewOrderBy::FVarcharDesc => "`f_varchar` DESC",
            CompTypesMatViewOrderBy::IdAsc => "`id` ASC",
            CompTypesMatViewOrderBy::IdDesc => "`id` DESC",
        }
    }

    /// Different orderings have different terms: a term names one column and
    /// one direction.
    pub proof fn law_terms_are_distinct(a: Self, b: Self)
        ensures
            a.term() == b.term() ==> a == b,
    {
        reveal_strlit("`f_blob` ASC");
        assert("`f_blob` ASC"@.len() == 12 && "`f_blob` ASC"@[3] == 'b' && "`f_blob` ASC"@[4] == 'l');
        reveal_strlit("`f_blob` DESC");
        assert("`f_blob` DESC"@.len() == 13 && "`f_blob` DESC"@[3] == 'b' && "`f_blob` DESC"@[4] == 'l');
        reveal_strlit("`f_bool` ASC");
        assert("`f_bool` ASC"@.len() == 12 && "`f_bool` ASC"@[3] == 'b' && "`f_bool` ASC"@[4] == 'o');
        reveal_strlit("`f_bool` DESC");
        assert("`f_bool` DESC"@.len() == 13 && "`f_bool` DESC"@[3] == 'b' && "`f_bool` DESC"@[4] == 'o');
        reveal_strlit("`f_date` ASC");
        assert("`f_date` ASC"@.len() == 12 && "`f_date` ASC"@[3] == 'd' && "`f_date` ASC"@[4] == 'a');
        reveal_strlit("`f_date` DESC");
        assert("`f_date` DESC"@.len() == 13 && "`f_date` DESC"@[3] == 'd' && "`f_date` DESC"@[4] == 'a');
        reveal_strlit("`f_datetime` ASC");
        assert("`f_datetime` ASC"@.len() == 16 && "`f_datetime` ASC"@[3] == 'd' && "`f_datetime` ASC"@[4] == 'a');
        reveal_strlit("`f_datetime` DESC");
        assert("`f_datetime` DESC"@.len() == 17 && "`f_datetime` DESC"@[3] == 'd' && "`f_datetime` DESC"@[4] == 'a');
        reveal_strlit("`f_decimal` ASC");
        assert("`f_decimal` ASC"@.len() == 15 && "`f_decimal` ASC"@[3] == 'd' && "`f_decimal` ASC"@[4] == 'e');
        reveal_strlit("`f_decimal` DESC");
        assert("`f_decimal` DESC"@.len() == 16 && "`f_decimal` DESC"@[3] == 'd' && "`f_decimal` DESC"@[4] == 'e');
        reveal_strlit("`f_double` ASC");
        assert("`f_double` ASC"@.len() == 14 && "`f_double` ASC"@[3] == 'd' && "`f_double` ASC"@[4] == 'o');
        reveal_strlit("`f_double` DESC");
        assert("`f_double` DESC"@.len() == 15 && "`f_double` DESC"@[3] == 'd' && "`f_double` DESC"@[4] == 'o');
        reveal_strlit("`f_float` ASC");
        assert("`f_float` ASC"@.len() == 13 && "`f_float` ASC"@[3] == 'f' && "`f_float` ASC"@[4] == 'l');
        reveal_strlit("`f_float` DESC");
        assert("`f_float` DESC"@.len() == 14 && "`f_float` DESC"@[3] == 'f' && "`f_float` DESC"@[4] == 'l');
        reveal_strlit("`f_int` ASC");
        assert("`f_int` ASC"@.len() == 11 && "`f_int` ASC"@[3] == 'i' && "`f_int` ASC"@[4] == 'n');
        reveal_strlit("`f_int` DESC");
        assert("`f_int` DESC"@.len() == 12 && "`f_int` DESC"@[3] == 'i' && "`f_int` DESC"@[4] == 'n');
        reveal_strlit("`f_json` ASC");
        assert("`f_json` ASC"@.len() == 12 && "`f_json` ASC"@[3] == 'j' && "`f_json` ASC"@[4] == 's');
        reveal_strlit("`f_json` DESC");
        assert("`f_json` DESC"@.len() == 13 && "`f_json` DESC"@[3] == 'j' && "`f_json` DESC"@[4] == 's');
        reveal_strlit("`f_text` ASC");
        assert("`f_text` ASC"@.len() == 12 && "`f_text` ASC"@[3] == 't' && "`f_text` ASC"@[4] == 'e');
        reveal_strlit("`f_text` DESC");
        assert("`f_text` DESC"@.len() == 13 && "`f_text` DESC"@[3] == 't' && "`f_text` DESC"@[4] == 'e');
        reveal_strlit("`f_timestamp` ASC");
        assert("`f_timestamp` ASC"@.len() == 17 && "`f_timestamp` ASC"@[3] == 't' && "`f_timestamp` ASC"@[4] == 'i');
        reveal_strlit("`f_timestamp` DESC");
        assert("`f_timestamp` DESC"@.len() == 18 && "`f_timestamp` DESC"@[3] == 't' && "`f_timestamp` DESC"@[4] == 'i');
        reveal_strlit("`f_varchar` ASC");
        assert("`f_varchar` ASC"@.len() == 15 && "`f_varchar` ASC"@[3] == 'v' && "`f_varchar` ASC"@[4] == 'a');
        reveal_strlit("`f_varchar` DESC");
        assert("`f_varchar` DESC"@.len() == 16 && "`f_varchar` DESC"@[3] == 'v' && "`f_varchar` DESC"@[4] == 'a');
        reveal_strlit("`id` ASC");
        assert("`id` ASC"@.len() == 8 && "`id` ASC"@[3] == '`' && "`id` ASC"@[4] == ' ');
        reveal_strlit("`id` DESC");
        assert("`id` DESC"@.len() == 9 && "`id` DESC"@[3] == '`' && "`id` DESC"@[4] == ' ');
    }
}


impl CompTypesMatView {
    /// The constraint violations of this row, in the order the checks run.
    pub open spec fn validation_errors(self) -> Seq<Seq<char>> {
        Seq::empty()
            + when_some(self.f_date, |v: String| format_error("^[\u{c0}-\u{ff}A-Za-z0-9_ -]*$"@, v@, "f_date: format constraint not met"@, "f_date: configured regex is invalid"@))
            + when_some(self.f_datetime, |v: String| format_error("^[\u{c0}-\u{ff}A-Za-z0-9_ -]*$"@, v@, "f_datetime: format constraint not met"@, "f_datetime: configured regex is invalid"@))
            + when_some(self.f_decimal, |v: String| error_if(non_finite_text(v@), "f_decimal: value must be finite (NaN/Infinity rejected)"@))
            + when_some(self.f_double, |v: String| error_if(non_finite_text(v@), "f_double: value must be finite (NaN/Infinity rejected)"@))
            + when_some(self.f_float, |v: String| error_if(non_finite_text(v@), "f_float: value must be finite (NaN/Infinity rejected)"@))
            + when_some(self.f_int, |v: i32| error_if((v as int) < 0, "f_int: minimum value '0' not met"@))
            + when_some(self.f_int, |v: i32| error_if((v as int) > 2147483647, "f_int: maximum value '2147483647' exceeded"@))
            + when_some(self.f_json, |v: String| format_error("^[\u{c0}-\u{ff}A-Za-z0-9_ -]*$"@, v@, "f_json: format constraint not met"@, "f_json: configured regex is invalid"@))
            + when_some(self.f_text, |v: String| format_error("^[\u{c0}-\u{ff}A-Za-z0-9_ -]*$"@, v@, "f_text: format constraint not met"@, "f_text: configured regex is invalid"@))
            + when_some(self.f_timestamp, |v: String| format_error("^[\u{c0}-\u{ff}A-Za-z0-9_ -]*$"@, v@, "f_timestamp: format constraint not met"@, "f_timestamp: configured regex is invalid"@))
            + when_some(self.f_varchar, |v: String| format_error("^[\u{c0}-\u{ff}A-Za-z0-9_ -]*$"@, v@, "f_varchar: format constraint not met"@, "f_varchar: configured regex is invalid"@))
            + when_some(self.id, |v: i32| error_if((v as int) < 0, "id: minimum value '0' not met"@))
            + when_some(self.id, |v: i32| error_if((v as int) > 2147483647, "id: maximum value '2147483647' exceeded"@))
    }

    /// The constraints of `f_date` are checked: a value that breaks one gets
    /// that constraint's message.
    pub proof fn law_f_date_constraints_are_reported(self)
        ensures
            self.f_date matches Some(v) ==> (regex_match("^[\u{c0}-\u{ff}A-Za-z0-9_ -]*$"@, v@) == Some(false) ==> self.validation_errors().contains("f_date: format constraint not met"@)),
            self.f_date matches Some(v) ==> (regex_match("^[\u{c0}-\u{ff}A-Za-z0-9_ -]*$"@, v@) is None ==> self.validation_errors().contains("f_date: configured regex is invalid"@)),
    {
        assert(self.f_date matches Some(v) ==> (regex_match("^[\u{c0}-\u{ff}A-Za-z0-9_ -]*$"@, v@) == Some(false) ==> self.validation_errors().contains("f_date: format constraint not met"@))) by {
            broadcast use lemma_contains_concat;
            if let Some(v) = self.f_date {
                lemma_format_error_reports("^[\u{c0}-\u{ff}A-Za-z0-9_ -]*$"@, v@, "f_date: format constraint not met"@, "f_date: configured regex is invalid"@);
            }
        }
        assert(self.f_date matches Some(v) ==> (regex_match("^[\u{c0}-\u{ff}A-Za-z0-9_ -]*$"@, v@) is None ==> self.validation_errors().contains("f_date: configured regex is invalid"@))) by {
            broadcast use lemma_contains_concat;
            if let Some(v) = self.f_date {
                lemma_format_error_reports("^[\u{c0}-\u{ff}A-Za-z0-9_ -]*$"@, v@, "f_date: format constraint not met"@, "f_date: configured regex is invalid"@);
            }
        }
    }

    /// The constraints of `f_datetime` are checked: a value that breaks one gets
    /// that constraint's message.
    pub proof fn law_f_datetime_constraints_are_reported(self)
        ensures
            self.f_datetime matches Some(v) ==> (regex_match("^[\u{c0}-\u{ff}A-Za-z0-9_ -]*$"@, v@) == Some(false) ==> self.validation_errors().contains("f_datetime: format constraint not met"@)),
            self.f_datetime matches Some(v) ==> (regex_match("^[\u{c0}-\u{ff}A-Za-z0-9_ -]*$"@, v@) is None ==> self.validation_errors().contains("f_datetime: configured regex is invalid"@)),
    {
        assert(self.f_datetime matches Some(v) ==> (regex_match("^[\u{c0}-\u{ff}A-Za-z0-9_ -]*$"@, v@) == Some(false) ==> self.validation_errors().contains("f_datetime: format constraint not met"@))) by {
            broadcast use lemma_contains_concat;
            if let Some(v) = self.f_datetime {
                lemma_format_error_reports("^[\u{c0}-\u{ff}A-Za-z0-9_ -]*$"@, v@, "f_datetime: format constraint not met"@, "f_datetime: configured regex is invalid"@);
            }
        }
        assert(self.f_datetime matches Some(v) ==> (regex_match("^[\u{c0}-\u{ff}A-Za-z0-9_ -]*$"@, v@) is None ==> self.validation_errors().contains("f_datetime: configured regex is invalid"@))) by {
            broadcast use lemma_contains_concat;
            if let Some(v) = self.f_datetime {
                lemma_format_error_reports("^[\u{c0}-\u{ff}A-Za-z0-9_ -]*$"@, v@, "f_datetime: format constraint not met"@, "f_datetime: configured regex is invalid"@);
            }
        }
    }

    /// The constraints of `f_decimal` are checked: a value that breaks one gets
    /// that constraint's message.
    pub proof fn law_f_decimal_constraints_are_reported(self)
        ensures
            self.f_decimal matches Some(v) ==> (non_finite_text(v@) ==> self.validation_errors().contains("f_decimal: value must be finite (NaN/Infinity rejected)"@)),
    {
        assert(self.f_decimal matches Some(v) ==> (non_finite_text(v@) ==> self.validation_errors().contains("f_decimal: value must be finite (NaN/Infinity rejected)"@))) by {
            broadcast use lemma_contains_concat;
            if let Some(v) = self.f_decimal {
                lemma_error_if_reports(non_finite_text(v@), "f_decimal: value must be finite (NaN/Infinity rejected)"@);
            }
        }
    }

    /// The constraints of `f_double` are checked: a value that breaks one gets
    /// that constraint's message.
    pub proof fn law_f_double_constraints_are_reported(self)
        ensures
            self.f_double matches Some(v) ==> (non_finite_text(v@) ==> self.validation_errors().contains("f_double: value must be finite (NaN/Infinity rejected)"@)),
    {
        assert(self.f_double matches Some(v) ==> (non_finite_text(v@) ==> self.validation_errors().contains("f_double: value must be finite (NaN/Infinity rejected)"@))) by {
            broadcast use lemma_contains_concat;
            if let Some(v) = self.f_double {
                lemma_error_if_reports(non_finite_text(v@), "f_double: value must be finite (NaN/Infinity rejected)"@);
            }
        }
    }

    /// The constraints of `f_float` are checked: a value that breaks one gets
    /// that constraint's message.
    pub proof fn law_f_float_constraints_are_reported(self)
        ensures
            self.f_float matches Some(v) ==> (non_finite_text(v@) ==> self.validation_errors().contains("f_float: value must be finite (NaN/Infinity rejected)"@)),
    {
        assert(self.f_float matches Some(v) ==> (non_finite_text(v@) ==> self.validation_errors().contains("f_float: value must be finite (NaN/Infinity rejected)"@))) by {
            broadcast use lemma_contains_concat;
            if let Some(v) = self.f_float {
                lemma_error_if_reports(non_finite_text(v@), "f_float: value must be finite (NaN/Infinity rejected)"@);
            }
        }
    }

    /// The constraints of `f_int` are checked: a value that breaks one gets
    /// that constraint's message.
    pub proof fn law_f_int_constraints_are_reported(self)
        ensures
            self.f_int matches Some(v) ==> ((v as int) < 0 ==> self.validation_errors().contains("f_int: minimum value '0' not met"@)),
            self.f_int matches Some(v) ==> ((v as int) > 2147483647 ==> self.validation_errors().contains("f_int: maximum value '2147483647' exceeded"@)),
    {
        assert(self.f_int matches Some(v) ==> ((v as int) < 0 ==> self.validation_errors().contains("f_int: minimum value '0' not met"@))) by {
            broadcast use lemma_contains_concat;
            if let Some(v) = self.f_int {
                lemma_error_if_reports((v as int) < 0, "f_int: minimum value '0' not met"@);
            }
        }
        assert(self.f_int matches Some(v) ==> ((v as int) > 2147483647 ==> self.validation_errors().contains("f_int: maximum value '2147483647' exceeded"@))) by {
            broadcast use lemma_contains_concat;
            if let Some(v) = self.f_int {
                lemma_error_if_reports((v as int) > 2147483647, "f_int: maximum value '2147483647' exceeded"@);
            }
        }
    }

    /// The constraints of `f_json` are checked: a value that breaks one gets
    /// that constraint's message.
    pub proof fn law_f_json_constraints_are_reported(self)
        ensures
            self.f_json matches Some(v) ==> (regex_match("^[\u{c0}-\u{ff}A-Za-z0-9_ -]*$"@, v@) == Some(false) ==> self.validation_errors().contains("f_json: format constraint not met"@)),
            self.f_json matches Some(v) ==> (regex_match("^[\u{c0}-\u{ff}A-Za-z0-9_ -]*$"@, v@) is None ==> self.validation_errors().contains("f_json: configured regex is invalid"@)),
    {
        assert(self.f_json matches Some(v) ==> (regex_match("^[\u{c0}-\u{ff}A-Za-z0-9_ -]*$"@, v@) == Some(false) ==> self.validation_errors().contains("f_json: format constraint not met"@))) by {
            broadcast use lemma_contains_concat;
            if let Some(v) = self.f_json {
                lemma_format_error_reports("^[\u{c0}-\u{ff}A-Za-z0-9_ -]*$"@, v@, "f_json: format constraint not met"@, "f_json: configured regex is invalid"@);
            }
        }
        assert(self.f_json matches Some(v) ==> (regex_match("^[\u{c0}-\u{ff}A-Za-z0-9_ -]*$"@, v@) is None ==> self.validation_errors().contains("f_json: configured regex is invalid"@))) by {
            broadcast use lemma_contains_concat;
            if let Some(v) = self.f_json {
                lemma_format_error_reports("^[\u{c0}-\u{ff}A-Za-z0-9_ -]*$"@, v@, "f_json: format constraint not met"@, "f_json: configured regex is invalid"@);
            }
        }
    }

    /// The constraints of `f_text` are checked: a value that breaks one gets
    /// that constraint's message.
    pub proof fn law_f_text_constraints_are_reported(self)
        ensures
            self.f_text matches Some(v) ==> (regex_match("^[\u{c0}-\u{ff}A-Za-z0-9_ -]*$"@, v@) == Some(false) ==> self.validation_errors().contains("f_text: format constraint not met"@)),
            self.f_text matches Some(v) ==> (regex_match("^[\u{c0}-\u{ff}A-Za-z0-9_ -]*$"@, v@) is None ==> self.validation_errors().contains("f_text: configured regex is invalid"@)),
    {
        assert(self.f_text matches Some(v) ==> (regex_match("^[\u{c0}-\u{ff}A-Za-z0-9_ -]*$"@, v@) == Some(false) ==> self.validation_errors().contains("f_text: format constraint not met"@))) by {
            broadcast use lemma_contains_concat;
            if let Some(v) = self.f_text {
                lemma_format_error_reports("^[\u{c0}-\u{ff}A-Za-z0-9_ -]*$"@, v@, "f_text: format constraint not met"@, "f_text: configured regex is invalid"@);
            }
        }
        assert(self.f_text matches Some(v) ==> (regex_match("^[\u{c0}-\u{ff}A-Za-z0-9_ -]*$"@, v@) is None ==> self.validation_errors().contains("f_text: configured regex is invalid"@))) by {
            broadcast use lemma_contains_concat;
            if let Some(v) = self.f_text {
                lemma_format_error_reports("^[\u{c0}-\u{ff}A-Za-z0-9_ -]*$"@, v@, "f_text: format constraint not met"@, "f_text: configured regex is invalid"@);
            }
        }
    }

    /// The constraints of `f_timestamp` are checked: a value that breaks one gets
    /// that constraint's message.
    pub proof fn law_f_timestamp_constraints_are_reported(self)
        ensures
            self.f_timestamp matches Some(v) ==> (regex_match("^[\u{c0}-\u{ff}A-Za-z0-9_ -]*$"@, v@) == Some(false) ==> self.validation_errors().contains("f_timestamp: format constraint not met"@)),
            self.f_timestamp matches Some(v) ==> (regex_match("^[\u{c0}-\u{ff}A-Za-z0-9_ -]*$"@, v@) is None ==> self.validation_errors().contains("f_timestamp: configured regex is invalid"@)),
    {
        assert(self.f_timestamp matches Some(v) ==> (regex_match("^[\u{c0}-\u{ff}A-Za-z0-9_ -]*$"@, v@) == Some(false) ==> self.validation_errors().contains("f_timestamp: format constraint not met"@))) by {
            broadcast use lemma_contains_concat;
            if let Some(v) = self.f_timestamp {
                lemma_format_error_reports("^[\u{c0}-\u{ff}A-Za-z0-9_ -]*$"@, v@, "f_timestamp: format constraint not met"@, "f_timestamp: configured regex is invalid"@);
            }
        }
        assert(self.f_timestamp matches Some(v) ==> (regex_match("^[\u{c0}-\u{ff}A-Za-z0-9_ -]*$"@, v@) is None ==> self.validation_errors().contains("f_timestamp: configured regex is invalid"@))) by {
            broadcast use lemma_contains_concat;
            if let Some(v) = self.f_timestamp {
                lemma_format_error_reports("^[\u{c0}-\u{ff}A-Za-z0-9_ -]*$"@, v@, "f_timestamp: format constraint not met"@, "f_timestamp: configured regex is invalid"@);
            }
        }
    }

    /// The constraints of `f_varchar` are checked: a value that breaks one gets
    /// that constraint's message.
    pub proof fn law_f_varchar_constraints_are_reported(self)
        ensures
            self.f_varchar matches Some(v) ==> (regex_match("^[\u{c0}-\u{ff}A-Za-z0-9_ -]*$"@, v@) == Some(false) ==> self.validation_errors().contains("f_varchar: format constraint not met"@)),
            self.f_varchar matches Some(v) ==> (regex_match("^[\u{c0}-\u{ff}A-Za-z0-9_ -]*$"@, v@) is None ==> self.validation_errors().contains("f_varchar: configured regex is invalid"@)),
    {
        assert(self.f_varchar matches Some(v) ==> (regex_match("^[\u{c0}-\u{ff}A-Za-z0-9_ -]*$"@, v@) == Some(false) ==> self.validation_errors().contains("f_varchar: format constraint not met"@))) by {
            broadcast use lemma_contains_concat;
            if let Some(v) = self.f_varchar {
                lemma_format_error_reports("^[\u{c0}-\u{ff}A-Za-z0-9_ -]*$"@, v@, "f_varchar: format constraint not met"@, "f_varchar: configured regex is invalid"@);
            }
        }
        assert(self.f_varchar matches Some(v) ==> (regex_match("^[\u{c0}-\u{ff}A-Za-z0-9_ -]*$"@, v@) is None ==> self.validation_errors().contains("f_varchar: configured regex is invalid"@))) by {
            broadcast use lemma_contains_concat;
            if let Some(v) = self.f_varchar {
                lemma_format_error_reports("^[\u{c0}-\u{ff}A-Za-z0-9_ -]*$"@, v@, "f_varchar: format constraint not met"@, "f_varchar: configured regex is invalid"@);
            }
        }
    }

    /// The constraints of `id` are checked: a value that breaks one gets
    /// that constraint's message.
    pub proof fn law_id_constraints_are_reported(self)
        ensures
            self.id matches Some(v) ==> ((v as int) < 0 ==> self.validation_errors().contains("id: minimum value '0' not met"@)),
            self.id matches Some(v) ==> ((v as int) > 2147483647 ==> self.validation_errors().contains("id: maximum value '2147483647' exceeded"@)),
    {
        assert(self.id matches Some(v) ==> ((v as int) < 0 ==> self.validation_errors().contains("id: minimum value '0' not met"@))) by {
            broadcast use lemma_contains_concat;
            if let Some(v) = self.id {
                lemma_error_if_reports((v as int) < 0, "id: minimum value '0' not met"@);
            }
        }
        assert(self.id matches Some(v) ==> ((v as int) > 2147483647 ==> self.validation_errors().contains("id: maximum value '2147483647' exceeded"@))) by {
            broadcast use lemma_contains_concat;
            if let Some(v) = self.id {
                lemma_error_if_reports((v as int) > 2147483647, "id: maximum value '2147483647' exceeded"@);
            }
        }
    }

    /// A row that breaks none of the constraints gets no message at all.
    pub proof fn law_row_within_constraints_gets_no_message(self)
        ensures
            ((self.f_date matches Some(v) ==> regex_match("^[\u{c0}-\u{ff}A-Za-z0-9_ -]*$"@, v@) == Some(true))
                && (self.f_datetime matches Some(v) ==> regex_match("^[\u{c0}-\u{ff}A-Za-z0-9_ -]*$"@, v@) == Some(true))
                && (self.f_decimal matches Some(v) ==> !(non_finite_text(v@)))
                && (self.f_double matches Some(v) ==> !(non_finite_text(v@)))
                && (self.f_float matches Some(v) ==> !(non_finite_text(v@)))
                && (self.f_int matches Some(v) ==> !((v as int) < 0))
                && (self.f_int matches Some(v) ==> !((v as int) > 2147483647))
                && (self.f_json matches Some(v) ==> regex_match("^[\u{c0}-\u{ff}A-Za-z0-9_ -]*$"@, v@) == Some(true))
                && (self.f_text matches Some(v) ==> regex_match("^[\u{c0}-\u{ff}A-Za-z0-9_ -]*$"@, v@) == Some(true))
                && (self.f_timestamp matches Some(v) ==> regex_match("^[\u{c0}-\u{ff}A-Za-z0-9_ -]*$"@, v@) == Some(true))
                && (self.f_varchar matches Some(v) ==> regex_match("^[\u{c0}-\u{ff}A-Za-z0-9_ -]*$"@, v@) == Some(true))
                && (self.id matches Some(v) ==> !((v as int) < 0))
                && (self.id matches Some(v) ==> !((v as int) > 2147483647)))
                ==> self.validation_errors() == Seq::<Seq<char>>::empty(),
    {
        if (self.f_date matches Some(v) ==> regex_match("^[\u{c0}-\u{ff}A-Za-z0-9_ -]*$"@, v@) == Some(true))
            && (self.f_datetime matches Some(v) ==> regex_match("^[\u{c0}-\u{ff}A-Za-z0-9_ -]*$"@, v@) == Some(true))
            && (self.f_decimal matches Some(v) ==> !(non_finite_text(v@)))
            && (self.f_double matches Some(v) ==> !(non_finite_text(v@)))
            && (self.f_float matches Some(v) ==> !(non_finite_text(v@)))
            && (self.f_int matches Some(v) ==> !((v as int) < 0))
            && (self.f_int matches Some(v) ==> !((v as int) > 2147483647))
            && (self.f_json matches Some(v) ==> regex_match("^[\u{c0}-\u{ff}A-Za-z0-9_ -]*$"@, v@) == Some(true))
            && (self.f_text matches Some(v) ==> regex_match("^[\u{c0}-\u{ff}A-Za-z0-9_ -]*$"@, v@) == Some(true))
            && (self.f_timestamp matches Some(v) ==> regex_match("^[\u{c0}-\u{ff}A-Za-z0-9_ -]*$"@, v@) == Some(true))
            && (self.f_varchar matches Some(v) ==> regex_match("^[\u{c0}-\u{ff}A-Za-z0-9_ -]*$"@, v@) == Some(true))
            && (self.id matches Some(v) ==> !((v as int) < 0))
            && (self.id matches Some(v) ==> !((v as int) > 2147483647)) {
            if let Some(v) = self.f_date {
                lemma_format_error_reports("^[\u{c0}-\u{ff}A-Za-z0-9_ -]*$"@, v@, "f_date: format constraint not met"@, "f_date: configured regex is invalid"@);
            }
            if let Some(v) = self.f_datetime {
                lemma_format_error_reports("^[\u{c0}-\u{ff}A-Za-z0-9_ -]*$"@, v@, "f_datetime: format constraint not met"@, "f_datetime: configured regex is invalid"@);
            }
            if let Some(v) = self.f_decimal {
                lemma_error_if_reports(non_finite_text(v@), "f_decimal: value must be finite (NaN/Infinity rejected)"@);
            }
            if let Some(v) = self.f_double {
                lemma_error_if_reports(non_finite_text(v@), "f_double: value must be finite (NaN/Infinity rejected)"@);
            }
            if let Some(v) = self.f_float {
                lemma_error_if_reports(non_finite_text(v@), "f_float: value must be finite (NaN/Infinity rejected)"@);
            }
            if let Some(v) = self.f_int {
                lemma_error_if_reports((v as int) < 0, "f_int: minimum value '0' not met"@);
            }
            if let Some(v) = self.f_int {
                lemma_error_if_reports((v as int) > 2147483647, "f_int: maximum value '2147483647' exceeded"@);
            }
            if let Some(v) = self.f_json {
                lemma_format_error_reports("^[\u{c0}-\u{ff}A-Za-z0-9_ -]*$"@, v@, "f_json: format constraint not met"@, "f_json: configured regex is invalid"@);
            }
            if let Some(v) = self.f_text {
                lemma_format_error_reports("^[\u{c0}-\u{ff}A-Za-z0-9_ -]*$"@, v@, "f_text: format constraint not met"@, "f_text: configured regex is invalid"@);
            }
            if let Some(v) = self.f_timestamp {
                lemma_format_error_reports("^[\u{c0}-\u{ff}A-Za-z0-9_ -]*$"@, v@, "f_timestamp: format constraint not met"@, "f_timestamp: configured regex is invalid"@);
            }
            if let Some(v) = self.f_varchar {
                lemma_format_error_reports("^[\u{c0}-\u{ff}A-Za-z0-9_ -]*$"@, v@, "f_varchar: format constraint not met"@, "f_varchar: configured regex is invalid"@);
            }
            if let Some(v) = self.id {
                lemma_error_if_reports((v as int) < 0, "id: minimum value '0' not met"@);
            }
            if let Some(v) = self.id {
                lemma_error_if_reports((v as int) > 2147483647, "id: maximum value '2147483647' exceeded"@);
            }
        }
    }

    fn collect_errors(&self) -> (errors: Vec<String>)
        ensures
            errors_view(errors@) == self.validation_errors(),
    {
        let mut errors: Vec<String> = Vec::new();
        check_format_opt(&mut errors, "^[\u{c0}-\u{ff}A-Za-z0-9_ -]*$", &self.f_date, "f_date: format constraint not met", "f_date: configured regex is invalid");
        check_format_opt(&mut errors, "^[\u{c0}-\u{ff}A-Za-z0-9_ -]*$", &self.f_datetime, "f_datetime: format constraint not met", "f_datetime: configured regex is invalid");
        check_finite_opt(&mut errors, &self.f_decimal, "f_decimal: value must be finite (NaN/Infinity rejected)");
        check_finite_opt(&mut errors, &self.f_double, "f_double: value must be finite (NaN/Infinity rejected)");
        check_finite_opt(&mut errors, &self.f_float, "f_float: value must be finite (NaN/Infinity rejected)");
        check_min_opt_i32(&mut errors, self.f_int, 0, "f_int: minimum value '0' not met");
        check_max_opt_i32(&mut errors, self.f_int, 2147483647, "f_int: maximum value '2147483647' exceeded");
        check_format_opt(&mut errors, "^[\u{c0}-\u{ff}A-Za-z0-9_ -]*$", &self.f_json, "f_json: format constraint not met", "f_json: configured regex is invalid");
        check_format_opt(&mut errors, "^[\u{c0}-\u{ff}A-Za-z0-9_ -]*$", &self.f_text, "f_text: format constraint not met", "f_text: configured regex is invalid");
        check_format_opt(&mut errors, "^[\u{c0}-\u{ff}A-Za-z0-9_ -]*$", &self.f_timestamp, "f_timestamp: format constraint not met", "f_timestamp: configured regex is invalid");
        check_format_opt(&mut errors, "^[\u{c0}-\u{ff}A-Za-z0-9_ -]*$", &self.f_varchar, "f_varchar: format constraint not met", "f_varchar: configured regex is invalid");
        check_min_opt_i32(&mut errors, self.id, 0, "id: minimum value '0' not met");
        check_max_opt_i32(&mut errors, self.id, 2147483647, "id: maximum value '2147483647' exceeded");
        errors
    }

    /// Checks the constraints of the columns (lengths, ranges, allowed values,
    /// finite numbers and formats): `Ok` when all hold, the messages of those
    /// that fail otherwise, in the order the checks run.
    pub fn validate(&self) -> (r: Result<(), Vec<String>>)
        ensures
            validation_result(r, self.validation_errors()),
    {
        outcome(self.collect_errors())
    }

    /// The statement that counts the rows.
    pub fn count() -> (st: Statement)
        ensures
            st@.sql == "SELECT COUNT(*) FROM `comp_types_mat_view`"@,
            st@.binds == Seq::<BindV>::empty(),
    {
        Statement::new("SELECT COUNT(*) FROM `comp_types_mat_view`", Vec::new())
    }

    /// The statement that reads the row-count estimate from the database statistics.
    pub fn estimated_count_upper_bound() -> (st: Statement)
        ensures
            st@.sql == "SELECT MAX(rowid) FROM `comp_types_mat_view`"@,
            st@.binds == Seq::<BindV>::empty(),
    {
        Statement::new("SELECT MAX(rowid) FROM `comp_types_mat_view`", Vec::new())
    }

    /// The statement that streams the rows in key order, at most `limit` of them (brought into `1..=10000`).
    pub fn stream_all(limit: i64) -> (st: Statement)
        ensures
            st@.sql == "SELECT `f_blob`, `f_bool`, `f_date`, `f_datetime`, `f_decimal`, `f_double`, `f_float`, `f_int`, `f_json`, `f_text`, `f_timestamp`, `f_varchar`, `id` FROM `comp_types_mat_view` ORDER BY `id` ASC LIMIT ?"@,
            st@.binds == seq![BindV::BigInt(Some(clamp(limit as int, 1, 10000) as i64))],
    {
        Statement::new("SELECT `f_blob`, `f_bool`, `f_date`, `f_datetime`, `f_decimal`, `f_double`, `f_float`, `f_int`, `f_json`, `f_text`, `f_timestamp`, `f_varchar`, `id` FROM `comp_types_mat_view` ORDER BY `id` ASC LIMIT ?", vec![SqlValue::BigInt(Some(row_limit(limit)))])
    }

    /// The value this row holds in the column named `column`, as the
    /// statements bind it; `None` for a name that is not a column.
    pub open spec fn column_value(self, column: Seq<char>) -> Option<BindV> {
        if column == "f_blob"@ {
            Some(opt_bytes_v(self.f_blob))
        } else if column == "f_bool"@ {
            Some(BindV::Bool(self.f_bool))
        } else if column == "f_date"@ {
            Some(opt_text_v(self.f_date))
        } else if column == "f_datetime"@ {
            Some(opt_text_v(self.f_datetime))
        } else if column == "f_decimal"@ {
            Some(BindV::Double(opt_chars(self.f_decimal)))
        } else if column == "f_double"@ {
            Some(BindV::Double(opt_chars(self.f_double)))
        } else if column == "f_float"@ {
            Some(BindV::Double(opt_chars(self.f_float)))
        } else if column == "f_int"@ {
            Some(BindV::Int(self.f_int))
        } else if column == "f_json"@ {
            Some(opt_text_v(self.f_json))
        } else if column == "f_text"@ {
            Some(opt_text_v(self.f_text))
        } else if column == "f_timestamp"@ {
            Some(opt_text_v(self.f_timestamp))
        } else if column == "f_varchar"@ {
            Some(opt_text_v(self.f_varchar))
        } else if column == "id"@ {
            Some(BindV::Int(self.id))
        } else {
            None
        }
    }

    /// The text that starts the single-row and multi-row writes, up to their
    /// `VALUES`.
    pub open spec fn insert_head() -> Seq<char> {
        "INSERT INTO `comp_types_mat_view` (`f_blob`, `f_bool`, `f_date`, `f_datetime`, `f_decimal`, `f_double`, `f_float`, `f_int`, `f_json`, `f_text`, `f_timestamp`, `f_varchar`, `id`) "@
    }

    /// The single-row and multi-row writes name the columns `f_blob`, `f_bool`, `f_date`, `f_datetime`, `f_decimal`, `f_double`, `f_float`, `f_int`, `f_json`, `f_text`, `f_timestamp`, `f_varchar`, `id`
    /// in this order, and bind for each of them this row's value of that column.
    pub proof fn law_row_binds_named_columns(self)
        ensures
            Self::insert_head() == "INSERT INTO `comp_types_mat_view` ("@ + "`f_blob`"@ + ", "@ + "`f_bool`"@ + ", "@ + "`f_date`"@ + ", "@ + "`f_datetime`"@ + ", "@ + "`f_decimal`"@ + ", "@ + "`f_double`"@ + ", "@ + "`f_float`"@ + ", "@ + "`f_int`"@ + ", "@ + "`f_json`"@ + ", "@ + "`f_text`"@ + ", "@ + "`f_timestamp`"@ + ", "@ + "`f_varchar`"@ + ", "@ + "`id`"@ + ") "@,
            self.row_values().len() == 13,
            self.column_value("f_blob"@) == Some(self.row_values()[0]),
            self.column_value("f_bool"@) == Some(self.row_values()[1]),
            self.column_value("f_date"@) == Some(self.row_values()[2]),
            self.column_value("f_datetime"@) == Some(self.row_values()[3]),
            self.column_value("f_decimal"@) == Some(self.row_values()[4]),
            self.column_value("f_double"@) == Some(self.row_values()[5]),
            self.column_value("f_float"@) == Some(self.row_values()[6]),
            self.column_value("f_int"@) == Some(self.row_values()[7]),
            self.column_value("f_json"@) == Some(self.row_values()[8]),
            self.column_value("f_text"@) == Some(self.row_values()[9]),
            self.column_value("f_timestamp"@) == Some(self.row_values()[10]),
            self.column_value("f_varchar"@) == Some(self.row_values()[11]),
            self.column_value("id"@) == Some(self.row_values()[12]),
    {
        reveal_strlit("f_blob");
        assert("f_blob"@.len() == 6 && "f_blob"@[3] == 'l');
        reveal_strlit("f_bool");
        assert("f_bool"@.len() == 6 && "f_bool"@[3] == 'o');
        reveal_strlit("f_date");
        assert("f_date"@.len() == 6 && "f_date"@[3] == 'a');
        reveal_strlit("f_datetime");
        assert("f_datetime"@.len() == 10 && "f_datetime"@[3] == 'a');
        reveal_strlit("f_decimal");
        assert("f_decimal"@.len() == 9 && "f_decimal"@[3] == 'e');
        reveal_strlit("f_double");
        assert("f_double"@.len() == 8 && "f_double"@[3] == 'o');
        reveal_strlit("f_float");
        assert("f_float"@.len() == 7 && "f_float"@[3] == 'l');
        reveal_strlit("f_int");
        assert("f_int"@.len() == 5 && "f_int"@[3] == 'n');
        reveal_strlit("f_json");
        assert("f_json"@.len() == 6 && "f_json"@[3] == 's');
        reveal_strlit("f_text");
        assert("f_text"@.len() == 6 && "f_text"@[3] == 'e');
        reveal_strlit("f_timestamp");
        assert("f_timestamp"@.len() == 11 && "f_timestamp"@[3] == 'i');
        reveal_strlit("f_varchar");
        assert("f_varchar"@.len() == 9 && "f_varchar"@[3] == 'a');
        reveal_strlit("id");
        assert("id"@.len() == 2);
        reveal_strlit("INSERT INTO `comp_types_mat_view` (`f_blob`, `f_bool`, `f_date`, `f_datetime`, `f_decimal`, `f_double`, `f_float`, `f_int`, `f_json`, `f_text`, `f_timestamp`, `f_varchar`, `id`) ");
        reveal_strlit("INSERT INTO `comp_types_mat_view` (");
        reveal_strlit("`f_blob`");
        reveal_strlit(", ");
        reveal_strlit("`f_bool`");
        reveal_strlit("`f_date`");
        reveal_strlit("`f_datetime`");
        reveal_strlit("`f_decimal`");
        reveal_strlit("`f_double`");
        reveal_strlit("`f_float`");
        reveal_strlit("`f_int`");
        reveal_strlit("`f_json`");
        reveal_strlit("`f_text`");
        reveal_strlit("`f_timestamp`");
        reveal_strlit("`f_varchar`");
        reveal_strlit("`id`");
        reveal_strlit(") ");
    }

    /// A batch holds one row of values an item, in the order of the items.
    pub proof fn law_batch_rows_are_the_items_in_order(items: Seq<Self>)
        ensures
            Self::rows_values(items).len() == items.len(),
            forall|i: int| 0 <= i < items.len() ==> #[trigger] Self::rows_values(items)[i] == items[i].row_values(),
    {
    }

    /// The values of this row's columns, in the order the single-row and multi-row writes bind them.
    pub open spec fn row_values(self) -> Seq<BindV> {
        seq![opt_bytes_v(self.f_blob), BindV::Bool(self.f_bool), opt_text_v(self.f_date), opt_text_v(self.f_datetime), BindV::Double(opt_chars(self.f_decimal)), BindV::Double(opt_chars(self.f_double)), BindV::Double(opt_chars(self.f_float)), BindV::Int(self.f_int), opt_text_v(self.f_json), opt_text_v(self.f_text), opt_text_v(self.f_timestamp), opt_text_v(self.f_varchar), BindV::Int(self.id)]
    }

    /// The values of this row's columns, in the order the single-row and multi-row writes bind them.
    pub fn row(&self) -> (r: Vec<SqlValue>)
        ensures
            r@.map_values(|b: SqlValue| b@) == self.row_values(),
    {
        vec![SqlValue::opt_bytes(&self.f_blob), SqlValue::Bool(self.f_bool), SqlValue::opt_text(&self.f_date), SqlValue::opt_text(&self.f_datetime), SqlValue::opt_double(&self.f_decimal), SqlValue::opt_double(&self.f_double), SqlValue::opt_double(&self.f_float), SqlValue::Int(self.f_int), SqlValue::opt_text(&self.f_json), SqlValue::opt_text(&self.f_text), SqlValue::opt_text(&self.f_timestamp), SqlValue::opt_text(&self.f_varchar), SqlValue::Int(self.id)]
    }

    /// The statement that inserts this row, without checking its constraints.
    pub fn insert_unchecked(&self) -> (st: Statement)
        ensures
            st@.sql == values_sql(Self::insert_head(), Placeholder::Question, 1, 13, ""@),
            st@.binds == self.row_values(),
    {
        Statement { sql: values_text("INSERT INTO `comp_types_mat_view` (`f_blob`, `f_bool`, `f_date`, `f_datetime`, `f_decimal`, `f_double`, `f_float`, `f_int`, `f_json`, `f_text`, `f_timestamp`, `f_varchar`, `id`) ", Placeholder::Question, 1, 13, ""), binds: self.row() }
    }

    /// The statement of `insert_unchecked` when the row passes [`Self::validate`]; the
    /// validation messages joined by `, ` otherwise.
    pub fn insert(&self) -> (r: Result<Statement, String>)
        ensures
            r is Ok <==> self.validation_errors().len() == 0,
            r matches Err(m) ==> m@ == join(self.validation_errors(), seq![',', ' ']),
            r matches Ok(st) ==> st@.sql == values_sql(Self::insert_head(), Placeholder::Question, 1, 13, ""@) && st@.binds == self.row_values(),
    {
        match self.validate() {
            Ok(()) => Ok(self.insert_unchecked()),
            Err(errors) => Err(joined_errors(&errors)),
        }
    }

    /// The values of each row, in statement order.
    pub open spec fn rows_values(items: Seq<Self>) -> Seq<Seq<BindV>> {
        items.map_values(|it: Self| it.row_values())
    }

    /// The values of each row, in statement order.
    pub fn rows(items: &[Self]) -> (r: Vec<Vec<SqlValue>>)
        ensures
            rows_view(r@) == Self::rows_values(items@),
    {
        let mut r: Vec<Vec<SqlValue>> = Vec::new();
        let mut i: usize = 0;
        while i < items.len()
            invariant
                0 <= i <= items.len(),
                rows_view(r@) == Self::rows_values(items@.take(i as int)),
            decreases items.len() - i,
        {
            let row = items[i].row();
            let ghost prev = r@;
            r.push(row);
            proof {
                assert(r@ =~= prev.push(row));
                assert(rows_view(r@) =~= rows_view(prev).push(row@.map_values(|b: SqlValue| b@)));
                assert(items@.take(i + 1) =~= items@.take(i as int).push(items@[i as int]));
                assert(Self::rows_values(items@.take(i + 1))
                    =~= Self::rows_values(items@.take(i as int)).push(items@[i as int].row_values()));
            }
            i = i + 1;
        }
        assert(items@.take(items.len() as int) =~= items@);
        r
    }

    /// The multi-row statements that write the given rows, pieces of at most 2520 rows, once
    /// every row passes [`Self::validate`]; no statement for no rows. The
    /// first row that fails is refused with its position and its messages,
    /// and no statement is given.
    pub fn insert_batch(items: &[Self]) -> (r: Result<Vec<Statement>, String>)
        ensures
            r is Err <==> exists|j: int| 0 <= j < items@.len() && (#[trigger] items@[j]).validation_errors().len() > 0,
            r matches Err(m) ==> exists|j: int| 0 <= j < items@.len()
                && (#[trigger] items@[j]).validation_errors().len() > 0
                && (forall|i: int| 0 <= i < j ==> (#[trigger] items@[i]).validation_errors().len() == 0)
                && m@ == batch_item_error("insert_batch"@, j as nat, items@[j].validation_errors()),
            r matches Ok(plan) ==> plan@.len() == chunks(Self::rows_values(items@), 2520 as nat).len()
                && (forall|k: int| 0 <= k < plan@.len() ==> (#[trigger] plan@[k])@ == values_piece(
                Self::insert_head(), ""@, Placeholder::Question, 13, chunks(Self::rows_values(items@), 2520 as nat)[k]))
                && (forall|k: int| 0 <= k < plan@.len() ==> (#[trigger] plan@[k])@.binds.len() <= 32766),
    {
        let mut idx: usize = 0;
        while idx < items.len()
            invariant
                0 <= idx <= items.len(),
                forall|i: int| 0 <= i < idx ==> (#[trigger] items@[i]).validation_errors().len() == 0,
            decreases items.len() - idx,
        {
            match items[idx].validate() {
                Ok(()) => {},
                Err(errors) => {
                    return Err(batch_item_message("insert_batch", idx, &errors));
                },
            }
            idx = idx + 1;
        }
        let plan = {
        let rows = Self::rows(items);
        assert(rows_view(rows@).len() == items@.len());
        assert(rows_view(rows@).len() == rows@.len());
        assert forall|j: int| 0 <= j < rows@.len() implies (#[trigger] rows_view(rows@)[j]).len() == 13 by {
            assert(Self::rows_values(items@)[j] == items@[j].row_values());
            assert(rows_view(rows@)[j] == items@[j].row_values());
        }
        values_plan("INSERT INTO `comp_types_mat_view` (`f_blob`, `f_bool`, `f_date`, `f_datetime`, `f_decimal`, `f_double`, `f_float`, `f_int`, `f_json`, `f_text`, `f_timestamp`, `f_varchar`, `id`) ", "", Placeholder::Question, 13, 2520, &rows)
        };
        Ok(plan)
    }
}

} // verus!

