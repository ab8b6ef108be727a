//! The `comp_types_active_view` table (MySQL dialect): rows, orderings, constraints and statements.
use vstd::prelude::*;
use crate::value::{SqlValue, BindV, Statement, CalendarDate};
use crate::validation::{error_if, format_error, errors_view, check_min, check_max, outcome, validation_result, when_some, check_max_len_opt, check_format_opt, check_min_opt_i32, check_max_opt_i32, lemma_contains_concat, lemma_error_if_reports, lemma_format_error_reports, regex_match};
use crate::paging::{row_limit, clamp};
use crate::text::utf8_len;

verus! {

/// A row of `comp_types_active_view`.
#[derive(Clone, Debug)]
pub struct CompTypesActiveView {
    pub f_date: Option<CalendarDate>,
    pub f_int: Option<i32>,
    pub f_varchar: Option<String>,
    pub id: i64,
}

/// A column and a direction to order listings by.
#[derive(Clone, Copy, Debug, PartialEq, Eq, Structural)]
pub enum CompTypesActiveViewOrderBy {
    FDateAsc,
    FDateDesc,
    FIntAsc,
    FIntDesc,
    FVarcharAsc,
    FVarcharDesc,
    IdAsc,
    IdDesc,
}

impl CompTypesActiveViewOrderBy {
    /// The `ORDER BY` term of this ordering.
    pub open spec fn term(self) -> Seq<char> {
        match self {
            CompTypesActiveViewOrderBy::FDateAsc => "`f_date` ASC"@,
            CompTypesActiveViewOrderBy::FDateDesc => "`f_date` DESC"@,
            CompTypesActiveViewOrderBy::FIntAsc => "`f_int` ASC"@,
            CompTypesActiveViewOrderBy::FIntDesc => "`f_int` DESC"@,
            CompTypesActiveViewOrderBy::FVarcharAsc => "`f_varchar` ASC"@,
            CompTypesActiveViewOrderBy::FVarcharDesc => "`f_varchar` DESC"@,
            CompTypesActiveViewOrderBy::IdAsc => "`id` ASC"@,
            CompTypesActiveViewOrderBy::IdDesc => "`id` DESC"@,
        }
    }

    /// An ordering sorts by the column its name says, ascending for an
    /// `...Asc` ordering and descending for a `...Desc` one: its term is that
    /// column, then `ASC` or `DESC`.
    pub proof fn law_term_names_column_and_direction(self)
        ensures
            (self is FDateAsc || self is FDateDesc) ==> self.term() == "`f_date`"@ + (if self is FDateDesc { " DESC"@ } else { " ASC"@ }),
            (self is FIntAsc || self is FIntDesc) ==> self.term() == "`f_int`"@ + (if self is FIntDesc { " DESC"@ } else { " ASC"@ }),
            (self is FVarcharAsc || self is FVarcharDesc) ==> self.term() == "`f_varchar`"@ + (if self is FVarcharDesc { " DESC"@ } else { " ASC"@ }),
            (self is IdAsc || self is IdDesc) ==> self.term() == "`id`"@ + (if self is IdDesc { " DESC"@ } else { " ASC"@ }),
    {
        reveal_strlit("`f_date` ASC");
        reveal_strlit("f_date");
        reveal_strlit("`f_date` DESC");
        reveal_strlit("`f_int` ASC");
        reveal_strlit("f_int");
        reveal_strlit("`f_int` DESC");
        reveal_strlit("`f_varchar` ASC");
        reveal_strlit("f_varchar");
        reveal_strlit("`f_varchar` DESC");
        reveal_strlit("`id` ASC");
        reveal_strlit("id");
        reveal_strlit("`id` DESC");
        reveal_strlit("`f_date`");
        reveal_strlit("`f_int`");
        reveal_strlit("`f_varchar`");
        reveal_strlit("`id`");
        reveal_strlit(" ASC");
        reveal_strlit(" DESC");
    }

    /// The `ORDER BY` term of this ordering.
    pub fn as_str(&self) -> (s: &'static str)
        ensures
            s@ == self.term(),
    {
        match self {
            CompTypesActiveViewOrderBy::FDateAsc => "`f_date` ASC",
            CompTypesActiveViewOrderBy::FDateDesc => "`f_date` DESC",
            CompTypesActiveViewOrderBy::FIntAsc => "`f_int` ASC",
            CompTypesActiveViewOrderBy::FIntDesc => "`f_int` DESC",
            CompTypesActiveViewOrderBy::FVarcharAsc => "`f_varchar` ASC",
            CompTypesActiveViewOrderBy::FVarcharDesc => "`f_varchar` DESC",
            CompTypesActiveViewOrderBy::IdAsc => "`id` ASC",
            CompTypesActiveViewOrderBy::IdDesc => "`id` DESC",
        }
    }

    /// Different orderings have different terms: a term names one column and
    /// one direction.
    pub proof fn law_terms_are_distinct(a: Self, b: Self)
        ensures
            a.term() == b.term() ==> a == b,
    {
        reveal_strlit("`f_date` ASC");
        assert("`f_date` ASC"@.len() == 12 && "`f_date` ASC"@[3] == 'd');
        reveal_strlit("`f_date` DESC");
        assert("`f_date` DESC"@.len() == 13 && "`f_date` DESC"@[3] == 'd');
        reveal_strlit("`f_int` ASC");
        assert("`f_int` ASC"@.len() == 11 && "`f_int` ASC"@[3] == 'i');
        reveal_strlit("`f_int` DESC");
        assert("`f_int` DESC"@.len() == 12 && "`f_int` DESC"@[3] == 'i');
        reveal_strlit("`f_varchar` ASC");
        assert("`f_varchar` ASC"@.len() == 15 && "`f_varchar` ASC"@[3] == 'v');
        reveal_strlit("`f_varchar` DESC");
        assert("`f_varchar` DESC"@.len() == 16 && "`f_varchar` DESC"@[3] == 'v');
        reveal_strlit("`id` ASC");
        assert("`id` ASC"@.len() == 8 && "`id` ASC"@[3] == '`');
        reveal_strlit("`id` DESC");
        assert("`id` DESC"@.len() == 9 && "`id` DESC"@[3] == '`');
    }
}


impl CompTypesActiveView {
    /// The constraint violations of this row, in the order the checks run.
    pub open spec fn validation_errors(self) -> Seq<Seq<char>> {
        Seq::empty()
            + when_some(self.f_int, |v: i32| error_if((v as int) < 0, "f_int: minimum value '0' not met"@))
            + when_some(self.f_int, |v: i32| error_if((v as int) > 2147483647, "f_int: maximum value '2147483647' exceeded"@))
            + when_some(self.f_varchar, |v: String| error_if((utf8_len(v@) as usize) > 255, "f_varchar: exceeds max_length 255"@))
            + when_some(self.f_varchar, |v: String| format_error("^[\u{c0}-\u{ff}A-Za-z0-9_ -]*$"@, v@, "f_varchar: format constraint not met"@, "f_varchar: configured regex is invalid"@))
            + error_if((self.id as int) < 0, "id: minimum value '0' not met"@)
            + error_if((self.id as int) > 9223372036854775807, "id: maximum value '9223372036854775807' exceeded"@)
    }

    /// The constraints of `f_int` are checked: a value that breaks one gets
    /// that constraint's message.
    pub proof fn law_f_int_constraints_are_reported(self)
        ensures
            self.f_int matches Some(v) ==> ((v as int) < 0 ==> self.validation_errors().contains("f_int: minimum value '0' not met"@)),
            self.f_int matches Some(v) ==> ((v as int) > 2147483647 ==> self.validation_errors().contains("f_int: maximum value '2147483647' exceeded"@)),
    {
        assert(self.f_int matches Some(v) ==> ((v as int) < 0 ==> self.validation_errors().contains("f_int: minimum value '0' not met"@))) by {
            broadcast use lemma_contains_concat;
            if let Some(v) = self.f_int {
                lemma_error_if_reports((v as int) < 0, "f_int: minimum value '0' not met"@);
            }
        }
        assert(self.f_int matches Some(v) ==> ((v as int) > 2147483647 ==> self.validation_errors().contains("f_int: maximum value '2147483647' exceeded"@))) by {
            broadcast use lemma_contains_concat;
            if let Some(v) = self.f_int {
                lemma_error_if_reports((v as int) > 2147483647, "f_int: maximum value '2147483647' exceeded"@);
            }
        }
    }

    /// The constraints of `f_varchar` are checked: a value that breaks one gets
    /// that constraint's message.
    pub proof fn law_f_varchar_constraints_are_reported(self)
        ensures
            self.f_varchar matches Some(v) ==> ((utf8_len(v@) as usize) > 255 ==> self.validation_errors().contains("f_varchar: exceeds max_length 255"@)),
            self.f_varchar matches Some(v) ==> (regex_match("^[\u{c0}-\u{ff}A-Za-z0-9_ -]*$"@, v@) == Some(false) ==> self.validation_errors().contains("f_varchar: format constraint not met"@)),
            self.f_varchar matches Some(v) ==> (regex_match("^[\u{c0}-\u{ff}A-Za-z0-9_ -]*$"@, v@) is None ==> self.validation_errors().contains("f_varchar: configured regex is invalid"@)),
    {
        assert(self.f_varchar matches Some(v) ==> ((utf8_len(v@) as usize) > 255 ==> self.validation_errors().contains("f_varchar: exceeds max_length 255"@))) by {
            broadcast use lemma_contains_concat;
            if let Some(v) = self.f_varchar {
                lemma_error_if_reports((utf8_len(v@) as usize) > 255, "f_varchar: exceeds max_length 255"@);
            }
        }
        assert(self.f_varchar matches Some(v) ==> (regex_match("^[\u{c0}-\u{ff}A-Za-z0-9_ -]*$"@, v@) == Some(false) ==> self.validation_errors().contains("f_varchar: format constraint not met"@))) by {
            broadcast use lemma_contains_concat;
            if let Some(v) = self.f_varchar {
                lemma_format_error_reports("^[\u{c0}-\u{ff}A-Za-z0-9_ -]*$"@, v@, "f_varchar: format constraint not met"@, "f_varchar: configured regex is invalid"@);
            }
        }
        assert(self.f_varchar matches Some(v) ==> (regex_match("^[\u{c0}-\u{ff}A-Za-z0-9_ -]*$"@, v@) is None ==> self.validation_errors().contains("f_varchar: configured regex is invalid"@))) by {
            broadcast use lemma_contains_concat;
            if let Some(v) = self.f_varchar {
                lemma_format_error_reports("^[\u{c0}-\u{ff}A-Za-z0-9_ -]*$"@, v@, "f_varchar: format constraint not met"@, "f_varchar: configured regex is invalid"@);
            }
        }
    }

    /// The constraints of `id` are checked: a value that breaks one gets
    /// that constraint's message.
    pub proof fn law_id_constraints_are_reported(self)
        ensures
            ((self.id as int) < 0) ==> self.validation_errors().contains("id: minimum value '0' not met"@),
            ((self.id as int) > 9223372036854775807) ==> self.validation_errors().contains("id: maximum value '9223372036854775807' exceeded"@),
    {
        assert(((self.id as int) < 0) ==> self.validation_errors().contains("id: minimum value '0' not met"@)) by {
            broadcast use lemma_contains_concat;
            lemma_error_if_reports((self.id as int) < 0, "id: minimum value '0' not met"@);
        }
        assert(((self.id as int) > 9223372036854775807) ==> self.validation_errors().contains("id: maximum value '9223372036854775807' exceeded"@)) by {
            broadcast use lemma_contains_concat;
            lemma_error_if_reports((self.id as int) > 9223372036854775807, "id: maximum value '9223372036854775807' exceeded"@);
        }
    }

    /// A row that breaks none of the constraints gets no message at all.
    pub proof fn law_row_within_constraints_gets_no_message(self)
        ensures
            ((self.f_int matches Some(v) ==> !((v as int) < 0))
                && (self.f_int matches Some(v) ==> !((v as int) > 2147483647))
                && (self.f_varchar matches Some(v) ==> !((utf8_len(v@) as usize) > 255))
                && (self.f_varchar matches Some(v) ==> regex_match("^[\u{c0}-\u{ff}A-Za-z0-9_ -]*$"@, v@) == Some(true))
                && (!((self.id as int) < 0))
                && (!((self.id as int) > 9223372036854775807)))
                ==> self.validation_errors() == Seq::<Seq<char>>::empty(),
    {
        if (self.f_int matches Some(v) ==> !((v as int) < 0))
            && (self.f_int matches Some(v) ==> !((v as int) > 2147483647))
            && (self.f_varchar matches Some(v) ==> !((utf8_len(v@) as usize) > 255))
            && (self.f_varchar matches Some(v) ==> regex_match("^[\u{c0}-\u{ff}A-Za-z0-9_ -]*$"@, v@) == Some(true))
            && (!((self.id as int) < 0))
            && (!((self.id as int) > 9223372036854775807)) {
            if let Some(v) = self.f_int {
                lemma_error_if_reports((v as int) < 0, "f_int: minimum value '0' not met"@);
            }
            if let Some(v) = self.f_int {
                lemma_error_if_reports((v as int) > 2147483647, "f_int: maximum value '2147483647' exceeded"@);
            }
            if let Some(v) = self.f_varchar {
                lemma_error_if_reports((utf8_len(v@) as usize) > 255, "f_varchar: exceeds max_length 255"@);
            }
            if let Some(v) = self.f_varchar {
                lemma_format_error_reports("^[\u{c0}-\u{ff}A-Za-z0-9_ -]*$"@, v@, "f_varchar: format constraint not met"@, "f_varchar: configured regex is invalid"@);
            }
            lemma_error_if_reports((self.id as int) < 0, "id: minimum value '0' not met"@);
            lemma_error_if_reports((self.id as int) > 9223372036854775807, "id: maximum value '9223372036854775807' exceeded"@);
        }
    }

    fn collect_errors(&self) -> (errors: Vec<String>)
        ensures
            errors_view(errors@) == self.validation_errors(),
    {
        let mut errors: Vec<String> = Vec::new();
        check_min_opt_i32(&mut errors, self.f_int, 0, "f_int: minimum value '0' not met");
        check_max_opt_i32(&mut errors, self.f_int, 2147483647, "f_int: maximum value '2147483647' exceeded");
        check_max_len_opt(&mut errors, &self.f_varchar, 255, "f_varchar: exceeds max_length 255");
        check_format_opt(&mut errors, "^[\u{c0}-\u{ff}A-Za-z0-9_ -]*$", &self.f_varchar, "f_varchar: format constraint not met", "f_varchar: configured regex is invalid");
        check_min(&mut errors, self.id as i128, 0, "id: minimum value '0' not met");
        check_max(&mut errors, self.id as i128, 9223372036854775807, "id: maximum value '9223372036854775807' exceeded");
        errors
    }

    /// Checks the constraints of the columns (lengths, ranges, allowed values,
    /// finite numbers and formats): `Ok` when all hold, the messages of those
    /// that fail otherwise, in the order the checks run.
    pub fn validate(&self) -> (r: Result<(), Vec<String>>)
        ensures
            validation_result(r, self.validation_errors()),
    {
        outcome(self.collect_errors())
    }

    /// The statement that counts the rows.
    pub fn count() -> (st: Statement)
        ensures
            st@.sql == "SELECT COUNT(*) FROM `comp_types_active_view`"@,
            st@.binds == Seq::<BindV>::empty(),
    {
        Statement::new("SELECT COUNT(*) FROM `comp_types_active_view`", Vec::new())
    }

    /// The statement that reads the row-count estimate from the database statistics.
    pub fn approximate_count() -> (st: Statement)
        ensures
            st@.sql == "SELECT table_rows FROM information_schema.tables WHERE table_name = ? AND table_schema = DATABASE()"@,
            st@.binds == seq![BindV::Text(Some("comp_types_active_view"@))],
    {
        Statement::new("SELECT table_rows FROM information_schema.tables WHERE table_name = ? AND table_schema = DATABASE()", vec![SqlValue::str("comp_types_active_view")])
    }

    /// The statement that streams the rows in key order, at most `limit` of them (brought into `1..=10000`).
    pub fn stream_all(limit: i64) -> (st: Statement)
        ensures
            st@.sql == "SELECT `f_date`, `f_int`, `f_varchar`, `id` FROM `comp_types_active_view` ORDER BY `id` ASC LIMIT ?"@,
            st@.binds == seq![BindV::BigInt(Some(clamp(limit as int, 1, 10000) as i64))],
    {
        Statement::new("SELECT `f_date`, `f_int`, `f_varchar`, `id` FROM `comp_types_active_view` ORDER BY `id` ASC LIMIT ?", vec![SqlValue::BigInt(Some(row_limit(limit)))])
    }
}

} // verus!

