//! The `comp_types_table` table (MySQL dialect): rows, orderings, constraints and statements.
use vstd::prelude::*;
use crate::value::{SqlValue, BindV, Statement, opt_text_v, opt_chars, values_of_i64};
use crate::sql::{push_assignment, assigned_column, Placeholder, values_sql, values_text, values_piece, values_plan, update_sql, update_text, in_list_piece, in_list_plan, chunks, rows_view, values_assignment};
use crate::validation::{error_if, format_error, errors_view, check_min, check_max, outcome, joined_errors, validation_result, when_some, check_max_len_opt, check_format_opt, check_min_opt_i32, check_max_opt_i32, lemma_contains_concat, lemma_error_if_reports, lemma_format_error_reports, regex_match};
use crate::paging::{row_limit, page_limit, clamp};
use crate::text::{utf8_len, join};

verus! {

/// A row of `comp_types_table`.
#[derive(Clone, Debug)]
pub struct CompTypesTable {
    pub f_bool: Option<bool>,
    pub f_decimal: Option<String>,
    pub f_double: Option<String>,
    pub f_float: Option<String>,
    pub f_int: Option<i32>,
    pub f_text: Option<String>,
    pub f_varchar: Option<String>,
    pub id: i64,
}

/// The columns of `comp_types_table` to change: `None` leaves a column as it is, `Some(v)` writes `v`.
#[derive(Clone, Debug)]
pub struct CompTypesTablePatch {
    pub f_bool: Option<Option<bool>>,
    pub f_decimal: Option<Option<String>>,
    pub f_double: Option<Option<String>>,
    pub f_float: Option<Option<String>>,
    pub f_int: Option<Option<i32>>,
    pub f_text: Option<Option<String>>,
    pub f_varchar: Option<Option<String>>,
}

impl Default for CompTypesTablePatch {
    /// A patch that changes nothing.
    fn default() -> (p: Self)
        ensures
            p.f_bool is None,
            p.f_decimal is None,
            p.f_double is None,
            p.f_float is None,
            p.f_int is None,
            p.f_text is None,
            p.f_varchar is None,
    {
        CompTypesTablePatch { f_bool: None, f_decimal: None, f_double: None, f_float: None, f_int: None, f_text: None, f_varchar: None }
    }
}

/// A column and a direction to order listings by.
#[derive(Clone, Copy, Debug, PartialEq, Eq, Structural)]
pub enum CompTypesTableOrderBy {
    FBoolAsc,
    FBoolDesc,
    FDecimalAsc,
    FDecimalDesc,
    FDoubleAsc,
    FDoubleDesc,
    FFloatAsc,
    FFloatDesc,
    FIntAsc,
    FIntDesc,
    FTextAsc,
    FTextDesc,
    FVarcharAsc,
    FVarcharDesc,
    IdAsc,
    IdDesc,
}

impl CompTypesTableOrderBy {
    /// The `ORDER BY` term of this ordering.
    pub open spec fn term(self) -> Seq<char> {
        match self {
            CompTypesTableOrderBy::FBoolAsc => "`f_bool` ASC"@,
            CompTypesTableOrderBy::FBoolDesc => "`f_bool` DESC"@,
            CompTypesTableOrderBy::FDecimalAsc => "`f_decimal` ASC"@,
            CompTypesTableOrderBy::FDecimalDesc => "`f_decimal` DESC"@,
            CompTypesTableOrderBy::FDoubleAsc => "`f_double` ASC"@,
            CompTypesTableOrderBy::FDoubleDesc => "`f_double` DESC"@,
            CompTypesTableOrderBy::FFloatAsc => "`f_float` ASC"@,
            CompTypesTableOrderBy::FFloatDesc => "`f_float` DESC"@,
            CompTypesTableOrderBy::FIntAsc => "`f_int` ASC"@,
            CompTypesTableOrderBy::FIntDesc => "`f_int` DESC"@,
            CompTypesTableOrderBy::FTextAsc => "`f_text` ASC"@,
            CompTypesTableOrderBy::FTextDesc => "`f_text` DESC"@,
            CompTypesTableOrderBy::FVarcharAsc => "`f_varchar` ASC"@,
            CompTypesTableOrderBy::FVarcharDesc => "`f_varchar` DESC"@,
            CompTypesTableOrderBy::IdAsc => "`id` ASC"@,
            CompTypesTableOrderBy::IdDesc => "`id` DESC"@,
        }
    }

    /// An ordering sorts by the column its name says, ascending for an
    /// `...Asc` ordering and descending for a `...Desc` one: its term is that
    /// column, then `ASC` or `DESC`.
    pub proof fn law_term_names_column_and_direction(self)
        ensures
            (self is FBoolAsc || self is FBoolDesc) ==> self.term() == "`f_bool`"@ + (if self is FBoolDesc { " DESC"@ } else { " ASC"@ }),
            (self is FDecimalAsc || self is FDecimalDesc) ==> self.term() == "`f_decimal`"@ + (if self is FDecimalDesc { " DESC"@ } else { " ASC"@ }),
            (self is FDoubleAsc || self is FDoubleDesc) ==> self.term() == "`f_double`"@ + (if self is FDoubleDesc { " DESC"@ } else { " ASC"@ }),
            (self is FFloatAsc || self is FFloatDesc) ==> self.term() == "`f_float`"@ + (if self is FFloatDesc { " DESC"@ } else { " ASC"@ }),
            (self is FIntAsc || self is FIntDesc) ==> self.term() == "`f_int`"@ + (if self is FIntDesc { " DESC"@ } else { " ASC"@ }),
            (self is FTextAsc || self is FTextDesc) ==> self.term() == "`f_text`"@ + (if self is FTextDesc { " DESC"@ } else { " ASC"@ }),
            (self is FVarcharAsc || self is FVarcharDesc) ==> self.term() == "`f_varchar`"@ + (if self is FVarcharDesc { " DESC"@ } else { " ASC"@ }),
            (self is IdAsc || self is IdDesc) ==> self.term() == "`id`"@ + (if self is IdDesc { " DESC"@ } else { " ASC"@ }),
    {
        reveal_strlit("`f_bool` ASC");
        reveal_strlit("f_bool");
        reveal_strlit("`f_bool` DESC");
        reveal_strlit("`f_decimal` ASC");
        reveal_strlit("f_decimal");
        reveal_strlit("`f_decimal` DESC");
        reveal_strlit("`f_double` ASC");
        reveal_strlit("f_double");
        reveal_strlit("`f_double` DESC");
        reveal_strlit("`f_float` ASC");
        reveal_strlit("f_float");
        reveal_strlit("`f_float` DESC");
        reveal_strlit("`f_int` ASC");
        reveal_strlit("f_int");
        reveal_strlit("`f_int` DESC");
        reveal_strlit("`f_text` ASC");
        reveal_strlit("f_text");
        reveal_strlit("`f_text` DESC");
        reveal_strlit("`f_varchar` ASC");
        reveal_strlit("f_varchar");
        reveal_strlit("`f_varchar` DESC");
        reveal_strlit("`id` ASC");
        reveal_strlit("id");
        reveal_strlit("`id` DESC");
        reveal_strlit("`f_bool`");
        reveal_strlit("`f_decimal`");
        reveal_strlit("`f_double`");
        reveal_strlit("`f_float`");
        reveal_strlit("`f_int`");
        reveal_strlit("`f_text`");
        reveal_strlit("`f_varchar`");
        reveal_strlit("`id`");
        reveal_strlit(" ASC");
        reveal_strlit(" DESC");
    }

    /// The `ORDER BY` term of this ordering.
    pub fn as_str(&self) -> (s: &'static str)
        ensures
            s@ == self.term(),
    {
        match self {
            CompTypesTableOrderBy::FBoolAsc => "`f_bool` ASC",
            CompTypesTableOrderBy::FBoolDesc => "`f_bool` DESC",
            CompTypesTableOrderBy::FDecimalAsc => "`f_decimal` ASC",
            CompTypesTableOrderBy::FDecimalDesc => "`f_decimal` DESC",
            CompTypesTableOrderBy::FDoubleAsc => "`f_double` ASC",
            CompTypesTableOrderBy::FDoubleDesc => "`f_double` DESC",
            CompTypesTableOrderBy::FFloatAsc => "`f_float` ASC",
            CompTypesTableOrderBy::FFloatDesc => "`f_float` DESC",
            CompTypesTableOrderBy::FIntAsc => "`f_int` ASC",
            CompTypesTableOrderBy::FIntDesc => "`f_int` DESC",
            CompTypesTableOrderBy::FTextAsc => "`f_text` ASC",
            CompTypesTableOrderBy::FTextDesc => "`f_text` DESC",
            CompTypesTableOrderBy::FVarcharAsc => "`f_varchar` ASC",
            CompTypesTableOrderBy::FVarcharDesc => "`f_varchar` DESC",
            CompTypesTableOrderBy::IdAsc => "`id` ASC",
            CompTypesTableOrderBy::IdDesc => "`id` DESC",
        }
    }

    /// Different orderings have different terms: a term names one column and
    /// one direction.
    pub proof fn law_terms_are_distinct(a: Self, b: Self)
        ensures
            a.term() == b.term() ==> a == b,
    {
        reveal_strlit("`f_bool` ASC");
        assert("`f_bool` ASC"@.len() == 12 && "`f_bool` ASC"@[3] == 'b' && "`f_bool` ASC"@[4] == 'o');
        reveal_strlit("`f_bool` DESC");
        assert("`f_bool` DESC"@.len() == 13 && "`f_bool` DESC"@[3] == 'b' && "`f_bool` DESC"@[4] == 'o');
        reveal_strlit("`f_decimal` ASC");
        assert("`f_decimal` ASC"@.len() == 15 && "`f_decimal` ASC"@[3] == 'd' && "`f_decimal` ASC"@[4] == 'e');
        reveal_strlit("`f_decimal` DESC");
        assert("`f_decimal` DESC"@.len() == 16 && "`f_decimal` DESC"@[3] == 'd' && "`f_decimal` DESC"@[4] == 'e');
        reveal_strlit("`f_double` ASC");
        assert("`f_double` ASC"@.len() == 14 && "`f_double` ASC"@[3] == 'd' && "`f_double` ASC"@[4] == 'o');
        reveal_strlit("`f_double` DESC");
        assert("`f_double` DESC"@.len() == 15 && "`f_double` DESC"@[3] == 'd' && "`f_double` DESC"@[4] == 'o');
        reveal_strlit("`f_float` ASC");
        assert("`f_float` ASC"@.len() == 13 && "`f_float` ASC"@[3] == 'f' && "`f_float` ASC"@[4] == 'l');
        reveal_strlit("`f_float` DESC");
        assert("`f_float` DESC"@.len() == 14 && "`f_float` DESC"@[3] == 'f' && "`f_float` DESC"@[4] == 'l');
        reveal_strlit("`f_int` ASC");
        assert("`f_int` ASC"@.len() == 11 && "`f_int` ASC"@[3] == 'i' && "`f_int` ASC"@[4] == 'n');
        reveal_strlit("`f_int` DESC");
        assert("`f_int` DESC"@.len() == 12 && "`f_int` DESC"@[3] == 'i' && "`f_int` DESC"@[4] == 'n');
        reveal_strlit("`f_text` ASC");
        assert("`f_text` ASC"@.len() == 12 && "`f_text` ASC"@[3] == 't' && "`f_text` ASC"@[4] == 'e');
        reveal_strlit("`f_text` DESC");
        assert("`f_text` DESC"@.len() == 13 && "`f_text` DESC"@[3] == 't' && "`f_text` DESC"@[4] == 'e');
        reveal_strlit("`f_varchar` ASC");
        assert("`f_varchar` ASC"@.len() == 15 && "`f_varchar` ASC"@[3] == 'v' && "`f_varchar` ASC"@[4] == 'a');
        reveal_strlit("`f_varchar` DESC");
        assert("`f_varchar` DESC"@.len() == 16 && "`f_varchar` DESC"@[3] == 'v' && "`f_varchar` DESC"@[4] == 'a');
        reveal_strlit("`id` ASC");
        assert("`id` ASC"@.len() == 8 && "`id` ASC"@[3] == '`' && "`id` ASC"@[4] == ' ');
        reveal_strlit("`id` DESC");
        assert("`id` DESC"@.len() == 9 && "`id` DESC"@[3] == '`' && "`id` DESC"@[4] == ' ');
    }
}


impl CompTypesTable {
    /// The constraint violations of this row, in the order the checks run.
    pub open spec fn validation_errors(self) -> Seq<Seq<char>> {
        Seq::empty()
            + when_some(self.f_int, |v: i32| error_if((v as int) < 0, "f_int: minimum value '0' not met"@))
            + when_some(self.f_int, |v: i32| error_if((v as int) > 2147483647, "f_int: maximum value '2147483647' exceeded"@))
            + when_some(self.f_text, |v: String| error_if((utf8_len(v@) as usize) > 65535, "f_text: exceeds max_length 65535"@))
            + when_some(self.f_text, |v: String| format_error("^[\u{c0}-\u{ff}A-Za-z0-9_ -]*$"@, v@, "f_text: format constraint not met"@, "f_text: configured regex is invalid"@))
            + when_some(self.f_varchar, |v: String| error_if((utf8_len(v@) as usize) > 255, "f_varchar: exceeds max_length 255"@))
            + when_some(self.f_varchar, |v: String| format_error("^[\u{c0}-\u{ff}A-Za-z0-9_ -]*$"@, v@, "f_varchar: format constraint not met"@, "f_varchar: configured regex is invalid"@))
            + error_if((self.id as int) < 0, "id: minimum value '0' not met"@)
            + error_if((self.id as int) > 9223372036854775807, "id: maximum value '9223372036854775807' exceeded"@)
    }

    /// The constraints of `f_int` are checked: a value that breaks one gets
    /// that constraint's message.
    pub proof fn law_f_int_constraints_are_reported(self)
        ensures
            self.f_int matches Some(v) ==> ((v as int) < 0 ==> self.validation_errors().contains("f_int: minimum value '0' not met"@)),
            self.f_int matches Some(v) ==> ((v as int) > 2147483647 ==> self.validation_errors().contains("f_int: maximum value '2147483647' exceeded"@)),
    {
        assert(self.f_int matches Some(v) ==> ((v as int) < 0 ==> self.validation_errors().contains("f_int: minimum value '0' not met"@))) by {
            broadcast use lemma_contains_concat;
            if let Some(v) = self.f_int {
                lemma_error_if_reports((v as int) < 0, "f_int: minimum value '0' not met"@);
            }
        }
        assert(self.f_int matches Some(v) ==> ((v as int) > 2147483647 ==> self.validation_errors().contains("f_int: maximum value '2147483647' exceeded"@))) by {
            broadcast use lemma_contains_concat;
            if let Some(v) = self.f_int {
                lemma_error_if_reports((v as int) > 2147483647, "f_int: maximum value '2147483647' exceeded"@);
            }
        }
    }

    /// The constraints of `f_text` are checked: a value that breaks one gets
    /// that constraint's message.
    pub proof fn law_f_text_constraints_are_reported(self)
        ensures
            self.f_text matches Some(v) ==> ((utf8_len(v@) as usize) > 65535 ==> self.validation_errors().contains("f_text: exceeds max_length 65535"@)),
            self.f_text matches Some(v) ==> (regex_match("^[\u{c0}-\u{ff}A-Za-z0-9_ -]*$"@, v@) == Some(false) ==> self.validation_errors().contains("f_text: format constraint not met"@)),
            self.f_text matches Some(v) ==> (regex_match("^[\u{c0}-\u{ff}A-Za-z0-9_ -]*$"@, v@) is None ==> self.validation_errors().contains("f_text: configured regex is invalid"@)),
    {
        assert(self.f_text matches Some(v) ==> ((utf8_len(v@) as usize) > 65535 ==> self.validation_errors().contains("f_text: exceeds max_length 65535"@))) by {
            broadcast use lemma_contains_concat;
            if let Some(v) = self.f_text {
                lemma_error_if_reports((utf8_len(v@) as usize) > 65535, "f_text: exceeds max_length 65535"@);
            }
        }
        assert(self.f_text matches Some(v) ==> (regex_match("^[\u{c0}-\u{ff}A-Za-z0-9_ -]*$"@, v@) == Some(false) ==> self.validation_errors().contains("f_text: format constraint not met"@))) by {
            broadcast use lemma_contains_concat;
            if let Some(v) = self.f_text {
                lemma_format_error_reports("^[\u{c0}-\u{ff}A-Za-z0-9_ -]*$"@, v@, "f_text: format constraint not met"@, "f_text: configured regex is invalid"@);
            }
        }
        assert(self.f_text matches Some(v) ==> (regex_match("^[\u{c0}-\u{ff}A-Za-z0-9_ -]*$"@, v@) is None ==> self.validation_errors().contains("f_text: configured regex is invalid"@))) by {
            broadcast use lemma_contains_concat;
            if let Some(v) = self.f_text {
                lemma_format_error_reports("^[\u{c0}-\u{ff}A-Za-z0-9_ -]*$"@, v@, "f_text: format constraint not met"@, "f_text: configured regex is invalid"@);
            }
        }
    }

    /// The constraints of `f_varchar` are checked: a value that breaks one gets
    /// that constraint's message.
    pub proof fn law_f_varchar_constraints_are_reported(self)
        ensures
            self.f_varchar matches Some(v) ==> ((utf8_len(v@) as usize) > 255 ==> self.validation_errors().contains("f_varchar: exceeds max_length 255"@)),
            self.f_varchar matches Some(v) ==> (regex_match("^[\u{c0}-\u{ff}A-Za-z0-9_ -]*$"@, v@) == Some(false) ==> self.validation_errors().contains("f_varchar: format constraint not met"@)),
            self.f_varchar matches Some(v) ==> (regex_match("^[\u{c0}-\u{ff}A-Za-z0-9_ -]*$"@, v@) is None ==> self.validation_errors().contains("f_varchar: configured regex is invalid"@)),
    {
        assert(self.f_varchar matches Some(v) ==> ((utf8_len(v@) as usize) > 255 ==> self.validation_errors().contains("f_varchar: exceeds max_length 255"@))) by {
            broadcast use lemma_contains_concat;
            if let Some(v) = self.f_varchar {
                lemma_error_if_reports((utf8_len(v@) as usize) > 255, "f_varchar: exceeds max_length 255"@);
            }
        }
        assert(self.f_varchar matches Some(v) ==> (regex_match("^[\u{c0}-\u{ff}A-Za-z0-9_ -]*$"@, v@) == Some(false) ==> self.validation_errors().contains("f_varchar: format constraint not met"@))) by {
            broadcast use lemma_contains_concat;
            if let Some(v) = self.f_varchar {
                lemma_format_error_reports("^[\u{c0}-\u{ff}A-Za-z0-9_ -]*$"@, v@, "f_varchar: format constraint not met"@, "f_varchar: configured regex is invalid"@);
            }
        }
        assert(self.f_varchar matches Some(v) ==> (regex_match("^[\u{c0}-\u{ff}A-Za-z0-9_ -]*$"@, v@) is None ==> self.validation_errors().contains("f_varchar: configured regex is invalid"@))) by {
            broadcast use lemma_contains_concat;
            if let Some(v) = self.f_varchar {
                lemma_format_error_reports("^[\u{c0}-\u{ff}A-Za-z0-9_ -]*$"@, v@, "f_varchar: format constraint not met"@, "f_varchar: configured regex is invalid"@);
            }
        }
    }

    /// The constraints of `id` are checked: a value that breaks one gets
    /// that constraint's message.
    pub proof fn law_id_constraints_are_reported(self)
        ensures
            ((self.id as int) < 0) ==> self.validation_errors().contains("id: minimum value '0' not met"@),
            ((self.id as int) > 9223372036854775807) ==> self.validation_errors().contains("id: maximum value '9223372036854775807' exceeded"@),
    {
        assert(((self.id as int) < 0) ==> self.validation_errors().contains("id: minimum value '0' not met"@)) by {
            broadcast use lemma_contains_concat;
            lemma_error_if_reports((self.id as int) < 0, "id: minimum value '0' not met"@);
        }
        assert(((self.id as int) > 9223372036854775807) ==> self.validation_errors().contains("id: maximum value '9223372036854775807' exceeded"@)) by {
            broadcast use lemma_contains_concat;
            lemma_error_if_reports((self.id as int) > 9223372036854775807, "id: maximum value '9223372036854775807' exceeded"@);
        }
    }

    /// A row that breaks none of the constraints gets no message at all.
    pub proof fn law_row_within_constraints_gets_no_message(self)
        ensures
            ((self.f_int matches Some(v) ==> !((v as int) < 0))
                && (self.f_int matches Some(v) ==> !((v as int) > 2147483647))
                && (self.f_text matches Some(v) ==> !((utf8_len(v@) as usize) > 65535))
                && (self.f_text matches Some(v) ==> regex_match("^[\u{c0}-\u{ff}A-Za-z0-9_ -]*$"@, v@) == Some(true))
                && (self.f_varchar matches Some(v) ==> !((utf8_len(v@) as usize) > 255))
                && (self.f_varchar matches Some(v) ==> regex_match("^[\u{c0}-\u{ff}A-Za-z0-9_ -]*$"@, v@) == Some(true))
                && (!((self.id as int) < 0))
                && (!((self.id as int) > 9223372036854775807)))
                ==> self.validation_errors() == Seq::<Seq<char>>::empty(),
    {
        if (self.f_int matches Some(v) ==> !((v as int) < 0))
            && (self.f_int matches Some(v) ==> !((v as int) > 2147483647))
            && (self.f_text matches Some(v) ==> !((utf8_len(v@) as usize) > 65535))
            && (self.f_text matches Some(v) ==> regex_match("^[\u{c0}-\u{ff}A-Za-z0-9_ -]*$"@, v@) == Some(true))
            && (self.f_varchar matches Some(v) ==> !((utf8_len(v@) as usize) > 255))
            && (self.f_varchar matches Some(v) ==> regex_match("^[\u{c0}-\u{ff}A-Za-z0-9_ -]*$"@, v@) == Some(true))
            && (!((self.id as int) < 0))
            && (!((self.id as int) > 9223372036854775807)) {
            if let Some(v) = self.f_int {
                lemma_error_if_reports((v as int) < 0, "f_int: minimum value '0' not met"@);
            }
            if let Some(v) = self.f_int {
                lemma_error_if_reports((v as int) > 2147483647, "f_int: maximum value '2147483647' exceeded"@);
            }
            if let Some(v) = self.f_text {
                lemma_error_if_reports((utf8_len(v@) as usize) > 65535, "f_text: exceeds max_length 65535"@);
            }
            if let Some(v) = self.f_text {
                lemma_format_error_reports("^[\u{c0}-\u{ff}A-Za-z0-9_ -]*$"@, v@, "f_text: format constraint not met"@, "f_text: configured regex is invalid"@);
            }
            if let Some(v) = self.f_varchar {
                lemma_error_if_reports((utf8_len(v@) as usize) > 255, "f_varchar: exceeds max_length 255"@);
            }
            if let Some(v) = self.f_varchar {
                lemma_format_error_reports("^[\u{c0}-\u{ff}A-Za-z0-9_ -]*$"@, v@, "f_varchar: format constraint not met"@, "f_varchar: configured regex is invalid"@);
            }
            lemma_error_if_reports((self.id as int) < 0, "id: minimum value '0' not met"@);
            lemma_error_if_reports((self.id as int) > 9223372036854775807, "id: maximum value '9223372036854775807' exceeded"@);
        }
    }

    fn collect_errors(&self) -> (errors: Vec<String>)
        ensures
            errors_view(errors@) == self.validation_errors(),
    {
        let mut errors: Vec<String> = Vec::new();
        check_min_opt_i32(&mut errors, self.f_int, 0, "f_int: minimum value '0' not met");
        check_max_opt_i32(&mut errors, self.f_int, 2147483647, "f_int: maximum value '2147483647' exceeded");
        check_max_len_opt(&mut errors, &self.f_text, 65535, "f_text: exceeds max_length 65535");
        check_format_opt(&mut errors, "^[\u{c0}-\u{ff}A-Za-z0-9_ -]*$", &self.f_text, "f_text: format constraint not met", "f_text: configured regex is invalid");
        check_max_len_opt(&mut errors, &self.f_varchar, 255, "f_varchar: exceeds max_length 255");
        check_format_opt(&mut errors, "^[\u{c0}-\u{ff}A-Za-z0-9_ -]*$", &self.f_varchar, "f_varchar: format constraint not met", "f_varchar: configured regex is invalid");
        check_min(&mut errors, self.id as i128, 0, "id: minimum value '0' not met");
        check_max(&mut errors, self.id as i128, 9223372036854775807, "id: maximum value '9223372036854775807' exceeded");
        errors
    }

    /// Checks the constraints of the columns (lengths, ranges, allowed values,
    /// finite numbers and formats): `Ok` when all hold, the messages of those
    /// that fail otherwise, in the order the checks run.
    pub fn validate(&self) -> (r: Result<(), Vec<String>>)
        ensures
            validation_result(r, self.validation_errors()),
    {
        outcome(self.collect_errors())
    }

    /// The statement that counts the rows.
    pub fn count() -> (st: Statement)
        ensures
            st@.sql == "SELECT COUNT(*) FROM `comp_types_table`"@,
            st@.binds == Seq::<BindV>::empty(),
    {
        Statement::new("SELECT COUNT(*) FROM `comp_types_table`", Vec::new())
    }

    /// The statement that reads the row-count estimate from the database statistics.
    pub fn approximate_count() -> (st: Statement)
        ensures
            st@.sql == "SELECT table_rows FROM information_schema.tables WHERE table_name = 'comp_types_table' AND table_schema = DATABASE()"@,
            st@.binds == Seq::<BindV>::empty(),
    {
        Statement::new("SELECT table_rows FROM information_schema.tables WHERE table_name = 'comp_types_table' AND table_schema = DATABASE()", Vec::new())
    }

    /// The statement that streams the rows in key order, at most `limit` of them (brought into `1..=10000`).
    pub fn stream_all(limit: i64) -> (st: Statement)
        ensures
            st@.sql == "SELECT `f_bool`, `f_decimal`, `f_double`, `f_float`, `f_int`, `f_text`, `f_varchar`, `id` FROM `comp_types_table` ORDER BY `id` ASC LIMIT ?"@,
            st@.binds == seq![BindV::BigInt(Some(clamp(limit as int, 1, 10000) as i64))],
    {
        Statement::new("SELECT `f_bool`, `f_decimal`, `f_double`, `f_float`, `f_int`, `f_text`, `f_varchar`, `id` FROM `comp_types_table` ORDER BY `id` ASC LIMIT ?", vec![SqlValue::BigInt(Some(row_limit(limit)))])
    }

    /// The statement that reads the row with the given key.
    pub fn get_by_id(id: i64) -> (st: Statement)
        ensures
            st@.sql == "SELECT `f_bool`, `f_decimal`, `f_double`, `f_float`, `f_int`, `f_text`, `f_varchar`, `id` FROM `comp_types_table` WHERE `id` = ?"@,
            st@.binds == seq![BindV::BigInt(Some(id))],
    {
        Statement::new("SELECT `f_bool`, `f_decimal`, `f_double`, `f_float`, `f_int`, `f_text`, `f_varchar`, `id` FROM `comp_types_table` WHERE `id` = ?", vec![SqlValue::BigInt(Some(id))])
    }

    /// The statement that tells whether a row with the given key exists.
    pub fn exists_by_id(id: i64) -> (st: Statement)
        ensures
            st@.sql == "SELECT 1 FROM `comp_types_table` WHERE `id` = ? LIMIT 1"@,
            st@.binds == seq![BindV::BigInt(Some(id))],
    {
        Statement::new("SELECT 1 FROM `comp_types_table` WHERE `id` = ? LIMIT 1", vec![SqlValue::BigInt(Some(id))])
    }

    /// The statement that lists the rows after a key in key order, at most `limit` of them (brought into `1..=10000`).
    pub fn list_by_cursor(last_id: i64, limit: u32) -> (st: Statement)
        ensures
            st@.sql == "SELECT `f_bool`, `f_decimal`, `f_double`, `f_float`, `f_int`, `f_text`, `f_varchar`, `id` FROM `comp_types_table` WHERE `id` > ? ORDER BY `id` ASC LIMIT ?"@,
            st@.binds == seq![BindV::BigInt(Some(last_id)), BindV::BigInt(Some(clamp(limit as int, 1, 10000) as i64))],
    {
        Statement::new("SELECT `f_bool`, `f_decimal`, `f_double`, `f_float`, `f_int`, `f_text`, `f_varchar`, `id` FROM `comp_types_table` WHERE `id` > ? ORDER BY `id` ASC LIMIT ?", vec![SqlValue::BigInt(Some(last_id)), SqlValue::BigInt(Some(page_limit(limit) as i64))])
    }

    /// The value this row holds in the column named `column`, as the
    /// statements bind it; `None` for a name that is not a column.
    pub open spec fn column_value(self, column: Seq<char>) -> Option<BindV> {
        if column == "f_bool"@ {
            Some(BindV::Bool(self.f_bool))
        } else if column == "f_decimal"@ {
            Some(BindV::Double(opt_chars(self.f_decimal)))
        } else if column == "f_double"@ {
            Some(BindV::Double(opt_chars(self.f_double)))
        } else if column == "f_float"@ {
            Some(BindV::Double(opt_chars(self.f_float)))
        } else if column == "f_int"@ {
            Some(BindV::Int(self.f_int))
        } else if column == "f_text"@ {
            Some(opt_text_v(self.f_text))
        } else if column == "f_varchar"@ {
            Some(opt_text_v(self.f_varchar))
        } else if column == "id"@ {
            Some(BindV::BigInt(Some(self.id)))
        } else {
            None
        }
    }

    /// The text that starts the single-row and multi-row writes, up to their
    /// `VALUES`.
    pub open spec fn insert_head() -> Seq<char> {
        "INSERT INTO `comp_types_table` (`f_bool`, `f_decimal`, `f_double`, `f_float`, `f_int`, `f_text`, `f_varchar`) "@
    }

    /// The single-row and multi-row writes name the columns `f_bool`, `f_decimal`, `f_double`, `f_float`, `f_int`, `f_text`, `f_varchar`
    /// in this order, and bind for each of them this row's value of that column.
    pub proof fn law_row_binds_named_columns(self)
        ensures
            Self::insert_head() == "INSERT INTO `comp_types_table` ("@ + "`f_bool`"@ + ", "@ + "`f_decimal`"@ + ", "@ + "`f_double`"@ + ", "@ + "`f_float`"@ + ", "@ + "`f_int`"@ + ", "@ + "`f_text`"@ + ", "@ + "`f_varchar`"@ + ") "@,
            self.row_values().len() == 7,
            self.column_value("f_bool"@) == Some(self.row_values()[0]),
            self.column_value("f_decimal"@) == Some(self.row_values()[1]),
            self.column_value("f_double"@) == Some(self.row_values()[2]),
            self.column_value("f_float"@) == Some(self.row_values()[3]),
            self.column_value("f_int"@) == Some(self.row_values()[4]),
            self.column_value("f_text"@) == Some(self.row_values()[5]),
            self.column_value("f_varchar"@) == Some(self.row_values()[6]),
    {
        reveal_strlit("f_bool");
        assert("f_bool"@.len() == 6 && "f_bool"@[2] == 'b');
        reveal_strlit("f_decimal");
        assert("f_decimal"@.len() == 9 && "f_decimal"@[2] == 'd');
        reveal_strlit("f_double");
        assert("f_double"@.len() == 8 && "f_double"@[2] == 'd');
        reveal_strlit("f_float");
        assert("f_float"@.len() == 7 && "f_float"@[2] == 'f');
        reveal_strlit("f_int");
        assert("f_int"@.len() == 5 && "f_int"@[2] == 'i');
        reveal_strlit("f_text");
        assert("f_text"@.len() == 6 && "f_text"@[2] == 't');
        reveal_strlit("f_varchar");
        assert("f_varchar"@.len() == 9 && "f_varchar"@[2] == 'v');
        reveal_strlit("id");
        assert("id"@.len() == 2);
        reveal_strlit("INSERT INTO `comp_types_table` (`f_bool`, `f_decimal`, `f_double`, `f_float`, `f_int`, `f_text`, `f_varchar`) ");
        reveal_strlit("INSERT INTO `comp_types_table` (");
        reveal_strlit("`f_bool`");
        reveal_strlit(", ");
        reveal_strlit("`f_decimal`");
        reveal_strlit("`f_double`");
        reveal_strlit("`f_float`");
        reveal_strlit("`f_int`");
        reveal_strlit("`f_text`");
        reveal_strlit("`f_varchar`");
        reveal_strlit(") ");
    }

    /// The columns the full update sets, as its text names them.
    pub open spec fn row_then_id_set_columns() -> Seq<Seq<char>> {
        seq!["`f_bool`"@, "`f_decimal`"@, "`f_double`"@, "`f_float`"@, "`f_int`"@, "`f_text`"@, "`f_varchar`"@]
    }

    /// The key columns the full update selects the row by, as its text names them.
    pub open spec fn row_then_id_key_columns() -> Seq<Seq<char>> {
        seq!["`id`"@]
    }

    /// The full update binds this row's value of each column it sets
    /// (`f_bool`, `f_decimal`, `f_double`, `f_float`, `f_int`, `f_text`, `f_varchar`), then of each key column
    /// (`id`), in the order the statement names them.
    pub proof fn law_row_then_id_binds_named_columns(self)
        ensures
            Self::row_then_id_set_columns() == seq!["`f_bool`"@, "`f_decimal`"@, "`f_double`"@, "`f_float`"@, "`f_int`"@, "`f_text`"@, "`f_varchar`"@],
            Self::row_then_id_key_columns() == seq!["`id`"@],
            self.row_then_id_values().len() == 8,
            self.column_value("f_bool"@) == Some(self.row_then_id_values()[0]),
            self.column_value("f_decimal"@) == Some(self.row_then_id_values()[1]),
            self.column_value("f_double"@) == Some(self.row_then_id_values()[2]),
            self.column_value("f_float"@) == Some(self.row_then_id_values()[3]),
            self.column_value("f_int"@) == Some(self.row_then_id_values()[4]),
            self.column_value("f_text"@) == Some(self.row_then_id_values()[5]),
            self.column_value("f_varchar"@) == Some(self.row_then_id_values()[6]),
            self.column_value("id"@) == Some(self.row_then_id_values()[7]),
    {
        reveal_strlit("f_bool");
        assert("f_bool"@.len() == 6 && "f_bool"@[2] == 'b');
        reveal_strlit("f_decimal");
        assert("f_decimal"@.len() == 9 && "f_decimal"@[2] == 'd');
        reveal_strlit("f_double");
        assert("f_double"@.len() == 8 && "f_double"@[2] == 'd');
        reveal_strlit("f_float");
        assert("f_float"@.len() == 7 && "f_float"@[2] == 'f');
        reveal_strlit("f_int");
        assert("f_int"@.len() == 5 && "f_int"@[2] == 'i');
        reveal_strlit("f_text");
        assert("f_text"@.len() == 6 && "f_text"@[2] == 't');
        reveal_strlit("f_varchar");
        assert("f_varchar"@.len() == 9 && "f_varchar"@[2] == 'v');
        reveal_strlit("id");
        assert("id"@.len() == 2);
    }

    /// A batch holds one row of values an item, in the order of the items.
    pub proof fn law_batch_rows_are_the_items_in_order(items: Seq<Self>)
        ensures
            Self::rows_values(items).len() == items.len(),
            forall|i: int| 0 <= i < items.len() ==> #[trigger] Self::rows_values(items)[i] == items[i].row_values(),
    {
    }

    /// What the upsert does on a key conflict, after its `VALUES`.
    pub open spec fn upsert_tail() -> Seq<char> {
        " ON DUPLICATE KEY UPDATE `f_bool` = VALUES(`f_bool`), `f_decimal` = VALUES(`f_decimal`), `f_double` = VALUES(`f_double`), `f_float` = VALUES(`f_float`), `f_int` = VALUES(`f_int`), `f_text` = VALUES(`f_text`), `f_varchar` = VALUES(`f_varchar`)"@
    }

    /// On a key conflict the upsert sets each of `f_bool`, `f_decimal`, `f_double`, `f_float`, `f_int`, `f_text`, `f_varchar` to the
    /// value the new row brings for that same column.
    pub proof fn law_upsert_sets_each_column_from_the_new_row()
        ensures
            Self::upsert_tail() == " ON DUPLICATE KEY UPDATE "@ + values_assignment("`f_bool`"@) + ", "@ + values_assignment("`f_decimal`"@) + ", "@ + values_assignment("`f_double`"@) + ", "@ + values_assignment("`f_float`"@) + ", "@ + values_assignment("`f_int`"@) + ", "@ + values_assignment("`f_text`"@) + ", "@ + values_assignment("`f_varchar`"@),
    {
        reveal_strlit(" ON DUPLICATE KEY UPDATE `f_bool` = VALUES(`f_bool`), `f_decimal` = VALUES(`f_decimal`), `f_double` = VALUES(`f_double`), `f_float` = VALUES(`f_float`), `f_int` = VALUES(`f_int`), `f_text` = VALUES(`f_text`), `f_varchar` = VALUES(`f_varchar`)");
        reveal_strlit(" ON DUPLICATE KEY UPDATE ");
        reveal_strlit(", ");
        reveal_strlit(" = VALUES(");
        reveal_strlit("`f_bool`");
        reveal_strlit("`f_decimal`");
        reveal_strlit("`f_double`");
        reveal_strlit("`f_float`");
        reveal_strlit("`f_int`");
        reveal_strlit("`f_text`");
        reveal_strlit("`f_varchar`");
        reveal_strlit(")");
    }

    /// The values of this row's columns, in the order the single-row and multi-row writes bind them.
    pub open spec fn row_values(self) -> Seq<BindV> {
        seq![BindV::Bool(self.f_bool), BindV::Double(opt_chars(self.f_decimal)), BindV::Double(opt_chars(self.f_double)), BindV::Double(opt_chars(self.f_float)), BindV::Int(self.f_int), opt_text_v(self.f_text), opt_text_v(self.f_varchar)]
    }

    /// The values of this row's columns, in the order the single-row and multi-row writes bind them.
    pub fn row(&self) -> (r: Vec<SqlValue>)
        ensures
            r@.map_values(|b: SqlValue| b@) == self.row_values(),
    {
        vec![SqlValue::Bool(self.f_bool), SqlValue::opt_double(&self.f_decimal), SqlValue::opt_double(&self.f_double), SqlValue::opt_double(&self.f_float), SqlValue::Int(self.f_int), SqlValue::opt_text(&self.f_text), SqlValue::opt_text(&self.f_varchar)]
    }

    /// The statement that inserts this row, without checking its constraints.
    pub fn insert_unchecked(&self) -> (st: Statement)
        ensures
            st@.sql == values_sql(Self::insert_head(), Placeholder::Question, 1, 7, ""@),
            st@.binds == self.row_values(),
    {
        Statement { sql: values_text("INSERT INTO `comp_types_table` (`f_bool`, `f_decimal`, `f_double`, `f_float`, `f_int`, `f_text`, `f_varchar`) ", Placeholder::Question, 1, 7, ""), binds: self.row() }
    }

    /// The statement of `insert_unchecked` when the row passes [`Self::validate`]; the
    /// validation messages joined by `, ` otherwise.
    pub fn insert(&self) -> (r: Result<Statement, String>)
        ensures
            r is Ok <==> self.validation_errors().len() == 0,
            r matches Err(m) ==> m@ == join(self.validation_errors(), seq![',', ' ']),
            r matches Ok(st) ==> st@.sql == values_sql(Self::insert_head(), Placeholder::Question, 1, 7, ""@) && st@.binds == self.row_values(),
    {
        match self.validate() {
            Ok(()) => Ok(self.insert_unchecked()),
            Err(errors) => Err(joined_errors(&errors)),
        }
    }

    /// The values of each row, in statement order.
    pub open spec fn rows_values(items: Seq<Self>) -> Seq<Seq<BindV>> {
        items.map_values(|it: Self| it.row_values())
    }

    /// The values of each row, in statement order.
    pub fn rows(items: &[Self]) -> (r: Vec<Vec<SqlValue>>)
        ensures
            rows_view(r@) == Self::rows_values(items@),
    {
        let mut r: Vec<Vec<SqlValue>> = Vec::new();
        let mut i: usize = 0;
        while i < items.len()
            invariant
                0 <= i <= items.len(),
                rows_view(r@) == Self::rows_values(items@.take(i as int)),
            decreases items.len() - i,
        {
            let row = items[i].row();
            let ghost prev = r@;
            r.push(row);
            proof {
                assert(r@ =~= prev.push(row));
                assert(rows_view(r@) =~= rows_view(prev).push(row@.map_values(|b: SqlValue| b@)));
                assert(items@.take(i + 1) =~= items@.take(i as int).push(items@[i as int]));
                assert(Self::rows_values(items@.take(i + 1))
                    =~= Self::rows_values(items@.take(i as int)).push(items@[i as int].row_values()));
            }
            i = i + 1;
        }
        assert(items@.take(items.len() as int) =~= items@);
        r
    }

    /// The multi-row statements that write the given rows, pieces of at most 9362 rows; no
    /// statement for no rows.
    pub fn insert_batch(items: &[Self]) -> (plan: Vec<Statement>)
        ensures
            plan@.len() == chunks(Self::rows_values(items@), 9362 as nat).len(),
            forall|k: int| 0 <= k < plan@.len() ==> (#[trigger] plan@[k])@ == values_piece(
                Self::insert_head(), ""@, Placeholder::Question, 7, chunks(Self::rows_values(items@), 9362 as nat)[k]),
            forall|k: int| 0 <= k < plan@.len() ==> (#[trigger] plan@[k])@.binds.len() <= 65535,
    {
        let rows = Self::rows(items);
        assert(rows_view(rows@).len() == items@.len());
        assert(rows_view(rows@).len() == rows@.len());
        assert forall|j: int| 0 <= j < rows@.len() implies (#[trigger] rows_view(rows@)[j]).len() == 7 by {
            assert(Self::rows_values(items@)[j] == items@[j].row_values());
            assert(rows_view(rows@)[j] == items@[j].row_values());
        }
        values_plan("INSERT INTO `comp_types_table` (`f_bool`, `f_decimal`, `f_double`, `f_float`, `f_int`, `f_text`, `f_varchar`) ", "", Placeholder::Question, 7, 9362, &rows)
    }

    /// The statement that inserts this row or, on a key conflict, updates it.
    pub fn upsert(&self) -> (st: Statement)
        ensures
            st@.sql == values_sql(Self::insert_head(), Placeholder::Question, 1, 7, Self::upsert_tail()),
            st@.binds == self.row_values(),
    {
        Statement { sql: values_text("INSERT INTO `comp_types_table` (`f_bool`, `f_decimal`, `f_double`, `f_float`, `f_int`, `f_text`, `f_varchar`) ", Placeholder::Question, 1, 7, " ON DUPLICATE KEY UPDATE `f_bool` = VALUES(`f_bool`), `f_decimal` = VALUES(`f_decimal`), `f_double` = VALUES(`f_double`), `f_float` = VALUES(`f_float`), `f_int` = VALUES(`f_int`), `f_text` = VALUES(`f_text`), `f_varchar` = VALUES(`f_varchar`)"), binds: self.row() }
    }

    /// The multi-row statements that write the given rows, pieces of at most 9362 rows; no
    /// statement for no rows.
    pub fn upsert_batch(items: &[Self]) -> (plan: Vec<Statement>)
        ensures
            plan@.len() == chunks(Self::rows_values(items@), 9362 as nat).len(),
            forall|k: int| 0 <= k < plan@.len() ==> (#[trigger] plan@[k])@ == values_piece(
                Self::insert_head(), Self::upsert_tail(), Placeholder::Question, 7, chunks(Self::rows_values(items@), 9362 as nat)[k]),
            forall|k: int| 0 <= k < plan@.len() ==> (#[trigger] plan@[k])@.binds.len() <= 65535,
    {
        let rows = Self::rows(items);
        assert(rows_view(rows@).len() == items@.len());
        assert(rows_view(rows@).len() == rows@.len());
        assert forall|j: int| 0 <= j < rows@.len() implies (#[trigger] rows_view(rows@)[j]).len() == 7 by {
            assert(Self::rows_values(items@)[j] == items@[j].row_values());
            assert(rows_view(rows@)[j] == items@[j].row_values());
        }
        values_plan("INSERT INTO `comp_types_table` (`f_bool`, `f_decimal`, `f_double`, `f_float`, `f_int`, `f_text`, `f_varchar`) ", " ON DUPLICATE KEY UPDATE `f_bool` = VALUES(`f_bool`), `f_decimal` = VALUES(`f_decimal`), `f_double` = VALUES(`f_double`), `f_float` = VALUES(`f_float`), `f_int` = VALUES(`f_int`), `f_text` = VALUES(`f_text`), `f_varchar` = VALUES(`f_varchar`)", Placeholder::Question, 7, 9362, &rows)
    }

    /// The values of this row's columns and then of its key columns, in the order the full update binds them.
    pub open spec fn row_then_id_values(self) -> Seq<BindV> {
        seq![BindV::Bool(self.f_bool), BindV::Double(opt_chars(self.f_decimal)), BindV::Double(opt_chars(self.f_double)), BindV::Double(opt_chars(self.f_float)), BindV::Int(self.f_int), opt_text_v(self.f_text), opt_text_v(self.f_varchar), BindV::BigInt(Some(self.id))]
    }

    /// The values of this row's columns and then of its key columns, in the order the full update binds them.
    pub fn row_then_id(&self) -> (r: Vec<SqlValue>)
        ensures
            r@.map_values(|b: SqlValue| b@) == self.row_then_id_values(),
    {
        vec![SqlValue::Bool(self.f_bool), SqlValue::opt_double(&self.f_decimal), SqlValue::opt_double(&self.f_double), SqlValue::opt_double(&self.f_float), SqlValue::Int(self.f_int), SqlValue::opt_text(&self.f_text), SqlValue::opt_text(&self.f_varchar), SqlValue::BigInt(Some(self.id))]
    }

    /// The statement that writes every column of this row, selected by its key.
    pub fn update_by_id(&self) -> (st: Statement)
        ensures
            st@.sql == update_sql("UPDATE `comp_types_table` SET "@, Self::row_then_id_set_columns(), Self::row_then_id_key_columns(), Placeholder::Question),
            st@.binds == self.row_then_id_values(),
    {
        let set: Vec<&str> = vec!["`f_bool`", "`f_decimal`", "`f_double`", "`f_float`", "`f_int`", "`f_text`", "`f_varchar`"];
        let keys: Vec<&str> = vec!["`id`"];
        proof {
            assert(set@.map_values(|n: &str| n@) =~= seq!["`f_bool`"@, "`f_decimal`"@, "`f_double`"@, "`f_float`"@, "`f_int`"@, "`f_text`"@, "`f_varchar`"@]);
            assert(keys@.map_values(|n: &str| n@) =~= seq!["`id`"@]);
        }
        Statement { sql: update_text("UPDATE `comp_types_table` SET ", &set, &keys, Placeholder::Question), binds: self.row_then_id() }
    }

    /// The statement that deletes the rows with the given key.
    pub fn delete_by_id(id: i64) -> (st: Statement)
        ensures
            st@.sql == "DELETE FROM `comp_types_table` WHERE `id` = ?"@,
            st@.binds == seq![BindV::BigInt(Some(id))],
    {
        Statement::new("DELETE FROM `comp_types_table` WHERE `id` = ?", vec![SqlValue::BigInt(Some(id))])
    }

    /// The statements that delete the rows with the given keys, pieces of at most 5000 keys;
    /// no statement for no keys.
    pub fn delete_many_by_id(ids: &[i64]) -> (plan: Vec<Statement>)
        ensures
            plan@.len() == chunks(ids@.map_values(|x: i64| BindV::BigInt(Some(x))), 5000 as nat).len(),
            forall|k: int| 0 <= k < plan@.len() ==> (#[trigger] plan@[k])@ == in_list_piece(
                "DELETE FROM `comp_types_table` WHERE `id` IN "@, Placeholder::Question, chunks(ids@.map_values(|x: i64| BindV::BigInt(Some(x))), 5000 as nat)[k]),
    {
        let values = values_of_i64(ids);
        in_list_plan("DELETE FROM `comp_types_table` WHERE `id` IN ", Placeholder::Question, 5000, &values)
    }

    /// The columns the patch sets and their values, in column order.
    fn update_partial_by_id_assignments(patch: &CompTypesTablePatch) -> (r: (Vec<&'static str>, Vec<SqlValue>))
        ensures
            r.0@.map_values(|n: &str| n@) == Self::update_partial_by_id_columns(*patch),
            r.1@.map_values(|b: SqlValue| b@) == Self::update_partial_by_id_values(*patch),
            r.0@.len() <= 7,
    {
        let mut set: Vec<&'static str> = Vec::new();
        let mut binds: Vec<SqlValue> = Vec::new();
        assert(set@.map_values(|n: &str| n@) =~= Seq::<Seq<char>>::empty());
        assert(binds@.map_values(|b: SqlValue| b@) =~= Seq::<BindV>::empty());
        let value = match &patch.f_bool {
            Some(v) => Some(SqlValue::Bool(*v)),
            None => None,
        };
        push_assignment(&mut set, &mut binds, "`f_bool`", value);
        let value = match &patch.f_decimal {
            Some(v) => Some(SqlValue::opt_double(v)),
            None => None,
        };
        push_assignment(&mut set, &mut binds, "`f_decimal`", value);
        let value = match &patch.f_double {
            Some(v) => Some(SqlValue::opt_double(v)),
            None => None,
        };
        push_assignment(&mut set, &mut binds, "`f_double`", value);
        let value = match &patch.f_float {
            Some(v) => Some(SqlValue::opt_double(v)),
            None => None,
        };
        push_assignment(&mut set, &mut binds, "`f_float`", value);
        let value = match &patch.f_int {
            Some(v) => Some(SqlValue::Int(*v)),
            None => None,
        };
        push_assignment(&mut set, &mut binds, "`f_int`", value);
        let value = match &patch.f_text {
            Some(v) => Some(SqlValue::opt_text(v)),
            None => None,
        };
        push_assignment(&mut set, &mut binds, "`f_text`", value);
        let value = match &patch.f_varchar {
            Some(v) => Some(SqlValue::opt_text(v)),
            None => None,
        };
        push_assignment(&mut set, &mut binds, "`f_varchar`", value);
        (set, binds)
    }

    /// The statement that writes only the columns the patch sets, on the row
    /// with the given key; none when the patch sets no column.
    pub fn update_partial_by_id(id: i64, patch: &CompTypesTablePatch) -> (r: Option<Statement>)
        ensures
            r is None <==> Self::update_partial_by_id_columns(*patch).len() == 0,
            r matches Some(st) ==> st@.sql == update_sql("UPDATE `comp_types_table` SET "@, Self::update_partial_by_id_columns(*patch), seq!["`id`"@], Placeholder::Question)
                && st@.binds == Self::update_partial_by_id_values(*patch) + seq![BindV::BigInt(Some(id))],
    {
        let (set, mut binds) = Self::update_partial_by_id_assignments(patch);
        if set.len() == 0 {
            return None;
        }
        let ghost vals = binds@.map_values(|b: SqlValue| b@);
        binds.push(SqlValue::BigInt(Some(id)));
        let keys: Vec<&str> = vec!["`id`"];
        proof {
            assert(keys@.map_values(|n: &str| n@) =~= seq!["`id`"@]);
            assert(binds@.map_values(|b: SqlValue| b@) =~= vals + seq![BindV::BigInt(Some(id))]);
        }
        Some(Statement { sql: update_text("UPDATE `comp_types_table` SET ", &set, &keys, Placeholder::Question), binds })
    }

    /// The columns a patch assigns, in column order.
    pub open spec fn update_partial_by_id_columns(p: CompTypesTablePatch) -> Seq<Seq<char>> {
        Seq::empty()
            + assigned_column(p.f_bool, "`f_bool`"@)
            + assigned_column(p.f_decimal, "`f_decimal`"@)
            + assigned_column(p.f_double, "`f_double`"@)
            + assigned_column(p.f_float, "`f_float`"@)
            + assigned_column(p.f_int, "`f_int`"@)
            + assigned_column(p.f_text, "`f_text`"@)
            + assigned_column(p.f_varchar, "`f_varchar`"@)
    }

    /// The values a patch assigns, in column order.
    pub open spec fn update_partial_by_id_values(p: CompTypesTablePatch) -> Seq<BindV> {
        Seq::empty()
            + (match p.f_bool { Some(v) => seq![BindV::Bool(v)], None => Seq::empty() })
            + (match p.f_decimal { Some(v) => seq![BindV::Double(opt_chars(v))], None => Seq::empty() })
            + (match p.f_double { Some(v) => seq![BindV::Double(opt_chars(v))], None => Seq::empty() })
            + (match p.f_float { Some(v) => seq![BindV::Double(opt_chars(v))], None => Seq::empty() })
            + (match p.f_int { Some(v) => seq![BindV::Int(v)], None => Seq::empty() })
            + (match p.f_text { Some(v) => seq![opt_text_v(v)], None => Seq::empty() })
            + (match p.f_varchar { Some(v) => seq![opt_text_v(v)], None => Seq::empty() })
    }

    /// A partial update binds one value for each column it assigns, so its
    /// placeholders and its values always match in number.
    pub proof fn law_update_partial_by_id_one_value_per_column(patch: CompTypesTablePatch)
        ensures
            Self::update_partial_by_id_columns(patch).len() == Self::update_partial_by_id_values(patch).len(),
    {
    }

    /// A patch that sets every column to the values of `row`, applied to the
    /// row's key, gives the statement that `update_by_id` gives for the row: the
    /// same text and the same values.
    pub proof fn law_full_patch_matches_update_by_id(row: Self, patch: CompTypesTablePatch)
        requires
            patch.f_bool == Some(row.f_bool),
            patch.f_decimal == Some(row.f_decimal),
            patch.f_double == Some(row.f_double),
            patch.f_float == Some(row.f_float),
            patch.f_int == Some(row.f_int),
            patch.f_text == Some(row.f_text),
            patch.f_varchar == Some(row.f_varchar),
        ensures
            update_sql("UPDATE `comp_types_table` SET "@, Self::update_partial_by_id_columns(patch), seq!["`id`"@], Placeholder::Question)
                == update_sql("UPDATE `comp_types_table` SET "@, seq!["`f_bool`"@, "`f_decimal`"@, "`f_double`"@, "`f_float`"@, "`f_int`"@, "`f_text`"@, "`f_varchar`"@], seq!["`id`"@], Placeholder::Question),
            Self::update_partial_by_id_values(patch) + seq![BindV::BigInt(Some(row.id))] == row.row_then_id_values(),
    {
        assert(Self::update_partial_by_id_columns(patch) =~= seq!["`f_bool`"@, "`f_decimal`"@, "`f_double`"@, "`f_float`"@, "`f_int`"@, "`f_text`"@, "`f_varchar`"@]);
        assert(Self::update_partial_by_id_values(patch) + seq![BindV::BigInt(Some(row.id))] =~= row.row_then_id_values());
    }
}

} // verus!

