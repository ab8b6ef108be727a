//! The `comp_types_view` table (MySQL dialect): rows, orderings, constraints and statements.
use vstd::prelude::*;
use crate::value::{SqlValue, BindV, Statement, UtcTimestamp, CalendarDate};
use crate::validation::{error_if, errors_view, check_min, check_max, outcome, validation_result, when_some, check_max_len_opt, check_max_len_bytes_opt, check_min_opt_i32, check_max_opt_i32, lemma_contains_concat, lemma_error_if_reports, lemma_format_error_reports, regex_match};
use crate::paging::{row_limit, clamp};
use crate::text::utf8_len;

verus! {

/// A row of `comp_types_view`.
#[derive(Clone, Debug)]
pub struct CompTypesView {
    pub f_blob: Option<Vec<u8>>,
    pub f_bool: Option<bool>,
    pub f_date: Option<CalendarDate>,
    pub f_datetime: Option<UtcTimestamp>,
    pub f_decimal: Option<String>,
    pub f_double: Option<String>,
    pub f_float: Option<String>,
    pub f_int: Option<i32>,
    pub f_json: Option<String>,
    pub f_text: Option<String>,
    pub f_timestamp: Option<UtcTimestamp>,
    pub f_varchar: Option<String>,
    pub id: i64,
}

/// A column and a direction to order listings by.
#[derive(Clone, Copy, Debug, PartialEq, Eq, Structural)]
pub enum CompTypesViewOrderBy {
    FBlobAsc,
    FBlobDesc,
    FBoolAsc,
    FBoolDesc,
    FDateAsc,
    FDateDesc,
    FDatetimeAsc,
    FDatetimeDesc,
    FDecimalAsc,
    FDecimalDesc,
    FDoubleAsc,
    FDoubleDesc,
    FFloatAsc,
    FFloatDesc,
    FIntAsc,
    FIntDesc,
    FJsonAsc,
    FJsonDesc,
    FTextAsc,
    FTextDesc,
    FTimestampAsc,
    FTimestampDesc,
    FVarcharAsc,
    FVarcharDesc,
    IdAsc,
    IdDesc,
}

impl CompTypesViewOrderBy {
    /// The `ORDER BY` term of this ordering.
    pub open spec fn term(self) -> Seq<char> {
        match self {
            CompTypesViewOrderBy::FBlobAsc => "`f_blob` ASC"@,
            CompTypesViewOrderBy::FBlobDesc => "`f_blob` DESC"@,
            CompTypesViewOrderBy::FBoolAsc => "`f_bool` ASC"@,
            CompTypesViewOrderBy::FBoolDesc => "`f_bool` DESC"@,
            CompTypesViewOrderBy::FDateAsc => "`f_date` ASC"@,
            CompTypesViewOrderBy::FDateDesc => "`f_date` DESC"@,
            CompTypesViewOrderBy::FDatetimeAsc => "`f_datetime` ASC"@,
            CompTypesViewOrderBy::FDatetimeDesc => "`f_datetime` DESC"@,
            CompTypesViewOrderBy::FDecimalAsc => "`f_decimal` ASC"@,
            CompTypesViewOrderBy::FDecimalDesc => "`f_decimal` DESC"@,
            CompTypesViewOrderBy::FDoubleAsc => "`f_double` ASC"@,
            CompTypesViewOrderBy::FDoubleDesc => "`f_double` DESC"@,
            CompTypesViewOrderBy::FFloatAsc => "`f_float` ASC"@,
            CompTypesViewOrderBy::FFloatDesc => "`f_float` DESC"@,
            CompTypesViewOrderBy::FIntAsc => "`f_int` ASC"@,
            CompTypesViewOrderBy::FIntDesc => "`f_int` DESC"@,
            CompTypesViewOrderBy::FJsonAsc => "`f_json` ASC"@,
            CompTypesViewOrderBy::FJsonDesc => "`f_json` DESC"@,
            CompTypesViewOrderBy::FTextAsc => "`f_text` ASC"@,
            CompTypesViewOrderBy::FTextDesc => "`f_text` DESC"@,
            CompTypesViewOrderBy::FTimestampAsc => "`f_timestamp` ASC"@,
            CompTypesViewOrderBy::FTimestampDesc => "`f_timestamp` DESC"@,
            CompTypesViewOrderBy::FVarcharAsc => "`f_varchar` ASC"@,
            CompTypesViewOrderBy::FVarcharDesc => "`f_varchar` DESC"@,
            CompTypesViewOrderBy::IdAsc => "`id` ASC"@,
            CompTypesViewOrderBy::IdDesc => "`id` DESC"@,
        }
    }

    /// An ordering sorts by the column its name says, ascending for an
    /// `...Asc` ordering and descending for a `...Desc` one: its term is that
    /// column, then `ASC` or `DESC`.
    pub proof fn law_term_names_column_and_direction(self)
        ensures
            (self is FBlobAsc || self is FBlobDesc) ==> self.term() == "`f_blob`"@ + (if self is FBlobDesc { " DESC"@ } else { " ASC"@ }),
            (self is FBoolAsc || self is FBoolDesc) ==> self.term() == "`f_bool`"@ + (if self is FBoolDesc { " DESC"@ } else { " ASC"@ }),
            (self is FDateAsc || self is FDateDesc) ==> self.term() == "`f_date`"@ + (if self is FDateDesc { " DESC"@ } else { " ASC"@ }),
            (self is FDatetimeAsc || self is FDatetimeDesc) ==> self.term() == "`f_datetime`"@ + (if self is FDatetimeDesc { " DESC"@ } else { " ASC"@ }),
            (self is FDecimalAsc || self is FDecimalDesc) ==> self.term() == "`f_decimal`"@ + (if self is FDecimalDesc { " DESC"@ } else { " ASC"@ }),
            (self is FDoubleAsc || self is FDoubleDesc) ==> self.term() == "`f_double`"@ + (if self is FDoubleDesc { " DESC"@ } else { " ASC"@ }),
            (self is FFloatAsc || self is FFloatDesc) ==> self.term() == "`f_float`"@ + (if self is FFloatDesc { " DESC"@ } else { " ASC"@ }),
            (self is FIntAsc || self is FIntDesc) ==> self.term() == "`f_int`"@ + (if self is FIntDesc { " DESC"@ } else { " ASC"@ }),
            (self is FJsonAsc || self is FJsonDesc) ==> self.term() == "`f_json`"@ + (if self is FJsonDesc { " DESC"@ } else { " ASC"@ }),
            (self is FTextAsc || self is FTextDesc) ==> self.term() == "`f_text`"@ + (if self is FTextDesc { " DESC"@ } else { " ASC"@ }),
            (self is FTimestampAsc || self is FTimestampDesc) ==> self.term() == "`f_timestamp`"@ + (if self is FTimestampDesc { " DESC"@ } else { " ASC"@ }),
            (self is FVarcharAsc || self is FVarcharDesc) ==> self.term() == "`f_varchar`"@ + (if self is FVarcharDesc { " DESC"@ } else { " ASC"@ }),
            (self is IdAsc || self is IdDesc) ==> self.term() == "`id`"@ + (if self is IdDesc { " DESC"@ } else { " ASC"@ }),
    {
        reveal_strlit("`f_blob` ASC");
        reveal_strlit("f_blob");
        reveal_strlit("`f_blob` DESC");
        reveal_strlit("`f_bool` ASC");
        reveal_strlit("f_bool");
        reveal_strlit("`f_bool` DESC");
        reveal_strlit("`f_date` ASC");
        reveal_strlit("f_date");
        reveal_strlit("`f_date` DESC");
        reveal_strlit("`f_datetime` ASC");
        reveal_strlit("f_datetime");
        reveal_strlit("`f_datetime` DESC");
        reveal_strlit("`f_decimal` ASC");
        reveal_strlit("f_decimal");
        reveal_strlit("`f_decimal` DESC");
        reveal_strlit("`f_double` ASC");
        reveal_strlit("f_double");
        reveal_strlit("`f_double` DESC");
        reveal_strlit("`f_float` ASC");
        reveal_strlit("f_float");
        reveal_strlit("`f_float` DESC");
        reveal_strlit("`f_int` ASC");
        reveal_strlit("f_int");
        reveal_strlit("`f_int` DESC");
        reveal_strlit("`f_json` ASC");
        reveal_strlit("f_json");
        reveal_strlit("`f_json` DESC");
        reveal_strlit("`f_text` ASC");
        reveal_strlit("f_text");
        reveal_strlit("`f_text` DESC");
        reveal_strlit("`f_timestamp` ASC");
        reveal_strlit("f_timestamp");
        reveal_strlit("`f_timestamp` DESC");
        reveal_strlit("`f_varchar` ASC");
        reveal_strlit("f_varchar");
        reveal_strlit("`f_varchar` DESC");
        reveal_strlit("`id` ASC");
        reveal_strlit("id");
        reveal_strlit("`id` DESC");
        reveal_strlit("`f_blob`");
        reveal_strlit("`f_bool`");
        reveal_strlit("`f_date`");
        reveal_strlit("`f_datetime`");
        reveal_strlit("`f_decimal`");
        reveal_strlit("`f_double`");
        reveal_strlit("`f_float`");
        reveal_strlit("`f_int`");
        reveal_strlit("`f_json`");
        reveal_strlit("`f_text`");
        reveal_strlit("`f_timestamp`");
        reveal_strlit("`f_varchar`");
        reveal_strlit("`id`");
        reveal_strlit(" ASC");
        reveal_strlit(" DESC");
    }

    /// The `ORDER BY` term of this ordering.
    pub fn as_str(&self) -> (s: &'static str)
        ensures
            s@ == self.term(),
    {
        match self {
            CompTypesViewOrderBy::FBlobAsc => "`f_blob` ASC",
            CompTypesViewOrderBy::FBlobDesc => "`f_blob` DESC",
            CompTypesViewOrderBy::FBoolAsc => "`f_bool` ASC",
            CompTypesViewOrderBy::FBoolDesc => "`f_bool` DESC",
            CompTypesViewOrderBy::FDateAsc => "`f_date` ASC",
            CompTypesViewOrderBy::FDateDesc => "`f_date` DESC",
            CompTypesViewOrderBy::FDatetimeAsc => "`f_datetime` ASC",
            CompTypesViewOrderBy::FDatetimeDesc => "`f_datetime` DESC",
            CompTypesViewOrderBy::FDecimalAsc => "`f_decimal` ASC",
            CompTypesViewOrderBy::FDecimalDesc => "`f_decimal` DESC",
            CompTypesViewOrderBy::FDoubleAsc => "`f_double` ASC",
            CompTypesViewOrderBy::FDoubleDesc => "`f_double` DESC",
            CompTypesViewOrderBy::FFloatAsc => "`f_float` ASC",
            CompTypesViewOrderBy::FFloatDesc => "`f_float` DESC",
            CompTypesViewOrderBy::FIntAsc => "`f_int` ASC",
            CompTypesViewOrderBy::FIntDesc => "`f_int` DESC",
            CompTypesViewOrderBy::FJsonAsc => "`f_json` ASC",
            CompTypesViewOrderBy::FJsonDesc => "`f_json` DESC",
            CompTypesViewOrderBy::FTextAsc => "`f_text` ASC",
            CompTypesViewOrderBy::FTextDesc => "`f_text` DESC",
            CompTypesViewOrderBy::FTimestampAsc => "`f_timestamp` ASC",
            CompTypesViewOrderBy::FTimestampDesc => "`f_timestamp` DESC",
            CompTypesViewOrderBy::FVarcharAsc => "`f_varchar` ASC",
            CompTypesViewOrderBy::FVarcharDesc => "`f_varchar` DESC",
            CompTypesViewOrderBy::IdAsc => "`id` ASC",
            CompTypesViewOrderBy::IdDesc => "`id` DESC",
        }
    }

    /// Different orderings have different terms: a term names one column and
    /// one direction.
    pub proof fn law_terms_are_distinct(a: Self, b: Self)
        ensures
            a.term() == b.term() ==> a == b,
    {
        reveal_strlit("`f_blob` ASC");
        assert("`f_blob` ASC"@.len() == 12 && "`f_blob` ASC"@[3] == 'b' && "`f_blob` ASC"@[4] == 'l');
        reveal_strlit("`f_blob` DESC");
        assert("`f_blob` DESC"@.len() == 13 && "`f_blob` DESC"@[3] == 'b' && "`f_blob` DESC"@[4] == 'l');
        reveal_strlit("`f_bool` ASC");
        assert("`f_bool` ASC"@.len() == 12 && "`f_bool` ASC"@[3] == 'b' && "`f_bool` ASC"@[4] == 'o');
        reveal_strlit("`f_bool` DESC");
        assert("`f_bool` DESC"@.len() == 13 && "`f_bool` DESC"@[3] == 'b' && "`f_bool` DESC"@[4] == 'o');
        reveal_strlit("`f_date` ASC");
        assert("`f_date` ASC"@.len() == 12 && "`f_date` ASC"@[3] == 'd' && "`f_date` ASC"@[4] == 'a');
        reveal_strlit("`f_date` DESC");
        assert("`f_date` DESC"@.len() == 13 && "`f_date` DESC"@[3] == 'd' && "`f_date` DESC"@[4] == 'a');
        reveal_strlit("`f_datetime` ASC");
        assert("`f_datetime` ASC"@.len() == 16 && "`f_datetime` ASC"@[3] == 'd' && "`f_datetime` ASC"@[4] == 'a');
        reveal_strlit("`f_datetime` DESC");
        assert("`f_datetime` DESC"@.len() == 17 && "`f_datetime` DESC"@[3] == 'd' && "`f_datetime` DESC"@[4] == 'a');
        reveal_strlit("`f_decimal` ASC");
        assert("`f_decimal` ASC"@.len() == 15 && "`f_decimal` ASC"@[3] == 'd' && "`f_decimal` ASC"@[4] == 'e');
        reveal_strlit("`f_decimal` DESC");
        assert("`f_decimal` DESC"@.len() == 16 && "`f_decimal` DESC"@[3] == 'd' && "`f_decimal` DESC"@[4] == 'e');
        reveal_strlit("`f_double` ASC");
        assert("`f_double` ASC"@.len() == 14 && "`f_double` ASC"@[3] == 'd' && "`f_double` ASC"@[4] == 'o');
        reveal_strlit("`f_double` DESC");
        assert("`f_double` DESC"@.len() == 15 && "`f_double` DESC"@[3] == 'd' && "`f_double` DESC"@[4] == 'o');
        reveal_strlit("`f_float` ASC");
        assert("`f_float` ASC"@.len() == 13 && "`f_float` ASC"@[3] == 'f' && "`f_float` ASC"@[4] == 'l');
        reveal_strlit("`f_float` DESC");
        assert("`f_float` DESC"@.len() == 14 && "`f_float` DESC"@[3] == 'f' && "`f_float` DESC"@[4] == 'l');
        reveal_strlit("`f_int` ASC");
        assert("`f_int` ASC"@.len() == 11 && "`f_int` ASC"@[3] == 'i' && "`f_int` ASC"@[4] == 'n');
        reveal_strlit("`f_int` DESC");
        assert("`f_int` DESC"@.len() == 12 && "`f_int` DESC"@[3] == 'i' && "`f_int` DESC"@[4] == 'n');
        reveal_strlit("`f_json` ASC");
        assert("`f_json` ASC"@.len() == 12 && "`f_json` ASC"@[3] == 'j' && "`f_json` ASC"@[4] == 's');
        reveal_strlit("`f_json` DESC");
        assert("`f_json` DESC"@.len() == 13 && "`f_json` DESC"@[3] == 'j' && "`f_json` DESC"@[4] == 's');
        reveal_strlit("`f_text` ASC");
        assert("`f_text` ASC"@.len() == 12 && "`f_text` ASC"@[3] == 't' && "`f_text` ASC"@[4] == 'e');
        reveal_strlit("`f_text` DESC");
        assert("`f_text` DESC"@.len() == 13 && "`f_text` DESC"@[3] == 't' && "`f_text` DESC"@[4] == 'e');
        reveal_strlit("`f_timestamp` ASC");
        assert("`f_timestamp` ASC"@.len() == 17 && "`f_timestamp` ASC"@[3] == 't' && "`f_timestamp` ASC"@[4] == 'i');
        reveal_strlit("`f_timestamp` DESC");
        assert("`f_timestamp` DESC"@.len() == 18 && "`f_timestamp` DESC"@[3] == 't' && "`f_timestamp` DESC"@[4] == 'i');
        reveal_strlit("`f_varchar` ASC");
        assert("`f_varchar` ASC"@.len() == 15 && "`f_varchar` ASC"@[3] == 'v' && "`f_varchar` ASC"@[4] == 'a');
        reveal_strlit("`f_varchar` DESC");
        assert("`f_varchar` DESC"@.len() == 16 && "`f_varchar` DESC"@[3] == 'v' && "`f_varchar` DESC"@[4] == 'a');
        reveal_strlit("`id` ASC");
        assert("`id` ASC"@.len() == 8 && "`id` ASC"@[3] == '`' && "`id` ASC"@[4] == ' ');
        reveal_strlit("`id` DESC");
        assert("`id` DESC"@.len() == 9 && "`id` DESC"@[3] == '`' && "`id` DESC"@[4] == ' ');
    }
}


impl CompTypesView {
    /// The constraint violations of this row, in the order the checks run.
    pub open spec fn validation_errors(self) -> Seq<Seq<char>> {
        Seq::empty()
            + when_some(self.f_blob, |v: Vec<u8>| error_if(v@.len() > 65535, "f_blob: exceeds max_length 65535"@))
            + when_some(self.f_int, |v: i32| error_if((v as int) < 0, "f_int: minimum value '0' not met"@))
            + when_some(self.f_int, |v: i32| error_if((v as int) > 2147483647, "f_int: maximum value '2147483647' exceeded"@))
            + when_some(self.f_text, |v: String| error_if((utf8_len(v@) as usize) > 65535, "f_text: exceeds max_length 65535"@))
            + when_some(self.f_varchar, |v: String| error_if((utf8_len(v@) as usize) > 255, "f_varchar: exceeds max_length 255"@))
            + error_if((self.id as int) < 0, "id: minimum value '0' not met"@)
            + error_if((self.id as int) > 9223372036854775807, "id: maximum value '9223372036854775807' exceeded"@)
    }

    /// The constraints of `f_blob` are checked: a value that breaks one gets
    /// that constraint's message.
    pub proof fn law_f_blob_constraints_are_reported(self)
        ensures
            self.f_blob matches Some(v) ==> (v@.len() > 65535 ==> self.validation_errors().contains("f_blob: exceeds max_length 65535"@)),
    {
        assert(self.f_blob matches Some(v) ==> (v@.len() > 65535 ==> self.validation_errors().contains("f_blob: exceeds max_length 65535"@))) by {
            broadcast use lemma_contains_concat;
            if let Some(v) = self.f_blob {
                lemma_error_if_reports(v@.len() > 65535, "f_blob: exceeds max_length 65535"@);
            }
        }
    }

    /// The constraints of `f_int` are checked: a value that breaks one gets
    /// that constraint's message.
    pub proof fn law_f_int_constraints_are_reported(self)
        ensures
            self.f_int matches Some(v) ==> ((v as int) < 0 ==> self.validation_errors().contains("f_int: minimum value '0' not met"@)),
            self.f_int matches Some(v) ==> ((v as int) > 2147483647 ==> self.validation_errors().contains("f_int: maximum value '2147483647' exceeded"@)),
    {
        assert(self.f_int matches Some(v) ==> ((v as int) < 0 ==> self.validation_errors().contains("f_int: minimum value '0' not met"@))) by {
            broadcast use lemma_contains_concat;
            if let Some(v) = self.f_int {
                lemma_error_if_reports((v as int) < 0, "f_int: minimum value '0' not met"@);
            }
        }
        assert(self.f_int matches Some(v) ==> ((v as int) > 2147483647 ==> self.validation_errors().contains("f_int: maximum value '2147483647' exceeded"@))) by {
            broadcast use lemma_contains_concat;
            if let Some(v) = self.f_int {
                lemma_error_if_reports((v as int) > 2147483647, "f_int: maximum value '2147483647' exceeded"@);
            }
        }
    }

    /// The constraints of `f_text` are checked: a value that breaks one gets
    /// that constraint's message.
    pub proof fn law_f_text_constraints_are_reported(self)
        ensures
            self.f_text matches Some(v) ==> ((utf8_len(v@) as usize) > 65535 ==> self.validation_errors().contains("f_text: exceeds max_length 65535"@)),
    {
        assert(self.f_text matches Some(v) ==> ((utf8_len(v@) as usize) > 65535 ==> self.validation_errors().contains("f_text: exceeds max_length 65535"@))) by {
            broadcast use lemma_contains_concat;
            if let Some(v) = self.f_text {
                lemma_error_if_reports((utf8_len(v@) as usize) > 65535, "f_text: exceeds max_length 65535"@);
            }
        }
    }

    /// The constraints of `f_varchar` are checked: a value that breaks one gets
    /// that constraint's message.
    pub proof fn law_f_varchar_constraints_are_reported(self)
        ensures
            self.f_varchar matches Some(v) ==> ((utf8_len(v@) as usize) > 255 ==> self.validation_errors().contains("f_varchar: exceeds max_length 255"@)),
    {
        assert(self.f_varchar matches Some(v) ==> ((utf8_len(v@) as usize) > 255 ==> self.validation_errors().contains("f_varchar: exceeds max_length 255"@))) by {
            broadcast use lemma_contains_concat;
            if let Some(v) = self.f_varchar {
                lemma_error_if_reports((utf8_len(v@) as usize) > 255, "f_varchar: exceeds max_length 255"@);
            }
        }
    }

    /// The constraints of `id` are checked: a value that breaks one gets
    /// that constraint's message.
    pub proof fn law_id_constraints_are_reported(self)
        ensures
            ((self.id as int) < 0) ==> self.validation_errors().contains("id: minimum value '0' not met"@),
            ((self.id as int) > 9223372036854775807) ==> self.validation_errors().contains("id: maximum value '9223372036854775807' exceeded"@),
    {
        assert(((self.id as int) < 0) ==> self.validation_errors().contains("id: minimum value '0' not met"@)) by {
            broadcast use lemma_contains_concat;
            lemma_error_if_reports((self.id as int) < 0, "id: minimum value '0' not met"@);
        }
        assert(((self.id as int) > 9223372036854775807) ==> self.validation_errors().contains("id: maximum value '9223372036854775807' exceeded"@)) by {
            broadcast use lemma_contains_concat;
            lemma_error_if_reports((self.id as int) > 9223372036854775807, "id: maximum value '9223372036854775807' exceeded"@);
        }
    }

    /// A row that breaks none of the constraints gets no message at all.
    pub proof fn law_row_within_constraints_gets_no_message(self)
        ensures
            ((self.f_blob matches Some(v) ==> !(v@.len() > 65535))
                && (self.f_int matches Some(v) ==> !((v as int) < 0))
                && (self.f_int matches Some(v) ==> !((v as int) > 2147483647))
                && (self.f_text matches Some(v) ==> !((utf8_len(v@) as usize) > 65535))
                && (self.f_varchar matches Some(v) ==> !((utf8_len(v@) as usize) > 255))
                && (!((self.id as int) < 0))
                && (!((self.id as int) > 9223372036854775807)))
                ==> self.validation_errors() == Seq::<Seq<char>>::empty(),
    {
        if (self.f_blob matches Some(v) ==> !(v@.len() > 65535))
            && (self.f_int matches Some(v) ==> !((v as int) < 0))
            && (self.f_int matches Some(v) ==> !((v as int) > 2147483647))
            && (self.f_text matches Some(v) ==> !((utf8_len(v@) as usize) > 65535))
            && (self.f_varchar matches Some(v) ==> !((utf8_len(v@) as usize) > 255))
            && (!((self.id as int) < 0))
            && (!((self.id as int) > 9223372036854775807)) {
            if let Some(v) = self.f_blob {
                lemma_error_if_reports(v@.len() > 65535, "f_blob: exceeds max_length 65535"@);
            }
            if let Some(v) = self.f_int {
                lemma_error_if_reports((v as int) < 0, "f_int: minimum value '0' not met"@);
            }
            if let Some(v) = self.f_int {
                lemma_error_if_reports((v as int) > 2147483647, "f_int: maximum value '2147483647' exceeded"@);
            }
            if let Some(v) = self.f_text {
                lemma_error_if_reports((utf8_len(v@) as usize) > 65535, "f_text: exceeds max_length 65535"@);
            }
            if let Some(v) = self.f_varchar {
                lemma_error_if_reports((utf8_len(v@) as usize) > 255, "f_varchar: exceeds max_length 255"@);
            }
            lemma_error_if_reports((self.id as int) < 0, "id: minimum value '0' not met"@);
            lemma_error_if_reports((self.id as int) > 9223372036854775807, "id: maximum value '9223372036854775807' exceeded"@);
        }
    }

    fn collect_errors(&self) -> (errors: Vec<String>)
        ensures
            errors_view(errors@) == self.validation_errors(),
    {
        let mut errors: Vec<String> = Vec::new();
        check_max_len_bytes_opt(&mut errors, &self.f_blob, 65535, "f_blob: exceeds max_length 65535");
        check_min_opt_i32(&mut errors, self.f_int, 0, "f_int: minimum value '0' not met");
        check_max_opt_i32(&mut errors, self.f_int, 2147483647, "f_int: maximum value '2147483647' exceeded");
        check_max_len_opt(&mut errors, &self.f_text, 65535, "f_text: exceeds max_length 65535");
        check_max_len_opt(&mut errors, &self.f_varchar, 255, "f_varchar: exceeds max_length 255");
        check_min(&mut errors, self.id as i128, 0, "id: minimum value '0' not met");
        check_max(&mut errors, self.id as i128, 9223372036854775807, "id: maximum value '9223372036854775807' exceeded");
        errors
    }

    /// Checks the constraints of the columns (lengths, ranges, allowed values,
    /// finite numbers and formats): `Ok` when all hold, the messages of those
    /// that fail otherwise, in the order the checks run.
    pub fn validate(&self) -> (r: Result<(), Vec<String>>)
        ensures
            validation_result(r, self.validation_errors()),
    {
        outcome(self.collect_errors())
    }

    /// The statement that counts the rows.
    pub fn count() -> (st: Statement)
        ensures
            st@.sql == "SELECT COUNT(*) FROM `comp_types_view`"@,
            st@.binds == Seq::<BindV>::empty(),
    {
        Statement::new("SELECT COUNT(*) FROM `comp_types_view`", Vec::new())
    }

    /// The statement that reads the row-count estimate from the database statistics.
    pub fn approximate_count() -> (st: Statement)
        ensures
            st@.sql == "SELECT table_rows FROM information_schema.tables WHERE table_name = 'comp_types_view' AND table_schema = DATABASE()"@,
            st@.binds == Seq::<BindV>::empty(),
    {
        Statement::new("SELECT table_rows FROM information_schema.tables WHERE table_name = 'comp_types_view' AND table_schema = DATABASE()", Vec::new())
    }

    /// The statement that streams the rows in key order, at most `limit` of them (brought into `1..=10000`).
    pub fn stream_all(limit: i64) -> (st: Statement)
        ensures
            st@.sql == "SELECT `f_blob`, `f_bool`, `f_date`, `f_datetime`, `f_decimal`, `f_double`, `f_float`, `f_int`, `f_json`, `f_text`, `f_timestamp`, `f_varchar`, `id` FROM `comp_types_view` ORDER BY `id` ASC LIMIT ?"@,
            st@.binds == seq![BindV::BigInt(Some(clamp(limit as int, 1, 10000) as i64))],
    {
        Statement::new("SELECT `f_blob`, `f_bool`, `f_date`, `f_datetime`, `f_decimal`, `f_double`, `f_float`, `f_int`, `f_json`, `f_text`, `f_timestamp`, `f_varchar`, `id` FROM `comp_types_view` ORDER BY `id` ASC LIMIT ?", vec![SqlValue::BigInt(Some(row_limit(limit)))])
    }
}

} // verus!

