//! The `users` table (MySQL dialect): rows, orderings, constraints and statements.
use vstd::prelude::*;
use crate::value::{SqlValue, BindV, Statement, UtcTimestamp, text_v, opt_text_v, values_of_i64};
use crate::sql::{push_assignment, assigned_column, Placeholder, values_sql, values_text, values_piece, values_plan, update_sql, update_text, in_list_piece, in_list_plan, chunks, rows_view, values_assignment};
use crate::validation::{error_if, format_error, errors_view, check_min_len, check_max_len, check_min, check_max, check_format, outcome, joined_errors, validation_result, when_some, check_max_len_opt, check_format_opt, lemma_contains_concat, lemma_error_if_reports, lemma_format_error_reports, regex_match};
use crate::paging::{row_limit, page_limit, clamp};
use crate::text::{utf8_len, join};

verus! {

/// A row of `users`.
#[derive(Clone, Debug)]
pub struct Users {
    pub created_at: Option<UtcTimestamp>,
    pub email: String,
    pub first_name: Option<String>,
    pub id: i64,
    pub last_name: String,
    pub status: String,
}

/// The columns of `users` to change: `None` leaves a column as it is, `Some(v)` writes `v`.
#[derive(Clone, Debug)]
pub struct UsersPatch {
    pub created_at: Option<Option<UtcTimestamp>>,
    pub email: Option<String>,
    pub first_name: Option<Option<String>>,
    pub last_name: Option<String>,
    pub status: Option<String>,
}

impl Default for UsersPatch {
    /// A patch that changes nothing.
    fn default() -> (p: Self)
        ensures
            p.created_at is None,
            p.email is None,
            p.first_name is None,
            p.last_name is None,
            p.status is None,
    {
        UsersPatch { created_at: None, email: None, first_name: None, last_name: None, status: None }
    }
}

/// A column and a direction to order listings by.
#[derive(Clone, Copy, Debug, PartialEq, Eq, Structural)]
pub enum UsersOrderBy {
    CreatedAtAsc,
    CreatedAtDesc,
    EmailAsc,
    EmailDesc,
    FirstNameAsc,
    FirstNameDesc,
    IdAsc,
    IdDesc,
    LastNameAsc,
    LastNameDesc,
    StatusAsc,
    StatusDesc,
}

impl UsersOrderBy {
    /// The `ORDER BY` term of this ordering.
    pub open spec fn term(self) -> Seq<char> {
        match self {
            UsersOrderBy::CreatedAtAsc => "`created_at` ASC"@,
            UsersOrderBy::CreatedAtDesc => "`created_at` DESC"@,
            UsersOrderBy::EmailAsc => "`email` ASC"@,
            UsersOrderBy::EmailDesc => "`email` DESC"@,
            UsersOrderBy::FirstNameAsc => "`first_name` ASC"@,
            UsersOrderBy::FirstNameDesc => "`first_name` DESC"@,
            UsersOrderBy::IdAsc => "`id` ASC"@,
            UsersOrderBy::IdDesc => "`id` DESC"@,
            UsersOrderBy::LastNameAsc => "`last_name` ASC"@,
            UsersOrderBy::LastNameDesc => "`last_name` DESC"@,
            UsersOrderBy::StatusAsc => "`status` ASC"@,
            UsersOrderBy::StatusDesc => "`status` DESC"@,
        }
    }

    /// An ordering sorts by the column its name says, ascending for an
    /// `...Asc` ordering and descending for a `...Desc` one: its term is that
    /// column, then `ASC` or `DESC`.
    pub proof fn law_term_names_column_and_direction(self)
        ensures
            (self is CreatedAtAsc || self is CreatedAtDesc) ==> self.term() == "`created_at`"@ + (if self is CreatedAtDesc { " DESC"@ } else { " ASC"@ }),
            (self is EmailAsc || self is EmailDesc) ==> self.term() == "`email`"@ + (if self is EmailDesc { " DESC"@ } else { " ASC"@ }),
            (self is FirstNameAsc || self is FirstNameDesc) ==> self.term() == "`first_name`"@ + (if self is FirstNameDesc { " DESC"@ } else { " ASC"@ }),
            (self is IdAsc || self is IdDesc) ==> self.term() == "`id`"@ + (if self is IdDesc { " DESC"@ } else { " ASC"@ }),
            (self is LastNameAsc || self is LastNameDesc) ==> self.term() == "`last_name`"@ + (if self is LastNameDesc { " DESC"@ } else { " ASC"@ }),
            (self is StatusAsc || self is StatusDesc) ==> self.term() == "`status`"@ + (if self is StatusDesc { " DESC"@ } else { " ASC"@ }),
    {
        reveal_strlit("`created_at` ASC");
        reveal_strlit("created_at");
        reveal_strlit("`created_at` DESC");
        reveal_strlit("`email` ASC");
        reveal_strlit("email");
        reveal_strlit("`email` DESC");
        reveal_strlit("`first_name` ASC");
        reveal_strlit("first_name");
        reveal_strlit("`first_name` DESC");
        reveal_strlit("`id` ASC");
        reveal_strlit("id");
        reveal_strlit("`id` DESC");
        reveal_strlit("`last_name` ASC");
        reveal_strlit("last_name");
        reveal_strlit("`last_name` DESC");
        reveal_strlit("`status` ASC");
        reveal_strlit("status");
        reveal_strlit("`status` DESC");
        reveal_strlit("`created_at`");
        reveal_strlit("`email`");
        reveal_strlit("`first_name`");
        reveal_strlit("`id`");
        reveal_strlit("`last_name`");
        reveal_strlit("`status`");
        reveal_strlit(" ASC");
        reveal_strlit(" DESC");
    }

    /// The `ORDER BY` term of this ordering.
    pub fn as_str(&self) -> (s: &'static str)
        ensures
            s@ == self.term(),
    {
        match self {
            UsersOrderBy::CreatedAtAsc => "`created_at` ASC",
            UsersOrderBy::CreatedAtDesc => "`created_at` DESC",
            UsersOrderBy::EmailAsc => "`email` ASC",
            UsersOrderBy::EmailDesc => "`email` DESC",
            UsersOrderBy::FirstNameAsc => "`first_name` ASC",
            UsersOrderBy::FirstNameDesc => "`first_name` DESC",
            UsersOrderBy::IdAsc => "`id` ASC",
            UsersOrderBy::IdDesc => "`id` DESC",
            UsersOrderBy::LastNameAsc => "`last_name` ASC",
            UsersOrderBy::LastNameDesc => "`last_name` DESC",
            UsersOrderBy::StatusAsc => "`status` ASC",
            UsersOrderBy::StatusDesc => "`status` DESC",
        }
    }

    /// Different orderings have different terms: a term names one column and
    /// one direction.
    pub proof fn law_terms_are_distinct(a: Self, b: Self)
        ensures
            a.term() == b.term() ==> a == b,
    {
        reveal_strlit("`created_at` ASC");
        assert("`created_at` ASC"@.len() == 16 && "`created_at` ASC"@[1] == 'c');
        reveal_strlit("`created_at` DESC");
        assert("`created_at` DESC"@.len() == 17 && "`created_at` DESC"@[1] == 'c');
        reveal_strlit("`email` ASC");
        assert("`email` ASC"@.len() == 11 && "`email` ASC"@[1] == 'e');
        reveal_strlit("`email` DESC");
        assert("`email` DESC"@.len() == 12 && "`email` DESC"@[1] == 'e');
        reveal_strlit("`first_name` ASC");
        assert("`first_name` ASC"@.len() == 16 && "`first_name` ASC"@[1] == 'f');
        reveal_strlit("`first_name` DESC");
        assert("`first_name` DESC"@.len() == 17 && "`first_name` DESC"@[1] == 'f');
        reveal_strlit("`id` ASC");
        assert("`id` ASC"@.len() == 8 && "`id` ASC"@[1] == 'i');
        reveal_strlit("`id` DESC");
        assert("`id` DESC"@.len() == 9 && "`id` DESC"@[1] == 'i');
        reveal_strlit("`last_name` ASC");
        assert("`last_name` ASC"@.len() == 15 && "`last_name` ASC"@[1] == 'l');
        reveal_strlit("`last_name` DESC");
        assert("`last_name` DESC"@.len() == 16 && "`last_name` DESC"@[1] == 'l');
        reveal_strlit("`status` ASC");
        assert("`status` ASC"@.len() == 12 && "`status` ASC"@[1] == 's');
        reveal_strlit("`status` DESC");
        assert("`status` DESC"@.len() == 13 && "`status` DESC"@[1] == 's');
    }
}


impl Users {
    /// The constraint violations of this row, in the order the checks run.
    pub open spec fn validation_errors(self) -> Seq<Seq<char>> {
        Seq::empty()
            + error_if((utf8_len(self.email@) as usize) < 1, "email: min_length 1 not met"@)
            + error_if((utf8_len(self.email@) as usize) > 255, "email: exceeds max_length 255"@)
            + format_error("^([a-zA-Z0-9_\\-\\.]+)@([a-zA-Z0-9_\\-\\.]+)\\.([a-zA-Z]{2,5})$"@, self.email@, "email: format constraint not met"@, "email: configured regex is invalid"@)
            + when_some(self.first_name, |v: String| error_if((utf8_len(v@) as usize) > 100, "first_name: exceeds max_length 100"@))
            + when_some(self.first_name, |v: String| format_error("^[\u{c0}-\u{ff}A-Za-z0-9_ -]*$"@, v@, "first_name: format constraint not met"@, "first_name: configured regex is invalid"@))
            + error_if((self.id as int) < 0, "id: minimum value '0' not met"@)
            + error_if((self.id as int) > 9223372036854775807, "id: maximum value '9223372036854775807' exceeded"@)
            + error_if((utf8_len(self.last_name@) as usize) < 1, "last_name: min_length 1 not met"@)
            + error_if((utf8_len(self.last_name@) as usize) > 100, "last_name: exceeds max_length 100"@)
            + format_error("^[\u{c0}-\u{ff}A-Za-z0-9_ -]*$"@, self.last_name@, "last_name: format constraint not met"@, "last_name: configured regex is invalid"@)
            + error_if((utf8_len(self.status@) as usize) < 1, "status: min_length 1 not met"@)
            + error_if((utf8_len(self.status@) as usize) > 50, "status: exceeds max_length 50"@)
            + format_error("^[\u{c0}-\u{ff}A-Za-z0-9_ -]*$"@, self.status@, "status: format constraint not met"@, "status: configured regex is invalid"@)
    }

    /// The constraints of `email` are checked: a value that breaks one gets
    /// that constraint's message.
    pub proof fn law_email_constraints_are_reported(self)
        ensures
            ((utf8_len(self.email@) as usize) < 1) ==> self.validation_errors().contains("email: min_length 1 not met"@),
            ((utf8_len(self.email@) as usize) > 255) ==> self.validation_errors().contains("email: exceeds max_length 255"@),
            (regex_match("^([a-zA-Z0-9_\\-\\.]+)@([a-zA-Z0-9_\\-\\.]+)\\.([a-zA-Z]{2,5})$"@, self.email@) == Some(false)) ==> self.validation_errors().contains("email: format constraint not met"@),
            (regex_match("^([a-zA-Z0-9_\\-\\.]+)@([a-zA-Z0-9_\\-\\.]+)\\.([a-zA-Z]{2,5})$"@, self.email@) is None) ==> self.validation_errors().contains("email: configured regex is invalid"@),
    {
        assert(((utf8_len(self.email@) as usize) < 1) ==> self.validation_errors().contains("email: min_length 1 not met"@)) by {
            broadcast use lemma_contains_concat;
            lemma_error_if_reports((utf8_len(self.email@) as usize) < 1, "email: min_length 1 not met"@);
        }
        assert(((utf8_len(self.email@) as usize) > 255) ==> self.validation_errors().contains("email: exceeds max_length 255"@)) by {
            broadcast use lemma_contains_concat;
            lemma_error_if_reports((utf8_len(self.email@) as usize) > 255, "email: exceeds max_length 255"@);
        }
        assert((regex_match("^([a-zA-Z0-9_\\-\\.]+)@([a-zA-Z0-9_\\-\\.]+)\\.([a-zA-Z]{2,5})$"@, self.email@) == Some(false)) ==> self.validation_errors().contains("email: format constraint not met"@)) by {
            broadcast use lemma_contains_concat;
            lemma_format_error_reports("^([a-zA-Z0-9_\\-\\.]+)@([a-zA-Z0-9_\\-\\.]+)\\.([a-zA-Z]{2,5})$"@, self.email@, "email: format constraint not met"@, "email: configured regex is invalid"@);
        }
        assert((regex_match("^([a-zA-Z0-9_\\-\\.]+)@([a-zA-Z0-9_\\-\\.]+)\\.([a-zA-Z]{2,5})$"@, self.email@) is None) ==> self.validation_errors().contains("email: configured regex is invalid"@)) by {
            broadcast use lemma_contains_concat;
            lemma_format_error_reports("^([a-zA-Z0-9_\\-\\.]+)@([a-zA-Z0-9_\\-\\.]+)\\.([a-zA-Z]{2,5})$"@, self.email@, "email: format constraint not met"@, "email: configured regex is invalid"@);
        }
    }

    /// The constraints of `first_name` are checked: a value that breaks one gets
    /// that constraint's message.
    pub proof fn law_first_name_constraints_are_reported(self)
        ensures
            self.first_name matches Some(v) ==> ((utf8_len(v@) as usize) > 100 ==> self.validation_errors().contains("first_name: exceeds max_length 100"@)),
            self.first_name matches Some(v) ==> (regex_match("^[\u{c0}-\u{ff}A-Za-z0-9_ -]*$"@, v@) == Some(false) ==> self.validation_errors().contains("first_name: format constraint not met"@)),
            self.first_name matches Some(v) ==> (regex_match("^[\u{c0}-\u{ff}A-Za-z0-9_ -]*$"@, v@) is None ==> self.validation_errors().contains("first_name: configured regex is invalid"@)),
    {
        assert(self.first_name matches Some(v) ==> ((utf8_len(v@) as usize) > 100 ==> self.validation_errors().contains("first_name: exceeds max_length 100"@))) by {
            broadcast use lemma_contains_concat;
            if let Some(v) = self.first_name {
                lemma_error_if_reports((utf8_len(v@) as usize) > 100, "first_name: exceeds max_length 100"@);
            }
        }
        assert(self.first_name matches Some(v) ==> (regex_match("^[\u{c0}-\u{ff}A-Za-z0-9_ -]*$"@, v@) == Some(false) ==> self.validation_errors().contains("first_name: format constraint not met"@))) by {
            broadcast use lemma_contains_concat;
            if let Some(v) = self.first_name {
                lemma_format_error_reports("^[\u{c0}-\u{ff}A-Za-z0-9_ -]*$"@, v@, "first_name: format constraint not met"@, "first_name: configured regex is invalid"@);
            }
        }
        assert(self.first_name matches Some(v) ==> (regex_match("^[\u{c0}-\u{ff}A-Za-z0-9_ -]*$"@, v@) is None ==> self.validation_errors().contains("first_name: configured regex is invalid"@))) by {
            broadcast use lemma_contains_concat;
            if let Some(v) = self.first_name {
                lemma_format_error_reports("^[\u{c0}-\u{ff}A-Za-z0-9_ -]*$"@, v@, "first_name: format constraint not met"@, "first_name: configured regex is invalid"@);
            }
        }
    }

    /// The constraints of `id` are checked: a value that breaks one gets
    /// that constraint's message.
    pub proof fn law_id_constraints_are_reported(self)
        ensures
            ((self.id as int) < 0) ==> self.validation_errors().contains("id: minimum value '0' not met"@),
            ((self.id as int) > 9223372036854775807) ==> self.validation_errors().contains("id: maximum value '9223372036854775807' exceeded"@),
    {
        assert(((self.id as int) < 0) ==> self.validation_errors().contains("id: minimum value '0' not met"@)) by {
            broadcast use lemma_contains_concat;
            lemma_error_if_reports((self.id as int) < 0, "id: minimum value '0' not met"@);
        }
        assert(((self.id as int) > 9223372036854775807) ==> self.validation_errors().contains("id: maximum value '9223372036854775807' exceeded"@)) by {
            broadcast use lemma_contains_concat;
            lemma_error_if_reports((self.id as int) > 9223372036854775807, "id: maximum value '9223372036854775807' exceeded"@);
        }
    }

    /// The constraints of `last_name` are checked: a value that breaks one gets
    /// that constraint's message.
    pub proof fn law_last_name_constraints_are_reported(self)
        ensures
            ((utf8_len(self.last_name@) as usize) < 1) ==> self.validation_errors().contains("last_name: min_length 1 not met"@),
            ((utf8_len(self.last_name@) as usize) > 100) ==> self.validation_errors().contains("last_name: exceeds max_length 100"@),
            (regex_match("^[\u{c0}-\u{ff}A-Za-z0-9_ -]*$"@, self.last_name@) == Some(false)) ==> self.validation_errors().contains("last_name: format constraint not met"@),
            (regex_match("^[\u{c0}-\u{ff}A-Za-z0-9_ -]*$"@, self.last_name@) is None) ==> self.validation_errors().contains("last_name: configured regex is invalid"@),
    {
        assert(((utf8_len(self.last_name@) as usize) < 1) ==> self.validation_errors().contains("last_name: min_length 1 not met"@)) by {
            broadcast use lemma_contains_concat;
            lemma_error_if_reports((utf8_len(self.last_name@) as usize) < 1, "last_name: min_length 1 not met"@);
        }
        assert(((utf8_len(self.last_name@) as usize) > 100) ==> self.validation_errors().contains("last_name: exceeds max_length 100"@)) by {
            broadcast use lemma_contains_concat;
            lemma_error_if_reports((utf8_len(self.last_name@) as usize) > 100, "last_name: exceeds max_length 100"@);
        }
        assert((regex_match("^[\u{c0}-\u{ff}A-Za-z0-9_ -]*$"@, self.last_name@) == Some(false)) ==> self.validation_errors().contains("last_name: format constraint not met"@)) by {
            broadcast use lemma_contains_concat;
            lemma_format_error_reports("^[\u{c0}-\u{ff}A-Za-z0-9_ -]*$"@, self.last_name@, "last_name: format constraint not met"@, "last_name: configured regex is invalid"@);
        }
        assert((regex_match("^[\u{c0}-\u{ff}A-Za-z0-9_ -]*$"@, self.last_name@) is None) ==> self.validation_errors().contains("last_name: configured regex is invalid"@)) by {
            broadcast use lemma_contains_concat;
            lemma_format_error_reports("^[\u{c0}-\u{ff}A-Za-z0-9_ -]*$"@, self.last_name@, "last_name: format constraint not met"@, "last_name: configured regex is invalid"@);
        }
    }

    /// The constraints of `status` are checked: a value that breaks one gets
    /// that constraint's message.
    pub proof fn law_status_constraints_are_reported(self)
        ensures
            ((utf8_len(self.status@) as usize) < 1) ==> self.validation_errors().contains("status: min_length 1 not met"@),
            ((utf8_len(self.status@) as usize) > 50) ==> self.validation_errors().contains("status: exceeds max_length 50"@),
            (regex_match("^[\u{c0}-\u{ff}A-Za-z0-9_ -]*$"@, self.status@) == Some(false)) ==> self.validation_errors().contains("status: format constraint not met"@),
            (regex_match("^[\u{c0}-\u{ff}A-Za-z0-9_ -]*$"@, self.status@) is None) ==> self.validation_errors().contains("status: configured regex is invalid"@),
    {
        assert(((utf8_len(self.status@) as usize) < 1) ==> self.validation_errors().contains("status: min_length 1 not met"@)) by {
            broadcast use lemma_contains_concat;
            lemma_error_if_reports((utf8_len(self.status@) as usize) < 1, "status: min_length 1 not met"@);
        }
        assert(((utf8_len(self.status@) as usize) > 50) ==> self.validation_errors().contains("status: exceeds max_length 50"@)) by {
            broadcast use lemma_contains_concat;
            lemma_error_if_reports((utf8_len(self.status@) as usize) > 50, "status: exceeds max_length 50"@);
        }
        assert((regex_match("^[\u{c0}-\u{ff}A-Za-z0-9_ -]*$"@, self.status@) == Some(false)) ==> self.validation_errors().contains("status: format constraint not met"@)) by {
            broadcast use lemma_contains_concat;
            lemma_format_error_reports("^[\u{c0}-\u{ff}A-Za-z0-9_ -]*$"@, self.status@, "status: format constraint not met"@, "status: configured regex is invalid"@);
        }
        assert((regex_match("^[\u{c0}-\u{ff}A-Za-z0-9_ -]*$"@, self.status@) is None) ==> self.validation_errors().contains("status: configured regex is invalid"@)) by {
            broadcast use lemma_contains_concat;
            lemma_format_error_reports("^[\u{c0}-\u{ff}A-Za-z0-9_ -]*$"@, self.status@, "status: format constraint not met"@, "status: configured regex is invalid"@);
        }
    }

    /// A row that breaks none of the constraints gets no message at all.
    pub proof fn law_row_within_constraints_gets_no_message(self)
        ensures
            ((!((utf8_len(self.email@) as usize) < 1))
                && (!((utf8_len(self.email@) as usize) > 255))
                && (regex_match("^([a-zA-Z0-9_\\-\\.]+)@([a-zA-Z0-9_\\-\\.]+)\\.([a-zA-Z]{2,5})$"@, self.email@) == Some(true))
                && (self.first_name matches Some(v) ==> !((utf8_len(v@) as usize) > 100))
                && (self.first_name matches Some(v) ==> regex_match("^[\u{c0}-\u{ff}A-Za-z0-9_ -]*$"@, v@) == Some(true))
                && (!((self.id as int) < 0))
                && (!((self.id as int) > 9223372036854775807))
                && (!((utf8_len(self.last_name@) as usize) < 1))
                && (!((utf8_len(self.last_name@) as usize) > 100))
                && (regex_match("^[\u{c0}-\u{ff}A-Za-z0-9_ -]*$"@, self.last_name@) == Some(true))
                && (!((utf8_len(self.status@) as usize) < 1))
                && (!((utf8_len(self.status@) as usize) > 50))
                && (regex_match("^[\u{c0}-\u{ff}A-Za-z0-9_ -]*$"@, self.status@) == Some(true)))
                ==> self.validation_errors() == Seq::<Seq<char>>::empty(),
    {
        if (!((utf8_len(self.email@) as usize) < 1))
            && (!((utf8_len(self.email@) as usize) > 255))
            && (regex_match("^([a-zA-Z0-9_\\-\\.]+)@([a-zA-Z0-9_\\-\\.]+)\\.([a-zA-Z]{2,5})$"@, self.email@) == Some(true))
            && (self.first_name matches Some(v) ==> !((utf8_len(v@) as usize) > 100))
            && (self.first_name matches Some(v) ==> regex_match("^[\u{c0}-\u{ff}A-Za-z0-9_ -]*$"@, v@) == Some(true))
            && (!((self.id as int) < 0))
            && (!((self.id as int) > 9223372036854775807))
            && (!((utf8_len(self.last_name@) as usize) < 1))
            && (!((utf8_len(self.last_name@) as usize) > 100))
            && (regex_match("^[\u{c0}-\u{ff}A-Za-z0-9_ -]*$"@, self.last_name@) == Some(true))
            && (!((utf8_len(self.status@) as usize) < 1))
            && (!((utf8_len(self.status@) as usize) > 50))
            && (regex_match("^[\u{c0}-\u{ff}A-Za-z0-9_ -]*$"@, self.status@) == Some(true)) {
            lemma_error_if_reports((utf8_len(self.email@) as usize) < 1, "email: min_length 1 not met"@);
            lemma_error_if_reports((utf8_len(self.email@) as usize) > 255, "email: exceeds max_length 255"@);
            lemma_format_error_reports("^([a-zA-Z0-9_\\-\\.]+)@([a-zA-Z0-9_\\-\\.]+)\\.([a-zA-Z]{2,5})$"@, self.email@, "email: format constraint not met"@, "email: configured regex is invalid"@);
            if let Some(v) = self.first_name {
                lemma_error_if_reports((utf8_len(v@) as usize) > 100, "first_name: exceeds max_length 100"@);
            }
            if let Some(v) = self.first_name {
                lemma_format_error_reports("^[\u{c0}-\u{ff}A-Za-z0-9_ -]*$"@, v@, "first_name: format constraint not met"@, "first_name: configured regex is invalid"@);
            }
            lemma_error_if_reports((self.id as int) < 0, "id: minimum value '0' not met"@);
            lemma_error_if_reports((self.id as int) > 9223372036854775807, "id: maximum value '9223372036854775807' exceeded"@);
            lemma_error_if_reports((utf8_len(self.last_name@) as usize) < 1, "last_name: min_length 1 not met"@);
            lemma_error_if_reports((utf8_len(self.last_name@) as usize) > 100, "last_name: exceeds max_length 100"@);
            lemma_format_error_reports("^[\u{c0}-\u{ff}A-Za-z0-9_ -]*$"@, self.last_name@, "last_name: format constraint not met"@, "last_name: configured regex is invalid"@);
            lemma_error_if_reports((utf8_len(self.status@) as usize) < 1, "status: min_length 1 not met"@);
            lemma_error_if_reports((utf8_len(self.status@) as usize) > 50, "status: exceeds max_length 50"@);
            lemma_format_error_reports("^[\u{c0}-\u{ff}A-Za-z0-9_ -]*$"@, self.status@, "status: format constraint not met"@, "status: configured regex is invalid"@);
        }
    }

    fn collect_errors(&self) -> (errors: Vec<String>)
        ensures
            errors_view(errors@) == self.validation_errors(),
    {
        let mut errors: Vec<String> = Vec::new();
        check_min_len(&mut errors, self.email.as_str(), 1, "email: min_length 1 not met");
        check_max_len(&mut errors, self.email.as_str(), 255, "email: exceeds max_length 255");
        check_format(&mut errors, "^([a-zA-Z0-9_\\-\\.]+)@([a-zA-Z0-9_\\-\\.]+)\\.([a-zA-Z]{2,5})$", self.email.as_str(), "email: format constraint not met", "email: configured regex is invalid");
        check_max_len_opt(&mut errors, &self.first_name, 100, "first_name: exceeds max_length 100");
        check_format_opt(&mut errors, "^[\u{c0}-\u{ff}A-Za-z0-9_ -]*$", &self.first_name, "first_name: format constraint not met", "first_name: configured regex is invalid");
        check_min(&mut errors, self.id as i128, 0, "id: minimum value '0' not met");
        check_max(&mut errors, self.id as i128, 9223372036854775807, "id: maximum value '9223372036854775807' exceeded");
        check_min_len(&mut errors, self.last_name.as_str(), 1, "last_name: min_length 1 not met");
        check_max_len(&mut errors, self.last_name.as_str(), 100, "last_name: exceeds max_length 100");
        check_format(&mut errors, "^[\u{c0}-\u{ff}A-Za-z0-9_ -]*$", self.last_name.as_str(), "last_name: format constraint not met", "last_name: configured regex is invalid");
        check_min_len(&mut errors, self.status.as_str(), 1, "status: min_length 1 not met");
        check_max_len(&mut errors, self.status.as_str(), 50, "status: exceeds max_length 50");
        check_format(&mut errors, "^[\u{c0}-\u{ff}A-Za-z0-9_ -]*$", self.status.as_str(), "status: format constraint not met", "status: configured regex is invalid");
        errors
    }

    /// Checks the constraints of the columns (lengths, ranges, allowed values,
    /// finite numbers and formats): `Ok` when all hold, the messages of those
    /// that fail otherwise, in the order the checks run.
    pub fn validate(&self) -> (r: Result<(), Vec<String>>)
        ensures
            validation_result(r, self.validation_errors()),
    {
        outcome(self.collect_errors())
    }

    /// The statement that counts the rows.
    pub fn count() -> (st: Statement)
        ensures
            st@.sql == "SELECT COUNT(*) FROM `users`"@,
            st@.binds == Seq::<BindV>::empty(),
    {
        Statement::new("SELECT COUNT(*) FROM `users`", Vec::new())
    }

    /// The statement that reads the row-count estimate from the database statistics.
    pub fn approximate_count() -> (st: Statement)
        ensures
            st@.sql == "SELECT table_rows FROM information_schema.tables WHERE table_name = 'users' AND table_schema = DATABASE()"@,
            st@.binds == Seq::<BindV>::empty(),
    {
        Statement::new("SELECT table_rows FROM information_schema.tables WHERE table_name = 'users' AND table_schema = DATABASE()", Vec::new())
    }

    /// The statement that streams the rows in key order, at most `limit` of them (brought into `1..=10000`).
    pub fn stream_all(limit: i64) -> (st: Statement)
        ensures
            st@.sql == "SELECT `created_at`, `email`, `first_name`, `id`, `last_name`, `status` FROM `users` ORDER BY `id` ASC LIMIT ?"@,
            st@.binds == seq![BindV::BigInt(Some(clamp(limit as int, 1, 10000) as i64))],
    {
        Statement::new("SELECT `created_at`, `email`, `first_name`, `id`, `last_name`, `status` FROM `users` ORDER BY `id` ASC LIMIT ?", vec![SqlValue::BigInt(Some(row_limit(limit)))])
    }

    /// The statement that reads the row with the given key.
    pub fn get_by_id(id: i64) -> (st: Statement)
        ensures
            st@.sql == "SELECT `created_at`, `email`, `first_name`, `id`, `last_name`, `status` FROM `users` WHERE `id` = ?"@,
            st@.binds == seq![BindV::BigInt(Some(id))],
    {
        Statement::new("SELECT `created_at`, `email`, `first_name`, `id`, `last_name`, `status` FROM `users` WHERE `id` = ?", vec![SqlValue::BigInt(Some(id))])
    }

    /// The statement that tells whether a row with the given key exists.
    pub fn exists_by_id(id: i64) -> (st: Statement)
        ensures
            st@.sql == "SELECT 1 FROM `users` WHERE `id` = ? LIMIT 1"@,
            st@.binds == seq![BindV::BigInt(Some(id))],
    {
        Statement::new("SELECT 1 FROM `users` WHERE `id` = ? LIMIT 1", vec![SqlValue::BigInt(Some(id))])
    }

    /// The statement that lists the rows after a key in key order, at most `limit` of them (brought into `1..=10000`).
    pub fn list_by_cursor(last_id: i64, limit: u32) -> (st: Statement)
        ensures
            st@.sql == "SELECT `created_at`, `email`, `first_name`, `id`, `last_name`, `status` FROM `users` WHERE `id` > ? ORDER BY `id` ASC LIMIT ?"@,
            st@.binds == seq![BindV::BigInt(Some(last_id)), BindV::BigInt(Some(clamp(limit as int, 1, 10000) as i64))],
    {
        Statement::new("SELECT `created_at`, `email`, `first_name`, `id`, `last_name`, `status` FROM `users` WHERE `id` > ? ORDER BY `id` ASC LIMIT ?", vec![SqlValue::BigInt(Some(last_id)), SqlValue::BigInt(Some(page_limit(limit) as i64))])
    }

    /// The value this row holds in the column named `column`, as the
    /// statements bind it; `None` for a name that is not a column.
    pub open spec fn column_value(self, column: Seq<char>) -> Option<BindV> {
        if column == "created_at"@ {
            Some(BindV::Timestamp(self.created_at))
        } else if column == "email"@ {
            Some(text_v(self.email))
        } else if column == "first_name"@ {
            Some(opt_text_v(self.first_name))
        } else if column == "last_name"@ {
            Some(text_v(self.last_name))
        } else if column == "status"@ {
            Some(text_v(self.status))
        } else if column == "id"@ {
            Some(BindV::BigInt(Some(self.id)))
        } else {
            None
        }
    }

    /// The text that starts the single-row and multi-row writes, up to their
    /// `VALUES`.
    pub open spec fn insert_head() -> Seq<char> {
        "INSERT INTO `users` (`created_at`, `email`, `first_name`, `last_name`, `status`) "@
    }

    /// The single-row and multi-row writes name the columns `created_at`, `email`, `first_name`, `last_name`, `status`
    /// in this order, and bind for each of them this row's value of that column.
    pub proof fn law_row_binds_named_columns(self)
        ensures
            Self::insert_head() == "INSERT INTO `users` ("@ + "`created_at`"@ + ", "@ + "`email`"@ + ", "@ + "`first_name`"@ + ", "@ + "`last_name`"@ + ", "@ + "`status`"@ + ") "@,
            self.row_values().len() == 5,
            self.column_value("created_at"@) == Some(self.row_values()[0]),
            self.column_value("email"@) == Some(self.row_values()[1]),
            self.column_value("first_name"@) == Some(self.row_values()[2]),
            self.column_value("last_name"@) == Some(self.row_values()[3]),
            self.column_value("status"@) == Some(self.row_values()[4]),
    {
        reveal_strlit("created_at");
        assert("created_at"@.len() == 10 && "created_at"@[0] == 'c');
        reveal_strlit("email");
        assert("email"@.len() == 5 && "email"@[0] == 'e');
        reveal_strlit("first_name");
        assert("first_name"@.len() == 10 && "first_name"@[0] == 'f');
        reveal_strlit("last_name");
        assert("last_name"@.len() == 9 && "last_name"@[0] == 'l');
        reveal_strlit("status");
        assert("status"@.len() == 6 && "status"@[0] == 's');
        reveal_strlit("id");
        assert("id"@.len() == 2 && "id"@[0] == 'i');
        reveal_strlit("INSERT INTO `users` (`created_at`, `email`, `first_name`, `last_name`, `status`) ");
        reveal_strlit("INSERT INTO `users` (");
        reveal_strlit("`created_at`");
        reveal_strlit(", ");
        reveal_strlit("`email`");
        reveal_strlit("`first_name`");
        reveal_strlit("`last_name`");
        reveal_strlit("`status`");
        reveal_strlit(") ");
    }

    /// The columns the full update sets, as its text names them.
    pub open spec fn row_then_id_set_columns() -> Seq<Seq<char>> {
        seq!["`created_at`"@, "`email`"@, "`first_name`"@, "`last_name`"@, "`status`"@]
    }

    /// The key columns the full update selects the row by, as its text names them.
    pub open spec fn row_then_id_key_columns() -> Seq<Seq<char>> {
        seq!["`id`"@]
    }

    /// The full update binds this row's value of each column it sets
    /// (`created_at`, `email`, `first_name`, `last_name`, `status`), then of each key column
    /// (`id`), in the order the statement names them.
    pub proof fn law_row_then_id_binds_named_columns(self)
        ensures
            Self::row_then_id_set_columns() == seq!["`created_at`"@, "`email`"@, "`first_name`"@, "`last_name`"@, "`status`"@],
            Self::row_then_id_key_columns() == seq!["`id`"@],
            self.row_then_id_values().len() == 6,
            self.column_value("created_at"@) == Some(self.row_then_id_values()[0]),
            self.column_value("email"@) == Some(self.row_then_id_values()[1]),
            self.column_value("first_name"@) == Some(self.row_then_id_values()[2]),
            self.column_value("last_name"@) == Some(self.row_then_id_values()[3]),
            self.column_value("status"@) == Some(self.row_then_id_values()[4]),
            self.column_value("id"@) == Some(self.row_then_id_values()[5]),
    {
        reveal_strlit("created_at");
        assert("created_at"@.len() == 10 && "created_at"@[0] == 'c');
        reveal_strlit("email");
        assert("email"@.len() == 5 && "email"@[0] == 'e');
        reveal_strlit("first_name");
        assert("first_name"@.len() == 10 && "first_name"@[0] == 'f');
        reveal_strlit("last_name");
        assert("last_name"@.len() == 9 && "last_name"@[0] == 'l');
        reveal_strlit("status");
        assert("status"@.len() == 6 && "status"@[0] == 's');
        reveal_strlit("id");
        assert("id"@.len() == 2 && "id"@[0] == 'i');
    }

    /// A batch holds one row of values an item, in the order of the items.
    pub proof fn law_batch_rows_are_the_items_in_order(items: Seq<Self>)
        ensures
            Self::rows_values(items).len() == items.len(),
            forall|i: int| 0 <= i < items.len() ==> #[trigger] Self::rows_values(items)[i] == items[i].row_values(),
    {
    }

    /// What the upsert does on a key conflict, after its `VALUES`.
    pub open spec fn upsert_tail() -> Seq<char> {
        " ON DUPLICATE KEY UPDATE `created_at` = VALUES(`created_at`), `email` = VALUES(`email`), `first_name` = VALUES(`first_name`), `last_name` = VALUES(`last_name`), `status` = VALUES(`status`)"@
    }

    /// On a key conflict the upsert sets each of `created_at`, `email`, `first_name`, `last_name`, `status` to the
    /// value the new row brings for that same column.
    pub proof fn law_upsert_sets_each_column_from_the_new_row()
        ensures
            Self::upsert_tail() == " ON DUPLICATE KEY UPDATE "@ + values_assignment("`created_at`"@) + ", "@ + values_assignment("`email`"@) + ", "@ + values_assignment("`first_name`"@) + ", "@ + values_assignment("`last_name`"@) + ", "@ + values_assignment("`status`"@),
    {
        reveal_strlit(" ON DUPLICATE KEY UPDATE `created_at` = VALUES(`created_at`), `email` = VALUES(`email`), `first_name` = VALUES(`first_name`), `last_name` = VALUES(`last_name`), `status` = VALUES(`status`)");
        reveal_strlit(" ON DUPLICATE KEY UPDATE ");
        reveal_strlit(", ");
        reveal_strlit(" = VALUES(");
        reveal_strlit("`created_at`");
        reveal_strlit("`email`");
        reveal_strlit("`first_name`");
        reveal_strlit("`last_name`");
        reveal_strlit("`status`");
        reveal_strlit(")");
    }

    /// The values of this row's columns, in the order the single-row and multi-row writes bind them.
    pub open spec fn row_values(self) -> Seq<BindV> {
        seq![BindV::Timestamp(self.created_at), text_v(self.email), opt_text_v(self.first_name), text_v(self.last_name), text_v(self.status)]
    }

    /// The values of this row's columns, in the order the single-row and multi-row writes bind them.
    pub fn row(&self) -> (r: Vec<SqlValue>)
        ensures
            r@.map_values(|b: SqlValue| b@) == self.row_values(),
    {
        vec![SqlValue::Timestamp(self.created_at), SqlValue::text(&self.email), SqlValue::opt_text(&self.first_name), SqlValue::text(&self.last_name), SqlValue::text(&self.status)]
    }

    /// The statement that inserts this row, without checking its constraints.
    pub fn insert_unchecked(&self) -> (st: Statement)
        ensures
            st@.sql == values_sql(Self::insert_head(), Placeholder::Question, 1, 5, ""@),
            st@.binds == self.row_values(),
    {
        Statement { sql: values_text("INSERT INTO `users` (`created_at`, `email`, `first_name`, `last_name`, `status`) ", Placeholder::Question, 1, 5, ""), binds: self.row() }
    }

    /// The statement of `insert_unchecked` when the row passes [`Self::validate`]; the
    /// validation messages joined by `, ` otherwise.
    pub fn insert(&self) -> (r: Result<Statement, String>)
        ensures
            r is Ok <==> self.validation_errors().len() == 0,
            r matches Err(m) ==> m@ == join(self.validation_errors(), seq![',', ' ']),
            r matches Ok(st) ==> st@.sql == values_sql(Self::insert_head(), Placeholder::Question, 1, 5, ""@) && st@.binds == self.row_values(),
    {
        match self.validate() {
            Ok(()) => Ok(self.insert_unchecked()),
            Err(errors) => Err(joined_errors(&errors)),
        }
    }

    /// The statement of `insert_unchecked` when the row passes [`Self::validate`]; the
    /// validation messages joined by `, ` otherwise.
    pub fn insert_validated(&self) -> (r: Result<Statement, String>)
        ensures
            r is Ok <==> self.validation_errors().len() == 0,
            r matches Err(m) ==> m@ == join(self.validation_errors(), seq![',', ' ']),
            r matches Ok(st) ==> st@.sql == values_sql(Self::insert_head(), Placeholder::Question, 1, 5, ""@) && st@.binds == self.row_values(),
    {
        match self.validate() {
            Ok(()) => Ok(self.insert_unchecked()),
            Err(errors) => Err(joined_errors(&errors)),
        }
    }

    /// The values of each row, in statement order.
    pub open spec fn rows_values(items: Seq<Self>) -> Seq<Seq<BindV>> {
        items.map_values(|it: Self| it.row_values())
    }

    /// The values of each row, in statement order.
    pub fn rows(items: &[Self]) -> (r: Vec<Vec<SqlValue>>)
        ensures
            rows_view(r@) == Self::rows_values(items@),
    {
        let mut r: Vec<Vec<SqlValue>> = Vec::new();
        let mut i: usize = 0;
        while i < items.len()
            invariant
                0 <= i <= items.len(),
                rows_view(r@) == Self::rows_values(items@.take(i as int)),
            decreases items.len() - i,
        {
            let row = items[i].row();
            let ghost prev = r@;
            r.push(row);
            proof {
                assert(r@ =~= prev.push(row));
                assert(rows_view(r@) =~= rows_view(prev).push(row@.map_values(|b: SqlValue| b@)));
                assert(items@.take(i + 1) =~= items@.take(i as int).push(items@[i as int]));
                assert(Self::rows_values(items@.take(i + 1))
                    =~= Self::rows_values(items@.take(i as int)).push(items@[i as int].row_values()));
            }
            i = i + 1;
        }
        assert(items@.take(items.len() as int) =~= items@);
        r
    }

    /// The multi-row statements that write the given rows, pieces of at most 13107 rows; no
    /// statement for no rows.
    pub fn insert_batch(items: &[Self]) -> (plan: Vec<Statement>)
        ensures
            plan@.len() == chunks(Self::rows_values(items@), 13107 as nat).len(),
            forall|k: int| 0 <= k < plan@.len() ==> (#[trigger] plan@[k])@ == values_piece(
                Self::insert_head(), ""@, Placeholder::Question, 5, chunks(Self::rows_values(items@), 13107 as nat)[k]),
            forall|k: int| 0 <= k < plan@.len() ==> (#[trigger] plan@[k])@.binds.len() <= 65535,
    {
        let rows = Self::rows(items);
        assert(rows_view(rows@).len() == items@.len());
        assert(rows_view(rows@).len() == rows@.len());
        assert forall|j: int| 0 <= j < rows@.len() implies (#[trigger] rows_view(rows@)[j]).len() == 5 by {
            assert(Self::rows_values(items@)[j] == items@[j].row_values());
            assert(rows_view(rows@)[j] == items@[j].row_values());
        }
        values_plan("INSERT INTO `users` (`created_at`, `email`, `first_name`, `last_name`, `status`) ", "", Placeholder::Question, 5, 13107, &rows)
    }

    /// The statement that inserts this row or, on a key conflict, updates it.
    pub fn upsert(&self) -> (st: Statement)
        ensures
            st@.sql == values_sql(Self::insert_head(), Placeholder::Question, 1, 5, Self::upsert_tail()),
            st@.binds == self.row_values(),
    {
        Statement { sql: values_text("INSERT INTO `users` (`created_at`, `email`, `first_name`, `last_name`, `status`) ", Placeholder::Question, 1, 5, " ON DUPLICATE KEY UPDATE `created_at` = VALUES(`created_at`), `email` = VALUES(`email`), `first_name` = VALUES(`first_name`), `last_name` = VALUES(`last_name`), `status` = VALUES(`status`)"), binds: self.row() }
    }

    /// The statement of `upsert` when the row passes [`Self::validate`]; the
    /// validation messages joined by `, ` otherwise.
    pub fn upsert_validated(&self) -> (r: Result<Statement, String>)
        ensures
            r is Ok <==> self.validation_errors().len() == 0,
            r matches Err(m) ==> m@ == join(self.validation_errors(), seq![',', ' ']),
            r matches Ok(st) ==> st@.sql == values_sql(Self::insert_head(), Placeholder::Question, 1, 5, Self::upsert_tail()) && st@.binds == self.row_values(),
    {
        match self.validate() {
            Ok(()) => Ok(self.upsert()),
            Err(errors) => Err(joined_errors(&errors)),
        }
    }

    /// The multi-row statements that write the given rows, pieces of at most 13107 rows; no
    /// statement for no rows.
    pub fn upsert_batch(items: &[Self]) -> (plan: Vec<Statement>)
        ensures
            plan@.len() == chunks(Self::rows_values(items@), 13107 as nat).len(),
            forall|k: int| 0 <= k < plan@.len() ==> (#[trigger] plan@[k])@ == values_piece(
                Self::insert_head(), Self::upsert_tail(), Placeholder::Question, 5, chunks(Self::rows_values(items@), 13107 as nat)[k]),
            forall|k: int| 0 <= k < plan@.len() ==> (#[trigger] plan@[k])@.binds.len() <= 65535,
    {
        let rows = Self::rows(items);
        assert(rows_view(rows@).len() == items@.len());
        assert(rows_view(rows@).len() == rows@.len());
        assert forall|j: int| 0 <= j < rows@.len() implies (#[trigger] rows_view(rows@)[j]).len() == 5 by {
            assert(Self::rows_values(items@)[j] == items@[j].row_values());
            assert(rows_view(rows@)[j] == items@[j].row_values());
        }
        values_plan("INSERT INTO `users` (`created_at`, `email`, `first_name`, `last_name`, `status`) ", " ON DUPLICATE KEY UPDATE `created_at` = VALUES(`created_at`), `email` = VALUES(`email`), `first_name` = VALUES(`first_name`), `last_name` = VALUES(`last_name`), `status` = VALUES(`status`)", Placeholder::Question, 5, 13107, &rows)
    }

    /// The values of this row's columns and then of its key columns, in the order the full update binds them.
    pub open spec fn row_then_id_values(self) -> Seq<BindV> {
        seq![BindV::Timestamp(self.created_at), text_v(self.email), opt_text_v(self.first_name), text_v(self.last_name), text_v(self.status), BindV::BigInt(Some(self.id))]
    }

    /// The values of this row's columns and then of its key columns, in the order the full update binds them.
    pub fn row_then_id(&self) -> (r: Vec<SqlValue>)
        ensures
            r@.map_values(|b: SqlValue| b@) == self.row_then_id_values(),
    {
        vec![SqlValue::Timestamp(self.created_at), SqlValue::text(&self.email), SqlValue::opt_text(&self.first_name), SqlValue::text(&self.last_name), SqlValue::text(&self.status), SqlValue::BigInt(Some(self.id))]
    }

    /// The statement that writes every column of this row, selected by its key.
    pub fn update_by_id(&self) -> (st: Statement)
        ensures
            st@.sql == update_sql("UPDATE `users` SET "@, Self::row_then_id_set_columns(), Self::row_then_id_key_columns(), Placeholder::Question),
            st@.binds == self.row_then_id_values(),
    {
        let set: Vec<&str> = vec!["`created_at`", "`email`", "`first_name`", "`last_name`", "`status`"];
        let keys: Vec<&str> = vec!["`id`"];
        proof {
            assert(set@.map_values(|n: &str| n@) =~= seq!["`created_at`"@, "`email`"@, "`first_name`"@, "`last_name`"@, "`status`"@]);
            assert(keys@.map_values(|n: &str| n@) =~= seq!["`id`"@]);
        }
        Statement { sql: update_text("UPDATE `users` SET ", &set, &keys, Placeholder::Question), binds: self.row_then_id() }
    }

    /// The statement of `update_by_id` when the row passes [`Self::validate`]; the
    /// validation messages joined by `, ` otherwise.
    pub fn update_validated_by_id(&self) -> (r: Result<Statement, String>)
        ensures
            r is Ok <==> self.validation_errors().len() == 0,
            r matches Err(m) ==> m@ == join(self.validation_errors(), seq![',', ' ']),
            r matches Ok(st) ==> st@.sql == update_sql("UPDATE `users` SET "@, seq!["`created_at`"@, "`email`"@, "`first_name`"@, "`last_name`"@, "`status`"@], seq!["`id`"@], Placeholder::Question) && st@.binds == self.row_then_id_values(),
    {
        match self.validate() {
            Ok(()) => Ok(self.update_by_id()),
            Err(errors) => Err(joined_errors(&errors)),
        }
    }

    /// The statement that deletes the rows with the given key.
    pub fn delete_by_id(id: i64) -> (st: Statement)
        ensures
            st@.sql == "DELETE FROM `users` WHERE `id` = ?"@,
            st@.binds == seq![BindV::BigInt(Some(id))],
    {
        Statement::new("DELETE FROM `users` WHERE `id` = ?", vec![SqlValue::BigInt(Some(id))])
    }

    /// The statements that delete the rows with the given keys, pieces of at most 5000 keys;
    /// no statement for no keys.
    pub fn delete_many_by_id(ids: &[i64]) -> (plan: Vec<Statement>)
        ensures
            plan@.len() == chunks(ids@.map_values(|x: i64| BindV::BigInt(Some(x))), 5000 as nat).len(),
            forall|k: int| 0 <= k < plan@.len() ==> (#[trigger] plan@[k])@ == in_list_piece(
                "DELETE FROM `users` WHERE `id` IN "@, Placeholder::Question, chunks(ids@.map_values(|x: i64| BindV::BigInt(Some(x))), 5000 as nat)[k]),
    {
        let values = values_of_i64(ids);
        in_list_plan("DELETE FROM `users` WHERE `id` IN ", Placeholder::Question, 5000, &values)
    }

    /// The columns the patch sets and their values, in column order.
    fn update_partial_by_id_assignments(patch: &UsersPatch) -> (r: (Vec<&'static str>, Vec<SqlValue>))
        ensures
            r.0@.map_values(|n: &str| n@) == Self::update_partial_by_id_columns(*patch),
            r.1@.map_values(|b: SqlValue| b@) == Self::update_partial_by_id_values(*patch),
            r.0@.len() <= 5,
    {
        let mut set: Vec<&'static str> = Vec::new();
        let mut binds: Vec<SqlValue> = Vec::new();
        assert(set@.map_values(|n: &str| n@) =~= Seq::<Seq<char>>::empty());
        assert(binds@.map_values(|b: SqlValue| b@) =~= Seq::<BindV>::empty());
        let value = match &patch.created_at {
            Some(v) => Some(SqlValue::Timestamp(*v)),
            None => None,
        };
        push_assignment(&mut set, &mut binds, "`created_at`", value);
        let value = match &patch.email {
            Some(v) => Some(SqlValue::text(v)),
            None => None,
        };
        push_assignment(&mut set, &mut binds, "`email`", value);
        let value = match &patch.first_name {
            Some(v) => Some(SqlValue::opt_text(v)),
            None => None,
        };
        push_assignment(&mut set, &mut binds, "`first_name`", value);
        let value = match &patch.last_name {
            Some(v) => Some(SqlValue::text(v)),
            None => None,
        };
        push_assignment(&mut set, &mut binds, "`last_name`", value);
        let value = match &patch.status {
            Some(v) => Some(SqlValue::text(v)),
            None => None,
        };
        push_assignment(&mut set, &mut binds, "`status`", value);
        (set, binds)
    }

    /// The statement that writes only the columns the patch sets, on the row
    /// with the given key; none when the patch sets no column.
    pub fn update_partial_by_id(id: i64, patch: &UsersPatch) -> (r: Option<Statement>)
        ensures
            r is None <==> Self::update_partial_by_id_columns(*patch).len() == 0,
            r matches Some(st) ==> st@.sql == update_sql("UPDATE `users` SET "@, Self::update_partial_by_id_columns(*patch), seq!["`id`"@], Placeholder::Question)
                && st@.binds == Self::update_partial_by_id_values(*patch) + seq![BindV::BigInt(Some(id))],
    {
        let (set, mut binds) = Self::update_partial_by_id_assignments(patch);
        if set.len() == 0 {
            return None;
        }
        let ghost vals = binds@.map_values(|b: SqlValue| b@);
        binds.push(SqlValue::BigInt(Some(id)));
        let keys: Vec<&str> = vec!["`id`"];
        proof {
            assert(keys@.map_values(|n: &str| n@) =~= seq!["`id`"@]);
            assert(binds@.map_values(|b: SqlValue| b@) =~= vals + seq![BindV::BigInt(Some(id))]);
        }
        Some(Statement { sql: update_text("UPDATE `users` SET ", &set, &keys, Placeholder::Question), binds })
    }

    /// The statement that reads the row with the given key.
    pub fn get_by_email(email: &str) -> (st: Statement)
        ensures
            st@.sql == "SELECT `created_at`, `email`, `first_name`, `id`, `last_name`, `status` FROM `users` WHERE `email` = ?"@,
            st@.binds == seq![BindV::Text(Some(email@))],
    {
        Statement::new("SELECT `created_at`, `email`, `first_name`, `id`, `last_name`, `status` FROM `users` WHERE `email` = ?", vec![SqlValue::str(email)])
    }

    /// The statement that tells whether a row with the given key exists.
    pub fn exists_by_email(email: &str) -> (st: Statement)
        ensures
            st@.sql == "SELECT 1 FROM `users` WHERE `email` = ? LIMIT 1"@,
            st@.binds == seq![BindV::Text(Some(email@))],
    {
        Statement::new("SELECT 1 FROM `users` WHERE `email` = ? LIMIT 1", vec![SqlValue::str(email)])
    }

    /// The statement that deletes the rows with the given key.
    pub fn delete_by_email(email: &str) -> (st: Statement)
        ensures
            st@.sql == "DELETE FROM `users` WHERE `email` = ?"@,
            st@.binds == seq![BindV::Text(Some(email@))],
    {
        Statement::new("DELETE FROM `users` WHERE `email` = ?", vec![SqlValue::str(email)])
    }

    /// The statement that lists the rows with the given values, at most `limit` of them (brought into `1..=10000`).
    pub fn list_by_last_name_and_first_name(last_name: &str, first_name: &str, limit: i64) -> (st: Statement)
        ensures
            st@.sql == "SELECT `created_at`, `email`, `first_name`, `id`, `last_name`, `status` FROM `users` WHERE `last_name` = ? AND `first_name` = ? ORDER BY `id` ASC LIMIT ?"@,
            st@.binds == seq![BindV::Text(Some(last_name@)), BindV::Text(Some(first_name@)), BindV::BigInt(Some(clamp(limit as int, 1, 10000) as i64))],
    {
        Statement::new("SELECT `created_at`, `email`, `first_name`, `id`, `last_name`, `status` FROM `users` WHERE `last_name` = ? AND `first_name` = ? ORDER BY `id` ASC LIMIT ?", vec![SqlValue::str(last_name), SqlValue::str(first_name), SqlValue::BigInt(Some(row_limit(limit)))])
    }

    /// The statement that streams the rows with the given values, at most `limit` of them (brought into `1..=10000`).
    pub fn stream_by_last_name_and_first_name(last_name: &str, first_name: &str, limit: i64) -> (st: Statement)
        ensures
            st@.sql == "SELECT `created_at`, `email`, `first_name`, `id`, `last_name`, `status` FROM `users` WHERE `last_name` = ? AND `first_name` = ? ORDER BY `id` ASC LIMIT ?"@,
            st@.binds == seq![BindV::Text(Some(last_name@)), BindV::Text(Some(first_name@)), BindV::BigInt(Some(clamp(limit as int, 1, 10000) as i64))],
    {
        Statement::new("SELECT `created_at`, `email`, `first_name`, `id`, `last_name`, `status` FROM `users` WHERE `last_name` = ? AND `first_name` = ? ORDER BY `id` ASC LIMIT ?", vec![SqlValue::str(last_name), SqlValue::str(first_name), SqlValue::BigInt(Some(row_limit(limit)))])
    }

    /// The statement that tells whether a row with the given key exists.
    pub fn exists_by_last_name_and_first_name(last_name: &str, first_name: &str) -> (st: Statement)
        ensures
            st@.sql == "SELECT 1 FROM `users` WHERE `last_name` = ? AND `first_name` = ? LIMIT 1"@,
            st@.binds == seq![BindV::Text(Some(last_name@)), BindV::Text(Some(first_name@))],
    {
        Statement::new("SELECT 1 FROM `users` WHERE `last_name` = ? AND `first_name` = ? LIMIT 1", vec![SqlValue::str(last_name), SqlValue::str(first_name)])
    }

    /// The statement that deletes the rows with the given key.
    pub fn delete_by_last_name_and_first_name(last_name: &str, first_name: &str) -> (st: Statement)
        ensures
            st@.sql == "DELETE FROM `users` WHERE `last_name` = ? AND `first_name` = ?"@,
            st@.binds == seq![BindV::Text(Some(last_name@)), BindV::Text(Some(first_name@))],
    {
        Statement::new("DELETE FROM `users` WHERE `last_name` = ? AND `first_name` = ?", vec![SqlValue::str(last_name), SqlValue::str(first_name)])
    }

    /// The columns a patch assigns, in column order.
    pub open spec fn update_partial_by_id_columns(p: UsersPatch) -> Seq<Seq<char>> {
        Seq::empty()
            + assigned_column(p.created_at, "`created_at`"@)
            + assigned_column(p.email, "`email`"@)
            + assigned_column(p.first_name, "`first_name`"@)
            + assigned_column(p.last_name, "`last_name`"@)
            + assigned_column(p.status, "`status`"@)
    }

    /// The values a patch assigns, in column order.
    pub open spec fn update_partial_by_id_values(p: UsersPatch) -> Seq<BindV> {
        Seq::empty()
            + (match p.created_at { Some(v) => seq![BindV::Timestamp(v)], None => Seq::empty() })
            + (match p.email { Some(v) => seq![text_v(v)], None => Seq::empty() })
            + (match p.first_name { Some(v) => seq![opt_text_v(v)], None => Seq::empty() })
            + (match p.last_name { Some(v) => seq![text_v(v)], None => Seq::empty() })
            + (match p.status { Some(v) => seq![text_v(v)], None => Seq::empty() })
    }

    /// A partial update binds one value for each column it assigns, so its
    /// placeholders and its values always match in number.
    pub proof fn law_update_partial_by_id_one_value_per_column(patch: UsersPatch)
        ensures
            Self::update_partial_by_id_columns(patch).len() == Self::update_partial_by_id_values(patch).len(),
    {
    }

    /// A patch that sets every column to the values of `row`, applied to the
    /// row's key, gives the statement that `update_by_id` gives for the row: the
    /// same text and the same values.
    pub proof fn law_full_patch_matches_update_by_id(row: Self, patch: UsersPatch)
        requires
            patch.created_at == Some(row.created_at),
            patch.email == Some(row.email),
            patch.first_name == Some(row.first_name),
            patch.last_name == Some(row.last_name),
            patch.status == Some(row.status),
        ensures
            update_sql("UPDATE `users` SET "@, Self::update_partial_by_id_columns(patch), seq!["`id`"@], Placeholder::Question)
                == update_sql("UPDATE `users` SET "@, seq!["`created_at`"@, "`email`"@, "`first_name`"@, "`last_name`"@, "`status`"@], seq!["`id`"@], Placeholder::Question),
            Self::update_partial_by_id_values(patch) + seq![BindV::BigInt(Some(row.id))] == row.row_then_id_values(),
    {
        assert(Self::update_partial_by_id_columns(patch) =~= seq!["`created_at`"@, "`email`"@, "`first_name`"@, "`last_name`"@, "`status`"@]);
        assert(Self::update_partial_by_id_values(patch) + seq![BindV::BigInt(Some(row.id))] =~= row.row_then_id_values());
    }
}

} // verus!

