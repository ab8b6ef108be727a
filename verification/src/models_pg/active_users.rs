//! The `active_users` table (PostgreSQL dialect): rows, orderings, constraints and statements.
use vstd::prelude::*;
use crate::value::{SqlValue, BindV, Statement};
use crate::validation::{error_if, errors_view, outcome, validation_result, when_some, check_max_len_opt, check_min_opt_i64, check_max_opt_i64, lemma_contains_concat, lemma_error_if_reports, lemma_format_error_reports, regex_match};
use crate::paging::{row_limit, clamp};
use crate::text::utf8_len;

verus! {

/// A row of `active_users`.
#[derive(Clone, Debug)]
pub struct ActiveUsers {
    pub email: Option<String>,
    pub first_name: Option<String>,
    pub id: Option<i64>,
    pub last_name: Option<String>,
}

/// A column and a direction to order listings by.
#[derive(Clone, Copy, Debug, PartialEq, Eq, Structural)]
pub enum ActiveUsersOrderBy {
    EmailAsc,
    EmailDesc,
    FirstNameAsc,
    FirstNameDesc,
    IdAsc,
    IdDesc,
    LastNameAsc,
    LastNameDesc,
}

impl ActiveUsersOrderBy {
    /// The `ORDER BY` term of this ordering.
    pub open spec fn term(self) -> Seq<char> {
        match self {
            ActiveUsersOrderBy::EmailAsc => "\"email\" ASC"@,
            ActiveUsersOrderBy::EmailDesc => "\"email\" DESC"@,
            ActiveUsersOrderBy::FirstNameAsc => "\"first_name\" ASC"@,
            ActiveUsersOrderBy::FirstNameDesc => "\"first_name\" DESC"@,
            ActiveUsersOrderBy::IdAsc => "\"id\" ASC"@,
            ActiveUsersOrderBy::IdDesc => "\"id\" DESC"@,
            ActiveUsersOrderBy::LastNameAsc => "\"last_name\" ASC"@,
            ActiveUsersOrderBy::LastNameDesc => "\"last_name\" DESC"@,
        }
    }

    /// An ordering sorts by the column its name says, ascending for an
    /// `...Asc` ordering and descending for a `...Desc` one: its term is that
    /// column, then `ASC` or `DESC`.
    pub proof fn law_term_names_column_and_direction(self)
        ensures
            (self is EmailAsc || self is EmailDesc) ==> self.term() == "\"email\""@ + (if self is EmailDesc { " DESC"@ } else { " ASC"@ }),
            (self is FirstNameAsc || self is FirstNameDesc) ==> self.term() == "\"first_name\""@ + (if self is FirstNameDesc { " DESC"@ } else { " ASC"@ }),
            (self is IdAsc || self is IdDesc) ==> self.term() == "\"id\""@ + (if self is IdDesc { " DESC"@ } else { " ASC"@ }),
            (self is LastNameAsc || self is LastNameDesc) ==> self.term() == "\"last_name\""@ + (if self is LastNameDesc { " DESC"@ } else { " ASC"@ }),
    {
        reveal_strlit("\"email\" ASC");
        reveal_strlit("email");
        reveal_strlit("\"email\" DESC");
        reveal_strlit("\"first_name\" ASC");
        reveal_strlit("first_name");
        reveal_strlit("\"first_name\" DESC");
        reveal_strlit("\"id\" ASC");
        reveal_strlit("id");
        reveal_strlit("\"id\" DESC");
        reveal_strlit("\"last_name\" ASC");
        reveal_strlit("last_name");
        reveal_strlit("\"last_name\" DESC");
        reveal_strlit("\"email\"");
        reveal_strlit("\"first_name\"");
        reveal_strlit("\"id\"");
        reveal_strlit("\"last_name\"");
        reveal_strlit(" ASC");
        reveal_strlit(" DESC");
    }

    /// The `ORDER BY` term of this ordering.
    pub fn as_str(&self) -> (s: &'static str)
        ensures
            s@ == self.term(),
    {
        match self {
            ActiveUsersOrderBy::EmailAsc => "\"email\" ASC",
            ActiveUsersOrderBy::EmailDesc => "\"email\" DESC",
            ActiveUsersOrderBy::FirstNameAsc => "\"first_name\" ASC",
            ActiveUsersOrderBy::FirstNameDesc => "\"first_name\" DESC",
            ActiveUsersOrderBy::IdAsc => "\"id\" ASC",
            ActiveUsersOrderBy::IdDesc => "\"id\" DESC",
            ActiveUsersOrderBy::LastNameAsc => "\"last_name\" ASC",
            ActiveUsersOrderBy::LastNameDesc => "\"last_name\" DESC",
        }
    }

    /// Different orderings have different terms: a term names one column and
    /// one direction.
    pub proof fn law_terms_are_distinct(a: Self, b: Self)
        ensures
            a.term() == b.term() ==> a == b,
    {
        reveal_strlit("\"email\" ASC");
        assert("\"email\" ASC"@.len() == 11 && "\"email\" ASC"@[1] == 'e');
        reveal_strlit("\"email\" DESC");
        assert("\"email\" DESC"@.len() == 12 && "\"email\" DESC"@[1] == 'e');
        reveal_strlit("\"first_name\" ASC");
        assert("\"first_name\" ASC"@.len() == 16 && "\"first_name\" ASC"@[1] == 'f');
        reveal_strlit("\"first_name\" DESC");
        assert("\"first_name\" DESC"@.len() == 17 && "\"first_name\" DESC"@[1] == 'f');
        reveal_strlit("\"id\" ASC");
        assert("\"id\" ASC"@.len() == 8 && "\"id\" ASC"@[1] == 'i');
        reveal_strlit("\"id\" DESC");
        assert("\"id\" DESC"@.len() == 9 && "\"id\" DESC"@[1] == 'i');
        reveal_strlit("\"last_name\" ASC");
        assert("\"last_name\" ASC"@.len() == 15 && "\"last_name\" ASC"@[1] == 'l');
        reveal_strlit("\"last_name\" DESC");
        assert("\"last_name\" DESC"@.len() == 16 && "\"last_name\" DESC"@[1] == 'l');
    }
}


impl ActiveUsers {
    /// The constraint violations of this row, in the order the checks run.
    pub open spec fn validation_errors(self) -> Seq<Seq<char>> {
        Seq::empty()
            + when_some(self.email, |v: String| error_if((utf8_len(v@) as usize) > 255, "email: exceeds max_length 255"@))
            + when_some(self.first_name, |v: String| error_if((utf8_len(v@) as usize) > 100, "first_name: exceeds max_length 100"@))
            + when_some(self.id, |v: i64| error_if((v as int) < 0, "id: minimum value '0' not met"@))
            + when_some(self.id, |v: i64| error_if((v as int) > 9223372036854775807, "id: maximum value '9223372036854775807' exceeded"@))
            + when_some(self.last_name, |v: String| error_if((utf8_len(v@) as usize) > 100, "last_name: exceeds max_length 100"@))
    }

    /// The constraints of `email` are checked: a value that breaks one gets
    /// that constraint's message.
    pub proof fn law_email_constraints_are_reported(self)
        ensures
            self.email matches Some(v) ==> ((utf8_len(v@) as usize) > 255 ==> self.validation_errors().contains("email: exceeds max_length 255"@)),
    {
        assert(self.email matches Some(v) ==> ((utf8_len(v@) as usize) > 255 ==> self.validation_errors().contains("email: exceeds max_length 255"@))) by {
            broadcast use lemma_contains_concat;
            if let Some(v) = self.email {
                lemma_error_if_reports((utf8_len(v@) as usize) > 255, "email: exceeds max_length 255"@);
            }
        }
    }

    /// The constraints of `first_name` are checked: a value that breaks one gets
    /// that constraint's message.
    pub proof fn law_first_name_constraints_are_reported(self)
        ensures
            self.first_name matches Some(v) ==> ((utf8_len(v@) as usize) > 100 ==> self.validation_errors().contains("first_name: exceeds max_length 100"@)),
    {
        assert(self.first_name matches Some(v) ==> ((utf8_len(v@) as usize) > 100 ==> self.validation_errors().contains("first_name: exceeds max_length 100"@))) by {
            broadcast use lemma_contains_concat;
            if let Some(v) = self.first_name {
                lemma_error_if_reports((utf8_len(v@) as usize) > 100, "first_name: exceeds max_length 100"@);
            }
        }
    }

    /// The constraints of `id` are checked: a value that breaks one gets
    /// that constraint's message.
    pub proof fn law_id_constraints_are_reported(self)
        ensures
            self.id matches Some(v) ==> ((v as int) < 0 ==> self.validation_errors().contains("id: minimum value '0' not met"@)),
            self.id matches Some(v) ==> ((v as int) > 9223372036854775807 ==> self.validation_errors().contains("id: maximum value '9223372036854775807' exceeded"@)),
    {
        assert(self.id matches Some(v) ==> ((v as int) < 0 ==> self.validation_errors().contains("id: minimum value '0' not met"@))) by {
            broadcast use lemma_contains_concat;
            if let Some(v) = self.id {
                lemma_error_if_reports((v as int) < 0, "id: minimum value '0' not met"@);
            }
        }
        assert(self.id matches Some(v) ==> ((v as int) > 9223372036854775807 ==> self.validation_errors().contains("id: maximum value '9223372036854775807' exceeded"@))) by {
            broadcast use lemma_contains_concat;
            if let Some(v) = self.id {
                lemma_error_if_reports((v as int) > 9223372036854775807, "id: maximum value '9223372036854775807' exceeded"@);
            }
        }
    }

    /// The constraints of `last_name` are checked: a value that breaks one gets
    /// that constraint's message.
    pub proof fn law_last_name_constraints_are_reported(self)
        ensures
            self.last_name matches Some(v) ==> ((utf8_len(v@) as usize) > 100 ==> self.validation_errors().contains("last_name: exceeds max_length 100"@)),
    {
        assert(self.last_name matches Some(v) ==> ((utf8_len(v@) as usize) > 100 ==> self.validation_errors().contains("last_name: exceeds max_length 100"@))) by {
            broadcast use lemma_contains_concat;
            if let Some(v) = self.last_name {
                lemma_error_if_reports((utf8_len(v@) as usize) > 100, "last_name: exceeds max_length 100"@);
            }
        }
    }

    /// A row that breaks none of the constraints gets no message at all.
    pub proof fn law_row_within_constraints_gets_no_message(self)
        ensures
            ((self.email matches Some(v) ==> !((utf8_len(v@) as usize) > 255))
                && (self.first_name matches Some(v) ==> !((utf8_len(v@) as usize) > 100))
                && (self.id matches Some(v) ==> !((v as int) < 0))
                && (self.id matches Some(v) ==> !((v as int) > 9223372036854775807))
                && (self.last_name matches Some(v) ==> !((utf8_len(v@) as usize) > 100)))
                ==> self.validation_errors() == Seq::<Seq<char>>::empty(),
    {
        if (self.email matches Some(v) ==> !((utf8_len(v@) as usize) > 255))
            && (self.first_name matches Some(v) ==> !((utf8_len(v@) as usize) > 100))
            && (self.id matches Some(v) ==> !((v as int) < 0))
            && (self.id matches Some(v) ==> !((v as int) > 9223372036854775807))
            && (self.last_name matches Some(v) ==> !((utf8_len(v@) as usize) > 100)) {
            if let Some(v) = self.email {
                lemma_error_if_reports((utf8_len(v@) as usize) > 255, "email: exceeds max_length 255"@);
            }
            if let Some(v) = self.first_name {
                lemma_error_if_reports((utf8_len(v@) as usize) > 100, "first_name: exceeds max_length 100"@);
            }
            if let Some(v) = self.id {
                lemma_error_if_reports((v as int) < 0, "id: minimum value '0' not met"@);
            }
            if let Some(v) = self.id {
                lemma_error_if_reports((v as int) > 9223372036854775807, "id: maximum value '9223372036854775807' exceeded"@);
            }
            if let Some(v) = self.last_name {
                lemma_error_if_reports((utf8_len(v@) as usize) > 100, "last_name: exceeds max_length 100"@);
            }
        }
    }

    fn collect_errors(&self) -> (errors: Vec<String>)
        ensures
            errors_view(errors@) == self.validation_errors(),
    {
        let mut errors: Vec<String> = Vec::new();
        check_max_len_opt(&mut errors, &self.email, 255, "email: exceeds max_length 255");
        check_max_len_opt(&mut errors, &self.first_name, 100, "first_name: exceeds max_length 100");
        check_min_opt_i64(&mut errors, self.id, 0, "id: minimum value '0' not met");
        check_max_opt_i64(&mut errors, self.id, 9223372036854775807, "id: maximum value '9223372036854775807' exceeded");
        check_max_len_opt(&mut errors, &self.last_name, 100, "last_name: exceeds max_length 100");
        errors
    }

    /// Checks the constraints of the columns (lengths, ranges, allowed values,
    /// finite numbers and formats): `Ok` when all hold, the messages of those
    /// that fail otherwise, in the order the checks run.
    pub fn validate(&self) -> (r: Result<(), Vec<String>>)
        ensures
            validation_result(r, self.validation_errors()),
    {
        outcome(self.collect_errors())
    }

    /// The statement that counts the rows.
    pub fn count() -> (st: Statement)
        ensures
            st@.sql == "SELECT COUNT(*) FROM \"active_users\""@,
            st@.binds == Seq::<BindV>::empty(),
    {
        Statement::new("SELECT COUNT(*) FROM \"active_users\"", Vec::new())
    }

    /// The statement that reads the row-count estimate from the database statistics.
    pub fn approximate_count() -> (st: Statement)
        ensures
            st@.sql == "SELECT reltuples::bigint FROM pg_class WHERE relname = 'active_users'"@,
            st@.binds == Seq::<BindV>::empty(),
    {
        Statement::new("SELECT reltuples::bigint FROM pg_class WHERE relname = 'active_users'", Vec::new())
    }

    /// The statement that streams the rows in key order, at most `limit` of them (brought into `1..=10000`).
    pub fn stream_all(limit: i64) -> (st: Statement)
        ensures
            st@.sql == "SELECT \"email\", \"first_name\", \"id\", \"last_name\" FROM \"active_users\" ORDER BY \"id\" ASC LIMIT $1"@,
            st@.binds == seq![BindV::BigInt(Some(clamp(limit as int, 1, 10000) as i64))],
    {
        Statement::new("SELECT \"email\", \"first_name\", \"id\", \"last_name\" FROM \"active_users\" ORDER BY \"id\" ASC LIMIT $1", vec![SqlValue::BigInt(Some(row_limit(limit)))])
    }
}

} // verus!

