//! The `active_users` table (MySQL dialect): rows, orderings, constraints and statements.
use vstd::prelude::*;
use crate::value::{SqlValue, BindV, Statement};
use crate::sql::{Placeholder, page_sql, page_text};
use crate::validation::{error_if, errors_view, check_min_len, check_max_len, check_min, check_max, outcome, validation_result, when_some, check_max_len_opt, lemma_contains_concat, lemma_error_if_reports, lemma_format_error_reports, regex_match};
use crate::paging::{row_limit, page_limit, page_offset, clamp, offset_of};
use crate::text::utf8_len;

verus! {

/// A row of `active_users`.
#[derive(Clone, Debug)]
pub struct ActiveUsers {
    pub email: String,
    pub first_name: Option<String>,
    pub id: i64,
    pub last_name: String,
}

/// A column and a direction to order listings by.
#[derive(Clone, Copy, Debug, PartialEq, Eq, Structural)]
pub enum ActiveUsersOrderBy {
    EmailAsc,
    EmailDesc,
    FirstNameAsc,
    FirstNameDesc,
    IdAsc,
    IdDesc,
    LastNameAsc,
    LastNameDesc,
}

impl ActiveUsersOrderBy {
    /// The `ORDER BY` term of this ordering.
    pub open spec fn term(self) -> Seq<char> {
        match self {
            ActiveUsersOrderBy::EmailAsc => "`email` ASC"@,
            ActiveUsersOrderBy::EmailDesc => "`email` DESC"@,
            ActiveUsersOrderBy::FirstNameAsc => "`first_name` ASC"@,
            ActiveUsersOrderBy::FirstNameDesc => "`first_name` DESC"@,
            ActiveUsersOrderBy::IdAsc => "`id` ASC"@,
            ActiveUsersOrderBy::IdDesc => "`id` DESC"@,
            ActiveUsersOrderBy::LastNameAsc => "`last_name` ASC"@,
            ActiveUsersOrderBy::LastNameDesc => "`last_name` DESC"@,
        }
    }

    /// An ordering sorts by the column its name says, ascending for an
    /// `...Asc` ordering and descending for a `...Desc` one: its term is that
    /// column, then `ASC` or `DESC`.
    pub proof fn law_term_names_column_and_direction(self)
        ensures
            (self is EmailAsc || self is EmailDesc) ==> self.term() == "`email`"@ + (if self is EmailDesc { " DESC"@ } else { " ASC"@ }),
            (self is FirstNameAsc || self is FirstNameDesc) ==> self.term() == "`first_name`"@ + (if self is FirstNameDesc { " DESC"@ } else { " ASC"@ }),
            (self is IdAsc || self is IdDesc) ==> self.term() == "`id`"@ + (if self is IdDesc { " DESC"@ } else { " ASC"@ }),
            (self is LastNameAsc || self is LastNameDesc) ==> self.term() == "`last_name`"@ + (if self is LastNameDesc { " DESC"@ } else { " ASC"@ }),
    {
        reveal_strlit("`email` ASC");
        reveal_strlit("email");
        reveal_strlit("`email` DESC");
        reveal_strlit("`first_name` ASC");
        reveal_strlit("first_name");
        reveal_strlit("`first_name` DESC");
        reveal_strlit("`id` ASC");
        reveal_strlit("id");
        reveal_strlit("`id` DESC");
        reveal_strlit("`last_name` ASC");
        reveal_strlit("last_name");
        reveal_strlit("`last_name` DESC");
        reveal_strlit("`email`");
        reveal_strlit("`first_name`");
        reveal_strlit("`id`");
        reveal_strlit("`last_name`");
        reveal_strlit(" ASC");
        reveal_strlit(" DESC");
    }

    /// The `ORDER BY` term of this ordering.
    pub fn as_str(&self) -> (s: &'static str)
        ensures
            s@ == self.term(),
    {
        match self {
            ActiveUsersOrderBy::EmailAsc => "`email` ASC",
            ActiveUsersOrderBy::EmailDesc => "`email` DESC",
            ActiveUsersOrderBy::FirstNameAsc => "`first_name` ASC",
            ActiveUsersOrderBy::FirstNameDesc => "`first_name` DESC",
            ActiveUsersOrderBy::IdAsc => "`id` ASC",
            ActiveUsersOrderBy::IdDesc => "`id` DESC",
            ActiveUsersOrderBy::LastNameAsc => "`last_name` ASC",
            ActiveUsersOrderBy::LastNameDesc => "`last_name` DESC",
        }
    }

    /// Different orderings have different terms: a term names one column and
    /// one direction.
    pub proof fn law_terms_are_distinct(a: Self, b: Self)
        ensures
            a.term() == b.term() ==> a == b,
    {
        reveal_strlit("`email` ASC");
        assert("`email` ASC"@.len() == 11 && "`email` ASC"@[1] == 'e');
        reveal_strlit("`email` DESC");
        assert("`email` DESC"@.len() == 12 && "`email` DESC"@[1] == 'e');
        reveal_strlit("`first_name` ASC");
        assert("`first_name` ASC"@.len() == 16 && "`first_name` ASC"@[1] == 'f');
        reveal_strlit("`first_name` DESC");
        assert("`first_name` DESC"@.len() == 17 && "`first_name` DESC"@[1] == 'f');
        reveal_strlit("`id` ASC");
        assert("`id` ASC"@.len() == 8 && "`id` ASC"@[1] == 'i');
        reveal_strlit("`id` DESC");
        assert("`id` DESC"@.len() == 9 && "`id` DESC"@[1] == 'i');
        reveal_strlit("`last_name` ASC");
        assert("`last_name` ASC"@.len() == 15 && "`last_name` ASC"@[1] == 'l');
        reveal_strlit("`last_name` DESC");
        assert("`last_name` DESC"@.len() == 16 && "`last_name` DESC"@[1] == 'l');
    }
}


impl ActiveUsers {
    /// The constraint violations of this row, in the order the checks run.
    pub open spec fn validation_errors(self) -> Seq<Seq<char>> {
        Seq::empty()
            + error_if((utf8_len(self.email@) as usize) < 1, "email: min_length 1 not met"@)
            + error_if((utf8_len(self.email@) as usize) > 255, "email: exceeds max_length 255"@)
            + when_some(self.first_name, |v: String| error_if((utf8_len(v@) as usize) > 100, "first_name: exceeds max_length 100"@))
            + error_if((self.id as int) < 0, "id: minimum value '0' not met"@)
            + error_if((self.id as int) > 9223372036854775807, "id: maximum value '9223372036854775807' exceeded"@)
            + error_if((utf8_len(self.last_name@) as usize) < 1, "last_name: min_length 1 not met"@)
            + error_if((utf8_len(self.last_name@) as usize) > 100, "last_name: exceeds max_length 100"@)
    }

    /// The constraints of `email` are checked: a value that breaks one gets
    /// that constraint's message.
    pub proof fn law_email_constraints_are_reported(self)
        ensures
            ((utf8_len(self.email@) as usize) < 1) ==> self.validation_errors().contains("email: min_length 1 not met"@),
            ((utf8_len(self.email@) as usize) > 255) ==> self.validation_errors().contains("email: exceeds max_length 255"@),
    {
        assert(((utf8_len(self.email@) as usize) < 1) ==> self.validation_errors().contains("email: min_length 1 not met"@)) by {
            broadcast use lemma_contains_concat;
            lemma_error_if_reports((utf8_len(self.email@) as usize) < 1, "email: min_length 1 not met"@);
        }
        assert(((utf8_len(self.email@) as usize) > 255) ==> self.validation_errors().contains("email: exceeds max_length 255"@)) by {
            broadcast use lemma_contains_concat;
            lemma_error_if_reports((utf8_len(self.email@) as usize) > 255, "email: exceeds max_length 255"@);
        }
    }

    /// The constraints of `first_name` are checked: a value that breaks one gets
    /// that constraint's message.
    pub proof fn law_first_name_constraints_are_reported(self)
        ensures
            self.first_name matches Some(v) ==> ((utf8_len(v@) as usize) > 100 ==> self.validation_errors().contains("first_name: exceeds max_length 100"@)),
    {
        assert(self.first_name matches Some(v) ==> ((utf8_len(v@) as usize) > 100 ==> self.validation_errors().contains("first_name: exceeds max_length 100"@))) by {
            broadcast use lemma_contains_concat;
            if let Some(v) = self.first_name {
                lemma_error_if_reports((utf8_len(v@) as usize) > 100, "first_name: exceeds max_length 100"@);
            }
        }
    }

    /// The constraints of `id` are checked: a value that breaks one gets
    /// that constraint's message.
    pub proof fn law_id_constraints_are_reported(self)
        ensures
            ((self.id as int) < 0) ==> self.validation_errors().contains("id: minimum value '0' not met"@),
            ((self.id as int) > 9223372036854775807) ==> self.validation_errors().contains("id: maximum value '9223372036854775807' exceeded"@),
    {
        assert(((self.id as int) < 0) ==> self.validation_errors().contains("id: minimum value '0' not met"@)) by {
            broadcast use lemma_contains_concat;
            lemma_error_if_reports((self.id as int) < 0, "id: minimum value '0' not met"@);
        }
        assert(((self.id as int) > 9223372036854775807) ==> self.validation_errors().contains("id: maximum value '9223372036854775807' exceeded"@)) by {
            broadcast use lemma_contains_concat;
            lemma_error_if_reports((self.id as int) > 9223372036854775807, "id: maximum value '9223372036854775807' exceeded"@);
        }
    }

    /// The constraints of `last_name` are checked: a value that breaks one gets
    /// that constraint's message.
    pub proof fn law_last_name_constraints_are_reported(self)
        ensures
            ((utf8_len(self.last_name@) as usize) < 1) ==> self.validation_errors().contains("last_name: min_length 1 not met"@),
            ((utf8_len(self.last_name@) as usize) > 100) ==> self.validation_errors().contains("last_name: exceeds max_length 100"@),
    {
        assert(((utf8_len(self.last_name@) as usize) < 1) ==> self.validation_errors().contains("last_name: min_length 1 not met"@)) by {
            broadcast use lemma_contains_concat;
            lemma_error_if_reports((utf8_len(self.last_name@) as usize) < 1, "last_name: min_length 1 not met"@);
        }
        assert(((utf8_len(self.last_name@) as usize) > 100) ==> self.validation_errors().contains("last_name: exceeds max_length 100"@)) by {
            broadcast use lemma_contains_concat;
            lemma_error_if_reports((utf8_len(self.last_name@) as usize) > 100, "last_name: exceeds max_length 100"@);
        }
    }

    /// A row that breaks none of the constraints gets no message at all.
    pub proof fn law_row_within_constraints_gets_no_message(self)
        ensures
            ((!((utf8_len(self.email@) as usize) < 1))
                && (!((utf8_len(self.email@) as usize) > 255))
                && (self.first_name matches Some(v) ==> !((utf8_len(v@) as usize) > 100))
                && (!((self.id as int) < 0))
                && (!((self.id as int) > 9223372036854775807))
                && (!((utf8_len(self.last_name@) as usize) < 1))
                && (!((utf8_len(self.last_name@) as usize) > 100)))
                ==> self.validation_errors() == Seq::<Seq<char>>::empty(),
    {
        if (!((utf8_len(self.email@) as usize) < 1))
            && (!((utf8_len(self.email@) as usize) > 255))
            && (self.first_name matches Some(v) ==> !((utf8_len(v@) as usize) > 100))
            && (!((self.id as int) < 0))
            && (!((self.id as int) > 9223372036854775807))
            && (!((utf8_len(self.last_name@) as usize) < 1))
            && (!((utf8_len(self.last_name@) as usize) > 100)) {
            lemma_error_if_reports((utf8_len(self.email@) as usize) < 1, "email: min_length 1 not met"@);
            lemma_error_if_reports((utf8_len(self.email@) as usize) > 255, "email: exceeds max_length 255"@);
            if let Some(v) = self.first_name {
                lemma_error_if_reports((utf8_len(v@) as usize) > 100, "first_name: exceeds max_length 100"@);
            }
            lemma_error_if_reports((self.id as int) < 0, "id: minimum value '0' not met"@);
            lemma_error_if_reports((self.id as int) > 9223372036854775807, "id: maximum value '9223372036854775807' exceeded"@);
            lemma_error_if_reports((utf8_len(self.last_name@) as usize) < 1, "last_name: min_length 1 not met"@);
            lemma_error_if_reports((utf8_len(self.last_name@) as usize) > 100, "last_name: exceeds max_length 100"@);
        }
    }

    fn collect_errors(&self) -> (errors: Vec<String>)
        ensures
            errors_view(errors@) == self.validation_errors(),
    {
        let mut errors: Vec<String> = Vec::new();
        check_min_len(&mut errors, self.email.as_str(), 1, "email: min_length 1 not met");
        check_max_len(&mut errors, self.email.as_str(), 255, "email: exceeds max_length 255");
        check_max_len_opt(&mut errors, &self.first_name, 100, "first_name: exceeds max_length 100");
        check_min(&mut errors, self.id as i128, 0, "id: minimum value '0' not met");
        check_max(&mut errors, self.id as i128, 9223372036854775807, "id: maximum value '9223372036854775807' exceeded");
        check_min_len(&mut errors, self.last_name.as_str(), 1, "last_name: min_length 1 not met");
        check_max_len(&mut errors, self.last_name.as_str(), 100, "last_name: exceeds max_length 100");
        errors
    }

    /// Checks the constraints of the columns (lengths, ranges, allowed values,
    /// finite numbers and formats): `Ok` when all hold, the messages of those
    /// that fail otherwise, in the order the checks run.
    pub fn validate(&self) -> (r: Result<(), Vec<String>>)
        ensures
            validation_result(r, self.validation_errors()),
    {
        outcome(self.collect_errors())
    }

    /// The statement that counts the rows.
    pub fn count() -> (st: Statement)
        ensures
            st@.sql == "SELECT COUNT(*) FROM active_users"@,
            st@.binds == Seq::<BindV>::empty(),
    {
        Statement::new("SELECT COUNT(*) FROM active_users", Vec::new())
    }

    /// The statement that reads the row-count estimate from the database statistics.
    pub fn approximate_count() -> (st: Statement)
        ensures
            st@.sql == "SELECT table_rows FROM information_schema.tables WHERE table_name = 'active_users' AND table_schema = DATABASE()"@,
            st@.binds == Seq::<BindV>::empty(),
    {
        Statement::new("SELECT table_rows FROM information_schema.tables WHERE table_name = 'active_users' AND table_schema = DATABASE()", Vec::new())
    }

    /// The statement that streams the rows in key order, at most `limit` of them (brought into `1..=10000`).
    pub fn stream_all(limit: i64) -> (st: Statement)
        ensures
            st@.sql == "SELECT `email`, `first_name`, `id`, `last_name` FROM active_users ORDER BY `id` ASC LIMIT ?"@,
            st@.binds == seq![BindV::BigInt(Some(clamp(limit as int, 1, 10000) as i64))],
    {
        Statement::new("SELECT `email`, `first_name`, `id`, `last_name` FROM active_users ORDER BY `id` ASC LIMIT ?", vec![SqlValue::BigInt(Some(row_limit(limit)))])
    }

    /// The statement that reads one page of rows in the given order: page
    /// `page` (counted from one; zero reads as one) of `page_size` rows, the
    /// size brought into `1..=10000`. An empty ordering is refused.
    pub fn list_paginated(order_by: &[ActiveUsersOrderBy], page: u32, page_size: u32) -> (r: Result<Statement, String>)
        requires
            order_by@.len() > 0 ==> offset_of(page, clamp(page_size as int, 1, 10000) as u32) <= u32::MAX,
        ensures
            r is Err <==> order_by@.len() == 0,
            r matches Err(m) ==> m@ == "ORDER BY cannot be empty"@,
            r matches Ok(st) ==> st@.sql == page_sql("SELECT `email`, `first_name`, `id`, `last_name` FROM active_users"@, order_by@.map_values(|o: ActiveUsersOrderBy| o.term()), Placeholder::Question)
                && st@.binds == seq![
                    BindV::BigInt(Some(clamp(page_size as int, 1, 10000) as i64)),
                    BindV::BigInt(Some(offset_of(page, clamp(page_size as int, 1, 10000) as u32) as i64)),
                ],
    {
        if order_by.len() == 0 {
            return Err("ORDER BY cannot be empty".to_owned());
        }
        let size = page_limit(page_size);
        let offset = page_offset(page, size);
        let mut terms: Vec<&str> = Vec::new();
        let mut i: usize = 0;
        while i < order_by.len()
            invariant
                0 <= i <= order_by.len(),
                terms@.map_values(|t: &str| t@) == order_by@.take(i as int).map_values(|o: ActiveUsersOrderBy| o.term()),
            decreases order_by.len() - i,
        {
            let ghost prev = terms@;
            terms.push(order_by[i].as_str());
            proof {
                assert(terms@ =~= prev.push(terms@[terms@.len() - 1]));
                assert(terms@.map_values(|t: &str| t@) =~= prev.map_values(|t: &str| t@).push(order_by@[i as int].term()));
                assert(order_by@.take(i + 1) =~= order_by@.take(i as int).push(order_by@[i as int]));
                assert(order_by@.take(i + 1).map_values(|o: ActiveUsersOrderBy| o.term())
                    =~= order_by@.take(i as int).map_values(|o: ActiveUsersOrderBy| o.term()).push(order_by@[i as int].term()));
            }
            i = i + 1;
        }
        assert(order_by@.take(order_by.len() as int) =~= order_by@);
        Ok(Statement {
            sql: page_text("SELECT `email`, `first_name`, `id`, `last_name` FROM active_users", &terms, Placeholder::Question),
            binds: vec![SqlValue::BigInt(Some(size as i64)), SqlValue::BigInt(Some(offset as i64))],
        })
    }
}

} // verus!

