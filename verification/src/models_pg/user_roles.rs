//! The `user_roles` table (PostgreSQL dialect): rows, orderings, constraints and statements.
use vstd::prelude::*;
use crate::value::{SqlValue, BindV, Statement, UtcTimestamp, text_v};
use crate::sql::{Placeholder, values_sql, values_text, page_sql, page_text};
use crate::copy::{CsvField, CsvFieldV, CopyPlan, copy_payloads, payloads, field_rows_view, escaped_v, int_v, opt_utc_v, utc_writable, quoted_plain};
use crate::csv_read::{readable, read_records, field_value, law_copy_payloads_read_back, lemma_int_v_readable};
use crate::validation::{error_if, errors_view, check_min_len, check_max_len, check_min, check_max, outcome, joined_errors, validation_result, lemma_contains_concat, lemma_error_if_reports, lemma_format_error_reports, regex_match};
use crate::paging::{row_limit, page_limit, page_offset, clamp, offset_of};
use crate::text::{utf8_len, join, concat};

verus! {

/// A row of `user_roles`.
#[derive(Clone, Debug)]
pub struct UserRoles {
    pub assigned_at: Option<UtcTimestamp>,
    pub role_name: String,
    pub user_id: i64,
}

/// A column and a direction to order listings by.
#[derive(Clone, Copy, Debug, PartialEq, Eq, Structural)]
pub enum UserRolesOrderBy {
    AssignedAtAsc,
    AssignedAtDesc,
    RoleNameAsc,
    RoleNameDesc,
    UserIdAsc,
    UserIdDesc,
}

impl UserRolesOrderBy {
    /// The `ORDER BY` term of this ordering.
    pub open spec fn term(self) -> Seq<char> {
        match self {
            UserRolesOrderBy::AssignedAtAsc => "\"assigned_at\" ASC"@,
            UserRolesOrderBy::AssignedAtDesc => "\"assigned_at\" DESC"@,
            UserRolesOrderBy::RoleNameAsc => "\"role_name\" ASC"@,
            UserRolesOrderBy::RoleNameDesc => "\"role_name\" DESC"@,
            UserRolesOrderBy::UserIdAsc => "\"user_id\" ASC"@,
            UserRolesOrderBy::UserIdDesc => "\"user_id\" DESC"@,
        }
    }

    /// An ordering sorts by the column its name says, ascending for an
    /// `...Asc` ordering and descending for a `...Desc` one: its term is that
    /// column, then `ASC` or `DESC`.
    pub proof fn law_term_names_column_and_direction(self)
        ensures
            (self is AssignedAtAsc || self is AssignedAtDesc) ==> self.term() == "\"assigned_at\""@ + (if self is AssignedAtDesc { " DESC"@ } else { " ASC"@ }),
            (self is RoleNameAsc || self is RoleNameDesc) ==> self.term() == "\"role_name\""@ + (if self is RoleNameDesc { " DESC"@ } else { " ASC"@ }),
            (self is UserIdAsc || self is UserIdDesc) ==> self.term() == "\"user_id\""@ + (if self is UserIdDesc { " DESC"@ } else { " ASC"@ }),
    {
        reveal_strlit("\"assigned_at\" ASC");
        reveal_strlit("assigned_at");
        reveal_strlit("\"assigned_at\" DESC");
        reveal_strlit("\"role_name\" ASC");
        reveal_strlit("role_name");
        reveal_strlit("\"role_name\" DESC");
        reveal_strlit("\"user_id\" ASC");
        reveal_strlit("user_id");
        reveal_strlit("\"user_id\" DESC");
        reveal_strlit("\"assigned_at\"");
        reveal_strlit("\"role_name\"");
        reveal_strlit("\"user_id\"");
        reveal_strlit(" ASC");
        reveal_strlit(" DESC");
    }

    /// The `ORDER BY` term of this ordering.
    pub fn as_str(&self) -> (s: &'static str)
        ensures
            s@ == self.term(),
    {
        match self {
            UserRolesOrderBy::AssignedAtAsc => "\"assigned_at\" ASC",
            UserRolesOrderBy::AssignedAtDesc => "\"assigned_at\" DESC",
            UserRolesOrderBy::RoleNameAsc => "\"role_name\" ASC",
            UserRolesOrderBy::RoleNameDesc => "\"role_name\" DESC",
            UserRolesOrderBy::UserIdAsc => "\"user_id\" ASC",
            UserRolesOrderBy::UserIdDesc => "\"user_id\" DESC",
        }
    }

    /// Different orderings have different terms: a term names one column and
    /// one direction.
    pub proof fn law_terms_are_distinct(a: Self, b: Self)
        ensures
            a.term() == b.term() ==> a == b,
    {
        reveal_strlit("\"assigned_at\" ASC");
        assert("\"assigned_at\" ASC"@.len() == 17);
        reveal_strlit("\"assigned_at\" DESC");
        assert("\"assigned_at\" DESC"@.len() == 18);
        reveal_strlit("\"role_name\" ASC");
        assert("\"role_name\" ASC"@.len() == 15);
        reveal_strlit("\"role_name\" DESC");
        assert("\"role_name\" DESC"@.len() == 16);
        reveal_strlit("\"user_id\" ASC");
        assert("\"user_id\" ASC"@.len() == 13);
        reveal_strlit("\"user_id\" DESC");
        assert("\"user_id\" DESC"@.len() == 14);
    }
}


impl UserRoles {
    /// The constraint violations of this row, in the order the checks run.
    pub open spec fn validation_errors(self) -> Seq<Seq<char>> {
        Seq::empty()
            + error_if((utf8_len(self.role_name@) as usize) < 1, "role_name: min_length 1 not met"@)
            + error_if((utf8_len(self.role_name@) as usize) > 50, "role_name: exceeds max_length 50"@)
            + error_if((self.user_id as int) < 0, "user_id: minimum value '0' not met"@)
            + error_if((self.user_id as int) > 9223372036854775807, "user_id: maximum value '9223372036854775807' exceeded"@)
    }

    /// The constraints of `role_name` are checked: a value that breaks one gets
    /// that constraint's message.
    pub proof fn law_role_name_constraints_are_reported(self)
        ensures
            ((utf8_len(self.role_name@) as usize) < 1) ==> self.validation_errors().contains("role_name: min_length 1 not met"@),
            ((utf8_len(self.role_name@) as usize) > 50) ==> self.validation_errors().contains("role_name: exceeds max_length 50"@),
    {
        assert(((utf8_len(self.role_name@) as usize) < 1) ==> self.validation_errors().contains("role_name: min_length 1 not met"@)) by {
            broadcast use lemma_contains_concat;
            lemma_error_if_reports((utf8_len(self.role_name@) as usize) < 1, "role_name: min_length 1 not met"@);
        }
        assert(((utf8_len(self.role_name@) as usize) > 50) ==> self.validation_errors().contains("role_name: exceeds max_length 50"@)) by {
            broadcast use lemma_contains_concat;
            lemma_error_if_reports((utf8_len(self.role_name@) as usize) > 50, "role_name: exceeds max_length 50"@);
        }
    }

    /// The constraints of `user_id` are checked: a value that breaks one gets
    /// that constraint's message.
    pub proof fn law_user_id_constraints_are_reported(self)
        ensures
            ((self.user_id as int) < 0) ==> self.validation_errors().contains("user_id: minimum value '0' not met"@),
            ((self.user_id as int) > 9223372036854775807) ==> self.validation_errors().contains("user_id: maximum value '9223372036854775807' exceeded"@),
    {
        assert(((self.user_id as int) < 0) ==> self.validation_errors().contains("user_id: minimum value '0' not met"@)) by {
            broadcast use lemma_contains_concat;
            lemma_error_if_reports((self.user_id as int) < 0, "user_id: minimum value '0' not met"@);
        }
        assert(((self.user_id as int) > 9223372036854775807) ==> self.validation_errors().contains("user_id: maximum value '9223372036854775807' exceeded"@)) by {
            broadcast use lemma_contains_concat;
            lemma_error_if_reports((self.user_id as int) > 9223372036854775807, "user_id: maximum value '9223372036854775807' exceeded"@);
        }
    }

    /// A row that breaks none of the constraints gets no message at all.
    pub proof fn law_row_within_constraints_gets_no_message(self)
        ensures
            ((!((utf8_len(self.role_name@) as usize) < 1))
                && (!((utf8_len(self.role_name@) as usize) > 50))
                && (!((self.user_id as int) < 0))
                && (!((self.user_id as int) > 9223372036854775807)))
                ==> self.validation_errors() == Seq::<Seq<char>>::empty(),
    {
        if (!((utf8_len(self.role_name@) as usize) < 1))
            && (!((utf8_len(self.role_name@) as usize) > 50))
            && (!((self.user_id as int) < 0))
            && (!((self.user_id as int) > 9223372036854775807)) {
            lemma_error_if_reports((utf8_len(self.role_name@) as usize) < 1, "role_name: min_length 1 not met"@);
            lemma_error_if_reports((utf8_len(self.role_name@) as usize) > 50, "role_name: exceeds max_length 50"@);
            lemma_error_if_reports((self.user_id as int) < 0, "user_id: minimum value '0' not met"@);
            lemma_error_if_reports((self.user_id as int) > 9223372036854775807, "user_id: maximum value '9223372036854775807' exceeded"@);
        }
    }

    fn collect_errors(&self) -> (errors: Vec<String>)
        ensures
            errors_view(errors@) == self.validation_errors(),
    {
        let mut errors: Vec<String> = Vec::new();
        check_min_len(&mut errors, self.role_name.as_str(), 1, "role_name: min_length 1 not met");
        check_max_len(&mut errors, self.role_name.as_str(), 50, "role_name: exceeds max_length 50");
        check_min(&mut errors, self.user_id as i128, 0, "user_id: minimum value '0' not met");
        check_max(&mut errors, self.user_id as i128, 9223372036854775807, "user_id: maximum value '9223372036854775807' exceeded");
        errors
    }

    /// Checks the constraints of the columns (lengths, ranges, allowed values,
    /// finite numbers and formats): `Ok` when all hold, the messages of those
    /// that fail otherwise, in the order the checks run.
    pub fn validate(&self) -> (r: Result<(), Vec<String>>)
        ensures
            validation_result(r, self.validation_errors()),
    {
        outcome(self.collect_errors())
    }

    /// The statement that counts the rows.
    pub fn count() -> (st: Statement)
        ensures
            st@.sql == "SELECT COUNT(*) FROM user_roles"@,
            st@.binds == Seq::<BindV>::empty(),
    {
        Statement::new("SELECT COUNT(*) FROM user_roles", Vec::new())
    }

    /// The statement that reads the row-count estimate from the database statistics.
    pub fn approximate_count() -> (st: Statement)
        ensures
            st@.sql == "SELECT reltuples::bigint FROM pg_class WHERE relname = 'user_roles'"@,
            st@.binds == Seq::<BindV>::empty(),
    {
        Statement::new("SELECT reltuples::bigint FROM pg_class WHERE relname = 'user_roles'", Vec::new())
    }

    /// The statement that streams the rows in key order, at most `limit` of them (brought into `1..=10000`).
    pub fn stream_all(limit: i64) -> (st: Statement)
        ensures
            st@.sql == "SELECT \"assigned_at\", \"role_name\", \"user_id\" FROM user_roles ORDER BY \"user_id\" ASC LIMIT $1"@,
            st@.binds == seq![BindV::BigInt(Some(clamp(limit as int, 1, 10000) as i64))],
    {
        Statement::new("SELECT \"assigned_at\", \"role_name\", \"user_id\" FROM user_roles ORDER BY \"user_id\" ASC LIMIT $1", vec![SqlValue::BigInt(Some(row_limit(limit)))])
    }

    /// The statement that reads one page of rows in the given order: page
    /// `page` (counted from one; zero reads as one) of `page_size` rows, the
    /// size brought into `1..=10000`. An empty ordering is refused.
    pub fn list_paginated(order_by: &[UserRolesOrderBy], page: u32, page_size: u32) -> (r: Result<Statement, String>)
        requires
            order_by@.len() > 0 ==> offset_of(page, clamp(page_size as int, 1, 10000) as u32) <= u32::MAX,
        ensures
            r is Err <==> order_by@.len() == 0,
            r matches Err(m) ==> m@ == "ORDER BY cannot be empty"@,
            r matches Ok(st) ==> st@.sql == page_sql("SELECT \"assigned_at\", \"role_name\", \"user_id\" FROM user_roles"@, order_by@.map_values(|o: UserRolesOrderBy| o.term()), Placeholder::Numbered)
                && st@.binds == seq![
                    BindV::BigInt(Some(clamp(page_size as int, 1, 10000) as i64)),
                    BindV::BigInt(Some(offset_of(page, clamp(page_size as int, 1, 10000) as u32) as i64)),
                ],
    {
        if order_by.len() == 0 {
            return Err("ORDER BY cannot be empty".to_owned());
        }
        let size = page_limit(page_size);
        let offset = page_offset(page, size);
        let mut terms: Vec<&str> = Vec::new();
        let mut i: usize = 0;
        while i < order_by.len()
            invariant
                0 <= i <= order_by.len(),
                terms@.map_values(|t: &str| t@) == order_by@.take(i as int).map_values(|o: UserRolesOrderBy| o.term()),
            decreases order_by.len() - i,
        {
            let ghost prev = terms@;
            terms.push(order_by[i].as_str());
            proof {
                assert(terms@ =~= prev.push(terms@[terms@.len() - 1]));
                assert(terms@.map_values(|t: &str| t@) =~= prev.map_values(|t: &str| t@).push(order_by@[i as int].term()));
                assert(order_by@.take(i + 1) =~= order_by@.take(i as int).push(order_by@[i as int]));
                assert(order_by@.take(i + 1).map_values(|o: UserRolesOrderBy| o.term())
                    =~= order_by@.take(i as int).map_values(|o: UserRolesOrderBy| o.term()).push(order_by@[i as int].term()));
            }
            i = i + 1;
        }
        assert(order_by@.take(order_by.len() as int) =~= order_by@);
        Ok(Statement {
            sql: page_text("SELECT \"assigned_at\", \"role_name\", \"user_id\" FROM user_roles", &terms, Placeholder::Numbered),
            binds: vec![SqlValue::BigInt(Some(size as i64)), SqlValue::BigInt(Some(offset as i64))],
        })
    }

    /// The value this row holds in the column named `column`, as the
    /// statements bind it; `None` for a name that is not a column.
    pub open spec fn column_value(self, column: Seq<char>) -> Option<BindV> {
        if column == "assigned_at"@ {
            Some(BindV::Timestamp(self.assigned_at))
        } else if column == "role_name"@ {
            Some(text_v(self.role_name))
        } else if column == "user_id"@ {
            Some(BindV::BigInt(Some(self.user_id)))
        } else {
            None
        }
    }

    /// The text that starts the single-row and multi-row writes, up to their
    /// `VALUES`.
    pub open spec fn insert_head() -> Seq<char> {
        "INSERT INTO user_roles (\"assigned_at\", \"role_name\", \"user_id\") "@
    }

    /// The single-row and multi-row writes name the columns `assigned_at`, `role_name`, `user_id`
    /// in this order, and bind for each of them this row's value of that column.
    pub proof fn law_row_binds_named_columns(self)
        ensures
            Self::insert_head() == "INSERT INTO user_roles ("@ + "\"assigned_at\""@ + ", "@ + "\"role_name\""@ + ", "@ + "\"user_id\""@ + ") "@,
            self.row_values().len() == 3,
            self.column_value("assigned_at"@) == Some(self.row_values()[0]),
            self.column_value("role_name"@) == Some(self.row_values()[1]),
            self.column_value("user_id"@) == Some(self.row_values()[2]),
    {
        reveal_strlit("assigned_at");
        assert("assigned_at"@.len() == 11);
        reveal_strlit("role_name");
        assert("role_name"@.len() == 9);
        reveal_strlit("user_id");
        assert("user_id"@.len() == 7);
        reveal_strlit("INSERT INTO user_roles (\"assigned_at\", \"role_name\", \"user_id\") ");
        reveal_strlit("INSERT INTO user_roles (");
        reveal_strlit("\"assigned_at\"");
        reveal_strlit(", ");
        reveal_strlit("\"role_name\"");
        reveal_strlit("\"user_id\"");
        reveal_strlit(") ");
    }

    /// The values of this row's columns, in the order the single-row and multi-row writes bind them.
    pub open spec fn row_values(self) -> Seq<BindV> {
        seq![BindV::Timestamp(self.assigned_at), text_v(self.role_name), BindV::BigInt(Some(self.user_id))]
    }

    /// The values of this row's columns, in the order the single-row and multi-row writes bind them.
    pub fn row(&self) -> (r: Vec<SqlValue>)
        ensures
            r@.map_values(|b: SqlValue| b@) == self.row_values(),
    {
        vec![SqlValue::Timestamp(self.assigned_at), SqlValue::text(&self.role_name), SqlValue::BigInt(Some(self.user_id))]
    }

    /// The statement that inserts this row, without checking its constraints.
    pub fn insert_unchecked(&self) -> (st: Statement)
        ensures
            st@.sql == values_sql(Self::insert_head(), Placeholder::Numbered, 1, 3, ""@),
            st@.binds == self.row_values(),
    {
        Statement { sql: values_text("INSERT INTO user_roles (\"assigned_at\", \"role_name\", \"user_id\") ", Placeholder::Numbered, 1, 3, ""), binds: self.row() }
    }

    /// The statement of `insert_unchecked` when the row passes [`Self::validate`]; the
    /// validation messages joined by `, ` otherwise.
    pub fn insert(&self) -> (r: Result<Statement, String>)
        ensures
            r is Ok <==> self.validation_errors().len() == 0,
            r matches Err(m) ==> m@ == join(self.validation_errors(), seq![',', ' ']),
            r matches Ok(st) ==> st@.sql == values_sql(Self::insert_head(), Placeholder::Numbered, 1, 3, ""@) && st@.binds == self.row_values(),
    {
        match self.validate() {
            Ok(()) => Ok(self.insert_unchecked()),
            Err(errors) => Err(joined_errors(&errors)),
        }
    }

    /// Whether every instant and date of this row can be written as text:
    /// `chrono` can hold each of them.
    pub open spec fn copy_writable(self) -> bool {
        utc_writable(self.assigned_at)
    }

    /// Whether every instant and date of this row can be written as text.
    pub fn can_copy(&self) -> (r: bool)
        ensures
            r == self.copy_writable(),
    {
        (match self.assigned_at { Some(t) => t.in_range(), None => true })
    }

    /// The `COPY` statement of the batch writes.
    pub open spec fn copy_statement() -> Seq<char> {
        "COPY user_roles (\"assigned_at\", \"role_name\", \"user_id\") FROM STDIN WITH (FORMAT csv)"@
    }

    /// The CSV field this row writes for the column named `column`; `None`
    /// for a name that is not a column.
    pub open spec fn column_field(self, column: Seq<char>) -> Option<CsvFieldV> {
        if column == "assigned_at"@ {
            Some(opt_utc_v(self.assigned_at))
        } else if column == "role_name"@ {
            Some(escaped_v(self.role_name))
        } else if column == "user_id"@ {
            Some(int_v(self.user_id))
        } else {
            None
        }
    }

    /// A `COPY` batch holds one CSV line an item, in the order of the items.
    pub proof fn law_copy_lines_are_the_items_in_order(items: Seq<Self>)
        ensures
            Self::copy_rows_values(items).len() == items.len(),
            forall|i: int| 0 <= i < items.len() ==> #[trigger] Self::copy_rows_values(items)[i] == items[i].copy_values(),
    {
    }

    /// The `COPY` statement names the columns `assigned_at`, `role_name`, `user_id` in this
    /// order, and each CSV line holds this row's field for each of them, in
    /// the same order.
    pub proof fn law_copy_fields_follow_named_columns(self)
        ensures
            Self::copy_statement() == "COPY user_roles ("@ + "\"assigned_at\""@ + ", "@ + "\"role_name\""@ + ", "@ + "\"user_id\""@ + ") FROM STDIN WITH (FORMAT csv)"@,
            self.copy_values().len() == 3,
            self.column_field("assigned_at"@) == Some(self.copy_values()[0]),
            self.column_field("role_name"@) == Some(self.copy_values()[1]),
            self.column_field("user_id"@) == Some(self.copy_values()[2]),
    {
        reveal_strlit("assigned_at");
        assert("assigned_at"@.len() == 11);
        reveal_strlit("role_name");
        assert("role_name"@.len() == 9);
        reveal_strlit("user_id");
        assert("user_id"@.len() == 7);
        reveal_strlit("COPY user_roles (\"assigned_at\", \"role_name\", \"user_id\") FROM STDIN WITH (FORMAT csv)");
        reveal_strlit("COPY user_roles (");
        reveal_strlit("\"assigned_at\"");
        reveal_strlit(", ");
        reveal_strlit("\"role_name\"");
        reveal_strlit("\"user_id\"");
        reveal_strlit(") FROM STDIN WITH (FORMAT csv)");
    }

    /// This row as the fields of one CSV line of the `COPY` payload.
    pub open spec fn copy_values(self) -> Seq<CsvFieldV> {
        seq![opt_utc_v(self.assigned_at), escaped_v(self.role_name), int_v(self.user_id)]
    }

    /// This row as the fields of one CSV line of the `COPY` payload.
    pub fn copy_row(&self) -> (r: Vec<CsvField>)
        requires
            self.copy_writable(),
        ensures
            r@.map_values(|f: CsvField| f@) == self.copy_values(),
            self.copy_quotes_plain(),
    {
        vec![CsvField::opt_utc(self.assigned_at), CsvField::escaped(&self.role_name), CsvField::integer(self.user_id)]
    }

    /// Whether the instants and dates of this row, as written, hold no double
    /// quote.
    pub open spec fn copy_quotes_plain(self) -> bool {
        quoted_plain(opt_utc_v(self.assigned_at))
    }

    /// Whether the texts this row writes unquoted (numbers held as text)
    /// read back: non-empty, with no comma, line end or quote.
    pub open spec fn copy_texts_readable(self) -> bool {
        true
    }

    proof fn lemma_copy_field_readable(self, k: int)
        requires
            self.copy_quotes_plain(),
            self.copy_texts_readable(),
            0 <= k < 3,
        ensures
            readable(self.copy_values()[k]),
    {
        if k == 0 {
        } else if k == 1 {
        } else if k == 2 {
            lemma_int_v_readable(self.user_id);
        }
    }


    /// The CSV fields of each row.
    pub open spec fn copy_rows_values(items: Seq<Self>) -> Seq<Seq<CsvFieldV>> {
        items.map_values(|it: Self| it.copy_values())
    }

    fn copy_rows(items: &[Self]) -> (r: Vec<Vec<CsvField>>)
        requires
            forall|j: int| 0 <= j < items@.len() ==> (#[trigger] items@[j]).copy_writable(),
        ensures
            field_rows_view(r@) == Self::copy_rows_values(items@),
            forall|j: int| 0 <= j < items@.len() ==> (#[trigger] items@[j]).copy_quotes_plain(),
    {
        let mut r: Vec<Vec<CsvField>> = Vec::new();
        let mut i: usize = 0;
        while i < items.len()
            invariant
                0 <= i <= items.len(),
                forall|j: int| 0 <= j < items@.len() ==> (#[trigger] items@[j]).copy_writable(),
                field_rows_view(r@) == Self::copy_rows_values(items@.take(i as int)),
                forall|j: int| 0 <= j < i ==> (#[trigger] items@[j]).copy_quotes_plain(),
            decreases items.len() - i,
        {
            let row = items[i].copy_row();
            let ghost prev = r@;
            r.push(row);
            proof {
                assert(r@ =~= prev.push(row));
                assert(field_rows_view(r@) =~= field_rows_view(prev).push(row@.map_values(|f: CsvField| f@)));
                assert(items@.take(i + 1) =~= items@.take(i as int).push(items@[i as int]));
                assert(Self::copy_rows_values(items@.take(i + 1))
                    =~= Self::copy_rows_values(items@.take(i as int)).push(items@[i as int].copy_values()));
            }
            i = i + 1;
        }
        assert(items@.take(items.len() as int) =~= items@);
        r
    }

    /// The `COPY ... FROM STDIN WITH (FORMAT csv)` statement for the given rows
    /// and the payloads to send: the rows in pieces of 10000; none for no rows.
    pub fn insert_batch(items: &[Self]) -> (plan: Option<CopyPlan>)
        requires
            forall|j: int| 0 <= j < items@.len() ==> (#[trigger] items@[j]).copy_writable(),
        ensures
            plan is None <==> items@.len() == 0,
            plan matches Some(c) ==> c.statement@ == Self::copy_statement()
                && c.payloads@.map_values(|s: String| s@) == payloads(Self::copy_rows_values(items@), 10000, None),
            plan matches Some(c) ==> ((forall|j: int| 0 <= j < items@.len() ==> (#[trigger] items@[j]).copy_texts_readable())
                ==> read_records(concat(c.payloads@.map_values(|s: String| s@))) == Some(Self::copy_rows_values(items@)
                    .map_values(|r: Seq<CsvFieldV>| r.map_values(|f: CsvFieldV| field_value(f))))),
    {
        if items.len() == 0 {
            return None;
        }
        let rows = Self::copy_rows(items);
        proof {
            if forall|j: int| 0 <= j < items@.len() ==> (#[trigger] items@[j]).copy_texts_readable() {
                let vals = Self::copy_rows_values(items@);
                assert forall|i: int| 0 <= i < vals.len() implies (#[trigger] vals[i]).len() > 0 by {
                    assert(vals[i] == items@[i].copy_values());
                }
                assert forall|i: int, k: int| 0 <= i < vals.len() && 0 <= k < vals[i].len() implies readable(#[trigger] vals[i][k]) by {
                    assert(vals[i] == items@[i].copy_values());
                    items@[i].lemma_copy_field_readable(k);
                }
                law_copy_payloads_read_back(vals, 10000, None);
            }
        }
        Some(CopyPlan { statement: "COPY user_roles (\"assigned_at\", \"role_name\", \"user_id\") FROM STDIN WITH (FORMAT csv)".to_owned(), payloads: copy_payloads(&rows, 10000, None) })
    }

    /// The statement that lists the rows with the given values, at most `limit` of them.
    pub fn list_by_user_id(user_id: i64, limit: i64) -> (st: Statement)
        ensures
            st@.sql == "SELECT \"assigned_at\", \"role_name\", \"user_id\" FROM user_roles WHERE \"user_id\" = $1 ORDER BY \"user_id\" ASC LIMIT $2"@,
            st@.binds == seq![BindV::BigInt(Some(user_id)), BindV::BigInt(Some(limit))],
    {
        Statement::new("SELECT \"assigned_at\", \"role_name\", \"user_id\" FROM user_roles WHERE \"user_id\" = $1 ORDER BY \"user_id\" ASC LIMIT $2", vec![SqlValue::BigInt(Some(user_id)), SqlValue::BigInt(Some(limit))])
    }

    /// The statement that streams the rows with the given values, at most `limit` of them.
    pub fn stream_by_user_id(user_id: i64, limit: i64) -> (st: Statement)
        ensures
            st@.sql == "SELECT \"assigned_at\", \"role_name\", \"user_id\" FROM user_roles WHERE \"user_id\" = $1 ORDER BY \"user_id\" ASC LIMIT $2"@,
            st@.binds == seq![BindV::BigInt(Some(user_id)), BindV::BigInt(Some(limit))],
    {
        Statement::new("SELECT \"assigned_at\", \"role_name\", \"user_id\" FROM user_roles WHERE \"user_id\" = $1 ORDER BY \"user_id\" ASC LIMIT $2", vec![SqlValue::BigInt(Some(user_id)), SqlValue::BigInt(Some(limit))])
    }

    /// The statement that tells whether a row with the given key exists.
    pub fn exists_by_user_id(user_id: i64) -> (st: Statement)
        ensures
            st@.sql == "SELECT 1 FROM user_roles WHERE \"user_id\" = $1 LIMIT 1"@,
            st@.binds == seq![BindV::BigInt(Some(user_id))],
    {
        Statement::new("SELECT 1 FROM user_roles WHERE \"user_id\" = $1 LIMIT 1", vec![SqlValue::BigInt(Some(user_id))])
    }

    /// The statement that deletes the rows with the given key.
    pub fn delete_by_user_id(user_id: i64) -> (st: Statement)
        ensures
            st@.sql == "DELETE FROM user_roles WHERE \"user_id\" = $1"@,
            st@.binds == seq![BindV::BigInt(Some(user_id))],
    {
        Statement::new("DELETE FROM user_roles WHERE \"user_id\" = $1", vec![SqlValue::BigInt(Some(user_id))])
    }

    /// The statement that reads the row with the given key.
    pub fn get_by_user_id_and_role_name(user_id: i64, role_name: &String) -> (st: Statement)
        ensures
            st@.sql == "SELECT \"assigned_at\", \"role_name\", \"user_id\" FROM user_roles WHERE \"user_id\" = $1 AND \"role_name\" = $2"@,
            st@.binds == seq![BindV::BigInt(Some(user_id)), text_v(*role_name)],
    {
        Statement::new("SELECT \"assigned_at\", \"role_name\", \"user_id\" FROM user_roles WHERE \"user_id\" = $1 AND \"role_name\" = $2", vec![SqlValue::BigInt(Some(user_id)), SqlValue::text(role_name)])
    }

    /// The statement that tells whether a row with the given key exists.
    pub fn exists_by_user_id_and_role_name(user_id: i64, role_name: &String) -> (st: Statement)
        ensures
            st@.sql == "SELECT 1 FROM user_roles WHERE \"user_id\" = $1 AND \"role_name\" = $2 LIMIT 1"@,
            st@.binds == seq![BindV::BigInt(Some(user_id)), text_v(*role_name)],
    {
        Statement::new("SELECT 1 FROM user_roles WHERE \"user_id\" = $1 AND \"role_name\" = $2 LIMIT 1", vec![SqlValue::BigInt(Some(user_id)), SqlValue::text(role_name)])
    }

    /// The statement that deletes the rows with the given key.
    pub fn delete_by_user_id_and_role_name(user_id: i64, role_name: &String) -> (st: Statement)
        ensures
            st@.sql == "DELETE FROM user_roles WHERE \"user_id\" = $1 AND \"role_name\" = $2"@,
            st@.binds == seq![BindV::BigInt(Some(user_id)), text_v(*role_name)],
    {
        Statement::new("DELETE FROM user_roles WHERE \"user_id\" = $1 AND \"role_name\" = $2", vec![SqlValue::BigInt(Some(user_id)), SqlValue::text(role_name)])
    }
}

} // verus!

