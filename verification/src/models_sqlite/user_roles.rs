//! The `user_roles` table (SQLite dialect): rows, orderings, constraints and statements.
use vstd::prelude::*;
use crate::value::{SqlValue, BindV, Statement, UtcTimestamp, text_v};
use crate::order::{order_allowed, order_error, normalized_order, normalize_order};
use crate::sql::{paged_sql, paged_text, Placeholder, values_sql, values_text, values_piece, values_plan, chunks, rows_view};
use crate::paging::{page_limit, page_offset, clamp, offset_of};

verus! {

/// A row of `user_roles`.
#[derive(Clone, Debug)]
pub struct UserRoles {
    pub assigned_at: Option<UtcTimestamp>,
    pub role_name: String,
    pub user_id: i64,
}

impl UserRoles {
    /// The statement that counts the rows.
    pub fn count() -> (st: Statement)
        ensures
            st@.sql == "SELECT COUNT(*) FROM user_roles"@,
            st@.binds == Seq::<BindV>::empty(),
    {
        Statement::new("SELECT COUNT(*) FROM user_roles", Vec::new())
    }

    /// The statement that streams all rows.
    pub fn stream_all() -> (st: Statement)
        ensures
            st@.sql == "SELECT `assigned_at`, `role_name`, `user_id` FROM user_roles ORDER BY `assigned_at` ASC"@,
            st@.binds == Seq::<BindV>::empty(),
    {
        Statement::new("SELECT `assigned_at`, `role_name`, `user_id` FROM user_roles ORDER BY `assigned_at` ASC", Vec::new())
    }

    /// The statement that reads one page of rows ordered by the given
    /// `ORDER BY` text, rewritten term by term as the column and `ASC` or
    /// `DESC`: page `page` (counted from one; zero reads as one) of
    /// `page_size` rows, the size brought into `1..=10000`. A term whose
    /// column is not one of the listed ones is refused with its column.
    pub fn list_paginated(order_by: &str, page: u32, page_size: u32) -> (r: Result<Statement, String>)
        requires
            order_allowed(order_by@, seq!["assigned_at"@, "role_name"@, "user_id"@], true)
                ==> offset_of(page, clamp(page_size as int, 1, 10000) as u32) <= u32::MAX,
        ensures
            r is Ok <==> order_allowed(order_by@, seq!["assigned_at"@, "role_name"@, "user_id"@], true),
            r matches Err(m) ==> order_error(order_by@, seq!["assigned_at"@, "role_name"@, "user_id"@], true, m@),
            r matches Ok(st) ==> st@.sql == paged_sql("SELECT `assigned_at`, `role_name`, `user_id` FROM user_roles ORDER BY "@, normalized_order(order_by@), Placeholder::Question)
                && st@.binds == seq![
                    BindV::BigInt(Some((clamp(page_size as int, 1, 10000) as u32) as i64)),
                    BindV::BigInt(Some(offset_of(page, clamp(page_size as int, 1, 10000) as u32) as i64)),
                ],
    {
        let allowed: Vec<&str> = vec!["assigned_at", "role_name", "user_id"];
        assert(allowed@.map_values(|a: &str| a@) =~= seq!["assigned_at"@, "role_name"@, "user_id"@]);
        let order = match normalize_order(order_by, &allowed) {
            Ok(o) => o,
            Err(m) => {
                return Err(m);
            },
        };
        let size = page_limit(page_size);
        let offset = page_offset(page, size);
        Ok(Statement {
            sql: paged_text("SELECT `assigned_at`, `role_name`, `user_id` FROM user_roles ORDER BY ", order.as_str(), Placeholder::Question),
            binds: vec![SqlValue::BigInt(Some(size as i64)), SqlValue::BigInt(Some(offset as i64))],
        })
    }

    /// The value this row holds in the column named `column`, as the
    /// statements bind it; `None` for a name that is not a column.
    pub open spec fn column_value(self, column: Seq<char>) -> Option<BindV> {
        if column == "assigned_at"@ {
            Some(BindV::Timestamp(self.assigned_at))
        } else if column == "role_name"@ {
            Some(text_v(self.role_name))
        } else if column == "user_id"@ {
            Some(BindV::BigInt(Some(self.user_id)))
        } else {
            None
        }
    }

    /// The text that starts the single-row and multi-row writes, up to their
    /// `VALUES`.
    pub open spec fn insert_head() -> Seq<char> {
        "INSERT INTO user_roles (`assigned_at`, `role_name`, `user_id`) "@
    }

    /// The single-row and multi-row writes name the columns `assigned_at`, `role_name`, `user_id`
    /// in this order, and bind for each of them this row's value of that column.
    pub proof fn law_row_binds_named_columns(self)
        ensures
            Self::insert_head() == "INSERT INTO user_roles ("@ + "`assigned_at`"@ + ", "@ + "`role_name`"@ + ", "@ + "`user_id`"@ + ") "@,
            self.row_values().len() == 3,
            self.column_value("assigned_at"@) == Some(self.row_values()[0]),
            self.column_value("role_name"@) == Some(self.row_values()[1]),
            self.column_value("user_id"@) == Some(self.row_values()[2]),
    {
        reveal_strlit("assigned_at");
        assert("assigned_at"@.len() == 11);
        reveal_strlit("role_name");
        assert("role_name"@.len() == 9);
        reveal_strlit("user_id");
        assert("user_id"@.len() == 7);
        reveal_strlit("INSERT INTO user_roles (`assigned_at`, `role_name`, `user_id`) ");
        reveal_strlit("INSERT INTO user_roles (");
        reveal_strlit("`assigned_at`");
        reveal_strlit(", ");
        reveal_strlit("`role_name`");
        reveal_strlit("`user_id`");
        reveal_strlit(") ");
    }

    /// A batch holds one row of values an item, in the order of the items.
    pub proof fn law_batch_rows_are_the_items_in_order(items: Seq<Self>)
        ensures
            Self::rows_values(items).len() == items.len(),
            forall|i: int| 0 <= i < items.len() ==> #[trigger] Self::rows_values(items)[i] == items[i].row_values(),
    {
    }

    /// The values of this row's columns, in the order the single-row and multi-row writes bind them.
    pub open spec fn row_values(self) -> Seq<BindV> {
        seq![BindV::Timestamp(self.assigned_at), text_v(self.role_name), BindV::BigInt(Some(self.user_id))]
    }

    /// The values of this row's columns, in the order the single-row and multi-row writes bind them.
    pub fn row(&self) -> (r: Vec<SqlValue>)
        ensures
            r@.map_values(|b: SqlValue| b@) == self.row_values(),
    {
        vec![SqlValue::Timestamp(self.assigned_at), SqlValue::text(&self.role_name), SqlValue::BigInt(Some(self.user_id))]
    }

    /// The statement that inserts this row.
    pub fn insert(&self) -> (st: Statement)
        ensures
            st@.sql == values_sql(Self::insert_head(), Placeholder::Question, 1, 3, ""@),
            st@.binds == self.row_values(),
    {
        Statement { sql: values_text("INSERT INTO user_roles (`assigned_at`, `role_name`, `user_id`) ", Placeholder::Question, 1, 3, ""), binds: self.row() }
    }

    /// The values of each row, in statement order.
    pub open spec fn rows_values(items: Seq<Self>) -> Seq<Seq<BindV>> {
        items.map_values(|it: Self| it.row_values())
    }

    /// The values of each row, in statement order.
    pub fn rows(items: &[Self]) -> (r: Vec<Vec<SqlValue>>)
        ensures
            rows_view(r@) == Self::rows_values(items@),
    {
        let mut r: Vec<Vec<SqlValue>> = Vec::new();
        let mut i: usize = 0;
        while i < items.len()
            invariant
                0 <= i <= items.len(),
                rows_view(r@) == Self::rows_values(items@.take(i as int)),
            decreases items.len() - i,
        {
            let row = items[i].row();
            let ghost prev = r@;
            r.push(row);
            proof {
                assert(r@ =~= prev.push(row));
                assert(rows_view(r@) =~= rows_view(prev).push(row@.map_values(|b: SqlValue| b@)));
                assert(items@.take(i + 1) =~= items@.take(i as int).push(items@[i as int]));
                assert(Self::rows_values(items@.take(i + 1))
                    =~= Self::rows_values(items@.take(i as int)).push(items@[i as int].row_values()));
            }
            i = i + 1;
        }
        assert(items@.take(items.len() as int) =~= items@);
        r
    }

    /// The multi-row statements that write the given rows, pieces of at most 10922 rows; no
    /// statement for no rows.
    pub fn insert_batch(items: &[Self]) -> (plan: Vec<Statement>)
        ensures
            plan@.len() == chunks(Self::rows_values(items@), 10922 as nat).len(),
            forall|k: int| 0 <= k < plan@.len() ==> (#[trigger] plan@[k])@ == values_piece(
                Self::insert_head(), ""@, Placeholder::Question, 3, chunks(Self::rows_values(items@), 10922 as nat)[k]),
            forall|k: int| 0 <= k < plan@.len() ==> (#[trigger] plan@[k])@.binds.len() <= 32766,
    {
        let rows = Self::rows(items);
        assert(rows_view(rows@).len() == items@.len());
        assert(rows_view(rows@).len() == rows@.len());
        assert forall|j: int| 0 <= j < rows@.len() implies (#[trigger] rows_view(rows@)[j]).len() == 3 by {
            assert(Self::rows_values(items@)[j] == items@[j].row_values());
            assert(rows_view(rows@)[j] == items@[j].row_values());
        }
        values_plan("INSERT INTO user_roles (`assigned_at`, `role_name`, `user_id`) ", "", Placeholder::Question, 3, 10922, &rows)
    }

    /// The statement that lists the rows with the given values, at most `limit` of them.
    pub fn list_by_user_id(user_id: i64, limit: i64) -> (st: Statement)
        ensures
            st@.sql == "SELECT `assigned_at`, `role_name`, `user_id` FROM user_roles WHERE `user_id` = ? ORDER BY `assigned_at` ASC LIMIT ?"@,
            st@.binds == seq![BindV::BigInt(Some(user_id)), BindV::BigInt(Some(limit))],
    {
        Statement::new("SELECT `assigned_at`, `role_name`, `user_id` FROM user_roles WHERE `user_id` = ? ORDER BY `assigned_at` ASC LIMIT ?", vec![SqlValue::BigInt(Some(user_id)), SqlValue::BigInt(Some(limit))])
    }

    /// The statement that streams the rows with the given values.
    pub fn stream_by_user_id(user_id: i64) -> (st: Statement)
        ensures
            st@.sql == "SELECT `assigned_at`, `role_name`, `user_id` FROM user_roles WHERE `user_id` = ? ORDER BY `assigned_at` ASC"@,
            st@.binds == seq![BindV::BigInt(Some(user_id))],
    {
        Statement::new("SELECT `assigned_at`, `role_name`, `user_id` FROM user_roles WHERE `user_id` = ? ORDER BY `assigned_at` ASC", vec![SqlValue::BigInt(Some(user_id))])
    }

    /// The statement that tells whether a row with the given key exists.
    pub fn exists_by_user_id(user_id: i64) -> (st: Statement)
        ensures
            st@.sql == "SELECT 1 FROM user_roles WHERE `user_id` = ? LIMIT 1"@,
            st@.binds == seq![BindV::BigInt(Some(user_id))],
    {
        Statement::new("SELECT 1 FROM user_roles WHERE `user_id` = ? LIMIT 1", vec![SqlValue::BigInt(Some(user_id))])
    }

    /// The statement that deletes the rows with the given key.
    pub fn delete_by_user_id(user_id: i64) -> (st: Statement)
        ensures
            st@.sql == "DELETE FROM user_roles WHERE `user_id` = ?"@,
            st@.binds == seq![BindV::BigInt(Some(user_id))],
    {
        Statement::new("DELETE FROM user_roles WHERE `user_id` = ?", vec![SqlValue::BigInt(Some(user_id))])
    }

    /// The statement that reads the row with the given key.
    pub fn get_by_user_id_and_role_name(user_id: i64, role_name: &String) -> (st: Statement)
        ensures
            st@.sql == "SELECT `assigned_at`, `role_name`, `user_id` FROM user_roles WHERE `user_id` = ? AND `role_name` = ?"@,
            st@.binds == seq![BindV::BigInt(Some(user_id)), text_v(*role_name)],
    {
        Statement::new("SELECT `assigned_at`, `role_name`, `user_id` FROM user_roles WHERE `user_id` = ? AND `role_name` = ?", vec![SqlValue::BigInt(Some(user_id)), SqlValue::text(role_name)])
    }

    /// The statement that tells whether a row with the given key exists.
    pub fn exists_by_user_id_and_role_name(user_id: i64, role_name: &String) -> (st: Statement)
        ensures
            st@.sql == "SELECT 1 FROM user_roles WHERE `user_id` = ? AND `role_name` = ? LIMIT 1"@,
            st@.binds == seq![BindV::BigInt(Some(user_id)), text_v(*role_name)],
    {
        Statement::new("SELECT 1 FROM user_roles WHERE `user_id` = ? AND `role_name` = ? LIMIT 1", vec![SqlValue::BigInt(Some(user_id)), SqlValue::text(role_name)])
    }

    /// The statement that deletes the rows with the given key.
    pub fn delete_by_user_id_and_role_name(user_id: i64, role_name: &String) -> (st: Statement)
        ensures
            st@.sql == "DELETE FROM user_roles WHERE `user_id` = ? AND `role_name` = ?"@,
            st@.binds == seq![BindV::BigInt(Some(user_id)), text_v(*role_name)],
    {
        Statement::new("DELETE FROM user_roles WHERE `user_id` = ? AND `role_name` = ?", vec![SqlValue::BigInt(Some(user_id)), SqlValue::text(role_name)])
    }
}

} // verus!

