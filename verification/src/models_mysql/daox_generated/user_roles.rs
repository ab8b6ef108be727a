//! The `user_roles` table (MySQL dialect, compact layout): rows, orderings, constraints and statements.
use vstd::prelude::*;
use crate::value::{SqlValue, BindV, Statement, StatementV, UtcTimestamp, text_v};
use crate::order::{safe_order_text, order_text_is_safe};
use crate::sql::{push_assignment, assigned_column, paged_sql, paged_text, Placeholder, values_sql, values_text, values_piece, values_plan, update_sql, update_text, chunks, flatten, lemma_chunks, rows_view, values_assignment};
use crate::paging::{page_offset, offset_of};

verus! {

/// A row of `user_roles`.
#[derive(Clone, Debug)]
pub struct UserRoles {
    pub assigned_at: Option<UtcTimestamp>,
    pub role_name: String,
    pub user_id: i64,
}

/// The columns of `user_roles` to change: `None` leaves a column as it is, `Some(v)` writes `v`.
#[derive(Clone, Debug)]
pub struct UserRolesPatch {
    pub assigned_at: Option<Option<UtcTimestamp>>,
}

impl Default for UserRolesPatch {
    /// A patch that changes nothing.
    fn default() -> (p: Self)
        ensures
            p.assigned_at is None,
    {
        UserRolesPatch { assigned_at: None }
    }
}

impl UserRoles {
    /// The statement that counts the rows.
    pub fn count() -> (st: Statement)
        ensures
            st@.sql == "SELECT COUNT(*) FROM user_roles"@,
            st@.binds == Seq::<BindV>::empty(),
    {
        Statement::new("SELECT COUNT(*) FROM user_roles", Vec::new())
    }

    /// The statement that streams all rows.
    pub fn stream_all() -> (st: Statement)
        ensures
            st@.sql == "SELECT `assigned_at`, `role_name`, `user_id` FROM user_roles"@,
            st@.binds == Seq::<BindV>::empty(),
    {
        Statement::new("SELECT `assigned_at`, `role_name`, `user_id` FROM user_roles", Vec::new())
    }

    /// The statement that reads one page of rows ordered by the given
    /// `ORDER BY` text, passed on unchanged once every character of it is an
    /// ASCII letter or digit, `_`, a space, a comma, a backquote or a double
    /// quote: page `page` (counted from one; zero reads as one) of `page_size`
    /// rows.
    pub fn list_paginated(order_by: &str, page: u32, page_size: u32) -> (r: Result<Statement, String>)
        requires
            safe_order_text(order_by@)
                ==> offset_of(page, page_size) <= u32::MAX,
        ensures
            r is Ok <==> safe_order_text(order_by@),
            r matches Err(m) ==> m@ == "Invalid characters in ORDER BY. Potential SQL injection."@,
            r matches Ok(st) ==> st@.sql == paged_sql("SELECT `assigned_at`, `role_name`, `user_id` FROM user_roles ORDER BY "@, order_by@, Placeholder::Question)
                && st@.binds == seq![
                    BindV::BigInt(Some((page_size) as i64)),
                    BindV::BigInt(Some(offset_of(page, page_size) as i64)),
                ],
    {
        if !order_text_is_safe(order_by) {
            return Err("Invalid characters in ORDER BY. Potential SQL injection.".to_owned());
        }
        let size = page_size;
        let offset = page_offset(page, size);
        Ok(Statement {
            sql: paged_text("SELECT `assigned_at`, `role_name`, `user_id` FROM user_roles ORDER BY ", order_by, Placeholder::Question),
            binds: vec![SqlValue::BigInt(Some(size as i64)), SqlValue::BigInt(Some(offset as i64))],
        })
    }

    /// The statement that reads the row with the given key.
    pub fn get_by_role_name_and_user_id(role_name: &String, user_id: i64) -> (st: Statement)
        ensures
            st@.sql == "SELECT `assigned_at`, `role_name`, `user_id` FROM user_roles WHERE `role_name` = ? AND `user_id` = ?"@,
            st@.binds == seq![text_v(*role_name), BindV::BigInt(Some(user_id))],
    {
        Statement::new("SELECT `assigned_at`, `role_name`, `user_id` FROM user_roles WHERE `role_name` = ? AND `user_id` = ?", vec![SqlValue::text(role_name), SqlValue::BigInt(Some(user_id))])
    }

    /// The statement that tells whether a row with the given key exists.
    pub fn exists_by_role_name_and_user_id(role_name: &String, user_id: i64) -> (st: Statement)
        ensures
            st@.sql == "SELECT 1 FROM user_roles WHERE `role_name` = ? AND `user_id` = ? LIMIT 1"@,
            st@.binds == seq![text_v(*role_name), BindV::BigInt(Some(user_id))],
    {
        Statement::new("SELECT 1 FROM user_roles WHERE `role_name` = ? AND `user_id` = ? LIMIT 1", vec![SqlValue::text(role_name), SqlValue::BigInt(Some(user_id))])
    }

    /// The value this row holds in the column named `column`, as the
    /// statements bind it; `None` for a name that is not a column.
    pub open spec fn column_value(self, column: Seq<char>) -> Option<BindV> {
        if column == "assigned_at"@ {
            Some(BindV::Timestamp(self.assigned_at))
        } else if column == "role_name"@ {
            Some(text_v(self.role_name))
        } else if column == "user_id"@ {
            Some(BindV::BigInt(Some(self.user_id)))
        } else {
            None
        }
    }

    /// The text that starts the single-row and multi-row writes, up to their
    /// `VALUES`.
    pub open spec fn insert_head() -> Seq<char> {
        "INSERT INTO user_roles (`assigned_at`, `role_name`, `user_id`) "@
    }

    /// The single-row and multi-row writes name the columns `assigned_at`, `role_name`, `user_id`
    /// in this order, and bind for each of them this row's value of that column.
    pub proof fn law_row_binds_named_columns(self)
        ensures
            Self::insert_head() == "INSERT INTO user_roles ("@ + "`assigned_at`"@ + ", "@ + "`role_name`"@ + ", "@ + "`user_id`"@ + ") "@,
            self.row_values().len() == 3,
            self.column_value("assigned_at"@) == Some(self.row_values()[0]),
            self.column_value("role_name"@) == Some(self.row_values()[1]),
            self.column_value("user_id"@) == Some(self.row_values()[2]),
    {
        reveal_strlit("assigned_at");
        assert("assigned_at"@.len() == 11);
        reveal_strlit("role_name");
        assert("role_name"@.len() == 9);
        reveal_strlit("user_id");
        assert("user_id"@.len() == 7);
        reveal_strlit("INSERT INTO user_roles (`assigned_at`, `role_name`, `user_id`) ");
        reveal_strlit("INSERT INTO user_roles (");
        reveal_strlit("`assigned_at`");
        reveal_strlit(", ");
        reveal_strlit("`role_name`");
        reveal_strlit("`user_id`");
        reveal_strlit(") ");
    }

    /// A batch holds one row of values an item, in the order of the items.
    pub proof fn law_batch_rows_are_the_items_in_order(items: Seq<Self>)
        ensures
            Self::rows_values(items).len() == items.len(),
            forall|i: int| 0 <= i < items.len() ==> #[trigger] Self::rows_values(items)[i] == items[i].row_values(),
    {
    }

    /// What the upsert does on a key conflict, after its `VALUES`.
    pub open spec fn upsert_tail() -> Seq<char> {
        " ON DUPLICATE KEY UPDATE `assigned_at` = VALUES(`assigned_at`)"@
    }

    /// On a key conflict the upsert sets each of `assigned_at` to the
    /// value the new row brings for that same column.
    pub proof fn law_upsert_sets_each_column_from_the_new_row()
        ensures
            Self::upsert_tail() == " ON DUPLICATE KEY UPDATE "@ + values_assignment("`assigned_at`"@),
    {
        reveal_strlit(" ON DUPLICATE KEY UPDATE `assigned_at` = VALUES(`assigned_at`)");
        reveal_strlit(" ON DUPLICATE KEY UPDATE ");
        reveal_strlit(", ");
        reveal_strlit(" = VALUES(");
        reveal_strlit("`assigned_at`");
        reveal_strlit(")");
    }

    /// The values of this row's columns, in the order the single-row and multi-row writes bind them.
    pub open spec fn row_values(self) -> Seq<BindV> {
        seq![BindV::Timestamp(self.assigned_at), text_v(self.role_name), BindV::BigInt(Some(self.user_id))]
    }

    /// The values of this row's columns, in the order the single-row and multi-row writes bind them.
    pub fn row(&self) -> (r: Vec<SqlValue>)
        ensures
            r@.map_values(|b: SqlValue| b@) == self.row_values(),
    {
        vec![SqlValue::Timestamp(self.assigned_at), SqlValue::text(&self.role_name), SqlValue::BigInt(Some(self.user_id))]
    }

    /// The statement that inserts this row.
    pub fn insert(&self) -> (st: Statement)
        ensures
            st@.sql == values_sql(Self::insert_head(), Placeholder::Question, 1, 3, ""@),
            st@.binds == self.row_values(),
    {
        Statement { sql: values_text("INSERT INTO user_roles (`assigned_at`, `role_name`, `user_id`) ", Placeholder::Question, 1, 3, ""), binds: self.row() }
    }

    /// The values of each row, in statement order.
    pub open spec fn rows_values(items: Seq<Self>) -> Seq<Seq<BindV>> {
        items.map_values(|it: Self| it.row_values())
    }

    /// The values of each row, in statement order.
    pub fn rows(items: &[Self]) -> (r: Vec<Vec<SqlValue>>)
        ensures
            rows_view(r@) == Self::rows_values(items@),
    {
        let mut r: Vec<Vec<SqlValue>> = Vec::new();
        let mut i: usize = 0;
        while i < items.len()
            invariant
                0 <= i <= items.len(),
                rows_view(r@) == Self::rows_values(items@.take(i as int)),
            decreases items.len() - i,
        {
            let row = items[i].row();
            let ghost prev = r@;
            r.push(row);
            proof {
                assert(r@ =~= prev.push(row));
                assert(rows_view(r@) =~= rows_view(prev).push(row@.map_values(|b: SqlValue| b@)));
                assert(items@.take(i + 1) =~= items@.take(i as int).push(items@[i as int]));
                assert(Self::rows_values(items@.take(i + 1))
                    =~= Self::rows_values(items@.take(i as int)).push(items@[i as int].row_values()));
            }
            i = i + 1;
        }
        assert(items@.take(items.len() as int) =~= items@);
        r
    }

    /// The multi-row statements that write the given rows, all rows in one statement; no
    /// statement for no rows.
    pub fn insert_batch(items: &[Self]) -> (plan: Vec<Statement>)
        requires
            items@.len() * 3 < u64::MAX,
        ensures
            plan@.len() == chunks(Self::rows_values(items@), items@.len() as nat).len(),
            forall|k: int| 0 <= k < plan@.len() ==> (#[trigger] plan@[k])@ == values_piece(
                Self::insert_head(), ""@, Placeholder::Question, 3, chunks(Self::rows_values(items@), items@.len() as nat)[k]),
            items@.len() == 0 ==> plan@.len() == 0,
            items@.len() > 0 ==> plan@.len() == 1 && plan@[0]@ == (StatementV {
                sql: values_sql(Self::insert_head(), Placeholder::Question, items@.len() as nat, 3, ""@),
                binds: flatten(Self::rows_values(items@)),
            }),
    {
        if items.len() == 0 {
            return Vec::new();
        }
        let rows = Self::rows(items);
        assert(rows_view(rows@).len() == items@.len());
        assert(rows_view(rows@).len() == rows@.len());
        assert forall|j: int| 0 <= j < rows@.len() implies (#[trigger] rows_view(rows@)[j]).len() == 3 by {
            assert(Self::rows_values(items@)[j] == items@[j].row_values());
            assert(rows_view(rows@)[j] == items@[j].row_values());
        }
        proof {
            lemma_chunks(Self::rows_values(items@), items@.len() as nat);
        }
        values_plan("INSERT INTO user_roles (`assigned_at`, `role_name`, `user_id`) ", "", Placeholder::Question, 3, items.len(), &rows)
    }

    /// The statement that inserts this row or, on a key conflict, updates it.
    pub fn upsert(&self) -> (st: Statement)
        ensures
            st@.sql == values_sql(Self::insert_head(), Placeholder::Question, 1, 3, Self::upsert_tail()),
            st@.binds == self.row_values(),
    {
        Statement { sql: values_text("INSERT INTO user_roles (`assigned_at`, `role_name`, `user_id`) ", Placeholder::Question, 1, 3, " ON DUPLICATE KEY UPDATE `assigned_at` = VALUES(`assigned_at`)"), binds: self.row() }
    }

    /// The statement that writes every column of this row, selected by its key.
    pub fn update_by_role_name_and_user_id(&self) -> (st: Statement)
        ensures
            st@.sql == update_sql("UPDATE user_roles SET "@, seq!["`assigned_at`"@], seq!["`role_name`"@, "`user_id`"@], Placeholder::Question),
            st@.binds == self.row_values(),
    {
        let set: Vec<&str> = vec!["`assigned_at`"];
        let keys: Vec<&str> = vec!["`role_name`", "`user_id`"];
        proof {
            assert(set@.map_values(|n: &str| n@) =~= seq!["`assigned_at`"@]);
            assert(keys@.map_values(|n: &str| n@) =~= seq!["`role_name`"@, "`user_id`"@]);
        }
        Statement { sql: update_text("UPDATE user_roles SET ", &set, &keys, Placeholder::Question), binds: self.row() }
    }

    /// The statement that deletes the rows with the given key.
    pub fn delete_by_role_name_and_user_id(role_name: &String, user_id: i64) -> (st: Statement)
        ensures
            st@.sql == "DELETE FROM user_roles WHERE `role_name` = ? AND `user_id` = ?"@,
            st@.binds == seq![text_v(*role_name), BindV::BigInt(Some(user_id))],
    {
        Statement::new("DELETE FROM user_roles WHERE `role_name` = ? AND `user_id` = ?", vec![SqlValue::text(role_name), SqlValue::BigInt(Some(user_id))])
    }

    /// The columns the patch sets and their values, in column order.
    fn update_partial_by_role_name_and_user_id_assignments(patch: &UserRolesPatch) -> (r: (Vec<&'static str>, Vec<SqlValue>))
        ensures
            r.0@.map_values(|n: &str| n@) == Self::update_partial_by_role_name_and_user_id_columns(*patch),
            r.1@.map_values(|b: SqlValue| b@) == Self::update_partial_by_role_name_and_user_id_values(*patch),
            r.0@.len() <= 1,
    {
        let mut set: Vec<&'static str> = Vec::new();
        let mut binds: Vec<SqlValue> = Vec::new();
        assert(set@.map_values(|n: &str| n@) =~= Seq::<Seq<char>>::empty());
        assert(binds@.map_values(|b: SqlValue| b@) =~= Seq::<BindV>::empty());
        let value = match &patch.assigned_at {
            Some(v) => Some(SqlValue::Timestamp(*v)),
            None => None,
        };
        push_assignment(&mut set, &mut binds, "`assigned_at`", value);
        (set, binds)
    }

    /// The statement that writes only the columns the patch sets, on the row
    /// with the given key; none when the patch sets no column.
    pub fn update_partial_by_role_name_and_user_id(role_name: &String, user_id: i64, patch: &UserRolesPatch) -> (r: Option<Statement>)
        ensures
            r is None <==> Self::update_partial_by_role_name_and_user_id_columns(*patch).len() == 0,
            r matches Some(st) ==> st@.sql == update_sql("UPDATE user_roles SET "@, Self::update_partial_by_role_name_and_user_id_columns(*patch), seq!["`role_name`"@, "`user_id`"@], Placeholder::Question)
                && st@.binds == Self::update_partial_by_role_name_and_user_id_values(*patch) + seq![text_v(*role_name), BindV::BigInt(Some(user_id))],
    {
        let (set, mut binds) = Self::update_partial_by_role_name_and_user_id_assignments(patch);
        if set.len() == 0 {
            return None;
        }
        let ghost vals = binds@.map_values(|b: SqlValue| b@);
        binds.push(SqlValue::text(role_name));
        binds.push(SqlValue::BigInt(Some(user_id)));
        let keys: Vec<&str> = vec!["`role_name`", "`user_id`"];
        proof {
            assert(keys@.map_values(|n: &str| n@) =~= seq!["`role_name`"@, "`user_id`"@]);
            assert(binds@.map_values(|b: SqlValue| b@) =~= vals + seq![text_v(*role_name), BindV::BigInt(Some(user_id))]);
        }
        Some(Statement { sql: update_text("UPDATE user_roles SET ", &set, &keys, Placeholder::Question), binds })
    }

    /// The statement that lists the rows with the given values.
    pub fn list_by_user_id(user_id: i64) -> (st: Statement)
        ensures
            st@.sql == "SELECT `assigned_at`, `role_name`, `user_id` FROM user_roles WHERE `user_id` = ?"@,
            st@.binds == seq![BindV::BigInt(Some(user_id))],
    {
        Statement::new("SELECT `assigned_at`, `role_name`, `user_id` FROM user_roles WHERE `user_id` = ?", vec![SqlValue::BigInt(Some(user_id))])
    }

    /// The statement that streams the rows with the given values.
    pub fn stream_by_user_id(user_id: i64) -> (st: Statement)
        ensures
            st@.sql == "SELECT `assigned_at`, `role_name`, `user_id` FROM user_roles WHERE `user_id` = ?"@,
            st@.binds == seq![BindV::BigInt(Some(user_id))],
    {
        Statement::new("SELECT `assigned_at`, `role_name`, `user_id` FROM user_roles WHERE `user_id` = ?", vec![SqlValue::BigInt(Some(user_id))])
    }

    /// The statement that tells whether a row with the given key exists.
    pub fn exists_by_user_id(user_id: i64) -> (st: Statement)
        ensures
            st@.sql == "SELECT 1 FROM user_roles WHERE `user_id` = ? LIMIT 1"@,
            st@.binds == seq![BindV::BigInt(Some(user_id))],
    {
        Statement::new("SELECT 1 FROM user_roles WHERE `user_id` = ? LIMIT 1", vec![SqlValue::BigInt(Some(user_id))])
    }

    /// The statement that deletes the rows with the given key.
    pub fn delete_by_user_id(user_id: i64) -> (st: Statement)
        ensures
            st@.sql == "DELETE FROM user_roles WHERE `user_id` = ?"@,
            st@.binds == seq![BindV::BigInt(Some(user_id))],
    {
        Statement::new("DELETE FROM user_roles WHERE `user_id` = ?", vec![SqlValue::BigInt(Some(user_id))])
    }

    /// The statement that reads the row with the given key.
    pub fn get_by_user_id_and_role_name(user_id: i64, role_name: &String) -> (st: Statement)
        ensures
            st@.sql == "SELECT `assigned_at`, `role_name`, `user_id` FROM user_roles WHERE `user_id` = ? AND `role_name` = ?"@,
            st@.binds == seq![BindV::BigInt(Some(user_id)), text_v(*role_name)],
    {
        Statement::new("SELECT `assigned_at`, `role_name`, `user_id` FROM user_roles WHERE `user_id` = ? AND `role_name` = ?", vec![SqlValue::BigInt(Some(user_id)), SqlValue::text(role_name)])
    }

    /// The statement that tells whether a row with the given key exists.
    pub fn exists_by_user_id_and_role_name(user_id: i64, role_name: &String) -> (st: Statement)
        ensures
            st@.sql == "SELECT 1 FROM user_roles WHERE `user_id` = ? AND `role_name` = ? LIMIT 1"@,
            st@.binds == seq![BindV::BigInt(Some(user_id)), text_v(*role_name)],
    {
        Statement::new("SELECT 1 FROM user_roles WHERE `user_id` = ? AND `role_name` = ? LIMIT 1", vec![SqlValue::BigInt(Some(user_id)), SqlValue::text(role_name)])
    }

    /// The statement that deletes the rows with the given key.
    pub fn delete_by_user_id_and_role_name(user_id: i64, role_name: &String) -> (st: Statement)
        ensures
            st@.sql == "DELETE FROM user_roles WHERE `user_id` = ? AND `role_name` = ?"@,
            st@.binds == seq![BindV::BigInt(Some(user_id)), text_v(*role_name)],
    {
        Statement::new("DELETE FROM user_roles WHERE `user_id` = ? AND `role_name` = ?", vec![SqlValue::BigInt(Some(user_id)), SqlValue::text(role_name)])
    }

    /// The columns a patch assigns, in column order.
    pub open spec fn update_partial_by_role_name_and_user_id_columns(p: UserRolesPatch) -> Seq<Seq<char>> {
        Seq::empty()
            + assigned_column(p.assigned_at, "`assigned_at`"@)
    }

    /// The values a patch assigns, in column order.
    pub open spec fn update_partial_by_role_name_and_user_id_values(p: UserRolesPatch) -> Seq<BindV> {
        Seq::empty()
            + (match p.assigned_at { Some(v) => seq![BindV::Timestamp(v)], None => Seq::empty() })
    }

    /// A partial update binds one value for each column it assigns, so its
    /// placeholders and its values always match in number.
    pub proof fn law_update_partial_by_role_name_and_user_id_one_value_per_column(patch: UserRolesPatch)
        ensures
            Self::update_partial_by_role_name_and_user_id_columns(patch).len() == Self::update_partial_by_role_name_and_user_id_values(patch).len(),
    {
    }

    /// A patch that sets every column to the values of `row`, applied to the
    /// row's key, gives the statement that `update_by_role_name_and_user_id` gives for the row: the
    /// same text and the same values.
    pub proof fn law_full_patch_matches_update_by_role_name_and_user_id(row: Self, patch: UserRolesPatch)
        requires
            patch.assigned_at == Some(row.assigned_at),
        ensures
            update_sql("UPDATE user_roles SET "@, Self::update_partial_by_role_name_and_user_id_columns(patch), seq!["`role_name`"@, "`user_id`"@], Placeholder::Question)
                == update_sql("UPDATE user_roles SET "@, seq!["`assigned_at`"@], seq!["`role_name`"@, "`user_id`"@], Placeholder::Question),
            Self::update_partial_by_role_name_and_user_id_values(patch) + seq![text_v(row.role_name), BindV::BigInt(Some(row.user_id))] == row.row_values(),
    {
        assert(Self::update_partial_by_role_name_and_user_id_columns(patch) =~= seq!["`assigned_at`"@]);
        assert(Self::update_partial_by_role_name_and_user_id_values(patch) + seq![text_v(row.role_name), BindV::BigInt(Some(row.user_id))] =~= row.row_values());
    }
}

} // verus!
