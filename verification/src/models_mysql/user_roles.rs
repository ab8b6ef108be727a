//! The `user_roles` table (MySQL dialect): rows, orderings, constraints and statements.
use vstd::prelude::*;
use crate::value::{SqlValue, BindV, Statement, StatementV, LocalTimestamp, text_v};
use crate::sql::{push_assignment, assigned_column, Placeholder, values_sql, values_text, values_piece, values_plan, update_sql, update_text, chunks, flatten, lemma_chunks, rows_view, values_assignment};
use crate::paging::{page_offset, offset_of};
use crate::text::push_str;

verus! {

/// A row of `user_roles`.
#[derive(Clone, Debug)]
pub struct UserRoles {
    pub user_id: i64,
    pub role_name: String,
    pub assigned_at: Option<LocalTimestamp>,
}

/// The columns of `user_roles` to change: `None` leaves a column as it is, `Some(v)` writes `v`.
#[derive(Clone, Debug)]
pub struct UserRolesPatch {
    pub assigned_at: Option<Option<LocalTimestamp>>,
}

impl Default for UserRolesPatch {
    /// A patch that changes nothing.
    fn default() -> (p: Self)
        ensures
            p.assigned_at is None,
    {
        UserRolesPatch { assigned_at: None }
    }
}

impl UserRoles {
    /// The statement that counts the rows.
    pub fn count() -> (st: Statement)
        ensures
            st@.sql == "SELECT COUNT(*) FROM user_roles"@,
            st@.binds == Seq::<BindV>::empty(),
    {
        Statement::new("SELECT COUNT(*) FROM user_roles", Vec::new())
    }

    /// The statement that streams all rows.
    pub fn stream_all() -> (st: Statement)
        ensures
            st@.sql == "SELECT * FROM user_roles"@,
            st@.binds == Seq::<BindV>::empty(),
    {
        Statement::new("SELECT * FROM user_roles", Vec::new())
    }

    /// The statement that reads one page of rows ordered by the given `ORDER BY`
    /// text, inserted as it is: page `page` (counted from one; zero reads as
    /// one) of `page_size` rows.
    pub fn list_paginated(order_by: &str, page: u32, page_size: u32) -> (st: Statement)
        requires
            offset_of(page, page_size) <= u32::MAX,
        ensures
            st@.sql == "SELECT * FROM user_roles ORDER BY "@ + order_by@ + " LIMIT ? OFFSET ?"@,
            st@.binds == seq![BindV::UnsignedInt(Some(page_size)), BindV::UnsignedInt(Some(offset_of(page, page_size) as u32))],
    {
        let offset = page_offset(page, page_size);
        let mut sql = String::new();
        push_str(&mut sql, "SELECT * FROM user_roles ORDER BY ");
        push_str(&mut sql, order_by);
        push_str(&mut sql, " LIMIT ? OFFSET ?");
        Statement { sql, binds: vec![SqlValue::UnsignedInt(Some(page_size)), SqlValue::UnsignedInt(Some(offset))] }
    }

    /// The statement that reads the row with the given key.
    pub fn get_by_pk(user_id: &i64, role_name: &String) -> (st: Statement)
        ensures
            st@.sql == "SELECT * FROM user_roles WHERE user_id = ? AND role_name = ?"@,
            st@.binds == seq![BindV::BigInt(Some(*user_id)), text_v(*role_name)],
    {
        Statement::new("SELECT * FROM user_roles WHERE user_id = ? AND role_name = ?", vec![SqlValue::BigInt(Some(*user_id)), SqlValue::text(role_name)])
    }

    /// The statement that tells whether a row with the given key exists.
    pub fn exists_by_pk(user_id: &i64, role_name: &String) -> (st: Statement)
        ensures
            st@.sql == "SELECT 1 FROM user_roles WHERE user_id = ? AND role_name = ? LIMIT 1"@,
            st@.binds == seq![BindV::BigInt(Some(*user_id)), text_v(*role_name)],
    {
        Statement::new("SELECT 1 FROM user_roles WHERE user_id = ? AND role_name = ? LIMIT 1", vec![SqlValue::BigInt(Some(*user_id)), SqlValue::text(role_name)])
    }

    /// The statement that tells whether a row with the given key exists.
    pub fn exists_by_user_id(user_id: &i64) -> (st: Statement)
        ensures
            st@.sql == "SELECT 1 FROM user_roles WHERE user_id = ? LIMIT 1"@,
            st@.binds == seq![BindV::BigInt(Some(*user_id))],
    {
        Statement::new("SELECT 1 FROM user_roles WHERE user_id = ? LIMIT 1", vec![SqlValue::BigInt(Some(*user_id))])
    }

    /// The statement that lists the rows with the given values.
    pub fn list_by_user_id(user_id: &i64) -> (st: Statement)
        ensures
            st@.sql == "SELECT * FROM user_roles WHERE user_id = ?"@,
            st@.binds == seq![BindV::BigInt(Some(*user_id))],
    {
        Statement::new("SELECT * FROM user_roles WHERE user_id = ?", vec![SqlValue::BigInt(Some(*user_id))])
    }

    /// The statement that streams the rows with the given values.
    pub fn stream_by_user_id(user_id: &i64) -> (st: Statement)
        ensures
            st@.sql == "SELECT * FROM user_roles WHERE user_id = ?"@,
            st@.binds == seq![BindV::BigInt(Some(*user_id))],
    {
        Statement::new("SELECT * FROM user_roles WHERE user_id = ?", vec![SqlValue::BigInt(Some(*user_id))])
    }

    /// The statement that tells whether a row with the given key exists.
    pub fn exists_by_user_id_and_role_name(user_id: &i64, role_name: &String) -> (st: Statement)
        ensures
            st@.sql == "SELECT 1 FROM user_roles WHERE user_id = ? AND role_name = ? LIMIT 1"@,
            st@.binds == seq![BindV::BigInt(Some(*user_id)), text_v(*role_name)],
    {
        Statement::new("SELECT 1 FROM user_roles WHERE user_id = ? AND role_name = ? LIMIT 1", vec![SqlValue::BigInt(Some(*user_id)), SqlValue::text(role_name)])
    }

    /// The statement that reads the row with the given key.
    pub fn get_by_user_id_and_role_name(user_id: &i64, role_name: &String) -> (st: Statement)
        ensures
            st@.sql == "SELECT * FROM user_roles WHERE user_id = ? AND role_name = ?"@,
            st@.binds == seq![BindV::BigInt(Some(*user_id)), text_v(*role_name)],
    {
        Statement::new("SELECT * FROM user_roles WHERE user_id = ? AND role_name = ?", vec![SqlValue::BigInt(Some(*user_id)), SqlValue::text(role_name)])
    }

    /// The value this row holds in the column named `column`, as the
    /// statements bind it; `None` for a name that is not a column.
    pub open spec fn column_value(self, column: Seq<char>) -> Option<BindV> {
        if column == "user_id"@ {
            Some(BindV::BigInt(Some(self.user_id)))
        } else if column == "role_name"@ {
            Some(text_v(self.role_name))
        } else if column == "assigned_at"@ {
            Some(BindV::LocalTimestamp(self.assigned_at))
        } else {
            None
        }
    }

    /// The text that starts the single-row and multi-row writes, up to their
    /// `VALUES`.
    pub open spec fn insert_head() -> Seq<char> {
        "INSERT INTO user_roles (user_id, role_name, assigned_at) "@
    }

    /// The single-row and multi-row writes name the columns `user_id`, `role_name`, `assigned_at`
    /// in this order, and bind for each of them this row's value of that column.
    pub proof fn law_row_binds_named_columns(self)
        ensures
            Self::insert_head() == "INSERT INTO user_roles ("@ + "user_id"@ + ", "@ + "role_name"@ + ", "@ + "assigned_at"@ + ") "@,
            self.row_values().len() == 3,
            self.column_value("user_id"@) == Some(self.row_values()[0]),
            self.column_value("role_name"@) == Some(self.row_values()[1]),
            self.column_value("assigned_at"@) == Some(self.row_values()[2]),
    {
        reveal_strlit("user_id");
        assert("user_id"@.len() == 7);
        reveal_strlit("role_name");
        assert("role_name"@.len() == 9);
        reveal_strlit("assigned_at");
        assert("assigned_at"@.len() == 11);
        reveal_strlit("INSERT INTO user_roles (user_id, role_name, assigned_at) ");
        reveal_strlit("INSERT INTO user_roles (");
        reveal_strlit("user_id");
        reveal_strlit(", ");
        reveal_strlit("role_name");
        reveal_strlit("assigned_at");
        reveal_strlit(") ");
    }

    /// The columns the full update sets, as its text names them.
    pub open spec fn row_then_user_id_and_role_name_set_columns() -> Seq<Seq<char>> {
        seq!["assigned_at"@]
    }

    /// The key columns the full update selects the row by, as its text names them.
    pub open spec fn row_then_user_id_and_role_name_key_columns() -> Seq<Seq<char>> {
        seq!["user_id"@, "role_name"@]
    }

    /// The full update binds this row's value of each column it sets
    /// (`assigned_at`), then of each key column
    /// (`user_id`, `role_name`), in the order the statement names them.
    pub proof fn law_row_then_user_id_and_role_name_binds_named_columns(self)
        ensures
            Self::row_then_user_id_and_role_name_set_columns() == seq!["assigned_at"@],
            Self::row_then_user_id_and_role_name_key_columns() == seq!["user_id"@, "role_name"@],
            self.row_then_user_id_and_role_name_values().len() == 3,
            self.column_value("assigned_at"@) == Some(self.row_then_user_id_and_role_name_values()[0]),
            self.column_value("user_id"@) == Some(self.row_then_user_id_and_role_name_values()[1]),
            self.column_value("role_name"@) == Some(self.row_then_user_id_and_role_name_values()[2]),
    {
        reveal_strlit("user_id");
        assert("user_id"@.len() == 7);
        reveal_strlit("role_name");
        assert("role_name"@.len() == 9);
        reveal_strlit("assigned_at");
        assert("assigned_at"@.len() == 11);
    }

    /// The columns the full update sets, as its text names them.
    pub open spec fn row_then_user_id_set_columns() -> Seq<Seq<char>> {
        seq!["assigned_at"@]
    }

    /// The key columns the full update selects the row by, as its text names them.
    pub open spec fn row_then_user_id_key_columns() -> Seq<Seq<char>> {
        seq!["user_id"@]
    }

    /// The full update binds this row's value of each column it sets
    /// (`assigned_at`), then of each key column
    /// (`user_id`), in the order the statement names them.
    pub proof fn law_row_then_user_id_binds_named_columns(self)
        ensures
            Self::row_then_user_id_set_columns() == seq!["assigned_at"@],
            Self::row_then_user_id_key_columns() == seq!["user_id"@],
            self.row_then_user_id_values().len() == 2,
            self.column_value("assigned_at"@) == Some(self.row_then_user_id_values()[0]),
            self.column_value("user_id"@) == Some(self.row_then_user_id_values()[1]),
    {
        reveal_strlit("user_id");
        assert("user_id"@.len() == 7);
        reveal_strlit("role_name");
        assert("role_name"@.len() == 9);
        reveal_strlit("assigned_at");
        assert("assigned_at"@.len() == 11);
    }

    /// A batch holds one row of values an item, in the order of the items.
    pub proof fn law_batch_rows_are_the_items_in_order(items: Seq<Self>)
        ensures
            Self::rows_values(items).len() == items.len(),
            forall|i: int| 0 <= i < items.len() ==> #[trigger] Self::rows_values(items)[i] == items[i].row_values(),
    {
    }

    /// What the upsert does on a key conflict, after its `VALUES`.
    pub open spec fn upsert_tail() -> Seq<char> {
        " ON DUPLICATE KEY UPDATE user_id = VALUES(user_id), role_name = VALUES(role_name), assigned_at = VALUES(assigned_at)"@
    }

    /// On a key conflict the upsert sets each of `user_id`, `role_name`, `assigned_at` to the
    /// value the new row brings for that same column.
    pub proof fn law_upsert_sets_each_column_from_the_new_row()
        ensures
            Self::upsert_tail() == " ON DUPLICATE KEY UPDATE "@ + values_assignment("user_id"@) + ", "@ + values_assignment("role_name"@) + ", "@ + values_assignment("assigned_at"@),
    {
        reveal_strlit(" ON DUPLICATE KEY UPDATE user_id = VALUES(user_id), role_name = VALUES(role_name), assigned_at = VALUES(assigned_at)");
        reveal_strlit(" ON DUPLICATE KEY UPDATE ");
        reveal_strlit(", ");
        reveal_strlit(" = VALUES(");
        reveal_strlit("user_id");
        reveal_strlit("role_name");
        reveal_strlit("assigned_at");
        reveal_strlit(")");
    }

    /// The values of this row's columns, in the order the single-row and multi-row writes bind them.
    pub open spec fn row_values(self) -> Seq<BindV> {
        seq![BindV::BigInt(Some(self.user_id)), text_v(self.role_name), BindV::LocalTimestamp(self.assigned_at)]
    }

    /// The values of this row's columns, in the order the single-row and multi-row writes bind them.
    pub fn row(&self) -> (r: Vec<SqlValue>)
        ensures
            r@.map_values(|b: SqlValue| b@) == self.row_values(),
    {
        vec![SqlValue::BigInt(Some(self.user_id)), SqlValue::text(&self.role_name), SqlValue::LocalTimestamp(self.assigned_at)]
    }

    /// The statement that inserts this row.
    pub fn insert(&self) -> (st: Statement)
        ensures
            st@.sql == values_sql(Self::insert_head(), Placeholder::Question, 1, 3, ""@),
            st@.binds == self.row_values(),
    {
        Statement { sql: values_text("INSERT INTO user_roles (user_id, role_name, assigned_at) ", Placeholder::Question, 1, 3, ""), binds: self.row() }
    }

    /// The values of each row, in statement order.
    pub open spec fn rows_values(items: Seq<Self>) -> Seq<Seq<BindV>> {
        items.map_values(|it: Self| it.row_values())
    }

    /// The values of each row, in statement order.
    pub fn rows(items: &[Self]) -> (r: Vec<Vec<SqlValue>>)
        ensures
            rows_view(r@) == Self::rows_values(items@),
    {
        let mut r: Vec<Vec<SqlValue>> = Vec::new();
        let mut i: usize = 0;
        while i < items.len()
            invariant
                0 <= i <= items.len(),
                rows_view(r@) == Self::rows_values(items@.take(i as int)),
            decreases items.len() - i,
        {
            let row = items[i].row();
            let ghost prev = r@;
            r.push(row);
            proof {
                assert(r@ =~= prev.push(row));
                assert(rows_view(r@) =~= rows_view(prev).push(row@.map_values(|b: SqlValue| b@)));
                assert(items@.take(i + 1) =~= items@.take(i as int).push(items@[i as int]));
                assert(Self::rows_values(items@.take(i + 1))
                    =~= Self::rows_values(items@.take(i as int)).push(items@[i as int].row_values()));
            }
            i = i + 1;
        }
        assert(items@.take(items.len() as int) =~= items@);
        r
    }

    /// The multi-row statements that write the given rows, all rows in one statement; no
    /// statement for no rows.
    pub fn insert_batch(items: &[Self]) -> (plan: Vec<Statement>)
        requires
            items@.len() * 3 < u64::MAX,
        ensures
            plan@.len() == chunks(Self::rows_values(items@), items@.len() as nat).len(),
            forall|k: int| 0 <= k < plan@.len() ==> (#[trigger] plan@[k])@ == values_piece(
                Self::insert_head(), ""@, Placeholder::Question, 3, chunks(Self::rows_values(items@), items@.len() as nat)[k]),
            items@.len() == 0 ==> plan@.len() == 0,
            items@.len() > 0 ==> plan@.len() == 1 && plan@[0]@ == (StatementV {
                sql: values_sql(Self::insert_head(), Placeholder::Question, items@.len() as nat, 3, ""@),
                binds: flatten(Self::rows_values(items@)),
            }),
    {
        if items.len() == 0 {
            return Vec::new();
        }
        let rows = Self::rows(items);
        assert(rows_view(rows@).len() == items@.len());
        assert(rows_view(rows@).len() == rows@.len());
        assert forall|j: int| 0 <= j < rows@.len() implies (#[trigger] rows_view(rows@)[j]).len() == 3 by {
            assert(Self::rows_values(items@)[j] == items@[j].row_values());
            assert(rows_view(rows@)[j] == items@[j].row_values());
        }
        proof {
            lemma_chunks(Self::rows_values(items@), items@.len() as nat);
        }
        values_plan("INSERT INTO user_roles (user_id, role_name, assigned_at) ", "", Placeholder::Question, 3, items.len(), &rows)
    }

    /// The statement that inserts this row or, on a key conflict, updates it.
    pub fn upsert(&self) -> (st: Statement)
        ensures
            st@.sql == values_sql(Self::insert_head(), Placeholder::Question, 1, 3, Self::upsert_tail()),
            st@.binds == self.row_values(),
    {
        Statement { sql: values_text("INSERT INTO user_roles (user_id, role_name, assigned_at) ", Placeholder::Question, 1, 3, " ON DUPLICATE KEY UPDATE user_id = VALUES(user_id), role_name = VALUES(role_name), assigned_at = VALUES(assigned_at)"), binds: self.row() }
    }

    /// The values of this row's columns and then of its key columns, in the order the full update binds them.
    pub open spec fn row_then_user_id_and_role_name_values(self) -> Seq<BindV> {
        seq![BindV::LocalTimestamp(self.assigned_at), BindV::BigInt(Some(self.user_id)), text_v(self.role_name)]
    }

    /// The values of this row's columns and then of its key columns, in the order the full update binds them.
    pub fn row_then_user_id_and_role_name(&self) -> (r: Vec<SqlValue>)
        ensures
            r@.map_values(|b: SqlValue| b@) == self.row_then_user_id_and_role_name_values(),
    {
        vec![SqlValue::LocalTimestamp(self.assigned_at), SqlValue::BigInt(Some(self.user_id)), SqlValue::text(&self.role_name)]
    }

    /// The statement that writes every column of this row, selected by its key.
    pub fn update_by_pk(&self) -> (st: Statement)
        ensures
            st@.sql == update_sql("UPDATE user_roles SET "@, Self::row_then_user_id_and_role_name_set_columns(), Self::row_then_user_id_and_role_name_key_columns(), Placeholder::Question),
            st@.binds == self.row_then_user_id_and_role_name_values(),
    {
        let set: Vec<&str> = vec!["assigned_at"];
        let keys: Vec<&str> = vec!["user_id", "role_name"];
        proof {
            assert(set@.map_values(|n: &str| n@) =~= seq!["assigned_at"@]);
            assert(keys@.map_values(|n: &str| n@) =~= seq!["user_id"@, "role_name"@]);
        }
        Statement { sql: update_text("UPDATE user_roles SET ", &set, &keys, Placeholder::Question), binds: self.row_then_user_id_and_role_name() }
    }

    /// The statement that deletes the rows with the given key.
    pub fn delete_by_pk(user_id: &i64, role_name: &String) -> (st: Statement)
        ensures
            st@.sql == "DELETE FROM user_roles WHERE user_id = ? AND role_name = ?"@,
            st@.binds == seq![BindV::BigInt(Some(*user_id)), text_v(*role_name)],
    {
        Statement::new("DELETE FROM user_roles WHERE user_id = ? AND role_name = ?", vec![SqlValue::BigInt(Some(*user_id)), SqlValue::text(role_name)])
    }

    /// The values of this row's columns and then of its key columns, in the order the full update binds them.
    pub open spec fn row_then_user_id_values(self) -> Seq<BindV> {
        seq![BindV::LocalTimestamp(self.assigned_at), BindV::BigInt(Some(self.user_id))]
    }

    /// The values of this row's columns and then of its key columns, in the order the full update binds them.
    pub fn row_then_user_id(&self) -> (r: Vec<SqlValue>)
        ensures
            r@.map_values(|b: SqlValue| b@) == self.row_then_user_id_values(),
    {
        vec![SqlValue::LocalTimestamp(self.assigned_at), SqlValue::BigInt(Some(self.user_id))]
    }

    /// The statement that writes every column of this row, selected by its key.
    pub fn update_by_user_id(&self) -> (st: Statement)
        ensures
            st@.sql == update_sql("UPDATE user_roles SET "@, Self::row_then_user_id_set_columns(), Self::row_then_user_id_key_columns(), Placeholder::Question),
            st@.binds == self.row_then_user_id_values(),
    {
        let set: Vec<&str> = vec!["assigned_at"];
        let keys: Vec<&str> = vec!["user_id"];
        proof {
            assert(set@.map_values(|n: &str| n@) =~= seq!["assigned_at"@]);
            assert(keys@.map_values(|n: &str| n@) =~= seq!["user_id"@]);
        }
        Statement { sql: update_text("UPDATE user_roles SET ", &set, &keys, Placeholder::Question), binds: self.row_then_user_id() }
    }

    /// The statement that deletes the rows with the given key.
    pub fn delete_by_user_id(user_id: &i64) -> (st: Statement)
        ensures
            st@.sql == "DELETE FROM user_roles WHERE user_id = ?"@,
            st@.binds == seq![BindV::BigInt(Some(*user_id))],
    {
        Statement::new("DELETE FROM user_roles WHERE user_id = ?", vec![SqlValue::BigInt(Some(*user_id))])
    }

    /// The statement that writes every column of this row, selected by its key.
    pub fn update_by_user_id_and_role_name(&self) -> (st: Statement)
        ensures
            st@.sql == update_sql("UPDATE user_roles SET "@, Self::row_then_user_id_and_role_name_set_columns(), Self::row_then_user_id_and_role_name_key_columns(), Placeholder::Question),
            st@.binds == self.row_then_user_id_and_role_name_values(),
    {
        let set: Vec<&str> = vec!["assigned_at"];
        let keys: Vec<&str> = vec!["user_id", "role_name"];
        proof {
            assert(set@.map_values(|n: &str| n@) =~= seq!["assigned_at"@]);
            assert(keys@.map_values(|n: &str| n@) =~= seq!["user_id"@, "role_name"@]);
        }
        Statement { sql: update_text("UPDATE user_roles SET ", &set, &keys, Placeholder::Question), binds: self.row_then_user_id_and_role_name() }
    }

    /// The statement that deletes the rows with the given key.
    pub fn delete_by_user_id_and_role_name(user_id: &i64, role_name: &String) -> (st: Statement)
        ensures
            st@.sql == "DELETE FROM user_roles WHERE user_id = ? AND role_name = ?"@,
            st@.binds == seq![BindV::BigInt(Some(*user_id)), text_v(*role_name)],
    {
        Statement::new("DELETE FROM user_roles WHERE user_id = ? AND role_name = ?", vec![SqlValue::BigInt(Some(*user_id)), SqlValue::text(role_name)])
    }

    /// The columns the patch sets and their values, in column order.
    fn update_partial_by_pk_assignments(patch: &UserRolesPatch) -> (r: (Vec<&'static str>, Vec<SqlValue>))
        ensures
            r.0@.map_values(|n: &str| n@) == Self::update_partial_by_pk_columns(*patch),
            r.1@.map_values(|b: SqlValue| b@) == Self::update_partial_by_pk_values(*patch),
            r.0@.len() <= 1,
    {
        let mut set: Vec<&'static str> = Vec::new();
        let mut binds: Vec<SqlValue> = Vec::new();
        assert(set@.map_values(|n: &str| n@) =~= Seq::<Seq<char>>::empty());
        assert(binds@.map_values(|b: SqlValue| b@) =~= Seq::<BindV>::empty());
        let value = match &patch.assigned_at {
            Some(v) => Some(SqlValue::LocalTimestamp(*v)),
            None => None,
        };
        push_assignment(&mut set, &mut binds, "assigned_at", value);
        (set, binds)
    }

    /// The statement that writes only the columns the patch sets, on the row
    /// with the given key; none when the patch sets no column.
    pub fn update_partial_by_pk(user_id: &i64, role_name: &String, patch: &UserRolesPatch) -> (r: Option<Statement>)
        ensures
            r is None <==> Self::update_partial_by_pk_columns(*patch).len() == 0,
            r matches Some(st) ==> st@.sql == update_sql("UPDATE user_roles SET "@, Self::update_partial_by_pk_columns(*patch), seq!["user_id"@, "role_name"@], Placeholder::Question)
                && st@.binds == Self::update_partial_by_pk_values(*patch) + seq![BindV::BigInt(Some(*user_id)), text_v(*role_name)],
    {
        let (set, mut binds) = Self::update_partial_by_pk_assignments(patch);
        if set.len() == 0 {
            return None;
        }
        let ghost vals = binds@.map_values(|b: SqlValue| b@);
        binds.push(SqlValue::BigInt(Some(*user_id)));
        binds.push(SqlValue::text(role_name));
        let keys: Vec<&str> = vec!["user_id", "role_name"];
        proof {
            assert(keys@.map_values(|n: &str| n@) =~= seq!["user_id"@, "role_name"@]);
            assert(binds@.map_values(|b: SqlValue| b@) =~= vals + seq![BindV::BigInt(Some(*user_id)), text_v(*role_name)]);
        }
        Some(Statement { sql: update_text("UPDATE user_roles SET ", &set, &keys, Placeholder::Question), binds })
    }

    /// The columns a patch assigns, in column order.
    pub open spec fn update_partial_by_pk_columns(p: UserRolesPatch) -> Seq<Seq<char>> {
        Seq::empty()
            + assigned_column(p.assigned_at, "assigned_at"@)
    }

    /// The values a patch assigns, in column order.
    pub open spec fn update_partial_by_pk_values(p: UserRolesPatch) -> Seq<BindV> {
        Seq::empty()
            + (match p.assigned_at { Some(v) => seq![BindV::LocalTimestamp(v)], None => Seq::empty() })
    }

    /// A partial update binds one value for each column it assigns, so its
    /// placeholders and its values always match in number.
    pub proof fn law_update_partial_by_pk_one_value_per_column(patch: UserRolesPatch)
        ensures
            Self::update_partial_by_pk_columns(patch).len() == Self::update_partial_by_pk_values(patch).len(),
    {
    }

    /// A patch that sets every column to the values of `row`, applied to the
    /// row's key, gives the statement that `update_by_pk` gives for the row: the
    /// same text and the same values.
    pub proof fn law_full_patch_matches_update_by_pk(row: Self, patch: UserRolesPatch)
        requires
            patch.assigned_at == Some(row.assigned_at),
        ensures
            update_sql("UPDATE user_roles SET "@, Self::update_partial_by_pk_columns(patch), seq!["user_id"@, "role_name"@], Placeholder::Question)
                == update_sql("UPDATE user_roles SET "@, seq!["assigned_at"@], seq!["user_id"@, "role_name"@], Placeholder::Question),
            Self::update_partial_by_pk_values(patch) + seq![BindV::BigInt(Some(row.user_id)), text_v(row.role_name)] == row.row_then_user_id_and_role_name_values(),
    {
        assert(Self::update_partial_by_pk_columns(patch) =~= seq!["assigned_at"@]);
        assert(Self::update_partial_by_pk_values(patch) + seq![BindV::BigInt(Some(row.user_id)), text_v(row.role_name)] =~= row.row_then_user_id_and_role_name_values());
    }

    /// A patch that sets every column to the values of `row`, applied to the
    /// row's key, gives the statement that `update_by_user_id_and_role_name` gives for the row: the
    /// same text and the same values.
    pub proof fn law_full_patch_matches_update_by_user_id_and_role_name(row: Self, patch: UserRolesPatch)
        requires
            patch.assigned_at == Some(row.assigned_at),
        ensures
            update_sql("UPDATE user_roles SET "@, Self::update_partial_by_pk_columns(patch), seq!["user_id"@, "role_name"@], Placeholder::Question)
                == update_sql("UPDATE user_roles SET "@, seq!["assigned_at"@], seq!["user_id"@, "role_name"@], Placeholder::Question),
            Self::update_partial_by_pk_values(patch) + seq![BindV::BigInt(Some(row.user_id)), text_v(row.role_name)] == row.row_then_user_id_and_role_name_values(),
    {
        assert(Self::update_partial_by_pk_columns(patch) =~= seq!["assigned_at"@]);
        assert(Self::update_partial_by_pk_values(patch) + seq![BindV::BigInt(Some(row.user_id)), text_v(row.role_name)] =~= row.row_then_user_id_and_role_name_values());
    }
}

} // verus!

