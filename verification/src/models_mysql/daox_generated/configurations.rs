//! The `configurations` table (MySQL dialect, compact layout): rows, orderings, constraints and statements.
use vstd::prelude::*;
use crate::value::{SqlValue, BindV, Statement, StatementV, text_v, opt_text_v, values_of_i32};
use crate::order::{safe_order_text, order_text_is_safe};
use crate::sql::{push_assignment, assigned_column, paged_sql, paged_text, Placeholder, values_sql, values_text, values_piece, values_plan, update_sql, update_text, in_list_piece, in_list_plan, chunks, flatten, lemma_chunks, rows_view, values_assignment};
use crate::paging::{page_offset, offset_of};

verus! {

/// A row of `configurations`.
#[derive(Clone, Debug)]
pub struct Configurations {
    pub id: i32,
    pub match_: Option<String>,
    pub type_: String,
    pub value: Option<String>,
}

/// The columns of `configurations` to change: `None` leaves a column as it is, `Some(v)` writes `v`.
#[derive(Clone, Debug)]
pub struct ConfigurationsPatch {
    pub match_: Option<Option<String>>,
    pub type_: Option<String>,
    pub value: Option<Option<String>>,
}

impl Default for ConfigurationsPatch {
    /// A patch that changes nothing.
    fn default() -> (p: Self)
        ensures
            p.match_ is None,
            p.type_ is None,
            p.value is None,
    {
        ConfigurationsPatch { match_: None, type_: None, value: None }
    }
}

impl Configurations {
    /// The statement that counts the rows.
    pub fn count() -> (st: Statement)
        ensures
            st@.sql == "SELECT COUNT(*) FROM configurations"@,
            st@.binds == Seq::<BindV>::empty(),
    {
        Statement::new("SELECT COUNT(*) FROM configurations", Vec::new())
    }

    /// The statement that streams all rows.
    pub fn stream_all() -> (st: Statement)
        ensures
            st@.sql == "SELECT `id`, `match`, `type`, `value` FROM configurations"@,
            st@.binds == Seq::<BindV>::empty(),
    {
        Statement::new("SELECT `id`, `match`, `type`, `value` FROM configurations", Vec::new())
    }

    /// The statement that reads one page of rows ordered by the given
    /// `ORDER BY` text, passed on unchanged once every character of it is an
    /// ASCII letter or digit, `_`, a space, a comma, a backquote or a double
    /// quote: page `page` (counted from one; zero reads as one) of `page_size`
    /// rows.
    pub fn list_paginated(order_by: &str, page: u32, page_size: u32) -> (r: Result<Statement, String>)
        requires
            safe_order_text(order_by@)
                ==> offset_of(page, page_size) <= u32::MAX,
        ensures
            r is Ok <==> safe_order_text(order_by@),
            r matches Err(m) ==> m@ == "Invalid characters in ORDER BY. Potential SQL injection."@,
            r matches Ok(st) ==> st@.sql == paged_sql("SELECT `id`, `match`, `type`, `value` FROM configurations ORDER BY "@, order_by@, Placeholder::Question)
                && st@.binds == seq![
                    BindV::BigInt(Some((page_size) as i64)),
                    BindV::BigInt(Some(offset_of(page, page_size) as i64)),
                ],
    {
        if !order_text_is_safe(order_by) {
            return Err("Invalid characters in ORDER BY. Potential SQL injection.".to_owned());
        }
        let size = page_size;
        let offset = page_offset(page, size);
        Ok(Statement {
            sql: paged_text("SELECT `id`, `match`, `type`, `value` FROM configurations ORDER BY ", order_by, Placeholder::Question),
            binds: vec![SqlValue::BigInt(Some(size as i64)), SqlValue::BigInt(Some(offset as i64))],
        })
    }

    /// The statement that reads the row with the given key.
    pub fn get_by_id(id: i32) -> (st: Statement)
        ensures
            st@.sql == "SELECT `id`, `match`, `type`, `value` FROM configurations WHERE `id` = ?"@,
            st@.binds == seq![BindV::Int(Some(id))],
    {
        Statement::new("SELECT `id`, `match`, `type`, `value` FROM configurations WHERE `id` = ?", vec![SqlValue::Int(Some(id))])
    }

    /// The statement that tells whether a row with the given key exists.
    pub fn exists_by_id(id: i32) -> (st: Statement)
        ensures
            st@.sql == "SELECT 1 FROM configurations WHERE `id` = ? LIMIT 1"@,
            st@.binds == seq![BindV::Int(Some(id))],
    {
        Statement::new("SELECT 1 FROM configurations WHERE `id` = ? LIMIT 1", vec![SqlValue::Int(Some(id))])
    }

    /// The statement that lists the rows after a key in key order, at most `limit` of them.
    pub fn list_by_cursor(last_id: i32, limit: u32) -> (st: Statement)
        ensures
            st@.sql == "SELECT `id`, `match`, `type`, `value` FROM configurations WHERE `id` > ? ORDER BY `id` ASC LIMIT ?"@,
            st@.binds == seq![BindV::Int(Some(last_id)), BindV::BigInt(Some(limit as i64))],
    {
        Statement::new("SELECT `id`, `match`, `type`, `value` FROM configurations WHERE `id` > ? ORDER BY `id` ASC LIMIT ?", vec![SqlValue::Int(Some(last_id)), SqlValue::BigInt(Some(limit as i64))])
    }

    /// The value this row holds in the column named `column`, as the
    /// statements bind it; `None` for a name that is not a column.
    pub open spec fn column_value(self, column: Seq<char>) -> Option<BindV> {
        if column == "match"@ {
            Some(opt_text_v(self.match_))
        } else if column == "type"@ {
            Some(text_v(self.type_))
        } else if column == "value"@ {
            Some(opt_text_v(self.value))
        } else if column == "id"@ {
            Some(BindV::Int(Some(self.id)))
        } else {
            None
        }
    }

    /// The text that starts the single-row and multi-row writes, up to their
    /// `VALUES`.
    pub open spec fn insert_head() -> Seq<char> {
        "INSERT INTO configurations (`match`, `type`, `value`) "@
    }

    /// The single-row and multi-row writes name the columns `match`, `type`, `value`
    /// in this order, and bind for each of them this row's value of that column.
    pub proof fn law_row_binds_named_columns(self)
        ensures
            Self::insert_head() == "INSERT INTO configurations ("@ + "`match`"@ + ", "@ + "`type`"@ + ", "@ + "`value`"@ + ") "@,
            self.row_values().len() == 3,
            self.column_value("match"@) == Some(self.row_values()[0]),
            self.column_value("type"@) == Some(self.row_values()[1]),
            self.column_value("value"@) == Some(self.row_values()[2]),
    {
        reveal_strlit("match");
        assert("match"@.len() == 5 && "match"@[0] == 'm');
        reveal_strlit("type");
        assert("type"@.len() == 4 && "type"@[0] == 't');
        reveal_strlit("value");
        assert("value"@.len() == 5 && "value"@[0] == 'v');
        reveal_strlit("id");
        assert("id"@.len() == 2 && "id"@[0] == 'i');
        reveal_strlit("INSERT INTO configurations (`match`, `type`, `value`) ");
        reveal_strlit("INSERT INTO configurations (");
        reveal_strlit("`match`");
        reveal_strlit(", ");
        reveal_strlit("`type`");
        reveal_strlit("`value`");
        reveal_strlit(") ");
    }

    /// The columns the full update sets, as its text names them.
    pub open spec fn row_then_id_set_columns() -> Seq<Seq<char>> {
        seq!["`match`"@, "`type`"@, "`value`"@]
    }

    /// The key columns the full update selects the row by, as its text names them.
    pub open spec fn row_then_id_key_columns() -> Seq<Seq<char>> {
        seq!["`id`"@]
    }

    /// The full update binds this row's value of each column it sets
    /// (`match`, `type`, `value`), then of each key column
    /// (`id`), in the order the statement names them.
    pub proof fn law_row_then_id_binds_named_columns(self)
        ensures
            Self::row_then_id_set_columns() == seq!["`match`"@, "`type`"@, "`value`"@],
            Self::row_then_id_key_columns() == seq!["`id`"@],
            self.row_then_id_values().len() == 4,
            self.column_value("match"@) == Some(self.row_then_id_values()[0]),
            self.column_value("type"@) == Some(self.row_then_id_values()[1]),
            self.column_value("value"@) == Some(self.row_then_id_values()[2]),
            self.column_value("id"@) == Some(self.row_then_id_values()[3]),
    {
        reveal_strlit("match");
        assert("match"@.len() == 5 && "match"@[0] == 'm');
        reveal_strlit("type");
        assert("type"@.len() == 4 && "type"@[0] == 't');
        reveal_strlit("value");
        assert("value"@.len() == 5 && "value"@[0] == 'v');
        reveal_strlit("id");
        assert("id"@.len() == 2 && "id"@[0] == 'i');
    }

    /// A batch holds one row of values an item, in the order of the items.
    pub proof fn law_batch_rows_are_the_items_in_order(items: Seq<Self>)
        ensures
            Self::rows_values(items).len() == items.len(),
            forall|i: int| 0 <= i < items.len() ==> #[trigger] Self::rows_values(items)[i] == items[i].row_values(),
    {
    }

    /// What the upsert does on a key conflict, after its `VALUES`.
    pub open spec fn upsert_tail() -> Seq<char> {
        " ON DUPLICATE KEY UPDATE `match` = VALUES(`match`), `type` = VALUES(`type`), `value` = VALUES(`value`)"@
    }

    /// On a key conflict the upsert sets each of `match`, `type`, `value` to the
    /// value the new row brings for that same column.
    pub proof fn law_upsert_sets_each_column_from_the_new_row()
        ensures
            Self::upsert_tail() == " ON DUPLICATE KEY UPDATE "@ + values_assignment("`match`"@) + ", "@ + values_assignment("`type`"@) + ", "@ + values_assignment("`value`"@),
    {
        reveal_strlit(" ON DUPLICATE KEY UPDATE `match` = VALUES(`match`), `type` = VALUES(`type`), `value` = VALUES(`value`)");
        reveal_strlit(" ON DUPLICATE KEY UPDATE ");
        reveal_strlit(", ");
        reveal_strlit(" = VALUES(");
        reveal_strlit("`match`");
        reveal_strlit("`type`");
        reveal_strlit("`value`");
        reveal_strlit(")");
    }

    /// The values of this row's columns, in the order the single-row and multi-row writes bind them.
    pub open spec fn row_values(self) -> Seq<BindV> {
        seq![opt_text_v(self.match_), text_v(self.type_), opt_text_v(self.value)]
    }

    /// The values of this row's columns, in the order the single-row and multi-row writes bind them.
    pub fn row(&self) -> (r: Vec<SqlValue>)
        ensures
            r@.map_values(|b: SqlValue| b@) == self.row_values(),
    {
        vec![SqlValue::opt_text(&self.match_), SqlValue::text(&self.type_), SqlValue::opt_text(&self.value)]
    }

    /// The statement that inserts this row.
    pub fn insert(&self) -> (st: Statement)
        ensures
            st@.sql == values_sql(Self::insert_head(), Placeholder::Question, 1, 3, ""@),
            st@.binds == self.row_values(),
    {
        Statement { sql: values_text("INSERT INTO configurations (`match`, `type`, `value`) ", Placeholder::Question, 1, 3, ""), binds: self.row() }
    }

    /// The values of each row, in statement order.
    pub open spec fn rows_values(items: Seq<Self>) -> Seq<Seq<BindV>> {
        items.map_values(|it: Self| it.row_values())
    }

    /// The values of each row, in statement order.
    pub fn rows(items: &[Self]) -> (r: Vec<Vec<SqlValue>>)
        ensures
            rows_view(r@) == Self::rows_values(items@),
    {
        let mut r: Vec<Vec<SqlValue>> = Vec::new();
        let mut i: usize = 0;
        while i < items.len()
            invariant
                0 <= i <= items.len(),
                rows_view(r@) == Self::rows_values(items@.take(i as int)),
            decreases items.len() - i,
        {
            let row = items[i].row();
            let ghost prev = r@;
            r.push(row);
            proof {
                assert(r@ =~= prev.push(row));
                assert(rows_view(r@) =~= rows_view(prev).push(row@.map_values(|b: SqlValue| b@)));
                assert(items@.take(i + 1) =~= items@.take(i as int).push(items@[i as int]));
                assert(Self::rows_values(items@.take(i + 1))
                    =~= Self::rows_values(items@.take(i as int)).push(items@[i as int].row_values()));
            }
            i = i + 1;
        }
        assert(items@.take(items.len() as int) =~= items@);
        r
    }

    /// The multi-row statements that write the given rows, all rows in one statement; no
    /// statement for no rows.
    pub fn insert_batch(items: &[Self]) -> (plan: Vec<Statement>)
        requires
            items@.len() * 3 < u64::MAX,
        ensures
            plan@.len() == chunks(Self::rows_values(items@), items@.len() as nat).len(),
            forall|k: int| 0 <= k < plan@.len() ==> (#[trigger] plan@[k])@ == values_piece(
                Self::insert_head(), ""@, Placeholder::Question, 3, chunks(Self::rows_values(items@), items@.len() as nat)[k]),
            items@.len() == 0 ==> plan@.len() == 0,
            items@.len() > 0 ==> plan@.len() == 1 && plan@[0]@ == (StatementV {
                sql: values_sql(Self::insert_head(), Placeholder::Question, items@.len() as nat, 3, ""@),
                binds: flatten(Self::rows_values(items@)),
            }),
    {
        if items.len() == 0 {
            return Vec::new();
        }
        let rows = Self::rows(items);
        assert(rows_view(rows@).len() == items@.len());
        assert(rows_view(rows@).len() == rows@.len());
        assert forall|j: int| 0 <= j < rows@.len() implies (#[trigger] rows_view(rows@)[j]).len() == 3 by {
            assert(Self::rows_values(items@)[j] == items@[j].row_values());
            assert(rows_view(rows@)[j] == items@[j].row_values());
        }
        proof {
            lemma_chunks(Self::rows_values(items@), items@.len() as nat);
        }
        values_plan("INSERT INTO configurations (`match`, `type`, `value`) ", "", Placeholder::Question, 3, items.len(), &rows)
    }

    /// The statement that inserts this row or, on a key conflict, updates it.
    pub fn upsert(&self) -> (st: Statement)
        ensures
            st@.sql == values_sql(Self::insert_head(), Placeholder::Question, 1, 3, Self::upsert_tail()),
            st@.binds == self.row_values(),
    {
        Statement { sql: values_text("INSERT INTO configurations (`match`, `type`, `value`) ", Placeholder::Question, 1, 3, " ON DUPLICATE KEY UPDATE `match` = VALUES(`match`), `type` = VALUES(`type`), `value` = VALUES(`value`)"), binds: self.row() }
    }

    /// The values of this row's columns and then of its key columns, in the order the full update binds them.
    pub open spec fn row_then_id_values(self) -> Seq<BindV> {
        seq![opt_text_v(self.match_), text_v(self.type_), opt_text_v(self.value), BindV::Int(Some(self.id))]
    }

    /// The values of this row's columns and then of its key columns, in the order the full update binds them.
    pub fn row_then_id(&self) -> (r: Vec<SqlValue>)
        ensures
            r@.map_values(|b: SqlValue| b@) == self.row_then_id_values(),
    {
        vec![SqlValue::opt_text(&self.match_), SqlValue::text(&self.type_), SqlValue::opt_text(&self.value), SqlValue::Int(Some(self.id))]
    }

    /// The statement that writes every column of this row, selected by its key.
    pub fn update_by_id(&self) -> (st: Statement)
        ensures
            st@.sql == update_sql("UPDATE configurations SET "@, Self::row_then_id_set_columns(), Self::row_then_id_key_columns(), Placeholder::Question),
            st@.binds == self.row_then_id_values(),
    {
        let set: Vec<&str> = vec!["`match`", "`type`", "`value`"];
        let keys: Vec<&str> = vec!["`id`"];
        proof {
            assert(set@.map_values(|n: &str| n@) =~= seq!["`match`"@, "`type`"@, "`value`"@]);
            assert(keys@.map_values(|n: &str| n@) =~= seq!["`id`"@]);
        }
        Statement { sql: update_text("UPDATE configurations SET ", &set, &keys, Placeholder::Question), binds: self.row_then_id() }
    }

    /// The statement that deletes the rows with the given key.
    pub fn delete_by_id(id: i32) -> (st: Statement)
        ensures
            st@.sql == "DELETE FROM configurations WHERE `id` = ?"@,
            st@.binds == seq![BindV::Int(Some(id))],
    {
        Statement::new("DELETE FROM configurations WHERE `id` = ?", vec![SqlValue::Int(Some(id))])
    }

    /// The statements that delete the rows with the given keys, all keys in one statement;
    /// no statement for no keys.
    pub fn delete_many_by_id(ids: &[i32]) -> (plan: Vec<Statement>)
        requires
            ids@.len() < u64::MAX,
        ensures
            plan@.len() == chunks(ids@.map_values(|x: i32| BindV::Int(Some(x))), ids@.len() as nat).len(),
            forall|k: int| 0 <= k < plan@.len() ==> (#[trigger] plan@[k])@ == in_list_piece(
                "DELETE FROM configurations WHERE `id` IN "@, Placeholder::Question, chunks(ids@.map_values(|x: i32| BindV::Int(Some(x))), ids@.len() as nat)[k]),
    {
        if ids.len() == 0 {
            return Vec::new();
        }
        let values = values_of_i32(ids);
        in_list_plan("DELETE FROM configurations WHERE `id` IN ", Placeholder::Question, ids.len(), &values)
    }

    /// The columns the patch sets and their values, in column order.
    fn update_partial_by_id_assignments(patch: &ConfigurationsPatch) -> (r: (Vec<&'static str>, Vec<SqlValue>))
        ensures
            r.0@.map_values(|n: &str| n@) == Self::update_partial_by_id_columns(*patch),
            r.1@.map_values(|b: SqlValue| b@) == Self::update_partial_by_id_values(*patch),
            r.0@.len() <= 3,
    {
        let mut set: Vec<&'static str> = Vec::new();
        let mut binds: Vec<SqlValue> = Vec::new();
        assert(set@.map_values(|n: &str| n@) =~= Seq::<Seq<char>>::empty());
        assert(binds@.map_values(|b: SqlValue| b@) =~= Seq::<BindV>::empty());
        let value = match &patch.match_ {
            Some(v) => Some(SqlValue::opt_text(v)),
            None => None,
        };
        push_assignment(&mut set, &mut binds, "`match`", value);
        let value = match &patch.type_ {
            Some(v) => Some(SqlValue::text(v)),
            None => None,
        };
        push_assignment(&mut set, &mut binds, "`type`", value);
        let value = match &patch.value {
            Some(v) => Some(SqlValue::opt_text(v)),
            None => None,
        };
        push_assignment(&mut set, &mut binds, "`value`", value);
        (set, binds)
    }

    /// The statement that writes only the columns the patch sets, on the row
    /// with the given key; none when the patch sets no column.
    pub fn update_partial_by_id(id: i32, patch: &ConfigurationsPatch) -> (r: Option<Statement>)
        ensures
            r is None <==> Self::update_partial_by_id_columns(*patch).len() == 0,
            r matches Some(st) ==> st@.sql == update_sql("UPDATE configurations SET "@, Self::update_partial_by_id_columns(*patch), seq!["`id`"@], Placeholder::Question)
                && st@.binds == Self::update_partial_by_id_values(*patch) + seq![BindV::Int(Some(id))],
    {
        let (set, mut binds) = Self::update_partial_by_id_assignments(patch);
        if set.len() == 0 {
            return None;
        }
        let ghost vals = binds@.map_values(|b: SqlValue| b@);
        binds.push(SqlValue::Int(Some(id)));
        let keys: Vec<&str> = vec!["`id`"];
        proof {
            assert(keys@.map_values(|n: &str| n@) =~= seq!["`id`"@]);
            assert(binds@.map_values(|b: SqlValue| b@) =~= vals + seq![BindV::Int(Some(id))]);
        }
        Some(Statement { sql: update_text("UPDATE configurations SET ", &set, &keys, Placeholder::Question), binds })
    }

    /// The columns a patch assigns, in column order.
    pub open spec fn update_partial_by_id_columns(p: ConfigurationsPatch) -> Seq<Seq<char>> {
        Seq::empty()
            + assigned_column(p.match_, "`match`"@)
            + assigned_column(p.type_, "`type`"@)
            + assigned_column(p.value, "`value`"@)
    }

    /// The values a patch assigns, in column order.
    pub open spec fn update_partial_by_id_values(p: ConfigurationsPatch) -> Seq<BindV> {
        Seq::empty()
            + (match p.match_ { Some(v) => seq![opt_text_v(v)], None => Seq::empty() })
            + (match p.type_ { Some(v) => seq![text_v(v)], None => Seq::empty() })
            + (match p.value { Some(v) => seq![opt_text_v(v)], None => Seq::empty() })
    }

    /// A partial update binds one value for each column it assigns, so its
    /// placeholders and its values always match in number.
    pub proof fn law_update_partial_by_id_one_value_per_column(patch: ConfigurationsPatch)
        ensures
            Self::update_partial_by_id_columns(patch).len() == Self::update_partial_by_id_values(patch).len(),
    {
    }

    /// A patch that sets every column to the values of `row`, applied to the
    /// row's key, gives the statement that `update_by_id` gives for the row: the
    /// same text and the same values.
    pub proof fn law_full_patch_matches_update_by_id(row: Self, patch: ConfigurationsPatch)
        requires
            patch.match_ == Some(row.match_),
            patch.type_ == Some(row.type_),
            patch.value == Some(row.value),
        ensures
            update_sql("UPDATE configurations SET "@, Self::update_partial_by_id_columns(patch), seq!["`id`"@], Placeholder::Question)
                == update_sql("UPDATE configurations SET "@, seq!["`match`"@, "`type`"@, "`value`"@], seq!["`id`"@], Placeholder::Question),
            Self::update_partial_by_id_values(patch) + seq![BindV::Int(Some(row.id))] == row.row_then_id_values(),
    {
        assert(Self::update_partial_by_id_columns(patch) =~= seq!["`match`"@, "`type`"@, "`value`"@]);
        assert(Self::update_partial_by_id_values(patch) + seq![BindV::Int(Some(row.id))] =~= row.row_then_id_values());
    }
}

} // verus!
