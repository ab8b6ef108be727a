//! The `currencies` table (MySQL dialect): rows, orderings, constraints and statements.
use vstd::prelude::*;
use crate::value::{SqlValue, BindV, Statement, StatementV, text_v, values_of_strings};
use crate::sql::{push_assignment, assigned_column, Placeholder, values_sql, values_text, values_piece, values_plan, update_sql, update_text, in_list_piece, in_list_plan, chunks, flatten, lemma_chunks, rows_view, values_assignment};
use crate::paging::{page_offset, offset_of};
use crate::text::push_str;

verus! {

/// A row of `currencies`.
#[derive(Clone, Debug)]
pub struct Currencies {
    pub code: String,
    pub name: String,
}

/// The columns of `currencies` to change: `None` leaves a column as it is, `Some(v)` writes `v`.
#[derive(Clone, Debug)]
pub struct CurrenciesPatch {
    pub name: Option<String>,
}

impl Default for CurrenciesPatch {
    /// A patch that changes nothing.
    fn default() -> (p: Self)
        ensures
            p.name is None,
    {
        CurrenciesPatch { name: None }
    }
}

impl Currencies {
    /// The statement that counts the rows.
    pub fn count() -> (st: Statement)
        ensures
            st@.sql == "SELECT COUNT(*) FROM currencies"@,
            st@.binds == Seq::<BindV>::empty(),
    {
        Statement::new("SELECT COUNT(*) FROM currencies", Vec::new())
    }

    /// The statement that streams all rows.
    pub fn stream_all() -> (st: Statement)
        ensures
            st@.sql == "SELECT * FROM currencies"@,
            st@.binds == Seq::<BindV>::empty(),
    {
        Statement::new("SELECT * FROM currencies", Vec::new())
    }

    /// The statement that reads one page of rows ordered by the given `ORDER BY`
    /// text, inserted as it is: page `page` (counted from one; zero reads as
    /// one) of `page_size` rows.
    pub fn list_paginated(order_by: &str, page: u32, page_size: u32) -> (st: Statement)
        requires
            offset_of(page, page_size) <= u32::MAX,
        ensures
            st@.sql == "SELECT * FROM currencies ORDER BY "@ + order_by@ + " LIMIT ? OFFSET ?"@,
            st@.binds == seq![BindV::UnsignedInt(Some(page_size)), BindV::UnsignedInt(Some(offset_of(page, page_size) as u32))],
    {
        let offset = page_offset(page, page_size);
        let mut sql = String::new();
        push_str(&mut sql, "SELECT * FROM currencies ORDER BY ");
        push_str(&mut sql, order_by);
        push_str(&mut sql, " LIMIT ? OFFSET ?");
        Statement { sql, binds: vec![SqlValue::UnsignedInt(Some(page_size)), SqlValue::UnsignedInt(Some(offset))] }
    }

    /// The statement that reads the row with the given key.
    pub fn get_by_pk(code: &String) -> (st: Statement)
        ensures
            st@.sql == "SELECT * FROM currencies WHERE code = ?"@,
            st@.binds == seq![text_v(*code)],
    {
        Statement::new("SELECT * FROM currencies WHERE code = ?", vec![SqlValue::text(code)])
    }

    /// The statement that tells whether a row with the given key exists.
    pub fn exists_by_pk(code: &String) -> (st: Statement)
        ensures
            st@.sql == "SELECT 1 FROM currencies WHERE code = ? LIMIT 1"@,
            st@.binds == seq![text_v(*code)],
    {
        Statement::new("SELECT 1 FROM currencies WHERE code = ? LIMIT 1", vec![SqlValue::text(code)])
    }

    /// The statement that lists the rows after a key in key order, at most `limit` of them.
    pub fn list_by_cursor(last_id: &String, limit: u32) -> (st: Statement)
        ensures
            st@.sql == "SELECT * FROM currencies WHERE code > ? ORDER BY code ASC LIMIT ?"@,
            st@.binds == seq![text_v(*last_id), BindV::UnsignedInt(Some(limit))],
    {
        Statement::new("SELECT * FROM currencies WHERE code > ? ORDER BY code ASC LIMIT ?", vec![SqlValue::text(last_id), SqlValue::UnsignedInt(Some(limit))])
    }

    /// The value this row holds in the column named `column`, as the
    /// statements bind it; `None` for a name that is not a column.
    pub open spec fn column_value(self, column: Seq<char>) -> Option<BindV> {
        if column == "code"@ {
            Some(text_v(self.code))
        } else if column == "name"@ {
            Some(text_v(self.name))
        } else {
            None
        }
    }

    /// The text that starts the single-row and multi-row writes, up to their
    /// `VALUES`.
    pub open spec fn insert_head() -> Seq<char> {
        "INSERT INTO currencies (code, name) "@
    }

    /// The single-row and multi-row writes name the columns `code`, `name`
    /// in this order, and bind for each of them this row's value of that column.
    pub proof fn law_row_binds_named_columns(self)
        ensures
            Self::insert_head() == "INSERT INTO currencies ("@ + "code"@ + ", "@ + "name"@ + ") "@,
            self.row_values().len() == 2,
            self.column_value("code"@) == Some(self.row_values()[0]),
            self.column_value("name"@) == Some(self.row_values()[1]),
    {
        reveal_strlit("code");
        assert("code"@.len() == 4 && "code"@[0] == 'c');
        reveal_strlit("name");
        assert("name"@.len() == 4 && "name"@[0] == 'n');
        reveal_strlit("INSERT INTO currencies (code, name) ");
        reveal_strlit("INSERT INTO currencies (");
        reveal_strlit("code");
        reveal_strlit(", ");
        reveal_strlit("name");
        reveal_strlit(") ");
    }

    /// The columns the full update sets, as its text names them.
    pub open spec fn row_then_code_set_columns() -> Seq<Seq<char>> {
        seq!["name"@]
    }

    /// The key columns the full update selects the row by, as its text names them.
    pub open spec fn row_then_code_key_columns() -> Seq<Seq<char>> {
        seq!["code"@]
    }

    /// The full update binds this row's value of each column it sets
    /// (`name`), then of each key column
    /// (`code`), in the order the statement names them.
    pub proof fn law_row_then_code_binds_named_columns(self)
        ensures
            Self::row_then_code_set_columns() == seq!["name"@],
            Self::row_then_code_key_columns() == seq!["code"@],
            self.row_then_code_values().len() == 2,
            self.column_value("name"@) == Some(self.row_then_code_values()[0]),
            self.column_value("code"@) == Some(self.row_then_code_values()[1]),
    {
        reveal_strlit("code");
        assert("code"@.len() == 4 && "code"@[0] == 'c');
        reveal_strlit("name");
        assert("name"@.len() == 4 && "name"@[0] == 'n');
    }

    /// A batch holds one row of values an item, in the order of the items.
    pub proof fn law_batch_rows_are_the_items_in_order(items: Seq<Self>)
        ensures
            Self::rows_values(items).len() == items.len(),
            forall|i: int| 0 <= i < items.len() ==> #[trigger] Self::rows_values(items)[i] == items[i].row_values(),
    {
    }

    /// What the upsert does on a key conflict, after its `VALUES`.
    pub open spec fn upsert_tail() -> Seq<char> {
        " ON DUPLICATE KEY UPDATE code = VALUES(code), name = VALUES(name)"@
    }

    /// On a key conflict the upsert sets each of `code`, `name` to the
    /// value the new row brings for that same column.
    pub proof fn law_upsert_sets_each_column_from_the_new_row()
        ensures
            Self::upsert_tail() == " ON DUPLICATE KEY UPDATE "@ + values_assignment("code"@) + ", "@ + values_assignment("name"@),
    {
        reveal_strlit(" ON DUPLICATE KEY UPDATE code = VALUES(code), name = VALUES(name)");
        reveal_strlit(" ON DUPLICATE KEY UPDATE ");
        reveal_strlit(", ");
        reveal_strlit(" = VALUES(");
        reveal_strlit("code");
        reveal_strlit("name");
        reveal_strlit(")");
    }

    /// The values of this row's columns, in the order the single-row and multi-row writes bind them.
    pub open spec fn row_values(self) -> Seq<BindV> {
        seq![text_v(self.code), text_v(self.name)]
    }

    /// The values of this row's columns, in the order the single-row and multi-row writes bind them.
    pub fn row(&self) -> (r: Vec<SqlValue>)
        ensures
            r@.map_values(|b: SqlValue| b@) == self.row_values(),
    {
        vec![SqlValue::text(&self.code), SqlValue::text(&self.name)]
    }

    /// The statement that inserts this row.
    pub fn insert(&self) -> (st: Statement)
        ensures
            st@.sql == values_sql(Self::insert_head(), Placeholder::Question, 1, 2, ""@),
            st@.binds == self.row_values(),
    {
        Statement { sql: values_text("INSERT INTO currencies (code, name) ", Placeholder::Question, 1, 2, ""), binds: self.row() }
    }

    /// The values of each row, in statement order.
    pub open spec fn rows_values(items: Seq<Self>) -> Seq<Seq<BindV>> {
        items.map_values(|it: Self| it.row_values())
    }

    /// The values of each row, in statement order.
    pub fn rows(items: &[Self]) -> (r: Vec<Vec<SqlValue>>)
        ensures
            rows_view(r@) == Self::rows_values(items@),
    {
        let mut r: Vec<Vec<SqlValue>> = Vec::new();
        let mut i: usize = 0;
        while i < items.len()
            invariant
                0 <= i <= items.len(),
                rows_view(r@) == Self::rows_values(items@.take(i as int)),
            decreases items.len() - i,
        {
            let row = items[i].row();
            let ghost prev = r@;
            r.push(row);
            proof {
                assert(r@ =~= prev.push(row));
                assert(rows_view(r@) =~= rows_view(prev).push(row@.map_values(|b: SqlValue| b@)));
                assert(items@.take(i + 1) =~= items@.take(i as int).push(items@[i as int]));
                assert(Self::rows_values(items@.take(i + 1))
                    =~= Self::rows_values(items@.take(i as int)).push(items@[i as int].row_values()));
            }
            i = i + 1;
        }
        assert(items@.take(items.len() as int) =~= items@);
        r
    }

    /// The multi-row statements that write the given rows, all rows in one statement; no
    /// statement for no rows.
    pub fn insert_batch(items: &[Self]) -> (plan: Vec<Statement>)
        requires
            items@.len() * 2 < u64::MAX,
        ensures
            plan@.len() == chunks(Self::rows_values(items@), items@.len() as nat).len(),
            forall|k: int| 0 <= k < plan@.len() ==> (#[trigger] plan@[k])@ == values_piece(
                Self::insert_head(), ""@, Placeholder::Question, 2, chunks(Self::rows_values(items@), items@.len() as nat)[k]),
            items@.len() == 0 ==> plan@.len() == 0,
            items@.len() > 0 ==> plan@.len() == 1 && plan@[0]@ == (StatementV {
                sql: values_sql(Self::insert_head(), Placeholder::Question, items@.len() as nat, 2, ""@),
                binds: flatten(Self::rows_values(items@)),
            }),
    {
        if items.len() == 0 {
            return Vec::new();
        }
        let rows = Self::rows(items);
        assert(rows_view(rows@).len() == items@.len());
        assert(rows_view(rows@).len() == rows@.len());
        assert forall|j: int| 0 <= j < rows@.len() implies (#[trigger] rows_view(rows@)[j]).len() == 2 by {
            assert(Self::rows_values(items@)[j] == items@[j].row_values());
            assert(rows_view(rows@)[j] == items@[j].row_values());
        }
        proof {
            lemma_chunks(Self::rows_values(items@), items@.len() as nat);
        }
        values_plan("INSERT INTO currencies (code, name) ", "", Placeholder::Question, 2, items.len(), &rows)
    }

    /// The statement that inserts this row or, on a key conflict, updates it.
    pub fn upsert(&self) -> (st: Statement)
        ensures
            st@.sql == values_sql(Self::insert_head(), Placeholder::Question, 1, 2, Self::upsert_tail()),
            st@.binds == self.row_values(),
    {
        Statement { sql: values_text("INSERT INTO currencies (code, name) ", Placeholder::Question, 1, 2, " ON DUPLICATE KEY UPDATE code = VALUES(code), name = VALUES(name)"), binds: self.row() }
    }

    /// The values of this row's columns and then of its key columns, in the order the full update binds them.
    pub open spec fn row_then_code_values(self) -> Seq<BindV> {
        seq![text_v(self.name), text_v(self.code)]
    }

    /// The values of this row's columns and then of its key columns, in the order the full update binds them.
    pub fn row_then_code(&self) -> (r: Vec<SqlValue>)
        ensures
            r@.map_values(|b: SqlValue| b@) == self.row_then_code_values(),
    {
        vec![SqlValue::text(&self.name), SqlValue::text(&self.code)]
    }

    /// The statement that writes every column of this row, selected by its key.
    pub fn update_by_pk(&self) -> (st: Statement)
        ensures
            st@.sql == update_sql("UPDATE currencies SET "@, Self::row_then_code_set_columns(), Self::row_then_code_key_columns(), Placeholder::Question),
            st@.binds == self.row_then_code_values(),
    {
        let set: Vec<&str> = vec!["name"];
        let keys: Vec<&str> = vec!["code"];
        proof {
            assert(set@.map_values(|n: &str| n@) =~= seq!["name"@]);
            assert(keys@.map_values(|n: &str| n@) =~= seq!["code"@]);
        }
        Statement { sql: update_text("UPDATE currencies SET ", &set, &keys, Placeholder::Question), binds: self.row_then_code() }
    }

    /// The statement that deletes the rows with the given key.
    pub fn delete_by_pk(code: &String) -> (st: Statement)
        ensures
            st@.sql == "DELETE FROM currencies WHERE code = ?"@,
            st@.binds == seq![text_v(*code)],
    {
        Statement::new("DELETE FROM currencies WHERE code = ?", vec![SqlValue::text(code)])
    }

    /// The statements that delete the rows with the given keys, all keys in one statement;
    /// no statement for no keys.
    pub fn delete_many_by_pk(ids: &[String]) -> (plan: Vec<Statement>)
        requires
            ids@.len() < u64::MAX,
        ensures
            plan@.len() == chunks(ids@.map_values(|x: String| text_v(x)), ids@.len() as nat).len(),
            forall|k: int| 0 <= k < plan@.len() ==> (#[trigger] plan@[k])@ == in_list_piece(
                "DELETE FROM currencies WHERE code IN "@, Placeholder::Question, chunks(ids@.map_values(|x: String| text_v(x)), ids@.len() as nat)[k]),
    {
        if ids.len() == 0 {
            return Vec::new();
        }
        let values = values_of_strings(ids);
        in_list_plan("DELETE FROM currencies WHERE code IN ", Placeholder::Question, ids.len(), &values)
    }

    /// The columns the patch sets and their values, in column order.
    fn update_partial_by_pk_assignments(patch: &CurrenciesPatch) -> (r: (Vec<&'static str>, Vec<SqlValue>))
        ensures
            r.0@.map_values(|n: &str| n@) == Self::update_partial_by_pk_columns(*patch),
            r.1@.map_values(|b: SqlValue| b@) == Self::update_partial_by_pk_values(*patch),
            r.0@.len() <= 1,
    {
        let mut set: Vec<&'static str> = Vec::new();
        let mut binds: Vec<SqlValue> = Vec::new();
        assert(set@.map_values(|n: &str| n@) =~= Seq::<Seq<char>>::empty());
        assert(binds@.map_values(|b: SqlValue| b@) =~= Seq::<BindV>::empty());
        let value = match &patch.name {
            Some(v) => Some(SqlValue::text(v)),
            None => None,
        };
        push_assignment(&mut set, &mut binds, "name", value);
        (set, binds)
    }

    /// The statement that writes only the columns the patch sets, on the row
    /// with the given key; none when the patch sets no column.
    pub fn update_partial_by_pk(code: &String, patch: &CurrenciesPatch) -> (r: Option<Statement>)
        ensures
            r is None <==> Self::update_partial_by_pk_columns(*patch).len() == 0,
            r matches Some(st) ==> st@.sql == update_sql("UPDATE currencies SET "@, Self::update_partial_by_pk_columns(*patch), seq!["code"@], Placeholder::Question)
                && st@.binds == Self::update_partial_by_pk_values(*patch) + seq![text_v(*code)],
    {
        let (set, mut binds) = Self::update_partial_by_pk_assignments(patch);
        if set.len() == 0 {
            return None;
        }
        let ghost vals = binds@.map_values(|b: SqlValue| b@);
        binds.push(SqlValue::text(code));
        let keys: Vec<&str> = vec!["code"];
        proof {
            assert(keys@.map_values(|n: &str| n@) =~= seq!["code"@]);
            assert(binds@.map_values(|b: SqlValue| b@) =~= vals + seq![text_v(*code)]);
        }
        Some(Statement { sql: update_text("UPDATE currencies SET ", &set, &keys, Placeholder::Question), binds })
    }

    /// The columns a patch assigns, in column order.
    pub open spec fn update_partial_by_pk_columns(p: CurrenciesPatch) -> Seq<Seq<char>> {
        Seq::empty()
            + assigned_column(p.name, "name"@)
    }

    /// The values a patch assigns, in column order.
    pub open spec fn update_partial_by_pk_values(p: CurrenciesPatch) -> Seq<BindV> {
        Seq::empty()
            + (match p.name { Some(v) => seq![text_v(v)], None => Seq::empty() })
    }

    /// A partial update binds one value for each column it assigns, so its
    /// placeholders and its values always match in number.
    pub proof fn law_update_partial_by_pk_one_value_per_column(patch: CurrenciesPatch)
        ensures
            Self::update_partial_by_pk_columns(patch).len() == Self::update_partial_by_pk_values(patch).len(),
    {
    }

    /// A patch that sets every column to the values of `row`, applied to the
    /// row's key, gives the statement that `update_by_pk` gives for the row: the
    /// same text and the same values.
    pub proof fn law_full_patch_matches_update_by_pk(row: Self, patch: CurrenciesPatch)
        requires
            patch.name == Some(row.name),
        ensures
            update_sql("UPDATE currencies SET "@, Self::update_partial_by_pk_columns(patch), seq!["code"@], Placeholder::Question)
                == update_sql("UPDATE currencies SET "@, seq!["name"@], seq!["code"@], Placeholder::Question),
            Self::update_partial_by_pk_values(patch) + seq![text_v(row.code)] == row.row_then_code_values(),
    {
        assert(Self::update_partial_by_pk_columns(patch) =~= seq!["name"@]);
        assert(Self::update_partial_by_pk_values(patch) + seq![text_v(row.code)] =~= row.row_then_code_values());
    }
}

} // verus!

