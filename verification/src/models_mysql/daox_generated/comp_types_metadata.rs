//! The `comp_types_metadata` table (MySQL dialect, compact layout): rows, orderings, constraints and statements.
use vstd::prelude::*;
use crate::value::{SqlValue, BindV, Statement, StatementV, UtcTimestamp, CalendarDate, opt_text_v, opt_bytes_v, values_of_i64};
use crate::order::{safe_order_text, order_text_is_safe};
use crate::sql::{push_assignment, assigned_column, paged_sql, paged_text, Placeholder, values_sql, values_text, values_piece, values_plan, update_sql, update_text, in_list_piece, in_list_plan, chunks, flatten, lemma_chunks, rows_view, values_assignment};
use crate::paging::{page_offset, offset_of};

verus! {

/// A row of `comp_types_metadata`.
#[derive(Clone, Debug)]
pub struct CompTypesMetadata {
    pub comp_types_id: i64,
    pub f_blob: Option<Vec<u8>>,
    pub f_date: Option<CalendarDate>,
    pub f_datetime: Option<UtcTimestamp>,
    pub f_json: Option<String>,
    pub f_timestamp: Option<UtcTimestamp>,
    pub id: i64,
}

/// The columns of `comp_types_metadata` to change: `None` leaves a column as it is, `Some(v)` writes `v`.
#[derive(Clone, Debug)]
pub struct CompTypesMetadataPatch {
    pub comp_types_id: Option<i64>,
    pub f_blob: Option<Option<Vec<u8>>>,
    pub f_date: Option<Option<CalendarDate>>,
    pub f_datetime: Option<Option<UtcTimestamp>>,
    pub f_json: Option<Option<String>>,
    pub f_timestamp: Option<Option<UtcTimestamp>>,
}

impl Default for CompTypesMetadataPatch {
    /// A patch that changes nothing.
    fn default() -> (p: Self)
        ensures
            p.comp_types_id is None,
            p.f_blob is None,
            p.f_date is None,
            p.f_datetime is None,
            p.f_json is None,
            p.f_timestamp is None,
    {
        CompTypesMetadataPatch { comp_types_id: None, f_blob: None, f_date: None, f_datetime: None, f_json: None, f_timestamp: None }
    }
}

impl CompTypesMetadata {
    /// The statement that counts the rows.
    pub fn count() -> (st: Statement)
        ensures
            st@.sql == "SELECT COUNT(*) FROM comp_types_metadata"@,
            st@.binds == Seq::<BindV>::empty(),
    {
        Statement::new("SELECT COUNT(*) FROM comp_types_metadata", Vec::new())
    }

    /// The statement that streams all rows.
    pub fn stream_all() -> (st: Statement)
        ensures
            st@.sql == "SELECT `comp_types_id`, `f_blob`, `f_date`, `f_datetime`, `f_json`, `f_timestamp`, `id` FROM comp_types_metadata"@,
            st@.binds == Seq::<BindV>::empty(),
    {
        Statement::new("SELECT `comp_types_id`, `f_blob`, `f_date`, `f_datetime`, `f_json`, `f_timestamp`, `id` FROM comp_types_metadata", Vec::new())
    }

    /// The statement that reads one page of rows ordered by the given
    /// `ORDER BY` text, passed on unchanged once every character of it is an
    /// ASCII letter or digit, `_`, a space, a comma, a backquote or a double
    /// quote: page `page` (counted from one; zero reads as one) of `page_size`
    /// rows.
    pub fn list_paginated(order_by: &str, page: u32, page_size: u32) -> (r: Result<Statement, String>)
        requires
            safe_order_text(order_by@)
                ==> offset_of(page, page_size) <= u32::MAX,
        ensures
            r is Ok <==> safe_order_text(order_by@),
            r matches Err(m) ==> m@ == "Invalid characters in ORDER BY. Potential SQL injection."@,
            r matches Ok(st) ==> st@.sql == paged_sql("SELECT `comp_types_id`, `f_blob`, `f_date`, `f_datetime`, `f_json`, `f_timestamp`, `id` FROM comp_types_metadata ORDER BY "@, order_by@, Placeholder::Question)
                && st@.binds == seq![
                    BindV::BigInt(Some((page_size) as i64)),
                    BindV::BigInt(Some(offset_of(page, page_size) as i64)),
                ],
    {
        if !order_text_is_safe(order_by) {
            return Err("Invalid characters in ORDER BY. Potential SQL injection.".to_owned());
        }
        let size = page_size;
        let offset = page_offset(page, size);
        Ok(Statement {
            sql: paged_text("SELECT `comp_types_id`, `f_blob`, `f_date`, `f_datetime`, `f_json`, `f_timestamp`, `id` FROM comp_types_metadata ORDER BY ", order_by, Placeholder::Question),
            binds: vec![SqlValue::BigInt(Some(size as i64)), SqlValue::BigInt(Some(offset as i64))],
        })
    }

    /// The statement that reads the row with the given key.
    pub fn get_by_id(id: i64) -> (st: Statement)
        ensures
            st@.sql == "SELECT `comp_types_id`, `f_blob`, `f_date`, `f_datetime`, `f_json`, `f_timestamp`, `id` FROM comp_types_metadata WHERE `id` = ?"@,
            st@.binds == seq![BindV::BigInt(Some(id))],
    {
        Statement::new("SELECT `comp_types_id`, `f_blob`, `f_date`, `f_datetime`, `f_json`, `f_timestamp`, `id` FROM comp_types_metadata WHERE `id` = ?", vec![SqlValue::BigInt(Some(id))])
    }

    /// The statement that tells whether a row with the given key exists.
    pub fn exists_by_id(id: i64) -> (st: Statement)
        ensures
            st@.sql == "SELECT 1 FROM comp_types_metadata WHERE `id` = ? LIMIT 1"@,
            st@.binds == seq![BindV::BigInt(Some(id))],
    {
        Statement::new("SELECT 1 FROM comp_types_metadata WHERE `id` = ? LIMIT 1", vec![SqlValue::BigInt(Some(id))])
    }

    /// The statement that lists the rows after a key in key order, at most `limit` of them.
    pub fn list_by_cursor(last_id: i64, limit: u32) -> (st: Statement)
        ensures
            st@.sql == "SELECT `comp_types_id`, `f_blob`, `f_date`, `f_datetime`, `f_json`, `f_timestamp`, `id` FROM comp_types_metadata WHERE `id` > ? ORDER BY `id` ASC LIMIT ?"@,
            st@.binds == seq![BindV::BigInt(Some(last_id)), BindV::BigInt(Some(limit as i64))],
    {
        Statement::new("SELECT `comp_types_id`, `f_blob`, `f_date`, `f_datetime`, `f_json`, `f_timestamp`, `id` FROM comp_types_metadata WHERE `id` > ? ORDER BY `id` ASC LIMIT ?", vec![SqlValue::BigInt(Some(last_id)), SqlValue::BigInt(Some(limit as i64))])
    }

    /// The value this row holds in the column named `column`, as the
    /// statements bind it; `None` for a name that is not a column.
    pub open spec fn column_value(self, column: Seq<char>) -> Option<BindV> {
        if column == "comp_types_id"@ {
            Some(BindV::BigInt(Some(self.comp_types_id)))
        } else if column == "f_blob"@ {
            Some(opt_bytes_v(self.f_blob))
        } else if column == "f_date"@ {
            Some(BindV::Date(self.f_date))
        } else if column == "f_datetime"@ {
            Some(BindV::Timestamp(self.f_datetime))
        } else if column == "f_json"@ {
            Some(opt_text_v(self.f_json))
        } else if column == "f_timestamp"@ {
            Some(BindV::Timestamp(self.f_timestamp))
        } else if column == "id"@ {
            Some(BindV::BigInt(Some(self.id)))
        } else {
            None
        }
    }

    /// The text that starts the single-row and multi-row writes, up to their
    /// `VALUES`.
    pub open spec fn insert_head() -> Seq<char> {
        "INSERT INTO comp_types_metadata (`comp_types_id`, `f_blob`, `f_date`, `f_datetime`, `f_json`, `f_timestamp`) "@
    }

    /// The single-row and multi-row writes name the columns `comp_types_id`, `f_blob`, `f_date`, `f_datetime`, `f_json`, `f_timestamp`
    /// in this order, and bind for each of them this row's value of that column.
    pub proof fn law_row_binds_named_columns(self)
        ensures
            Self::insert_head() == "INSERT INTO comp_types_metadata ("@ + "`comp_types_id`"@ + ", "@ + "`f_blob`"@ + ", "@ + "`f_date`"@ + ", "@ + "`f_datetime`"@ + ", "@ + "`f_json`"@ + ", "@ + "`f_timestamp`"@ + ") "@,
            self.row_values().len() == 6,
            self.column_value("comp_types_id"@) == Some(self.row_values()[0]),
            self.column_value("f_blob"@) == Some(self.row_values()[1]),
            self.column_value("f_date"@) == Some(self.row_values()[2]),
            self.column_value("f_datetime"@) == Some(self.row_values()[3]),
            self.column_value("f_json"@) == Some(self.row_values()[4]),
            self.column_value("f_timestamp"@) == Some(self.row_values()[5]),
    {
        reveal_strlit("comp_types_id");
        assert("comp_types_id"@.len() == 13 && "comp_types_id"@[2] == 'm');
        reveal_strlit("f_blob");
        assert("f_blob"@.len() == 6 && "f_blob"@[2] == 'b');
        reveal_strlit("f_date");
        assert("f_date"@.len() == 6 && "f_date"@[2] == 'd');
        reveal_strlit("f_datetime");
        assert("f_datetime"@.len() == 10 && "f_datetime"@[2] == 'd');
        reveal_strlit("f_json");
        assert("f_json"@.len() == 6 && "f_json"@[2] == 'j');
        reveal_strlit("f_timestamp");
        assert("f_timestamp"@.len() == 11 && "f_timestamp"@[2] == 't');
        reveal_strlit("id");
        assert("id"@.len() == 2);
        reveal_strlit("INSERT INTO comp_types_metadata (`comp_types_id`, `f_blob`, `f_date`, `f_datetime`, `f_json`, `f_timestamp`) ");
        reveal_strlit("INSERT INTO comp_types_metadata (");
        reveal_strlit("`comp_types_id`");
        reveal_strlit(", ");
        reveal_strlit("`f_blob`");
        reveal_strlit("`f_date`");
        reveal_strlit("`f_datetime`");
        reveal_strlit("`f_json`");
        reveal_strlit("`f_timestamp`");
        reveal_strlit(") ");
    }

    /// The columns the full update sets, as its text names them.
    pub open spec fn row_then_id_set_columns() -> Seq<Seq<char>> {
        seq!["`comp_types_id`"@, "`f_blob`"@, "`f_date`"@, "`f_datetime`"@, "`f_json`"@, "`f_timestamp`"@]
    }

    /// The key columns the full update selects the row by, as its text names them.
    pub open spec fn row_then_id_key_columns() -> Seq<Seq<char>> {
        seq!["`id`"@]
    }

    /// The full update binds this row's value of each column it sets
    /// (`comp_types_id`, `f_blob`, `f_date`, `f_datetime`, `f_json`, `f_timestamp`), then of each key column
    /// (`id`), in the order the statement names them.
    pub proof fn law_row_then_id_binds_named_columns(self)
        ensures
            Self::row_then_id_set_columns() == seq!["`comp_types_id`"@, "`f_blob`"@, "`f_date`"@, "`f_datetime`"@, "`f_json`"@, "`f_timestamp`"@],
            Self::row_then_id_key_columns() == seq!["`id`"@],
            self.row_then_id_values().len() == 7,
            self.column_value("comp_types_id"@) == Some(self.row_then_id_values()[0]),
            self.column_value("f_blob"@) == Some(self.row_then_id_values()[1]),
            self.column_value("f_date"@) == Some(self.row_then_id_values()[2]),
            self.column_value("f_datetime"@) == Some(self.row_then_id_values()[3]),
            self.column_value("f_json"@) == Some(self.row_then_id_values()[4]),
            self.column_value("f_timestamp"@) == Some(self.row_then_id_values()[5]),
            self.column_value("id"@) == Some(self.row_then_id_values()[6]),
    {
        reveal_strlit("comp_types_id");
        assert("comp_types_id"@.len() == 13 && "comp_types_id"@[2] == 'm');
        reveal_strlit("f_blob");
        assert("f_blob"@.len() == 6 && "f_blob"@[2] == 'b');
        reveal_strlit("f_date");
        assert("f_date"@.len() == 6 && "f_date"@[2] == 'd');
        reveal_strlit("f_datetime");
        assert("f_datetime"@.len() == 10 && "f_datetime"@[2] == 'd');
        reveal_strlit("f_json");
        assert("f_json"@.len() == 6 && "f_json"@[2] == 'j');
        reveal_strlit("f_timestamp");
        assert("f_timestamp"@.len() == 11 && "f_timestamp"@[2] == 't');
        reveal_strlit("id");
        assert("id"@.len() == 2);
    }

    /// A batch holds one row of values an item, in the order of the items.
    pub proof fn law_batch_rows_are_the_items_in_order(items: Seq<Self>)
        ensures
            Self::rows_values(items).len() == items.len(),
            forall|i: int| 0 <= i < items.len() ==> #[trigger] Self::rows_values(items)[i] == items[i].row_values(),
    {
    }

    /// What the upsert does on a key conflict, after its `VALUES`.
    pub open spec fn upsert_tail() -> Seq<char> {
        " ON DUPLICATE KEY UPDATE `comp_types_id` = VALUES(`comp_types_id`), `f_blob` = VALUES(`f_blob`), `f_date` = VALUES(`f_date`), `f_datetime` = VALUES(`f_datetime`), `f_json` = VALUES(`f_json`), `f_timestamp` = VALUES(`f_timestamp`)"@
    }

    /// On a key conflict the upsert sets each of `comp_types_id`, `f_blob`, `f_date`, `f_datetime`, `f_json`, `f_timestamp` to the
    /// value the new row brings for that same column.
    pub proof fn law_upsert_sets_each_column_from_the_new_row()
        ensures
            Self::upsert_tail() == " ON DUPLICATE KEY UPDATE "@ + values_assignment("`comp_types_id`"@) + ", "@ + values_assignment("`f_blob`"@) + ", "@ + values_assignment("`f_date`"@) + ", "@ + values_assignment("`f_datetime`"@) + ", "@ + values_assignment("`f_json`"@) + ", "@ + values_assignment("`f_timestamp`"@),
    {
        reveal_strlit(" ON DUPLICATE KEY UPDATE `comp_types_id` = VALUES(`comp_types_id`), `f_blob` = VALUES(`f_blob`), `f_date` = VALUES(`f_date`), `f_datetime` = VALUES(`f_datetime`), `f_json` = VALUES(`f_json`), `f_timestamp` = VALUES(`f_timestamp`)");
        reveal_strlit(" ON DUPLICATE KEY UPDATE ");
        reveal_strlit(", ");
        reveal_strlit(" = VALUES(");
        reveal_strlit("`comp_types_id`");
        reveal_strlit("`f_blob`");
        reveal_strlit("`f_date`");
        reveal_strlit("`f_datetime`");
        reveal_strlit("`f_json`");
        reveal_strlit("`f_timestamp`");
        reveal_strlit(")");
    }

    /// The values of this row's columns, in the order the single-row and multi-row writes bind them.
    pub open spec fn row_values(self) -> Seq<BindV> {
        seq![BindV::BigInt(Some(self.comp_types_id)), opt_bytes_v(self.f_blob), BindV::Date(self.f_date), BindV::Timestamp(self.f_datetime), opt_text_v(self.f_json), BindV::Timestamp(self.f_timestamp)]
    }

    /// The values of this row's columns, in the order the single-row and multi-row writes bind them.
    pub fn row(&self) -> (r: Vec<SqlValue>)
        ensures
            r@.map_values(|b: SqlValue| b@) == self.row_values(),
    {
        vec![SqlValue::BigInt(Some(self.comp_types_id)), SqlValue::opt_bytes(&self.f_blob), SqlValue::Date(self.f_date), SqlValue::Timestamp(self.f_datetime), SqlValue::opt_text(&self.f_json), SqlValue::Timestamp(self.f_timestamp)]
    }

    /// The statement that inserts this row.
    pub fn insert(&self) -> (st: Statement)
        ensures
            st@.sql == values_sql(Self::insert_head(), Placeholder::Question, 1, 6, ""@),
            st@.binds == self.row_values(),
    {
        Statement { sql: values_text("INSERT INTO comp_types_metadata (`comp_types_id`, `f_blob`, `f_date`, `f_datetime`, `f_json`, `f_timestamp`) ", Placeholder::Question, 1, 6, ""), binds: self.row() }
    }

    /// The values of each row, in statement order.
    pub open spec fn rows_values(items: Seq<Self>) -> Seq<Seq<BindV>> {
        items.map_values(|it: Self| it.row_values())
    }

    /// The values of each row, in statement order.
    pub fn rows(items: &[Self]) -> (r: Vec<Vec<SqlValue>>)
        ensures
            rows_view(r@) == Self::rows_values(items@),
    {
        let mut r: Vec<Vec<SqlValue>> = Vec::new();
        let mut i: usize = 0;
        while i < items.len()
            invariant
                0 <= i <= items.len(),
                rows_view(r@) == Self::rows_values(items@.take(i as int)),
            decreases items.len() - i,
        {
            let row = items[i].row();
            let ghost prev = r@;
            r.push(row);
            proof {
                assert(r@ =~= prev.push(row));
                assert(rows_view(r@) =~= rows_view(prev).push(row@.map_values(|b: SqlValue| b@)));
                assert(items@.take(i + 1) =~= items@.take(i as int).push(items@[i as int]));
                assert(Self::rows_values(items@.take(i + 1))
                    =~= Self::rows_values(items@.take(i as int)).push(items@[i as int].row_values()));
            }
            i = i + 1;
        }
        assert(items@.take(items.len() as int) =~= items@);
        r
    }

    /// The multi-row statements that write the given rows, all rows in one statement; no
    /// statement for no rows.
    pub fn insert_batch(items: &[Self]) -> (plan: Vec<Statement>)
        requires
            items@.len() * 6 < u64::MAX,
        ensures
            plan@.len() == chunks(Self::rows_values(items@), items@.len() as nat).len(),
            forall|k: int| 0 <= k < plan@.len() ==> (#[trigger] plan@[k])@ == values_piece(
                Self::insert_head(), ""@, Placeholder::Question, 6, chunks(Self::rows_values(items@), items@.len() as nat)[k]),
            items@.len() == 0 ==> plan@.len() == 0,
            items@.len() > 0 ==> plan@.len() == 1 && plan@[0]@ == (StatementV {
                sql: values_sql(Self::insert_head(), Placeholder::Question, items@.len() as nat, 6, ""@),
                binds: flatten(Self::rows_values(items@)),
            }),
    {
        if items.len() == 0 {
            return Vec::new();
        }
        let rows = Self::rows(items);
        assert(rows_view(rows@).len() == items@.len());
        assert(rows_view(rows@).len() == rows@.len());
        assert forall|j: int| 0 <= j < rows@.len() implies (#[trigger] rows_view(rows@)[j]).len() == 6 by {
            assert(Self::rows_values(items@)[j] == items@[j].row_values());
            assert(rows_view(rows@)[j] == items@[j].row_values());
        }
        proof {
            lemma_chunks(Self::rows_values(items@), items@.len() as nat);
        }
        values_plan("INSERT INTO comp_types_metadata (`comp_types_id`, `f_blob`, `f_date`, `f_datetime`, `f_json`, `f_timestamp`) ", "", Placeholder::Question, 6, items.len(), &rows)
    }

    /// The statement that inserts this row or, on a key conflict, updates it.
    pub fn upsert(&self) -> (st: Statement)
        ensures
            st@.sql == values_sql(Self::insert_head(), Placeholder::Question, 1, 6, Self::upsert_tail()),
            st@.binds == self.row_values(),
    {
        Statement { sql: values_text("INSERT INTO comp_types_metadata (`comp_types_id`, `f_blob`, `f_date`, `f_datetime`, `f_json`, `f_timestamp`) ", Placeholder::Question, 1, 6, " ON DUPLICATE KEY UPDATE `comp_types_id` = VALUES(`comp_types_id`), `f_blob` = VALUES(`f_blob`), `f_date` = VALUES(`f_date`), `f_datetime` = VALUES(`f_datetime`), `f_json` = VALUES(`f_json`), `f_timestamp` = VALUES(`f_timestamp`)"), binds: self.row() }
    }

    /// The values of this row's columns and then of its key columns, in the order the full update binds them.
    pub open spec fn row_then_id_values(self) -> Seq<BindV> {
        seq![BindV::BigInt(Some(self.comp_types_id)), opt_bytes_v(self.f_blob), BindV::Date(self.f_date), BindV::Timestamp(self.f_datetime), opt_text_v(self.f_json), BindV::Timestamp(self.f_timestamp), BindV::BigInt(Some(self.id))]
    }

    /// The values of this row's columns and then of its key columns, in the order the full update binds them.
    pub fn row_then_id(&self) -> (r: Vec<SqlValue>)
        ensures
            r@.map_values(|b: SqlValue| b@) == self.row_then_id_values(),
    {
        vec![SqlValue::BigInt(Some(self.comp_types_id)), SqlValue::opt_bytes(&self.f_blob), SqlValue::Date(self.f_date), SqlValue::Timestamp(self.f_datetime), SqlValue::opt_text(&self.f_json), SqlValue::Timestamp(self.f_timestamp), SqlValue::BigInt(Some(self.id))]
    }

    /// The statement that writes every column of this row, selected by its key.
    pub fn update_by_id(&self) -> (st: Statement)
        ensures
            st@.sql == update_sql("UPDATE comp_types_metadata SET "@, Self::row_then_id_set_columns(), Self::row_then_id_key_columns(), Placeholder::Question),
            st@.binds == self.row_then_id_values(),
    {
        let set: Vec<&str> = vec!["`comp_types_id`", "`f_blob`", "`f_date`", "`f_datetime`", "`f_json`", "`f_timestamp`"];
        let keys: Vec<&str> = vec!["`id`"];
        proof {
            assert(set@.map_values(|n: &str| n@) =~= seq!["`comp_types_id`"@, "`f_blob`"@, "`f_date`"@, "`f_datetime`"@, "`f_json`"@, "`f_timestamp`"@]);
            assert(keys@.map_values(|n: &str| n@) =~= seq!["`id`"@]);
        }
        Statement { sql: update_text("UPDATE comp_types_metadata SET ", &set, &keys, Placeholder::Question), binds: self.row_then_id() }
    }

    /// The statement that deletes the rows with the given key.
    pub fn delete_by_id(id: i64) -> (st: Statement)
        ensures
            st@.sql == "DELETE FROM comp_types_metadata WHERE `id` = ?"@,
            st@.binds == seq![BindV::BigInt(Some(id))],
    {
        Statement::new("DELETE FROM comp_types_metadata WHERE `id` = ?", vec![SqlValue::BigInt(Some(id))])
    }

    /// The statements that delete the rows with the given keys, all keys in one statement;
    /// no statement for no keys.
    pub fn delete_many_by_id(ids: &[i64]) -> (plan: Vec<Statement>)
        requires
            ids@.len() < u64::MAX,
        ensures
            plan@.len() == chunks(ids@.map_values(|x: i64| BindV::BigInt(Some(x))), ids@.len() as nat).len(),
            forall|k: int| 0 <= k < plan@.len() ==> (#[trigger] plan@[k])@ == in_list_piece(
                "DELETE FROM comp_types_metadata WHERE `id` IN "@, Placeholder::Question, chunks(ids@.map_values(|x: i64| BindV::BigInt(Some(x))), ids@.len() as nat)[k]),
    {
        if ids.len() == 0 {
            return Vec::new();
        }
        let values = values_of_i64(ids);
        in_list_plan("DELETE FROM comp_types_metadata WHERE `id` IN ", Placeholder::Question, ids.len(), &values)
    }

    /// The columns the patch sets and their values, in column order.
    fn update_partial_by_id_assignments(patch: &CompTypesMetadataPatch) -> (r: (Vec<&'static str>, Vec<SqlValue>))
        ensures
            r.0@.map_values(|n: &str| n@) == Self::update_partial_by_id_columns(*patch),
            r.1@.map_values(|b: SqlValue| b@) == Self::update_partial_by_id_values(*patch),
            r.0@.len() <= 6,
    {
        let mut set: Vec<&'static str> = Vec::new();
        let mut binds: Vec<SqlValue> = Vec::new();
        assert(set@.map_values(|n: &str| n@) =~= Seq::<Seq<char>>::empty());
        assert(binds@.map_values(|b: SqlValue| b@) =~= Seq::<BindV>::empty());
        let value = match &patch.comp_types_id {
            Some(v) => Some(SqlValue::BigInt(Some(*v))),
            None => None,
        };
        push_assignment(&mut set, &mut binds, "`comp_types_id`", value);
        let value = match &patch.f_blob {
            Some(v) => Some(SqlValue::opt_bytes(v)),
            None => None,
        };
        push_assignment(&mut set, &mut binds, "`f_blob`", value);
        let value = match &patch.f_date {
            Some(v) => Some(SqlValue::Date(*v)),
            None => None,
        };
        push_assignment(&mut set, &mut binds, "`f_date`", value);
        let value = match &patch.f_datetime {
            Some(v) => Some(SqlValue::Timestamp(*v)),
            None => None,
        };
        push_assignment(&mut set, &mut binds, "`f_datetime`", value);
        let value = match &patch.f_json {
            Some(v) => Some(SqlValue::opt_text(v)),
            None => None,
        };
        push_assignment(&mut set, &mut binds, "`f_json`", value);
        let value = match &patch.f_timestamp {
            Some(v) => Some(SqlValue::Timestamp(*v)),
            None => None,
        };
        push_assignment(&mut set, &mut binds, "`f_timestamp`", value);
        (set, binds)
    }

    /// The statement that writes only the columns the patch sets, on the row
    /// with the given key; none when the patch sets no column.
    pub fn update_partial_by_id(id: i64, patch: &CompTypesMetadataPatch) -> (r: Option<Statement>)
        ensures
            r is None <==> Self::update_partial_by_id_columns(*patch).len() == 0,
            r matches Some(st) ==> st@.sql == update_sql("UPDATE comp_types_metadata SET "@, Self::update_partial_by_id_columns(*patch), seq!["`id`"@], Placeholder::Question)
                && st@.binds == Self::update_partial_by_id_values(*patch) + seq![BindV::BigInt(Some(id))],
    {
        let (set, mut binds) = Self::update_partial_by_id_assignments(patch);
        if set.len() == 0 {
            return None;
        }
        let ghost vals = binds@.map_values(|b: SqlValue| b@);
        binds.push(SqlValue::BigInt(Some(id)));
        let keys: Vec<&str> = vec!["`id`"];
        proof {
            assert(keys@.map_values(|n: &str| n@) =~= seq!["`id`"@]);
            assert(binds@.map_values(|b: SqlValue| b@) =~= vals + seq![BindV::BigInt(Some(id))]);
        }
        Some(Statement { sql: update_text("UPDATE comp_types_metadata SET ", &set, &keys, Placeholder::Question), binds })
    }

    /// The columns a patch assigns, in column order.
    pub open spec fn update_partial_by_id_columns(p: CompTypesMetadataPatch) -> Seq<Seq<char>> {
        Seq::empty()
            + assigned_column(p.comp_types_id, "`comp_types_id`"@)
            + assigned_column(p.f_blob, "`f_blob`"@)
            + assigned_column(p.f_date, "`f_date`"@)
            + assigned_column(p.f_datetime, "`f_datetime`"@)
            + assigned_column(p.f_json, "`f_json`"@)
            + assigned_column(p.f_timestamp, "`f_timestamp`"@)
    }

    /// The values a patch assigns, in column order.
    pub open spec fn update_partial_by_id_values(p: CompTypesMetadataPatch) -> Seq<BindV> {
        Seq::empty()
            + (match p.comp_types_id { Some(v) => seq![BindV::BigInt(Some(v))], None => Seq::empty() })
            + (match p.f_blob { Some(v) => seq![opt_bytes_v(v)], None => Seq::empty() })
            + (match p.f_date { Some(v) => seq![BindV::Date(v)], None => Seq::empty() })
            + (match p.f_datetime { Some(v) => seq![BindV::Timestamp(v)], None => Seq::empty() })
            + (match p.f_json { Some(v) => seq![opt_text_v(v)], None => Seq::empty() })
            + (match p.f_timestamp { Some(v) => seq![BindV::Timestamp(v)], None => Seq::empty() })
    }

    /// A partial update binds one value for each column it assigns, so its
    /// placeholders and its values always match in number.
    pub proof fn law_update_partial_by_id_one_value_per_column(patch: CompTypesMetadataPatch)
        ensures
            Self::update_partial_by_id_columns(patch).len() == Self::update_partial_by_id_values(patch).len(),
    {
    }

    /// A patch that sets every column to the values of `row`, applied to the
    /// row's key, gives the statement that `update_by_id` gives for the row: the
    /// same text and the same values.
    pub proof fn law_full_patch_matches_update_by_id(row: Self, patch: CompTypesMetadataPatch)
        requires
            patch.comp_types_id == Some(row.comp_types_id),
            patch.f_blob == Some(row.f_blob),
            patch.f_date == Some(row.f_date),
            patch.f_datetime == Some(row.f_datetime),
            patch.f_json == Some(row.f_json),
            patch.f_timestamp == Some(row.f_timestamp),
        ensures
            update_sql("UPDATE comp_types_metadata SET "@, Self::update_partial_by_id_columns(patch), seq!["`id`"@], Placeholder::Question)
                == update_sql("UPDATE comp_types_metadata SET "@, seq!["`comp_types_id`"@, "`f_blob`"@, "`f_date`"@, "`f_datetime`"@, "`f_json`"@, "`f_timestamp`"@], seq!["`id`"@], Placeholder::Question),
            Self::update_partial_by_id_values(patch) + seq![BindV::BigInt(Some(row.id))] == row.row_then_id_values(),
    {
        assert(Self::update_partial_by_id_columns(patch) =~= seq!["`comp_types_id`"@, "`f_blob`"@, "`f_date`"@, "`f_datetime`"@, "`f_json`"@, "`f_timestamp`"@]);
        assert(Self::update_partial_by_id_values(patch) + seq![BindV::BigInt(Some(row.id))] =~= row.row_then_id_values());
    }
}

} // verus!
