//! The `order_items` table (PostgreSQL dialect, compact layout): rows, orderings, constraints and statements.
use vstd::prelude::*;
use crate::value::{SqlValue, BindV, Statement};
use crate::order::{order_allowed, order_error, check_order};
use crate::sql::{push_assignment, assigned_column, paged_sql, paged_text, Placeholder, values_sql, values_text, values_piece, values_plan, update_sql, update_text, chunks, rows_view, excluded_assignment};
use crate::paging::{page_offset, offset_of};

verus! {

/// A row of `order_items`.
#[derive(Clone, Debug)]
pub struct OrderItems {
    pub order_id: i64,
    pub product_id: i64,
    pub quantity: i32,
}

/// The columns of `order_items` to change: `None` leaves a column as it is, `Some(v)` writes `v`.
#[derive(Clone, Debug)]
pub struct OrderItemsPatch {
    pub quantity: Option<i32>,
}

impl Default for OrderItemsPatch {
    /// A patch that changes nothing.
    fn default() -> (p: Self)
        ensures
            p.quantity is None,
    {
        OrderItemsPatch { quantity: None }
    }
}

impl OrderItems {
    /// The statement that counts the rows.
    pub fn count() -> (st: Statement)
        ensures
            st@.sql == "SELECT COUNT(*) FROM order_items"@,
            st@.binds == Seq::<BindV>::empty(),
    {
        Statement::new("SELECT COUNT(*) FROM order_items", Vec::new())
    }

    /// The statement that streams all rows.
    pub fn stream_all() -> (st: Statement)
        ensures
            st@.sql == "SELECT \"order_id\", \"product_id\", \"quantity\" FROM order_items"@,
            st@.binds == Seq::<BindV>::empty(),
    {
        Statement::new("SELECT \"order_id\", \"product_id\", \"quantity\" FROM order_items", Vec::new())
    }

    /// The statement that reads one page of rows ordered by the given
    /// `ORDER BY` text, passed on unchanged once every term names one of the
    /// listed columns: page `page` (counted from one; zero reads as one) of
    /// `page_size` rows. A term whose
    /// column is not listed is refused with its column.
    pub fn list_paginated(order_by: &str, page: u32, page_size: u32) -> (r: Result<Statement, String>)
        requires
            order_allowed(order_by@, seq!["order_id"@, "product_id"@, "quantity"@], false)
                ==> offset_of(page, page_size) <= u32::MAX,
        ensures
            r is Ok <==> order_allowed(order_by@, seq!["order_id"@, "product_id"@, "quantity"@], false),
            r matches Err(m) ==> order_error(order_by@, seq!["order_id"@, "product_id"@, "quantity"@], false, m@),
            r matches Ok(st) ==> st@.sql == paged_sql("SELECT \"order_id\", \"product_id\", \"quantity\" FROM order_items ORDER BY "@, order_by@, Placeholder::Numbered)
                && st@.binds == seq![
                    BindV::BigInt(Some((page_size) as i64)),
                    BindV::BigInt(Some(offset_of(page, page_size) as i64)),
                ],
    {
        let allowed: Vec<&str> = vec!["order_id", "product_id", "quantity"];
        assert(allowed@.map_values(|a: &str| a@) =~= seq!["order_id"@, "product_id"@, "quantity"@]);
        match check_order(order_by, &allowed, false) {
            Ok(()) => {},
            Err(m) => {
                return Err(m);
            },
        }
        let size = page_size;
        let offset = page_offset(page, size);
        Ok(Statement {
            sql: paged_text("SELECT \"order_id\", \"product_id\", \"quantity\" FROM order_items ORDER BY ", order_by, Placeholder::Numbered),
            binds: vec![SqlValue::BigInt(Some(size as i64)), SqlValue::BigInt(Some(offset as i64))],
        })
    }

    /// The statement that reads the row with the given key.
    pub fn get_by_order_id_and_product_id(order_id: i64, product_id: i64) -> (st: Statement)
        ensures
            st@.sql == "SELECT \"order_id\", \"product_id\", \"quantity\" FROM order_items WHERE \"order_id\" = $1 AND \"product_id\" = $2"@,
            st@.binds == seq![BindV::BigInt(Some(order_id)), BindV::BigInt(Some(product_id))],
    {
        Statement::new("SELECT \"order_id\", \"product_id\", \"quantity\" FROM order_items WHERE \"order_id\" = $1 AND \"product_id\" = $2", vec![SqlValue::BigInt(Some(order_id)), SqlValue::BigInt(Some(product_id))])
    }

    /// The statement that tells whether a row with the given key exists.
    pub fn exists_by_order_id_and_product_id(order_id: i64, product_id: i64) -> (st: Statement)
        ensures
            st@.sql == "SELECT 1 FROM order_items WHERE \"order_id\" = $1 AND \"product_id\" = $2 LIMIT 1"@,
            st@.binds == seq![BindV::BigInt(Some(order_id)), BindV::BigInt(Some(product_id))],
    {
        Statement::new("SELECT 1 FROM order_items WHERE \"order_id\" = $1 AND \"product_id\" = $2 LIMIT 1", vec![SqlValue::BigInt(Some(order_id)), SqlValue::BigInt(Some(product_id))])
    }

    /// The value this row holds in the column named `column`, as the
    /// statements bind it; `None` for a name that is not a column.
    pub open spec fn column_value(self, column: Seq<char>) -> Option<BindV> {
        if column == "order_id"@ {
            Some(BindV::BigInt(Some(self.order_id)))
        } else if column == "product_id"@ {
            Some(BindV::BigInt(Some(self.product_id)))
        } else if column == "quantity"@ {
            Some(BindV::Int(Some(self.quantity)))
        } else {
            None
        }
    }

    /// The text that starts the single-row and multi-row writes, up to their
    /// `VALUES`.
    pub open spec fn insert_head() -> Seq<char> {
        "INSERT INTO order_items (\"order_id\", \"product_id\", \"quantity\") "@
    }

    /// The single-row and multi-row writes name the columns `order_id`, `product_id`, `quantity`
    /// in this order, and bind for each of them this row's value of that column.
    pub proof fn law_row_binds_named_columns(self)
        ensures
            Self::insert_head() == "INSERT INTO order_items ("@ + "\"order_id\""@ + ", "@ + "\"product_id\""@ + ", "@ + "\"quantity\""@ + ") "@,
            self.row_values().len() == 3,
            self.column_value("order_id"@) == Some(self.row_values()[0]),
            self.column_value("product_id"@) == Some(self.row_values()[1]),
            self.column_value("quantity"@) == Some(self.row_values()[2]),
    {
        reveal_strlit("order_id");
        assert("order_id"@.len() == 8 && "order_id"@[0] == 'o');
        reveal_strlit("product_id");
        assert("product_id"@.len() == 10 && "product_id"@[0] == 'p');
        reveal_strlit("quantity");
        assert("quantity"@.len() == 8 && "quantity"@[0] == 'q');
        reveal_strlit("INSERT INTO order_items (\"order_id\", \"product_id\", \"quantity\") ");
        reveal_strlit("INSERT INTO order_items (");
        reveal_strlit("\"order_id\"");
        reveal_strlit(", ");
        reveal_strlit("\"product_id\"");
        reveal_strlit("\"quantity\"");
        reveal_strlit(") ");
    }

    /// The columns the full update sets, as its text names them.
    pub open spec fn row_then_order_id_and_product_id_set_columns() -> Seq<Seq<char>> {
        seq!["\"quantity\""@]
    }

    /// The key columns the full update selects the row by, as its text names them.
    pub open spec fn row_then_order_id_and_product_id_key_columns() -> Seq<Seq<char>> {
        seq!["\"order_id\""@, "\"product_id\""@]
    }

    /// The full update binds this row's value of each column it sets
    /// (`quantity`), then of each key column
    /// (`order_id`, `product_id`), in the order the statement names them.
    pub proof fn law_row_then_order_id_and_product_id_binds_named_columns(self)
        ensures
            Self::row_then_order_id_and_product_id_set_columns() == seq!["\"quantity\""@],
            Self::row_then_order_id_and_product_id_key_columns() == seq!["\"order_id\""@, "\"product_id\""@],
            self.row_then_order_id_and_product_id_values().len() == 3,
            self.column_value("quantity"@) == Some(self.row_then_order_id_and_product_id_values()[0]),
            self.column_value("order_id"@) == Some(self.row_then_order_id_and_product_id_values()[1]),
            self.column_value("product_id"@) == Some(self.row_then_order_id_and_product_id_values()[2]),
    {
        reveal_strlit("order_id");
        assert("order_id"@.len() == 8 && "order_id"@[0] == 'o');
        reveal_strlit("product_id");
        assert("product_id"@.len() == 10 && "product_id"@[0] == 'p');
        reveal_strlit("quantity");
        assert("quantity"@.len() == 8 && "quantity"@[0] == 'q');
    }

    /// A batch holds one row of values an item, in the order of the items.
    pub proof fn law_batch_rows_are_the_items_in_order(items: Seq<Self>)
        ensures
            Self::rows_values(items).len() == items.len(),
            forall|i: int| 0 <= i < items.len() ==> #[trigger] Self::rows_values(items)[i] == items[i].row_values(),
    {
    }

    /// What the upsert does on a key conflict, after its `VALUES`.
    pub open spec fn upsert_tail() -> Seq<char> {
        " ON CONFLICT (\"order_id\", \"product_id\") DO UPDATE SET \"quantity\" = EXCLUDED.\"quantity\""@
    }

    /// On a key conflict the upsert sets each of `quantity` to the
    /// value the new row brings for that same column.
    pub proof fn law_upsert_sets_each_column_from_the_new_row()
        ensures
            Self::upsert_tail() == " ON CONFLICT (\"order_id\", \"product_id\") DO UPDATE SET "@ + excluded_assignment("\"quantity\""@),
    {
        reveal_strlit(" ON CONFLICT (\"order_id\", \"product_id\") DO UPDATE SET \"quantity\" = EXCLUDED.\"quantity\"");
        reveal_strlit(" ON CONFLICT (\"order_id\", \"product_id\") DO UPDATE SET ");
        reveal_strlit(", ");
        reveal_strlit(" = EXCLUDED.");
        reveal_strlit("\"quantity\"");
    }

    /// The values of this row's columns, in the order the single-row and multi-row writes bind them.
    pub open spec fn row_values(self) -> Seq<BindV> {
        seq![BindV::BigInt(Some(self.order_id)), BindV::BigInt(Some(self.product_id)), BindV::Int(Some(self.quantity))]
    }

    /// The values of this row's columns, in the order the single-row and multi-row writes bind them.
    pub fn row(&self) -> (r: Vec<SqlValue>)
        ensures
            r@.map_values(|b: SqlValue| b@) == self.row_values(),
    {
        vec![SqlValue::BigInt(Some(self.order_id)), SqlValue::BigInt(Some(self.product_id)), SqlValue::Int(Some(self.quantity))]
    }

    /// The statement that inserts this row.
    pub fn insert(&self) -> (st: Statement)
        ensures
            st@.sql == values_sql(Self::insert_head(), Placeholder::Numbered, 1, 3, ""@),
            st@.binds == self.row_values(),
    {
        Statement { sql: values_text("INSERT INTO order_items (\"order_id\", \"product_id\", \"quantity\") ", Placeholder::Numbered, 1, 3, ""), binds: self.row() }
    }

    /// The values of each row, in statement order.
    pub open spec fn rows_values(items: Seq<Self>) -> Seq<Seq<BindV>> {
        items.map_values(|it: Self| it.row_values())
    }

    /// The values of each row, in statement order.
    pub fn rows(items: &[Self]) -> (r: Vec<Vec<SqlValue>>)
        ensures
            rows_view(r@) == Self::rows_values(items@),
    {
        let mut r: Vec<Vec<SqlValue>> = Vec::new();
        let mut i: usize = 0;
        while i < items.len()
            invariant
                0 <= i <= items.len(),
                rows_view(r@) == Self::rows_values(items@.take(i as int)),
            decreases items.len() - i,
        {
            let row = items[i].row();
            let ghost prev = r@;
            r.push(row);
            proof {
                assert(r@ =~= prev.push(row));
                assert(rows_view(r@) =~= rows_view(prev).push(row@.map_values(|b: SqlValue| b@)));
                assert(items@.take(i + 1) =~= items@.take(i as int).push(items@[i as int]));
                assert(Self::rows_values(items@.take(i + 1))
                    =~= Self::rows_values(items@.take(i as int)).push(items@[i as int].row_values()));
            }
            i = i + 1;
        }
        assert(items@.take(items.len() as int) =~= items@);
        r
    }

    /// The multi-row statements that write the given rows, pieces of at most 21666 rows; no
    /// statement for no rows.
    pub fn insert_batch(items: &[Self]) -> (plan: Vec<Statement>)
        ensures
            plan@.len() == chunks(Self::rows_values(items@), 21666 as nat).len(),
            forall|k: int| 0 <= k < plan@.len() ==> (#[trigger] plan@[k])@ == values_piece(
                Self::insert_head(), ""@, Placeholder::Numbered, 3, chunks(Self::rows_values(items@), 21666 as nat)[k]),
            forall|k: int| 0 <= k < plan@.len() ==> (#[trigger] plan@[k])@.binds.len() <= 65000,
    {
        let rows = Self::rows(items);
        assert(rows_view(rows@).len() == items@.len());
        assert(rows_view(rows@).len() == rows@.len());
        assert forall|j: int| 0 <= j < rows@.len() implies (#[trigger] rows_view(rows@)[j]).len() == 3 by {
            assert(Self::rows_values(items@)[j] == items@[j].row_values());
            assert(rows_view(rows@)[j] == items@[j].row_values());
        }
        values_plan("INSERT INTO order_items (\"order_id\", \"product_id\", \"quantity\") ", "", Placeholder::Numbered, 3, 21666, &rows)
    }

    /// The statement that inserts this row or, on a key conflict, updates it.
    pub fn upsert(&self) -> (st: Statement)
        ensures
            st@.sql == values_sql(Self::insert_head(), Placeholder::Numbered, 1, 3, Self::upsert_tail()),
            st@.binds == self.row_values(),
    {
        Statement { sql: values_text("INSERT INTO order_items (\"order_id\", \"product_id\", \"quantity\") ", Placeholder::Numbered, 1, 3, " ON CONFLICT (\"order_id\", \"product_id\") DO UPDATE SET \"quantity\" = EXCLUDED.\"quantity\""), binds: self.row() }
    }

    /// The multi-row statements that write the given rows, pieces of at most 21666 rows; no
    /// statement for no rows.
    pub fn upsert_batch(items: &[Self]) -> (plan: Vec<Statement>)
        ensures
            plan@.len() == chunks(Self::rows_values(items@), 21666 as nat).len(),
            forall|k: int| 0 <= k < plan@.len() ==> (#[trigger] plan@[k])@ == values_piece(
                Self::insert_head(), Self::upsert_tail(), Placeholder::Numbered, 3, chunks(Self::rows_values(items@), 21666 as nat)[k]),
            forall|k: int| 0 <= k < plan@.len() ==> (#[trigger] plan@[k])@.binds.len() <= 65000,
    {
        let rows = Self::rows(items);
        assert(rows_view(rows@).len() == items@.len());
        assert(rows_view(rows@).len() == rows@.len());
        assert forall|j: int| 0 <= j < rows@.len() implies (#[trigger] rows_view(rows@)[j]).len() == 3 by {
            assert(Self::rows_values(items@)[j] == items@[j].row_values());
            assert(rows_view(rows@)[j] == items@[j].row_values());
        }
        values_plan("INSERT INTO order_items (\"order_id\", \"product_id\", \"quantity\") ", " ON CONFLICT (\"order_id\", \"product_id\") DO UPDATE SET \"quantity\" = EXCLUDED.\"quantity\"", Placeholder::Numbered, 3, 21666, &rows)
    }

    /// The values of this row's columns and then of its key columns, in the order the full update binds them.
    pub open spec fn row_then_order_id_and_product_id_values(self) -> Seq<BindV> {
        seq![BindV::Int(Some(self.quantity)), BindV::BigInt(Some(self.order_id)), BindV::BigInt(Some(self.product_id))]
    }

    /// The values of this row's columns and then of its key columns, in the order the full update binds them.
    pub fn row_then_order_id_and_product_id(&self) -> (r: Vec<SqlValue>)
        ensures
            r@.map_values(|b: SqlValue| b@) == self.row_then_order_id_and_product_id_values(),
    {
        vec![SqlValue::Int(Some(self.quantity)), SqlValue::BigInt(Some(self.order_id)), SqlValue::BigInt(Some(self.product_id))]
    }

    /// The statement that writes every column of this row, selected by its key.
    pub fn update_by_order_id_and_product_id(&self) -> (st: Statement)
        ensures
            st@.sql == update_sql("UPDATE order_items SET "@, Self::row_then_order_id_and_product_id_set_columns(), Self::row_then_order_id_and_product_id_key_columns(), Placeholder::Numbered),
            st@.binds == self.row_then_order_id_and_product_id_values(),
    {
        let set: Vec<&str> = vec!["\"quantity\""];
        let keys: Vec<&str> = vec!["\"order_id\"", "\"product_id\""];
        proof {
            assert(set@.map_values(|n: &str| n@) =~= seq!["\"quantity\""@]);
            assert(keys@.map_values(|n: &str| n@) =~= seq!["\"order_id\""@, "\"product_id\""@]);
        }
        Statement { sql: update_text("UPDATE order_items SET ", &set, &keys, Placeholder::Numbered), binds: self.row_then_order_id_and_product_id() }
    }

    /// The statement that deletes the rows with the given key.
    pub fn delete_by_order_id_and_product_id(order_id: i64, product_id: i64) -> (st: Statement)
        ensures
            st@.sql == "DELETE FROM order_items WHERE \"order_id\" = $1 AND \"product_id\" = $2"@,
            st@.binds == seq![BindV::BigInt(Some(order_id)), BindV::BigInt(Some(product_id))],
    {
        Statement::new("DELETE FROM order_items WHERE \"order_id\" = $1 AND \"product_id\" = $2", vec![SqlValue::BigInt(Some(order_id)), SqlValue::BigInt(Some(product_id))])
    }

    /// The columns the patch sets and their values, in column order.
    fn update_partial_by_order_id_and_product_id_assignments(patch: &OrderItemsPatch) -> (r: (Vec<&'static str>, Vec<SqlValue>))
        ensures
            r.0@.map_values(|n: &str| n@) == Self::update_partial_by_order_id_and_product_id_columns(*patch),
            r.1@.map_values(|b: SqlValue| b@) == Self::update_partial_by_order_id_and_product_id_values(*patch),
            r.0@.len() <= 1,
    {
        let mut set: Vec<&'static str> = Vec::new();
        let mut binds: Vec<SqlValue> = Vec::new();
        assert(set@.map_values(|n: &str| n@) =~= Seq::<Seq<char>>::empty());
        assert(binds@.map_values(|b: SqlValue| b@) =~= Seq::<BindV>::empty());
        let value = match &patch.quantity {
            Some(v) => Some(SqlValue::Int(Some(*v))),
            None => None,
        };
        push_assignment(&mut set, &mut binds, "\"quantity\"", value);
        (set, binds)
    }

    /// The statement that writes only the columns the patch sets, on the row
    /// with the given key; none when the patch sets no column.
    pub fn update_partial_by_order_id_and_product_id(order_id: i64, product_id: i64, patch: &OrderItemsPatch) -> (r: Option<Statement>)
        ensures
            r is None <==> Self::update_partial_by_order_id_and_product_id_columns(*patch).len() == 0,
            r matches Some(st) ==> st@.sql == update_sql("UPDATE order_items SET "@, Self::update_partial_by_order_id_and_product_id_columns(*patch), seq!["\"order_id\""@, "\"product_id\""@], Placeholder::Numbered)
                && st@.binds == Self::update_partial_by_order_id_and_product_id_values(*patch) + seq![BindV::BigInt(Some(order_id)), BindV::BigInt(Some(product_id))],
    {
        let (set, mut binds) = Self::update_partial_by_order_id_and_product_id_assignments(patch);
        if set.len() == 0 {
            return None;
        }
        let ghost vals = binds@.map_values(|b: SqlValue| b@);
        binds.push(SqlValue::BigInt(Some(order_id)));
        binds.push(SqlValue::BigInt(Some(product_id)));
        let keys: Vec<&str> = vec!["\"order_id\"", "\"product_id\""];
        proof {
            assert(keys@.map_values(|n: &str| n@) =~= seq!["\"order_id\""@, "\"product_id\""@]);
            assert(binds@.map_values(|b: SqlValue| b@) =~= vals + seq![BindV::BigInt(Some(order_id)), BindV::BigInt(Some(product_id))]);
        }
        Some(Statement { sql: update_text("UPDATE order_items SET ", &set, &keys, Placeholder::Numbered), binds })
    }

    /// The columns a patch assigns, in column order.
    pub open spec fn update_partial_by_order_id_and_product_id_columns(p: OrderItemsPatch) -> Seq<Seq<char>> {
        Seq::empty()
            + assigned_column(p.quantity, "\"quantity\""@)
    }

    /// The values a patch assigns, in column order.
    pub open spec fn update_partial_by_order_id_and_product_id_values(p: OrderItemsPatch) -> Seq<BindV> {
        Seq::empty()
            + (match p.quantity { Some(v) => seq![BindV::Int(Some(v))], None => Seq::empty() })
    }

    /// A partial update binds one value for each column it assigns, so its
    /// placeholders and its values always match in number.
    pub proof fn law_update_partial_by_order_id_and_product_id_one_value_per_column(patch: OrderItemsPatch)
        ensures
            Self::update_partial_by_order_id_and_product_id_columns(patch).len() == Self::update_partial_by_order_id_and_product_id_values(patch).len(),
    {
    }

    /// A patch that sets every column to the values of `row`, applied to the
    /// row's key, gives the statement that `update_by_order_id_and_product_id` gives for the row: the
    /// same text and the same values.
    pub proof fn law_full_patch_matches_update_by_order_id_and_product_id(row: Self, patch: OrderItemsPatch)
        requires
            patch.quantity == Some(row.quantity),
        ensures
            update_sql("UPDATE order_items SET "@, Self::update_partial_by_order_id_and_product_id_columns(patch), seq!["\"order_id\""@, "\"product_id\""@], Placeholder::Numbered)
                == update_sql("UPDATE order_items SET "@, seq!["\"quantity\""@], seq!["\"order_id\""@, "\"product_id\""@], Placeholder::Numbered),
            Self::update_partial_by_order_id_and_product_id_values(patch) + seq![BindV::BigInt(Some(row.order_id)), BindV::BigInt(Some(row.product_id))] == row.row_then_order_id_and_product_id_values(),
    {
        assert(Self::update_partial_by_order_id_and_product_id_columns(patch) =~= seq!["\"quantity\""@]);
        assert(Self::update_partial_by_order_id_and_product_id_values(patch) + seq![BindV::BigInt(Some(row.order_id)), BindV::BigInt(Some(row.product_id))] =~= row.row_then_order_id_and_product_id_values());
    }
}

} // verus!
