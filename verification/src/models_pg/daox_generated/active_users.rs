//! The `active_users` table (PostgreSQL dialect, compact layout): rows, orderings, constraints and statements.
use vstd::prelude::*;
use crate::value::{SqlValue, BindV, Statement, text_v, opt_text_v};
use crate::order::{order_allowed, order_error, check_order};
use crate::sql::{paged_sql, paged_text, Placeholder, values_sql, values_text, values_piece, values_plan, chunks, rows_view};
use crate::paging::{page_offset, offset_of};

verus! {

/// A row of `active_users`.
#[derive(Clone, Debug)]
pub struct ActiveUsers {
    pub email: String,
    pub first_name: Option<String>,
    pub id: i64,
    pub last_name: String,
}

impl ActiveUsers {
    /// The statement that counts the rows.
    pub fn count() -> (st: Statement)
        ensures
            st@.sql == "SELECT COUNT(*) FROM active_users"@,
            st@.binds == Seq::<BindV>::empty(),
    {
        Statement::new("SELECT COUNT(*) FROM active_users", Vec::new())
    }

    /// The statement that streams all rows.
    pub fn stream_all() -> (st: Statement)
        ensures
            st@.sql == "SELECT \"email\", \"first_name\", \"id\", \"last_name\" FROM active_users"@,
            st@.binds == Seq::<BindV>::empty(),
    {
        Statement::new("SELECT \"email\", \"first_name\", \"id\", \"last_name\" FROM active_users", Vec::new())
    }

    /// The statement that reads one page of rows ordered by the given
    /// `ORDER BY` text, passed on unchanged once every term names one of the
    /// listed columns: page `page` (counted from one; zero reads as one) of
    /// `page_size` rows. A term whose
    /// column is not listed is refused with its column.
    pub fn list_paginated(order_by: &str, page: u32, page_size: u32) -> (r: Result<Statement, String>)
        requires
            order_allowed(order_by@, seq!["email"@, "first_name"@, "id"@, "last_name"@], false)
                ==> offset_of(page, page_size) <= u32::MAX,
        ensures
            r is Ok <==> order_allowed(order_by@, seq!["email"@, "first_name"@, "id"@, "last_name"@], false),
            r matches Err(m) ==> order_error(order_by@, seq!["email"@, "first_name"@, "id"@, "last_name"@], false, m@),
            r matches Ok(st) ==> st@.sql == paged_sql("SELECT \"email\", \"first_name\", \"id\", \"last_name\" FROM active_users ORDER BY "@, order_by@, Placeholder::Numbered)
                && st@.binds == seq![
                    BindV::BigInt(Some((page_size) as i64)),
                    BindV::BigInt(Some(offset_of(page, page_size) as i64)),
                ],
    {
        let allowed: Vec<&str> = vec!["email", "first_name", "id", "last_name"];
        assert(allowed@.map_values(|a: &str| a@) =~= seq!["email"@, "first_name"@, "id"@, "last_name"@]);
        match check_order(order_by, &allowed, false) {
            Ok(()) => {},
            Err(m) => {
                return Err(m);
            },
        }
        let size = page_size;
        let offset = page_offset(page, size);
        Ok(Statement {
            sql: paged_text("SELECT \"email\", \"first_name\", \"id\", \"last_name\" FROM active_users ORDER BY ", order_by, Placeholder::Numbered),
            binds: vec![SqlValue::BigInt(Some(size as i64)), SqlValue::BigInt(Some(offset as i64))],
        })
    }

    /// The value this row holds in the column named `column`, as the
    /// statements bind it; `None` for a name that is not a column.
    pub open spec fn column_value(self, column: Seq<char>) -> Option<BindV> {
        if column == "email"@ {
            Some(text_v(self.email))
        } else if column == "first_name"@ {
            Some(opt_text_v(self.first_name))
        } else if column == "id"@ {
            Some(BindV::BigInt(Some(self.id)))
        } else if column == "last_name"@ {
            Some(text_v(self.last_name))
        } else {
            None
        }
    }

    /// The text that starts the single-row and multi-row writes, up to their
    /// `VALUES`.
    pub open spec fn insert_head() -> Seq<char> {
        "INSERT INTO active_users (\"email\", \"first_name\", \"id\", \"last_name\") "@
    }

    /// The single-row and multi-row writes name the columns `email`, `first_name`, `id`, `last_name`
    /// in this order, and bind for each of them this row's value of that column.
    pub proof fn law_row_binds_named_columns(self)
        ensures
            Self::insert_head() == "INSERT INTO active_users ("@ + "\"email\""@ + ", "@ + "\"first_name\""@ + ", "@ + "\"id\""@ + ", "@ + "\"last_name\""@ + ") "@,
            self.row_values().len() == 4,
            self.column_value("email"@) == Some(self.row_values()[0]),
            self.column_value("first_name"@) == Some(self.row_values()[1]),
            self.column_value("id"@) == Some(self.row_values()[2]),
            self.column_value("last_name"@) == Some(self.row_values()[3]),
    {
        reveal_strlit("email");
        assert("email"@.len() == 5);
        reveal_strlit("first_name");
        assert("first_name"@.len() == 10);
        reveal_strlit("id");
        assert("id"@.len() == 2);
        reveal_strlit("last_name");
        assert("last_name"@.len() == 9);
        reveal_strlit("INSERT INTO active_users (\"email\", \"first_name\", \"id\", \"last_name\") ");
        reveal_strlit("INSERT INTO active_users (");
        reveal_strlit("\"email\"");
        reveal_strlit(", ");
        reveal_strlit("\"first_name\"");
        reveal_strlit("\"id\"");
        reveal_strlit("\"last_name\"");
        reveal_strlit(") ");
    }

    /// A batch holds one row of values an item, in the order of the items.
    pub proof fn law_batch_rows_are_the_items_in_order(items: Seq<Self>)
        ensures
            Self::rows_values(items).len() == items.len(),
            forall|i: int| 0 <= i < items.len() ==> #[trigger] Self::rows_values(items)[i] == items[i].row_values(),
    {
    }

    /// The values of this row's columns, in the order the single-row and multi-row writes bind them.
    pub open spec fn row_values(self) -> Seq<BindV> {
        seq![text_v(self.email), opt_text_v(self.first_name), BindV::BigInt(Some(self.id)), text_v(self.last_name)]
    }

    /// The values of this row's columns, in the order the single-row and multi-row writes bind them.
    pub fn row(&self) -> (r: Vec<SqlValue>)
        ensures
            r@.map_values(|b: SqlValue| b@) == self.row_values(),
    {
        vec![SqlValue::text(&self.email), SqlValue::opt_text(&self.first_name), SqlValue::BigInt(Some(self.id)), SqlValue::text(&self.last_name)]
    }

    /// The statement that inserts this row.
    pub fn insert(&self) -> (st: Statement)
        ensures
            st@.sql == values_sql(Self::insert_head(), Placeholder::Numbered, 1, 4, ""@),
            st@.binds == self.row_values(),
    {
        Statement { sql: values_text("INSERT INTO active_users (\"email\", \"first_name\", \"id\", \"last_name\") ", Placeholder::Numbered, 1, 4, ""), binds: self.row() }
    }

    /// The values of each row, in statement order.
    pub open spec fn rows_values(items: Seq<Self>) -> Seq<Seq<BindV>> {
        items.map_values(|it: Self| it.row_values())
    }

    /// The values of each row, in statement order.
    pub fn rows(items: &[Self]) -> (r: Vec<Vec<SqlValue>>)
        ensures
            rows_view(r@) == Self::rows_values(items@),
    {
        let mut r: Vec<Vec<SqlValue>> = Vec::new();
        let mut i: usize = 0;
        while i < items.len()
            invariant
                0 <= i <= items.len(),
                rows_view(r@) == Self::rows_values(items@.take(i as int)),
            decreases items.len() - i,
        {
            let row = items[i].row();
            let ghost prev = r@;
            r.push(row);
            proof {
                assert(r@ =~= prev.push(row));
                assert(rows_view(r@) =~= rows_view(prev).push(row@.map_values(|b: SqlValue| b@)));
                assert(items@.take(i + 1) =~= items@.take(i as int).push(items@[i as int]));
                assert(Self::rows_values(items@.take(i + 1))
                    =~= Self::rows_values(items@.take(i as int)).push(items@[i as int].row_values()));
            }
            i = i + 1;
        }
        assert(items@.take(items.len() as int) =~= items@);
        r
    }

    /// The multi-row statements that write the given rows, pieces of at most 16250 rows; no
    /// statement for no rows.
    pub fn insert_batch(items: &[Self]) -> (plan: Vec<Statement>)
        ensures
            plan@.len() == chunks(Self::rows_values(items@), 16250 as nat).len(),
            forall|k: int| 0 <= k < plan@.len() ==> (#[trigger] plan@[k])@ == values_piece(
                Self::insert_head(), ""@, Placeholder::Numbered, 4, chunks(Self::rows_values(items@), 16250 as nat)[k]),
            forall|k: int| 0 <= k < plan@.len() ==> (#[trigger] plan@[k])@.binds.len() <= 65000,
    {
        let rows = Self::rows(items);
        assert(rows_view(rows@).len() == items@.len());
        assert(rows_view(rows@).len() == rows@.len());
        assert forall|j: int| 0 <= j < rows@.len() implies (#[trigger] rows_view(rows@)[j]).len() == 4 by {
            assert(Self::rows_values(items@)[j] == items@[j].row_values());
            assert(rows_view(rows@)[j] == items@[j].row_values());
        }
        values_plan("INSERT INTO active_users (\"email\", \"first_name\", \"id\", \"last_name\") ", "", Placeholder::Numbered, 4, 16250, &rows)
    }
}

} // verus!
