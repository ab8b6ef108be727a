//! The `order_items` table (MySQL dialect): rows, orderings, constraints and statements.
use vstd::prelude::*;
use crate::value::{SqlValue, BindV, Statement};
use crate::sql::{push_assignment, assigned_column, Placeholder, values_sql, values_text, values_piece, values_plan, update_sql, update_text, chunks, rows_view, values_assignment};
use crate::validation::{error_if, errors_view, check_min, check_max, outcome, joined_errors, validation_result, lemma_contains_concat, lemma_error_if_reports, lemma_format_error_reports, regex_match};
use crate::paging::{row_limit, clamp};
use crate::text::join;

verus! {

/// A row of `order_items`.
#[derive(Clone, Debug)]
pub struct OrderItems {
    pub order_id: i64,
    pub product_id: i64,
    pub quantity: i32,
}

/// The columns of `order_items` to change: `None` leaves a column as it is, `Some(v)` writes `v`.
#[derive(Clone, Debug)]
pub struct OrderItemsPatch {
    pub quantity: Option<i32>,
}

impl Default for OrderItemsPatch {
    /// A patch that changes nothing.
    fn default() -> (p: Self)
        ensures
            p.quantity is None,
    {
        OrderItemsPatch { quantity: None }
    }
}

/// A column and a direction to order listings by.
#[derive(Clone, Copy, Debug, PartialEq, Eq, Structural)]
pub enum OrderItemsOrderBy {
    OrderIdAsc,
    OrderIdDesc,
    ProductIdAsc,
    ProductIdDesc,
    QuantityAsc,
    QuantityDesc,
}

impl OrderItemsOrderBy {
    /// The `ORDER BY` term of this ordering.
    pub open spec fn term(self) -> Seq<char> {
        match self {
            OrderItemsOrderBy::OrderIdAsc => "`order_id` ASC"@,
            OrderItemsOrderBy::OrderIdDesc => "`order_id` DESC"@,
            OrderItemsOrderBy::ProductIdAsc => "`product_id` ASC"@,
            OrderItemsOrderBy::ProductIdDesc => "`product_id` DESC"@,
            OrderItemsOrderBy::QuantityAsc => "`quantity` ASC"@,
            OrderItemsOrderBy::QuantityDesc => "`quantity` DESC"@,
        }
    }

    /// An ordering sorts by the column its name says, ascending for an
    /// `...Asc` ordering and descending for a `...Desc` one: its term is that
    /// column, then `ASC` or `DESC`.
    pub proof fn law_term_names_column_and_direction(self)
        ensures
            (self is OrderIdAsc || self is OrderIdDesc) ==> self.term() == "`order_id`"@ + (if self is OrderIdDesc { " DESC"@ } else { " ASC"@ }),
            (self is ProductIdAsc || self is ProductIdDesc) ==> self.term() == "`product_id`"@ + (if self is ProductIdDesc { " DESC"@ } else { " ASC"@ }),
            (self is QuantityAsc || self is QuantityDesc) ==> self.term() == "`quantity`"@ + (if self is QuantityDesc { " DESC"@ } else { " ASC"@ }),
    {
        reveal_strlit("`order_id` ASC");
        reveal_strlit("order_id");
        reveal_strlit("`order_id` DESC");
        reveal_strlit("`product_id` ASC");
        reveal_strlit("product_id");
        reveal_strlit("`product_id` DESC");
        reveal_strlit("`quantity` ASC");
        reveal_strlit("quantity");
        reveal_strlit("`quantity` DESC");
        reveal_strlit("`order_id`");
        reveal_strlit("`product_id`");
        reveal_strlit("`quantity`");
        reveal_strlit(" ASC");
        reveal_strlit(" DESC");
    }

    /// The `ORDER BY` term of this ordering.
    pub fn as_str(&self) -> (s: &'static str)
        ensures
            s@ == self.term(),
    {
        match self {
            OrderItemsOrderBy::OrderIdAsc => "`order_id` ASC",
            OrderItemsOrderBy::OrderIdDesc => "`order_id` DESC",
            OrderItemsOrderBy::ProductIdAsc => "`product_id` ASC",
            OrderItemsOrderBy::ProductIdDesc => "`product_id` DESC",
            OrderItemsOrderBy::QuantityAsc => "`quantity` ASC",
            OrderItemsOrderBy::QuantityDesc => "`quantity` DESC",
        }
    }

    /// Different orderings have different terms: a term names one column and
    /// one direction.
    pub proof fn law_terms_are_distinct(a: Self, b: Self)
        ensures
            a.term() == b.term() ==> a == b,
    {
        reveal_strlit("`order_id` ASC");
        assert("`order_id` ASC"@.len() == 14 && "`order_id` ASC"@[1] == 'o');
        reveal_strlit("`order_id` DESC");
        assert("`order_id` DESC"@.len() == 15 && "`order_id` DESC"@[1] == 'o');
        reveal_strlit("`product_id` ASC");
        assert("`product_id` ASC"@.len() == 16 && "`product_id` ASC"@[1] == 'p');
        reveal_strlit("`product_id` DESC");
        assert("`product_id` DESC"@.len() == 17 && "`product_id` DESC"@[1] == 'p');
        reveal_strlit("`quantity` ASC");
        assert("`quantity` ASC"@.len() == 14 && "`quantity` ASC"@[1] == 'q');
        reveal_strlit("`quantity` DESC");
        assert("`quantity` DESC"@.len() == 15 && "`quantity` DESC"@[1] == 'q');
    }
}


impl OrderItems {
    /// The constraint violations of this row, in the order the checks run.
    pub open spec fn validation_errors(self) -> Seq<Seq<char>> {
        Seq::empty()
            + error_if((self.order_id as int) < 0, "order_id: minimum value '0' not met"@)
            + error_if((self.order_id as int) > 9223372036854775807, "order_id: maximum value '9223372036854775807' exceeded"@)
            + error_if((self.product_id as int) < 0, "product_id: minimum value '0' not met"@)
            + error_if((self.product_id as int) > 9223372036854775807, "product_id: maximum value '9223372036854775807' exceeded"@)
            + error_if((self.quantity as int) < 0, "quantity: minimum value '0' not met"@)
            + error_if((self.quantity as int) > 2147483647, "quantity: maximum value '2147483647' exceeded"@)
    }

    /// The constraints of `order_id` are checked: a value that breaks one gets
    /// that constraint's message.
    pub proof fn law_order_id_constraints_are_reported(self)
        ensures
            ((self.order_id as int) < 0) ==> self.validation_errors().contains("order_id: minimum value '0' not met"@),
            ((self.order_id as int) > 9223372036854775807) ==> self.validation_errors().contains("order_id: maximum value '9223372036854775807' exceeded"@),
    {
        assert(((self.order_id as int) < 0) ==> self.validation_errors().contains("order_id: minimum value '0' not met"@)) by {
            broadcast use lemma_contains_concat;
            lemma_error_if_reports((self.order_id as int) < 0, "order_id: minimum value '0' not met"@);
        }
        assert(((self.order_id as int) > 9223372036854775807) ==> self.validation_errors().contains("order_id: maximum value '9223372036854775807' exceeded"@)) by {
            broadcast use lemma_contains_concat;
            lemma_error_if_reports((self.order_id as int) > 9223372036854775807, "order_id: maximum value '9223372036854775807' exceeded"@);
        }
    }

    /// The constraints of `product_id` are checked: a value that breaks one gets
    /// that constraint's message.
    pub proof fn law_product_id_constraints_are_reported(self)
        ensures
            ((self.product_id as int) < 0) ==> self.validation_errors().contains("product_id: minimum value '0' not met"@),
            ((self.product_id as int) > 9223372036854775807) ==> self.validation_errors().contains("product_id: maximum value '9223372036854775807' exceeded"@),
    {
        assert(((self.product_id as int) < 0) ==> self.validation_errors().contains("product_id: minimum value '0' not met"@)) by {
            broadcast use lemma_contains_concat;
            lemma_error_if_reports((self.product_id as int) < 0, "product_id: minimum value '0' not met"@);
        }
        assert(((self.product_id as int) > 9223372036854775807) ==> self.validation_errors().contains("product_id: maximum value '9223372036854775807' exceeded"@)) by {
            broadcast use lemma_contains_concat;
            lemma_error_if_reports((self.product_id as int) > 9223372036854775807, "product_id: maximum value '9223372036854775807' exceeded"@);
        }
    }

    /// The constraints of `quantity` are checked: a value that breaks one gets
    /// that constraint's message.
    pub proof fn law_quantity_constraints_are_reported(self)
        ensures
            ((self.quantity as int) < 0) ==> self.validation_errors().contains("quantity: minimum value '0' not met"@),
            ((self.quantity as int) > 2147483647) ==> self.validation_errors().contains("quantity: maximum value '2147483647' exceeded"@),
    {
        assert(((self.quantity as int) < 0) ==> self.validation_errors().contains("quantity: minimum value '0' not met"@)) by {
            broadcast use lemma_contains_concat;
            lemma_error_if_reports((self.quantity as int) < 0, "quantity: minimum value '0' not met"@);
        }
        assert(((self.quantity as int) > 2147483647) ==> self.validation_errors().contains("quantity: maximum value '2147483647' exceeded"@)) by {
            broadcast use lemma_contains_concat;
            lemma_error_if_reports((self.quantity as int) > 2147483647, "quantity: maximum value '2147483647' exceeded"@);
        }
    }

    /// A row that breaks none of the constraints gets no message at all.
    pub proof fn law_row_within_constraints_gets_no_message(self)
        ensures
            ((!((self.order_id as int) < 0))
                && (!((self.order_id as int) > 9223372036854775807))
                && (!((self.product_id as int) < 0))
                && (!((self.product_id as int) > 9223372036854775807))
                && (!((self.quantity as int) < 0))
                && (!((self.quantity as int) > 2147483647)))
                ==> self.validation_errors() == Seq::<Seq<char>>::empty(),
    {
        if (!((self.order_id as int) < 0))
            && (!((self.order_id as int) > 9223372036854775807))
            && (!((self.product_id as int) < 0))
            && (!((self.product_id as int) > 9223372036854775807))
            && (!((self.quantity as int) < 0))
            && (!((self.quantity as int) > 2147483647)) {
            lemma_error_if_reports((self.order_id as int) < 0, "order_id: minimum value '0' not met"@);
            lemma_error_if_reports((self.order_id as int) > 9223372036854775807, "order_id: maximum value '9223372036854775807' exceeded"@);
            lemma_error_if_reports((self.product_id as int) < 0, "product_id: minimum value '0' not met"@);
            lemma_error_if_reports((self.product_id as int) > 9223372036854775807, "product_id: maximum value '9223372036854775807' exceeded"@);
            lemma_error_if_reports((self.quantity as int) < 0, "quantity: minimum value '0' not met"@);
            lemma_error_if_reports((self.quantity as int) > 2147483647, "quantity: maximum value '2147483647' exceeded"@);
        }
    }

    fn collect_errors(&self) -> (errors: Vec<String>)
        ensures
            errors_view(errors@) == self.validation_errors(),
    {
        let mut errors: Vec<String> = Vec::new();
        check_min(&mut errors, self.order_id as i128, 0, "order_id: minimum value '0' not met");
        check_max(&mut errors, self.order_id as i128, 9223372036854775807, "order_id: maximum value '9223372036854775807' exceeded");
        check_min(&mut errors, self.product_id as i128, 0, "product_id: minimum value '0' not met");
        check_max(&mut errors, self.product_id as i128, 9223372036854775807, "product_id: maximum value '9223372036854775807' exceeded");
        check_min(&mut errors, self.quantity as i128, 0, "quantity: minimum value '0' not met");
        check_max(&mut errors, self.quantity as i128, 2147483647, "quantity: maximum value '2147483647' exceeded");
        errors
    }

    /// Checks the constraints of the columns (lengths, ranges, allowed values,
    /// finite numbers and formats): `Ok` when all hold, the messages of those
    /// that fail otherwise, in the order the checks run.
    pub fn validate(&self) -> (r: Result<(), Vec<String>>)
        ensures
            validation_result(r, self.validation_errors()),
    {
        outcome(self.collect_errors())
    }

    /// The statement that counts the rows.
    pub fn count() -> (st: Statement)
        ensures
            st@.sql == "SELECT COUNT(*) FROM `order_items`"@,
            st@.binds == Seq::<BindV>::empty(),
    {
        Statement::new("SELECT COUNT(*) FROM `order_items`", Vec::new())
    }

    /// The statement that reads the row-count estimate from the database statistics.
    pub fn approximate_count() -> (st: Statement)
        ensures
            st@.sql == "SELECT table_rows FROM information_schema.tables WHERE table_name = 'order_items' AND table_schema = DATABASE()"@,
            st@.binds == Seq::<BindV>::empty(),
    {
        Statement::new("SELECT table_rows FROM information_schema.tables WHERE table_name = 'order_items' AND table_schema = DATABASE()", Vec::new())
    }

    /// The statement that streams the rows in key order, at most `limit` of them (brought into `1..=10000`).
    pub fn stream_all(limit: i64) -> (st: Statement)
        ensures
            st@.sql == "SELECT `order_id`, `product_id`, `quantity` FROM `order_items` ORDER BY `order_id` ASC, `product_id` ASC LIMIT ?"@,
            st@.binds == seq![BindV::BigInt(Some(clamp(limit as int, 1, 10000) as i64))],
    {
        Statement::new("SELECT `order_id`, `product_id`, `quantity` FROM `order_items` ORDER BY `order_id` ASC, `product_id` ASC LIMIT ?", vec![SqlValue::BigInt(Some(row_limit(limit)))])
    }

    /// The statement that reads the row with the given key.
    pub fn get_by_order_id_and_product_id(order_id: i64, product_id: i64) -> (st: Statement)
        ensures
            st@.sql == "SELECT `order_id`, `product_id`, `quantity` FROM `order_items` WHERE `order_id` = ? AND `product_id` = ?"@,
            st@.binds == seq![BindV::BigInt(Some(order_id)), BindV::BigInt(Some(product_id))],
    {
        Statement::new("SELECT `order_id`, `product_id`, `quantity` FROM `order_items` WHERE `order_id` = ? AND `product_id` = ?", vec![SqlValue::BigInt(Some(order_id)), SqlValue::BigInt(Some(product_id))])
    }

    /// The statement that tells whether a row with the given key exists.
    pub fn exists_by_order_id_and_product_id(order_id: i64, product_id: i64) -> (st: Statement)
        ensures
            st@.sql == "SELECT 1 FROM `order_items` WHERE `order_id` = ? AND `product_id` = ? LIMIT 1"@,
            st@.binds == seq![BindV::BigInt(Some(order_id)), BindV::BigInt(Some(product_id))],
    {
        Statement::new("SELECT 1 FROM `order_items` WHERE `order_id` = ? AND `product_id` = ? LIMIT 1", vec![SqlValue::BigInt(Some(order_id)), SqlValue::BigInt(Some(product_id))])
    }

    /// The value this row holds in the column named `column`, as the
    /// statements bind it; `None` for a name that is not a column.
    pub open spec fn column_value(self, column: Seq<char>) -> Option<BindV> {
        if column == "order_id"@ {
            Some(BindV::BigInt(Some(self.order_id)))
        } else if column == "product_id"@ {
            Some(BindV::BigInt(Some(self.product_id)))
        } else if column == "quantity"@ {
            Some(BindV::Int(Some(self.quantity)))
        } else {
            None
        }
    }

    /// The text that starts the single-row and multi-row writes, up to their
    /// `VALUES`.
    pub open spec fn insert_head() -> Seq<char> {
        "INSERT INTO `order_items` (`order_id`, `product_id`, `quantity`) "@
    }

    /// The single-row and multi-row writes name the columns `order_id`, `product_id`, `quantity`
    /// in this order, and bind for each of them this row's value of that column.
    pub proof fn law_row_binds_named_columns(self)
        ensures
            Self::insert_head() == "INSERT INTO `order_items` ("@ + "`order_id`"@ + ", "@ + "`product_id`"@ + ", "@ + "`quantity`"@ + ") "@,
            self.row_values().len() == 3,
            self.column_value("order_id"@) == Some(self.row_values()[0]),
            self.column_value("product_id"@) == Some(self.row_values()[1]),
            self.column_value("quantity"@) == Some(self.row_values()[2]),
    {
        reveal_strlit("order_id");
        assert("order_id"@.len() == 8 && "order_id"@[0] == 'o');
        reveal_strlit("product_id");
        assert("product_id"@.len() == 10 && "product_id"@[0] == 'p');
        reveal_strlit("quantity");
        assert("quantity"@.len() == 8 && "quantity"@[0] == 'q');
        reveal_strlit("INSERT INTO `order_items` (`order_id`, `product_id`, `quantity`) ");
        reveal_strlit("INSERT INTO `order_items` (");
        reveal_strlit("`order_id`");
        reveal_strlit(", ");
        reveal_strlit("`product_id`");
        reveal_strlit("`quantity`");
        reveal_strlit(") ");
    }

    /// The columns the full update sets, as its text names them.
    pub open spec fn row_then_order_id_and_product_id_set_columns() -> Seq<Seq<char>> {
        seq!["`quantity`"@]
    }

    /// The key columns the full update selects the row by, as its text names them.
    pub open spec fn row_then_order_id_and_product_id_key_columns() -> Seq<Seq<char>> {
        seq!["`order_id`"@, "`product_id`"@]
    }

    /// The full update binds this row's value of each column it sets
    /// (`quantity`), then of each key column
    /// (`order_id`, `product_id`), in the order the statement names them.
    pub proof fn law_row_then_order_id_and_product_id_binds_named_columns(self)
        ensures
            Self::row_then_order_id_and_product_id_set_columns() == seq!["`quantity`"@],
            Self::row_then_order_id_and_product_id_key_columns() == seq!["`order_id`"@, "`product_id`"@],
            self.row_then_order_id_and_product_id_values().len() == 3,
            self.column_value("quantity"@) == Some(self.row_then_order_id_and_product_id_values()[0]),
            self.column_value("order_id"@) == Some(self.row_then_order_id_and_product_id_values()[1]),
            self.column_value("product_id"@) == Some(self.row_then_order_id_and_product_id_values()[2]),
    {
        reveal_strlit("order_id");
        assert("order_id"@.len() == 8 && "order_id"@[0] == 'o');
        reveal_strlit("product_id");
        assert("product_id"@.len() == 10 && "product_id"@[0] == 'p');
        reveal_strlit("quantity");
        assert("quantity"@.len() == 8 && "quantity"@[0] == 'q');
    }

    /// A batch holds one row of values an item, in the order of the items.
    pub proof fn law_batch_rows_are_the_items_in_order(items: Seq<Self>)
        ensures
            Self::rows_values(items).len() == items.len(),
            forall|i: int| 0 <= i < items.len() ==> #[trigger] Self::rows_values(items)[i] == items[i].row_values(),
    {
    }

    /// What the upsert does on a key conflict, after its `VALUES`.
    pub open spec fn upsert_tail() -> Seq<char> {
        " ON DUPLICATE KEY UPDATE `quantity` = VALUES(`quantity`)"@
    }

    /// On a key conflict the upsert sets each of `quantity` to the
    /// value the new row brings for that same column.
    pub proof fn law_upsert_sets_each_column_from_the_new_row()
        ensures
            Self::upsert_tail() == " ON DUPLICATE KEY UPDATE "@ + values_assignment("`quantity`"@),
    {
        reveal_strlit(" ON DUPLICATE KEY UPDATE `quantity` = VALUES(`quantity`)");
        reveal_strlit(" ON DUPLICATE KEY UPDATE ");
        reveal_strlit(", ");
        reveal_strlit(" = VALUES(");
        reveal_strlit("`quantity`");
        reveal_strlit(")");
    }

    /// The values of this row's columns, in the order the single-row and multi-row writes bind them.
    pub open spec fn row_values(self) -> Seq<BindV> {
        seq![BindV::BigInt(Some(self.order_id)), BindV::BigInt(Some(self.product_id)), BindV::Int(Some(self.quantity))]
    }

    /// The values of this row's columns, in the order the single-row and multi-row writes bind them.
    pub fn row(&self) -> (r: Vec<SqlValue>)
        ensures
            r@.map_values(|b: SqlValue| b@) == self.row_values(),
    {
        vec![SqlValue::BigInt(Some(self.order_id)), SqlValue::BigInt(Some(self.product_id)), SqlValue::Int(Some(self.quantity))]
    }

    /// The statement that inserts this row, without checking its constraints.
    pub fn insert_unchecked(&self) -> (st: Statement)
        ensures
            st@.sql == values_sql(Self::insert_head(), Placeholder::Question, 1, 3, ""@),
            st@.binds == self.row_values(),
    {
        Statement { sql: values_text("INSERT INTO `order_items` (`order_id`, `product_id`, `quantity`) ", Placeholder::Question, 1, 3, ""), binds: self.row() }
    }

    /// The statement of `insert_unchecked` when the row passes [`Self::validate`]; the
    /// validation messages joined by `, ` otherwise.
    pub fn insert(&self) -> (r: Result<Statement, String>)
        ensures
            r is Ok <==> self.validation_errors().len() == 0,
            r matches Err(m) ==> m@ == join(self.validation_errors(), seq![',', ' ']),
            r matches Ok(st) ==> st@.sql == values_sql(Self::insert_head(), Placeholder::Question, 1, 3, ""@) && st@.binds == self.row_values(),
    {
        match self.validate() {
            Ok(()) => Ok(self.insert_unchecked()),
            Err(errors) => Err(joined_errors(&errors)),
        }
    }

    /// The statement of `insert_unchecked` when the row passes [`Self::validate`]; the
    /// validation messages joined by `, ` otherwise.
    pub fn insert_validated(&self) -> (r: Result<Statement, String>)
        ensures
            r is Ok <==> self.validation_errors().len() == 0,
            r matches Err(m) ==> m@ == join(self.validation_errors(), seq![',', ' ']),
            r matches Ok(st) ==> st@.sql == values_sql(Self::insert_head(), Placeholder::Question, 1, 3, ""@) && st@.binds == self.row_values(),
    {
        match self.validate() {
            Ok(()) => Ok(self.insert_unchecked()),
            Err(errors) => Err(joined_errors(&errors)),
        }
    }

    /// The values of each row, in statement order.
    pub open spec fn rows_values(items: Seq<Self>) -> Seq<Seq<BindV>> {
        items.map_values(|it: Self| it.row_values())
    }

    /// The values of each row, in statement order.
    pub fn rows(items: &[Self]) -> (r: Vec<Vec<SqlValue>>)
        ensures
            rows_view(r@) == Self::rows_values(items@),
    {
        let mut r: Vec<Vec<SqlValue>> = Vec::new();
        let mut i: usize = 0;
        while i < items.len()
            invariant
                0 <= i <= items.len(),
                rows_view(r@) == Self::rows_values(items@.take(i as int)),
            decreases items.len() - i,
        {
            let row = items[i].row();
            let ghost prev = r@;
            r.push(row);
            proof {
                assert(r@ =~= prev.push(row));
                assert(rows_view(r@) =~= rows_view(prev).push(row@.map_values(|b: SqlValue| b@)));
                assert(items@.take(i + 1) =~= items@.take(i as int).push(items@[i as int]));
                assert(Self::rows_values(items@.take(i + 1))
                    =~= Self::rows_values(items@.take(i as int)).push(items@[i as int].row_values()));
            }
            i = i + 1;
        }
        assert(items@.take(items.len() as int) =~= items@);
        r
    }

    /// The multi-row statements that write the given rows, pieces of at most 21845 rows; no
    /// statement for no rows.
    pub fn insert_batch(items: &[Self]) -> (plan: Vec<Statement>)
        ensures
            plan@.len() == chunks(Self::rows_values(items@), 21845 as nat).len(),
            forall|k: int| 0 <= k < plan@.len() ==> (#[trigger] plan@[k])@ == values_piece(
                Self::insert_head(), ""@, Placeholder::Question, 3, chunks(Self::rows_values(items@), 21845 as nat)[k]),
            forall|k: int| 0 <= k < plan@.len() ==> (#[trigger] plan@[k])@.binds.len() <= 65535,
    {
        let rows = Self::rows(items);
        assert(rows_view(rows@).len() == items@.len());
        assert(rows_view(rows@).len() == rows@.len());
        assert forall|j: int| 0 <= j < rows@.len() implies (#[trigger] rows_view(rows@)[j]).len() == 3 by {
            assert(Self::rows_values(items@)[j] == items@[j].row_values());
            assert(rows_view(rows@)[j] == items@[j].row_values());
        }
        values_plan("INSERT INTO `order_items` (`order_id`, `product_id`, `quantity`) ", "", Placeholder::Question, 3, 21845, &rows)
    }

    /// The statement that inserts this row or, on a key conflict, updates it.
    pub fn upsert(&self) -> (st: Statement)
        ensures
            st@.sql == values_sql(Self::insert_head(), Placeholder::Question, 1, 3, Self::upsert_tail()),
            st@.binds == self.row_values(),
    {
        Statement { sql: values_text("INSERT INTO `order_items` (`order_id`, `product_id`, `quantity`) ", Placeholder::Question, 1, 3, " ON DUPLICATE KEY UPDATE `quantity` = VALUES(`quantity`)"), binds: self.row() }
    }

    /// The statement of `upsert` when the row passes [`Self::validate`]; the
    /// validation messages joined by `, ` otherwise.
    pub fn upsert_validated(&self) -> (r: Result<Statement, String>)
        ensures
            r is Ok <==> self.validation_errors().len() == 0,
            r matches Err(m) ==> m@ == join(self.validation_errors(), seq![',', ' ']),
            r matches Ok(st) ==> st@.sql == values_sql(Self::insert_head(), Placeholder::Question, 1, 3, Self::upsert_tail()) && st@.binds == self.row_values(),
    {
        match self.validate() {
            Ok(()) => Ok(self.upsert()),
            Err(errors) => Err(joined_errors(&errors)),
        }
    }

    /// The multi-row statements that write the given rows, pieces of at most 21845 rows; no
    /// statement for no rows.
    pub fn upsert_batch(items: &[Self]) -> (plan: Vec<Statement>)
        ensures
            plan@.len() == chunks(Self::rows_values(items@), 21845 as nat).len(),
            forall|k: int| 0 <= k < plan@.len() ==> (#[trigger] plan@[k])@ == values_piece(
                Self::insert_head(), Self::upsert_tail(), Placeholder::Question, 3, chunks(Self::rows_values(items@), 21845 as nat)[k]),
            forall|k: int| 0 <= k < plan@.len() ==> (#[trigger] plan@[k])@.binds.len() <= 65535,
    {
        let rows = Self::rows(items);
        assert(rows_view(rows@).len() == items@.len());
        assert(rows_view(rows@).len() == rows@.len());
        assert forall|j: int| 0 <= j < rows@.len() implies (#[trigger] rows_view(rows@)[j]).len() == 3 by {
            assert(Self::rows_values(items@)[j] == items@[j].row_values());
            assert(rows_view(rows@)[j] == items@[j].row_values());
        }
        values_plan("INSERT INTO `order_items` (`order_id`, `product_id`, `quantity`) ", " ON DUPLICATE KEY UPDATE `quantity` = VALUES(`quantity`)", Placeholder::Question, 3, 21845, &rows)
    }

    /// The values of this row's columns and then of its key columns, in the order the full update binds them.
    pub open spec fn row_then_order_id_and_product_id_values(self) -> Seq<BindV> {
        seq![BindV::Int(Some(self.quantity)), BindV::BigInt(Some(self.order_id)), BindV::BigInt(Some(self.product_id))]
    }

    /// The values of this row's columns and then of its key columns, in the order the full update binds them.
    pub fn row_then_order_id_and_product_id(&self) -> (r: Vec<SqlValue>)
        ensures
            r@.map_values(|b: SqlValue| b@) == self.row_then_order_id_and_product_id_values(),
    {
        vec![SqlValue::Int(Some(self.quantity)), SqlValue::BigInt(Some(self.order_id)), SqlValue::BigInt(Some(self.product_id))]
    }

    /// The statement that writes every column of this row, selected by its key.
    pub fn update_by_order_id_and_product_id(&self) -> (st: Statement)
        ensures
            st@.sql == update_sql("UPDATE `order_items` SET "@, Self::row_then_order_id_and_product_id_set_columns(), Self::row_then_order_id_and_product_id_key_columns(), Placeholder::Question),
            st@.binds == self.row_then_order_id_and_product_id_values(),
    {
        let set: Vec<&str> = vec!["`quantity`"];
        let keys: Vec<&str> = vec!["`order_id`", "`product_id`"];
        proof {
            assert(set@.map_values(|n: &str| n@) =~= seq!["`quantity`"@]);
            assert(keys@.map_values(|n: &str| n@) =~= seq!["`order_id`"@, "`product_id`"@]);
        }
        Statement { sql: update_text("UPDATE `order_items` SET ", &set, &keys, Placeholder::Question), binds: self.row_then_order_id_and_product_id() }
    }

    /// The statement of `update_by_order_id_and_product_id` when the row passes [`Self::validate`]; the
    /// validation messages joined by `, ` otherwise.
    pub fn update_validated_by_order_id_and_product_id(&self) -> (r: Result<Statement, String>)
        ensures
            r is Ok <==> self.validation_errors().len() == 0,
            r matches Err(m) ==> m@ == join(self.validation_errors(), seq![',', ' ']),
            r matches Ok(st) ==> st@.sql == update_sql("UPDATE `order_items` SET "@, seq!["`quantity`"@], seq!["`order_id`"@, "`product_id`"@], Placeholder::Question) && st@.binds == self.row_then_order_id_and_product_id_values(),
    {
        match self.validate() {
            Ok(()) => Ok(self.update_by_order_id_and_product_id()),
            Err(errors) => Err(joined_errors(&errors)),
        }
    }

    /// The statement that deletes the rows with the given key.
    pub fn delete_by_order_id_and_product_id(order_id: i64, product_id: i64) -> (st: Statement)
        ensures
            st@.sql == "DELETE FROM `order_items` WHERE `order_id` = ? AND `product_id` = ?"@,
            st@.binds == seq![BindV::BigInt(Some(order_id)), BindV::BigInt(Some(product_id))],
    {
        Statement::new("DELETE FROM `order_items` WHERE `order_id` = ? AND `product_id` = ?", vec![SqlValue::BigInt(Some(order_id)), SqlValue::BigInt(Some(product_id))])
    }

    /// The columns the patch sets and their values, in column order.
    fn update_partial_by_order_id_and_product_id_assignments(patch: &OrderItemsPatch) -> (r: (Vec<&'static str>, Vec<SqlValue>))
        ensures
            r.0@.map_values(|n: &str| n@) == Self::update_partial_by_order_id_and_product_id_columns(*patch),
            r.1@.map_values(|b: SqlValue| b@) == Self::update_partial_by_order_id_and_product_id_values(*patch),
            r.0@.len() <= 1,
    {
        let mut set: Vec<&'static str> = Vec::new();
        let mut binds: Vec<SqlValue> = Vec::new();
        assert(set@.map_values(|n: &str| n@) =~= Seq::<Seq<char>>::empty());
        assert(binds@.map_values(|b: SqlValue| b@) =~= Seq::<BindV>::empty());
        let value = match &patch.quantity {
            Some(v) => Some(SqlValue::Int(Some(*v))),
            None => None,
        };
        push_assignment(&mut set, &mut binds, "`quantity`", value);
        (set, binds)
    }

    /// The statement that writes only the columns the patch sets, on the row
    /// with the given key; none when the patch sets no column.
    pub fn update_partial_by_order_id_and_product_id(order_id: i64, product_id: i64, patch: &OrderItemsPatch) -> (r: Option<Statement>)
        ensures
            r is None <==> Self::update_partial_by_order_id_and_product_id_columns(*patch).len() == 0,
            r matches Some(st) ==> st@.sql == update_sql("UPDATE `order_items` SET "@, Self::update_partial_by_order_id_and_product_id_columns(*patch), seq!["`order_id`"@, "`product_id`"@], Placeholder::Question)
                && st@.binds == Self::update_partial_by_order_id_and_product_id_values(*patch) + seq![BindV::BigInt(Some(order_id)), BindV::BigInt(Some(product_id))],
    {
        let (set, mut binds) = Self::update_partial_by_order_id_and_product_id_assignments(patch);
        if set.len() == 0 {
            return None;
        }
        let ghost vals = binds@.map_values(|b: SqlValue| b@);
        binds.push(SqlValue::BigInt(Some(order_id)));
        binds.push(SqlValue::BigInt(Some(product_id)));
        let keys: Vec<&str> = vec!["`order_id`", "`product_id`"];
        proof {
            assert(keys@.map_values(|n: &str| n@) =~= seq!["`order_id`"@, "`product_id`"@]);
            assert(binds@.map_values(|b: SqlValue| b@) =~= vals + seq![BindV::BigInt(Some(order_id)), BindV::BigInt(Some(product_id))]);
        }
        Some(Statement { sql: update_text("UPDATE `order_items` SET ", &set, &keys, Placeholder::Question), binds })
    }

    /// The columns a patch assigns, in column order.
    pub open spec fn update_partial_by_order_id_and_product_id_columns(p: OrderItemsPatch) -> Seq<Seq<char>> {
        Seq::empty()
            + assigned_column(p.quantity, "`quantity`"@)
    }

    /// The values a patch assigns, in column order.
    pub open spec fn update_partial_by_order_id_and_product_id_values(p: OrderItemsPatch) -> Seq<BindV> {
        Seq::empty()
            + (match p.quantity { Some(v) => seq![BindV::Int(Some(v))], None => Seq::empty() })
    }

    /// A partial update binds one value for each column it assigns, so its
    /// placeholders and its values always match in number.
    pub proof fn law_update_partial_by_order_id_and_product_id_one_value_per_column(patch: OrderItemsPatch)
        ensures
            Self::update_partial_by_order_id_and_product_id_columns(patch).len() == Self::update_partial_by_order_id_and_product_id_values(patch).len(),
    {
    }

    /// A patch that sets every column to the values of `row`, applied to the
    /// row's key, gives the statement that `update_by_order_id_and_product_id` gives for the row: the
    /// same text and the same values.
    pub proof fn law_full_patch_matches_update_by_order_id_and_product_id(row: Self, patch: OrderItemsPatch)
        requires
            patch.quantity == Some(row.quantity),
        ensures
            update_sql("UPDATE `order_items` SET "@, Self::update_partial_by_order_id_and_product_id_columns(patch), seq!["`order_id`"@, "`product_id`"@], Placeholder::Question)
                == update_sql("UPDATE `order_items` SET "@, seq!["`quantity`"@], seq!["`order_id`"@, "`product_id`"@], Placeholder::Question),
            Self::update_partial_by_order_id_and_product_id_values(patch) + seq![BindV::BigInt(Some(row.order_id)), BindV::BigInt(Some(row.product_id))] == row.row_then_order_id_and_product_id_values(),
    {
        assert(Self::update_partial_by_order_id_and_product_id_columns(patch) =~= seq!["`quantity`"@]);
        assert(Self::update_partial_by_order_id_and_product_id_values(patch) + seq![BindV::BigInt(Some(row.order_id)), BindV::BigInt(Some(row.product_id))] =~= row.row_then_order_id_and_product_id_values());
    }
}

} // verus!

