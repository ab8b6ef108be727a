//! The `product_metadata` table (SQLite dialect): rows, orderings, constraints and statements.
use vstd::prelude::*;
use crate::value::{SqlValue, BindV, Statement, text_v, opt_text_v, opt_bytes_v, values_of_strs};
use crate::sql::{push_assignment, assigned_column, Placeholder, values_sql, values_text, values_piece, values_plan, update_sql, update_text, in_list_piece, in_list_plan, chunks, rows_view, excluded_assignment};
use crate::validation::{error_if, format_error, errors_view, check_min_len, check_format, outcome, joined_errors, validation_result, when_some, check_format_opt, lemma_contains_concat, lemma_error_if_reports, lemma_format_error_reports, regex_match};
use crate::paging::{row_limit, page_limit, clamp};
use crate::text::{utf8_len, join};

verus! {

/// A row of `product_metadata`.
#[derive(Clone, Debug)]
pub struct ProductMetadata {
    pub attributes: Option<String>,
    pub category: String,
    pub id: String,
    pub raw_data: Option<Vec<u8>>,
}

/// The columns of `product_metadata` to change: `None` leaves a column as it is, `Some(v)` writes `v`.
#[derive(Clone, Debug)]
pub struct ProductMetadataPatch {
    pub attributes: Option<Option<String>>,
    pub category: Option<String>,
    pub raw_data: Option<Option<Vec<u8>>>,
}

impl Default for ProductMetadataPatch {
    /// A patch that changes nothing.
    fn default() -> (p: Self)
        ensures
            p.attributes is None,
            p.category is None,
            p.raw_data is None,
    {
        ProductMetadataPatch { attributes: None, category: None, raw_data: None }
    }
}

/// A column and a direction to order listings by.
#[derive(Clone, Copy, Debug, PartialEq, Eq, Structural)]
pub enum ProductMetadataOrderBy {
    AttributesAsc,
    AttributesDesc,
    CategoryAsc,
    CategoryDesc,
    IdAsc,
    IdDesc,
    RawDataAsc,
    RawDataDesc,
}

impl ProductMetadataOrderBy {
    /// The `ORDER BY` term of this ordering.
    pub open spec fn term(self) -> Seq<char> {
        match self {
            ProductMetadataOrderBy::AttributesAsc => "`attributes` ASC"@,
            ProductMetadataOrderBy::AttributesDesc => "`attributes` DESC"@,
            ProductMetadataOrderBy::CategoryAsc => "`category` ASC"@,
            ProductMetadataOrderBy::CategoryDesc => "`category` DESC"@,
            ProductMetadataOrderBy::IdAsc => "`id` ASC"@,
            ProductMetadataOrderBy::IdDesc => "`id` DESC"@,
            ProductMetadataOrderBy::RawDataAsc => "`raw_data` ASC"@,
            ProductMetadataOrderBy::RawDataDesc => "`raw_data` DESC"@,
        }
    }

    /// An ordering sorts by the column its name says, ascending for an
    /// `...Asc` ordering and descending for a `...Desc` one: its term is that
    /// column, then `ASC` or `DESC`.
    pub proof fn law_term_names_column_and_direction(self)
        ensures
            (self is AttributesAsc || self is AttributesDesc) ==> self.term() == "`attributes`"@ + (if self is AttributesDesc { " DESC"@ } else { " ASC"@ }),
            (self is CategoryAsc || self is CategoryDesc) ==> self.term() == "`category`"@ + (if self is CategoryDesc { " DESC"@ } else { " ASC"@ }),
            (self is IdAsc || self is IdDesc) ==> self.term() == "`id`"@ + (if self is IdDesc { " DESC"@ } else { " ASC"@ }),
            (self is RawDataAsc || self is RawDataDesc) ==> self.term() == "`raw_data`"@ + (if self is RawDataDesc { " DESC"@ } else { " ASC"@ }),
    {
        reveal_strlit("`attributes` ASC");
        reveal_strlit("attributes");
        reveal_strlit("`attributes` DESC");
        reveal_strlit("`category` ASC");
        reveal_strlit("category");
        reveal_strlit("`category` DESC");
        reveal_strlit("`id` ASC");
        reveal_strlit("id");
        reveal_strlit("`id` DESC");
        reveal_strlit("`raw_data` ASC");
        reveal_strlit("raw_data");
        reveal_strlit("`raw_data` DESC");
        reveal_strlit("`attributes`");
        reveal_strlit("`category`");
        reveal_strlit("`id`");
        reveal_strlit("`raw_data`");
        reveal_strlit(" ASC");
        reveal_strlit(" DESC");
    }

    /// The `ORDER BY` term of this ordering.
    pub fn as_str(&self) -> (s: &'static str)
        ensures
            s@ == self.term(),
    {
        match self {
            ProductMetadataOrderBy::AttributesAsc => "`attributes` ASC",
            ProductMetadataOrderBy::AttributesDesc => "`attributes` DESC",
            ProductMetadataOrderBy::CategoryAsc => "`category` ASC",
            ProductMetadataOrderBy::CategoryDesc => "`category` DESC",
            ProductMetadataOrderBy::IdAsc => "`id` ASC",
            ProductMetadataOrderBy::IdDesc => "`id` DESC",
            ProductMetadataOrderBy::RawDataAsc => "`raw_data` ASC",
            ProductMetadataOrderBy::RawDataDesc => "`raw_data` DESC",
        }
    }

    /// Different orderings have different terms: a term names one column and
    /// one direction.
    pub proof fn law_terms_are_distinct(a: Self, b: Self)
        ensures
            a.term() == b.term() ==> a == b,
    {
        reveal_strlit("`attributes` ASC");
        assert("`attributes` ASC"@.len() == 16 && "`attributes` ASC"@[1] == 'a');
        reveal_strlit("`attributes` DESC");
        assert("`attributes` DESC"@.len() == 17 && "`attributes` DESC"@[1] == 'a');
        reveal_strlit("`category` ASC");
        assert("`category` ASC"@.len() == 14 && "`category` ASC"@[1] == 'c');
        reveal_strlit("`category` DESC");
        assert("`category` DESC"@.len() == 15 && "`category` DESC"@[1] == 'c');
        reveal_strlit("`id` ASC");
        assert("`id` ASC"@.len() == 8 && "`id` ASC"@[1] == 'i');
        reveal_strlit("`id` DESC");
        assert("`id` DESC"@.len() == 9 && "`id` DESC"@[1] == 'i');
        reveal_strlit("`raw_data` ASC");
        assert("`raw_data` ASC"@.len() == 14 && "`raw_data` ASC"@[1] == 'r');
        reveal_strlit("`raw_data` DESC");
        assert("`raw_data` DESC"@.len() == 15 && "`raw_data` DESC"@[1] == 'r');
    }
}


impl ProductMetadata {
    /// The constraint violations of this row, in the order the checks run.
    pub open spec fn validation_errors(self) -> Seq<Seq<char>> {
        Seq::empty()
            + when_some(self.attributes, |v: String| format_error("^[\u{c0}-\u{ff}A-Za-z0-9_ -]*$"@, v@, "attributes: format constraint not met"@, "attributes: configured regex is invalid"@))
            + error_if((utf8_len(self.category@) as usize) < 1, "category: min_length 1 not met"@)
            + format_error("^[\u{c0}-\u{ff}A-Za-z0-9_ -]*$"@, self.category@, "category: format constraint not met"@, "category: configured regex is invalid"@)
            + error_if((utf8_len(self.id@) as usize) < 1, "id: min_length 1 not met"@)
            + format_error("^[\u{c0}-\u{ff}A-Za-z0-9_ -]*$"@, self.id@, "id: format constraint not met"@, "id: configured regex is invalid"@)
    }

    /// The constraints of `attributes` are checked: a value that breaks one gets
    /// that constraint's message.
    pub proof fn law_attributes_constraints_are_reported(self)
        ensures
            self.attributes matches Some(v) ==> (regex_match("^[\u{c0}-\u{ff}A-Za-z0-9_ -]*$"@, v@) == Some(false) ==> self.validation_errors().contains("attributes: format constraint not met"@)),
            self.attributes matches Some(v) ==> (regex_match("^[\u{c0}-\u{ff}A-Za-z0-9_ -]*$"@, v@) is None ==> self.validation_errors().contains("attributes: configured regex is invalid"@)),
    {
        assert(self.attributes matches Some(v) ==> (regex_match("^[\u{c0}-\u{ff}A-Za-z0-9_ -]*$"@, v@) == Some(false) ==> self.validation_errors().contains("attributes: format constraint not met"@))) by {
            broadcast use lemma_contains_concat;
            if let Some(v) = self.attributes {
                lemma_format_error_reports("^[\u{c0}-\u{ff}A-Za-z0-9_ -]*$"@, v@, "attributes: format constraint not met"@, "attributes: configured regex is invalid"@);
            }
        }
        assert(self.attributes matches Some(v) ==> (regex_match("^[\u{c0}-\u{ff}A-Za-z0-9_ -]*$"@, v@) is None ==> self.validation_errors().contains("attributes: configured regex is invalid"@))) by {
            broadcast use lemma_contains_concat;
            if let Some(v) = self.attributes {
                lemma_format_error_reports("^[\u{c0}-\u{ff}A-Za-z0-9_ -]*$"@, v@, "attributes: format constraint not met"@, "attributes: configured regex is invalid"@);
            }
        }
    }

    /// The constraints of `category` are checked: a value that breaks one gets
    /// that constraint's message.
    pub proof fn law_category_constraints_are_reported(self)
        ensures
            ((utf8_len(self.category@) as usize) < 1) ==> self.validation_errors().contains("category: min_length 1 not met"@),
            (regex_match("^[\u{c0}-\u{ff}A-Za-z0-9_ -]*$"@, self.category@) == Some(false)) ==> self.validation_errors().contains("category: format constraint not met"@),
            (regex_match("^[\u{c0}-\u{ff}A-Za-z0-9_ -]*$"@, self.category@) is None) ==> self.validation_errors().contains("category: configured regex is invalid"@),
    {
        assert(((utf8_len(self.category@) as usize) < 1) ==> self.validation_errors().contains("category: min_length 1 not met"@)) by {
            broadcast use lemma_contains_concat;
            lemma_error_if_reports((utf8_len(self.category@) as usize) < 1, "category: min_length 1 not met"@);
        }
        assert((regex_match("^[\u{c0}-\u{ff}A-Za-z0-9_ -]*$"@, self.category@) == Some(false)) ==> self.validation_errors().contains("category: format constraint not met"@)) by {
            broadcast use lemma_contains_concat;
            lemma_format_error_reports("^[\u{c0}-\u{ff}A-Za-z0-9_ -]*$"@, self.category@, "category: format constraint not met"@, "category: configured regex is invalid"@);
        }
        assert((regex_match("^[\u{c0}-\u{ff}A-Za-z0-9_ -]*$"@, self.category@) is None) ==> self.validation_errors().contains("category: configured regex is invalid"@)) by {
            broadcast use lemma_contains_concat;
            lemma_format_error_reports("^[\u{c0}-\u{ff}A-Za-z0-9_ -]*$"@, self.category@, "category: format constraint not met"@, "category: configured regex is invalid"@);
        }
    }

    /// The constraints of `id` are checked: a value that breaks one gets
    /// that constraint's message.
    pub proof fn law_id_constraints_are_reported(self)
        ensures
            ((utf8_len(self.id@) as usize) < 1) ==> self.validation_errors().contains("id: min_length 1 not met"@),
            (regex_match("^[\u{c0}-\u{ff}A-Za-z0-9_ -]*$"@, self.id@) == Some(false)) ==> self.validation_errors().contains("id: format constraint not met"@),
            (regex_match("^[\u{c0}-\u{ff}A-Za-z0-9_ -]*$"@, self.id@) is None) ==> self.validation_errors().contains("id: configured regex is invalid"@),
    {
        assert(((utf8_len(self.id@) as usize) < 1) ==> self.validation_errors().contains("id: min_length 1 not met"@)) by {
            broadcast use lemma_contains_concat;
            lemma_error_if_reports((utf8_len(self.id@) as usize) < 1, "id: min_length 1 not met"@);
        }
        assert((regex_match("^[\u{c0}-\u{ff}A-Za-z0-9_ -]*$"@, self.id@) == Some(false)) ==> self.validation_errors().contains("id: format constraint not met"@)) by {
            broadcast use lemma_contains_concat;
            lemma_format_error_reports("^[\u{c0}-\u{ff}A-Za-z0-9_ -]*$"@, self.id@, "id: format constraint not met"@, "id: configured regex is invalid"@);
        }
        assert((regex_match("^[\u{c0}-\u{ff}A-Za-z0-9_ -]*$"@, self.id@) is None) ==> self.validation_errors().contains("id: configured regex is invalid"@)) by {
            broadcast use lemma_contains_concat;
            lemma_format_error_reports("^[\u{c0}-\u{ff}A-Za-z0-9_ -]*$"@, self.id@, "id: format constraint not met"@, "id: configured regex is invalid"@);
        }
    }

    /// A row that breaks none of the constraints gets no message at all.
    pub proof fn law_row_within_constraints_gets_no_message(self)
        ensures
            ((self.attributes matches Some(v) ==> regex_match("^[\u{c0}-\u{ff}A-Za-z0-9_ -]*$"@, v@) == Some(true))
                && (!((utf8_len(self.category@) as usize) < 1))
                && (regex_match("^[\u{c0}-\u{ff}A-Za-z0-9_ -]*$"@, self.category@) == Some(true))
                && (!((utf8_len(self.id@) as usize) < 1))
                && (regex_match("^[\u{c0}-\u{ff}A-Za-z0-9_ -]*$"@, self.id@) == Some(true)))
                ==> self.validation_errors() == Seq::<Seq<char>>::empty(),
    {
        if (self.attributes matches Some(v) ==> regex_match("^[\u{c0}-\u{ff}A-Za-z0-9_ -]*$"@, v@) == Some(true))
            && (!((utf8_len(self.category@) as usize) < 1))
            && (regex_match("^[\u{c0}-\u{ff}A-Za-z0-9_ -]*$"@, self.category@) == Some(true))
            && (!((utf8_len(self.id@) as usize) < 1))
            && (regex_match("^[\u{c0}-\u{ff}A-Za-z0-9_ -]*$"@, self.id@) == Some(true)) {
            if let Some(v) = self.attributes {
                lemma_format_error_reports("^[\u{c0}-\u{ff}A-Za-z0-9_ -]*$"@, v@, "attributes: format constraint not met"@, "attributes: configured regex is invalid"@);
            }
            lemma_error_if_reports((utf8_len(self.category@) as usize) < 1, "category: min_length 1 not met"@);
            lemma_format_error_reports("^[\u{c0}-\u{ff}A-Za-z0-9_ -]*$"@, self.category@, "category: format constraint not met"@, "category: configured regex is invalid"@);
            lemma_error_if_reports((utf8_len(self.id@) as usize) < 1, "id: min_length 1 not met"@);
            lemma_format_error_reports("^[\u{c0}-\u{ff}A-Za-z0-9_ -]*$"@, self.id@, "id: format constraint not met"@, "id: configured regex is invalid"@);
        }
    }

    fn collect_errors(&self) -> (errors: Vec<String>)
        ensures
            errors_view(errors@) == self.validation_errors(),
    {
        let mut errors: Vec<String> = Vec::new();
        check_format_opt(&mut errors, "^[\u{c0}-\u{ff}A-Za-z0-9_ -]*$", &self.attributes, "attributes: format constraint not met", "attributes: configured regex is invalid");
        check_min_len(&mut errors, self.category.as_str(), 1, "category: min_length 1 not met");
        check_format(&mut errors, "^[\u{c0}-\u{ff}A-Za-z0-9_ -]*$", self.category.as_str(), "category: format constraint not met", "category: configured regex is invalid");
        check_min_len(&mut errors, self.id.as_str(), 1, "id: min_length 1 not met");
        check_format(&mut errors, "^[\u{c0}-\u{ff}A-Za-z0-9_ -]*$", self.id.as_str(), "id: format constraint not met", "id: configured regex is invalid");
        errors
    }

    /// Checks the constraints of the columns (lengths, ranges, allowed values,
    /// finite numbers and formats): `Ok` when all hold, the messages of those
    /// that fail otherwise, in the order the checks run.
    pub fn validate(&self) -> (r: Result<(), Vec<String>>)
        ensures
            validation_result(r, self.validation_errors()),
    {
        outcome(self.collect_errors())
    }

    /// The statement that counts the rows.
    pub fn count() -> (st: Statement)
        ensures
            st@.sql == "SELECT COUNT(*) FROM `product_metadata`"@,
            st@.binds == Seq::<BindV>::empty(),
    {
        Statement::new("SELECT COUNT(*) FROM `product_metadata`", Vec::new())
    }

    /// The statement that reads the row-count estimate from the database statistics.
    pub fn approximate_count() -> (st: Statement)
        ensures
            st@.sql == "SELECT MAX(rowid) FROM `product_metadata`"@,
            st@.binds == Seq::<BindV>::empty(),
    {
        Statement::new("SELECT MAX(rowid) FROM `product_metadata`", Vec::new())
    }

    /// The statement that streams the rows in key order, at most `limit` of them (brought into `1..=10000`).
    pub fn stream_all(limit: i64) -> (st: Statement)
        ensures
            st@.sql == "SELECT `attributes`, `category`, `id`, `raw_data` FROM `product_metadata` ORDER BY `id` ASC LIMIT ?"@,
            st@.binds == seq![BindV::BigInt(Some(clamp(limit as int, 1, 10000) as i64))],
    {
        Statement::new("SELECT `attributes`, `category`, `id`, `raw_data` FROM `product_metadata` ORDER BY `id` ASC LIMIT ?", vec![SqlValue::BigInt(Some(row_limit(limit)))])
    }

    /// The statement that reads the row with the given key.
    pub fn get_by_id(id: &str) -> (st: Statement)
        ensures
            st@.sql == "SELECT `attributes`, `category`, `id`, `raw_data` FROM `product_metadata` WHERE `id` = ?"@,
            st@.binds == seq![BindV::Text(Some(id@))],
    {
        Statement::new("SELECT `attributes`, `category`, `id`, `raw_data` FROM `product_metadata` WHERE `id` = ?", vec![SqlValue::str(id)])
    }

    /// The statement that tells whether a row with the given key exists.
    pub fn exists_by_id(id: &str) -> (st: Statement)
        ensures
            st@.sql == "SELECT 1 FROM `product_metadata` WHERE `id` = ? LIMIT 1"@,
            st@.binds == seq![BindV::Text(Some(id@))],
    {
        Statement::new("SELECT 1 FROM `product_metadata` WHERE `id` = ? LIMIT 1", vec![SqlValue::str(id)])
    }

    /// The statement that lists the rows after a key in key order, at most `limit` of them (brought into `1..=10000`).
    pub fn list_by_cursor(last_id: &str, limit: u32) -> (st: Statement)
        ensures
            st@.sql == "SELECT `attributes`, `category`, `id`, `raw_data` FROM `product_metadata` WHERE `id` > ? ORDER BY `id` ASC LIMIT ?"@,
            st@.binds == seq![BindV::Text(Some(last_id@)), BindV::BigInt(Some(clamp(limit as int, 1, 10000) as i64))],
    {
        Statement::new("SELECT `attributes`, `category`, `id`, `raw_data` FROM `product_metadata` WHERE `id` > ? ORDER BY `id` ASC LIMIT ?", vec![SqlValue::str(last_id), SqlValue::BigInt(Some(page_limit(limit) as i64))])
    }

    /// The value this row holds in the column named `column`, as the
    /// statements bind it; `None` for a name that is not a column.
    pub open spec fn column_value(self, column: Seq<char>) -> Option<BindV> {
        if column == "attributes"@ {
            Some(opt_text_v(self.attributes))
        } else if column == "category"@ {
            Some(text_v(self.category))
        } else if column == "id"@ {
            Some(text_v(self.id))
        } else if column == "raw_data"@ {
            Some(opt_bytes_v(self.raw_data))
        } else {
            None
        }
    }

    /// The text that starts the single-row and multi-row writes, up to their
    /// `VALUES`.
    pub open spec fn insert_head() -> Seq<char> {
        "INSERT INTO `product_metadata` (`attributes`, `category`, `id`, `raw_data`) "@
    }

    /// The single-row and multi-row writes name the columns `attributes`, `category`, `id`, `raw_data`
    /// in this order, and bind for each of them this row's value of that column.
    pub proof fn law_row_binds_named_columns(self)
        ensures
            Self::insert_head() == "INSERT INTO `product_metadata` ("@ + "`attributes`"@ + ", "@ + "`category`"@ + ", "@ + "`id`"@ + ", "@ + "`raw_data`"@ + ") "@,
            self.row_values().len() == 4,
            self.column_value("attributes"@) == Some(self.row_values()[0]),
            self.column_value("category"@) == Some(self.row_values()[1]),
            self.column_value("id"@) == Some(self.row_values()[2]),
            self.column_value("raw_data"@) == Some(self.row_values()[3]),
    {
        reveal_strlit("attributes");
        assert("attributes"@.len() == 10 && "attributes"@[0] == 'a');
        reveal_strlit("category");
        assert("category"@.len() == 8 && "category"@[0] == 'c');
        reveal_strlit("id");
        assert("id"@.len() == 2 && "id"@[0] == 'i');
        reveal_strlit("raw_data");
        assert("raw_data"@.len() == 8 && "raw_data"@[0] == 'r');
        reveal_strlit("INSERT INTO `product_metadata` (`attributes`, `category`, `id`, `raw_data`) ");
        reveal_strlit("INSERT INTO `product_metadata` (");
        reveal_strlit("`attributes`");
        reveal_strlit(", ");
        reveal_strlit("`category`");
        reveal_strlit("`id`");
        reveal_strlit("`raw_data`");
        reveal_strlit(") ");
    }

    /// The columns the full update sets, as its text names them.
    pub open spec fn row_then_id_set_columns() -> Seq<Seq<char>> {
        seq!["`attributes`"@, "`category`"@, "`raw_data`"@]
    }

    /// The key columns the full update selects the row by, as its text names them.
    pub open spec fn row_then_id_key_columns() -> Seq<Seq<char>> {
        seq!["`id`"@]
    }

    /// The full update binds this row's value of each column it sets
    /// (`attributes`, `category`, `raw_data`), then of each key column
    /// (`id`), in the order the statement names them.
    pub proof fn law_row_then_id_binds_named_columns(self)
        ensures
            Self::row_then_id_set_columns() == seq!["`attributes`"@, "`category`"@, "`raw_data`"@],
            Self::row_then_id_key_columns() == seq!["`id`"@],
            self.row_then_id_values().len() == 4,
            self.column_value("attributes"@) == Some(self.row_then_id_values()[0]),
            self.column_value("category"@) == Some(self.row_then_id_values()[1]),
            self.column_value("raw_data"@) == Some(self.row_then_id_values()[2]),
            self.column_value("id"@) == Some(self.row_then_id_values()[3]),
    {
        reveal_strlit("attributes");
        assert("attributes"@.len() == 10 && "attributes"@[0] == 'a');
        reveal_strlit("category");
        assert("category"@.len() == 8 && "category"@[0] == 'c');
        reveal_strlit("id");
        assert("id"@.len() == 2 && "id"@[0] == 'i');
        reveal_strlit("raw_data");
        assert("raw_data"@.len() == 8 && "raw_data"@[0] == 'r');
    }

    /// A batch holds one row of values an item, in the order of the items.
    pub proof fn law_batch_rows_are_the_items_in_order(items: Seq<Self>)
        ensures
            Self::rows_values(items).len() == items.len(),
            forall|i: int| 0 <= i < items.len() ==> #[trigger] Self::rows_values(items)[i] == items[i].row_values(),
    {
    }

    /// What the upsert does on a key conflict, after its `VALUES`.
    pub open spec fn upsert_tail() -> Seq<char> {
        " ON CONFLICT (`id`) DO UPDATE SET `attributes` = EXCLUDED.`attributes`, `category` = EXCLUDED.`category`, `raw_data` = EXCLUDED.`raw_data`"@
    }

    /// On a key conflict the upsert sets each of `attributes`, `category`, `raw_data` to the
    /// value the new row brings for that same column.
    pub proof fn law_upsert_sets_each_column_from_the_new_row()
        ensures
            Self::upsert_tail() == " ON CONFLICT (`id`) DO UPDATE SET "@ + excluded_assignment("`attributes`"@) + ", "@ + excluded_assignment("`category`"@) + ", "@ + excluded_assignment("`raw_data`"@),
    {
        reveal_strlit(" ON CONFLICT (`id`) DO UPDATE SET `attributes` = EXCLUDED.`attributes`, `category` = EXCLUDED.`category`, `raw_data` = EXCLUDED.`raw_data`");
        reveal_strlit(" ON CONFLICT (`id`) DO UPDATE SET ");
        reveal_strlit(", ");
        reveal_strlit(" = EXCLUDED.");
        reveal_strlit("`attributes`");
        reveal_strlit("`category`");
        reveal_strlit("`raw_data`");
    }

    /// The values of this row's columns, in the order the single-row and multi-row writes bind them.
    pub open spec fn row_values(self) -> Seq<BindV> {
        seq![opt_text_v(self.attributes), text_v(self.category), text_v(self.id), opt_bytes_v(self.raw_data)]
    }

    /// The values of this row's columns, in the order the single-row and multi-row writes bind them.
    pub fn row(&self) -> (r: Vec<SqlValue>)
        ensures
            r@.map_values(|b: SqlValue| b@) == self.row_values(),
    {
        vec![SqlValue::opt_text(&self.attributes), SqlValue::text(&self.category), SqlValue::text(&self.id), SqlValue::opt_bytes(&self.raw_data)]
    }

    /// The statement that inserts this row, without checking its constraints.
    pub fn insert_unchecked(&self) -> (st: Statement)
        ensures
            st@.sql == values_sql(Self::insert_head(), Placeholder::Question, 1, 4, ""@),
            st@.binds == self.row_values(),
    {
        Statement { sql: values_text("INSERT INTO `product_metadata` (`attributes`, `category`, `id`, `raw_data`) ", Placeholder::Question, 1, 4, ""), binds: self.row() }
    }

    /// The statement of `insert_unchecked` when the row passes [`Self::validate`]; the
    /// validation messages joined by `, ` otherwise.
    pub fn insert(&self) -> (r: Result<Statement, String>)
        ensures
            r is Ok <==> self.validation_errors().len() == 0,
            r matches Err(m) ==> m@ == join(self.validation_errors(), seq![',', ' ']),
            r matches Ok(st) ==> st@.sql == values_sql(Self::insert_head(), Placeholder::Question, 1, 4, ""@) && st@.binds == self.row_values(),
    {
        match self.validate() {
            Ok(()) => Ok(self.insert_unchecked()),
            Err(errors) => Err(joined_errors(&errors)),
        }
    }

    /// The statement of `insert_unchecked` when the row passes [`Self::validate`]; the
    /// validation messages joined by `, ` otherwise.
    pub fn insert_validated(&self) -> (r: Result<Statement, String>)
        ensures
            r is Ok <==> self.validation_errors().len() == 0,
            r matches Err(m) ==> m@ == join(self.validation_errors(), seq![',', ' ']),
            r matches Ok(st) ==> st@.sql == values_sql(Self::insert_head(), Placeholder::Question, 1, 4, ""@) && st@.binds == self.row_values(),
    {
        match self.validate() {
            Ok(()) => Ok(self.insert_unchecked()),
            Err(errors) => Err(joined_errors(&errors)),
        }
    }

    /// The values of each row, in statement order.
    pub open spec fn rows_values(items: Seq<Self>) -> Seq<Seq<BindV>> {
        items.map_values(|it: Self| it.row_values())
    }

    /// The values of each row, in statement order.
    pub fn rows(items: &[Self]) -> (r: Vec<Vec<SqlValue>>)
        ensures
            rows_view(r@) == Self::rows_values(items@),
    {
        let mut r: Vec<Vec<SqlValue>> = Vec::new();
        let mut i: usize = 0;
        while i < items.len()
            invariant
                0 <= i <= items.len(),
                rows_view(r@) == Self::rows_values(items@.take(i as int)),
            decreases items.len() - i,
        {
            let row = items[i].row();
            let ghost prev = r@;
            r.push(row);
            proof {
                assert(r@ =~= prev.push(row));
                assert(rows_view(r@) =~= rows_view(prev).push(row@.map_values(|b: SqlValue| b@)));
                assert(items@.take(i + 1) =~= items@.take(i as int).push(items@[i as int]));
                assert(Self::rows_values(items@.take(i + 1))
                    =~= Self::rows_values(items@.take(i as int)).push(items@[i as int].row_values()));
            }
            i = i + 1;
        }
        assert(items@.take(items.len() as int) =~= items@);
        r
    }

    /// The multi-row statements that write the given rows, pieces of at most 8191 rows; no
    /// statement for no rows.
    pub fn insert_batch(items: &[Self]) -> (plan: Vec<Statement>)
        ensures
            plan@.len() == chunks(Self::rows_values(items@), 8191 as nat).len(),
            forall|k: int| 0 <= k < plan@.len() ==> (#[trigger] plan@[k])@ == values_piece(
                Self::insert_head(), ""@, Placeholder::Question, 4, chunks(Self::rows_values(items@), 8191 as nat)[k]),
            forall|k: int| 0 <= k < plan@.len() ==> (#[trigger] plan@[k])@.binds.len() <= 32766,
    {
        let rows = Self::rows(items);
        assert(rows_view(rows@).len() == items@.len());
        assert(rows_view(rows@).len() == rows@.len());
        assert forall|j: int| 0 <= j < rows@.len() implies (#[trigger] rows_view(rows@)[j]).len() == 4 by {
            assert(Self::rows_values(items@)[j] == items@[j].row_values());
            assert(rows_view(rows@)[j] == items@[j].row_values());
        }
        values_plan("INSERT INTO `product_metadata` (`attributes`, `category`, `id`, `raw_data`) ", "", Placeholder::Question, 4, 8191, &rows)
    }

    /// The statement that inserts this row or, on a key conflict, updates it.
    pub fn upsert(&self) -> (st: Statement)
        ensures
            st@.sql == values_sql(Self::insert_head(), Placeholder::Question, 1, 4, Self::upsert_tail()),
            st@.binds == self.row_values(),
    {
        Statement { sql: values_text("INSERT INTO `product_metadata` (`attributes`, `category`, `id`, `raw_data`) ", Placeholder::Question, 1, 4, " ON CONFLICT (`id`) DO UPDATE SET `attributes` = EXCLUDED.`attributes`, `category` = EXCLUDED.`category`, `raw_data` = EXCLUDED.`raw_data`"), binds: self.row() }
    }

    /// The statement of `upsert` when the row passes [`Self::validate`]; the
    /// validation messages joined by `, ` otherwise.
    pub fn upsert_validated(&self) -> (r: Result<Statement, String>)
        ensures
            r is Ok <==> self.validation_errors().len() == 0,
            r matches Err(m) ==> m@ == join(self.validation_errors(), seq![',', ' ']),
            r matches Ok(st) ==> st@.sql == values_sql(Self::insert_head(), Placeholder::Question, 1, 4, Self::upsert_tail()) && st@.binds == self.row_values(),
    {
        match self.validate() {
            Ok(()) => Ok(self.upsert()),
            Err(errors) => Err(joined_errors(&errors)),
        }
    }

    /// The multi-row statements that write the given rows, pieces of at most 8191 rows; no
    /// statement for no rows.
    pub fn upsert_batch(items: &[Self]) -> (plan: Vec<Statement>)
        ensures
            plan@.len() == chunks(Self::rows_values(items@), 8191 as nat).len(),
            forall|k: int| 0 <= k < plan@.len() ==> (#[trigger] plan@[k])@ == values_piece(
                Self::insert_head(), Self::upsert_tail(), Placeholder::Question, 4, chunks(Self::rows_values(items@), 8191 as nat)[k]),
            forall|k: int| 0 <= k < plan@.len() ==> (#[trigger] plan@[k])@.binds.len() <= 32766,
    {
        let rows = Self::rows(items);
        assert(rows_view(rows@).len() == items@.len());
        assert(rows_view(rows@).len() == rows@.len());
        assert forall|j: int| 0 <= j < rows@.len() implies (#[trigger] rows_view(rows@)[j]).len() == 4 by {
            assert(Self::rows_values(items@)[j] == items@[j].row_values());
            assert(rows_view(rows@)[j] == items@[j].row_values());
        }
        values_plan("INSERT INTO `product_metadata` (`attributes`, `category`, `id`, `raw_data`) ", " ON CONFLICT (`id`) DO UPDATE SET `attributes` = EXCLUDED.`attributes`, `category` = EXCLUDED.`category`, `raw_data` = EXCLUDED.`raw_data`", Placeholder::Question, 4, 8191, &rows)
    }

    /// The values of this row's columns and then of its key columns, in the order the full update binds them.
    pub open spec fn row_then_id_values(self) -> Seq<BindV> {
        seq![opt_text_v(self.attributes), text_v(self.category), opt_bytes_v(self.raw_data), text_v(self.id)]
    }

    /// The values of this row's columns and then of its key columns, in the order the full update binds them.
    pub fn row_then_id(&self) -> (r: Vec<SqlValue>)
        ensures
            r@.map_values(|b: SqlValue| b@) == self.row_then_id_values(),
    {
        vec![SqlValue::opt_text(&self.attributes), SqlValue::text(&self.category), SqlValue::opt_bytes(&self.raw_data), SqlValue::text(&self.id)]
    }

    /// The statement that writes every column of this row, selected by its key.
    pub fn update_by_id(&self) -> (st: Statement)
        ensures
            st@.sql == update_sql("UPDATE `product_metadata` SET "@, Self::row_then_id_set_columns(), Self::row_then_id_key_columns(), Placeholder::Question),
            st@.binds == self.row_then_id_values(),
    {
        let set: Vec<&str> = vec!["`attributes`", "`category`", "`raw_data`"];
        let keys: Vec<&str> = vec!["`id`"];
        proof {
            assert(set@.map_values(|n: &str| n@) =~= seq!["`attributes`"@, "`category`"@, "`raw_data`"@]);
            assert(keys@.map_values(|n: &str| n@) =~= seq!["`id`"@]);
        }
        Statement { sql: update_text("UPDATE `product_metadata` SET ", &set, &keys, Placeholder::Question), binds: self.row_then_id() }
    }

    /// The statement of `update_by_id` when the row passes [`Self::validate`]; the
    /// validation messages joined by `, ` otherwise.
    pub fn update_validated_by_id(&self) -> (r: Result<Statement, String>)
        ensures
            r is Ok <==> self.validation_errors().len() == 0,
            r matches Err(m) ==> m@ == join(self.validation_errors(), seq![',', ' ']),
            r matches Ok(st) ==> st@.sql == update_sql("UPDATE `product_metadata` SET "@, seq!["`attributes`"@, "`category`"@, "`raw_data`"@], seq!["`id`"@], Placeholder::Question) && st@.binds == self.row_then_id_values(),
    {
        match self.validate() {
            Ok(()) => Ok(self.update_by_id()),
            Err(errors) => Err(joined_errors(&errors)),
        }
    }

    /// The statement that deletes the rows with the given key.
    pub fn delete_by_id(id: &str) -> (st: Statement)
        ensures
            st@.sql == "DELETE FROM `product_metadata` WHERE `id` = ?"@,
            st@.binds == seq![BindV::Text(Some(id@))],
    {
        Statement::new("DELETE FROM `product_metadata` WHERE `id` = ?", vec![SqlValue::str(id)])
    }

    /// The statements that delete the rows with the given keys, pieces of at most 5000 keys;
    /// no statement for no keys.
    pub fn delete_many_by_id(ids: &[&str]) -> (plan: Vec<Statement>)
        ensures
            plan@.len() == chunks(ids@.map_values(|x: &str| BindV::Text(Some(x@))), 5000 as nat).len(),
            forall|k: int| 0 <= k < plan@.len() ==> (#[trigger] plan@[k])@ == in_list_piece(
                "DELETE FROM `product_metadata` WHERE `id` IN "@, Placeholder::Question, chunks(ids@.map_values(|x: &str| BindV::Text(Some(x@))), 5000 as nat)[k]),
    {
        let values = values_of_strs(ids);
        in_list_plan("DELETE FROM `product_metadata` WHERE `id` IN ", Placeholder::Question, 5000, &values)
    }

    /// The columns the patch sets and their values, in column order.
    fn update_partial_by_id_assignments(patch: &ProductMetadataPatch) -> (r: (Vec<&'static str>, Vec<SqlValue>))
        ensures
            r.0@.map_values(|n: &str| n@) == Self::update_partial_by_id_columns(*patch),
            r.1@.map_values(|b: SqlValue| b@) == Self::update_partial_by_id_values(*patch),
            r.0@.len() <= 3,
    {
        let mut set: Vec<&'static str> = Vec::new();
        let mut binds: Vec<SqlValue> = Vec::new();
        assert(set@.map_values(|n: &str| n@) =~= Seq::<Seq<char>>::empty());
        assert(binds@.map_values(|b: SqlValue| b@) =~= Seq::<BindV>::empty());
        let value = match &patch.attributes {
            Some(v) => Some(SqlValue::opt_text(v)),
            None => None,
        };
        push_assignment(&mut set, &mut binds, "`attributes`", value);
        let value = match &patch.category {
            Some(v) => Some(SqlValue::text(v)),
            None => None,
        };
        push_assignment(&mut set, &mut binds, "`category`", value);
        let value = match &patch.raw_data {
            Some(v) => Some(SqlValue::opt_bytes(v)),
            None => None,
        };
        push_assignment(&mut set, &mut binds, "`raw_data`", value);
        (set, binds)
    }

    /// The statement that writes only the columns the patch sets, on the row
    /// with the given key; none when the patch sets no column.
    pub fn update_partial_by_id(id: &str, patch: &ProductMetadataPatch) -> (r: Option<Statement>)
        ensures
            r is None <==> Self::update_partial_by_id_columns(*patch).len() == 0,
            r matches Some(st) ==> st@.sql == update_sql("UPDATE `product_metadata` SET "@, Self::update_partial_by_id_columns(*patch), seq!["`id`"@], Placeholder::Question)
                && st@.binds == Self::update_partial_by_id_values(*patch) + seq![BindV::Text(Some(id@))],
    {
        let (set, mut binds) = Self::update_partial_by_id_assignments(patch);
        if set.len() == 0 {
            return None;
        }
        let ghost vals = binds@.map_values(|b: SqlValue| b@);
        binds.push(SqlValue::str(id));
        let keys: Vec<&str> = vec!["`id`"];
        proof {
            assert(keys@.map_values(|n: &str| n@) =~= seq!["`id`"@]);
            assert(binds@.map_values(|b: SqlValue| b@) =~= vals + seq![BindV::Text(Some(id@))]);
        }
        Some(Statement { sql: update_text("UPDATE `product_metadata` SET ", &set, &keys, Placeholder::Question), binds })
    }

    /// The columns a patch assigns, in column order.
    pub open spec fn update_partial_by_id_columns(p: ProductMetadataPatch) -> Seq<Seq<char>> {
        Seq::empty()
            + assigned_column(p.attributes, "`attributes`"@)
            + assigned_column(p.category, "`category`"@)
            + assigned_column(p.raw_data, "`raw_data`"@)
    }

    /// The values a patch assigns, in column order.
    pub open spec fn update_partial_by_id_values(p: ProductMetadataPatch) -> Seq<BindV> {
        Seq::empty()
            + (match p.attributes { Some(v) => seq![opt_text_v(v)], None => Seq::empty() })
            + (match p.category { Some(v) => seq![text_v(v)], None => Seq::empty() })
            + (match p.raw_data { Some(v) => seq![opt_bytes_v(v)], None => Seq::empty() })
    }

    /// A partial update binds one value for each column it assigns, so its
    /// placeholders and its values always match in number.
    pub proof fn law_update_partial_by_id_one_value_per_column(patch: ProductMetadataPatch)
        ensures
            Self::update_partial_by_id_columns(patch).len() == Self::update_partial_by_id_values(patch).len(),
    {
    }

    /// A patch that sets every column to the values of `row`, applied to the
    /// row's key, gives the statement that `update_by_id` gives for the row: the
    /// same text and the same values.
    pub proof fn law_full_patch_matches_update_by_id(row: Self, patch: ProductMetadataPatch)
        requires
            patch.attributes == Some(row.attributes),
            patch.category == Some(row.category),
            patch.raw_data == Some(row.raw_data),
        ensures
            update_sql("UPDATE `product_metadata` SET "@, Self::update_partial_by_id_columns(patch), seq!["`id`"@], Placeholder::Question)
                == update_sql("UPDATE `product_metadata` SET "@, seq!["`attributes`"@, "`category`"@, "`raw_data`"@], seq!["`id`"@], Placeholder::Question),
            Self::update_partial_by_id_values(patch) + seq![text_v(row.id)] == row.row_then_id_values(),
    {
        assert(Self::update_partial_by_id_columns(patch) =~= seq!["`attributes`"@, "`category`"@, "`raw_data`"@]);
        assert(Self::update_partial_by_id_values(patch) + seq![text_v(row.id)] =~= row.row_then_id_values());
    }
}

} // verus!

