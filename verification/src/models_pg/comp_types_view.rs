//! The `comp_types_view` table (PostgreSQL dialect): rows, orderings, constraints and statements.
use vstd::prelude::*;
use crate::value::{SqlValue, BindV, Statement, UtcTimestamp, CalendarDate};
use crate::order::{order_allowed, order_error, check_order};
use crate::sql::{paged_sql, paged_text, Placeholder};
use crate::paging::{page_limit, page_offset, clamp, offset_of};

verus! {

/// A row of `comp_types_view`.
#[derive(Clone, Debug)]
pub struct CompTypesView {
    pub f_blob: Option<Vec<u8>>,
    pub f_bool: Option<bool>,
    pub f_date: Option<CalendarDate>,
    pub f_datetime: Option<UtcTimestamp>,
    pub f_decimal: Option<String>,
    pub f_double: Option<String>,
    pub f_float: Option<String>,
    pub f_int: Option<i32>,
    pub f_json: Option<String>,
    pub f_text: Option<String>,
    pub f_timestamp: Option<UtcTimestamp>,
    pub f_varchar: Option<String>,
    pub id: Option<i64>,
}

impl CompTypesView {
    /// The statement that counts the rows.
    pub fn count() -> (st: Statement)
        ensures
            st@.sql == "SELECT COUNT(*) FROM comp_types_view"@,
            st@.binds == Seq::<BindV>::empty(),
    {
        Statement::new("SELECT COUNT(*) FROM comp_types_view", Vec::new())
    }

    /// The statement that streams all rows.
    pub fn stream_all() -> (st: Statement)
        ensures
            st@.sql == "SELECT \"f_blob\", \"f_bool\", \"f_date\", \"f_datetime\", \"f_decimal\", \"f_double\", \"f_float\", \"f_int\", \"f_json\", \"f_text\", \"f_timestamp\", \"f_varchar\", \"id\" FROM comp_types_view ORDER BY \"id\" ASC"@,
            st@.binds == Seq::<BindV>::empty(),
    {
        Statement::new("SELECT \"f_blob\", \"f_bool\", \"f_date\", \"f_datetime\", \"f_decimal\", \"f_double\", \"f_float\", \"f_int\", \"f_json\", \"f_text\", \"f_timestamp\", \"f_varchar\", \"id\" FROM comp_types_view ORDER BY \"id\" ASC", Vec::new())
    }

    /// The statement that reads one page of rows ordered by the given
    /// `ORDER BY` text, passed on unchanged once every term names one of the
    /// listed columns: page `page` (counted from one; zero reads as one) of
    /// `page_size` rows, the size brought into `1..=10000`. A term whose
    /// column is not listed is refused with its column.
    pub fn list_paginated(order_by: &str, page: u32, page_size: u32) -> (r: Result<Statement, String>)
        requires
            order_allowed(order_by@, seq!["f_blob"@, "f_bool"@, "f_date"@, "f_datetime"@, "f_decimal"@, "f_double"@, "f_float"@, "f_int"@, "f_json"@, "f_text"@, "f_timestamp"@, "f_varchar"@, "id"@], false)
                ==> offset_of(page, clamp(page_size as int, 1, 10000) as u32) <= u32::MAX,
        ensures
            r is Ok <==> order_allowed(order_by@, seq!["f_blob"@, "f_bool"@, "f_date"@, "f_datetime"@, "f_decimal"@, "f_double"@, "f_float"@, "f_int"@, "f_json"@, "f_text"@, "f_timestamp"@, "f_varchar"@, "id"@], false),
            r matches Err(m) ==> order_error(order_by@, seq!["f_blob"@, "f_bool"@, "f_date"@, "f_datetime"@, "f_decimal"@, "f_double"@, "f_float"@, "f_int"@, "f_json"@, "f_text"@, "f_timestamp"@, "f_varchar"@, "id"@], false, m@),
            r matches Ok(st) ==> st@.sql == paged_sql("SELECT \"f_blob\", \"f_bool\", \"f_date\", \"f_datetime\", \"f_decimal\", \"f_double\", \"f_float\", \"f_int\", \"f_json\", \"f_text\", \"f_timestamp\", \"f_varchar\", \"id\" FROM comp_types_view ORDER BY "@, order_by@, Placeholder::Numbered)
                && st@.binds == seq![
                    BindV::BigInt(Some((clamp(page_size as int, 1, 10000) as u32) as i64)),
                    BindV::BigInt(Some(offset_of(page, clamp(page_size as int, 1, 10000) as u32) as i64)),
                ],
    {
        let allowed: Vec<&str> = vec!["f_blob", "f_bool", "f_date", "f_datetime", "f_decimal", "f_double", "f_float", "f_int", "f_json", "f_text", "f_timestamp", "f_varchar", "id"];
        assert(allowed@.map_values(|a: &str| a@) =~= seq!["f_blob"@, "f_bool"@, "f_date"@, "f_datetime"@, "f_decimal"@, "f_double"@, "f_float"@, "f_int"@, "f_json"@, "f_text"@, "f_timestamp"@, "f_varchar"@, "id"@]);
        match check_order(order_by, &allowed, false) {
            Ok(()) => {},
            Err(m) => {
                return Err(m);
            },
        }
        let size = page_limit(page_size);
        let offset = page_offset(page, size);
        Ok(Statement {
            sql: paged_text("SELECT \"f_blob\", \"f_bool\", \"f_date\", \"f_datetime\", \"f_decimal\", \"f_double\", \"f_float\", \"f_int\", \"f_json\", \"f_text\", \"f_timestamp\", \"f_varchar\", \"id\" FROM comp_types_view ORDER BY ", order_by, Placeholder::Numbered),
            binds: vec![SqlValue::BigInt(Some(size as i64)), SqlValue::BigInt(Some(offset as i64))],
        })
    }
}

} // verus!

