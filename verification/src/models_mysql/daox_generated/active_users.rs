//! The `active_users` table (MySQL dialect, compact layout): rows, orderings, constraints and statements.
use vstd::prelude::*;
use crate::value::{SqlValue, BindV, Statement};
use crate::order::{safe_order_text, order_text_is_safe};
use crate::sql::{paged_sql, paged_text, Placeholder};
use crate::paging::{page_offset, offset_of};

verus! {

/// A row of `active_users`.
#[derive(Clone, Debug)]
pub struct ActiveUsers {
    pub email: String,
    pub first_name: Option<String>,
    pub id: i64,
    pub last_name: String,
}

impl ActiveUsers {
    /// The statement that counts the rows.
    pub fn count() -> (st: Statement)
        ensures
            st@.sql == "SELECT COUNT(*) FROM active_users"@,
            st@.binds == Seq::<BindV>::empty(),
    {
        Statement::new("SELECT COUNT(*) FROM active_users", Vec::new())
    }

    /// The statement that streams all rows.
    pub fn stream_all() -> (st: Statement)
        ensures
            st@.sql == "SELECT `email`, `first_name`, `id`, `last_name` FROM active_users"@,
            st@.binds == Seq::<BindV>::empty(),
    {
        Statement::new("SELECT `email`, `first_name`, `id`, `last_name` FROM active_users", Vec::new())
    }

    /// The statement that reads one page of rows ordered by the given
    /// `ORDER BY` text, passed on unchanged once every character of it is an
    /// ASCII letter or digit, `_`, a space, a comma, a backquote or a double
    /// quote: page `page` (counted from one; zero reads as one) of `page_size`
    /// rows.
    pub fn list_paginated(order_by: &str, page: u32, page_size: u32) -> (r: Result<Statement, String>)
        requires
            safe_order_text(order_by@)
                ==> offset_of(page, page_size) <= u32::MAX,
        ensures
            r is Ok <==> safe_order_text(order_by@),
            r matches Err(m) ==> m@ == "Invalid characters in ORDER BY. Potential SQL injection."@,
            r matches Ok(st) ==> st@.sql == paged_sql("SELECT `email`, `first_name`, `id`, `last_name` FROM active_users ORDER BY "@, order_by@, Placeholder::Question)
                && st@.binds == seq![
                    BindV::BigInt(Some((page_size) as i64)),
                    BindV::BigInt(Some(offset_of(page, page_size) as i64)),
                ],
    {
        if !order_text_is_safe(order_by) {
            return Err("Invalid characters in ORDER BY. Potential SQL injection.".to_owned());
        }
        let size = page_size;
        let offset = page_offset(page, size);
        Ok(Statement {
            sql: paged_text("SELECT `email`, `first_name`, `id`, `last_name` FROM active_users ORDER BY ", order_by, Placeholder::Question),
            binds: vec![SqlValue::BigInt(Some(size as i64)), SqlValue::BigInt(Some(offset as i64))],
        })
    }
}

} // verus!
