//! Limits, page offsets and row counts.
use vstd::prelude::*;

verus! {

/// `v` brought into `lo..=hi`.
pub open spec fn clamp(v: int, lo: int, hi: int) -> int {
    if v < lo { lo } else if v > hi { hi } else { v }
}

/// The most rows a listing or a stream returns.
pub const MAX_ROWS: i64 = 10000;

/// A row limit brought into `1..=10000`, as `i64::clamp(1, 10000)` does.
pub fn row_limit(limit: i64) -> (r: i64)
    ensures
        r == clamp(limit as int, 1, 10000),
{
    if limit < 1 {
        1
    } else if limit > MAX_ROWS {
        MAX_ROWS
    } else {
        limit
    }
}

/// A page size brought into `1..=10000`, as `u32::clamp(1, 10000)` does.
pub fn page_limit(limit: u32) -> (r: u32)
    ensures
        r == clamp(limit as int, 1, 10000),
{
    if limit < 1 {
        1
    } else if limit > 10000 {
        10000
    } else {
        limit
    }
}

/// The number of rows that precede page `page` (counted from one; page zero
/// is read as page one) when pages hold `page_size` rows.
pub open spec fn offset_of(page: u32, page_size: u32) -> int {
    (if page == 0 { 0 } else { page - 1 }) * page_size
}

/// `page.saturating_sub(1) * page_size`; the product must fit in a `u32`,
/// where the `u32` multiplication would otherwise overflow.
pub fn page_offset(page: u32, page_size: u32) -> (r: u32)
    requires
        offset_of(page, page_size) <= u32::MAX,
    ensures
        r == offset_of(page, page_size),
{
    let before: u32 = if page == 0 { 0 } else { page - 1 };
    before * page_size
}

/// The count a `SELECT COUNT(*)` row holds, as `count as u64` converts it.
pub fn exact_count(count: i64) -> (r: u64)
    ensures
        count >= 0 ==> r == count,
        count < 0 ==> r == count + 18446744073709551616,
{
    if count >= 0 {
        count as u64
    } else {
        let below: u64 = (-(count + 1)) as u64;
        u64::MAX - below
    }
}

/// The estimate a statistics row holds: negative estimates count as zero, and
/// no row at all counts as zero.
pub fn approximate_count(row: Option<i64>) -> (r: u64)
    ensures
        r == match row {
            Some(c) => if c < 0 { 0 } else { c as int },
            None => 0,
        },
{
    match row {
        Some(c) => if c < 0 { 0 } else { c as u64 },
        None => 0,
    }
}

/// The estimate a `SELECT MAX(rowid)` row holds: an absent row, or a `NULL`
/// maximum of an empty table, counts as zero, as does a negative value.
pub fn approximate_count_nullable(row: Option<Option<i64>>) -> (r: u64)
    ensures
        r == match row {
            Some(Some(c)) => if c < 0 { 0 } else { c as int },
            _ => 0,
        },
{
    match row {
        Some(Some(c)) => if c < 0 { 0 } else { c as u64 },
        _ => 0,
    }
}

} // verus!
