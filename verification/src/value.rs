//! Values bound to statement placeholders, and statements themselves.
use vstd::prelude::*;

verus! {

/// A UTC instant, as seconds and nanoseconds since the Unix epoch.
#[derive(Clone, Copy, Debug, PartialEq, Eq, Structural)]
pub struct UtcTimestamp {
    pub secs: i64,
    pub nanos: u32,
}

/// A date and time without time zone, as seconds and nanoseconds since
/// 1970-01-01 00:00:00.
#[derive(Clone, Copy, Debug, PartialEq, Eq, Structural)]
pub struct LocalTimestamp {
    pub secs: i64,
    pub nanos: u32,
}

/// A calendar date, as the number of days since 0001-01-01 counted from one
/// (so 0001-01-01 is day 1).
#[derive(Clone, Copy, Debug, PartialEq, Eq, Structural)]
pub struct CalendarDate {
    pub days_from_ce: i32,
}

/// A value bound to one placeholder of a statement. `None` binds SQL `NULL`
/// of the column's type. Floating-point columns travel as the decimal text of
/// the number; JSON columns as their compact JSON text.
#[derive(Debug, PartialEq)]
pub enum SqlValue {
    Bool(Option<bool>),
    SmallInt(Option<i16>),
    Int(Option<i32>),
    BigInt(Option<i64>),
    UnsignedInt(Option<u32>),
    Real(Option<String>),
    Double(Option<String>),
    Text(Option<String>),
    Bytes(Option<Vec<u8>>),
    Json(Option<String>),
    Date(Option<CalendarDate>),
    Timestamp(Option<UtcTimestamp>),
    LocalTimestamp(Option<LocalTimestamp>),
}

/// The mathematical content of a [`SqlValue`].
pub enum BindV {
    Bool(Option<bool>),
    SmallInt(Option<i16>),
    Int(Option<i32>),
    BigInt(Option<i64>),
    UnsignedInt(Option<u32>),
    Real(Option<Seq<char>>),
    Double(Option<Seq<char>>),
    Text(Option<Seq<char>>),
    Bytes(Option<Seq<u8>>),
    Json(Option<Seq<char>>),
    Date(Option<CalendarDate>),
    Timestamp(Option<UtcTimestamp>),
    LocalTimestamp(Option<LocalTimestamp>),
}

/// The view of an optional string.
pub open spec fn opt_chars(o: Option<String>) -> Option<Seq<char>> {
    match o {
        Some(s) => Some(s@),
        None => None,
    }
}

/// The view of an optional byte string.
pub open spec fn opt_bytes(o: Option<Vec<u8>>) -> Option<Seq<u8>> {
    match o {
        Some(b) => Some(b@),
        None => None,
    }
}

impl View for SqlValue {
    type V = BindV;

    open spec fn view(&self) -> BindV {
        match self {
            SqlValue::Bool(v) => BindV::Bool(*v),
            SqlValue::SmallInt(v) => BindV::SmallInt(*v),
            SqlValue::Int(v) => BindV::Int(*v),
            SqlValue::BigInt(v) => BindV::BigInt(*v),
            SqlValue::UnsignedInt(v) => BindV::UnsignedInt(*v),
            SqlValue::Real(v) => BindV::Real(opt_chars(*v)),
            SqlValue::Double(v) => BindV::Double(opt_chars(*v)),
            SqlValue::Text(v) => BindV::Text(opt_chars(*v)),
            SqlValue::Bytes(v) => BindV::Bytes(opt_bytes(*v)),
            SqlValue::Json(v) => BindV::Json(opt_chars(*v)),
            SqlValue::Date(v) => BindV::Date(*v),
            SqlValue::Timestamp(v) => BindV::Timestamp(*v),
            SqlValue::LocalTimestamp(v) => BindV::LocalTimestamp(*v),
        }
    }
}

/// Bind content of a non-null text.
pub open spec fn text_v(s: String) -> BindV {
    BindV::Text(Some(s@))
}

/// Bind content of a nullable text.
pub open spec fn opt_text_v(o: Option<String>) -> BindV {
    BindV::Text(opt_chars(o))
}

/// Bind content of a non-null byte string.
pub open spec fn bytes_v(b: Vec<u8>) -> BindV {
    BindV::Bytes(Some(b@))
}

/// Bind content of a nullable byte string.
pub open spec fn opt_bytes_v(o: Option<Vec<u8>>) -> BindV {
    BindV::Bytes(opt_bytes(o))
}

/// Clones an optional string, keeping its content.
pub fn clone_opt_string(o: &Option<String>) -> (r: Option<String>)
    ensures
        r == *o,
{
    match o {
        Some(s) => Some(s.clone()),
        None => None,
    }
}

/// Clones an optional byte string, keeping its content.
pub fn clone_opt_bytes(o: &Option<Vec<u8>>) -> (r: Option<Vec<u8>>)
    ensures
        opt_bytes(r) == opt_bytes(*o),
{
    match o {
        Some(b) => {
            let c = b.clone();
            assert(c@ =~= b@);
            Some(c)
        },
        None => None,
    }
}

impl SqlValue {
    /// A non-null text value.
    pub fn text(s: &String) -> (v: SqlValue)
        ensures
            v@ == text_v(*s),
    {
        SqlValue::Text(Some(s.clone()))
    }

    /// A nullable text value.
    pub fn opt_text(o: &Option<String>) -> (v: SqlValue)
        ensures
            v@ == opt_text_v(*o),
    {
        SqlValue::Text(clone_opt_string(o))
    }

    /// A text value taken from a string slice.
    pub fn str(s: &str) -> (v: SqlValue)
        ensures
            v@ == BindV::Text(Some(s@)),
    {
        SqlValue::Text(Some(s.to_owned()))
    }

    /// A non-null byte-string value.
    pub fn bytes(b: &Vec<u8>) -> (v: SqlValue)
        ensures
            v@ == bytes_v(*b),
    {
        let c = b.clone();
        assert(c@ =~= b@);
        SqlValue::Bytes(Some(c))
    }

    /// A nullable byte-string value.
    pub fn opt_bytes(o: &Option<Vec<u8>>) -> (v: SqlValue)
        ensures
            v@ == opt_bytes_v(*o),
    {
        SqlValue::Bytes(clone_opt_bytes(o))
    }

    /// A non-null JSON value, given as its JSON text.
    pub fn opt_json(o: &Option<String>) -> (v: SqlValue)
        ensures
            v@ == BindV::Json(opt_chars(*o)),
    {
        SqlValue::Json(clone_opt_string(o))
    }

    /// A nullable single-precision number, given as its decimal text.
    pub fn opt_real(o: &Option<String>) -> (v: SqlValue)
        ensures
            v@ == BindV::Real(opt_chars(*o)),
    {
        SqlValue::Real(clone_opt_string(o))
    }

    /// A nullable double-precision number, given as its decimal text.
    pub fn opt_double(o: &Option<String>) -> (v: SqlValue)
        ensures
            v@ == BindV::Double(opt_chars(*o)),
    {
        SqlValue::Double(clone_opt_string(o))
    }
}

/// The content of a statement: its SQL text and the values of its placeholders,
/// in order.
pub struct StatementV {
    pub sql: Seq<char>,
    pub binds: Seq<BindV>,
}

/// A SQL statement ready to be sent: its text and the values bound to its
/// placeholders, in order.
#[derive(Debug, PartialEq)]
pub struct Statement {
    pub sql: String,
    pub binds: Vec<SqlValue>,
}

impl View for Statement {
    type V = StatementV;

    open spec fn view(&self) -> StatementV {
        StatementV { sql: self.sql@, binds: self.binds@.map_values(|b: SqlValue| b@) }
    }
}

impl Statement {
    /// A statement with the given text and placeholder values.
    pub fn new(sql: &str, binds: Vec<SqlValue>) -> (st: Statement)
        ensures
            st@.sql == sql@,
            st@.binds == binds@.map_values(|b: SqlValue| b@),
    {
        Statement { sql: sql.to_owned(), binds }
    }
}

impl SqlValue {
    /// A non-null byte-string value copied from a slice.
    pub fn byte_slice(b: &[u8]) -> (v: SqlValue)
        ensures
            v@ == BindV::Bytes(Some(b@)),
    {
        let mut c: Vec<u8> = Vec::new();
        let mut i: usize = 0;
        while i < b.len()
            invariant
                0 <= i <= b.len(),
                c@ == b@.take(i as int),
            decreases b.len() - i,
        {
            c.push(b[i]);
            assert(c@ =~= b@.take(i + 1));
            i = i + 1;
        }
        assert(b@.take(b.len() as int) =~= b@);
        SqlValue::Bytes(Some(c))
    }
}

/// The values of 64-bit keys.
pub fn values_of_i64(ids: &[i64]) -> (v: Vec<SqlValue>)
    ensures
        v@.map_values(|b: SqlValue| b@) == ids@.map_values(|x: i64| BindV::BigInt(Some(x))),
{
    let mut v: Vec<SqlValue> = Vec::new();
    let mut i: usize = 0;
    while i < ids.len()
        invariant
            0 <= i <= ids.len(),
            v@.map_values(|b: SqlValue| b@) == ids@.take(i as int).map_values(|x: i64| BindV::BigInt(Some(x))),
        decreases ids.len() - i,
    {
        let ghost prev = v@;
        v.push(SqlValue::BigInt(Some(ids[i])));
        proof {
            assert(v@ =~= prev.push(v@[v@.len() - 1]));
            assert(v@.map_values(|b: SqlValue| b@) =~= prev.map_values(|b: SqlValue| b@).push(v@[v@.len() - 1]@));
            assert(ids@.take(i + 1) =~= ids@.take(i as int).push(ids@[i as int]));
            assert(v@.map_values(|b: SqlValue| b@) =~= ids@.take(i + 1).map_values(|x: i64| BindV::BigInt(Some(x))));
        }
        i = i + 1;
    }
    assert(ids@.take(ids.len() as int) =~= ids@);
    v
}

/// The values of 32-bit keys.
pub fn values_of_i32(ids: &[i32]) -> (v: Vec<SqlValue>)
    ensures
        v@.map_values(|b: SqlValue| b@) == ids@.map_values(|x: i32| BindV::Int(Some(x))),
{
    let mut v: Vec<SqlValue> = Vec::new();
    let mut i: usize = 0;
    while i < ids.len()
        invariant
            0 <= i <= ids.len(),
            v@.map_values(|b: SqlValue| b@) == ids@.take(i as int).map_values(|x: i32| BindV::Int(Some(x))),
        decreases ids.len() - i,
    {
        let ghost prev = v@;
        v.push(SqlValue::Int(Some(ids[i])));
        proof {
            assert(v@ =~= prev.push(v@[v@.len() - 1]));
            assert(v@.map_values(|b: SqlValue| b@) =~= prev.map_values(|b: SqlValue| b@).push(v@[v@.len() - 1]@));
            assert(ids@.take(i + 1) =~= ids@.take(i as int).push(ids@[i as int]));
            assert(v@.map_values(|b: SqlValue| b@) =~= ids@.take(i + 1).map_values(|x: i32| BindV::Int(Some(x))));
        }
        i = i + 1;
    }
    assert(ids@.take(ids.len() as int) =~= ids@);
    v
}

/// The values of text keys.
pub fn values_of_strings(ids: &[String]) -> (v: Vec<SqlValue>)
    ensures
        v@.map_values(|b: SqlValue| b@) == ids@.map_values(|x: String| text_v(x)),
{
    let mut v: Vec<SqlValue> = Vec::new();
    let mut i: usize = 0;
    while i < ids.len()
        invariant
            0 <= i <= ids.len(),
            v@.map_values(|b: SqlValue| b@) == ids@.take(i as int).map_values(|x: String| text_v(x)),
        decreases ids.len() - i,
    {
        let ghost prev = v@;
        v.push(SqlValue::text(&ids[i]));
        proof {
            assert(v@ =~= prev.push(v@[v@.len() - 1]));
            assert(v@.map_values(|b: SqlValue| b@) =~= prev.map_values(|b: SqlValue| b@).push(v@[v@.len() - 1]@));
            assert(ids@.take(i + 1) =~= ids@.take(i as int).push(ids@[i as int]));
            assert(v@.map_values(|b: SqlValue| b@) =~= ids@.take(i + 1).map_values(|x: String| text_v(x)));
        }
        i = i + 1;
    }
    assert(ids@.take(ids.len() as int) =~= ids@);
    v
}

/// The values of text keys given as slices.
pub fn values_of_strs(ids: &[&str]) -> (v: Vec<SqlValue>)
    ensures
        v@.map_values(|b: SqlValue| b@) == ids@.map_values(|x: &str| BindV::Text(Some(x@))),
{
    let mut v: Vec<SqlValue> = Vec::new();
    let mut i: usize = 0;
    while i < ids.len()
        invariant
            0 <= i <= ids.len(),
            v@.map_values(|b: SqlValue| b@) == ids@.take(i as int).map_values(|x: &str| BindV::Text(Some(x@))),
        decreases ids.len() - i,
    {
        let ghost prev = v@;
        v.push(SqlValue::str(ids[i]));
        proof {
            assert(v@ =~= prev.push(v@[v@.len() - 1]));
            assert(v@.map_values(|b: SqlValue| b@) =~= prev.map_values(|b: SqlValue| b@).push(v@[v@.len() - 1]@));
            assert(ids@.take(i + 1) =~= ids@.take(i as int).push(ids@[i as int]));
            assert(v@.map_values(|b: SqlValue| b@) =~= ids@.take(i + 1).map_values(|x: &str| BindV::Text(Some(x@))));
        }
        i = i + 1;
    }
    assert(ids@.take(ids.len() as int) =~= ids@);
    v
}

/// The values of byte-string keys.
pub fn values_of_byte_strings(ids: &[Vec<u8>]) -> (v: Vec<SqlValue>)
    ensures
        v@.map_values(|b: SqlValue| b@) == ids@.map_values(|x: Vec<u8>| bytes_v(x)),
{
    let mut v: Vec<SqlValue> = Vec::new();
    let mut i: usize = 0;
    while i < ids.len()
        invariant
            0 <= i <= ids.len(),
            v@.map_values(|b: SqlValue| b@) == ids@.take(i as int).map_values(|x: Vec<u8>| bytes_v(x)),
        decreases ids.len() - i,
    {
        let ghost prev = v@;
        v.push(SqlValue::bytes(&ids[i]));
        proof {
            assert(v@ =~= prev.push(v@[v@.len() - 1]));
            assert(v@.map_values(|b: SqlValue| b@) =~= prev.map_values(|b: SqlValue| b@).push(v@[v@.len() - 1]@));
            assert(ids@.take(i + 1) =~= ids@.take(i as int).push(ids@[i as int]));
            assert(v@.map_values(|b: SqlValue| b@) =~= ids@.take(i + 1).map_values(|x: Vec<u8>| bytes_v(x)));
        }
        i = i + 1;
    }
    assert(ids@.take(ids.len() as int) =~= ids@);
    v
}

} // verus!
