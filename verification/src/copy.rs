//! CSV payloads for PostgreSQL `COPY ... FROM STDIN WITH (FORMAT csv)`.
use vstd::prelude::*;
use crate::text::{quote_free, push_char, push_str, push_hex, push_csv_escaped, csv_escape, hex_bytes, join,
    concat, lemma_join_push, lemma_concat_append, utf8_len, byte_len};
use crate::sql::{chunks, flatten};
use crate::text::{i64_text, signed_decimal};
use crate::value::{UtcTimestamp, CalendarDate};
use crate::time::{utc_display, date_display, opt_view, utc_in_range, date_in_range};

verus! {

/// One field of a CSV row.
#[derive(Debug, PartialEq)]
pub enum CsvField {
    /// An empty field, which `COPY` reads as `NULL`.
    Null,
    /// Text written as it is (numbers, `true`/`false`).
    Bare(String),
    /// Text between double quotes, not escaped (dates and times).
    Quoted(String),
    /// Text between double quotes, with each `"` doubled.
    Escaped(String),
    /// Bytes as `"\x` followed by two lowercase hex digits a byte, then `"`.
    QuotedHex(Vec<u8>),
}

/// The mathematical content of a [`CsvField`].
pub enum CsvFieldV {
    Null,
    Bare(Seq<char>),
    Quoted(Seq<char>),
    Escaped(Seq<char>),
    QuotedHex(Seq<u8>),
}

impl View for CsvField {
    type V = CsvFieldV;

    open spec fn view(&self) -> CsvFieldV {
        match self {
            CsvField::Null => CsvFieldV::Null,
            CsvField::Bare(s) => CsvFieldV::Bare(s@),
            CsvField::Quoted(s) => CsvFieldV::Quoted(s@),
            CsvField::Escaped(s) => CsvFieldV::Escaped(s@),
            CsvField::QuotedHex(b) => CsvFieldV::QuotedHex(b@),
        }
    }
}

/// Whether a field quoted without escaping holds no double quote, so that
/// its quotes end where they should.
pub open spec fn quoted_plain(f: CsvFieldV) -> bool {
    f matches CsvFieldV::Quoted(s) ==> quote_free(s)
}

/// The text of one field.
pub open spec fn field_text(f: CsvFieldV) -> Seq<char> {
    match f {
        CsvFieldV::Null => Seq::empty(),
        CsvFieldV::Bare(s) => s,
        CsvFieldV::Quoted(s) => seq!['"'] + s + seq!['"'],
        CsvFieldV::Escaped(s) => seq!['"'] + csv_escape(s) + seq!['"'],
        CsvFieldV::QuotedHex(b) => seq!['"', '\\', 'x'] + hex_bytes(b) + seq!['"'],
    }
}

/// The text of one row: its fields separated by commas, then a newline.
pub open spec fn row_text(fields: Seq<CsvFieldV>) -> Seq<char> {
    join(fields.map_values(|f: CsvFieldV| field_text(f)), seq![',']) + seq!['\n']
}

/// The content of the rows.
pub open spec fn field_rows_view(rows: Seq<Vec<CsvField>>) -> Seq<Seq<CsvFieldV>> {
    rows.map_values(|r: Vec<CsvField>| r@.map_values(|f: CsvField| f@))
}

/// Appends the text of one field.
pub fn push_field(s: &mut String, f: &CsvField)
    ensures
        final(s)@ == old(s)@ + field_text(f@),
{
    match f {
        CsvField::Null => {
            assert(final(s)@ =~= old(s)@ + field_text(f@));
        },
        CsvField::Bare(t) => {
            push_str(s, t.as_str());
        },
        CsvField::Quoted(t) => {
            push_char(s, '"');
            push_str(s, t.as_str());
            push_char(s, '"');
            assert(final(s)@ =~= old(s)@ + field_text(f@));
        },
        CsvField::Escaped(t) => {
            push_char(s, '"');
            push_csv_escaped(s, t.as_str());
            push_char(s, '"');
            assert(final(s)@ =~= old(s)@ + field_text(f@));
        },
        CsvField::QuotedHex(b) => {
            push_char(s, '"');
            push_char(s, '\\');
            push_char(s, 'x');
            push_hex(s, b);
            push_char(s, '"');
            assert(final(s)@ =~= old(s)@ + field_text(f@));
        },
    }
}

/// Appends the text of one row.
pub fn push_row(s: &mut String, row: &Vec<CsvField>)
    ensures
        final(s)@ == old(s)@ + row_text(row@.map_values(|f: CsvField| f@)),
{
    let ghost start = s@;
    let ghost texts = row@.map_values(|f: CsvField| f@).map_values(|f: CsvFieldV| field_text(f));
    let mut i: usize = 0;
    while i < row.len()
        invariant
            0 <= i <= row.len(),
            texts == row@.map_values(|f: CsvField| f@).map_values(|f: CsvFieldV| field_text(f)),
            s@ == start + join(texts.take(i as int), seq![',']),
        decreases row.len() - i,
    {
        proof {
            assert(texts.take(i + 1) =~= texts.take(i as int).push(texts[i as int]));
            if i > 0 {
                lemma_join_push(texts.take(i as int), seq![','], texts[i as int]);
            } else {
                assert(texts.take(1) =~= seq![texts[0]]);
            }
        }
        if i > 0 {
            push_char(s, ',');
        }
        push_field(s, &row[i]);
        proof {
            assert(s@ =~= start + join(texts.take(i + 1), seq![',']));
        }
        i = i + 1;
    }
    assert(texts.take(row.len() as int) =~= texts);
    push_char(s, '\n');
    assert(final(s)@ =~= old(s)@ + row_text(row@.map_values(|f: CsvField| f@)));
}

/// The payloads sent for consecutive row texts: rows accumulate after `acc`;
/// when `limit` is set, a payload is sent as soon as its UTF-8 length exceeds
/// it. What is left at the end is sent if it is not empty.
pub open spec fn segments(rows: Seq<Seq<char>>, acc: Seq<char>, limit: Option<usize>) -> Seq<Seq<char>>
    decreases rows.len(),
{
    if rows.len() == 0 {
        if acc.len() == 0 { Seq::empty() } else { seq![acc] }
    } else {
        let a = acc + rows[0];
        if limit is Some && (utf8_len(a) as usize) > limit->0 {
            seq![a] + segments(rows.drop_first(), Seq::empty(), limit)
        } else {
            segments(rows.drop_first(), a, limit)
        }
    }
}

/// The texts of the rows.
pub open spec fn row_texts(rows: Seq<Seq<CsvFieldV>>) -> Seq<Seq<char>> {
    rows.map_values(|r: Seq<CsvFieldV>| row_text(r))
}

/// All payloads for a table: the rows are cut into pieces of `size` rows, and
/// each piece is sent as the payloads that [`segments`] describes.
pub open spec fn payloads(rows: Seq<Seq<CsvFieldV>>, size: nat, limit: Option<usize>) -> Seq<Seq<char>> {
    flatten(chunks(row_texts(rows), size).map_values(|piece: Seq<Seq<char>>| segments(piece, Seq::empty(), limit)))
}

proof fn lemma_segments_step(rows: Seq<Seq<char>>, i: int, acc: Seq<char>, limit: Option<usize>)
    requires
        0 <= i < rows.len(),
    ensures
        segments(rows.skip(i), acc, limit) == ({
            let a = acc + rows[i];
            if limit is Some && (utf8_len(a) as usize) > limit->0 {
                seq![a] + segments(rows.skip(i + 1), Seq::empty(), limit)
            } else {
                segments(rows.skip(i + 1), a, limit)
            }
        }),
{
    assert(rows.skip(i).drop_first() =~= rows.skip(i + 1));
    assert(rows.skip(i)[0] == rows[i]);
}

/// Appends to `out` the payloads for rows `from..to`.
fn push_segments(out: &mut Vec<String>, rows: &Vec<Vec<CsvField>>, from: usize, to: usize, limit: Option<usize>)
    requires
        from <= to <= rows.len(),
    ensures
        final(out)@.map_values(|s: String| s@) == old(out)@.map_values(|s: String| s@)
            + segments(row_texts(field_rows_view(rows@)).subrange(from as int, to as int), Seq::empty(), limit),
{
    let ghost texts = row_texts(field_rows_view(rows@)).subrange(from as int, to as int);
    let ghost before = out@.map_values(|s: String| s@);
    let mut payload = String::new();
    let mut i: usize = from;
    assert(texts.skip(0) =~= texts);
    while i < to
        invariant
            from <= i <= to <= rows.len(),
            texts == row_texts(field_rows_view(rows@)).subrange(from as int, to as int),
            segments(texts, Seq::empty(), limit) == out@.map_values(|s: String| s@).skip(before.len() as int)
                + segments(texts.skip(i - from), payload@, limit),
            out@.map_values(|s: String| s@).len() >= before.len(),
            out@.map_values(|s: String| s@).take(before.len() as int) == before,
        decreases to - i,
    {
        let ghost acc = payload@;
        let ghost done = out@.map_values(|s: String| s@);
        push_row(&mut payload, &rows[i]);
        proof {
            assert(texts[i - from] == row_text(rows@[i as int]@.map_values(|f: CsvField| f@)));
            lemma_segments_step(texts, i - from, acc, limit);
            assert(payload@ == acc + texts[i - from]);
        }
        let flush = match limit {
            Some(l) => byte_len(payload.as_str()) > l,
            None => false,
        };
        if flush {
            out.push(payload);
            payload = String::new();
            proof {
                let now = out@.map_values(|s: String| s@);
                assert(now =~= done.push(acc + texts[i - from]));
                assert(now.skip(before.len() as int) =~= done.skip(before.len() as int).push(acc + texts[i - from]));
                assert(now.take(before.len() as int) =~= before);
                assert(segments(texts, Seq::empty(), limit) =~= now.skip(before.len() as int)
                    + segments(texts.skip(i + 1 - from), payload@, limit));
            }
        }
        i = i + 1;
    }
    if !payload.as_str().is_empty() {
        let ghost done = out@.map_values(|s: String| s@);
        out.push(payload);
        proof {
            let now = out@.map_values(|s: String| s@);
            assert(texts.skip(to - from) =~= Seq::<Seq<char>>::empty());
            assert(now.skip(before.len() as int) =~= done.skip(before.len() as int).push(payload@));
            assert(now.take(before.len() as int) =~= before);
            assert(now =~= before + now.skip(before.len() as int));
        }
    } else {
        proof {
            let now = out@.map_values(|s: String| s@);
            assert(texts.skip(to - from) =~= Seq::<Seq<char>>::empty());
            assert(now =~= before + now.skip(before.len() as int));
        }
    }
}

/// The payloads of a `COPY ... FROM STDIN WITH (FORMAT csv)` for the given
/// rows, cut into pieces of `size` rows and, when `limit` is set, sent as soon
/// as a payload grows beyond `limit` bytes.
pub fn copy_payloads(rows: &Vec<Vec<CsvField>>, size: usize, limit: Option<usize>) -> (out: Vec<String>)
    requires
        size > 0,
    ensures
        out@.map_values(|s: String| s@) == payloads(field_rows_view(rows@), size as nat, limit),
{
    let ghost texts = row_texts(field_rows_view(rows@));
    let ghost pieces = chunks(texts, size as nat);
    let ghost segs = pieces.map_values(|piece: Seq<Seq<char>>| segments(piece, Seq::empty(), limit));
    let mut out: Vec<String> = Vec::new();
    let mut start: usize = 0;
    let mut k: usize = 0;
    let n = rows.len();
    assert(texts.skip(0) =~= texts);
    assert(pieces.take(0) + chunks(texts.skip(0), size as nat) =~= pieces);
    while start < n
        invariant
            0 <= start <= n,
            n == rows.len(),
            size > 0,
            texts == row_texts(field_rows_view(rows@)),
            texts.len() == n,
            pieces == chunks(texts, size as nat),
            segs == pieces.map_values(|piece: Seq<Seq<char>>| segments(piece, Seq::empty(), limit)),
            k <= pieces.len(),
            k <= start,
            pieces == pieces.take(k as int) + chunks(texts.skip(start as int), size as nat),
            out@.map_values(|s: String| s@) == flatten(segs.take(k as int)),
        decreases n - start,
    {
        let end: usize = if n - start > size { start + size } else { n };
        proof {
            crate::sql::lemma_chunks_step(texts, size as nat, start as nat);
        }
        let ghost before = out@.map_values(|s: String| s@);
        push_segments(&mut out, rows, start, end, limit);
        proof {
            let piece = texts.subrange(start as int, end as int);
            assert(pieces =~= pieces.take(k as int) + (seq![piece] + chunks(texts.skip(end as int), size as nat)));
            assert(pieces[k as int] == piece);
            assert(pieces.take(k + 1) =~= pieces.take(k as int).push(piece));
            assert(pieces =~= pieces.take(k + 1) + chunks(texts.skip(end as int), size as nat));
            assert(segs[k as int] == segments(piece, Seq::empty(), limit));
            assert(segs.take(k + 1) =~= segs.take(k as int).push(segs[k as int]));
            lemma_flatten_push(segs.take(k as int), segs[k as int]);
        }
        k = k + 1;
        start = end;
    }
    proof {
        assert(texts.skip(n as int) =~= Seq::<Seq<char>>::empty());
        assert(pieces =~= pieces.take(k as int));
        assert(segs.take(k as int) =~= segs);
    }
    out
}

/// Flattening distributes over appending one piece.
pub proof fn lemma_flatten_push<A>(pieces: Seq<Seq<A>>, x: Seq<A>)
    ensures
        flatten(pieces.push(x)) == flatten(pieces) + x,
    decreases pieces.len(),
{
    if pieces.len() == 0 {
        assert(pieces.push(x).drop_first() =~= Seq::<Seq<A>>::empty());
        assert(flatten(Seq::<Seq<A>>::empty()) =~= Seq::<A>::empty());
        assert(flatten(pieces.push(x)) =~= x);
    } else {
        lemma_flatten_push(pieces.drop_first(), x);
        assert(pieces.push(x).drop_first() =~= pieces.drop_first().push(x));
        assert(flatten(pieces.push(x)) =~= flatten(pieces) + x);
    }
}

/// A `COPY ... FROM STDIN` statement and the payloads to send after it.
#[derive(Debug, PartialEq)]
pub struct CopyPlan {
    pub statement: String,
    pub payloads: Vec<String>,
}

/// A quoted field with quotes doubled.
pub open spec fn escaped_v(s: String) -> CsvFieldV {
    CsvFieldV::Escaped(s@)
}

/// A nullable quoted field with quotes doubled.
pub open spec fn opt_escaped_v(o: Option<String>) -> CsvFieldV {
    match o {
        Some(s) => CsvFieldV::Escaped(s@),
        None => CsvFieldV::Null,
    }
}

/// An integer in decimal.
pub open spec fn int_v(i: i64) -> CsvFieldV {
    CsvFieldV::Bare(signed_decimal(i as int))
}

/// A nullable integer in decimal.
pub open spec fn opt_int_v(o: Option<i64>) -> CsvFieldV {
    match o {
        Some(i) => CsvFieldV::Bare(signed_decimal(i as int)),
        None => CsvFieldV::Null,
    }
}

/// `true` or `false`.
pub open spec fn bool_text(b: bool) -> Seq<char> {
    if b { seq!['t', 'r', 'u', 'e'] } else { seq!['f', 'a', 'l', 's', 'e'] }
}

/// A nullable boolean.
pub open spec fn opt_bool_v(o: Option<bool>) -> CsvFieldV {
    match o {
        Some(b) => CsvFieldV::Bare(bool_text(b)),
        None => CsvFieldV::Null,
    }
}

/// A nullable text written as it is.
pub open spec fn opt_bare_v(o: Option<String>) -> CsvFieldV {
    match o {
        Some(s) => CsvFieldV::Bare(s@),
        None => CsvFieldV::Null,
    }
}

/// Whether an optional instant can be written: none, or one that `chrono`
/// can hold.
pub open spec fn utc_writable(o: Option<UtcTimestamp>) -> bool {
    match o {
        Some(t) => utc_in_range(t.secs, t.nanos),
        None => true,
    }
}

/// Whether an optional date can be written: none, or one that `chrono` can
/// hold.
pub open spec fn date_writable(o: Option<CalendarDate>) -> bool {
    match o {
        Some(d) => date_in_range(d.days_from_ce),
        None => true,
    }
}

/// A nullable UTC instant, quoted as `chrono` displays it.
pub open spec fn opt_utc_v(o: Option<UtcTimestamp>) -> CsvFieldV {
    match o {
        Some(t) => CsvFieldV::Quoted(utc_display(t.secs, t.nanos)->0),
        None => CsvFieldV::Null,
    }
}

/// A nullable date, quoted as `chrono` displays it.
pub open spec fn opt_date_v(o: Option<CalendarDate>) -> CsvFieldV {
    match o {
        Some(d) => CsvFieldV::Quoted(date_display(d.days_from_ce)->0),
        None => CsvFieldV::Null,
    }
}

/// A nullable byte string as `"\x..."`.
pub open spec fn opt_quoted_hex_v(o: Option<Vec<u8>>) -> CsvFieldV {
    match o {
        Some(b) => CsvFieldV::QuotedHex(b@),
        None => CsvFieldV::Null,
    }
}

fn quoted_text(t: Option<String>) -> (f: CsvField)
    requires
        t is Some,
        quote_free(opt_view(t)->0),
    ensures
        f@ == CsvFieldV::Quoted(opt_view(t)->0),
        quoted_plain(f@),
{
    match t {
        Some(s) => CsvField::Quoted(s),
        None => CsvField::Null,
    }
}

fn copy_bytes(b: &Vec<u8>) -> (c: Vec<u8>)
    ensures
        c@ == b@,
{
    let c = b.clone();
    assert(c@ =~= b@);
    c
}

impl CsvField {
    /// A quoted field with quotes doubled.
    pub fn escaped(s: &String) -> (f: CsvField)
        ensures
            f@ == escaped_v(*s),
    {
        CsvField::Escaped(s.clone())
    }

    /// A nullable quoted field with quotes doubled.
    pub fn opt_escaped(o: &Option<String>) -> (f: CsvField)
        ensures
            f@ == opt_escaped_v(*o),
    {
        match o {
            Some(s) => CsvField::Escaped(s.clone()),
            None => CsvField::Null,
        }
    }

    /// An integer in decimal.
    pub fn integer(i: i64) -> (f: CsvField)
        ensures
            f@ == int_v(i),
    {
        CsvField::Bare(i64_text(i))
    }

    /// A nullable integer in decimal.
    pub fn opt_int(o: Option<i64>) -> (f: CsvField)
        ensures
            f@ == opt_int_v(o),
    {
        match o {
            Some(i) => CsvField::Bare(i64_text(i)),
            None => CsvField::Null,
        }
    }

    /// A nullable 32-bit integer in decimal.
    pub fn opt_int32(o: Option<i32>) -> (f: CsvField)
        ensures
            f@ == opt_int_v(match o { Some(i) => Some(i as i64), None => None }),
    {
        match o {
            Some(i) => CsvField::Bare(i64_text(i as i64)),
            None => CsvField::Null,
        }
    }

    /// A nullable boolean as `true` or `false`.
    pub fn opt_bool(o: Option<bool>) -> (f: CsvField)
        ensures
            f@ == opt_bool_v(o),
    {
        match o {
            Some(b) => {
                proof {
                    reveal_strlit("true");
                    reveal_strlit("false");
                }
                let t = if b { "true".to_owned() } else { "false".to_owned() };
                assert(t@ =~= bool_text(b));
                CsvField::Bare(t)
            },
            None => CsvField::Null,
        }
    }

    /// A nullable text written as it is.
    pub fn opt_bare(o: &Option<String>) -> (f: CsvField)
        ensures
            f@ == opt_bare_v(*o),
    {
        match o {
            Some(s) => CsvField::Bare(s.clone()),
            None => CsvField::Null,
        }
    }

    /// A nullable UTC instant, quoted as `chrono` displays it.
    pub fn opt_utc(o: Option<UtcTimestamp>) -> (f: CsvField)
        requires
            utc_writable(o),
        ensures
            f@ == opt_utc_v(o),
            quoted_plain(f@),
    {
        match o {
            Some(t) => quoted_text(t.text()),
            None => CsvField::Null,
        }
    }

    /// A nullable date, quoted as `chrono` displays it.
    pub fn opt_date(o: Option<CalendarDate>) -> (f: CsvField)
        requires
            date_writable(o),
        ensures
            f@ == opt_date_v(o),
            quoted_plain(f@),
    {
        match o {
            Some(d) => quoted_text(d.text()),
            None => CsvField::Null,
        }
    }

    /// A nullable byte string as `"\x..."`.
    pub fn opt_quoted_hex(o: &Option<Vec<u8>>) -> (f: CsvField)
        ensures
            f@ == opt_quoted_hex_v(*o),
    {
        match o {
            Some(b) => CsvField::QuotedHex(copy_bytes(b)),
            None => CsvField::Null,
        }
    }
}

proof fn lemma_concat_single(x: Seq<char>)
    ensures
        concat(seq![x]) == x,
{
    let one = seq![x];
    assert(one.drop_last() =~= Seq::<Seq<char>>::empty());
    assert(concat(one.drop_last()) =~= Seq::<char>::empty());
    assert(concat(one) == concat(one.drop_last()) + one.last());
    assert(concat(one) =~= x);
}

proof fn lemma_concat_first(items: Seq<Seq<char>>)
    requires
        items.len() > 0,
    ensures
        concat(items) == items[0] + concat(items.drop_first()),
{
    assert(items =~= seq![items[0]] + items.drop_first());
    lemma_concat_append(seq![items[0]], items.drop_first());
    lemma_concat_single(items[0]);
}

/// The payloads of consecutive rows hold, one after the other, what was
/// pending and then the rows' texts.
proof fn lemma_segments_concat(rows: Seq<Seq<char>>, acc: Seq<char>, limit: Option<usize>)
    ensures
        concat(segments(rows, acc, limit)) == acc + concat(rows),
    decreases rows.len(),
{
    if rows.len() == 0 {
        if acc.len() == 0 {
            assert(concat(Seq::<Seq<char>>::empty()) =~= Seq::<char>::empty());
            assert(acc + concat(rows) =~= Seq::<char>::empty());
        } else {
            lemma_concat_single(acc);
            assert(acc + concat(rows) =~= acc);
        }
    } else {
        let a = acc + rows[0];
        let rest = rows.drop_first();
        lemma_concat_first(rows);
        if limit is Some && (utf8_len(a) as usize) > limit->0 {
            lemma_segments_concat(rest, Seq::empty(), limit);
            lemma_concat_append(seq![a], segments(rest, Seq::empty(), limit));
            lemma_concat_single(a);
            assert(Seq::<char>::empty() + concat(rest) =~= concat(rest));
            assert(acc + concat(rows) =~= a + concat(rest));
        } else {
            lemma_segments_concat(rest, a, limit);
            assert(acc + concat(rows) =~= a + concat(rest));
        }
    }
}

/// Concatenating the flattened groups is concatenating each group's
/// concatenation.
proof fn lemma_concat_flatten(groups: Seq<Seq<Seq<char>>>)
    ensures
        concat(flatten(groups)) == concat(groups.map_values(|g: Seq<Seq<char>>| concat(g))),
    decreases groups.len(),
{
    let joined = groups.map_values(|g: Seq<Seq<char>>| concat(g));
    if groups.len() == 0 {
        assert(flatten(groups) =~= Seq::<Seq<char>>::empty());
        assert(joined =~= Seq::<Seq<char>>::empty());
    } else {
        let rest = groups.drop_first();
        lemma_concat_flatten(rest);
        lemma_concat_append(groups[0], flatten(rest));
        assert(joined.drop_first() =~= rest.map_values(|g: Seq<Seq<char>>| concat(g)));
        lemma_concat_first(joined);
    }
}

/// A `COPY` sends every row exactly once and in order: the payloads, one
/// after the other, hold the texts of the rows, one after the other.
pub proof fn law_copy_sends_every_row_once(rows: Seq<Seq<CsvFieldV>>, size: nat, limit: Option<usize>)
    requires
        size > 0,
    ensures
        concat(payloads(rows, size, limit)) == concat(row_texts(rows)),
{
    let texts = row_texts(rows);
    let pieces = chunks(texts, size);
    let groups = pieces.map_values(|piece: Seq<Seq<char>>| segments(piece, Seq::empty(), limit));
    lemma_concat_flatten(groups);
    assert(groups.map_values(|g: Seq<Seq<char>>| concat(g)) =~= pieces.map_values(|g: Seq<Seq<char>>| concat(g))) by {
        assert forall|k: int| 0 <= k < pieces.len() implies
            #[trigger] concat(groups[k]) == concat(pieces[k]) by {
            lemma_segments_concat(pieces[k], Seq::empty(), limit);
            assert(Seq::<char>::empty() + concat(pieces[k]) =~= concat(pieces[k]));
        }
    }
    lemma_concat_flatten(pieces);
    crate::sql::lemma_chunks(texts, size);
}

/// Every payload that the segments of some rows send holds something.
proof fn lemma_segments_not_empty(rows: Seq<Seq<char>>, acc: Seq<char>, limit: Option<usize>)
    ensures
        forall|k: int| 0 <= k < segments(rows, acc, limit).len() ==> (#[trigger] segments(rows, acc, limit)[k]).len() > 0,
    decreases rows.len(),
{
    if rows.len() == 0 {
        if acc.len() != 0 {
            assert(segments(rows, acc, limit) == seq![acc]);
        }
    } else {
        let a = acc + rows[0];
        let rest = rows.drop_first();
        if limit is Some && (utf8_len(a) as usize) > limit->0 {
            lemma_segments_not_empty(rest, Seq::empty(), limit);
            assert(a.len() > 0) by {
                if a.len() == 0 {
                    assert(a =~= Seq::<char>::empty());
                    assert(vstd::utf8::encode_utf8(a).len() == 0);
                }
            }
            let s = segments(rows, acc, limit);
            assert forall|k: int| 0 <= k < s.len() implies (#[trigger] s[k]).len() > 0 by {
                if k > 0 {
                    assert(s[k] == segments(rest, Seq::empty(), limit)[k - 1]);
                }
            }
        } else {
            lemma_segments_not_empty(rest, a, limit);
            assert(segments(rows, acc, limit) == segments(rest, a, limit));
        }
    }
}

/// A `COPY` never sends an empty payload.
pub proof fn law_copy_sends_no_empty_payload(rows: Seq<Seq<CsvFieldV>>, size: nat, limit: Option<usize>)
    requires
        size > 0,
    ensures
        forall|k: int| 0 <= k < payloads(rows, size, limit).len() ==> (#[trigger] payloads(rows, size, limit)[k]).len() > 0,
{
    let pieces = chunks(row_texts(rows), size);
    let groups = pieces.map_values(|piece: Seq<Seq<char>>| segments(piece, Seq::empty(), limit));
    assert forall|g: int, k: int| 0 <= g < groups.len() && 0 <= k < groups[g].len() implies
        (#[trigger] groups[g][k]).len() > 0 by {
        lemma_segments_not_empty(pieces[g], Seq::empty(), limit);
    }
    lemma_flatten_keeps_nonempty(groups);
}

proof fn lemma_flatten_keeps_nonempty(groups: Seq<Seq<Seq<char>>>)
    requires
        forall|g: int, k: int| 0 <= g < groups.len() && 0 <= k < groups[g].len() ==> (#[trigger] groups[g][k]).len() > 0,
    ensures
        forall|k: int| 0 <= k < flatten(groups).len() ==> (#[trigger] flatten(groups)[k]).len() > 0,
    decreases groups.len(),
{
    if groups.len() > 0 {
        let rest = groups.drop_first();
        assert forall|g: int, k: int| 0 <= g < rest.len() && 0 <= k < rest[g].len() implies
            (#[trigger] rest[g][k]).len() > 0 by {
            assert(rest[g] == groups[g + 1]);
        }
        lemma_flatten_keeps_nonempty(rest);
        let f = flatten(groups);
        assert(f == groups[0] + flatten(rest));
        assert forall|k: int| 0 <= k < f.len() implies (#[trigger] f[k]).len() > 0 by {
            if k < groups[0].len() {
                assert(f[k] == groups[0][k]);
            } else {
                assert(f[k] == flatten(rest)[k - groups[0].len()]);
            }
        }
    }
}

} // verus!
