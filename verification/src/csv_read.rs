//! How a CSV reader such as `COPY ... WITH (FORMAT csv)` reads the payloads
//! back: fields separated by commas, records ended by a newline, an empty
//! unquoted field read as `NULL`, and `""` inside quotes read as one quote.
use vstd::prelude::*;
use crate::copy::{CsvFieldV, field_text, row_text, row_texts, payloads, law_copy_sends_every_row_once, int_v, opt_int_v, opt_bool_v, bool_text};
use crate::text::{quote_free, csv_escape, csv_char, hex_bytes, hex_byte, hex_digit, digit_char, decimal, signed_decimal, join, concat};

verus! {

/// The characters that end an unquoted field.
pub open spec fn ends_bare(c: char) -> bool {
    c == ',' || c == '\n' || c == '\r'
}

/// How much of `t` an unquoted field takes: everything before the first
/// comma or line end.
pub open spec fn bare_len(t: Seq<char>) -> nat
    decreases t.len(),
{
    if t.len() == 0 || ends_bare(t[0]) {
        0
    } else {
        1 + bare_len(t.drop_first())
    }
}

/// The body of a quoted field read from just after its opening quote: `""`
/// stands for one quote and a lone quote ends the body. Gives the body and
/// the length read, closing quote included; `None` when no quote ends it.
pub open spec fn quoted_body(t: Seq<char>) -> Option<(Seq<char>, nat)>
    decreases t.len(),
{
    if t.len() == 0 {
        None
    } else if t[0] == '"' {
        if t.len() >= 2 && t[1] == '"' {
            match quoted_body(t.skip(2)) {
                Some(p) => Some((seq!['"'] + p.0, p.1 + 2)),
                None => None,
            }
        } else {
            Some((Seq::empty(), 1))
        }
    } else {
        match quoted_body(t.drop_first()) {
            Some(p) => Some((seq![t[0]] + p.0, p.1 + 1)),
            None => None,
        }
    }
}

/// One field read from the start of `t`: its value (`None` for an empty
/// unquoted field, which `COPY` reads as `NULL`) and the length read.
pub open spec fn read_field(t: Seq<char>) -> Option<(Option<Seq<char>>, nat)> {
    if t.len() > 0 && t[0] == '"' {
        match quoted_body(t.drop_first()) {
            Some(p) => Some((Some(p.0), p.1 + 1)),
            None => None,
        }
    } else {
        let n = bare_len(t);
        Some((if n == 0 { None } else { Some(t.take(n as int)) }, n))
    }
}

/// The fields of one record read from the start of `t`, and the length
/// read, newline included.
pub open spec fn read_record(t: Seq<char>) -> Option<(Seq<Option<Seq<char>>>, nat)>
    decreases t.len(),
{
    match read_field(t) {
        None => None,
        Some(f) => {
            let n = f.1;
            if n < t.len() && t[n as int] == '\n' {
                Some((seq![f.0], n + 1))
            } else if n < t.len() && t[n as int] == ',' {
                match read_record(t.skip(n as int + 1)) {
                    Some(r) => Some((seq![f.0] + r.0, n + 1 + r.1)),
                    None => None,
                }
            } else {
                None
            }
        }
    }
}

/// All records of `t`, read one after the other to its end.
pub open spec fn read_records(t: Seq<char>) -> Option<Seq<Seq<Option<Seq<char>>>>>
    decreases t.len(),
{
    if t.len() == 0 {
        Some(Seq::empty())
    } else {
        match read_record(t) {
            Some(r) => {
                if 0 < r.1 <= t.len() {
                    match read_records(t.skip(r.1 as int)) {
                        Some(rs) => Some(seq![r.0] + rs),
                        None => None,
                    }
                } else {
                    None
                }
            }
            None => None,
        }
    }
}

/// The value a reader takes from a field.
pub open spec fn field_value(f: CsvFieldV) -> Option<Seq<char>> {
    match f {
        CsvFieldV::Null => None,
        CsvFieldV::Bare(s) => Some(s),
        CsvFieldV::Quoted(s) => Some(s),
        CsvFieldV::Escaped(s) => Some(s),
        CsvFieldV::QuotedHex(b) => Some(seq!['\\', 'x'] + hex_bytes(b)),
    }
}

/// Whether a field reads back as its value: an unquoted text must be
/// non-empty and hold no comma, line end or quote; a text quoted without
/// escaping must hold no quote.
pub open spec fn readable(f: CsvFieldV) -> bool {
    match f {
        CsvFieldV::Null => true,
        CsvFieldV::Bare(s) => s.len() > 0 && quote_free(s) && forall|k: int| 0 <= k < s.len() ==> !ends_bare(s[k]),
        CsvFieldV::Quoted(s) => quote_free(s),
        CsvFieldV::Escaped(s) => true,
        CsvFieldV::QuotedHex(b) => true,
    }
}

/// Whether a text may stand unquoted: non-empty, with no comma, line end
/// or quote.
pub open spec fn plain_text(s: Seq<char>) -> bool {
    s.len() > 0 && forall|k: int| 0 <= k < s.len() ==> #[trigger] s[k] != '"' && !ends_bare(s[k])
}

proof fn lemma_digit_plain(d: nat)
    ensures
        digit_char(d) != '"' && !ends_bare(digit_char(d)),
{
}

proof fn lemma_decimal_plain(n: nat)
    ensures
        plain_text(decimal(n)),
    decreases n,
{
    if n < 10 {
        lemma_digit_plain(n);
    } else {
        lemma_decimal_plain(n / 10);
        lemma_digit_plain(n % 10);
        let p = decimal(n / 10);
        assert forall|k: int| 0 <= k < decimal(n).len() implies #[trigger] decimal(n)[k] != '"' && !ends_bare(decimal(n)[k]) by {
            if k < p.len() {
                assert(decimal(n)[k] == p[k]);
            }
        }
    }
}

proof fn lemma_bare_readable(s: Seq<char>)
    requires
        plain_text(s),
    ensures
        readable(CsvFieldV::Bare(s)),
{
}

/// An integer field reads back.
pub proof fn lemma_int_v_readable(i: i64)
    ensures
        readable(int_v(i)),
{
    if i < 0 {
        let d = decimal((-i) as nat);
        lemma_decimal_plain((-i) as nat);
        let s = seq!['-'] + d;
        assert forall|k: int| 0 <= k < s.len() implies #[trigger] s[k] != '"' && !ends_bare(s[k]) by {
            if k > 0 {
                assert(s[k] == d[k - 1]);
            }
        }
        assert(signed_decimal(i as int) == s);
        lemma_bare_readable(s);
    } else {
        lemma_decimal_plain(i as nat);
        lemma_bare_readable(decimal(i as nat));
    }
}

/// A nullable integer field reads back.
pub proof fn lemma_opt_int_v_readable(o: Option<i64>)
    ensures
        readable(opt_int_v(o)),
{
    if let Some(i) = o {
        lemma_int_v_readable(i);
        assert(opt_int_v(o) == int_v(i));
    }
}

/// A nullable boolean field reads back.
pub proof fn lemma_opt_bool_v_readable(o: Option<bool>)
    ensures
        readable(opt_bool_v(o)),
{
    if let Some(b) = o {
        let t = bool_text(b);
        assert forall|k: int| 0 <= k < t.len() implies #[trigger] t[k] != '"' && !ends_bare(t[k]) by {
            if b {
                assert(t == seq!['t', 'r', 'u', 'e']);
            } else {
                assert(t == seq!['f', 'a', 'l', 's', 'e']);
            }
        }
        lemma_bare_readable(t);
    }
}

/// What a field may be followed by: nothing, a comma or a newline.
pub open spec fn field_end(rest: Seq<char>) -> bool {
    rest.len() == 0 || rest[0] == ',' || rest[0] == '\n'
}

proof fn lemma_bare_len(s: Seq<char>, rest: Seq<char>)
    requires
        forall|k: int| 0 <= k < s.len() ==> !ends_bare(s[k]),
        rest.len() == 0 || ends_bare(rest[0]),
    ensures
        bare_len(s + rest) == s.len(),
    decreases s.len(),
{
    if s.len() == 0 {
        assert(s + rest =~= rest);
    } else {
        assert((s + rest).drop_first() =~= s.drop_first() + rest);
        lemma_bare_len(s.drop_first(), rest);
    }
}

/// `csv_escape` unfolded from the front.
proof fn lemma_escape_front(s: Seq<char>)
    requires
        s.len() > 0,
    ensures
        csv_escape(s) == csv_char(s[0]) + csv_escape(s.drop_first()),
    decreases s.len(),
{
    if s.len() == 1 {
        assert(s.drop_last() =~= Seq::<char>::empty());
        assert(s.drop_first() =~= Seq::<char>::empty());
        assert(csv_escape(s) =~= csv_char(s[0]));
        assert(csv_escape(s.drop_first()) =~= Seq::<char>::empty());
    } else {
        lemma_escape_front(s.drop_last());
        assert(s.drop_last().drop_first() =~= s.drop_first().drop_last());
        assert(s.drop_first().last() == s.last());
        assert(s.drop_last()[0] == s[0]);
    }
}

proof fn lemma_quoted_body(s: Seq<char>, rest: Seq<char>)
    requires
        rest.len() == 0 || rest[0] != '"',
    ensures
        quoted_body(csv_escape(s) + seq!['"'] + rest) == Some((s, csv_escape(s).len() + 1)),
    decreases s.len(),
{
    let t = csv_escape(s) + seq!['"'] + rest;
    if s.len() == 0 {
        assert(csv_escape(s) =~= Seq::<char>::empty());
        assert(t =~= seq!['"'] + rest);
        assert(t[0] == '"');
        assert(s =~= Seq::<char>::empty());
    } else {
        lemma_escape_front(s);
        lemma_quoted_body(s.drop_first(), rest);
        let tail = csv_escape(s.drop_first()) + seq!['"'] + rest;
        if s[0] == '"' {
            assert(t =~= seq!['"', '"'] + tail);
            assert(t.skip(2) =~= tail);
            assert(seq!['"'] + s.drop_first() =~= s);
        } else {
            assert(t =~= seq![s[0]] + tail);
            assert(t.drop_first() =~= tail);
            assert(seq![s[0]] + s.drop_first() =~= s);
        }
    }
}

proof fn lemma_escape_quote_free(s: Seq<char>)
    requires
        quote_free(s),
    ensures
        csv_escape(s) == s,
    decreases s.len(),
{
    if s.len() > 0 {
        lemma_escape_quote_free(s.drop_last());
        assert(s.drop_last() + seq![s.last()] =~= s);
    }
}

proof fn lemma_hex_plain(b: Seq<u8>)
    ensures
        forall|k: int| 0 <= k < hex_bytes(b).len() ==> #[trigger] hex_bytes(b)[k] != '"' && !ends_bare(hex_bytes(b)[k]),
    decreases b.len(),
{
    if b.len() > 0 {
        lemma_hex_plain(b.drop_last());
        let h = hex_byte(b.last());
        assert forall|k: int| 0 <= k < hex_bytes(b).len() implies #[trigger] hex_bytes(b)[k] != '"' && !ends_bare(hex_bytes(b)[k]) by {
            let p = hex_bytes(b.drop_last());
            if k >= p.len() {
                let d = if k == p.len() { (b.last() / 16) as nat } else { (b.last() % 16) as nat };
                assert(hex_bytes(b)[k] == hex_digit(d));
                if d < 10 {
                    assert(hex_digit(d) == digit_char(d));
                }
            } else {
                assert(hex_bytes(b)[k] == p[k]);
            }
        }
    }
}

proof fn lemma_read_field(f: CsvFieldV, rest: Seq<char>)
    requires
        readable(f),
        field_end(rest),
    ensures
        read_field(field_text(f) + rest) == Some((field_value(f), field_text(f).len())),
{
    let t = field_text(f) + rest;
    match f {
        CsvFieldV::Null => {
            assert(t =~= rest);
            lemma_bare_len(Seq::empty(), rest);
            assert(Seq::<char>::empty() + rest =~= rest);
        },
        CsvFieldV::Bare(s) => {
            lemma_bare_len(s, rest);
            assert(t[0] == s[0]);
            assert(t.take(s.len() as int) =~= s);
        },
        CsvFieldV::Quoted(s) => {
            lemma_escape_quote_free(s);
            lemma_quoted_body(s, rest);
            assert(t.drop_first() =~= csv_escape(s) + seq!['"'] + rest);
        },
        CsvFieldV::Escaped(s) => {
            lemma_quoted_body(s, rest);
            assert(t.drop_first() =~= csv_escape(s) + seq!['"'] + rest);
        },
        CsvFieldV::QuotedHex(b) => {
            let body = seq!['\\', 'x'] + hex_bytes(b);
            lemma_hex_plain(b);
            assert(quote_free(body)) by {
                assert forall|k: int| 0 <= k < body.len() implies body[k] != '"' by {
                    if k >= 2 {
                        assert(body[k] == hex_bytes(b)[k - 2]);
                    }
                }
            }
            lemma_escape_quote_free(body);
            lemma_quoted_body(body, rest);
            assert(t.drop_first() =~= csv_escape(body) + seq!['"'] + rest);
        },
    }
}

/// `join` unfolded from the front.
proof fn lemma_join_front(items: Seq<Seq<char>>, sep: Seq<char>)
    requires
        items.len() >= 2,
    ensures
        join(items, sep) == items[0] + sep + join(items.drop_first(), sep),
    decreases items.len(),
{
    let d = items.drop_first();
    if items.len() == 2 {
        assert(items.drop_last().len() == 1);
        assert(join(items.drop_last(), sep) == items[0]);
        assert(d.len() == 1);
        assert(join(d, sep) == items[1]);
        assert(join(items, sep) == join(items.drop_last(), sep) + sep + items.last());
        assert(join(items, sep) =~= items[0] + sep + join(d, sep));
    } else {
        lemma_join_front(items.drop_last(), sep);
        assert(items.drop_last().drop_first() =~= d.drop_last());
        assert(items.drop_last()[0] == items[0]);
        assert(d.last() == items.last());
        assert(join(d, sep) == join(d.drop_last(), sep) + sep + d.last());
        assert(join(items, sep) == join(items.drop_last(), sep) + sep + items.last());
        assert(join(items, sep) =~= items[0] + sep + join(d, sep));
    }
}

proof fn lemma_read_record(fields: Seq<CsvFieldV>, rest: Seq<char>)
    requires
        fields.len() > 0,
        forall|k: int| 0 <= k < fields.len() ==> readable(#[trigger] fields[k]),
    ensures
        read_record(row_text(fields) + rest)
            == Some((fields.map_values(|f: CsvFieldV| field_value(f)), row_text(fields).len())),
    decreases fields.len(),
{
    let texts = fields.map_values(|f: CsvFieldV| field_text(f));
    let t = row_text(fields) + rest;
    let f0 = fields[0];
    assert(readable(f0));
    if fields.len() == 1 {
        assert(join(texts, seq![',']) == texts[0]);
        assert(t =~= field_text(f0) + (seq!['\n'] + rest));
        lemma_read_field(f0, seq!['\n'] + rest);
        assert(t[field_text(f0).len() as int] == '\n');
        assert(fields.map_values(|f: CsvFieldV| field_value(f)) =~= seq![field_value(f0)]);
    } else {
        let tail = fields.drop_first();
        lemma_join_front(texts, seq![',']);
        assert(texts.drop_first() =~= tail.map_values(|f: CsvFieldV| field_text(f)));
        assert forall|k: int| 0 <= k < tail.len() implies readable(#[trigger] tail[k]) by {
            assert(tail[k] == fields[k + 1]);
        }
        lemma_read_record(tail, rest);
        let after = row_text(tail) + rest;
        assert(t =~= field_text(f0) + (seq![','] + after));
        lemma_read_field(f0, seq![','] + after);
        let n = field_text(f0).len();
        assert(t[n as int] == ',');
        assert(t.skip(n as int + 1) =~= after);
        assert(fields.map_values(|f: CsvFieldV| field_value(f))
            =~= seq![field_value(f0)] + tail.map_values(|f: CsvFieldV| field_value(f)));
    }
}

/// `concat` unfolded from the front.
proof fn lemma_concat_front(items: Seq<Seq<char>>)
    requires
        items.len() > 0,
    ensures
        concat(items) == items[0] + concat(items.drop_first()),
    decreases items.len(),
{
    if items.len() == 1 {
        assert(items.drop_last() =~= Seq::<Seq<char>>::empty());
        assert(items.drop_first() =~= Seq::<Seq<char>>::empty());
        assert(concat(items.drop_last()) =~= Seq::<char>::empty());
        assert(concat(items.drop_first()) =~= Seq::<char>::empty());
        assert(concat(items) =~= items[0]);
        assert(items[0] + concat(items.drop_first()) =~= items[0]);
    } else {
        lemma_concat_front(items.drop_last());
        assert(items.drop_last().drop_first() =~= items.drop_first().drop_last());
        assert(items.drop_last()[0] == items[0]);
        assert(items.drop_first().last() == items.last());
    }
}

proof fn lemma_read_records(rows: Seq<Seq<CsvFieldV>>)
    requires
        forall|i: int| 0 <= i < rows.len() ==> (#[trigger] rows[i]).len() > 0,
        forall|i: int, k: int| 0 <= i < rows.len() && 0 <= k < rows[i].len() ==> readable(#[trigger] rows[i][k]),
    ensures
        read_records(concat(row_texts(rows)))
            == Some(rows.map_values(|r: Seq<CsvFieldV>| r.map_values(|f: CsvFieldV| field_value(f)))),
    decreases rows.len(),
{
    let texts = row_texts(rows);
    if rows.len() == 0 {
        assert(concat(texts) =~= Seq::<char>::empty());
        assert(rows.map_values(|r: Seq<CsvFieldV>| r.map_values(|f: CsvFieldV| field_value(f))) =~= Seq::<Seq<Option<Seq<char>>>>::empty());
    } else {
        let r0 = rows[0];
        let tail = rows.drop_first();
        lemma_concat_front(texts);
        assert(texts.drop_first() =~= row_texts(tail));
        assert(texts[0] == row_text(r0));
        assert forall|k: int| 0 <= k < r0.len() implies readable(#[trigger] r0[k]) by {
            assert(readable(rows[0][k]));
        }
        lemma_read_record(r0, concat(row_texts(tail)));
        assert forall|i: int| 0 <= i < tail.len() implies (#[trigger] tail[i]).len() > 0 by {
            assert(tail[i] == rows[i + 1]);
        }
        assert forall|i: int, k: int| 0 <= i < tail.len() && 0 <= k < tail[i].len() implies readable(#[trigger] tail[i][k]) by {
            assert(tail[i] == rows[i + 1]);
            assert(readable(rows[i + 1][k]));
        }
        lemma_read_records(tail);
        let t = concat(texts);
        let n = row_text(r0).len();
        assert(row_text(r0).len() > 0);
        assert(t.skip(n as int) =~= concat(row_texts(tail)));
        assert(rows.map_values(|r: Seq<CsvFieldV>| r.map_values(|f: CsvFieldV| field_value(f)))
            =~= seq![r0.map_values(|f: CsvFieldV| field_value(f))]
                + tail.map_values(|r: Seq<CsvFieldV>| r.map_values(|f: CsvFieldV| field_value(f))));
    }
}

/// A reader of the `COPY` payloads gets the rows back: read one after the
/// other, the payloads give one record a row, in order, and each record
/// holds the values of the row's fields, `NULL` where a field is empty.
/// This holds of rows with at least one field whose fields all read back
/// (see [`readable`]).
pub proof fn law_copy_payloads_read_back(rows: Seq<Seq<CsvFieldV>>, size: nat, limit: Option<usize>)
    requires
        size > 0,
        forall|i: int| 0 <= i < rows.len() ==> (#[trigger] rows[i]).len() > 0,
        forall|i: int, k: int| 0 <= i < rows.len() && 0 <= k < rows[i].len() ==> readable(#[trigger] rows[i][k]),
    ensures
        read_records(concat(payloads(rows, size, limit)))
            == Some(rows.map_values(|r: Seq<CsvFieldV>| r.map_values(|f: CsvFieldV| field_value(f)))),
{
    law_copy_sends_every_row_once(rows, size, limit);
    lemma_read_records(rows);
}

} // verus!
