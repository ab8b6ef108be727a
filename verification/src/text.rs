//! Character-level building blocks for SQL text and COPY payloads.
use vstd::prelude::*;

verus! {

/// Appends one character to a string with `String::push`, which vstd gives no
/// contract. The contract claims what the standard library documents: the
/// string afterwards is the string before followed by the character.
#[verifier::external_body]
pub fn push_char(s: &mut String, c: char)
    ensures
        final(s)@ == old(s)@.push(c),
{
    s.push(c);
}

/// Appends a string slice to a string.
pub fn push_str(s: &mut String, t: &str)
    ensures
        final(s)@ == old(s)@ + t@,
{
    s.append(t);
}

/// The ASCII digit of a value below ten.
pub open spec fn digit_char(d: nat) -> char {
    if d == 0 { '0' }
    else if d == 1 { '1' }
    else if d == 2 { '2' }
    else if d == 3 { '3' }
    else if d == 4 { '4' }
    else if d == 5 { '5' }
    else if d == 6 { '6' }
    else if d == 7 { '7' }
    else if d == 8 { '8' }
    else { '9' }
}

/// Decimal notation of a natural number, without leading zeros.
pub open spec fn decimal(n: nat) -> Seq<char>
    decreases n,
{
    if n < 10 {
        seq![digit_char(n)]
    } else {
        decimal(n / 10).push(digit_char(n % 10))
    }
}

/// Decimal notation of an integer, with a leading `-` when it is negative.
pub open spec fn signed_decimal(i: int) -> Seq<char> {
    if i < 0 {
        seq!['-'] + decimal((-i) as nat)
    } else {
        decimal(i as nat)
    }
}

fn digit(d: u64) -> (c: char)
    requires
        d < 10,
    ensures
        c == digit_char(d as nat),
{
    if d == 0 { '0' }
    else if d == 1 { '1' }
    else if d == 2 { '2' }
    else if d == 3 { '3' }
    else if d == 4 { '4' }
    else if d == 5 { '5' }
    else if d == 6 { '6' }
    else if d == 7 { '7' }
    else if d == 8 { '8' }
    else { '9' }
}

/// Appends the decimal notation of `n`.
pub fn push_u64(s: &mut String, n: u64)
    ensures
        final(s)@ == old(s)@ + decimal(n as nat),
    decreases n,
{
    if n < 10 {
        push_char(s, digit(n));
    } else {
        push_u64(s, n / 10);
        push_char(s, digit(n % 10));
    }
}

/// Appends the decimal notation of `i`, signed.
pub fn push_i64(s: &mut String, i: i64)
    ensures
        final(s)@ == old(s)@ + signed_decimal(i as int),
{
    if i < 0 {
        push_char(s, '-');
        let magnitude: u64 = ((-(i + 1)) as u64) + 1;
        push_u64(s, magnitude);
        assert(final(s)@ =~= old(s)@ + (seq!['-'] + decimal((-i) as nat)));
    } else {
        push_u64(s, i as u64);
    }
}

/// The decimal notation of `i` as a new string.
pub fn i64_text(i: i64) -> (s: String)
    ensures
        s@ == signed_decimal(i as int),
{
    let mut s = String::new();
    push_i64(&mut s, i);
    assert(s@ =~= signed_decimal(i as int));
    s
}

/// Items joined by a separator: `a`, `a<sep>b`, `a<sep>b<sep>c`, ...
pub open spec fn join(items: Seq<Seq<char>>, sep: Seq<char>) -> Seq<char>
    decreases items.len(),
{
    if items.len() == 0 {
        Seq::empty()
    } else if items.len() == 1 {
        items[0]
    } else {
        join(items.drop_last(), sep) + sep + items.last()
    }
}

/// Concatenation of all items.
pub open spec fn concat(items: Seq<Seq<char>>) -> Seq<char>
    decreases items.len(),
{
    if items.len() == 0 {
        Seq::empty()
    } else {
        concat(items.drop_last()) + items.last()
    }
}

/// Joining one more item onto a non-empty prefix adds the separator and the item.
pub proof fn lemma_join_push(items: Seq<Seq<char>>, sep: Seq<char>, x: Seq<char>)
    requires
        items.len() > 0,
    ensures
        join(items.push(x), sep) == join(items, sep) + sep + x,
{
    assert(items.push(x).drop_last() =~= items);
}

/// Concatenation distributes over sequence concatenation.
pub proof fn lemma_concat_append(a: Seq<Seq<char>>, b: Seq<Seq<char>>)
    ensures
        concat(a + b) == concat(a) + concat(b),
    decreases b.len(),
{
    if b.len() == 0 {
        assert(a + b =~= a);
        assert(concat(b) =~= Seq::<char>::empty());
        assert(concat(a) + concat(b) =~= concat(a));
    } else {
        lemma_concat_append(a, b.drop_last());
        assert((a + b).drop_last() =~= a + b.drop_last());
        assert((a + b).last() == b.last());
        assert(concat(a + b) =~= concat(a) + concat(b));
    }
}

/// Joins strings with a separator.
pub fn join_strings(items: &Vec<String>, sep: &str) -> (s: String)
    ensures
        s@ == join(items@.map_values(|x: String| x@), sep@),
{
    let ghost views = items@.map_values(|x: String| x@);
    let mut s = String::new();
    let mut i: usize = 0;
    while i < items.len()
        invariant
            0 <= i <= items.len(),
            views == items@.map_values(|x: String| x@),
            s@ == join(views.take(i as int), sep@),
        decreases items.len() - i,
    {
        proof {
            assert(views.take(i + 1) =~= views.take(i as int).push(views[i as int]));
            if i > 0 {
                lemma_join_push(views.take(i as int), sep@, views[i as int]);
            } else {
                assert(views.take(1) =~= seq![views[0]]);
            }
        }
        if i > 0 {
            push_str(&mut s, sep);
        }
        push_str(&mut s, items[i].as_str());
        i = i + 1;
    }
    assert(views.take(items.len() as int) =~= views);
    s
}

/// The lowercase hexadecimal digit of a value below sixteen.
pub open spec fn hex_digit(d: nat) -> char {
    if d < 10 {
        digit_char(d)
    } else if d == 10 { 'a' }
    else if d == 11 { 'b' }
    else if d == 12 { 'c' }
    else if d == 13 { 'd' }
    else if d == 14 { 'e' }
    else { 'f' }
}

/// Two lowercase hexadecimal digits of a byte, as `{:02x}` writes them.
pub open spec fn hex_byte(b: u8) -> Seq<char> {
    seq![hex_digit((b / 16) as nat), hex_digit((b % 16) as nat)]
}

/// Lowercase hexadecimal notation of a byte string, two digits a byte.
pub open spec fn hex_bytes(bytes: Seq<u8>) -> Seq<char>
    decreases bytes.len(),
{
    if bytes.len() == 0 {
        Seq::empty()
    } else {
        hex_bytes(bytes.drop_last()) + hex_byte(bytes.last())
    }
}

fn hex_char(d: u8) -> (c: char)
    requires
        d < 16,
    ensures
        c == hex_digit(d as nat),
{
    if d < 10 {
        digit(d as u64)
    } else if d == 10 { 'a' }
    else if d == 11 { 'b' }
    else if d == 12 { 'c' }
    else if d == 13 { 'd' }
    else if d == 14 { 'e' }
    else { 'f' }
}

/// Appends the lowercase hexadecimal notation of a byte string.
pub fn push_hex(s: &mut String, bytes: &Vec<u8>)
    ensures
        final(s)@ == old(s)@ + hex_bytes(bytes@),
{
    let ghost start = s@;
    let mut i: usize = 0;
    while i < bytes.len()
        invariant
            0 <= i <= bytes.len(),
            s@ == start + hex_bytes(bytes@.take(i as int)),
        decreases bytes.len() - i,
    {
        let b = bytes[i];
        push_char(s, hex_char(b / 16));
        push_char(s, hex_char(b % 16));
        proof {
            let t = bytes@.take(i + 1);
            assert(t.drop_last() =~= bytes@.take(i as int));
            assert(t.last() == b);
            assert(s@ =~= start + hex_bytes(t));
        }
        i = i + 1;
    }
    assert(bytes@.take(bytes.len() as int) =~= bytes@);
}

/// Whether `s` holds no double quote.
pub open spec fn quote_free(s: Seq<char>) -> bool {
    forall|k: int| 0 <= k < s.len() ==> s[k] != '"'
}

/// A character as it appears inside a double-quoted CSV field: a quote is
/// doubled, every other character is itself.
pub open spec fn csv_char(c: char) -> Seq<char> {
    if c == '"' {
        seq!['"', '"']
    } else {
        seq![c]
    }
}

/// The body of a double-quoted CSV field (without the surrounding quotes).
pub open spec fn csv_escape(s: Seq<char>) -> Seq<char>
    decreases s.len(),
{
    if s.len() == 0 {
        Seq::empty()
    } else {
        csv_escape(s.drop_last()) + csv_char(s.last())
    }
}

/// Appends the escaped body of a double-quoted CSV field.
pub fn push_csv_escaped(s: &mut String, text: &str)
    ensures
        final(s)@ == old(s)@ + csv_escape(text@),
{
    let ghost start = s@;
    let ghost src = text@;
    for c in it: text.chars()
        invariant
            it.seq() == src,
            s@ == start + csv_escape(src.take(it.index() as int)),
    {
        let ghost k = it.index();
        if c == '"' {
            push_char(s, '"');
            push_char(s, '"');
        } else {
            push_char(s, c);
        }
        proof {
            let t = src.take(k + 1);
            assert(t.drop_last() =~= src.take(k as int));
            assert(t.last() == c);
            assert(s@ =~= start + csv_escape(t));
        }
    }
    assert(src.take(src.len() as int) =~= src);
}

/// Length in bytes of the UTF-8 encoding of a text.
pub open spec fn utf8_len(s: Seq<char>) -> nat {
    vstd::utf8::encode_utf8(s).len()
}

/// Byte length of a string, as `str::len` reports it.
pub fn byte_len(s: &str) -> (n: usize)
    ensures
        n == utf8_len(s@) as usize,
{
    s.len()
}

/// How a reader of a double-quoted CSV field takes its body back: a doubled
/// quote stands for one quote, every other character for itself.
pub open spec fn csv_unescape(t: Seq<char>) -> Seq<char>
    decreases t.len(),
{
    if t.len() == 0 {
        Seq::empty()
    } else if t.len() >= 2 && t[0] == '"' && t[1] == '"' {
        seq!['"'] + csv_unescape(t.skip(2))
    } else {
        seq![t[0]] + csv_unescape(t.skip(1))
    }
}

/// Escaping one more leading character escapes it in front of the rest.
proof fn lemma_csv_escape_prepend(c: char, s: Seq<char>)
    ensures
        csv_escape(seq![c] + s) == csv_char(c) + csv_escape(s),
    decreases s.len(),
{
    let t = seq![c] + s;
    if s.len() == 0 {
        assert(t.drop_last() =~= Seq::<char>::empty());
        assert(csv_escape(t.drop_last()) =~= Seq::<char>::empty());
        assert(t.last() == c);
        assert(csv_escape(t) == csv_escape(t.drop_last()) + csv_char(t.last()));
        assert(csv_escape(t) =~= csv_char(c));
        assert(csv_char(c) + csv_escape(s) =~= csv_char(c));
    } else {
        lemma_csv_escape_prepend(c, s.drop_last());
        assert(t.drop_last() =~= seq![c] + s.drop_last());
        assert(t.last() == s.last());
        assert(csv_escape(t) =~= csv_char(c) + csv_escape(s));
    }
}

/// The body of a field whose quotes are doubled reads back as the text: a
/// reader of the CSV gets exactly what was written.
pub proof fn law_csv_escape_reads_back(s: Seq<char>)
    ensures
        csv_unescape(csv_escape(s)) == s,
    decreases s.len(),
{
    if s.len() == 0 {
        assert(csv_escape(s) =~= Seq::<char>::empty());
    } else {
        let c = s[0];
        let rest = s.drop_first();
        assert(s =~= seq![c] + rest);
        law_csv_escape_reads_back(rest);
        lemma_csv_escape_prepend(c, rest);
        let e = csv_escape(rest);
        if c == '"' {
            let t = seq!['"', '"'] + e;
            assert(t.skip(2) =~= e);
            assert(csv_unescape(t) == seq!['"'] + csv_unescape(e));
        } else {
            let t = seq![c] + e;
            assert(t.skip(1) =~= e);
            assert(csv_unescape(t) == seq![c] + csv_unescape(e));
        }
    }
}

} // verus!
