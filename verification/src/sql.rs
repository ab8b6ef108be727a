//! SQL text: placeholders, value tuples, equality lists and statement plans
//! that split large inputs into chunks.
use vstd::prelude::*;
use crate::text::{decimal, join, push_str, push_char, push_u64, lemma_join_push};
use crate::value::{Statement, StatementV, SqlValue, BindV};

verus! {

/// How a driver writes placeholders: `?` (MySQL, SQLite) or `$n` (PostgreSQL,
/// numbered from one in order of appearance).
#[derive(Clone, Copy, Debug, PartialEq, Eq, Structural)]
pub enum Placeholder {
    Question,
    Numbered,
}

/// The text of the placeholder for the `n`-th bound value.
pub open spec fn placeholder(p: Placeholder, n: nat) -> Seq<char> {
    match p {
        Placeholder::Question => seq!['?'],
        Placeholder::Numbered => seq!['$'] + decimal(n),
    }
}

/// `count` placeholders numbered from `first`.
pub open spec fn placeholder_items(p: Placeholder, first: nat, count: nat) -> Seq<Seq<char>> {
    Seq::new(count, |i: int| placeholder(p, (first + i) as nat))
}

/// `count` placeholders numbered from `first`, separated by `, `.
pub open spec fn placeholder_list(p: Placeholder, first: nat, count: nat) -> Seq<char> {
    join(placeholder_items(p, first, count), seq![',', ' '])
}

/// A parenthesised tuple of `width` placeholders numbered from `first`.
pub open spec fn tuple(p: Placeholder, first: nat, width: nat) -> Seq<char> {
    seq!['('] + placeholder_list(p, first, width) + seq![')']
}

/// `rows` tuples of `width` placeholders each, numbered on from `first`.
pub open spec fn tuple_items(p: Placeholder, first: nat, rows: nat, width: nat) -> Seq<Seq<char>> {
    Seq::new(rows, |r: int| tuple(p, (first + r * width) as nat, width))
}

/// A `VALUES` clause of `rows` tuples, as `QueryBuilder::push_values` writes it.
pub open spec fn values_clause(p: Placeholder, first: nat, rows: nat, width: nat) -> Seq<char> {
    seq!['V', 'A', 'L', 'U', 'E', 'S', ' '] + join(tuple_items(p, first, rows, width), seq![',', ' '])
}

/// A statement made of a head, a `VALUES` clause numbered from one, and a tail.
pub open spec fn values_sql(head: Seq<char>, p: Placeholder, rows: nat, width: nat, tail: Seq<char>) -> Seq<char> {
    head + values_clause(p, 1, rows, width) + tail
}

/// `name = <placeholder>` for each name, numbered on from `first`.
pub open spec fn equality_items(names: Seq<Seq<char>>, p: Placeholder, first: nat) -> Seq<Seq<char>> {
    Seq::new(names.len(), |i: int| names[i] + seq![' ', '=', ' '] + placeholder(p, (first + i) as nat))
}

/// An `UPDATE` statement: the head (`UPDATE t SET `), the assignments of
/// `set` joined by `, `, then `WHERE` and the equalities of `keys` joined by
/// `AND`; placeholders numbered from one.
pub open spec fn update_sql(head: Seq<char>, set: Seq<Seq<char>>, keys: Seq<Seq<char>>, p: Placeholder) -> Seq<char> {
    head + join(equality_items(set, p, 1), seq![',', ' '])
        + seq![' ', 'W', 'H', 'E', 'R', 'E', ' ']
        + join(equality_items(keys, p, (1 + set.len()) as nat), seq![' ', 'A', 'N', 'D', ' '])
}

/// A `... IN (...)` statement for `count` values.
pub open spec fn in_list_sql(head: Seq<char>, p: Placeholder, count: nat) -> Seq<char> {
    head + tuple(p, 1, count)
}

/// Appends the placeholder for the `n`-th bound value.
pub fn push_placeholder(s: &mut String, p: Placeholder, n: u64)
    ensures
        final(s)@ == old(s)@ + placeholder(p, n as nat),
{
    match p {
        Placeholder::Question => {
            push_char(s, '?');
        },
        Placeholder::Numbered => {
            push_char(s, '$');
            push_u64(s, n);
            assert(final(s)@ =~= old(s)@ + (seq!['$'] + decimal(n as nat)));
        },
    }
}

/// Appends `count` placeholders numbered from `first`, separated by `, `.
pub fn push_placeholder_list(s: &mut String, p: Placeholder, first: u64, count: u64)
    requires
        first + count <= u64::MAX,
    ensures
        final(s)@ == old(s)@ + placeholder_list(p, first as nat, count as nat),
{
    let ghost start = s@;
    let ghost items = placeholder_items(p, first as nat, count as nat);
    let mut i: u64 = 0;
    while i < count
        invariant
            0 <= i <= count,
            first + count <= u64::MAX,
            items == placeholder_items(p, first as nat, count as nat),
            s@ == start + join(items.take(i as int), seq![',', ' ']),
        decreases count - i,
    {
        proof {
            reveal_strlit(", ");
            assert(items.take(i + 1) =~= items.take(i as int).push(items[i as int]));
            if i > 0 {
                lemma_join_push(items.take(i as int), seq![',', ' '], items[i as int]);
            } else {
                assert(items.take(1) =~= seq![items[0]]);
            }
        }
        if i > 0 {
            push_str(s, ", ");
        }
        push_placeholder(s, p, first + i);
        proof {
            reveal_strlit(", ");
            assert(s@ =~= start + join(items.take(i + 1), seq![',', ' ']));
        }
        i = i + 1;
    }
    assert(items.take(count as int) =~= items);
}

/// Appends a parenthesised tuple of `width` placeholders numbered from `first`.
pub fn push_tuple(s: &mut String, p: Placeholder, first: u64, width: u64)
    requires
        first + width <= u64::MAX,
    ensures
        final(s)@ == old(s)@ + tuple(p, first as nat, width as nat),
{
    push_char(s, '(');
    push_placeholder_list(s, p, first, width);
    push_char(s, ')');
    assert(final(s)@ =~= old(s)@ + tuple(p, first as nat, width as nat));
}

/// Appends a `VALUES` clause of `rows` tuples of `width` placeholders,
/// numbered from `first`.
pub fn push_values_clause(s: &mut String, p: Placeholder, first: u64, rows: u64, width: u64)
    requires
        first + rows * width <= u64::MAX,
    ensures
        final(s)@ == old(s)@ + values_clause(p, first as nat, rows as nat, width as nat),
{
    let ghost start = s@;
    let ghost items = tuple_items(p, first as nat, rows as nat, width as nat);
    proof {
        reveal_strlit("VALUES ");
    }
    push_str(s, "VALUES ");
    let mut r: u64 = 0;
    let mut next: u64 = first;
    while r < rows
        invariant
            0 <= r <= rows,
            first + rows * width <= u64::MAX,
            next == first + r * width,
            items == tuple_items(p, first as nat, rows as nat, width as nat),
            s@ == start + seq!['V', 'A', 'L', 'U', 'E', 'S', ' '] + join(items.take(r as int), seq![',', ' ']),
        decreases rows - r,
    {
        proof {
            reveal_strlit(", ");
            assert(r * width + width == (r + 1) * width) by (nonlinear_arith);
            assert((r + 1) * width <= rows * width) by (nonlinear_arith)
                requires r + 1 <= rows;
            assert(items.take(r + 1) =~= items.take(r as int).push(items[r as int]));
            if r > 0 {
                lemma_join_push(items.take(r as int), seq![',', ' '], items[r as int]);
            } else {
                assert(items.take(1) =~= seq![items[0]]);
            }
        }
        if r > 0 {
            push_str(s, ", ");
        }
        push_tuple(s, p, next, width);
        proof {
            reveal_strlit(", ");
            assert(s@ =~= start + seq!['V', 'A', 'L', 'U', 'E', 'S', ' '] + join(items.take(r + 1), seq![',', ' ']));
        }
        next = next + width;
        r = r + 1;
    }
    assert(items.take(rows as int) =~= items);
    assert(final(s)@ =~= old(s)@ + values_clause(p, first as nat, rows as nat, width as nat));
}

/// The text of a statement made of a head, a `VALUES` clause of `rows` tuples
/// of `width` placeholders numbered from one, and a tail.
pub fn values_text(head: &str, p: Placeholder, rows: u64, width: u64, tail: &str) -> (s: String)
    requires
        1 + rows * width <= u64::MAX,
    ensures
        s@ == values_sql(head@, p, rows as nat, width as nat, tail@),
{
    let mut s = String::new();
    push_str(&mut s, head);
    push_values_clause(&mut s, p, 1, rows, width);
    push_str(&mut s, tail);
    assert(s@ =~= values_sql(head@, p, rows as nat, width as nat, tail@));
    s
}

/// Appends `name = <placeholder>` for each name, numbered from `first` and
/// joined by `sep`.
pub fn push_equalities(s: &mut String, names: &Vec<&str>, p: Placeholder, first: u64, sep: &str)
    requires
        first + names.len() <= u64::MAX,
    ensures
        final(s)@ == old(s)@ + join(
            equality_items(names@.map_values(|n: &str| n@), p, first as nat),
            sep@,
        ),
{
    let ghost start = s@;
    let ghost views = names@.map_values(|n: &str| n@);
    let ghost items = equality_items(views, p, first as nat);
    let mut i: usize = 0;
    while i < names.len()
        invariant
            0 <= i <= names.len(),
            first + names.len() <= u64::MAX,
            views == names@.map_values(|n: &str| n@),
            items == equality_items(views, p, first as nat),
            s@ == start + join(items.take(i as int), sep@),
        decreases names.len() - i,
    {
        proof {
            assert(items.take(i + 1) =~= items.take(i as int).push(items[i as int]));
            if i > 0 {
                lemma_join_push(items.take(i as int), sep@, items[i as int]);
            } else {
                assert(items.take(1) =~= seq![items[0]]);
            }
        }
        if i > 0 {
            push_str(s, sep);
        }
        push_str(s, names[i]);
        proof {
            reveal_strlit(" = ");
        }
        push_str(s, " = ");
        push_placeholder(s, p, first + i as u64);
        proof {
            assert(s@ =~= start + join(items.take(i + 1), sep@));
        }
        i = i + 1;
    }
    assert(items.take(names.len() as int) =~= items);
}

/// The text of an `UPDATE` statement that assigns `set` and selects the row by
/// `keys`.
pub fn update_text(head: &str, set: &Vec<&str>, keys: &Vec<&str>, p: Placeholder) -> (s: String)
    requires
        1 + set.len() + keys.len() <= u64::MAX,
    ensures
        s@ == update_sql(head@, set@.map_values(|n: &str| n@), keys@.map_values(|n: &str| n@), p),
{
    let mut s = String::new();
    let ghost set_v = set@.map_values(|n: &str| n@);
    let ghost keys_v = keys@.map_values(|n: &str| n@);
    push_str(&mut s, head);
    push_equalities(&mut s, set, p, 1, ", ");
    proof {
        reveal_strlit(" WHERE ");
        reveal_strlit(", ");
        reveal_strlit(" AND ");
        assert(", "@ =~= seq![',', ' ']);
        assert(" WHERE "@ =~= seq![' ', 'W', 'H', 'E', 'R', 'E', ' ']);
        assert(" AND "@ =~= seq![' ', 'A', 'N', 'D', ' ']);
    }
    let ghost s1 = s@;
    assert(s1 == head@ + join(equality_items(set_v, p, 1), seq![',', ' ']));
    push_str(&mut s, " WHERE ");
    let k: u64 = 1 + set.len() as u64;
    push_equalities(&mut s, keys, p, k, " AND ");
    proof {
        assert(set_v.len() == set.len());
        assert(k as nat == (1 + set_v.len()) as nat);
        assert(s@ == s1 + seq![' ', 'W', 'H', 'E', 'R', 'E', ' ']
            + join(equality_items(keys_v, p, k as nat), seq![' ', 'A', 'N', 'D', ' ']));
    }
    assert(s@ =~= update_sql(head@, set@.map_values(|n: &str| n@), keys@.map_values(|n: &str| n@), p));
    s
}

/// The text of `head` followed by a parenthesised list of `count` placeholders.
pub fn in_list_text(head: &str, p: Placeholder, count: u64) -> (s: String)
    requires
        count < u64::MAX,
    ensures
        s@ == in_list_sql(head@, p, count as nat),
{
    let mut s = String::new();
    push_str(&mut s, head);
    push_tuple(&mut s, p, 1, count);
    s
}

/// `column = VALUES(column)`: on a duplicate key, the column takes the value
/// the new row brings for it.
pub open spec fn values_assignment(column: Seq<char>) -> Seq<char> {
    column + " = VALUES("@ + column + ")"@
}

/// `column = EXCLUDED.column`: on a conflict, the column takes the value the
/// new row brings for it.
pub open spec fn excluded_assignment(column: Seq<char>) -> Seq<char> {
    column + " = EXCLUDED."@ + column
}

/// `s` cut into consecutive pieces of `size` elements; the last piece may be
/// shorter. This is how `slice::chunks` cuts.
pub open spec fn chunks<A>(s: Seq<A>, size: nat) -> Seq<Seq<A>>
    recommends
        size > 0,
    decreases s.len(),
{
    if s.len() == 0 || size == 0 {
        Seq::empty()
    } else if s.len() <= size {
        seq![s]
    } else {
        seq![s.take(size as int)] + chunks(s.skip(size as int), size)
    }
}

/// All elements of all pieces, in order.
pub open spec fn flatten<A>(pieces: Seq<Seq<A>>) -> Seq<A>
    decreases pieces.len(),
{
    if pieces.len() == 0 {
        Seq::empty()
    } else {
        pieces[0] + flatten(pieces.drop_first())
    }
}

/// Cutting into pieces loses and reorders nothing, and no piece is empty or
/// longer than the size.
pub proof fn lemma_chunks<A>(s: Seq<A>, size: nat)
    requires
        size > 0,
    ensures
        flatten(chunks(s, size)) == s,
        forall|k: int| 0 <= k < chunks(s, size).len() ==>
            0 < (#[trigger] chunks(s, size)[k]).len() <= size,
        s.len() > 0 ==> chunks(s, size).len() > 0,
        s.len() <= size && s.len() > 0 ==> chunks(s, size) == seq![s],
    decreases s.len(),
{
    if s.len() == 0 {
        assert(flatten(Seq::<Seq<A>>::empty()) =~= s);
    } else if s.len() <= size {
        assert(seq![s].drop_first() =~= Seq::<Seq<A>>::empty());
        assert(flatten(seq![s].drop_first()) =~= Seq::<A>::empty());
        assert(flatten(seq![s]) =~= s);
    } else {
        let rest = s.skip(size as int);
        lemma_chunks(rest, size);
        let c = chunks(s, size);
        assert(c.drop_first() =~= chunks(rest, size));
        assert(s =~= s.take(size as int) + rest);
        assert forall|k: int| 0 <= k < c.len() implies 0 < (#[trigger] c[k]).len() <= size by {
            if k > 0 {
                assert(c[k] == chunks(rest, size)[k - 1]);
            }
        }
    }
}

/// Pieces of `w` elements each flatten into `w` times as many elements.
pub proof fn lemma_flatten_uniform_len<A>(pieces: Seq<Seq<A>>, w: nat)
    requires
        forall|i: int| 0 <= i < pieces.len() ==> (#[trigger] pieces[i]).len() == w,
    ensures
        flatten(pieces).len() == pieces.len() * w,
    decreases pieces.len(),
{
    if pieces.len() > 0 {
        let rest = pieces.drop_first();
        assert forall|i: int| 0 <= i < rest.len() implies (#[trigger] rest[i]).len() == w by {
            assert(rest[i] == pieces[i + 1]);
        }
        lemma_flatten_uniform_len(rest, w);
        assert(pieces[0].len() == w);
        assert(flatten(pieces).len() == w + rest.len() * w);
        assert(w + rest.len() * w == pieces.len() * w) by (nonlinear_arith)
            requires rest.len() + 1 == pieces.len();
    }
}

/// Moves on past one piece.
pub(crate) proof fn lemma_chunks_step<A>(s: Seq<A>, size: nat, start: nat)
    requires
        size > 0,
        start < s.len(),
    ensures
        chunks(s.skip(start as int), size) == seq![
            s.subrange(start as int, if start + size < s.len() { (start + size) as int } else { s.len() as int })
        ] + chunks(s.skip(if start + size < s.len() { (start + size) as int } else { s.len() as int }), size),
{
    let t = s.skip(start as int);
    if t.len() <= size {
        assert(t =~= s.subrange(start as int, s.len() as int));
        assert(s.skip(s.len() as int) =~= Seq::<A>::empty());
        assert(chunks(Seq::<A>::empty(), size) =~= Seq::<Seq<A>>::empty());
        assert(seq![t] + Seq::<Seq<A>>::empty() =~= seq![t]);
    } else {
        assert(t.take(size as int) =~= s.subrange(start as int, (start + size) as int));
        assert(t.skip(size as int) =~= s.skip((start + size) as int));
    }
}

/// Copies the values of consecutive rows into one vector.
fn flatten_into(out: &mut Vec<SqlValue>, rows: &Vec<Vec<SqlValue>>, from: usize, to: usize)
    requires
        from <= to <= rows.len(),
    ensures
        final(out)@.map_values(|b: SqlValue| b@) == old(out)@.map_values(|b: SqlValue| b@)
            + flatten(rows@.subrange(from as int, to as int).map_values(|r: Vec<SqlValue>| r@.map_values(|b: SqlValue| b@))),
    decreases to - from,
{
    if from < to {
        let ghost before = out@.map_values(|b: SqlValue| b@);
        let row = &rows[from];
        let mut j: usize = 0;
        while j < row.len()
            invariant
                0 <= j <= row.len(),
                out@.map_values(|b: SqlValue| b@) == before + row@.take(j as int).map_values(|b: SqlValue| b@),
            decreases row.len() - j,
        {
            let ghost prev = out@;
            out.push(row[j].clone_value());
            proof {
                assert(out@ =~= prev.push(out@[out@.len() - 1]));
                assert(out@.map_values(|b: SqlValue| b@) =~= prev.map_values(|b: SqlValue| b@).push(row@[j as int]@));
                assert(row@.take(j + 1).map_values(|b: SqlValue| b@)
                    =~= row@.take(j as int).map_values(|b: SqlValue| b@).push(row@[j as int]@));
                assert(out@.map_values(|b: SqlValue| b@) =~= before + row@.take(j + 1).map_values(|b: SqlValue| b@));
            }
            j = j + 1;
        }
        assert(row@.take(row.len() as int) =~= row@);
        flatten_into(out, rows, from + 1, to);
        proof {
            let all = rows@.subrange(from as int, to as int).map_values(|r: Vec<SqlValue>| r@.map_values(|b: SqlValue| b@));
            let rest = rows@.subrange(from + 1, to as int).map_values(|r: Vec<SqlValue>| r@.map_values(|b: SqlValue| b@));
            assert(all.drop_first() =~= rest);
            assert(all[0] == rows@[from as int]@.map_values(|b: SqlValue| b@));
            assert(final(out)@.map_values(|b: SqlValue| b@) =~= old(out)@.map_values(|b: SqlValue| b@) + flatten(all));
        }
    } else {
        assert(rows@.subrange(from as int, to as int).map_values(|r: Vec<SqlValue>| r@.map_values(|b: SqlValue| b@))
            =~= Seq::<Seq<BindV>>::empty());
        assert(out@.map_values(|b: SqlValue| b@) =~= old(out)@.map_values(|b: SqlValue| b@) + Seq::<BindV>::empty());
    }
}

impl SqlValue {
    /// A copy of this value.
    pub fn clone_value(&self) -> (v: SqlValue)
        ensures
            v@ == self@,
    {
        match self {
            SqlValue::Bool(v) => SqlValue::Bool(*v),
            SqlValue::SmallInt(v) => SqlValue::SmallInt(*v),
            SqlValue::Int(v) => SqlValue::Int(*v),
            SqlValue::BigInt(v) => SqlValue::BigInt(*v),
            SqlValue::UnsignedInt(v) => SqlValue::UnsignedInt(*v),
            SqlValue::Real(v) => SqlValue::opt_real(v),
            SqlValue::Double(v) => SqlValue::opt_double(v),
            SqlValue::Text(v) => SqlValue::opt_text(v),
            SqlValue::Bytes(v) => SqlValue::opt_bytes(v),
            SqlValue::Json(v) => SqlValue::opt_json(v),
            SqlValue::Date(v) => SqlValue::Date(*v),
            SqlValue::Timestamp(v) => SqlValue::Timestamp(*v),
            SqlValue::LocalTimestamp(v) => SqlValue::LocalTimestamp(*v),
        }
    }
}

/// The bind values of each row.
pub open spec fn rows_view(rows: Seq<Vec<SqlValue>>) -> Seq<Seq<BindV>> {
    rows.map_values(|r: Vec<SqlValue>| r@.map_values(|b: SqlValue| b@))
}

/// The statement for one piece of a multi-row `VALUES` plan.
pub open spec fn values_piece(head: Seq<char>, tail: Seq<char>, p: Placeholder, width: nat, piece: Seq<Seq<BindV>>) -> StatementV {
    StatementV { sql: values_sql(head, p, piece.len(), width, tail), binds: flatten(piece) }
}

/// Multi-row `VALUES` statements: the rows are cut into pieces of at most
/// `size` rows, and each piece becomes one statement `head VALUES (..), (..) tail`
/// whose values are those of its rows in order.
pub fn values_plan(head: &str, tail: &str, p: Placeholder, width: usize, size: usize, rows: &Vec<Vec<SqlValue>>) -> (plan: Vec<Statement>)
    requires
        size > 0,
        size * width < u64::MAX,
        forall|j: int| 0 <= j < rows@.len() ==> (#[trigger] rows_view(rows@)[j]).len() == width,
    ensures
        plan@.len() == chunks(rows_view(rows@), size as nat).len(),
        forall|k: int| 0 <= k < plan@.len() ==> (#[trigger] plan@[k])@ == values_piece(
            head@, tail@, p, width as nat, chunks(rows_view(rows@), size as nat)[k]),
        forall|k: int| 0 <= k < plan@.len() ==> (#[trigger] plan@[k])@.binds.len() <= size * width,
{
    let ghost all = rows_view(rows@);
    let ghost pieces = chunks(all, size as nat);
    let mut plan: Vec<Statement> = Vec::new();
    let mut start: usize = 0;
    let n = rows.len();
    assert(all.skip(0) =~= all);
    assert(pieces.take(0) + chunks(all.skip(0), size as nat) =~= pieces);
    while start < n
        invariant
            0 <= start <= n,
            n == rows.len(),
            size > 0,
            size * width < u64::MAX,
            all == rows_view(rows@),
            all.len() == n,
            pieces == chunks(all, size as nat),
            plan@.len() <= pieces.len(),
            pieces == pieces.take(plan@.len() as int) + chunks(all.skip(start as int), size as nat),
            forall|k: int| 0 <= k < plan@.len() ==> (#[trigger] plan@[k])@ == values_piece(
                head@, tail@, p, width as nat, pieces[k]),
            forall|k: int| 0 <= k < plan@.len() ==> (#[trigger] plan@[k])@.binds.len() <= size * width,
            forall|j: int| 0 <= j < all.len() ==> (#[trigger] all[j]).len() == width,
        decreases n - start,
    {
        let end: usize = if n - start > size { start + size } else { n };
        proof {
            lemma_chunks_step(all, size as nat, start as nat);
        }
        let count = end - start;
        assert(count * width <= size * width) by (nonlinear_arith)
            requires count <= size;
        let sql = values_text(head, p, count as u64, width as u64, tail);
        let mut binds: Vec<SqlValue> = Vec::new();
        flatten_into(&mut binds, rows, start, end);
        let st = Statement { sql, binds };
        let ghost piece = all.subrange(start as int, end as int);
        proof {
            assert(rows@.subrange(start as int, end as int).map_values(|r: Vec<SqlValue>| r@.map_values(|b: SqlValue| b@)) =~= piece);
            assert(st@.binds =~= flatten(piece));
            assert(st@ == values_piece(head@, tail@, p, width as nat, piece));
            lemma_flatten_uniform_len(piece, width as nat);
            assert(st@.binds.len() <= size * width);
            let d = plan@.len() as int;
            assert(pieces =~= pieces.take(d) + (seq![piece] + chunks(all.skip(end as int), size as nat)));
            assert(pieces[d] == piece);
            assert(pieces.take(d + 1) =~= pieces.take(d).push(piece));
            assert(pieces =~= pieces.take(d + 1) + chunks(all.skip(end as int), size as nat));
        }
        plan.push(st);
        start = end;
    }
    proof {
        assert(all.skip(n as int) =~= Seq::<Seq<BindV>>::empty());
        assert(pieces =~= pieces.take(plan@.len() as int));
    }
    plan
}

/// The statement for one piece of an `IN (...)` plan.
pub open spec fn in_list_piece(head: Seq<char>, p: Placeholder, piece: Seq<BindV>) -> StatementV {
    StatementV { sql: in_list_sql(head, p, piece.len()), binds: piece }
}

/// `IN (...)` statements: the values are cut into pieces of at most `size`,
/// and each piece becomes one statement `head (?, ?, ...)` bound to its values.
pub fn in_list_plan(head: &str, p: Placeholder, size: usize, values: &Vec<SqlValue>) -> (plan: Vec<Statement>)
    requires
        size > 0,
        size < u64::MAX,
    ensures
        plan@.len() == chunks(values@.map_values(|b: SqlValue| b@), size as nat).len(),
        forall|k: int| 0 <= k < plan@.len() ==> (#[trigger] plan@[k])@ == in_list_piece(
            head@, p, chunks(values@.map_values(|b: SqlValue| b@), size as nat)[k]),
{
    let ghost all = values@.map_values(|b: SqlValue| b@);
    let ghost pieces = chunks(all, size as nat);
    let mut plan: Vec<Statement> = Vec::new();
    let mut start: usize = 0;
    let n = values.len();
    assert(all.skip(0) =~= all);
    assert(pieces.take(0) + chunks(all.skip(0), size as nat) =~= pieces);
    while start < n
        invariant
            0 <= start <= n,
            n == values.len(),
            size > 0,
            size < u64::MAX,
            all == values@.map_values(|b: SqlValue| b@),
            all.len() == n,
            pieces == chunks(all, size as nat),
            plan@.len() <= pieces.len(),
            pieces == pieces.take(plan@.len() as int) + chunks(all.skip(start as int), size as nat),
            forall|k: int| 0 <= k < plan@.len() ==> (#[trigger] plan@[k])@ == in_list_piece(head@, p, pieces[k]),
        decreases n - start,
    {
        let end: usize = if n - start > size { start + size } else { n };
        proof {
            lemma_chunks_step(all, size as nat, start as nat);
        }
        let sql = in_list_text(head, p, (end - start) as u64);
        let mut binds: Vec<SqlValue> = Vec::new();
        let mut i: usize = start;
        while i < end
            invariant
                start <= i <= end <= n,
                n == values.len(),
                all == values@.map_values(|b: SqlValue| b@),
                binds@.map_values(|b: SqlValue| b@) == all.subrange(start as int, i as int),
            decreases end - i,
        {
            let ghost prev = binds@;
            binds.push(values[i].clone_value());
            proof {
                assert(binds@ =~= prev.push(binds@[binds@.len() - 1]));
                assert(binds@.map_values(|b: SqlValue| b@) =~= prev.map_values(|b: SqlValue| b@).push(values@[i as int]@));
                assert(all[i as int] == values@[i as int]@);
                assert(binds@.map_values(|b: SqlValue| b@) =~= all.subrange(start as int, i + 1));
            }
            i = i + 1;
        }
        let st = Statement { sql, binds };
        let ghost piece = all.subrange(start as int, end as int);
        proof {
            assert(st@ == in_list_piece(head@, p, piece));
            let d = plan@.len() as int;
            assert(pieces =~= pieces.take(d) + (seq![piece] + chunks(all.skip(end as int), size as nat)));
            assert(pieces[d] == piece);
            assert(pieces.take(d + 1) =~= pieces.take(d).push(piece));
            assert(pieces =~= pieces.take(d + 1) + chunks(all.skip(end as int), size as nat));
        }
        plan.push(st);
        start = end;
    }
    proof {
        assert(all.skip(n as int) =~= Seq::<BindV>::empty());
        assert(pieces =~= pieces.take(plan@.len() as int));
    }
    plan
}

/// A paginated `SELECT`: the base, ` ORDER BY `, the terms joined by `, `,
/// then ` LIMIT ` and ` OFFSET ` with the first and second placeholders.
pub open spec fn page_sql(base: Seq<char>, terms: Seq<Seq<char>>, p: Placeholder) -> Seq<char> {
    base + seq![' ', 'O', 'R', 'D', 'E', 'R', ' ', 'B', 'Y', ' '] + join(terms, seq![',', ' '])
        + seq![' ', 'L', 'I', 'M', 'I', 'T', ' '] + placeholder(p, 1)
        + seq![' ', 'O', 'F', 'F', 'S', 'E', 'T', ' '] + placeholder(p, 2)
}

/// The text of a paginated `SELECT` ordered by the given terms.
pub fn page_text(base: &str, terms: &Vec<&str>, p: Placeholder) -> (s: String)
    ensures
        s@ == page_sql(base@, terms@.map_values(|t: &str| t@), p),
{
    let ghost views = terms@.map_values(|t: &str| t@);
    let mut s = String::new();
    push_str(&mut s, base);
    proof {
        reveal_strlit(" ORDER BY ");
        reveal_strlit(" LIMIT ");
        reveal_strlit(" OFFSET ");
        reveal_strlit(", ");
        assert(" ORDER BY "@ =~= seq![' ', 'O', 'R', 'D', 'E', 'R', ' ', 'B', 'Y', ' ']);
        assert(" LIMIT "@ =~= seq![' ', 'L', 'I', 'M', 'I', 'T', ' ']);
        assert(" OFFSET "@ =~= seq![' ', 'O', 'F', 'F', 'S', 'E', 'T', ' ']);
        assert(", "@ =~= seq![',', ' ']);
    }
    push_str(&mut s, " ORDER BY ");
    let ghost start = s@;
    let mut i: usize = 0;
    while i < terms.len()
        invariant
            0 <= i <= terms.len(),
            views == terms@.map_values(|t: &str| t@),
            ", "@ == seq![',', ' '],
            s@ == start + join(views.take(i as int), seq![',', ' ']),
        decreases terms.len() - i,
    {
        proof {
            assert(views.take(i + 1) =~= views.take(i as int).push(views[i as int]));
            if i > 0 {
                lemma_join_push(views.take(i as int), seq![',', ' '], views[i as int]);
            } else {
                assert(views.take(1) =~= seq![views[0]]);
            }
        }
        if i > 0 {
            push_str(&mut s, ", ");
        }
        push_str(&mut s, terms[i]);
        i = i + 1;
    }
    assert(views.take(terms.len() as int) =~= views);
    push_str(&mut s, " LIMIT ");
    push_placeholder(&mut s, p, 1);
    push_str(&mut s, " OFFSET ");
    push_placeholder(&mut s, p, 2);
    assert(s@ =~= page_sql(base@, views, p));
    s
}

/// A paginated `SELECT`: the head (which ends in `ORDER BY `), the ordering
/// text, then ` LIMIT ` and ` OFFSET ` with the first and second placeholders.
pub open spec fn paged_sql(head: Seq<char>, order: Seq<char>, p: Placeholder) -> Seq<char> {
    head + order
        + seq![' ', 'L', 'I', 'M', 'I', 'T', ' '] + placeholder(p, 1)
        + seq![' ', 'O', 'F', 'F', 'S', 'E', 'T', ' '] + placeholder(p, 2)
}

/// The text of a paginated `SELECT` with the given ordering text.
pub fn paged_text(head: &str, order: &str, p: Placeholder) -> (s: String)
    ensures
        s@ == paged_sql(head@, order@, p),
{
    proof {
        reveal_strlit(" LIMIT ");
        reveal_strlit(" OFFSET ");
        assert(" LIMIT "@ =~= seq![' ', 'L', 'I', 'M', 'I', 'T', ' ']);
        assert(" OFFSET "@ =~= seq![' ', 'O', 'F', 'F', 'S', 'E', 'T', ' ']);
    }
    let mut s = String::new();
    push_str(&mut s, head);
    push_str(&mut s, order);
    push_str(&mut s, " LIMIT ");
    push_placeholder(&mut s, p, 1);
    push_str(&mut s, " OFFSET ");
    push_placeholder(&mut s, p, 2);
    assert(s@ =~= paged_sql(head@, order@, p));
    s
}

/// The column names an optional assignment adds: the name when there is a
/// value, nothing otherwise.
pub open spec fn assigned_column<T>(value: Option<T>, name: Seq<char>) -> Seq<Seq<char>> {
    if value is Some { seq![name] } else { Seq::empty() }
}

/// The bound values an optional assignment adds.
pub open spec fn assigned_value(value: Option<SqlValue>) -> Seq<BindV> {
    match value {
        Some(v) => seq![v@],
        None => Seq::empty(),
    }
}

/// Adds the assignment of `name` to the columns to set, and its value to the
/// values to bind, when there is a value.
pub fn push_assignment(set: &mut Vec<&str>, binds: &mut Vec<SqlValue>, name: &'static str, value: Option<SqlValue>)
    ensures
        final(set)@.map_values(|n: &str| n@) == old(set)@.map_values(|n: &str| n@) + assigned_column(value, name@),
        final(binds)@.map_values(|b: SqlValue| b@) == old(binds)@.map_values(|b: SqlValue| b@) + assigned_value(value),
        final(set)@.len() <= old(set)@.len() + 1,
{
    match value {
        Some(v) => {
            set.push(name);
            binds.push(v);
        },
        None => {},
    }
    assert(final(set)@.map_values(|n: &str| n@) =~= old(set)@.map_values(|n: &str| n@) + assigned_column(value, name@));
    assert(final(binds)@.map_values(|b: SqlValue| b@) =~= old(binds)@.map_values(|b: SqlValue| b@) + assigned_value(value));
}

/// Flattening distributes over concatenation.
pub proof fn lemma_flatten_append<A>(a: Seq<Seq<A>>, b: Seq<Seq<A>>)
    ensures
        flatten(a + b) == flatten(a) + flatten(b),
    decreases a.len(),
{
    if a.len() == 0 {
        assert(a + b =~= b);
        assert(flatten(a) + flatten(b) =~= flatten(b));
    } else {
        lemma_flatten_append(a.drop_first(), b);
        assert((a + b).drop_first() =~= a.drop_first() + b);
        assert(flatten(a + b) =~= flatten(a) + flatten(b));
    }
}

/// Flattening each group and then the results is flattening twice.
pub proof fn lemma_flatten_of_flattened<A>(groups: Seq<Seq<Seq<A>>>)
    ensures
        flatten(groups.map_values(|g: Seq<Seq<A>>| flatten(g))) == flatten(flatten(groups)),
    decreases groups.len(),
{
    if groups.len() > 0 {
        let rest = groups.drop_first();
        lemma_flatten_of_flattened(rest);
        assert(groups.map_values(|g: Seq<Seq<A>>| flatten(g)).drop_first()
            =~= rest.map_values(|g: Seq<Seq<A>>| flatten(g)));
        lemma_flatten_append(groups[0], flatten(rest));
    }
}

/// Cutting rows into multi-row statements loses, repeats and reorders no
/// value: the values bound by the statements, one statement after the other,
/// are the values of the rows, one row after the other.
pub proof fn law_values_plan_keeps_every_value(head: Seq<char>, tail: Seq<char>, p: Placeholder, width: nat, size: nat, rows: Seq<Seq<BindV>>)
    requires
        size > 0,
    ensures
        flatten(chunks(rows, size).map_values(|piece: Seq<Seq<BindV>>| values_piece(head, tail, p, width, piece).binds))
            == flatten(rows),
{
    let pieces = chunks(rows, size);
    lemma_chunks(rows, size);
    assert(pieces.map_values(|piece: Seq<Seq<BindV>>| values_piece(head, tail, p, width, piece).binds)
        =~= pieces.map_values(|g: Seq<Seq<BindV>>| flatten(g)));
    lemma_flatten_of_flattened(pieces);
}

/// A batch of one row is one statement, the same as the single-row
/// statement with the same head and tail.
pub proof fn law_single_row_batch(head: Seq<char>, tail: Seq<char>, p: Placeholder, width: nat, size: nat, row: Seq<BindV>)
    requires
        size > 0,
    ensures
        chunks(seq![row], size) == seq![seq![row]],
        values_piece(head, tail, p, width, seq![row]) == (StatementV { sql: values_sql(head, p, 1, width, tail), binds: row }),
{
    let one = seq![row];
    assert(one.drop_first() =~= Seq::<Seq<BindV>>::empty());
    assert(flatten(one.drop_first()) =~= Seq::<BindV>::empty());
    assert(flatten(one) == one[0] + flatten(one.drop_first()));
    assert(flatten(one) =~= row);
    lemma_chunks(one, size);
}

/// Cutting keys into `IN (...)` statements loses, repeats and reorders no
/// key: the values bound by the statements, one after the other, are the keys.
pub proof fn law_in_list_plan_keeps_every_key(head: Seq<char>, p: Placeholder, size: nat, keys: Seq<BindV>)
    requires
        size > 0,
    ensures
        flatten(chunks(keys, size).map_values(|piece: Seq<BindV>| in_list_piece(head, p, piece).binds)) == keys,
        forall|k: int| 0 <= k < chunks(keys, size).len() ==> (#[trigger] chunks(keys, size)[k]).len() <= size,
{
    lemma_chunks(keys, size);
    assert(chunks(keys, size).map_values(|piece: Seq<BindV>| in_list_piece(head, p, piece).binds) =~= chunks(keys, size));
}

} // verus!
