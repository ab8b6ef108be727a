//! `ORDER BY` texts given by callers: cut at commas, trimmed, and each column
//! checked against the columns a listing may be ordered by.
use vstd::prelude::*;
use crate::text::{push_char, push_str, join, lemma_join_push};

verus! {

/// Whether `c` has the Unicode `White_Space` property, which is what
/// `char::is_whitespace` and `str::trim` go by.
pub open spec fn is_white_space(c: char) -> bool {
    ||| ('\u{9}' <= c && c <= '\u{d}')
    ||| c == ' '
    ||| c == '\u{85}'
    ||| c == '\u{a0}'
    ||| c == '\u{1680}'
    ||| ('\u{2000}' <= c && c <= '\u{200a}')
    ||| c == '\u{2028}'
    ||| c == '\u{2029}'
    ||| c == '\u{202f}'
    ||| c == '\u{205f}'
    ||| c == '\u{3000}'
}

/// `s` without its leading white space.
pub open spec fn trim_start(s: Seq<char>) -> Seq<char>
    decreases s.len(),
{
    if s.len() > 0 && is_white_space(s[0]) {
        trim_start(s.drop_first())
    } else {
        s
    }
}

/// `s` without its trailing white space.
pub open spec fn trim_end(s: Seq<char>) -> Seq<char>
    decreases s.len(),
{
    if s.len() > 0 && is_white_space(s.last()) {
        trim_end(s.drop_last())
    } else {
        s
    }
}

/// `s` without leading and trailing white space, as `str::trim` gives it.
pub open spec fn trim(s: Seq<char>) -> Seq<char> {
    trim_end(trim_start(s))
}

/// Whether `s` ends with `suffix`.
pub open spec fn has_suffix(s: Seq<char>, suffix: Seq<char>) -> bool {
    suffix.len() <= s.len() && s.skip(s.len() - suffix.len()) == suffix
}

/// `s` with `suffix` removed from its end as many times as it is there, as
/// `str::trim_end_matches` does with a non-empty text pattern.
pub open spec fn strip_suffixes(s: Seq<char>, suffix: Seq<char>) -> Seq<char>
    decreases s.len(),
{
    if suffix.len() > 0 && has_suffix(s, suffix) {
        strip_suffixes(s.take(s.len() - suffix.len()), suffix)
    } else {
        s
    }
}

/// The pieces of `s` between the occurrences of `sep`, as `str::split` with a
/// character yields them: one more piece than there are separators, empty
/// pieces included.
pub open spec fn split(s: Seq<char>, sep: char) -> Seq<Seq<char>>
    decreases s.len(),
{
    if s.len() == 0 {
        seq![Seq::empty()]
    } else {
        let before = split(s.drop_last(), sep);
        if s.last() == sep {
            before.push(Seq::empty())
        } else {
            before.update(before.len() - 1, before.last().push(s.last()))
        }
    }
}

proof fn lemma_split_nonempty(s: Seq<char>, sep: char)
    ensures
        split(s, sep).len() > 0,
    decreases s.len(),
{
    if s.len() > 0 {
        lemma_split_nonempty(s.drop_last(), sep);
    }
}

fn is_ws(c: char) -> (r: bool)
    ensures
        r == is_white_space(c),
{
    ('\u{9}' <= c && c <= '\u{d}') || c == ' ' || c == '\u{85}' || c == '\u{a0}' || c == '\u{1680}'
        || ('\u{2000}' <= c && c <= '\u{200a}') || c == '\u{2028}' || c == '\u{2029}'
        || c == '\u{202f}' || c == '\u{205f}' || c == '\u{3000}'
}

/// The characters of a text.
pub fn chars_of(s: &str) -> (v: Vec<char>)
    ensures
        v@ == s@,
{
    let ghost src = s@;
    let mut v: Vec<char> = Vec::new();
    for c in it: s.chars()
        invariant
            it.seq() == src,
            v@ == src.take(it.index() as int),
    {
        let ghost k = it.index();
        v.push(c);
        proof {
            assert(src.take(k + 1) =~= src.take(k as int).push(c));
        }
    }
    assert(src.take(src.len() as int) =~= src);
    v
}

/// A string holding the given characters.
pub fn string_of(v: &Vec<char>) -> (s: String)
    ensures
        s@ == v@,
{
    let mut s = String::new();
    let mut i: usize = 0;
    while i < v.len()
        invariant
            0 <= i <= v.len(),
            s@ == v@.take(i as int),
        decreases v.len() - i,
    {
        push_char(&mut s, v[i]);
        proof {
            assert(v@.take(i + 1) =~= v@.take(i as int).push(v@[i as int]));
        }
        i = i + 1;
    }
    assert(v@.take(v.len() as int) =~= v@);
    s
}

/// The pieces of `s` between commas.
pub fn split_commas(s: &str) -> (parts: Vec<Vec<char>>)
    ensures
        parts@.map_values(|p: Vec<char>| p@) == split(s@, ','),
{
    let ghost src = s@;
    let mut done: Vec<Vec<char>> = Vec::new();
    let mut cur: Vec<char> = Vec::new();
    assert(src.take(0) =~= Seq::<char>::empty());
    for c in it: s.chars()
        invariant
            it.seq() == src,
            done@.map_values(|p: Vec<char>| p@).push(cur@) == split(src.take(it.index() as int), ','),
    {
        let ghost k = it.index();
        let ghost t = src.take(k + 1);
        proof {
            assert(t.drop_last() =~= src.take(k as int));
            assert(t.last() == c);
            lemma_split_nonempty(src.take(k as int), ',');
        }
        if c == ',' {
            let ghost before = done@.map_values(|p: Vec<char>| p@);
            done.push(cur);
            cur = Vec::new();
            proof {
                assert(done@.map_values(|p: Vec<char>| p@) =~= before.push(done@[done@.len() - 1]@));
                assert(done@.map_values(|p: Vec<char>| p@).push(cur@) =~= split(t, ','));
            }
        } else {
            let ghost before = cur@;
            cur.push(c);
            proof {
                let sp = split(src.take(k as int), ',');
                assert(sp == done@.map_values(|p: Vec<char>| p@).push(before));
                assert(done@.map_values(|p: Vec<char>| p@).push(cur@) =~= sp.update(sp.len() - 1, sp.last().push(c)));
            }
        }
    }
    assert(src.take(src.len() as int) =~= src);
    let ghost before = done@.map_values(|p: Vec<char>| p@);
    done.push(cur);
    assert(done@.map_values(|p: Vec<char>| p@) =~= before.push(done@[done@.len() - 1]@));
    done
}

/// The characters `v[from..to]`.
fn slice_of(v: &Vec<char>, from: usize, to: usize) -> (r: Vec<char>)
    requires
        from <= to <= v.len(),
    ensures
        r@ == v@.subrange(from as int, to as int),
{
    let mut r: Vec<char> = Vec::new();
    let mut i: usize = from;
    while i < to
        invariant
            from <= i <= to <= v.len(),
            r@ == v@.subrange(from as int, i as int),
        decreases to - i,
    {
        r.push(v[i]);
        proof {
            assert(v@.subrange(from as int, i + 1) =~= v@.subrange(from as int, i as int).push(v@[i as int]));
        }
        i = i + 1;
    }
    r
}

proof fn lemma_trim_start_skip(s: Seq<char>, i: int)
    requires
        0 <= i < s.len(),
        is_white_space(s[i]),
    ensures
        trim_start(s.skip(i)) == trim_start(s.skip(i + 1)),
{
    assert(s.skip(i).drop_first() =~= s.skip(i + 1));
}

proof fn lemma_trim_end_take(s: Seq<char>, j: int)
    requires
        0 < j <= s.len(),
        is_white_space(s[j - 1]),
    ensures
        trim_end(s.take(j)) == trim_end(s.take(j - 1)),
{
    assert(s.take(j).drop_last() =~= s.take(j - 1));
}

/// The characters of `v` without leading and trailing white space.
pub fn trimmed(v: &Vec<char>) -> (r: Vec<char>)
    ensures
        r@ == trim(v@),
{
    let n = v.len();
    let mut i: usize = 0;
    assert(v@.skip(0) =~= v@);
    while i < n && is_ws(v[i])
        invariant
            0 <= i <= n == v.len(),
            trim_start(v@) == trim_start(v@.skip(i as int)),
        decreases n - i,
    {
        proof {
            lemma_trim_start_skip(v@, i as int);
        }
        i = i + 1;
    }
    let ghost front = v@.skip(i as int);
    assert(trim_start(v@) == front) by {
        if i < n {
            assert(front[0] == v@[i as int]);
        } else {
            assert(front.len() == 0);
        }
    }
    let mut j: usize = n;
    assert(front.take(front.len() as int) =~= front);
    while j > i && is_ws(v[j - 1])
        invariant
            i <= j <= n == v.len(),
            front == v@.skip(i as int),
            trim_end(front) == trim_end(front.take(j - i)),
        decreases j - i,
    {
        proof {
            assert(front[j - i - 1] == v@[j - 1]);
            lemma_trim_end_take(front, j - i);
        }
        j = j - 1;
    }
    assert(trim_end(front) == front.take(j - i)) by {
        if j > i {
            assert(front.take(j - i).last() == v@[j - 1]);
        }
    }
    let r = slice_of(v, i, j);
    assert(r@ =~= front.take(j - i));
    r
}

/// Whether `v[..end]` ends with `suffix`.
fn ends_with_at(v: &Vec<char>, end: usize, suffix: &Vec<char>) -> (r: bool)
    requires
        end <= v.len(),
    ensures
        r == has_suffix(v@.take(end as int), suffix@),
{
    if suffix.len() > end {
        return false;
    }
    let start = end - suffix.len();
    let mut k: usize = 0;
    while k < suffix.len()
        invariant
            0 <= k <= suffix.len(),
            start + suffix.len() == end <= v.len(),
            forall|m: int| 0 <= m < k ==> v@[start + m] == suffix@[m],
        decreases suffix.len() - k,
    {
        if v[start + k] != suffix[k] {
            assert(v@.take(end as int).skip(start as int)[k as int] == v@[start + k]);
            return false;
        }
        k = k + 1;
    }
    assert(v@.take(end as int).skip(start as int) =~= suffix@);
    true
}

/// `v` with `suffix` removed from its end as many times as it is there.
pub fn without_suffixes(v: &Vec<char>, suffix: &Vec<char>) -> (r: Vec<char>)
    requires
        suffix@.len() > 0,
    ensures
        r@ == strip_suffixes(v@, suffix@),
{
    let mut end: usize = v.len();
    assert(v@.take(v.len() as int) =~= v@);
    while ends_with_at(v, end, suffix)
        invariant
            end <= v.len(),
            suffix@.len() > 0,
            strip_suffixes(v@, suffix@) == strip_suffixes(v@.take(end as int), suffix@),
        decreases end,
    {
        proof {
            let t = v@.take(end as int);
            assert(t.take(t.len() - suffix@.len()) =~= v@.take(end - suffix@.len()));
        }
        end = end - suffix.len();
    }
    slice_of(v, 0, end)
}

/// Whether two character sequences are equal.
pub fn same_chars(a: &Vec<char>, b: &Vec<char>) -> (r: bool)
    ensures
        r == (a@ == b@),
{
    if a.len() != b.len() {
        return false;
    }
    let mut k: usize = 0;
    while k < a.len()
        invariant
            0 <= k <= a.len() == b.len(),
            forall|m: int| 0 <= m < k ==> a@[m] == b@[m],
        decreases a.len() - k,
    {
        if a[k] != b[k] {
            return false;
        }
        k = k + 1;
    }
    assert(a@ =~= b@);
    true
}

/// Whether `col` is one of the `allowed` names.
pub fn is_allowed(col: &Vec<char>, allowed: &Vec<&str>) -> (r: bool)
    ensures
        r == allowed@.map_values(|a: &str| a@).contains(col@),
{
    let ghost names = allowed@.map_values(|a: &str| a@);
    let mut i: usize = 0;
    while i < allowed.len()
        invariant
            0 <= i <= allowed.len(),
            names == allowed@.map_values(|a: &str| a@),
            !names.take(i as int).contains(col@),
        decreases allowed.len() - i,
    {
        let name = chars_of(allowed[i]);
        if same_chars(col, &name) {
            assert(names[i as int] == col@);
            return true;
        }
        proof {
            assert(names.take(i + 1) =~= names.take(i as int).push(names[i as int]));
            if names.take(i + 1).contains(col@) {
                let j = choose|j: int| 0 <= j < i + 1 && #[trigger] names.take(i + 1)[j] == col@;
                if j < i {
                    assert(names.take(i as int)[j] == col@);
                }
            }
        }
        i = i + 1;
    }
    assert(names.take(allowed.len() as int) =~= names);
    false
}

/// The column an `ORDER BY` term names, as a listing that passes the text on
/// unchanged reads it: trimmed, without trailing ` ASC` and ` DESC`, trimmed
/// again.
pub open spec fn term_column(part: Seq<char>) -> Seq<char> {
    trim(strip_suffixes(strip_suffixes(trim(part), " ASC"@), " DESC"@))
}

/// The column an `ORDER BY` term names, as a listing that rewrites the text
/// reads it: trimmed, without trailing ` ASC`, ` DESC`, ` asc` and ` desc`,
/// trimmed again.
pub open spec fn term_column_any_case(part: Seq<char>) -> Seq<char> {
    trim(strip_suffixes(strip_suffixes(strip_suffixes(strip_suffixes(trim(part), " ASC"@), " DESC"@), " asc"@), " desc"@))
}

/// Whether a trimmed term asks for descending order.
pub open spec fn term_descending(part: Seq<char>) -> bool {
    has_suffix(trim(part), " DESC"@) || has_suffix(trim(part), " desc"@)
}

/// The term a rewriting listing writes: the column and its direction.
pub open spec fn normalized_term(part: Seq<char>) -> Seq<char> {
    term_column_any_case(part) + (if term_descending(part) { " DESC"@ } else { " ASC"@ })
}

/// The columns that the terms of `order_by` name, read by `column`.
pub open spec fn order_columns(order_by: Seq<char>, any_case: bool) -> Seq<Seq<char>> {
    split(order_by, ',').map_values(|p: Seq<char>| if any_case { term_column_any_case(p) } else { term_column(p) })
}

/// Whether every column that `order_by` names is allowed.
pub open spec fn order_allowed(order_by: Seq<char>, allowed: Seq<Seq<char>>, any_case: bool) -> bool {
    forall|i: int| 0 <= i < order_columns(order_by, any_case).len()
        ==> allowed.contains(#[trigger] order_columns(order_by, any_case)[i])
}

/// The message for the first column that is not allowed: `Invalid ORDER BY: `
/// followed by that column.
pub open spec fn order_error(order_by: Seq<char>, allowed: Seq<Seq<char>>, any_case: bool, msg: Seq<char>) -> bool {
    exists|i: int| #![trigger order_columns(order_by, any_case)[i]]
        0 <= i < order_columns(order_by, any_case).len()
        && !allowed.contains(order_columns(order_by, any_case)[i])
        && (forall|j: int| 0 <= j < i ==> allowed.contains(#[trigger] order_columns(order_by, any_case)[j]))
        && msg == "Invalid ORDER BY: "@ + order_columns(order_by, any_case)[i]
}

/// The rewritten `ORDER BY` text: each term as column and direction, joined
/// by `, `.
pub open spec fn normalized_order(order_by: Seq<char>) -> Seq<char> {
    join(split(order_by, ',').map_values(|p: Seq<char>| normalized_term(p)), ", "@)
}

fn invalid_order(col: &Vec<char>) -> (m: String)
    ensures
        m@ == "Invalid ORDER BY: "@ + col@,
{
    let mut m = String::new();
    push_str(&mut m, "Invalid ORDER BY: ");
    let c = string_of(col);
    push_str(&mut m, c.as_str());
    m
}

fn column_of(part: &Vec<char>, any_case: bool) -> (col: Vec<char>)
    ensures
        col@ == (if any_case { term_column_any_case(part@) } else { term_column(part@) }),
{
    let asc = chars_of(" ASC");
    let desc = chars_of(" DESC");
    proof {
        reveal_strlit(" ASC");
        reveal_strlit(" DESC");
    }
    let t = trimmed(part);
    let a = without_suffixes(&t, &asc);
    let d = without_suffixes(&a, &desc);
    if any_case {
        let lower_asc = chars_of(" asc");
        let lower_desc = chars_of(" desc");
        proof {
            reveal_strlit(" asc");
            reveal_strlit(" desc");
        }
        let la = without_suffixes(&d, &lower_asc);
        let ld = without_suffixes(&la, &lower_desc);
        trimmed(&ld)
    } else {
        trimmed(&d)
    }
}

/// Checks the terms of an `ORDER BY` text against the allowed columns:
/// `Ok` when every term names one, the message for the first that does not
/// otherwise.
pub fn check_order(order_by: &str, allowed: &Vec<&str>, any_case: bool) -> (r: Result<(), String>)
    ensures
        r is Ok <==> order_allowed(order_by@, allowed@.map_values(|a: &str| a@), any_case),
        r matches Err(m) ==> order_error(order_by@, allowed@.map_values(|a: &str| a@), any_case, m@),
{
    let ghost names = allowed@.map_values(|a: &str| a@);
    let ghost cols = order_columns(order_by@, any_case);
    let parts = split_commas(order_by);
    assert(parts@.len() == cols.len());
    let mut i: usize = 0;
    while i < parts.len()
        invariant
            0 <= i <= parts.len() == cols.len(),
            names == allowed@.map_values(|a: &str| a@),
            cols == order_columns(order_by@, any_case),
            parts@.map_values(|p: Vec<char>| p@) == split(order_by@, ','),
            forall|j: int| 0 <= j < i ==> names.contains(#[trigger] cols[j]),
        decreases parts.len() - i,
    {
        let col = column_of(&parts[i], any_case);
        assert(col@ == cols[i as int]) by {
            assert(split(order_by@, ',')[i as int] == parts@[i as int]@);
        }
        if !is_allowed(&col, allowed) {
            let m = invalid_order(&col);
            return Err(m);
        }
        i = i + 1;
    }
    Ok(())
}

/// The rewritten `ORDER BY` text of a listing that normalises it: each term
/// as its column followed by ` DESC` when it ends in ` DESC` or ` desc`, by
/// ` ASC` otherwise; the message for the first term whose column is not
/// allowed instead.
pub fn normalize_order(order_by: &str, allowed: &Vec<&str>) -> (r: Result<String, String>)
    ensures
        r is Ok <==> order_allowed(order_by@, allowed@.map_values(|a: &str| a@), true),
        r matches Err(m) ==> order_error(order_by@, allowed@.map_values(|a: &str| a@), true, m@),
        r matches Ok(s) ==> s@ == normalized_order(order_by@),
{
    let ghost names = allowed@.map_values(|a: &str| a@);
    let ghost cols = order_columns(order_by@, true);
    let ghost terms = split(order_by@, ',').map_values(|p: Seq<char>| normalized_term(p));
    let parts = split_commas(order_by);
    let desc = chars_of(" DESC");
    let lower_desc = chars_of(" desc");
    proof {
        reveal_strlit(" DESC");
        reveal_strlit(" desc");
        reveal_strlit(" ASC");
        reveal_strlit(", ");
    }
    let mut out = String::new();
    let mut i: usize = 0;
    while i < parts.len()
        invariant
            0 <= i <= parts.len() == cols.len() == terms.len(),
            names == allowed@.map_values(|a: &str| a@),
            cols == order_columns(order_by@, true),
            terms == split(order_by@, ',').map_values(|p: Seq<char>| normalized_term(p)),
            parts@.map_values(|p: Vec<char>| p@) == split(order_by@, ','),
            desc@ == " DESC"@,
            lower_desc@ == " desc"@,
            forall|j: int| 0 <= j < i ==> names.contains(#[trigger] cols[j]),
            out@ == join(terms.take(i as int), ", "@),
        decreases parts.len() - i,
    {
        assert(split(order_by@, ',')[i as int] == parts@[i as int]@);
        let col = column_of(&parts[i], true);
        assert(col@ == cols[i as int]);
        if !is_allowed(&col, allowed) {
            let m = invalid_order(&col);
            return Err(m);
        }
        let t = trimmed(&parts[i]);
        let descending = ends_with_at(&t, t.len(), &desc) || ends_with_at(&t, t.len(), &lower_desc);
        proof {
            assert(t@.take(t@.len() as int) =~= t@);
            assert(terms.take(i + 1) =~= terms.take(i as int).push(terms[i as int]));
            if i > 0 {
                lemma_join_push(terms.take(i as int), ", "@, terms[i as int]);
            } else {
                assert(terms.take(1) =~= seq![terms[0]]);
            }
        }
        if i > 0 {
            push_str(&mut out, ", ");
        }
        let c = string_of(&col);
        push_str(&mut out, c.as_str());
        if descending {
            push_str(&mut out, " DESC");
        } else {
            push_str(&mut out, " ASC");
        }
        proof {
            assert(out@ =~= join(terms.take(i + 1), ", "@));
        }
        i = i + 1;
    }
    assert(terms.take(parts.len() as int) =~= terms);
    Ok(out)
}

/// Whether `c` may appear in an `ORDER BY` text that is passed on after a
/// character check: an ASCII letter or digit, `_`, a space, a comma, a
/// backquote or a double quote.
pub open spec fn safe_order_char(c: char) -> bool {
    ||| ('a' <= c && c <= 'z')
    ||| ('A' <= c && c <= 'Z')
    ||| ('0' <= c && c <= '9')
    ||| c == '_'
    ||| c == ' '
    ||| c == ','
    ||| c == '`'
    ||| c == '"'
}

/// Whether every character of `s` passes the character check.
pub open spec fn safe_order_text(s: Seq<char>) -> bool {
    forall|i: int| 0 <= i < s.len() ==> safe_order_char(#[trigger] s[i])
}

/// Whether every character of `s` passes the character check.
pub fn order_text_is_safe(s: &str) -> (r: bool)
    ensures
        r == safe_order_text(s@),
{
    let ghost src = s@;
    for c in it: s.chars()
        invariant
            it.seq() == src,
            src == s@,
            forall|i: int| 0 <= i < it.index() ==> safe_order_char(#[trigger] src[i]),
    {
        let ghost k = it.index();
        let ok = ('a' <= c && c <= 'z') || ('A' <= c && c <= 'Z') || ('0' <= c && c <= '9')
            || c == '_' || c == ' ' || c == ',' || c == '`' || c == '"';
        if !ok {
            assert(src.take(k + 1).last() == c);
            assert(!safe_order_char(src[k as int]));
            assert(k < src.len());
            return false;
        }
    }
    true
}

/// A rewritten `ORDER BY` text holds only allowed columns: it is its terms
/// joined by `, `, and each term is an allowed column followed by ` ASC` or
/// ` DESC`.
pub proof fn law_normalized_order_uses_allowed_columns(order_by: Seq<char>, allowed: Seq<Seq<char>>)
    requires
        order_allowed(order_by, allowed, true),
    ensures
        normalized_order(order_by) == join(split(order_by, ',').map_values(|p: Seq<char>| normalized_term(p)), ", "@),
        split(order_by, ',').len() == order_columns(order_by, true).len(),
        forall|i: int| 0 <= i < split(order_by, ',').len() ==> {
            let col = #[trigger] order_columns(order_by, true)[i];
            let term = split(order_by, ',').map_values(|p: Seq<char>| normalized_term(p))[i];
            &&& allowed.contains(col)
            &&& (term == col + " ASC"@ || term == col + " DESC"@)
        },
{
}

} // verus!
