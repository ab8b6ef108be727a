//! Lines of a `.env` file: `KEY=value` settings, with blank lines and `#`
//! comments skipped.
use vstd::prelude::*;
use crate::text::push_char;

verus! {

/// The characters Unicode calls white space, those that `str::trim` removes.
pub open spec fn is_space(c: char) -> bool {
    let u = c as u32;
    ||| 9 <= u && u <= 13
    ||| u == 32
    ||| u == 0x85
    ||| u == 0xa0
    ||| u == 0x1680
    ||| 0x2000 <= u && u <= 0x200a
    ||| u == 0x2028
    ||| u == 0x2029
    ||| u == 0x202f
    ||| u == 0x205f
    ||| u == 0x3000
}

/// The characters a trim removes: double quotes when `quote`, white space
/// otherwise.
pub open spec fn stripped(quote: bool, c: char) -> bool {
    if quote {
        c == '"'
    } else {
        is_space(c)
    }
}

/// `s` without the stripped characters at its start.
pub open spec fn drop_leading(s: Seq<char>, quote: bool) -> Seq<char>
    decreases s.len(),
{
    if s.len() > 0 && stripped(quote, s[0]) {
        drop_leading(s.drop_first(), quote)
    } else {
        s
    }
}

/// `s` without the stripped characters at its end.
pub open spec fn drop_trailing(s: Seq<char>, quote: bool) -> Seq<char>
    decreases s.len(),
{
    if s.len() > 0 && stripped(quote, s.last()) {
        drop_trailing(s.drop_last(), quote)
    } else {
        s
    }
}

/// `s` without white space at either end, as `str::trim` leaves it.
pub open spec fn trimmed(s: Seq<char>) -> Seq<char> {
    drop_trailing(drop_leading(s, false), false)
}

/// `s` without double quotes at either end, as `str::trim_matches('"')`
/// leaves it.
pub open spec fn unquoted(s: Seq<char>) -> Seq<char> {
    drop_trailing(drop_leading(s, true), true)
}

/// `i` is the position of the first `=` in `t`.
pub open spec fn first_equals(t: Seq<char>, i: int) -> bool {
    &&& 0 <= i < t.len()
    &&& t[i] == '='
    &&& forall|j: int| 0 <= j < i ==> t[j] != '='
}

/// The setting a line holds: none for a line that is blank once trimmed,
/// starts with `#`, or has no `=`; otherwise the trimmed text before the
/// first `=` as the key, and the trimmed text after it, without double
/// quotes at its ends, as the value.
pub open spec fn env_setting(line: Seq<char>) -> Option<(Seq<char>, Seq<char>)> {
    let t = trimmed(line);
    if t.len() == 0 || t[0] == '#' {
        None
    } else if exists|i: int| first_equals(t, i) {
        let i = choose|i: int| first_equals(t, i);
        Some((trimmed(t.take(i)), unquoted(trimmed(t.skip(i + 1)))))
    } else {
        None
    }
}

/// The settings of the lines of a `.env` text, in order; lines that hold
/// none are passed over.
pub open spec fn env_settings(lines: Seq<Seq<char>>) -> Seq<(Seq<char>, Seq<char>)>
    decreases lines.len(),
{
    if lines.len() == 0 {
        Seq::empty()
    } else {
        let before = env_settings(lines.drop_last());
        match env_setting(lines.last()) {
            Some(p) => before.push(p),
            None => before,
        }
    }
}

/// The environment after the settings are applied one after the other to
/// `env`, each only where its variable is not set yet.
pub open spec fn apply_settings(env: Map<Seq<char>, Seq<char>>, settings: Seq<(Seq<char>, Seq<char>)>) -> Map<Seq<char>, Seq<char>>
    decreases settings.len(),
{
    if settings.len() == 0 {
        env
    } else {
        let before = apply_settings(env, settings.drop_last());
        let (k, v) = settings.last();
        if before.contains_key(k) {
            before
        } else {
            before.insert(k, v)
        }
    }
}

/// The environment after a `.env` text is loaded, line after line, as each
/// line of it is read with [`parse_env_line`] and its variable set when it
/// is not set yet.
pub open spec fn load_env(env: Map<Seq<char>, Seq<char>>, lines: Seq<Seq<char>>) -> Map<Seq<char>, Seq<char>> {
    apply_settings(env, env_settings(lines))
}

/// Loading a `.env` text leaves every variable that was set as it was; a
/// variable that was not set is set exactly when some line sets it, and then
/// to the value of the first such line.
pub proof fn law_load_env_keeps_set_variables_and_takes_first_settings(
    env: Map<Seq<char>, Seq<char>>,
    lines: Seq<Seq<char>>,
    k: Seq<char>,
)
    ensures
        env.contains_key(k) ==> load_env(env, lines).contains_key(k) && load_env(env, lines)[k] == env[k],
        !env.contains_key(k) ==> (load_env(env, lines).contains_key(k)
            <==> exists|i: int| 0 <= i < env_settings(lines).len() && (#[trigger] env_settings(lines)[i]).0 == k),
        forall|i: int| 0 <= i < env_settings(lines).len() && !env.contains_key(k)
            && (#[trigger] env_settings(lines)[i]).0 == k
            && (forall|j: int| 0 <= j < i ==> env_settings(lines)[j].0 != k)
            ==> load_env(env, lines)[k] == env_settings(lines)[i].1,
{
    lemma_apply_settings(env, env_settings(lines), k);
}

proof fn lemma_apply_settings(env: Map<Seq<char>, Seq<char>>, s: Seq<(Seq<char>, Seq<char>)>, k: Seq<char>)
    ensures
        env.contains_key(k) ==> apply_settings(env, s).contains_key(k) && apply_settings(env, s)[k] == env[k],
        !env.contains_key(k) ==> (apply_settings(env, s).contains_key(k)
            <==> exists|i: int| 0 <= i < s.len() && (#[trigger] s[i]).0 == k),
        forall|i: int| 0 <= i < s.len() && !env.contains_key(k) && (#[trigger] s[i]).0 == k
            && (forall|j: int| 0 <= j < i ==> s[j].0 != k)
            ==> apply_settings(env, s)[k] == s[i].1,
    decreases s.len(),
{
    if s.len() > 0 {
        let t = s.drop_last();
        let n = s.len() - 1;
        lemma_apply_settings(env, t, k);
        let before = apply_settings(env, t);
        if !env.contains_key(k) {
            assert((exists|i: int| 0 <= i < s.len() && (#[trigger] s[i]).0 == k)
                <==> ((exists|i: int| 0 <= i < t.len() && (#[trigger] t[i]).0 == k) || s[n].0 == k)) by {
                if exists|i: int| 0 <= i < s.len() && (#[trigger] s[i]).0 == k {
                    let i = choose|i: int| 0 <= i < s.len() && (#[trigger] s[i]).0 == k;
                    if i < n {
                        assert(t[i] == s[i]);
                    }
                }
                if exists|i: int| 0 <= i < t.len() && (#[trigger] t[i]).0 == k {
                    let i = choose|i: int| 0 <= i < t.len() && (#[trigger] t[i]).0 == k;
                    assert(s[i] == t[i]);
                }
            }
            assert forall|i: int| 0 <= i < s.len() && (#[trigger] s[i]).0 == k
                && (forall|j: int| 0 <= j < i ==> s[j].0 != k)
                implies apply_settings(env, s)[k] == s[i].1 by {
                if i < n {
                    assert(t[i] == s[i]);
                    assert forall|j: int| 0 <= j < i implies t[j].0 != k by {
                        assert(t[j] == s[j]);
                    }
                    assert(before.contains_key(k));
                } else {
                    assert forall|j: int| 0 <= j < t.len() implies (#[trigger] t[j]).0 != k by {
                        assert(t[j] == s[j]);
                    }
                    assert(!before.contains_key(k));
                }
            }
        }
    }
}

fn is_space_char(c: char) -> (r: bool)
    ensures
        r == is_space(c),
{
    let u: u32 = c as u32;
    (9 <= u && u <= 13) || u == 32 || u == 0x85 || u == 0xa0 || u == 0x1680 || (0x2000 <= u && u <= 0x200a)
        || u == 0x2028 || u == 0x2029 || u == 0x202f || u == 0x205f || u == 0x3000
}

fn is_stripped(quote: bool, c: char) -> (r: bool)
    ensures
        r == stripped(quote, c),
{
    if quote {
        c == '"'
    } else {
        is_space_char(c)
    }
}

fn chars_of(s: &str) -> (v: Vec<char>)
    ensures
        v@ == s@,
{
    let mut v: Vec<char> = Vec::new();
    let ghost src = s@;
    for c in it: s.chars()
        invariant
            it.seq() == src,
            v@ == src.take(it.index() as int),
    {
        let ghost k = it.index();
        v.push(c);
        proof {
            assert(src.take(k + 1) =~= src.take(k as int).push(c));
        }
    }
    assert(src.take(src.len() as int) =~= src);
    v
}

/// The bounds of the part of `v[lo..hi]` that a trim keeps.
fn trim_range(v: &Vec<char>, lo: usize, hi: usize, quote: bool) -> (r: (usize, usize))
    requires
        lo <= hi <= v.len(),
    ensures
        lo <= r.0 <= r.1 <= hi,
        v@.subrange(r.0 as int, r.1 as int) == drop_trailing(drop_leading(v@.subrange(lo as int, hi as int), quote), quote),
{
    let mut a: usize = lo;
    while a < hi && is_stripped(quote, v[a])
        invariant
            lo <= a <= hi <= v.len(),
            drop_leading(v@.subrange(lo as int, hi as int), quote) == drop_leading(v@.subrange(a as int, hi as int), quote),
        decreases hi - a,
    {
        assert(v@.subrange(a as int, hi as int).drop_first() =~= v@.subrange(a + 1, hi as int));
        a = a + 1;
    }
    assert(drop_leading(v@.subrange(a as int, hi as int), quote) == v@.subrange(a as int, hi as int));
    let mut b: usize = hi;
    while a < b && is_stripped(quote, v[b - 1])
        invariant
            lo <= a <= b <= hi <= v.len(),
            drop_trailing(v@.subrange(a as int, hi as int), quote) == drop_trailing(v@.subrange(a as int, b as int), quote),
        decreases b - a,
    {
        assert(v@.subrange(a as int, b as int).drop_last() =~= v@.subrange(a as int, b - 1));
        b = b - 1;
    }
    assert(drop_trailing(v@.subrange(a as int, b as int), quote) == v@.subrange(a as int, b as int));
    (a, b)
}

fn text_of(v: &Vec<char>, lo: usize, hi: usize) -> (s: String)
    requires
        lo <= hi <= v.len(),
    ensures
        s@ == v@.subrange(lo as int, hi as int),
{
    let mut s = String::new();
    let mut i: usize = lo;
    while i < hi
        invariant
            lo <= i <= hi <= v.len(),
            s@ == v@.subrange(lo as int, i as int),
        decreases hi - i,
    {
        push_char(&mut s, v[i]);
        assert(v@.subrange(lo as int, i + 1) =~= v@.subrange(lo as int, i as int).push(v@[i as int]));
        i = i + 1;
    }
    s
}

/// The setting a line of a `.env` file holds, as [`env_setting`] states:
/// `None` for a blank line, a `#` comment or a line without `=`.
pub fn parse_env_line(line: &str) -> (r: Option<(String, String)>)
    ensures
        r is None <==> env_setting(line@) is None,
        r matches Some(p) ==> env_setting(line@) == Some((p.0@, p.1@)),
{
    let v = chars_of(line);
    let (a, b) = trim_range(&v, 0, v.len(), false);
    let ghost t = v@.subrange(a as int, b as int);
    assert(v@.subrange(0, v.len() as int) =~= line@);
    assert(t == trimmed(line@));
    if a == b || v[a] == '#' {
        return None;
    }
    let mut i: usize = a;
    while i < b && v[i] != '='
        invariant
            a <= i <= b <= v.len(),
            t == v@.subrange(a as int, b as int),
            forall|j: int| 0 <= j < i - a ==> t[j] != '=',
        decreases b - i,
    {
        i = i + 1;
    }
    if i == b {
        assert(!exists|k: int| first_equals(t, k));
        return None;
    }
    let ghost e = (i - a) as int;
    assert(first_equals(t, e));
    assert forall|k: int| first_equals(t, k) implies k == e by {
        if k < e {
            assert(t[k] != '=');
        } else if k > e {
            assert(t[e] != '=');
        }
    }
    let (ka, kb) = trim_range(&v, a, i, false);
    let (va0, vb0) = trim_range(&v, i + 1, b, false);
    let (va, vb) = trim_range(&v, va0, vb0, true);
    assert(t.take(e) =~= v@.subrange(a as int, i as int));
    assert(t.skip(e + 1) =~= v@.subrange(i + 1, b as int));
    Some((text_of(&v, ka, kb), text_of(&v, va, vb)))
}

} // verus!
