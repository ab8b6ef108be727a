//! Field constraints of the models: lengths, numeric bounds and formats.
use vstd::prelude::*;
use crate::text::{utf8_len, byte_len, join, join_strings, push_str, push_u64, decimal};

verus! {

/// Whether `text` matches `pattern` as the `regex` crate decides, or `None`
/// when `regex::Regex::new` rejects the pattern.
pub uninterp spec fn regex_match(pattern: Seq<char>, text: Seq<char>) -> Option<bool>;

/// Compiles `pattern` with `regex::Regex::new` and, when it compiles, reports
/// whether `regex::Regex::is_match` finds a match in `text`. The contract claims
/// only that the answer is a function of the two texts.
#[verifier::external_body]
fn regex_is_match(pattern: &str, text: &str) -> (r: Option<bool>)
    ensures
        r == regex_match(pattern@, text@),
{
    match regex::Regex::new(pattern) {
        Ok(re) => Some(re.is_match(text)),
        Err(_) => None,
    }
}

/// The error list grows by `msg` when `cond` holds.
pub open spec fn error_if(cond: bool, msg: Seq<char>) -> Seq<Seq<char>> {
    if cond { seq![msg] } else { Seq::empty() }
}

/// The error a format constraint adds: none when the text matches, the
/// `mismatch` message when it does not, the `invalid` message when the pattern
/// does not compile.
pub open spec fn format_error(pattern: Seq<char>, text: Seq<char>, mismatch: Seq<char>, invalid: Seq<char>) -> Seq<Seq<char>> {
    outcome_error(regex_match(pattern, text), mismatch, invalid)
}

/// A message found in either part is found in the whole.
pub broadcast proof fn lemma_contains_concat(a: Seq<Seq<char>>, b: Seq<Seq<char>>, m: Seq<char>)
    ensures
        (a.contains(m) || b.contains(m)) ==> #[trigger] (a + b).contains(m),
{
    if a.contains(m) {
        let i = choose|i: int| 0 <= i < a.len() && a[i] == m;
        assert((a + b)[i] == m);
    } else if b.contains(m) {
        let i = choose|i: int| 0 <= i < b.len() && b[i] == m;
        assert((a + b)[a.len() + i] == m);
    }
}

/// A check whose condition holds reports its message.
pub proof fn lemma_error_if_reports(cond: bool, msg: Seq<char>)
    ensures
        cond ==> error_if(cond, msg).contains(msg),
{
    if cond {
        assert(error_if(cond, msg)[0] == msg);
    }
}

/// A format check reports `mismatch` for a text that does not match,
/// `invalid` for a pattern that does not compile, and nothing for a match.
pub proof fn lemma_format_error_reports(pattern: Seq<char>, text: Seq<char>, mismatch: Seq<char>, invalid: Seq<char>)
    ensures
        regex_match(pattern, text) == Some(false) ==> format_error(pattern, text, mismatch, invalid).contains(mismatch),
        regex_match(pattern, text) is None ==> format_error(pattern, text, mismatch, invalid).contains(invalid),
        regex_match(pattern, text) == Some(true) ==> format_error(pattern, text, mismatch, invalid) == Seq::<Seq<char>>::empty(),
{
    let e = format_error(pattern, text, mismatch, invalid);
    if regex_match(pattern, text) == Some(false) {
        assert(e[0] == mismatch);
    } else if regex_match(pattern, text) is None {
        assert(e[0] == invalid);
    }
}

/// Errors collected so far.
pub open spec fn errors_view(errors: Seq<String>) -> Seq<Seq<char>> {
    errors.map_values(|e: String| e@)
}

/// Records `msg` when the UTF-8 length of `v` is below `min`.
pub fn check_min_len(errors: &mut Vec<String>, v: &str, min: usize, msg: &str)
    ensures
        errors_view(final(errors)@) == errors_view(old(errors)@) + error_if((utf8_len(v@) as usize) < min, msg@),
{
    if byte_len(v) < min {
        errors.push(msg.to_owned());
    }
    assert(errors_view(final(errors)@) =~= errors_view(old(errors)@) + error_if((utf8_len(v@) as usize) < min, msg@));
}

/// Records `msg` when the UTF-8 length of `v` is above `max`.
pub fn check_max_len(errors: &mut Vec<String>, v: &str, max: usize, msg: &str)
    ensures
        errors_view(final(errors)@) == errors_view(old(errors)@) + error_if((utf8_len(v@) as usize) > max, msg@),
{
    if byte_len(v) > max {
        errors.push(msg.to_owned());
    }
    assert(errors_view(final(errors)@) =~= errors_view(old(errors)@) + error_if((utf8_len(v@) as usize) > max, msg@));
}

/// Records `msg` when the byte string `v` is longer than `max` bytes.
pub fn check_max_len_bytes(errors: &mut Vec<String>, v: &Vec<u8>, max: usize, msg: &str)
    ensures
        errors_view(final(errors)@) == errors_view(old(errors)@) + error_if(v@.len() > max, msg@),
{
    if v.len() > max {
        errors.push(msg.to_owned());
    }
    assert(errors_view(final(errors)@) =~= errors_view(old(errors)@) + error_if(v@.len() > max, msg@));
}

/// Records `msg` when `v` is below `min`.
pub fn check_min(errors: &mut Vec<String>, v: i128, min: i128, msg: &str)
    ensures
        errors_view(final(errors)@) == errors_view(old(errors)@) + error_if(v < min, msg@),
{
    if v < min {
        errors.push(msg.to_owned());
    }
    assert(errors_view(final(errors)@) =~= errors_view(old(errors)@) + error_if(v < min, msg@));
}

/// Records `msg` when `v` is above `max`.
pub fn check_max(errors: &mut Vec<String>, v: i128, max: i128, msg: &str)
    ensures
        errors_view(final(errors)@) == errors_view(old(errors)@) + error_if(v > max, msg@),
{
    if v > max {
        errors.push(msg.to_owned());
    }
    assert(errors_view(final(errors)@) =~= errors_view(old(errors)@) + error_if(v > max, msg@));
}

/// The error a format check adds for a given answer of the regular
/// expression: none for a match, `mismatch` for no match, `invalid` when the
/// pattern does not compile.
pub open spec fn outcome_error(outcome: Option<bool>, mismatch: Seq<char>, invalid: Seq<char>) -> Seq<Seq<char>> {
    match outcome {
        Some(true) => Seq::empty(),
        Some(false) => seq![mismatch],
        None => seq![invalid],
    }
}

/// Records what a format check found: nothing for a match, `mismatch` for no
/// match, `invalid` when the pattern did not compile.
pub fn record_format_outcome(errors: &mut Vec<String>, outcome: Option<bool>, mismatch: &str, invalid: &str)
    ensures
        errors_view(final(errors)@) == errors_view(old(errors)@) + outcome_error(outcome, mismatch@, invalid@),
{
    match outcome {
        Some(true) => {},
        Some(false) => {
            errors.push(mismatch.to_owned());
        },
        None => {
            errors.push(invalid.to_owned());
        },
    }
    assert(errors_view(final(errors)@) =~= errors_view(old(errors)@) + outcome_error(outcome, mismatch@, invalid@));
}

/// Records `mismatch` when `v` does not match `pattern`, or `invalid` when
/// the pattern does not compile.
pub fn check_format(errors: &mut Vec<String>, pattern: &str, v: &str, mismatch: &str, invalid: &str)
    ensures
        errors_view(final(errors)@) == errors_view(old(errors)@) + format_error(pattern@, v@, mismatch@, invalid@),
{
    let outcome = regex_is_match(pattern, v);
    record_format_outcome(errors, outcome, mismatch, invalid);
}

/// The message for the first row of a batch that fails its checks.
pub open spec fn batch_item_error(what: Seq<char>, idx: nat, errors: Seq<Seq<char>>) -> Seq<char> {
    what + ": item "@ + decimal(idx) + " failed validation: "@ + join(errors, seq![',', ' '])
}

/// `<what>: item <idx> failed validation: ` followed by the errors joined by `, `.
pub fn batch_item_message(what: &str, idx: usize, errors: &Vec<String>) -> (m: String)
    ensures
        m@ == batch_item_error(what@, idx as nat, errors_view(errors@)),
{
    let mut m = String::new();
    push_str(&mut m, what);
    push_str(&mut m, ": item ");
    push_u64(&mut m, idx as u64);
    push_str(&mut m, " failed validation: ");
    let joined = joined_errors(errors);
    push_str(&mut m, joined.as_str());
    assert(m@ =~= batch_item_error(what@, idx as nat, errors_view(errors@)));
    m
}

/// Whether `v` is one of the `allowed` texts.
pub open spec fn one_of(allowed: Seq<Seq<char>>, v: Seq<char>) -> bool {
    allowed.contains(v)
}

/// Records `msg` when `v` is none of the `allowed` texts.
pub fn check_enum(errors: &mut Vec<String>, v: &String, allowed: &Vec<&str>, msg: &str)
    ensures
        errors_view(final(errors)@) == errors_view(old(errors)@)
            + error_if(!one_of(allowed@.map_values(|a: &str| a@), v@), msg@),
{
    let ghost views = allowed@.map_values(|a: &str| a@);
    let mut found = false;
    let mut i: usize = 0;
    while i < allowed.len()
        invariant
            0 <= i <= allowed.len(),
            views == allowed@.map_values(|a: &str| a@),
            found <==> views.take(i as int).contains(v@),
        decreases allowed.len() - i,
    {
        let candidate = allowed[i].to_owned();
        proof {
            assert(views.take(i + 1) =~= views.take(i as int).push(views[i as int]));
        }
        if *v == candidate {
            found = true;
        }
        proof {
            if views.take(i + 1).contains(v@) && !views.take(i as int).contains(v@) {
                let j = choose|j: int| 0 <= j < views.take(i + 1).len() && #[trigger] views.take(i + 1)[j] == v@;
                assert(j == i);
            }
            if found {
                if !views.take(i as int).contains(v@) {
                    assert(views.take(i + 1)[i as int] == v@);
                }
            }
        }
        i = i + 1;
    }
    assert(views.take(allowed.len() as int) =~= views);
    if !found {
        errors.push(msg.to_owned());
    }
    assert(errors_view(final(errors)@) =~= errors_view(old(errors)@)
        + error_if(!one_of(allowed@.map_values(|a: &str| a@), v@), msg@));
}

/// Whether a number's decimal text is that of a NaN or of an infinity, as the
/// `Display` of `f32` and `f64` writes them.
pub open spec fn non_finite_text(t: Seq<char>) -> bool {
    t == seq!['N', 'a', 'N'] || t == seq!['i', 'n', 'f'] || t == seq!['-', 'i', 'n', 'f']
}

/// Records `msg` when the decimal text `v` is that of a NaN or an infinity.
pub fn check_finite(errors: &mut Vec<String>, v: &String, msg: &str)
    ensures
        errors_view(final(errors)@) == errors_view(old(errors)@) + error_if(non_finite_text(v@), msg@),
{
    proof {
        reveal_strlit("NaN");
        reveal_strlit("inf");
        reveal_strlit("-inf");
    }
    let nan = "NaN".to_owned();
    let inf = "inf".to_owned();
    let neg_inf = "-inf".to_owned();
    assert(nan@ =~= seq!['N', 'a', 'N']);
    assert(inf@ =~= seq!['i', 'n', 'f']);
    assert(neg_inf@ =~= seq!['-', 'i', 'n', 'f']);
    if *v == nan || *v == inf || *v == neg_inf {
        errors.push(msg.to_owned());
    }
    assert(errors_view(final(errors)@) =~= errors_view(old(errors)@) + error_if(non_finite_text(v@), msg@));
}

/// The errors a check adds for an optional value: none when there is no
/// value, those of the check otherwise.
pub open spec fn when_some<T>(o: Option<T>, errs: spec_fn(T) -> Seq<Seq<char>>) -> Seq<Seq<char>> {
    match o {
        Some(v) => errs(v),
        None => Seq::empty(),
    }
}

/// Records `msg` when there is a text and its UTF-8 length is below `min`.
pub fn check_min_len_opt(errors: &mut Vec<String>, v: &Option<String>, min: usize, msg: &str)
    ensures
        errors_view(final(errors)@) == errors_view(old(errors)@)
            + when_some(*v, |s: String| error_if((utf8_len(s@) as usize) < min, msg@)),
{
    match v {
        Some(s) => check_min_len(errors, s.as_str(), min, msg),
        None => {
            assert(errors_view(final(errors)@) =~= errors_view(old(errors)@) + Seq::<Seq<char>>::empty());
        },
    }
}

/// Records `msg` when there is a text and its UTF-8 length is above `max`.
pub fn check_max_len_opt(errors: &mut Vec<String>, v: &Option<String>, max: usize, msg: &str)
    ensures
        errors_view(final(errors)@) == errors_view(old(errors)@)
            + when_some(*v, |s: String| error_if((utf8_len(s@) as usize) > max, msg@)),
{
    match v {
        Some(s) => check_max_len(errors, s.as_str(), max, msg),
        None => {
            assert(errors_view(final(errors)@) =~= errors_view(old(errors)@) + Seq::<Seq<char>>::empty());
        },
    }
}

/// Records `msg` when there is a byte string longer than `max` bytes.
pub fn check_max_len_bytes_opt(errors: &mut Vec<String>, v: &Option<Vec<u8>>, max: usize, msg: &str)
    ensures
        errors_view(final(errors)@) == errors_view(old(errors)@)
            + when_some(*v, |b: Vec<u8>| error_if(b@.len() > max, msg@)),
{
    match v {
        Some(b) => check_max_len_bytes(errors, b, max, msg),
        None => {
            assert(errors_view(final(errors)@) =~= errors_view(old(errors)@) + Seq::<Seq<char>>::empty());
        },
    }
}

/// Records `msg` when there is a number below `min`.
pub fn check_min_opt_i64(errors: &mut Vec<String>, v: Option<i64>, min: i128, msg: &str)
    ensures
        errors_view(final(errors)@) == errors_view(old(errors)@) + when_some(v, |x: i64| error_if((x as int) < min, msg@)),
{
    match v {
        Some(x) => check_min(errors, x as i128, min, msg),
        None => {
            assert(errors_view(final(errors)@) =~= errors_view(old(errors)@) + Seq::<Seq<char>>::empty());
        },
    }
}

/// Records `msg` when there is a number above `max`.
pub fn check_max_opt_i64(errors: &mut Vec<String>, v: Option<i64>, max: i128, msg: &str)
    ensures
        errors_view(final(errors)@) == errors_view(old(errors)@) + when_some(v, |x: i64| error_if((x as int) > max, msg@)),
{
    match v {
        Some(x) => check_max(errors, x as i128, max, msg),
        None => {
            assert(errors_view(final(errors)@) =~= errors_view(old(errors)@) + Seq::<Seq<char>>::empty());
        },
    }
}

/// Records `msg` when there is a number below `min`.
pub fn check_min_opt_i32(errors: &mut Vec<String>, v: Option<i32>, min: i128, msg: &str)
    ensures
        errors_view(final(errors)@) == errors_view(old(errors)@) + when_some(v, |x: i32| error_if((x as int) < min, msg@)),
{
    match v {
        Some(x) => check_min(errors, x as i128, min, msg),
        None => {
            assert(errors_view(final(errors)@) =~= errors_view(old(errors)@) + Seq::<Seq<char>>::empty());
        },
    }
}

/// Records `msg` when there is a number above `max`.
pub fn check_max_opt_i32(errors: &mut Vec<String>, v: Option<i32>, max: i128, msg: &str)
    ensures
        errors_view(final(errors)@) == errors_view(old(errors)@) + when_some(v, |x: i32| error_if((x as int) > max, msg@)),
{
    match v {
        Some(x) => check_max(errors, x as i128, max, msg),
        None => {
            assert(errors_view(final(errors)@) =~= errors_view(old(errors)@) + Seq::<Seq<char>>::empty());
        },
    }
}

/// Records `msg` when there is a number below `min`.
pub fn check_min_opt_i16(errors: &mut Vec<String>, v: Option<i16>, min: i128, msg: &str)
    ensures
        errors_view(final(errors)@) == errors_view(old(errors)@) + when_some(v, |x: i16| error_if((x as int) < min, msg@)),
{
    match v {
        Some(x) => check_min(errors, x as i128, min, msg),
        None => {
            assert(errors_view(final(errors)@) =~= errors_view(old(errors)@) + Seq::<Seq<char>>::empty());
        },
    }
}

/// Records `msg` when there is a number above `max`.
pub fn check_max_opt_i16(errors: &mut Vec<String>, v: Option<i16>, max: i128, msg: &str)
    ensures
        errors_view(final(errors)@) == errors_view(old(errors)@) + when_some(v, |x: i16| error_if((x as int) > max, msg@)),
{
    match v {
        Some(x) => check_max(errors, x as i128, max, msg),
        None => {
            assert(errors_view(final(errors)@) =~= errors_view(old(errors)@) + Seq::<Seq<char>>::empty());
        },
    }
}

/// Records `msg` when there is a decimal text of a NaN or an infinity.
pub fn check_finite_opt(errors: &mut Vec<String>, v: &Option<String>, msg: &str)
    ensures
        errors_view(final(errors)@) == errors_view(old(errors)@) + when_some(*v, |s: String| error_if(non_finite_text(s@), msg@)),
{
    match v {
        Some(s) => check_finite(errors, s, msg),
        None => {
            assert(errors_view(final(errors)@) =~= errors_view(old(errors)@) + Seq::<Seq<char>>::empty());
        },
    }
}

/// Records the format error of a text when there is one.
pub fn check_format_opt(errors: &mut Vec<String>, pattern: &str, v: &Option<String>, mismatch: &str, invalid: &str)
    ensures
        errors_view(final(errors)@) == errors_view(old(errors)@)
            + when_some(*v, |s: String| format_error(pattern@, s@, mismatch@, invalid@)),
{
    match v {
        Some(s) => check_format(errors, pattern, s.as_str(), mismatch, invalid),
        None => {
            assert(errors_view(final(errors)@) =~= errors_view(old(errors)@) + Seq::<Seq<char>>::empty());
        },
    }
}

/// `Ok` when no error was recorded, the errors otherwise.
pub fn outcome(errors: Vec<String>) -> (r: Result<(), Vec<String>>)
    ensures
        r is Ok <==> errors@.len() == 0,
        r matches Err(e) ==> e@ == errors@,
{
    if errors.len() == 0 {
        Ok(())
    } else {
        Err(errors)
    }
}

/// The errors of a failed validation as one message, separated by `, `.
pub fn joined_errors(errors: &Vec<String>) -> (msg: String)
    ensures
        msg@ == join(errors_view(errors@), seq![',', ' ']),
{
    proof {
        reveal_strlit(", ");
        assert(", "@ =~= seq![',', ' ']);
    }
    join_strings(errors, ", ")
}

/// What a validation reports for a list of errors: `Ok` when it is empty, the
/// errors otherwise.
pub open spec fn validation_result(r: Result<(), Vec<String>>, errors: Seq<Seq<char>>) -> bool {
    &&& (r is Ok <==> errors.len() == 0)
    &&& (r matches Err(e) ==> errors_view(e@) == errors)
}

} // verus!
