//! Character-level string helpers that the rest of the library builds its
//! contracts on: prefix/suffix tests, substring search, and decimal rendering.

use vstd::prelude::*;

verus! {

/// `p` is a prefix of `s`.
pub open spec fn starts_with_spec(s: Seq<char>, p: Seq<char>) -> bool {
    p.len() <= s.len() && s.subrange(0, p.len() as int) == p
}

/// `p` is a suffix of `s`.
pub open spec fn ends_with_spec(s: Seq<char>, p: Seq<char>) -> bool {
    p.len() <= s.len() && s.subrange(s.len() - p.len(), s.len() as int) == p
}

/// Character-for-character prefix test.
pub fn starts_with(s: &str, p: &str) -> (r: bool)
    ensures
        r == starts_with_spec(s@, p@),
{
    let s_len = s.unicode_len();
    let p_len = p.unicode_len();
    if p_len > s_len {
        proof {
            assert(!starts_with_spec(s@, p@));
        }
        return false;
    }
    let mut i: usize = 0;
    while i < p_len
        invariant
            i <= p_len,
            p_len == p@.len(),
            p_len <= s_len,
            s_len == s@.len(),
            forall|j: int| 0 <= j < i ==> s@[j] == p@[j],
        decreases p_len - i,
    {
        if s.get_char(i) != p.get_char(i) {
            proof {
                assert(s@.subrange(0, p@.len() as int)[i as int] != p@[i as int]);
            }
            return false;
        }
        i += 1;
    }
    proof {
        assert(s@.subrange(0, p@.len() as int) =~= p@);
    }
    true
}

/// Character-for-character suffix test.
pub fn ends_with(s: &str, p: &str) -> (r: bool)
    ensures
        r == ends_with_spec(s@, p@),
{
    let s_len = s.unicode_len();
    let p_len = p.unicode_len();
    if p_len > s_len {
        proof {
            assert(!ends_with_spec(s@, p@));
        }
        return false;
    }
    let off = s_len - p_len;
    let mut i: usize = 0;
    while i < p_len
        invariant
            i <= p_len,
            p_len == p@.len(),
            p_len <= s_len,
            s_len == s@.len(),
            off == s_len - p_len,
            forall|j: int| 0 <= j < i ==> s@[off + j] == p@[j],
        decreases p_len - i,
    {
        if s.get_char(off + i) != p.get_char(i) {
            proof {
                let k = i as int;
                assert(s@.subrange(s@.len() - p@.len(), s@.len() as int)[k] != p@[k]);
            }
            return false;
        }
        i += 1;
    }
    proof {
        assert(s@.subrange(s@.len() - p@.len(), s@.len() as int) =~= p@);
    }
    true
}

/// The literal marker that selector strings use to separate a tag's prefix
/// from its suffix, as a character sequence.
pub open spec fn text_marker() -> Seq<char> {
    seq!['t', 'e', 'x', 't']
}

/// The marker occurs in `s` at position `i`.
pub open spec fn text_match_at(s: Seq<char>, i: int) -> bool {
    0 <= i && i + 4 <= s.len() && s.subrange(i, i + 4) == text_marker()
}

/// Position of the first marker occurrence in `s`, if any.
pub open spec fn find_text_spec(s: Seq<char>) -> Option<int>
    decreases s.len(),
{
    if s.len() < 4 {
        None
    } else if s.subrange(0, 4) == text_marker() {
        Some(0)
    } else {
        match find_text_spec(s.subrange(1, s.len() as int)) {
            None => None,
            Some(i) => Some(i + 1),
        }
    }
}

/// A position that matches, with no earlier match, is what `find_text_spec`
/// returns.
pub proof fn lemma_find_text_first(s: Seq<char>, k: int)
    requires
        text_match_at(s, k),
        forall|j: int| 0 <= j < k ==> !text_match_at(s, j),
    ensures
        find_text_spec(s) == Some(k),
    decreases k,
{
    if k == 0 {
        assert(find_text_spec(s) == Some(0int));
    } else {
        let s1 = s.subrange(1, s.len() as int);
        assert(s.subrange(0, 4) != text_marker()) by {
            assert(!text_match_at(s, 0));
        }
        assert(text_match_at(s1, k - 1)) by {
            assert(s1.subrange(k - 1, k + 3) =~= s.subrange(k, k + 4));
        }
        assert forall|j: int| 0 <= j < k - 1 implies !text_match_at(s1, j) by {
            if text_match_at(s1, j) {
                assert(s.subrange(j + 1, j + 5) =~= s1.subrange(j, j + 4));
                assert(text_match_at(s, j + 1));
            }
        }
        lemma_find_text_first(s1, k - 1);
    }
}

/// When no position matches, `find_text_spec` returns `None`.
pub proof fn lemma_find_text_none(s: Seq<char>)
    requires
        forall|j: int| !text_match_at(s, j),
    ensures
        find_text_spec(s) is None,
    decreases s.len(),
{
    if s.len() >= 4 {
        let s1 = s.subrange(1, s.len() as int);
        assert(!text_match_at(s, 0));
        assert forall|j: int| !text_match_at(s1, j) by {
            if text_match_at(s1, j) {
                assert(s.subrange(j + 1, j + 5) =~= s1.subrange(j, j + 4));
                assert(text_match_at(s, j + 1));
            }
        }
        lemma_find_text_none(s1);
    }
}

/// Scans for the first occurrence of the marker.
pub fn find_text(s: &str) -> (r: Option<usize>)
    ensures
        match r {
            Some(i) => find_text_spec(s@) == Some(i as int) && text_match_at(s@, i as int),
            None => find_text_spec(s@) is None,
        },
{
    let len = s.unicode_len();
    if len < 4 {
        proof {
            assert forall|j: int| !text_match_at(s@, j) by {}
            lemma_find_text_none(s@);
        }
        return None;
    }
    let mut i: usize = 0;
    while i <= len - 4
        invariant
            len == s@.len(),
            4 <= len,
            i <= len - 3,
            forall|j: int| 0 <= j < i ==> !text_match_at(s@, j),
        decreases len - i,
    {
        if s.get_char(i) == 't' && s.get_char(i + 1) == 'e' && s.get_char(i + 2) == 'x'
            && s.get_char(i + 3) == 't' {
            proof {
                assert(s@.subrange(i as int, i + 4) =~= text_marker());
                lemma_find_text_first(s@, i as int);
            }
            return Some(i);
        }
        proof {
            if text_match_at(s@, i as int) {
                assert(s@.subrange(i as int, i + 4)[0] == 't');
                assert(s@.subrange(i as int, i + 4)[1] == 'e');
                assert(s@.subrange(i as int, i + 4)[2] == 'x');
                assert(s@.subrange(i as int, i + 4)[3] == 't');
            }
        }
        i += 1;
    }
    proof {
        assert forall|j: int| !text_match_at(s@, j) by {}
        lemma_find_text_none(s@);
    }
    None
}

/// What splitting a selector at the marker yields: the part before the first
/// occurrence and, when the marker occurs, the part between the first and the
/// second occurrence (or the rest when it occurs once).
pub open spec fn split_text_spec(s: Seq<char>) -> (Seq<char>, Option<Seq<char>>) {
    match find_text_spec(s) {
        None => (s, None),
        Some(i) => {
            let rest = s.subrange(i + 4, s.len() as int);
            let post = match find_text_spec(rest) {
                None => rest,
                Some(j) => rest.subrange(0, j),
            };
            (s.subrange(0, i), Some(post))
        },
    }
}

/// Splits a selector string at the marker.
pub fn split_text(s: &str) -> (r: (String, Option<String>))
    ensures
        r.0@ == split_text_spec(s@).0,
        r.1 is Some <==> split_text_spec(s@).1 is Some,
        r.1 matches Some(p) ==> split_text_spec(s@).1 == Some(p@),
{
    let len = s.unicode_len();
    match find_text(s) {
        None => (s.to_owned(), None),
        Some(i) => {
            let pre = s.substring_char(0, i).to_owned();
            let rest = s.substring_char(i + 4, len);
            let rest_len = rest.unicode_len();
            let post = match find_text(rest) {
                None => rest.to_owned(),
                Some(j) => rest.substring_char(0, j).to_owned(),
            };
            (pre, Some(post))
        },
    }
}

/// The character for one decimal digit value.
pub open spec fn dec_digit(d: int) -> char {
    if d == 0 {
        '0'
    } else if d == 1 {
        '1'
    } else if d == 2 {
        '2'
    } else if d == 3 {
        '3'
    } else if d == 4 {
        '4'
    } else if d == 5 {
        '5'
    } else if d == 6 {
        '6'
    } else if d == 7 {
        '7'
    } else if d == 8 {
        '8'
    } else {
        '9'
    }
}

/// The decimal rendering of a non-negative integer, most significant digit
/// first and without leading zeroes.
pub open spec fn dec_of(n: int) -> Seq<char>
    decreases n,
{
    if n < 10 {
        seq![dec_digit(n)]
    } else {
        dec_of(n / 10).push(dec_digit(n % 10))
    }
}

/// Renders an unsigned integer in decimal.
pub fn u64_to_dec(n: u64) -> (r: String)
    ensures
        r@ == dec_of(n as int),
    decreases n,
{
    let d = n % 10;
    let digit_str: &str = if d == 0 {
        "0"
    } else if d == 1 {
        "1"
    } else if d == 2 {
        "2"
    } else if d == 3 {
        "3"
    } else if d == 4 {
        "4"
    } else if d == 5 {
        "5"
    } else if d == 6 {
        "6"
    } else if d == 7 {
        "7"
    } else if d == 8 {
        "8"
    } else {
        "9"
    };
    proof {
        reveal_strlit("0");
        reveal_strlit("1");
        reveal_strlit("2");
        reveal_strlit("3");
        reveal_strlit("4");
        reveal_strlit("5");
        reveal_strlit("6");
        reveal_strlit("7");
        reveal_strlit("8");
        reveal_strlit("9");
        assert(digit_str@ =~= seq![dec_digit(n as int % 10)]);
    }
    if n < 10 {
        digit_str.to_owned()
    } else {
        let rest = u64_to_dec(n / 10);
        let r = rest.concat(digit_str);
        proof {
            assert(r@ =~= dec_of(n as int / 10).push(dec_digit(n as int % 10)));
        }
        r
    }
}

/// The character is a decimal digit.
pub open spec fn is_dec_digit(c: char) -> bool {
    48 <= c as int <= 57
}

/// Every character of `s` is a decimal digit.
pub open spec fn all_dec_digits(s: Seq<char>) -> bool {
    forall|i: int| 0 <= i < s.len() ==> is_dec_digit(#[trigger] s[i])
}

/// The numeric value of a digit string, read most significant digit first.
pub open spec fn dec_val(s: Seq<char>) -> int
    decreases s.len(),
{
    if s.len() == 0 {
        0
    } else {
        dec_val(s.drop_last()) * 10 + (s.last() as int - 48)
    }
}

/// A digit string's value is non-negative.
pub proof fn lemma_dec_val_nonneg(s: Seq<char>)
    requires
        all_dec_digits(s),
    ensures
        dec_val(s) >= 0,
    decreases s.len(),
{
    if s.len() > 0 {
        assert(all_dec_digits(s.drop_last())) by {
            assert(forall|i: int|
                0 <= i < s.len() - 1 ==> s.drop_last()[i] == #[trigger] s[i]);
        }
        lemma_dec_val_nonneg(s.drop_last());
        assert(dec_val(s.drop_last()) * 10 >= 0) by (nonlinear_arith)
            requires
                dec_val(s.drop_last()) >= 0,
        ;
    }
}

/// Extending a digit string never lowers its value.
pub proof fn lemma_dec_val_prefix(s: Seq<char>, i: int)
    requires
        all_dec_digits(s),
        0 <= i <= s.len(),
    ensures
        dec_val(s.take(i)) <= dec_val(s),
    decreases s.len() - i,
{
    if i < s.len() {
        lemma_dec_val_prefix(s, i + 1);
        let t = s.take(i + 1);
        assert(t.drop_last() =~= s.take(i));
        assert(all_dec_digits(s.take(i))) by {
            assert(forall|j: int| 0 <= j < i ==> s.take(i)[j] == #[trigger] s[j]);
        }
        lemma_dec_val_nonneg(s.take(i));
        assert(dec_val(t) == dec_val(s.take(i)) * 10 + (t.last() as int - 48));
        assert(dec_val(s.take(i)) * 10 >= dec_val(s.take(i))) by (nonlinear_arith)
            requires
                dec_val(s.take(i)) >= 0,
        ;
        assert(t.last() as int - 48 >= 0) by {
            assert(is_dec_digit(s[i]));
        }
    } else {
        assert(s.take(i) =~= s);
    }
}

/// Parses a digit string into an unsigned integer. Succeeds exactly on
/// non-empty all-digit strings whose value fits.
pub fn parse_u64(s: &str) -> (r: Option<u64>)
    ensures
        match r {
            Some(v) => s@.len() > 0 && all_dec_digits(s@) && dec_val(s@) == v as int,
            None => s@.len() == 0 || !all_dec_digits(s@) || dec_val(s@) > u64::MAX,
        },
{
    let len = s.unicode_len();
    if len == 0 {
        return None;
    }
    let mut val: u64 = 0;
    let mut i: usize = 0;
    while i < len
        invariant
            len == s@.len(),
            i <= len,
            all_dec_digits(s@.take(i as int)),
            dec_val(s@.take(i as int)) == val as int,
        decreases len - i,
    {
        let c = s.get_char(i);
        let cv = c as u32;
        if cv < 48 || cv > 57 {
            proof {
                assert(!is_dec_digit(s@[i as int]));
            }
            return None;
        }
        let d = (cv - 48) as u64;
        if val > (u64::MAX - d) / 10 {
            proof {
                let t = s@.take(i + 1);
                assert(t.drop_last() =~= s@.take(i as int));
                assert(t.last() == s@[i as int]);
                assert(all_dec_digits(t)) by {
                    assert(forall|j: int| 0 <= j < i ==> t[j] == s@.take(i as int)[j]);
                }
                assert(dec_val(t) == val as int * 10 + d);
                assert(val as int * 10 + d > u64::MAX) by (nonlinear_arith)
                    requires
                        val as int > (u64::MAX - d) / 10,
                        0 <= d <= 9,
                        val <= u64::MAX,
                ;
                if all_dec_digits(s@) {
                    lemma_dec_val_prefix(s@, i + 1);
                }
            }
            return None;
        }
        proof {
            assert(val as int * 10 + d <= u64::MAX) by (nonlinear_arith)
                requires
                    val as int <= (u64::MAX - d) / 10,
                    0 <= d <= 9,
                    0 <= val,
            ;
        }
        let new_val = val * 10 + d;
        proof {
            let t = s@.take(i + 1);
            assert(t.drop_last() =~= s@.take(i as int));
            assert(t.last() == s@[i as int]);
            assert(all_dec_digits(t)) by {
                assert(forall|j: int| 0 <= j < i ==> t[j] == s@.take(i as int)[j]);
            }
        }
        val = new_val;
        i += 1;
    }
    proof {
        assert(s@.take(len as int) =~= s@);
    }
    Some(val)
}

/// The part of `s` after its last `/`; all of `s` when it has none.
pub open spec fn after_last_slash(s: Seq<char>) -> Seq<char>
    decreases s.len(),
{
    if s.len() == 0 {
        Seq::<char>::empty()
    } else if s.last() == '/' {
        Seq::<char>::empty()
    } else {
        after_last_slash(s.drop_last()).push(s.last())
    }
}

/// Returns the part of `s` after its last `/`.
pub fn last_path_segment(s: &str) -> (r: String)
    ensures
        r@ == after_last_slash(s@),
{
    let len = s.unicode_len();
    let mut start: usize = 0;
    let mut i: usize = 0;
    while i < len
        invariant
            len == s@.len(),
            i <= len,
            start <= i,
            after_last_slash(s@.take(i as int)) =~= s@.subrange(start as int, i as int),
            start > 0 ==> s@[start - 1] == '/',
            forall|j: int| start <= j < i ==> s@[j] != '/',
        decreases len - i,
    {
        let c = s.get_char(i);
        proof {
            let t = s@.take(i + 1);
            assert(t.drop_last() =~= s@.take(i as int));
            assert(t.last() == s@[i as int]);
            if s@[i as int] == '/' {
                assert(after_last_slash(t) =~= s@.subrange(i + 1, i + 1));
            } else {
                assert(after_last_slash(t) =~= s@.subrange(start as int, i + 1));
            }
        }
        if c == '/' {
            start = i + 1;
        }
        i += 1;
    }
    proof {
        assert(s@.take(len as int) =~= s@);
    }
    s.substring_char(start, len).to_owned()
}

/// Position of the first element of `s` that satisfies `p`, if any.
pub open spec fn first_where<T>(s: Seq<T>, p: spec_fn(T) -> bool) -> Option<int>
    decreases s.len(),
{
    if s.len() == 0 {
        None
    } else if p(s[0]) {
        Some(0)
    } else {
        match first_where(s.drop_first(), p) {
            None => None,
            Some(i) => Some(i + 1),
        }
    }
}

/// An element that satisfies `p`, with none earlier, is what `first_where`
/// returns.
pub proof fn lemma_first_where_is<T>(s: Seq<T>, p: spec_fn(T) -> bool, k: int)
    requires
        0 <= k < s.len(),
        p(s[k]),
        forall|i: int| 0 <= i < k ==> !p(s[i]),
    ensures
        first_where(s, p) == Some(k),
    decreases k,
{
    if k > 0 {
        lemma_first_where_is(s.drop_first(), p, k - 1);
    }
}

/// When no element satisfies `p`, `first_where` returns `None`.
pub proof fn lemma_first_where_none<T>(s: Seq<T>, p: spec_fn(T) -> bool)
    requires
        forall|i: int| 0 <= i < s.len() ==> !p(s[i]),
    ensures
        first_where(s, p) is None,
    decreases s.len(),
{
    if s.len() > 0 {
        lemma_first_where_none(s.drop_first(), p);
    }
}

/// What `first_where` returns satisfies `p`, and nothing before it does.
pub proof fn lemma_first_where<T>(s: Seq<T>, p: spec_fn(T) -> bool)
    ensures
        match first_where(s, p) {
            None => forall|i: int| 0 <= i < s.len() ==> !p(s[i]),
            Some(k) => 0 <= k < s.len() && p(s[k]) && forall|i: int| 0 <= i < k ==> !p(s[i]),
        },
    decreases s.len(),
{
    if s.len() > 0 && !p(s[0]) {
        let s1 = s.drop_first();
        lemma_first_where(s1, p);
        match first_where(s1, p) {
            None => {
                assert forall|i: int| 0 <= i < s.len() implies !p(s[i]) by {
                    if i > 0 {
                        assert(s1[i - 1] == s[i]);
                    }
                }
            },
            Some(k) => {
                assert(s1[k] == s[k + 1]);
                assert forall|i: int| 0 <= i < k + 1 implies !p(s[i]) by {
                    if i > 0 {
                        assert(s1[i - 1] == s[i]);
                    }
                }
            },
        }
    }
}

} // verus!
