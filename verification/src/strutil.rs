//! Character and string helpers shared by the engine: ASCII case folding,
//! string equality, and substring search.

use vstd::prelude::*;

verus! {

/// Relies on std's String::push: appends the given char to the end of the string.
pub assume_specification[ String::push ](s: &mut String, c: char)
    ensures
        final(s)@ == old(s)@.push(c),
;

/// ASCII-only lower casing of one character; every other character is kept.
pub open spec fn lower_char(c: char) -> char {
    if 65 <= c as u32 && c as u32 <= 90 {
        (((c as u32) + 32) as u8) as char
    } else {
        c
    }
}

/// ASCII-only lower casing of a character sequence.
pub open spec fn lower_seq(s: Seq<char>) -> Seq<char> {
    s.map_values(|c: char| lower_char(c))
}

pub fn char_to_lower(c: char) -> (r: char)
    ensures
        r == lower_char(c),
{
    let u: u32 = c as u32;
    if 65 <= u && u <= 90 {
        ((u + 32) as u8) as char
    } else {
        c
    }
}

/// ASCII-only lower casing of a string, as the registry folds lookup codes.
pub fn to_lower_str(s: &str) -> (r: String)
    ensures
        r@ == lower_seq(s@),
{
    let n: usize = s.unicode_len();
    let mut out = String::new();
    for i in 0..n
        invariant
            n == s@.len(),
            out@ == lower_seq(s@.subrange(0, i as int)),
    {
        out.push(char_to_lower(s.get_char(i)));
        proof {
            assert(s@.subrange(0, i + 1) =~= s@.subrange(0, i as int).push(s@[i as int]));
            assert(lower_seq(s@.subrange(0, i + 1)) =~= lower_seq(
                s@.subrange(0, i as int),
            ).push(lower_char(s@[i as int])));
        }
    }
    proof {
        assert(s@.subrange(0, n as int) =~= s@);
    }
    out
}

/// Case folding twice is the same as folding once.
pub proof fn lemma_lower_seq_idempotent(s: Seq<char>)
    ensures
        lower_seq(lower_seq(s)) == lower_seq(s),
{
    assert forall|i: int| 0 <= i < s.len() implies lower_char(lower_char(s[i])) == lower_char(
        s[i],
    ) by {
        let c = s[i];
        let d = lower_char(c);
        if 65 <= c as u32 && c as u32 <= 90 {
            assert(d as u32 > 90);
        }
    }
    assert(lower_seq(lower_seq(s)) =~= lower_seq(s));
}

pub fn str_eq(a: &str, b: &str) -> (r: bool)
    ensures
        r == (a@ == b@),
{
    let n: usize = a.unicode_len();
    if n != b.unicode_len() {
        return false;
    }
    for i in 0..n
        invariant
            n == a@.len(),
            n == b@.len(),
            forall|j: int| 0 <= j < i ==> a@[j] == b@[j],
    {
        if a.get_char(i) != b.get_char(i) {
            return false;
        }
    }
    proof {
        assert(a@ =~= b@);
    }
    true
}

/// The pattern `pat` occurs in `s` starting at index `i`.
pub open spec fn matches_at(s: Seq<char>, pat: Seq<char>, i: int) -> bool {
    &&& 0 <= i
    &&& i + pat.len() <= s.len()
    &&& s.subrange(i, i + pat.len()) == pat
}

/// The pattern `pat` occurs somewhere in `s`.
pub open spec fn contains_seq(s: Seq<char>, pat: Seq<char>) -> bool {
    exists|i: int| matches_at(s, pat, i)
}

pub fn has_match_at(s: &str, pat: &str, i: usize) -> (r: bool)
    requires
        i <= s@.len(),
    ensures
        r == matches_at(s@, pat@, i as int),
{
    let n: usize = s.unicode_len();
    let p: usize = pat.unicode_len();
    if p > n - i {
        return false;
    }
    for j in 0..p
        invariant
            i + p <= n,
            n == s@.len(),
            p == pat@.len(),
            forall|k: int| 0 <= k < j ==> s@[i + k] == pat@[k],
    {
        if s.get_char(i + j) != pat.get_char(j) {
            proof {
                if matches_at(s@, pat@, i as int) {
                    assert(s@.subrange(i as int, i + pat@.len())[j as int] == pat@[j as int]);
                }
            }
            return false;
        }
    }
    proof {
        assert(s@.subrange(i as int, i + pat@.len()) =~= pat@);
    }
    true
}

/// Index of the first occurrence of `pat` in `s` at or after `from`.
pub fn find_from(s: &str, pat: &str, from: usize) -> (r: Option<usize>)
    requires
        from <= s@.len(),
    ensures
        match r {
            Some(k) => {
                &&& from <= k
                &&& matches_at(s@, pat@, k as int)
                &&& forall|m: int| from <= m < k ==> !matches_at(s@, pat@, m)
            },
            None => forall|m: int| from <= m ==> !matches_at(s@, pat@, m),
        },
{
    let n: usize = s.unicode_len();
    let mut k: usize = from;
    while k < n
        invariant
            from <= k <= n,
            n == s@.len(),
            forall|m: int| from <= m < k ==> !matches_at(s@, pat@, m),
        decreases n - k,
    {
        if has_match_at(s, pat, k) {
            return Some(k);
        }
        k = k + 1;
    }
    if has_match_at(s, pat, n) {
        return Some(n);
    }
    proof {
        assert forall|m: int| from <= m implies !matches_at(s@, pat@, m) by {
            if m > n {
                assert(m + pat@.len() > s@.len());
            }
        }
    }
    None
}

/// Every occurrence of `pat` in `s` replaced by `repl`, scanning left to
/// right without rescanning replaced text, as std's str::replace does.
pub open spec fn replace_all(s: Seq<char>, pat: Seq<char>, repl: Seq<char>) -> Seq<char>
    decreases s.len(),
{
    if pat.len() == 0 || s.len() < pat.len() {
        s
    } else if s.subrange(0, pat.len() as int) == pat {
        repl + replace_all(s.subrange(pat.len() as int, s.len() as int), pat, repl)
    } else {
        seq![s[0]] + replace_all(s.subrange(1, s.len() as int), pat, repl)
    }
}

pub fn replace_all_str(s: &str, pat: &str, repl: &str) -> (r: String)
    ensures
        r@ == replace_all(s@, pat@, repl@),
{
    let n: usize = s.unicode_len();
    let p: usize = pat.unicode_len();
    if p == 0 {
        return s.to_owned();
    }
    let mut out = String::new();
    let mut i: usize = 0;
    proof {
        assert(s@.subrange(0, n as int) =~= s@);
        assert(Seq::<char>::empty() + replace_all(s@, pat@, repl@) =~= replace_all(
            s@,
            pat@,
            repl@,
        ));
    }
    while i < n
        invariant
            i <= n,
            n == s@.len(),
            p == pat@.len(),
            p >= 1,
            replace_all(s@, pat@, repl@) == out@ + replace_all(
                s@.subrange(i as int, n as int),
                pat@,
                repl@,
            ),
        decreases n - i,
    {
        let ghost tail = s@.subrange(i as int, n as int);
        if has_match_at(s, pat, i) {
            out.append(repl);
            proof {
                assert(tail.subrange(0, p as int) =~= s@.subrange(i as int, i + p as int));
                assert(tail.subrange(p as int, tail.len() as int) =~= s@.subrange(
                    i + p as int,
                    n as int,
                ));
                assert(replace_all(tail, pat@, repl@) == repl@ + replace_all(
                    s@.subrange(i + p as int, n as int),
                    pat@,
                    repl@,
                ));
                assert((out@ + repl@) + replace_all(s@.subrange(i + p as int, n as int), pat@, repl@)
                    =~= out@ + (repl@ + replace_all(
                    s@.subrange(i + p as int, n as int),
                    pat@,
                    repl@,
                )));
            }
            i = i + p;
        } else {
            out.push(s.get_char(i));
            proof {
                if tail.len() >= p {
                    if tail.subrange(0, p as int) == pat@ {
                        assert(s@.subrange(i as int, i + pat@.len()) =~= tail.subrange(
                            0,
                            p as int,
                        ));
                        assert(matches_at(s@, pat@, i as int));
                    }
                    assert(tail.subrange(1, tail.len() as int) =~= s@.subrange(
                        i + 1,
                        n as int,
                    ));
                    assert(replace_all(tail, pat@, repl@) == seq![s@[i as int]] + replace_all(
                        s@.subrange(i + 1, n as int),
                        pat@,
                        repl@,
                    ));
                } else {
                    // the tail is shorter than the pattern: it is kept as it is
                    assert(replace_all(tail, pat@, repl@) == tail);
                    assert(tail =~= seq![s@[i as int]] + s@.subrange(i + 1, n as int));
                    assert(s@.subrange(i + 1, n as int).len() < p);
                }
                assert((out@ + seq![s@[i as int]]) + replace_all(
                    s@.subrange(i + 1, n as int),
                    pat@,
                    repl@,
                ) =~= out@ + (seq![s@[i as int]] + replace_all(
                    s@.subrange(i + 1, n as int),
                    pat@,
                    repl@,
                )));
                assert(out@.push(s@[i as int]) =~= out@ + seq![s@[i as int]]);
            }
            i = i + 1;
        }
    }
    proof {
        assert(s@.subrange(n as int, n as int) =~= Seq::<char>::empty());
        assert(out@ + Seq::<char>::empty() =~= out@);
    }
    out
}

pub fn contains_str(s: &str, pat: &str) -> (r: bool)
    ensures
        r == contains_seq(s@, pat@),
{
    match find_from(s, pat, 0) {
        Some(_) => true,
        None => {
            proof {
                assert forall|m: int| !matches_at(s@, pat@, m) by {}
            }
            false
        },
    }
}

pub fn concat2(a: &str, b: &str) -> (r: String)
    ensures
        r@ == a@ + b@,
{
    let mut out = a.to_owned();
    out.append(b);
    out
}

pub fn concat3(a: &str, b: &str, c: &str) -> (r: String)
    ensures
        r@ == a@ + b@ + c@,
{
    let mut out = a.to_owned();
    out.append(b);
    out.append(c);
    out
}

/// Index of the last occurrence of `c` in `s`.
pub fn rfind_char(s: &str, c: char) -> (r: Option<usize>)
    ensures
        match r {
            Some(k) => {
                &&& k < s@.len()
                &&& s@[k as int] == c
                &&& forall|m: int| k < m < s@.len() ==> s@[m] != c
            },
            None => forall|m: int| 0 <= m < s@.len() ==> s@[m] != c,
        },
{
    let n: usize = s.unicode_len();
    let mut k: usize = n;
    while k > 0
        invariant
            k <= n,
            n == s@.len(),
            forall|m: int| k <= m < s@.len() ==> s@[m] != c,
        decreases k,
    {
        k = k - 1;
        if s.get_char(k) == c {
            return Some(k);
        }
    }
    None
}

/// The part of `s` before the first occurrence of `c`; all of `s` when
/// `c` does not occur.
pub open spec fn prefix_before_first(s: Seq<char>, c: char) -> Seq<char>
    decreases s.len(),
{
    if s.len() == 0 {
        s
    } else if s[0] == c {
        Seq::<char>::empty()
    } else {
        seq![s[0]] + prefix_before_first(s.drop_first(), c)
    }
}

/// The part of `s` after the first occurrence of `c`; empty when `c` does
/// not occur.
pub open spec fn suffix_after_first(s: Seq<char>, c: char) -> Seq<char>
    decreases s.len(),
{
    if s.len() == 0 {
        s
    } else if s[0] == c {
        s.drop_first()
    } else {
        suffix_after_first(s.drop_first(), c)
    }
}

pub proof fn lemma_first_occurrence(s: Seq<char>, c: char, k: int)
    requires
        0 <= k < s.len(),
        s[k] == c,
        forall|m: int| 0 <= m < k ==> s[m] != c,
    ensures
        prefix_before_first(s, c) == s.subrange(0, k),
        suffix_after_first(s, c) == s.subrange(k + 1, s.len() as int),
    decreases k,
{
    if k == 0 {
        assert(s.subrange(0, 0) =~= Seq::<char>::empty());
        assert(s.subrange(1, s.len() as int) =~= s.drop_first());
    } else {
        assert(s[0] != c);
        assert forall|m: int| 0 <= m < k - 1 implies s.drop_first()[m] != c by {
            assert(s.drop_first()[m] == s[m + 1]);
        }
        assert(s.drop_first()[k - 1] == s[k]);
        lemma_first_occurrence(s.drop_first(), c, k - 1);
        assert(s.drop_first().subrange(0, k - 1) =~= s.subrange(1, k));
        assert(seq![s[0]] + s.subrange(1, k) =~= s.subrange(0, k));
        assert(s.drop_first().subrange(k - 1 + 1, s.drop_first().len() as int) =~= s.subrange(
            k + 1,
            s.len() as int,
        ));
    }
}

pub proof fn lemma_no_first_occurrence(s: Seq<char>, c: char)
    requires
        forall|m: int| 0 <= m < s.len() ==> s[m] != c,
    ensures
        prefix_before_first(s, c) == s,
        suffix_after_first(s, c) == Seq::<char>::empty(),
    decreases s.len(),
{
    if s.len() > 0 {
        assert forall|m: int| 0 <= m < s.drop_first().len() implies s.drop_first()[m] != c by {
            assert(s.drop_first()[m] == s[m + 1]);
        }
        lemma_no_first_occurrence(s.drop_first(), c);
        assert(seq![s[0]] + s.drop_first() =~= s);
    }
}

/// Index of the first occurrence of `c` in `s`.
pub fn find_char(s: &str, c: char) -> (r: Option<usize>)
    ensures
        match r {
            Some(k) => {
                &&& k < s@.len()
                &&& s@[k as int] == c
                &&& forall|m: int| 0 <= m < k ==> s@[m] != c
            },
            None => forall|m: int| 0 <= m < s@.len() ==> s@[m] != c,
        },
{
    let n: usize = s.unicode_len();
    for k in 0..n
        invariant
            n == s@.len(),
            forall|m: int| 0 <= m < k ==> s@[m] != c,
    {
        if s.get_char(k) == c {
            return Some(k);
        }
    }
    None
}

/// The part of `s` after the last occurrence of `c`; all of `s` when `c`
/// does not occur.
pub open spec fn suffix_after_last(s: Seq<char>, c: char) -> Seq<char>
    decreases s.len(),
{
    if s.len() == 0 {
        s
    } else if s.last() == c {
        Seq::<char>::empty()
    } else {
        suffix_after_last(s.drop_last(), c).push(s.last())
    }
}

/// The part of `s` before the last occurrence of `c`; empty when `c` does
/// not occur.
pub open spec fn prefix_before_last(s: Seq<char>, c: char) -> Seq<char>
    decreases s.len(),
{
    if s.len() == 0 {
        s
    } else if s.last() == c {
        s.drop_last()
    } else {
        prefix_before_last(s.drop_last(), c)
    }
}

pub proof fn lemma_last_occurrence(s: Seq<char>, c: char, k: int)
    requires
        0 <= k < s.len(),
        s[k] == c,
        forall|m: int| k < m < s.len() ==> s[m] != c,
    ensures
        suffix_after_last(s, c) == s.subrange(k + 1, s.len() as int),
        prefix_before_last(s, c) == s.subrange(0, k),
    decreases s.len(),
{
    if k == s.len() - 1 {
        assert(s.subrange(k + 1, s.len() as int) =~= Seq::<char>::empty());
        assert(s.subrange(0, k) =~= s.drop_last());
    } else {
        assert(s.last() != c);
        lemma_last_occurrence(s.drop_last(), c, k);
        assert(s.drop_last().subrange(k + 1, s.len() - 1) =~= s.subrange(k + 1, s.len() - 1));
        assert(s.subrange(k + 1, s.len() - 1).push(s.last()) =~= s.subrange(
            k + 1,
            s.len() as int,
        ));
        assert(s.drop_last().subrange(0, k) =~= s.subrange(0, k));
    }
}

pub proof fn lemma_no_occurrence(s: Seq<char>, c: char)
    requires
        forall|m: int| 0 <= m < s.len() ==> s[m] != c,
    ensures
        suffix_after_last(s, c) == s,
        prefix_before_last(s, c) == Seq::<char>::empty(),
    decreases s.len(),
{
    if s.len() > 0 {
        lemma_no_occurrence(s.drop_last(), c);
        assert(s.drop_last().push(s.last()) =~= s);
    }
}

/// Lexicographic order on character sequences, by code point.
pub open spec fn lex_leq(a: Seq<char>, b: Seq<char>) -> bool
    decreases a.len(),
{
    if a.len() == 0 {
        true
    } else if b.len() == 0 {
        false
    } else if (a[0] as u32) < (b[0] as u32) {
        true
    } else if (a[0] as u32) > (b[0] as u32) {
        false
    } else {
        lex_leq(a.drop_first(), b.drop_first())
    }
}

/// Any two sequences are ordered one way or the other.
pub proof fn lemma_lex_connected(a: Seq<char>, b: Seq<char>)
    ensures
        lex_leq(a, b) || lex_leq(b, a),
    decreases a.len(),
{
    if a.len() > 0 && b.len() > 0 && (a[0] as u32) == (b[0] as u32) {
        lemma_lex_connected(a.drop_first(), b.drop_first());
    }
}

pub fn str_lex_leq(a: &str, b: &str) -> (r: bool)
    ensures
        r == lex_leq(a@, b@),
{
    let n: usize = a.unicode_len();
    let m: usize = b.unicode_len();
    let mut i: usize = 0;
    proof {
        assert(a@.skip(0) =~= a@);
        assert(b@.skip(0) =~= b@);
    }
    while i < n && i < m
        invariant
            i <= n,
            i <= m,
            n == a@.len(),
            m == b@.len(),
            lex_leq(a@, b@) == lex_leq(a@.skip(i as int), b@.skip(i as int)),
        decreases n - i,
    {
        let ca: u32 = a.get_char(i) as u32;
        let cb: u32 = b.get_char(i) as u32;
        let ghost ta = a@.skip(i as int);
        let ghost tb = b@.skip(i as int);
        proof {
            assert(ta[0] == a@[i as int]);
            assert(tb[0] == b@[i as int]);
        }
        if ca != cb {
            return ca < cb;
        }
        proof {
            assert(ta.drop_first() =~= a@.skip(i + 1));
            assert(tb.drop_first() =~= b@.skip(i + 1));
        }
        i = i + 1;
    }
    proof {
        if i >= n {
            assert(a@.skip(i as int) =~= Seq::<char>::empty());
        } else {
            assert(b@.skip(i as int) =~= Seq::<char>::empty());
            assert(a@.skip(i as int).len() > 0);
        }
    }
    i >= n
}

/// `x` placed before the first element of the sorted sequence `s` that is
/// not below it.
pub open spec fn insert_sorted(x: Seq<char>, s: Seq<Seq<char>>) -> Seq<Seq<char>>
    decreases s.len(),
{
    if s.len() == 0 {
        seq![x]
    } else if lex_leq(x, s[0]) {
        seq![x] + s
    } else {
        seq![s[0]] + insert_sorted(x, s.drop_first())
    }
}

/// Insertion sort, folding the input into the accumulator from the left.
pub open spec fn sort_from(acc: Seq<Seq<char>>, s: Seq<Seq<char>>) -> Seq<Seq<char>>
    decreases s.len(),
{
    if s.len() == 0 {
        acc
    } else {
        sort_from(insert_sorted(s[0], acc), s.drop_first())
    }
}

/// Insertion sort of a sequence of character sequences.
pub open spec fn sort_codes(s: Seq<Seq<char>>) -> Seq<Seq<char>> {
    sort_from(Seq::<Seq<char>>::empty(), s)
}

/// The sequence joined by `sep`.
pub open spec fn join_with(parts: Seq<Seq<char>>, sep: Seq<char>) -> Seq<char>
    decreases parts.len(),
{
    if parts.len() == 0 {
        Seq::<char>::empty()
    } else if parts.len() == 1 {
        parts[0]
    } else {
        parts[0] + sep + join_with(parts.drop_first(), sep)
    }
}

pub proof fn lemma_join_push(parts: Seq<Seq<char>>, x: Seq<char>, sep: Seq<char>)
    ensures
        join_with(parts.push(x), sep) == if parts.len() == 0 {
            x
        } else {
            join_with(parts, sep) + sep + x
        },
    decreases parts.len(),
{
    if parts.len() == 0 {
        assert(join_with(parts.push(x), sep) == parts.push(x)[0]);
    } else {
        lemma_join_push(parts.drop_first(), x, sep);
        assert(parts.push(x).drop_first() =~= parts.drop_first().push(x));
        assert(parts.push(x)[0] == parts[0]);
        if parts.len() == 1 {
            assert(parts.drop_first().len() == 0);
            assert(join_with(parts.push(x), sep) == parts[0] + sep + x);
        } else {
            assert(parts[0] + sep + (join_with(parts.drop_first(), sep) + sep + x) =~= (parts[0]
                + sep + join_with(parts.drop_first(), sep)) + sep + x);
        }
    }
}

/// Sorts the strings lexicographically by code point, as the insertion
/// sort `sort_codes` describes.
pub fn sort_strings(v: &Vec<String>) -> (r: Vec<String>)
    ensures
        r.deep_view() == sort_codes(v.deep_view()),
{
    let n: usize = v.len();
    let mut out: Vec<String> = Vec::new();
    proof {
        assert(v.deep_view().skip(0) =~= v.deep_view());
    }
    for i in 0..n
        invariant
            n == v@.len(),
            v.deep_view().len() == n,
            sort_codes(v.deep_view()) == sort_from(out.deep_view(), v.deep_view().skip(i as int)),
            sorted_strings(out.deep_view()),
    {
        let ghost tail = v.deep_view().skip(i as int);
        let x = v[i].clone();
        proof {
            assert(x@ == tail[0]);
            assert(tail.drop_first() =~= v.deep_view().skip(i + 1));
        }
        insert_string(&mut out, x);
    }
    proof {
        assert(v.deep_view().skip(n as int) =~= Seq::<Seq<char>>::empty());
    }
    out
}

/// The sequence is sorted under `lex_leq`.
pub open spec fn sorted_strings(s: Seq<Seq<char>>) -> bool {
    forall|i: int, j: int| 0 <= i < j < s.len() ==> lex_leq(s[i], s[j])
}

/// Inserting into a sorted sequence keeps it sorted and adds exactly the
/// new element.
proof fn lemma_insert_sorted_props(x: Seq<char>, s: Seq<Seq<char>>)
    requires
        sorted_strings(s),
    ensures
        sorted_strings(insert_sorted(x, s)),
        insert_sorted(x, s).to_multiset() == s.to_multiset().insert(x),
    decreases s.len(),
{
    broadcast use vstd::seq_lib::group_to_multiset_ensures;

    if s.len() == 0 {
        assert(insert_sorted(x, s) =~= Seq::<Seq<char>>::empty().push(x));
        assert(Seq::<Seq<char>>::empty().push(x).to_multiset() =~= s.to_multiset().insert(x));
    } else if lex_leq(x, s[0]) {
        let r = seq![x] + s;
        assert forall|i: int, j: int| 0 <= i < j < r.len() implies lex_leq(r[i], r[j]) by {
            if i == 0 {
                if j > 1 {
                    lemma_lex_trans_helper(x, s[0], s[j - 1]);
                }
            }
        }
        vstd::seq_lib::lemma_multiset_commutative(seq![x], s);
        assert(seq![x] =~= Seq::<Seq<char>>::empty().push(x));
        assert(seq![x].to_multiset().add(s.to_multiset()) =~= s.to_multiset().insert(x));
    } else {
        lemma_lex_connected(x, s[0]);
        assert forall|i: int, j: int|
            0 <= i < j < s.drop_first().len() implies lex_leq(
            s.drop_first()[i],
            s.drop_first()[j],
        ) by {
            assert(s.drop_first()[i] == s[i + 1]);
            assert(s.drop_first()[j] == s[j + 1]);
        }
        lemma_insert_sorted_props(x, s.drop_first());
        let r0 = insert_sorted(x, s.drop_first());
        let r = seq![s[0]] + r0;
        assert forall|i: int, j: int| 0 <= i < j < r.len() implies lex_leq(r[i], r[j]) by {
            if i == 0 {
                let e = r0[j - 1];
                assert(r0.contains(e));
                assert(r0.to_multiset().count(e) > 0);
                if e == x {
                    // the head stays below the inserted element
                } else {
                    assert(s.drop_first().to_multiset().count(e) > 0);
                    assert(s.drop_first().contains(e));
                    let k = choose|k: int|
                        0 <= k < s.drop_first().len() && s.drop_first()[k] == e;
                    assert(s[k + 1] == e);
                }
            }
        }
        vstd::seq_lib::lemma_multiset_commutative(seq![s[0]], r0);
        assert(seq![s[0]] =~= Seq::<Seq<char>>::empty().push(s[0]));
        assert(s =~= seq![s[0]] + s.drop_first());
        vstd::seq_lib::lemma_multiset_commutative(seq![s[0]], s.drop_first());
        assert(r.to_multiset() =~= s.to_multiset().insert(x));
    }
}

proof fn lemma_sort_from_props(acc: Seq<Seq<char>>, s: Seq<Seq<char>>)
    requires
        sorted_strings(acc),
    ensures
        sorted_strings(sort_from(acc, s)),
        sort_from(acc, s).to_multiset() == acc.to_multiset().add(s.to_multiset()),
    decreases s.len(),
{
    broadcast use vstd::seq_lib::group_to_multiset_ensures;

    if s.len() == 0 {
        assert(acc.to_multiset().add(s.to_multiset()) =~= acc.to_multiset());
    } else {
        lemma_insert_sorted_props(s[0], acc);
        lemma_sort_from_props(insert_sorted(s[0], acc), s.drop_first());
        assert(s =~= seq![s[0]] + s.drop_first());
        vstd::seq_lib::lemma_multiset_commutative(seq![s[0]], s.drop_first());
        assert(seq![s[0]] =~= Seq::<Seq<char>>::empty().push(s[0]));
        assert(acc.to_multiset().insert(s[0]).add(s.drop_first().to_multiset())
            =~= acc.to_multiset().add(s.to_multiset()));
    }
}

/// The code listing is sorted and is a permutation of what went in: the
/// sort yields exactly the available codes, in lexicographic order.
pub proof fn lemma_sort_codes_sorted(s: Seq<Seq<char>>)
    ensures
        sorted_strings(sort_codes(s)),
        sort_codes(s).to_multiset() == s.to_multiset(),
{
    broadcast use vstd::seq_lib::group_to_multiset_ensures;

    lemma_sort_from_props(Seq::<Seq<char>>::empty(), s);
    assert(Seq::<Seq<char>>::empty().to_multiset().add(s.to_multiset()) =~= s.to_multiset());
}

/// Inserts `x` in front of the first element not below it, keeping the
/// vector sorted.
pub fn insert_string(out: &mut Vec<String>, x: String)
    requires
        sorted_strings(old(out).deep_view()),
    ensures
        final(out).deep_view() == insert_sorted(x@, old(out).deep_view()),
        sorted_strings(final(out).deep_view()),
{
    let n: usize = out.len();
    let ghost orig = out.deep_view();
    let mut j: usize = 0;
    proof {
        assert(orig.skip(0) =~= orig);
        assert(orig.subrange(0, 0) + insert_sorted(x@, orig) =~= insert_sorted(x@, orig));
    }
    while j < n
        invariant
            j <= n,
            n == out@.len(),
            out.deep_view() == orig,
            sorted_strings(orig),
            forall|k: int| 0 <= k < j ==> !lex_leq(x@, orig[k]),
            insert_sorted(x@, orig) == orig.subrange(0, j as int) + insert_sorted(
                x@,
                orig.skip(j as int),
            ),
        ensures
            j <= n,
            j == n || lex_leq(x@, orig[j as int]),
        decreases n - j,
    {
        if str_lex_leq(x.as_str(), out[j].as_str()) {
            break ;
        }
        proof {
            let tail = orig.skip(j as int);
            assert(tail[0] == orig[j as int]);
            assert(tail.drop_first() =~= orig.skip(j + 1));
            assert(insert_sorted(x@, tail) == seq![tail[0]] + insert_sorted(
                x@,
                tail.drop_first(),
            ));
            assert(orig.subrange(0, j as int) + (seq![orig[j as int]] + insert_sorted(
                x@,
                orig.skip(j + 1),
            )) =~= orig.subrange(0, j + 1) + insert_sorted(x@, orig.skip(j + 1)));
        }
        j = j + 1;
    }
    proof {
        let tail = orig.skip(j as int);
        if j < n {
            assert(tail[0] == orig[j as int]);
            assert(insert_sorted(x@, tail) == seq![x@] + tail);
        } else {
            assert(tail =~= Seq::<Seq<char>>::empty());
            assert(insert_sorted(x@, tail) == seq![x@]);
        }
    }
    out.insert(j, x);
    proof {
        assert(out.deep_view() =~= orig.subrange(0, j as int) + (seq![x@] + orig.skip(j as int)));
        assert(orig.subrange(0, j as int) + (seq![x@] + orig.skip(j as int)) =~= insert_sorted(
            x@,
            orig,
        ));
        assert forall|p: int, q: int|
            0 <= p < q < out.deep_view().len() implies lex_leq(
            out.deep_view()[p],
            out.deep_view()[q],
        ) by {
            let d = out.deep_view();
            if p == j {
                // x sits below everything at and after j
                assert(q > j);
                if j < orig.len() {
                    if q == j + 1 {
                        assert(d[q] == orig[j as int]);
                    } else {
                        assert(d[q] == orig[q - 1]);
                        lemma_lex_trans_helper(x@, orig[j as int], orig[q - 1]);
                    }
                }
            } else if q == j {
                assert(d[p] == orig[p]);
                lemma_lex_connected(x@, orig[p]);
            } else {
                if p < j && q < j {
                    assert(d[p] == orig[p] && d[q] == orig[q]);
                } else if p < j && q > j {
                    assert(d[p] == orig[p] && d[q] == orig[q - 1]);
                    if q - 1 == p {
                        lemma_lex_refl_helper(orig[p]);
                    }
                } else {
                    assert(d[p] == orig[p - 1] && d[q] == orig[q - 1]);
                }
            }
        }
    }
}

pub proof fn lemma_lex_refl_helper(a: Seq<char>)
    ensures
        lex_leq(a, a),
    decreases a.len(),
{
    if a.len() > 0 {
        lemma_lex_refl_helper(a.drop_first());
    }
}

pub proof fn lemma_lex_trans_helper(a: Seq<char>, b: Seq<char>, c: Seq<char>)
    requires
        lex_leq(a, b),
        lex_leq(b, c),
    ensures
        lex_leq(a, c),
    decreases a.len(),
{
    if a.len() > 0 && b.len() > 0 && c.len() > 0 {
        if (a[0] as u32) == (b[0] as u32) && (b[0] as u32) == (c[0] as u32) {
            lemma_lex_trans_helper(a.drop_first(), b.drop_first(), c.drop_first());
        }
    }
}

/// Joins the strings with the separator.
pub fn join_strings(v: &Vec<String>, sep: &str) -> (r: String)
    ensures
        r@ == join_with(v.deep_view(), sep@),
{
    let n: usize = v.len();
    let mut out = String::new();
    for i in 0..n
        invariant
            n == v@.len(),
            v.deep_view().len() == n,
            out@ == join_with(v.deep_view().subrange(0, i as int), sep@),
    {
        if i > 0 {
            out.append(sep);
        }
        out.append(v[i].as_str());
        proof {
            let prefix = v.deep_view().subrange(0, i as int);
            assert(v.deep_view().subrange(0, i + 1) =~= prefix.push(v.deep_view()[i as int]));
            lemma_join_push(prefix, v.deep_view()[i as int], sep@);
        }
    }
    proof {
        assert(v.deep_view().subrange(0, n as int) =~= v.deep_view());
    }
    out
}

/// The White_Space characters, as std's char::is_whitespace counts them.
pub open spec fn is_space_char(c: char) -> bool {
    let u = c as u32;
    ||| u == 0x20
    ||| (0x09 <= u && u <= 0x0D)
    ||| u == 0x85
    ||| u == 0xA0
    ||| u == 0x1680
    ||| (0x2000 <= u && u <= 0x200A)
    ||| u == 0x2028
    ||| u == 0x2029
    ||| u == 0x202F
    ||| u == 0x205F
    ||| u == 0x3000
}

fn is_space(c: char) -> (r: bool)
    ensures
        r == is_space_char(c),
{
    let u: u32 = c as u32;
    u == 0x20 || (0x09 <= u && u <= 0x0D) || u == 0x85 || u == 0xA0 || u == 0x1680 || (0x2000 <= u
        && u <= 0x200A) || u == 0x2028 || u == 0x2029 || u == 0x202F || u == 0x205F || u == 0x3000
}

/// The sequence without its leading whitespace.
pub open spec fn trim_start_seq(s: Seq<char>) -> Seq<char>
    decreases s.len(),
{
    if s.len() == 0 {
        s
    } else if is_space_char(s[0]) {
        trim_start_seq(s.drop_first())
    } else {
        s
    }
}

/// The sequence without its trailing whitespace.
pub open spec fn trim_end_seq(s: Seq<char>) -> Seq<char>
    decreases s.len(),
{
    if s.len() == 0 {
        s
    } else if is_space_char(s.last()) {
        trim_end_seq(s.drop_last())
    } else {
        s
    }
}

/// The sequence without leading and trailing whitespace.
pub open spec fn trim_seq(s: Seq<char>) -> Seq<char> {
    trim_end_seq(trim_start_seq(s))
}

proof fn lemma_trim_start_at(s: Seq<char>, i: int)
    requires
        0 <= i <= s.len(),
        forall|k: int| 0 <= k < i ==> is_space_char(s[k]),
        i == s.len() || !is_space_char(s[i]),
    ensures
        trim_start_seq(s) == s.skip(i),
    decreases i,
{
    if i == 0 {
        assert(s.skip(0) =~= s);
    } else {
        assert(is_space_char(s[0]));
        lemma_trim_start_at(s.drop_first(), i - 1);
        assert(s.drop_first().skip(i - 1) =~= s.skip(i));
    }
}

proof fn lemma_trim_end_at(s: Seq<char>, j: int)
    requires
        0 <= j <= s.len(),
        forall|k: int| j <= k < s.len() ==> is_space_char(s[k]),
        j == 0 || !is_space_char(s[j - 1]),
    ensures
        trim_end_seq(s) == s.subrange(0, j),
    decreases s.len(),
{
    if j == s.len() {
        if s.len() == 0 {
            assert(s.subrange(0, 0) =~= s);
        } else {
            assert(s.subrange(0, s.len() as int) =~= s);
        }
    } else {
        assert(is_space_char(s.last()));
        lemma_trim_end_at(s.drop_last(), j);
        assert(s.drop_last().subrange(0, j) =~= s.subrange(0, j));
    }
}

/// The string without leading and trailing whitespace.
pub fn trim_str(s: &str) -> (r: String)
    ensures
        r@ == trim_seq(s@),
{
    let n: usize = s.unicode_len();
    let mut i: usize = 0;
    while i < n && is_space(s.get_char(i))
        invariant
            i <= n,
            n == s@.len(),
            forall|k: int| 0 <= k < i ==> is_space_char(s@[k]),
        decreases n - i,
    {
        i = i + 1;
    }
    let mut j: usize = n;
    while j > i && is_space(s.get_char(j - 1))
        invariant
            i <= j <= n,
            n == s@.len(),
            forall|k: int| j <= k < n ==> is_space_char(s@[k]),
        decreases j,
    {
        j = j - 1;
    }
    proof {
        lemma_trim_start_at(s@, i as int);
        let t = s@.skip(i as int);
        if j == i {
            lemma_trim_end_at(t, 0);
        } else {
            lemma_trim_end_at(t, j - i);
        }
        assert(t.subrange(0, j - i) =~= s@.subrange(i as int, j as int));
    }
    s.substring_char(i, j).to_owned()
}

/// An ASCII decimal digit.
pub open spec fn is_digit_char(c: char) -> bool {
    48 <= c as u32 && c as u32 <= 57
}

/// A non-empty run of ASCII digits.
pub open spec fn all_digits(s: Seq<char>) -> bool {
    s.len() > 0 && forall|i: int| 0 <= i < s.len() ==> is_digit_char(s[i])
}

/// The number the digit run denotes.
pub open spec fn digits_value(s: Seq<char>) -> int
    decreases s.len(),
{
    if s.len() == 0 {
        0
    } else {
        digits_value(s.drop_last()) * 10 + (s.last() as u32 - 48)
    }
}

/// The digits of an optionally signed integer literal.
pub open spec fn int_body(s: Seq<char>) -> Seq<char> {
    if s.len() > 0 && (s[0] == '+' || s[0] == '-') {
        s.subrange(1, s.len() as int)
    } else {
        s
    }
}

/// The literal carries a minus sign.
pub open spec fn int_negative(s: Seq<char>) -> bool {
    s.len() > 0 && s[0] == '-'
}

/// What parsing the string as a signed 64-bit decimal integer yields:
/// `None` unless it is an optional sign followed only by digits whose
/// value fits.
pub open spec fn spec_parse_i64(s: Seq<char>) -> Option<i64> {
    if all_digits(int_body(s)) {
        let v = if int_negative(s) {
            -digits_value(int_body(s))
        } else {
            digits_value(int_body(s))
        };
        if i64::MIN <= v <= i64::MAX {
            Some(v as i64)
        } else {
            None
        }
    } else {
        None
    }
}

proof fn lemma_digits_value_nonneg(s: Seq<char>)
    requires
        forall|i: int| 0 <= i < s.len() ==> is_digit_char(s[i]),
    ensures
        digits_value(s) >= 0,
    decreases s.len(),
{
    if s.len() > 0 {
        lemma_digits_value_nonneg(s.drop_last());
    }
}

proof fn lemma_digits_value_extend(s: Seq<char>, k: int)
    requires
        0 <= k <= s.len(),
        forall|i: int| 0 <= i < s.len() ==> is_digit_char(s[i]),
    ensures
        digits_value(s) >= digits_value(s.subrange(0, k)),
    decreases s.len() - k,
{
    if k < s.len() {
        lemma_digits_value_extend(s, k + 1);
        assert(s.subrange(0, k + 1).drop_last() =~= s.subrange(0, k));
        assert(s.subrange(0, k + 1).last() == s[k]);
        lemma_digits_value_nonneg(s.subrange(0, k));
        assert(digits_value(s.subrange(0, k + 1)) >= digits_value(s.subrange(0, k)));
    } else {
        assert(s.subrange(0, s.len() as int) =~= s);
    }
}

/// Parses an optionally signed decimal 64-bit integer, as std does for
/// `i64`: `None` on an empty body, a stray character, or overflow.
pub fn parse_i64(s: &str) -> (r: Option<i64>)
    ensures
        r == spec_parse_i64(s@),
{
    let n: usize = s.unicode_len();
    if n == 0 {
        return None;
    }
    let c0 = s.get_char(0);
    let negative: bool = c0 == '-';
    let start: usize = if c0 == '+' || c0 == '-' {
        1
    } else {
        0
    };
    let ghost body = int_body(s@);
    proof {
        assert(body =~= s@.subrange(start as int, n as int));
    }
    if start == n {
        return None;
    }
    let limit: u64 = if negative {
        9223372036854775808u64
    } else {
        9223372036854775807u64
    };
    let mut mag: u64 = 0;
    let mut i: usize = start;
    while i < n
        invariant
            start <= i <= n,
            n == s@.len(),
            start < n,
            body == s@.subrange(start as int, n as int),
            body == int_body(s@),
            negative == int_negative(s@),
            (negative ==> limit == 9223372036854775808u64),
            (!negative ==> limit == 9223372036854775807u64),
            mag <= limit,
            mag == digits_value(body.subrange(0, i - start)),
            forall|k: int| 0 <= k < i - start ==> is_digit_char(body[k]),
        decreases n - i,
    {
        let u: u32 = s.get_char(i) as u32;
        proof {
            assert(body[i - start] == s@[i as int]);
        }
        if u < 48 || u > 57 {
            return None;
        }
        let d: u64 = (u - 48) as u64;
        let ghost prefix = body.subrange(0, i - start);
        proof {
            assert(body.subrange(0, i - start + 1).drop_last() =~= prefix);
            assert(body.subrange(0, i - start + 1).last() == body[i - start]);
        }
        if mag > (limit - d) / 10 {
            proof {
                assert(mag * 10 + d > limit) by (nonlinear_arith)
                    requires
                        mag > (limit - d) / 10,
                        d <= limit,
                ;
                if all_digits(body) {
                    lemma_digits_value_extend(body, i - start + 1);
                    lemma_digits_value_nonneg(prefix);
                    assert(digits_value(body) > limit);
                }
            }
            return None;
        }
        proof {
            assert(mag * 10 + d <= limit) by (nonlinear_arith)
                requires
                    mag <= (limit - d) / 10,
                    d <= limit,
            ;
        }
        mag = mag * 10 + d;
        i = i + 1;
    }
    proof {
        assert(body.subrange(0, n - start) =~= body);
        assert(all_digits(body));
    }
    if negative {
        if mag == 9223372036854775808u64 {
            Some(i64::MIN)
        } else {
            Some(-(mag as i64))
        }
    } else {
        Some(mag as i64)
    }
}

/// At most the first `n` characters of the string.
pub fn truncate_chars(s: &str, n: usize) -> (r: String)
    ensures
        r@ == if s@.len() <= n {
            s@
        } else {
            s@.subrange(0, n as int)
        },
{
    let len: usize = s.unicode_len();
    if len <= n {
        s.to_owned()
    } else {
        s.substring_char(0, n).to_owned()
    }
}

/// Textual parent directory: everything before the last `/`.
pub open spec fn spec_parent_dir(path: Seq<char>) -> Seq<char> {
    prefix_before_last(path, '/')
}

pub fn parent_dir(path: &str) -> (r: String)
    ensures
        r@ == spec_parent_dir(path@),
{
    match rfind_char(path, '/') {
        Some(k) => {
            proof {
                lemma_last_occurrence(path@, '/', k as int);
            }
            path.substring_char(0, k).to_owned()
        },
        None => {
            proof {
                lemma_no_occurrence(path@, '/');
            }
            String::new()
        },
    }
}

/// The file name of `path`: everything after the last `/`.
pub fn file_name(path: &str) -> (r: String)
    ensures
        r@ == suffix_after_last(path@, '/'),
{
    let n: usize = path.unicode_len();
    match rfind_char(path, '/') {
        Some(k) => {
            proof {
                lemma_last_occurrence(path@, '/', k as int);
            }
            path.substring_char(k + 1, n).to_owned()
        },
        None => {
            proof {
                lemma_no_occurrence(path@, '/');
            }
            path.to_owned()
        },
    }
}

/// The file name of `path` (after the last `/`) with its last extension
/// removed, as the class or object name derived from a source file.
pub open spec fn spec_file_stem(path: Seq<char>) -> Seq<char> {
    let name = suffix_after_last(path, '/');
    if exists|i: int| 1 <= i < name.len() && name[i] == '.' {
        prefix_before_last(name, '.')
    } else {
        name
    }
}

pub fn file_stem(path: &str) -> (r: String)
    ensures
        r@ == spec_file_stem(path@),
{
    let n: usize = path.unicode_len();
    let name: String = match rfind_char(path, '/') {
        Some(k) => {
            proof {
                lemma_last_occurrence(path@, '/', k as int);
            }
            path.substring_char(k + 1, n).to_owned()
        },
        None => {
            proof {
                lemma_no_occurrence(path@, '/');
            }
            path.to_owned()
        },
    };
    match rfind_char(name.as_str(), '.') {
        Some(j) => {
            if j >= 1 {
                proof {
                    assert(1 <= j < name@.len() && name@[j as int] == '.');
                    lemma_last_occurrence(name@, '.', j as int);
                }
                name.as_str().substring_char(0, j).to_owned()
            } else {
                proof {
                    assert forall|i: int| 1 <= i < name@.len() implies name@[i] != '.' by {}
                }
                name
            }
        },
        None => name,
    }
}

} // verus!
