//! Snippet and output scrubbing: invisible Unicode controls are stripped
//! from incoming code, and program output is rewritten so that it cannot
//! close the caller's code fences or trigger broadcast mentions.

use vstd::prelude::*;

use crate::strutil::contains_seq;
use crate::strutil::matches_at;
use crate::strutil::replace_all;
use crate::strutil::replace_all_str;

verus! {

/// Zero-width and directional control characters (U+200B through U+200F).
pub open spec fn is_invisible(c: char) -> bool {
    0x200B <= c as u32 && c as u32 <= 0x200F
}

/// The code with every invisible control character removed.
pub open spec fn strip_invisible(s: Seq<char>) -> Seq<char> {
    s.filter(|c: char| !is_invisible(c))
}

/// Removes zero-width and directional control characters from a snippet
/// before it is handed to the per-language preprocessing step.
pub fn pre_process_code(code: String) -> (r: String)
    ensures
        r@ == strip_invisible(code@),
{
    let n: usize = code.as_str().unicode_len();
    let mut out = String::new();
    for i in 0..n
        invariant
            n == code@.len(),
            out@ == strip_invisible(code@.subrange(0, i as int)),
    {
        let c = code.as_str().get_char(i);
        let u: u32 = c as u32;
        if u < 0x200B || u > 0x200F {
            out.push(c);
        }
        proof {
            reveal(Seq::filter);
            let prefix = code@.subrange(0, i as int);
            let d = code@[i as int];
            assert(code@.subrange(0, i + 1) =~= prefix.push(d));
            assert(prefix.push(d).drop_last() =~= prefix);
            assert(prefix.push(d).last() == d);
            if !is_invisible(d) {
                assert(strip_invisible(prefix.push(d)) =~= strip_invisible(prefix).push(d));
            } else {
                assert(strip_invisible(prefix.push(d)) =~= strip_invisible(prefix));
            }
        }
    }
    proof {
        assert(code@.subrange(0, n as int) =~= code@);
    }
    out
}

/// Output after the three rewrites: code fences removed, broadcast
/// mention tokens broken with a space.
pub open spec fn sanitize_output(s: Seq<char>) -> Seq<char> {
    replace_all(
        replace_all(replace_all(s, "```"@, ""@), "@everyone"@, "@ everyone"@),
        "@here"@,
        "@ here"@,
    )
}

/// Rewrites captured output so that it cannot terminate the caller's
/// code-fence formatting nor trigger mass mentions.
pub fn pre_process_output(output: String) -> (r: String)
    ensures
        r@ == sanitize_output(output@),
{
    let fences = replace_all_str(output.as_str(), "```", "");
    let no_everyone = replace_all_str(fences.as_str(), "@everyone", "@ everyone");
    replace_all_str(no_everyone.as_str(), "@here", "@ here")
}

/// Truncates captured output to fit a bounded reply field and wraps it in
/// a code fence; the flag says whether anything was cut.
pub fn format_code_output(text: String, max_length: usize) -> (r: (bool, String))
    requires
        max_length >= 7,
    ensures
        r.0 == (text@.len() > max_length - 7),
        r.1@ == "```\n"@ + (if text@.len() > max_length - 7 {
            text@.subrange(0, (max_length - 7) as int)
        } else {
            text@
        }) + "```"@,
{
    let limit: usize = max_length - 7;
    let n: usize = text.as_str().unicode_len();
    let (truncated, kept) = if n > limit {
        (true, crate::strutil::truncate_chars(text.as_str(), limit))
    } else {
        (false, text)
    };
    (truncated, crate::strutil::concat3("```\n", kept.as_str(), "```"))
}

proof fn lemma_free_subrange(s: Seq<char>, q: Seq<char>, a: int, b: int)
    requires
        !contains_seq(s, q),
        0 <= a <= b <= s.len(),
    ensures
        !contains_seq(s.subrange(a, b), q),
{
    let sub = s.subrange(a, b);
    assert forall|p: int| !matches_at(sub, q, p) by {
        if matches_at(sub, q, p) {
            assert(s.subrange(a + p, a + p + q.len()) =~= sub.subrange(p, p + q.len()));
            assert(matches_at(s, q, a + p));
        }
    }
}

/// The output of a replacement starts with `u` only when the input does,
/// provided no character of `u` can open the replacement text.
proof fn lemma_prefix_reflect(t: Seq<char>, pat: Seq<char>, repl: Seq<char>, u: Seq<char>)
    requires
        pat.len() >= 1,
        repl.len() >= 1,
        forall|m: int| 0 <= m < u.len() ==> u[m] != repl[0],
        matches_at(replace_all(t, pat, repl), u, 0),
    ensures
        matches_at(t, u, 0),
    decreases t.len(),
{
    let out = replace_all(t, pat, repl);
    if u.len() == 0 {
        assert(t.subrange(0, 0) =~= u);
    } else if t.len() < pat.len() {
        // nothing was replaced
    } else if t.subrange(0, pat.len() as int) == pat {
        assert(out.subrange(0, u.len() as int)[0] == u[0]);
        assert(out[0] == repl[0]);
        assert(false);
    } else {
        let tail = t.subrange(1, t.len() as int);
        let rest = replace_all(tail, pat, repl);
        assert(out =~= seq![t[0]] + rest);
        assert(out.subrange(0, u.len() as int)[0] == u[0]);
        if u.len() > 1 {
            let u1 = u.subrange(1, u.len() as int);
            assert(rest.subrange(0, u1.len() as int) =~= out.subrange(1, u.len() as int));
            assert(out.subrange(1, u.len() as int) =~= u.subrange(1, u.len() as int)) by {
                assert forall|x: int| 0 <= x < u.len() - 1 implies out.subrange(
                    1,
                    u.len() as int,
                )[x] == u.subrange(1, u.len() as int)[x] by {
                    assert(out.subrange(0, u.len() as int)[x + 1] == u[x + 1]);
                }
            }
            assert(matches_at(rest, u1, 0));
            lemma_prefix_reflect(tail, pat, repl, u1);
            assert(t.subrange(0, u.len() as int) =~= u) by {
                assert(tail.subrange(0, u1.len() as int) =~= u1);
                assert forall|x: int| 0 <= x < u.len() implies t.subrange(0, u.len() as int)[x]
                    == u[x] by {
                    if x > 0 {
                        assert(tail.subrange(0, u1.len() as int)[x - 1] == u1[x - 1]);
                    }
                }
            }
        } else {
            assert(t.subrange(0, 1) =~= u);
        }
    }
}

/// For a pattern made of one repeated character and an empty replacement:
/// the output starts with `m` copies of that character only when the
/// input does.
proof fn lemma_uniform_prefix_reflect(t: Seq<char>, pat: Seq<char>, m: int)
    requires
        pat.len() >= 1,
        forall|k: int| 0 <= k < pat.len() ==> #[trigger] pat[k] == pat[0],
        0 <= m <= pat.len(),
        m <= replace_all(t, pat, Seq::<char>::empty()).len(),
        forall|x: int|
            0 <= x < m ==> replace_all(t, pat, Seq::<char>::empty())[x] == pat[0],
    ensures
        m <= t.len(),
        forall|x: int| 0 <= x < m ==> t[x] == pat[0],
    decreases t.len(),
{
    let out = replace_all(t, pat, Seq::<char>::empty());
    if m == 0 {
    } else if t.len() < pat.len() {
        // nothing was replaced
    } else if t.subrange(0, pat.len() as int) == pat {
        assert forall|x: int| 0 <= x < m implies t[x] == pat[0] by {
            assert(t.subrange(0, pat.len() as int)[x] == pat[x]);
        }
    } else {
        let tail = t.subrange(1, t.len() as int);
        let rest = replace_all(tail, pat, Seq::<char>::empty());
        assert(out =~= seq![t[0]] + rest);
        assert forall|x: int| 0 <= x < m - 1 implies rest[x] == pat[0] by {
            assert(out[x + 1] == rest[x]);
        }
        lemma_uniform_prefix_reflect(tail, pat, m - 1);
        assert(out[0] == t[0]);
        assert forall|x: int| 0 <= x < m implies t[x] == pat[0] by {
            if x > 0 {
                assert(tail[x - 1] == pat[0]);
            }
        }
    }
}

/// Removing every run of a repeated-character pattern leaves no
/// occurrence of the pattern behind.
proof fn lemma_replace_uniform_free(s: Seq<char>, q: Seq<char>)
    requires
        q.len() >= 1,
        forall|k: int| 0 <= k < q.len() ==> #[trigger] q[k] == q[0],
    ensures
        !contains_seq(replace_all(s, q, Seq::<char>::empty()), q),
    decreases s.len(),
{
    let out = replace_all(s, q, Seq::<char>::empty());
    if s.len() < q.len() {
        assert forall|p: int| !matches_at(out, q, p) by {}
    } else if s.subrange(0, q.len() as int) == q {
        let rest = replace_all(s.subrange(q.len() as int, s.len() as int), q, Seq::<
            char,
        >::empty());
        lemma_replace_uniform_free(s.subrange(q.len() as int, s.len() as int), q);
        assert(out =~= rest);
        assert forall|p: int| !matches_at(out, q, p) by {
            if matches_at(out, q, p) {
                assert(matches_at(rest, q, p));
            }
        }
    } else {
        let tail = s.subrange(1, s.len() as int);
        let rest = replace_all(tail, q, Seq::<char>::empty());
        lemma_replace_uniform_free(tail, q);
        assert(out =~= seq![s[0]] + rest);
        assert forall|p: int| !matches_at(out, q, p) by {
            if matches_at(out, q, p) {
                if p == 0 {
                    assert forall|x: int| 0 <= x < q.len() implies out[x] == q[0] by {
                        assert(out.subrange(0, q.len() as int)[x] == q[x]);
                    }
                    assert forall|x: int| 0 <= x < q.len() - 1 implies rest[x] == q[0] by {
                        assert(out[x + 1] == rest[x]);
                    }
                    lemma_uniform_prefix_reflect(tail, q, q.len() - 1);
                    assert(s.subrange(0, q.len() as int) =~= q) by {
                        assert forall|x: int| 0 <= x < q.len() implies s.subrange(
                            0,
                            q.len() as int,
                        )[x] == q[x] by {
                            if x > 0 {
                                assert(tail[x - 1] == q[0]);
                            }
                        }
                    }
                    assert(false);
                } else {
                    assert(rest.subrange(p - 1, p - 1 + q.len()) =~= out.subrange(
                        p,
                        p + q.len(),
                    ));
                    assert(matches_at(rest, q, p - 1));
                    assert(false);
                }
            }
        }
    }
}

/// Rewriting every occurrence of `q` through `repl` leaves no occurrence
/// of `q` behind, provided `repl` cannot take part in a new one: no later
/// character of `q` equals `repl`'s first character, and wherever `repl`
/// contains `q`'s first character it is followed by a mismatch.
proof fn lemma_replace_self_free(s: Seq<char>, q: Seq<char>, repl: Seq<char>)
    requires
        q.len() >= 2,
        repl.len() >= 1,
        forall|k: int| 1 <= k < q.len() ==> q[k] != repl[0],
        forall|j: int|
            0 <= j < repl.len() && #[trigger] repl[j] == q[0] ==> j + 1 < repl.len() && repl[j
                + 1] != q[1],
    ensures
        !contains_seq(replace_all(s, q, repl), q),
    decreases s.len(),
{
    let out = replace_all(s, q, repl);
    if s.len() < q.len() {
        assert forall|p: int| !matches_at(out, q, p) by {}
    } else if s.subrange(0, q.len() as int) == q {
        let rest = replace_all(s.subrange(q.len() as int, s.len() as int), q, repl);
        lemma_replace_self_free(s.subrange(q.len() as int, s.len() as int), q, repl);
        assert(out =~= repl + rest);
        let lr = repl.len() as int;
        assert forall|p: int| !matches_at(out, q, p) by {
            if matches_at(out, q, p) {
                assert(out.subrange(p, p + q.len())[0] == q[0]);
                assert(out.subrange(p, p + q.len())[1] == q[1]);
                if p < lr {
                    assert(out[p] == repl[p]);
                    assert(p + 1 < lr && repl[p + 1] != q[1]);
                    assert(out[p + 1] == repl[p + 1]);
                    assert(false);
                } else {
                    assert(rest.subrange(p - lr, p - lr + q.len()) =~= out.subrange(
                        p,
                        p + q.len(),
                    ));
                    assert(matches_at(rest, q, p - lr));
                    assert(false);
                }
            }
        }
    } else {
        let tail = s.subrange(1, s.len() as int);
        let rest = replace_all(tail, q, repl);
        lemma_replace_self_free(tail, q, repl);
        assert(out =~= seq![s[0]] + rest);
        assert forall|p: int| !matches_at(out, q, p) by {
            if matches_at(out, q, p) {
                if p == 0 {
                    let u1 = q.subrange(1, q.len() as int);
                    assert(out.subrange(0, q.len() as int)[0] == q[0]);
                    assert(rest.subrange(0, u1.len() as int) =~= out.subrange(
                        1,
                        q.len() as int,
                    ));
                    assert(out.subrange(1, q.len() as int) =~= u1) by {
                        assert forall|x: int| 0 <= x < q.len() - 1 implies out.subrange(
                            1,
                            q.len() as int,
                        )[x] == u1[x] by {
                            assert(out.subrange(0, q.len() as int)[x + 1] == q[x + 1]);
                        }
                    }
                    assert(matches_at(rest, u1, 0));
                    lemma_prefix_reflect(tail, q, repl, u1);
                    assert(s.subrange(0, q.len() as int) =~= q) by {
                        assert(tail.subrange(0, u1.len() as int) =~= u1);
                        assert forall|x: int| 0 <= x < q.len() implies s.subrange(
                            0,
                            q.len() as int,
                        )[x] == q[x] by {
                            if x > 0 {
                                assert(tail.subrange(0, u1.len() as int)[x - 1] == u1[x - 1]);
                            }
                        }
                    }
                    assert(false);
                } else {
                    assert(rest.subrange(p - 1, p - 1 + q.len()) =~= out.subrange(
                        p,
                        p + q.len(),
                    ));
                    assert(matches_at(rest, q, p - 1));
                    assert(false);
                }
            }
        }
    }
}

/// A replacement of some other pattern cannot introduce an occurrence of
/// `q` into a `q`-free string, under the same conditions on `repl`.
proof fn lemma_replace_keeps_free(s: Seq<char>, pat: Seq<char>, repl: Seq<char>, q: Seq<char>)
    requires
        pat.len() >= 1,
        q.len() >= 2,
        repl.len() >= 1,
        !contains_seq(s, q),
        forall|k: int| 1 <= k < q.len() ==> q[k] != repl[0],
        forall|j: int|
            0 <= j < repl.len() && #[trigger] repl[j] == q[0] ==> j + 1 < repl.len() && repl[j
                + 1] != q[1],
    ensures
        !contains_seq(replace_all(s, pat, repl), q),
    decreases s.len(),
{
    let out = replace_all(s, pat, repl);
    if s.len() < pat.len() {
        // nothing was replaced and `s` is q-free
    } else if s.subrange(0, pat.len() as int) == pat {
        let rest = replace_all(s.subrange(pat.len() as int, s.len() as int), pat, repl);
        lemma_free_subrange(s, q, pat.len() as int, s.len() as int);
        lemma_replace_keeps_free(s.subrange(pat.len() as int, s.len() as int), pat, repl, q);
        assert(out =~= repl + rest);
        let lr = repl.len() as int;
        assert forall|p: int| !matches_at(out, q, p) by {
            if matches_at(out, q, p) {
                assert(out.subrange(p, p + q.len())[0] == q[0]);
                assert(out.subrange(p, p + q.len())[1] == q[1]);
                if p < lr {
                    assert(out[p] == repl[p]);
                    assert(p + 1 < lr && repl[p + 1] != q[1]);
                    assert(out[p + 1] == repl[p + 1]);
                    assert(false);
                } else {
                    assert(rest.subrange(p - lr, p - lr + q.len()) =~= out.subrange(
                        p,
                        p + q.len(),
                    ));
                    assert(matches_at(rest, q, p - lr));
                    assert(false);
                }
            }
        }
    } else {
        let tail = s.subrange(1, s.len() as int);
        let rest = replace_all(tail, pat, repl);
        lemma_free_subrange(s, q, 1, s.len() as int);
        lemma_replace_keeps_free(tail, pat, repl, q);
        assert(out =~= seq![s[0]] + rest);
        assert forall|p: int| !matches_at(out, q, p) by {
            if matches_at(out, q, p) {
                if p == 0 {
                    let u1 = q.subrange(1, q.len() as int);
                    assert(out.subrange(0, q.len() as int)[0] == q[0]);
                    assert(rest.subrange(0, u1.len() as int) =~= out.subrange(
                        1,
                        q.len() as int,
                    ));
                    assert(out.subrange(1, q.len() as int) =~= u1) by {
                        assert forall|x: int| 0 <= x < q.len() - 1 implies out.subrange(
                            1,
                            q.len() as int,
                        )[x] == u1[x] by {
                            assert(out.subrange(0, q.len() as int)[x + 1] == q[x + 1]);
                        }
                    }
                    assert(matches_at(rest, u1, 0));
                    lemma_prefix_reflect(tail, pat, repl, u1);
                    assert(s.subrange(0, q.len() as int) =~= q) by {
                        assert(tail.subrange(0, u1.len() as int) =~= u1);
                        assert forall|x: int| 0 <= x < q.len() implies s.subrange(
                            0,
                            q.len() as int,
                        )[x] == q[x] by {
                            if x > 0 {
                                assert(tail.subrange(0, u1.len() as int)[x - 1] == u1[x - 1]);
                            }
                        }
                    }
                    assert(matches_at(s, q, 0));
                    assert(false);
                } else {
                    assert(rest.subrange(p - 1, p - 1 + q.len()) =~= out.subrange(
                        p,
                        p + q.len(),
                    ));
                    assert(matches_at(rest, q, p - 1));
                    assert(false);
                }
            }
        }
    }
}

/// Sanitized output can neither terminate the caller's code fences nor
/// trigger a broadcast mention: after the rewrites it contains no code
/// fence and no mention token.
pub proof fn lemma_sanitize_output_safe(s: Seq<char>)
    ensures
        !contains_seq(sanitize_output(s), "```"@),
        !contains_seq(sanitize_output(s), "@everyone"@),
        !contains_seq(sanitize_output(s), "@here"@),
{
    reveal_strlit("```");
    reveal_strlit("");
    reveal_strlit("@everyone");
    reveal_strlit("@ everyone");
    reveal_strlit("@here");
    reveal_strlit("@ here");
    let s1 = replace_all(s, "```"@, ""@);
    assert(""@ =~= Seq::<char>::empty());
    lemma_replace_uniform_free(s, "```"@);
    let s2 = replace_all(s1, "@everyone"@, "@ everyone"@);
    lemma_replace_keeps_free(s1, "@everyone"@, "@ everyone"@, "```"@);
    lemma_replace_self_free(s1, "@everyone"@, "@ everyone"@);
    let s3 = replace_all(s2, "@here"@, "@ here"@);
    lemma_replace_keeps_free(s2, "@here"@, "@ here"@, "```"@);
    lemma_replace_keeps_free(s2, "@here"@, "@ here"@, "@everyone"@);
    lemma_replace_self_free(s2, "@here"@, "@ here"@);
}

} // verus!
