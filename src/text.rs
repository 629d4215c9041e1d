//! Character-level helpers on strings: splitting on dots and removing a prefix.
use vstd::prelude::*;

verus! {

/// The pieces of `s` between dots, in order; a string with `n` dots has `n + 1` pieces.
pub open spec fn segments(s: Seq<char>) -> Seq<Seq<char>>
    decreases s.len(),
{
    if s.len() == 0 {
        seq![Seq::empty()]
    } else {
        let rest = segments(s.drop_last());
        if s.last() == '.' {
            rest.push(Seq::empty())
        } else {
            rest.update(rest.len() - 1, rest.last().push(s.last()))
        }
    }
}

/// `s` holds no dot.
pub open spec fn no_dot(s: Seq<char>) -> bool {
    forall|i: int| 0 <= i < s.len() ==> s[i] != '.'
}

/// `a`, a dot, then `b`.
pub open spec fn dot_join(a: Seq<char>, b: Seq<char>) -> Seq<char> {
    a + seq!['.'] + b
}

pub proof fn lemma_segments_nonempty(s: Seq<char>)
    ensures
        segments(s).len() >= 1,
    decreases s.len(),
{
    if s.len() > 0 {
        lemma_segments_nonempty(s.drop_last());
    }
}

/// Appending a piece with no dot after a dot adds exactly that piece.
pub proof fn lemma_segments_dot_join(a: Seq<char>, b: Seq<char>)
    requires
        no_dot(b),
    ensures
        segments(dot_join(a, b)) == segments(a).push(b),
    decreases b.len(),
{
    let s = dot_join(a, b);
    if b.len() == 0 {
        assert(s.drop_last() =~= a);
        assert(b =~= Seq::<char>::empty());
    } else {
        let b0 = b.drop_last();
        assert(s.drop_last() =~= dot_join(a, b0));
        lemma_segments_dot_join(a, b0);
        assert(b0.push(b.last()) =~= b);
        assert(s.last() == b.last());
        assert(b[b.len() - 1] != '.');
        let n = segments(a).len();
        assert(segments(a).push(b0).update(n as int, b0.push(b.last())) =~= segments(a).push(b));
    }
}

/// Appending any text after a dot appends its segments.
pub proof fn lemma_segments_concat(a: Seq<char>, b: Seq<char>)
    ensures
        segments(dot_join(a, b)) == segments(a) + segments(b),
    decreases b.len(),
{
    let s = dot_join(a, b);
    if b.len() == 0 {
        assert(s.drop_last() =~= a);
        assert(b =~= Seq::<char>::empty());
        assert(segments(a).push(Seq::<char>::empty()) =~= segments(a) + seq![Seq::<char>::empty()]);
    } else {
        let b0 = b.drop_last();
        assert(s.drop_last() =~= dot_join(a, b0));
        lemma_segments_concat(a, b0);
        lemma_segments_nonempty(b0);
        assert(s.last() == b.last());
        if b.last() == '.' {
            assert(segments(a) + segments(b0).push(Seq::<char>::empty()) =~= (segments(a)
                + segments(b0)).push(Seq::<char>::empty()));
        } else {
            let sb0 = segments(b0);
            let n = sb0.len();
            assert((segments(a) + sb0).update(
                segments(a).len() + n - 1,
                (segments(a) + sb0).last().push(b.last()),
            ) =~= segments(a) + sb0.update(n - 1, sb0.last().push(b.last())));
        }
    }
}

/// Text holding a dot splits into at least two segments.
pub proof fn lemma_segments_with_dot(s: Seq<char>)
    requires
        !no_dot(s),
    ensures
        segments(s).len() >= 2,
    decreases s.len(),
{
    let s0 = s.drop_last();
    lemma_segments_nonempty(s0);
    if s.last() != '.' {
        assert(!no_dot(s0)) by {
            let k = choose|k: int| 0 <= k < s.len() && s[k] == '.';
            assert(k != s.len() - 1);
            assert(s0[k] == '.');
        }
        lemma_segments_with_dot(s0);
    }
}

/// A piece with no dot is its own single segment.
pub proof fn lemma_segments_no_dot(b: Seq<char>)
    requires
        no_dot(b),
    ensures
        segments(b) == seq![b],
    decreases b.len(),
{
    if b.len() > 0 {
        let b0 = b.drop_last();
        lemma_segments_no_dot(b0);
        assert(b0.push(b.last()) =~= b);
        assert(b[b.len() - 1] != '.');
        assert(seq![b0].update(0, b0.push(b.last())) =~= seq![b]);
    } else {
        assert(b =~= Seq::<char>::empty());
    }
}

/// Three dot-free pieces joined by dots split back into those three pieces.
pub proof fn lemma_segments_three(h: Seq<char>, p: Seq<char>, s: Seq<char>)
    requires
        no_dot(h),
        no_dot(p),
        no_dot(s),
    ensures
        segments(dot_join(dot_join(h, p), s)) == seq![h, p, s],
{
    lemma_segments_no_dot(h);
    lemma_segments_dot_join(h, p);
    lemma_segments_dot_join(dot_join(h, p), s);
    assert(seq![h].push(p).push(s) =~= seq![h, p, s]);
}

/// Relies on String::push: the character is added at the end.
#[verifier::external_body]
pub(crate) fn push_char(s: &mut String, c: char)
    ensures
        final(s)@ == old(s)@.push(c),
{
    s.push(c)
}

/// Relies on String::push_str: the text is added at the end.
#[verifier::external_body]
pub(crate) fn push_str(s: &mut String, t: &str)
    ensures
        final(s)@ == old(s)@ + t@,
{
    s.push_str(t)
}

/// Splits `s` at every dot.
pub fn split_dots(s: &str) -> (r: Vec<String>)
    ensures
        r@.len() == segments(s@).len(),
        forall|i: int| 0 <= i < r@.len() ==> #[trigger] r@[i]@ == segments(s@)[i],
{
    let mut done: Vec<String> = Vec::new();
    let mut cur = String::new();
    let ghost mut seen: Seq<char> = Seq::empty();
    for c in it: s.chars()
        invariant
            it.seq() == s@,
            seen == it.seq().take(it.index()),
            done@.len() + 1 == segments(seen).len(),
            forall|i: int|
                0 <= i < done@.len() ==> #[trigger] done@[i]@ == segments(
                    it.seq().take(it.index()),
                )[i],
            cur@ == segments(seen).last(),
    {
        proof {
            assert(it.seq().take(it.index() + 1) =~= seen.push(c));
            assert(seen.push(c).drop_last() =~= seen);
            lemma_segments_nonempty(seen);
        }
        if c == '.' {
            done.push(cur);
            cur = String::new();
        } else {
            push_char(&mut cur, c);
        }
        proof {
            seen = seen.push(c);
        }
    }
    proof {
        assert(seen =~= s@);
    }
    done.push(cur);
    done
}

/// `s` begins with `prefix`.
pub open spec fn has_prefix(s: Seq<char>, prefix: Seq<char>) -> bool {
    prefix.len() <= s.len() && s.take(prefix.len() as int) == prefix
}

/// What follows `prefix` in `s`, if `s` begins with it.
pub fn strip_prefix_chars(s: &str, prefix: &[char]) -> (r: Option<String>)
    ensures
        r is Some <==> has_prefix(s@, prefix@),
        r is Some ==> r->Some_0@ == s@.skip(prefix@.len() as int),
{
    let n = prefix.len();
    let mut rest = String::new();
    let mut matched = true;
    let mut k: usize = 0;
    let ghost mut seen: Seq<char> = Seq::empty();
    for c in it: s.chars()
        invariant
            it.seq() == s@,
            seen == it.seq().take(it.index()),
            n == prefix@.len(),
            k <= n,
            k < n ==> k == seen.len(),
            k < n ==> rest@.len() == 0,
            k == n ==> n <= seen.len(),
            matched <==> (forall|j: int| 0 <= j < k ==> seen[j] == prefix@[j]),
            k == n ==> rest@ == seen.skip(n as int),
    {
        proof {
            assert(it.seq().take(it.index() + 1) =~= seen.push(c));
        }
        if k < n {
            if c != prefix[k] {
                matched = false;
            }
            proof {
                assert(seen.push(c)[k as int] == c);
                assert(seen.push(c).skip(k + 1) =~= Seq::<char>::empty());
                assert(matched <==> (forall|j: int| 0 <= j < k + 1 ==> seen.push(c)[j] == prefix@[j])) by {
                    assert forall|j: int| 0 <= j < k implies seen.push(c)[j] == seen[j] by {}
                }
            }
            k = k + 1;
        } else {
            push_char(&mut rest, c);
            proof {
                assert(seen.push(c).skip(n as int) =~= seen.skip(n as int).push(c));
            }
        }
        proof {
            seen = seen.push(c);
        }
    }
    proof {
        assert(seen =~= s@);
    }
    if matched && k == n {
        proof {
            assert(s@.take(n as int) =~= prefix@);
        }
        Some(rest)
    } else {
        proof {
            if n <= s@.len() && s@.take(n as int) == prefix@ {
                assert forall|j: int| 0 <= j < k implies seen[j] == prefix@[j] by {
                    assert(s@.take(n as int)[j] == s@[j]);
                }
            }
        }
        None
    }
}

} // verus!
