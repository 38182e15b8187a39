//! Splitting text at a separator character, as `str::split` does.

use vstd::prelude::*;

verus! {

/// The pieces of `s` between occurrences of `c`; there is always at least
/// one piece, and an empty text gives one empty piece.
pub open spec fn split_on(s: Seq<char>, c: char) -> Seq<Seq<char>>
    decreases s.len(),
{
    if s.len() == 0 {
        seq![Seq::<char>::empty()]
    } else {
        let r = split_on(s.drop_last(), c);
        if s.last() == c {
            r.push(Seq::<char>::empty())
        } else {
            r.update(r.len() - 1, r.last().push(s.last()))
        }
    }
}

pub proof fn lemma_split_nonempty(s: Seq<char>, c: char)
    ensures
        split_on(s, c).len() >= 1,
    decreases s.len(),
{
    if s.len() > 0 {
        lemma_split_nonempty(s.drop_last(), c);
    }
}

/// A text without the separator is a single piece.
pub proof fn lemma_split_no_sep(s: Seq<char>, c: char)
    requires
        forall|i: int| 0 <= i < s.len() ==> s[i] != c,
    ensures
        split_on(s, c) == seq![s],
    decreases s.len(),
{
    if s.len() == 0 {
        assert(s =~= Seq::<char>::empty());
    } else {
        lemma_split_no_sep(s.drop_last(), c);
        assert(s[s.len() - 1] != c);
        assert(s.drop_last().push(s.last()) =~= s);
        assert(seq![s.drop_last()].update(0, s.drop_last().push(s.last())) =~= seq![s]);
    }
}

/// Splitting `a`, the separator, then `b` gives the pieces of `a` followed
/// by the pieces of `b`.
pub proof fn lemma_split_join(a: Seq<char>, b: Seq<char>, c: char)
    ensures
        split_on(a + seq![c] + b, c) == split_on(a, c) + split_on(b, c),
    decreases b.len(),
{
    let s = a + seq![c] + b;
    if b.len() == 0 {
        assert(s.drop_last() =~= a);
        assert(split_on(a, c).push(Seq::<char>::empty()) =~= split_on(a, c) + split_on(b, c));
    } else {
        let bp = b.drop_last();
        assert(s.drop_last() =~= a + seq![c] + bp);
        lemma_split_join(a, bp, c);
        lemma_split_nonempty(bp, c);
        let r = split_on(s.drop_last(), c);
        let q = split_on(bp, c);
        assert(r == split_on(a, c) + q);
        assert(s.last() == b.last());
        if b.last() == c {
            assert(r.push(Seq::<char>::empty()) =~= split_on(a, c) + q.push(Seq::<char>::empty()));
        } else {
            assert(r.last() == q.last());
            assert(r.update(r.len() - 1, r.last().push(s.last()))
                =~= split_on(a, c) + q.update(q.len() - 1, q.last().push(b.last())));
        }
    }
}

/// Splits a run of characters at each occurrence of `c`.
pub fn split_chars(cs: &Vec<char>, c: char) -> (parts: Vec<Vec<char>>)
    ensures
        parts@.len() == split_on(cs@, c).len(),
        forall|i: int| 0 <= i < parts@.len() ==> #[trigger] parts@[i]@ == split_on(cs@, c)[i],
{
    let mut done: Vec<Vec<char>> = Vec::new();
    let mut cur: Vec<char> = Vec::new();
    let n = cs.len();
    let mut i: usize = 0;
    while i < n
        invariant
            n == cs@.len(),
            i <= n,
            done@.len() + 1 == split_on(cs@.subrange(0, i as int), c).len(),
            forall|k: int| 0 <= k < done@.len() ==> #[trigger] done@[k]@ == split_on(cs@.subrange(0, i as int), c)[k],
            cur@ == split_on(cs@.subrange(0, i as int), c).last(),
        decreases n - i,
    {
        let ch = cs[i];
        let ghost pre = cs@.subrange(0, i as int);
        let ghost next = cs@.subrange(0, i + 1);
        proof {
            assert(next.drop_last() =~= pre);
            lemma_split_nonempty(pre, c);
        }
        if ch == c {
            let finished = cur;
            done.push(finished);
            cur = Vec::new();
        } else {
            cur.push(ch);
        }
        i = i + 1;
        proof {
            assert forall|k: int| 0 <= k < done@.len() implies #[trigger] done@[k]@ == split_on(next, c)[k] by {
            }
            assert(cur@ =~= split_on(next, c).last());
        }
    }
    done.push(cur);
    proof {
        assert(cs@.subrange(0, n as int) =~= cs@);
        assert forall|k: int| 0 <= k < done@.len() implies #[trigger] done@[k]@ == split_on(cs@, c)[k] by {
        }
    }
    done
}

} // verus!
