//! Comment threads, kept in the order they were posted.
use vstd::prelude::*;
use vstd::seq_lib::{to_multiset_build, to_multiset_insert};

verus! {

#[derive(Clone, Debug, PartialEq, Eq)]
pub struct Comment {
    pub id: u64,
    pub author: String,
    pub text: String,
    pub date: String,
    /// When the comment was posted, as a number that grows with time.
    pub posted: u64,
}

/// Every comment comes no later than those after it.
pub open spec fn chronological(s: Seq<Comment>) -> bool {
    forall|i: int, j: int| 0 <= i < j < s.len() ==> s[i].posted <= s[j].posted
}

/// The comments posted at time `t`, in the order they come.
pub open spec fn posted_at(s: Seq<Comment>, t: u64) -> Seq<Comment> {
    s.filter(|c: Comment| c.posted == t)
}

proof fn lemma_none_posted_at(s: Seq<Comment>, t: u64)
    requires
        forall|j: int| 0 <= j < s.len() ==> (#[trigger] s[j]).posted != t,
    ensures
        posted_at(s, t) == Seq::<Comment>::empty(),
    decreases s.len(),
{
    if s.len() > 0 {
        let p = s.drop_last();
        assert forall|j: int| 0 <= j < p.len() implies (#[trigger] p[j]).posted != t by {
            assert(p[j] == s[j]);
        }
        lemma_none_posted_at(p, t);
        assert(s =~= p.push(s.last()));
        p.lemma_filter_push(s.last(), |c: Comment| c.posted == t);
    }
}

/// Inserting a comment after every earlier-or-equal one and before every
/// later one appends it to the comments of its own time and leaves the
/// others alone.
proof fn lemma_insert_keeps_ties(before: Seq<Comment>, k: int, c: Comment, t: u64)
    requires
        0 <= k <= before.len(),
        forall|j: int| 0 <= j < k ==> (#[trigger] before[j]).posted <= c.posted,
        forall|j: int| k <= j < before.len() ==> c.posted < (#[trigger] before[j]).posted,
    ensures
        posted_at(before.insert(k, c), t) == if c.posted == t {
            posted_at(before, t).push(c)
        } else {
            posted_at(before, t)
        },
{
    let pred = |x: Comment| x.posted == t;
    let pre = before.subrange(0, k);
    let post = before.subrange(k, before.len() as int);
    assert(before =~= pre + post);
    assert(before.insert(k, c) =~= pre + seq![c] + post);
    Seq::filter_distributes_over_add(pre, post, pred);
    Seq::filter_distributes_over_add(pre + seq![c], post, pred);
    Seq::filter_distributes_over_add(pre, seq![c], pred);
    Seq::<Comment>::empty().lemma_filter_push(c, pred);
    assert(seq![c] =~= Seq::<Comment>::empty().push(c));
    assert(Seq::<Comment>::empty().filter(pred) =~= Seq::<Comment>::empty());
    if c.posted == t {
        assert forall|j: int| 0 <= j < post.len() implies (#[trigger] post[j]).posted != t by {
            assert(post[j] == before[k + j]);
        }
        lemma_none_posted_at(post, t);
        assert(posted_at(before.insert(k, c), t) =~= posted_at(before, t).push(c));
    } else {
        assert(posted_at(before.insert(k, c), t) =~= posted_at(before, t));
    }
}

fn copy_comment(c: &Comment) -> (r: Comment)
    ensures
        r == *c,
{
    Comment {
        id: c.id,
        author: c.author.clone(),
        text: c.text.clone(),
        date: c.date.clone(),
        posted: c.posted,
    }
}

/// The same comments in posting order; comments posted at the same time
/// keep the order they came in.
pub fn in_posting_order(comments: &Vec<Comment>) -> (r: Vec<Comment>)
    ensures
        chronological(r@),
        r@.to_multiset() == comments@.to_multiset(),
        forall|t: u64| #[trigger] posted_at(r@, t) == posted_at(comments@, t),
{
    let mut out: Vec<Comment> = Vec::new();
    let n = comments.len();
    let mut i: usize = 0;
    proof {
        assert(comments@.subrange(0, 0) =~= Seq::<Comment>::empty());
        assert forall|t: u64| #[trigger]
            posted_at(out@, t) == posted_at(comments@.subrange(0, 0), t) by {
            assert(out@ =~= Seq::<Comment>::empty());
        }
    }
    while i < n
        invariant
            n == comments@.len(),
            i <= n,
            chronological(out@),
            out@.to_multiset() == comments@.subrange(0, i as int).to_multiset(),
            forall|t: u64|
                #[trigger] posted_at(out@, t) == posted_at(comments@.subrange(0, i as int), t),
        decreases n - i,
    {
        let c = copy_comment(&comments[i]);
        let mut k: usize = 0;
        while k < out.len() && out[k].posted <= c.posted
            invariant
                k <= out@.len(),
                forall|j: int| 0 <= j < k ==> #[trigger] out@[j].posted <= c.posted,
            decreases out@.len() - k,
        {
            k += 1;
        }
        let ghost before = out@;
        assert(forall|j: int| k <= j < before.len() ==> c.posted < #[trigger] before[j].posted) by {
            if k < before.len() {
                assert(c.posted < before[k as int].posted);
            }
        }
        out.insert(k, c);
        assert(out@ == before.insert(k as int, c));
        assert forall|a: int, b: int| 0 <= a < b < out@.len() implies out@[a].posted
            <= out@[b].posted by {
            if b < k {
                assert(out@[a] == before[a]);
                assert(out@[b] == before[b]);
            } else if b == k {
                assert(out@[a] == before[a]);
            } else if a < k {
                assert(out@[a] == before[a]);
                assert(out@[b] == before[b - 1]);
            } else if a == k {
                assert(out@[b] == before[b - 1]);
            } else {
                assert(out@[a] == before[a - 1]);
                assert(out@[b] == before[b - 1]);
            }
        }
        proof {
            to_multiset_insert(before, k as int, comments@[i as int]);
            to_multiset_build(comments@.subrange(0, i as int), comments@[i as int]);
            assert(comments@.subrange(0, i + 1) =~= comments@.subrange(0, i as int).push(
                comments@[i as int],
            ));
            assert forall|t: u64| #[trigger]
                posted_at(out@, t) == posted_at(comments@.subrange(0, i + 1), t) by {
                lemma_insert_keeps_ties(before, k as int, comments@[i as int], t);
                comments@.subrange(0, i as int).lemma_filter_push(
                    comments@[i as int],
                    |x: Comment| x.posted == t,
                );
            }
        }
        i += 1;
    }
    assert(comments@.subrange(0, n as int) =~= comments@);
    out
}

} // verus!
