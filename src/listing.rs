use vstd::prelude::*;
use crate::reconcile::{contains_name, mentions, unique_urls};

verus! {

/// Whether to ask for the page after page `page_no`, which held `page_len`
/// entries: only after a full page, and only below the page cap.
pub fn wants_next_page(page_no: u32, page_len: usize, page_size: usize, max_pages: u32) -> (r: bool)
    ensures
        r == (page_len >= page_size && page_no < max_pages),
{
    page_len >= page_size && page_no < max_pages
}

/// The urls of `s` without repeats, each at its first place.
pub open spec fn distinct_urls(s: Seq<String>) -> Seq<String>
    decreases s.len(),
{
    if s.len() == 0 {
        s
    } else if mentions(s.drop_last(), s.last()@) {
        distinct_urls(s.drop_last())
    } else {
        distinct_urls(s.drop_last()).push(s.last())
    }
}

proof fn lemma_distinct_mentions(s: Seq<String>, u: Seq<char>)
    ensures
        mentions(distinct_urls(s), u) <==> mentions(s, u),
    decreases s.len(),
{
    if s.len() > 0 {
        let d = s.drop_last();
        lemma_distinct_mentions(d, u);
        lemma_distinct_mentions(d, s.last()@);
        if mentions(s, u) && !mentions(d, u) {
            let i = choose|i: int| 0 <= i < s.len() && #[trigger] s[i]@ == u;
            if i < s.len() - 1 {
                assert(d[i]@ == u);
            }
            assert(s.last()@ == u);
            assert(distinct_urls(s) == distinct_urls(d).push(s.last()));
            assert(distinct_urls(s)[distinct_urls(s).len() - 1]@ == u);
        }
        if mentions(d, u) {
            let i = choose|i: int| 0 <= i < d.len() && #[trigger] d[i]@ == u;
            assert(s[i]@ == u);
        }
        if mentions(distinct_urls(s), u) && !mentions(distinct_urls(d), u) {
            let i = choose|i: int|
                0 <= i < distinct_urls(s).len() && #[trigger] distinct_urls(s)[i]@ == u;
            if !mentions(d, s.last()@) {
                if i < distinct_urls(d).len() {
                    assert(distinct_urls(d)[i]@ == u);
                }
            }
            assert(s[s.len() - 1]@ == u);
        }
        if mentions(distinct_urls(d), u) {
            let i = choose|i: int|
                0 <= i < distinct_urls(d).len() && #[trigger] distinct_urls(d)[i]@ == u;
            if !mentions(d, s.last()@) {
                assert(distinct_urls(s)[i]@ == u);
            }
        }
    }
}

/// Drops repeated urls of a listing, keeping each at its first place.
pub fn distinct(urls: Vec<String>) -> (r: Vec<String>)
    ensures
        r@ == distinct_urls(urls@),
        unique_urls(r@),
{
    let mut r: Vec<String> = Vec::new();
    let mut rest = urls;
    let ghost all = rest@;
    let n: usize = rest.len();
    let mut i: usize = 0;
    while i < n
        invariant
            0 <= i <= n,
            n == all.len(),
            rest@ == all.subrange(i as int, n as int),
            r@ == distinct_urls(all.subrange(0, i as int)),
        decreases n - i,
    {
        let u = rest.remove(0);
        proof {
            let s = all.subrange(0, i as int + 1);
            assert(u == all[i as int]);
            assert(s.drop_last() == all.subrange(0, i as int));
            assert(s.last() == u);
            lemma_distinct_mentions(all.subrange(0, i as int), u@);
        }
        if !contains_name(r.as_slice(), &u) {
            r.push(u);
        }
        i = i + 1;
        assert(rest@ =~= all.subrange(i as int, n as int));
    }
    proof {
        assert(all.subrange(0, n as int) == all);
        lemma_distinct_unique(all);
    }
    r
}

/// What `distinct` returns holds no url twice.
pub proof fn lemma_distinct_unique(s: Seq<String>)
    ensures
        unique_urls(distinct_urls(s)),
    decreases s.len(),
{
    if s.len() > 0 {
        let d = s.drop_last();
        lemma_distinct_unique(d);
        if !mentions(d, s.last()@) {
            let x = s.last();
            let t = distinct_urls(d).push(x);
            lemma_distinct_mentions(d, x@);
            assert forall|i: int, j: int| 0 <= i < j < t.len() implies (#[trigger] t[i])@ != (
            #[trigger] t[j])@ by {
                if j == t.len() - 1 {
                    assert(t[i] == distinct_urls(d)[i]);
                    if t[i]@ == x@ {
                        assert(mentions(distinct_urls(d), x@));
                    }
                } else {
                    assert(t[i] == distinct_urls(d)[i] && t[j] == distinct_urls(d)[j]);
                }
            }
        }
    }
}

} // verus!
