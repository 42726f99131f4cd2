use vstd::prelude::*;
use crate::product::{Product, ProductData};

verus! {

// ---------------------------------------------------------------------------
// Title skip sequences
// ---------------------------------------------------------------------------

/// `needle` occurs in `hay` as a contiguous run of characters.
pub open spec fn occurs_in(needle: Seq<char>, hay: Seq<char>) -> bool {
    exists|i: int|
        0 <= i && i + needle.len() <= hay.len() && #[trigger] hay.subrange(i, i + needle.len())
            == needle
}

/// Relies on `str::contains` with a `&str` pattern: true exactly when the
/// pattern occurs in the string as a substring.
#[verifier::external_body]
fn contains_text(hay: &str, needle: &str) -> (r: bool)
    ensures
        r == occurs_in(needle@, hay@),
{
    hay.contains(needle)
}

/// Some sequence of `sequences` occurs in `title`.
pub open spec fn title_blocked(title: Seq<char>, sequences: Seq<String>) -> bool {
    exists|j: int| 0 <= j < sequences.len() && occurs_in(#[trigger] sequences[j]@, title)
}

/// Tells whether any of the title skip sequences occurs in `title`.
pub fn title_is_skipped(title: &str, sequences: &Vec<String>) -> (r: bool)
    ensures
        r == title_blocked(title@, sequences@),
{
    let mut j: usize = 0;
    while j < sequences.len()
        invariant
            0 <= j <= sequences@.len(),
            forall|k: int| 0 <= k < j ==> !occurs_in(#[trigger] sequences@[k]@, title@),
        decreases sequences@.len() - j,
    {
        if contains_text(title, sequences[j].as_str()) {
            return true;
        }
        j = j + 1;
    }
    false
}

// ---------------------------------------------------------------------------
// Verdict on a newly observed item
// ---------------------------------------------------------------------------

/// What becomes of a new candidate once its details are known.
#[derive(Debug, Clone, Copy, PartialEq, Eq, Structural)]
pub enum NewItemVerdict {
    /// The item is not attributed to the entity: remember its url as skipped.
    RecordSkip,
    /// The title holds a skip sequence: drop the item silently.
    Suppress,
    /// Store the item and announce it.
    Create,
}

/// Some string of `names` equals `name`.
pub open spec fn mentions(names: Seq<String>, name: Seq<char>) -> bool {
    exists|i: int| 0 <= i < names.len() && #[trigger] names[i]@ == name
}

pub open spec fn spec_verdict(
    entity: Seq<char>,
    artists: Seq<String>,
    title: Seq<char>,
    sequences: Seq<String>,
) -> NewItemVerdict {
    if !mentions(artists, entity) {
        NewItemVerdict::RecordSkip
    } else if title_blocked(title, sequences) {
        NewItemVerdict::Suppress
    } else {
        NewItemVerdict::Create
    }
}

/// Tells whether `names` holds `name`.
pub fn contains_name(names: &[String], name: &String) -> (r: bool)
    ensures
        r == mentions(names@, name@),
{
    let mut i: usize = 0;
    while i < names.len()
        invariant
            0 <= i <= names@.len(),
            forall|k: int| 0 <= k < i ==> #[trigger] names@[k]@ != name@,
        decreases names@.len() - i,
    {
        if names[i].eq(name) {
            return true;
        }
        i = i + 1;
    }
    false
}

/// Judges a new candidate of `entity` from its fetched details: attribution
/// is checked first, the title skip sequences second.
pub fn judge_new_item(entity: &String, data: &ProductData, sequences: &Vec<String>) -> (r:
    NewItemVerdict)
    ensures
        r == spec_verdict(entity@, data.artists@, data.title@, sequences@),
{
    if !contains_name(data.artists.as_slice(), entity) {
        NewItemVerdict::RecordSkip
    } else if title_is_skipped(data.title.as_str(), sequences) {
        NewItemVerdict::Suppress
    } else {
        NewItemVerdict::Create
    }
}

// ---------------------------------------------------------------------------
// Classification of urls
// ---------------------------------------------------------------------------

/// The three action sets of one entity's run: urls to restock, urls never
/// seen before, and available urls that are no longer listed.
#[derive(Debug)]
pub struct EntityPlan {
    pub restock_urls: Vec<String>,
    pub new_urls: Vec<String>,
    pub gone_urls: Vec<String>,
}

/// Some stored item with url `u` is available or preordered.
pub open spec fn known_available(known: Seq<Product>, u: Seq<char>) -> bool {
    exists|i: int|
        0 <= i < known.len() && #[trigger] known[i].url@ == u
            && known[i].availability.spec_is_available()
}

/// Some stored item with url `u` is not available or deleted.
pub open spec fn known_unavailable(known: Seq<Product>, u: Seq<char>) -> bool {
    exists|i: int|
        0 <= i < known.len() && #[trigger] known[i].url@ == u
            && !known[i].availability.spec_is_available()
}

pub open spec fn not_skipped(skips: Seq<String>) -> spec_fn(String) -> bool {
    |c: String| !mentions(skips, c@)
}

/// The listed urls that are not on the skip list, in listing order.
pub open spec fn observed(candidates: Seq<String>, skips: Seq<String>) -> Seq<String> {
    candidates.filter(not_skipped(skips))
}

pub open spec fn is_restock(known: Seq<Product>) -> spec_fn(String) -> bool {
    |c: String| !known_available(known, c@) && known_unavailable(known, c@)
}

pub open spec fn is_new(known: Seq<Product>) -> spec_fn(String) -> bool {
    |c: String| !known_available(known, c@) && !known_unavailable(known, c@)
}

pub open spec fn is_gone(observed_urls: Seq<String>) -> spec_fn(Product) -> bool {
    |p: Product| p.availability.spec_is_available() && !mentions(observed_urls, p.url@)
}

pub open spec fn url_of() -> spec_fn(Product) -> String {
    |p: Product| p.url
}

/// Observed urls whose stored items are all unavailable.
pub open spec fn restock_of(known: Seq<Product>, skips: Seq<String>, candidates: Seq<String>) -> Seq<
    String,
> {
    observed(candidates, skips).filter(is_restock(known))
}

/// Observed urls with no stored item.
pub open spec fn new_of(known: Seq<Product>, skips: Seq<String>, candidates: Seq<String>) -> Seq<
    String,
> {
    observed(candidates, skips).filter(is_new(known))
}

/// Urls of available stored items that are no longer observed, in stored order.
pub open spec fn gone_of(known: Seq<Product>, skips: Seq<String>, candidates: Seq<String>) -> Seq<
    String,
> {
    known.filter(is_gone(observed(candidates, skips))).map_values(url_of())
}

fn is_known_available(known: &Vec<Product>, url: &String) -> (r: bool)
    ensures
        r == known_available(known@, url@),
{
    let mut i: usize = 0;
    while i < known.len()
        invariant
            0 <= i <= known@.len(),
            forall|k: int|
                0 <= k < i ==> !(#[trigger] known@[k].url@ == url@
                    && known@[k].availability.spec_is_available()),
        decreases known@.len() - i,
    {
        if known[i].url.eq(url) && known[i].availability.is_available() {
            return true;
        }
        i = i + 1;
    }
    false
}

fn is_known_unavailable(known: &Vec<Product>, url: &String) -> (r: bool)
    ensures
        r == known_unavailable(known@, url@),
{
    let mut i: usize = 0;
    while i < known.len()
        invariant
            0 <= i <= known@.len(),
            forall|k: int|
                0 <= k < i ==> !(#[trigger] known@[k].url@ == url@
                    && !known@[k].availability.spec_is_available()),
        decreases known@.len() - i,
    {
        if known[i].url.eq(url) && !known[i].availability.is_available() {
            return true;
        }
        i = i + 1;
    }
    false
}

/// Splits the listed `candidates` of one entity, against its stored items
/// `known` and the skip list, into restocks, new items and items gone away.
/// A url whose stored item is available and which is still listed is left alone.
pub fn plan_entity(known: &Vec<Product>, skip_urls: &Vec<String>, candidates: &Vec<String>) -> (r:
    EntityPlan)
    ensures
        r.restock_urls@ == restock_of(known@, skip_urls@, candidates@),
        r.new_urls@ == new_of(known@, skip_urls@, candidates@),
        r.gone_urls@ == gone_of(known@, skip_urls@, candidates@),
{
    let mut seen: Vec<String> = Vec::new();
    let mut i: usize = 0;
    while i < candidates.len()
        invariant
            0 <= i <= candidates@.len(),
            seen@ == candidates@.subrange(0, i as int).filter(not_skipped(skip_urls@)),
        decreases candidates@.len() - i,
    {
        let c = candidates[i].clone();
        proof {
            assert(candidates@.subrange(0, i as int + 1) == candidates@.subrange(0, i as int).push(
                c,
            ));
            candidates@.subrange(0, i as int).lemma_filter_push(c, not_skipped(skip_urls@));
        }
        if !contains_name(skip_urls.as_slice(), &c) {
            seen.push(c);
        }
        i = i + 1;
    }
    proof {
        assert(candidates@.subrange(0, candidates@.len() as int) == candidates@);
    }
    let mut restock_urls: Vec<String> = Vec::new();
    let mut new_urls: Vec<String> = Vec::new();
    let mut j: usize = 0;
    while j < seen.len()
        invariant
            0 <= j <= seen@.len(),
            seen@ == observed(candidates@, skip_urls@),
            restock_urls@ == seen@.subrange(0, j as int).filter(is_restock(known@)),
            new_urls@ == seen@.subrange(0, j as int).filter(is_new(known@)),
        decreases seen@.len() - j,
    {
        let c = seen[j].clone();
        proof {
            assert(seen@.subrange(0, j as int + 1) == seen@.subrange(0, j as int).push(c));
            seen@.subrange(0, j as int).lemma_filter_push(c, is_restock(known@));
            seen@.subrange(0, j as int).lemma_filter_push(c, is_new(known@));
        }
        if !is_known_available(known, &c) {
            if is_known_unavailable(known, &c) {
                restock_urls.push(c);
            } else {
                new_urls.push(c);
            }
        }
        j = j + 1;
    }
    proof {
        assert(seen@.subrange(0, seen@.len() as int) == seen@);
    }
    let mut gone_urls: Vec<String> = Vec::new();
    let mut k: usize = 0;
    while k < known.len()
        invariant
            0 <= k <= known@.len(),
            seen@ == observed(candidates@, skip_urls@),
            gone_urls@ == known@.subrange(0, k as int).filter(is_gone(seen@)).map_values(
                url_of(),
            ),
        decreases known@.len() - k,
    {
        let ghost p = known@[k as int];
        proof {
            assert(known@.subrange(0, k as int + 1) == known@.subrange(0, k as int).push(p));
            known@.subrange(0, k as int).lemma_filter_push(p, is_gone(seen@));
            assert(known@.subrange(0, k as int).filter(is_gone(seen@)).push(p).map_values(url_of())
                =~= known@.subrange(0, k as int).filter(is_gone(seen@)).map_values(url_of()).push(
                p.url,
            ));
        }
        if known[k].availability.is_available() && !contains_name(seen.as_slice(), &known[k].url) {
            gone_urls.push(known[k].url.clone());
        }
        k = k + 1;
    }
    proof {
        assert(known@.subrange(0, known@.len() as int) == known@);
    }
    EntityPlan { restock_urls, new_urls, gone_urls }
}

// ---------------------------------------------------------------------------
// Properties of the classification
// ---------------------------------------------------------------------------

proof fn lemma_mentions_filter(s: Seq<String>, f: spec_fn(String) -> bool, u: Seq<char>)
    ensures
        mentions(s.filter(f), u) <==> exists|i: int| 0 <= i < s.len() && #[trigger] s[i]@ == u && f(s[i]),
{
    broadcast use vstd::seq_lib::group_filter_ensures;

    if mentions(s.filter(f), u) {
        let i = choose|i: int| 0 <= i < s.filter(f).len() && #[trigger] s.filter(f)[i]@ == u;
        let x = s.filter(f)[i];
        assert(s.filter(f).contains(x));
        s.lemma_filter_contains_rev(f, x);
        let j = choose|j: int| 0 <= j < s.len() && s[j] == x;
        assert(s[j]@ == u && f(s[j]));
    }
    if exists|i: int| 0 <= i < s.len() && #[trigger] s[i]@ == u && f(s[i]) {
        let i = choose|i: int| 0 <= i < s.len() && #[trigger] s[i]@ == u && f(s[i]);
        s.lemma_filter_contains(f, i);
        let k = choose|k: int| 0 <= k < s.filter(f).len() && s.filter(f)[k] == s[i];
        assert(s.filter(f)[k]@ == u);
    }
}

proof fn lemma_mentions_gone(known: Seq<Product>, obs: Seq<String>, u: Seq<char>)
    ensures
        mentions(known.filter(is_gone(obs)).map_values(url_of()), u) <==> exists|i: int|
            0 <= i < known.len() && #[trigger] known[i].url@ == u && is_gone(obs)(known[i]),
{
    broadcast use vstd::seq_lib::group_filter_ensures;

    let g = known.filter(is_gone(obs));
    let m = g.map_values(url_of());
    if mentions(m, u) {
        let i = choose|i: int| 0 <= i < m.len() && #[trigger] m[i]@ == u;
        let x = g[i];
        assert(g.contains(x));
        known.lemma_filter_contains_rev(is_gone(obs), x);
        let j = choose|j: int| 0 <= j < known.len() && known[j] == x;
        assert(known[j].url@ == u && is_gone(obs)(known[j]));
    }
    if exists|i: int| 0 <= i < known.len() && #[trigger] known[i].url@ == u && is_gone(obs)(known[i]) {
        let i = choose|i: int|
            0 <= i < known.len() && #[trigger] known[i].url@ == u && is_gone(obs)(known[i]);
        known.lemma_filter_contains(is_gone(obs), i);
        let k = choose|k: int| 0 <= k < g.len() && g[k] == known[i];
        assert(m[k]@ == u);
    }
}

/// Exactly one of four facts holds.
pub open spec fn exactly_one(a: bool, b: bool, c: bool, d: bool) -> bool {
    &&& a || b || c || d
    &&& a ==> !b && !c && !d
    &&& b ==> !c && !d
    &&& c ==> !d
}

/// A url is left alone when it is still listed and its stored item is available.
pub open spec fn left_alone(known: Seq<Product>, skips: Seq<String>, candidates: Seq<String>, u: Seq<
    char,
>) -> bool {
    mentions(observed(candidates, skips), u) && known_available(known, u)
}

/// Every url that is listed (and not skipped) or stored as available falls in
/// exactly one class of a run: left alone, restocked, new, or gone away. Any
/// other url falls in none.
pub proof fn lemma_classification_complete(
    known: Seq<Product>,
    skips: Seq<String>,
    candidates: Seq<String>,
    u: Seq<char>,
)
    ensures
        mentions(observed(candidates, skips), u) || known_available(known, u) ==> exactly_one(
            left_alone(known, skips, candidates, u),
            mentions(restock_of(known, skips, candidates), u),
            mentions(new_of(known, skips, candidates), u),
            mentions(gone_of(known, skips, candidates), u),
        ),
        !(mentions(observed(candidates, skips), u) || known_available(known, u)) ==> {
            &&& !mentions(restock_of(known, skips, candidates), u)
            &&& !mentions(new_of(known, skips, candidates), u)
            &&& !mentions(gone_of(known, skips, candidates), u)
        },
{
    let obs = observed(candidates, skips);
    lemma_mentions_filter(obs, is_restock(known), u);
    lemma_mentions_filter(obs, is_new(known), u);
    lemma_mentions_gone(known, obs, u);
    if exists|i: int| 0 <= i < known.len() && #[trigger] known[i].url@ == u && is_gone(obs)(known[i]) {
        let i = choose|i: int|
            0 <= i < known.len() && #[trigger] known[i].url@ == u && is_gone(obs)(known[i]);
        assert(known_available(known, u));
        assert(!mentions(obs, u));
    }
    if known_available(known, u) && !mentions(obs, u) {
        let i = choose|i: int|
            0 <= i < known.len() && #[trigger] known[i].url@ == u
                && known[i].availability.spec_is_available();
        assert(is_gone(obs)(known[i]));
    }
}

/// A url on the skip list is neither restocked nor treated as new, so its
/// details are never fetched and it is never announced.
pub proof fn lemma_skipped_url_untouched(
    known: Seq<Product>,
    skips: Seq<String>,
    candidates: Seq<String>,
    u: Seq<char>,
)
    requires
        mentions(skips, u),
    ensures
        !mentions(restock_of(known, skips, candidates), u),
        !mentions(new_of(known, skips, candidates), u),
        !mentions(observed(candidates, skips), u),
{
    let obs = observed(candidates, skips);
    lemma_mentions_filter(candidates, not_skipped(skips), u);
    lemma_mentions_filter(obs, is_restock(known), u);
    lemma_mentions_filter(obs, is_new(known), u);
    if mentions(obs, u) {
        let i = choose|i: int|
            0 <= i < candidates.len() && #[trigger] candidates[i]@ == u && not_skipped(skips)(
                candidates[i],
            );
    }
}

/// The verdict on url `u` from the details that the listing source gives for it.
pub open spec fn verdict_at(
    details: Map<Seq<char>, ProductData>,
    entity: Seq<char>,
    sequences: Seq<String>,
    u: Seq<char>,
) -> NewItemVerdict {
    spec_verdict(entity, details[u].artists@, details[u].title@, sequences)
}

/// `after` and `skips_after` are what the store holds once the writes of a run
/// on (`before`, `skips`, `candidates`) are applied: restocked urls became
/// available, urls gone away unavailable, created urls are stored as
/// available, rejected urls joined the skip list, and nothing else changed.
pub open spec fn run_applied(
    before: Seq<Product>,
    after: Seq<Product>,
    skips: Seq<String>,
    skips_after: Seq<String>,
    candidates: Seq<String>,
    details: Map<Seq<char>, ProductData>,
    entity: Seq<char>,
    sequences: Seq<String>,
) -> bool {
    let restocked = restock_of(before, skips, candidates);
    let fresh = new_of(before, skips, candidates);
    let gone = gone_of(before, skips, candidates);
    &&& forall|u: Seq<char>| #[trigger]
        mentions(restocked, u) ==> known_available(after, u)
    &&& forall|u: Seq<char>| #[trigger]
        mentions(gone, u) ==> !known_available(after, u)
    &&& forall|u: Seq<char>|
        #![trigger mentions(fresh, u)]
        mentions(fresh, u) && verdict_at(details, entity, sequences, u) is Create
            ==> known_available(after, u)
    &&& forall|u: Seq<char>|
        #![trigger mentions(skips_after, u)]
        mentions(skips_after, u) <==> mentions(skips, u) || (mentions(fresh, u) && verdict_at(
            details,
            entity,
            sequences,
            u,
        ) is RecordSkip)
    &&& forall|u: Seq<char>|
        #![trigger known_available(after, u)]
        #![trigger known_unavailable(after, u)]
        !(mentions(restocked, u) || mentions(gone, u) || (mentions(fresh, u) && verdict_at(
            details,
            entity,
            sequences,
            u,
        ) is Create)) ==> known_available(after, u) == known_available(before, u)
            && known_unavailable(after, u) == known_unavailable(before, u)
}

/// Running again on an unchanged listing changes nothing and announces nothing:
/// once the writes of a first run are applied, a second run finds nothing to
/// restock and nothing gone away, and each url that it still finds new is one
/// whose title the skip sequences suppress, so it stores and announces no item.
/// This holds where every item that the first run created was listed as
/// available or preordered; an item created as unavailable would be restocked
/// by the second run.
pub proof fn lemma_rerun_is_quiet(
    before: Seq<Product>,
    after: Seq<Product>,
    skips: Seq<String>,
    skips_after: Seq<String>,
    candidates: Seq<String>,
    details: Map<Seq<char>, ProductData>,
    entity: Seq<char>,
    sequences: Seq<String>,
)
    requires
        run_applied(before, after, skips, skips_after, candidates, details, entity, sequences),
    ensures
        restock_of(after, skips_after, candidates) == Seq::<String>::empty(),
        gone_of(after, skips_after, candidates) == Seq::<String>::empty(),
        forall|u: Seq<char>| #[trigger]
            mentions(new_of(after, skips_after, candidates), u) ==> verdict_at(
                details,
                entity,
                sequences,
                u,
            ) is Suppress,
{
    let obs1 = observed(candidates, skips);
    let obs2 = observed(candidates, skips_after);
    let restock2 = restock_of(after, skips_after, candidates);
    let new2 = new_of(after, skips_after, candidates);
    let gone2 = gone_of(after, skips_after, candidates);
    assert forall|u: Seq<char>|
        !mentions(restock2, u) && !mentions(gone2, u) && (mentions(new2, u) ==> verdict_at(
            details,
            entity,
            sequences,
            u,
        ) is Suppress) by {
        lemma_mentions_filter(candidates, not_skipped(skips), u);
        lemma_mentions_filter(candidates, not_skipped(skips_after), u);
        lemma_mentions_filter(obs1, is_restock(before), u);
        lemma_mentions_filter(obs1, is_new(before), u);
        lemma_mentions_filter(obs2, is_restock(after), u);
        lemma_mentions_filter(obs2, is_new(after), u);
        lemma_mentions_gone(before, obs1, u);
        lemma_mentions_gone(after, obs2, u);
        lemma_classification_complete(before, skips, candidates, u);
        if mentions(obs2, u) {
            assert(mentions(obs1, u));
        }
        if mentions(gone2, u) {
            let i = choose|i: int|
                0 <= i < after.len() && #[trigger] after[i].url@ == u && is_gone(obs2)(after[i]);
            assert(known_available(after, u));
        }
    }
    if restock2.len() > 0 {
        assert(mentions(restock2, restock2[0]@));
    }
    if gone2.len() > 0 {
        assert(mentions(gone2, gone2[0]@));
    }
}

/// No url occurs twice in `s`.
pub open spec fn unique_urls(s: Seq<String>) -> bool {
    forall|i: int, j: int| 0 <= i < j < s.len() ==> (#[trigger] s[i])@ != (#[trigger] s[j])@
}

proof fn lemma_filter_unique(s: Seq<String>, f: spec_fn(String) -> bool)
    requires
        unique_urls(s),
    ensures
        unique_urls(s.filter(f)),
    decreases s.len(),
{
    reveal(Seq::filter);
    if s.len() > 0 {
        let d = s.drop_last();
        assert(unique_urls(d)) by {
            assert forall|i: int, j: int| 0 <= i < j < d.len() implies (#[trigger] d[i])@ != (
            #[trigger] d[j])@ by {
                assert(d[i] == s[i] && d[j] == s[j]);
            }
        }
        lemma_filter_unique(d, f);
        if f(s.last()) {
            let x = s.last();
            lemma_mentions_filter(d, f, x@);
            if mentions(d.filter(f), x@) {
                let i = choose|i: int| 0 <= i < d.len() && #[trigger] d[i]@ == x@ && f(d[i]);
                assert(s[i]@ == s[s.len() - 1]@);
            }
            let t = d.filter(f).push(x);
            assert(s.filter(f) == t);
            assert forall|i: int, j: int| 0 <= i < j < t.len() implies (#[trigger] t[i])@ != (
            #[trigger] t[j])@ by {
                if j == t.len() - 1 {
                    assert(t[i] == d.filter(f)[i]);
                    assert(!(d.filter(f)[i]@ == x@));
                } else {
                    assert(t[i] == d.filter(f)[i] && t[j] == d.filter(f)[j]);
                }
            }
        }
    }
}

/// A listing without repeated urls yields restock and new lists without
/// repeats, so the run visits each of those urls at one position only; in
/// particular it records at most one skip entry per url.
pub proof fn lemma_plan_unique(known: Seq<Product>, skips: Seq<String>, candidates: Seq<String>)
    requires
        unique_urls(candidates),
    ensures
        unique_urls(restock_of(known, skips, candidates)),
        unique_urls(new_of(known, skips, candidates)),
{
    lemma_filter_unique(candidates, not_skipped(skips));
    lemma_filter_unique(observed(candidates, skips), is_restock(known));
    lemma_filter_unique(observed(candidates, skips), is_new(known));
}

} // verus!
