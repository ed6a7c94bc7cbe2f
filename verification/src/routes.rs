//! Naming on the contest data server: which sources get their own set of
//! routes, where each source's data is downloaded from, and the secret
//! route that serves the full run list.
use vstd::prelude::*;

verus! {

/// The sources in the order they first appear, each once.
pub open spec fn unique_seq(s: Seq<Seq<char>>) -> Seq<Seq<char>>
    decreases s.len(),
{
    if s.len() == 0 {
        seq![]
    } else {
        let r = unique_seq(s.drop_last());
        if r.contains(s.last()) {
            r
        } else {
            r.push(s.last())
        }
    }
}

fn contains_string(v: &Vec<String>, s: &String) -> (found: bool)
    ensures
        found == v.deep_view().contains(s@),
{
    let mut k: usize = 0;
    while k < v.len()
        invariant
            0 <= k <= v@.len(),
            forall|j: int| 0 <= j < k ==> v@[j]@ != s@,
        decreases v@.len() - k,
    {
        if v[k] == *s {
            assert(v.deep_view()[k as int] == s@);
            return true;
        }
        k = k + 1;
    }
    assert forall|j: int| 0 <= j < v.deep_view().len() implies v.deep_view()[j] != s@ by {
        assert(v.deep_view()[j] == v@[j]@);
    }
    false
}

/// The distinct sources among the sites, in the order they first appear.
pub fn unique_sources(sources: &Vec<String>) -> (unique: Vec<String>)
    ensures
        unique.deep_view() == unique_seq(sources.deep_view()),
{
    let ghost input = sources.deep_view();
    let mut unique: Vec<String> = Vec::new();
    let mut k: usize = 0;
    assert(input.subrange(0, 0) =~= Seq::<Seq<char>>::empty());
    assert(unique.deep_view() =~= Seq::<Seq<char>>::empty());
    while k < sources.len()
        invariant
            0 <= k <= sources@.len(),
            input == sources.deep_view(),
            unique.deep_view() == unique_seq(input.subrange(0, k as int)),
        decreases sources@.len() - k,
    {
        let ghost prefix = input.subrange(0, (k + 1) as int);
        assert(prefix.drop_last() =~= input.subrange(0, k as int));
        assert(prefix.last() == sources@[k as int]@);
        if !contains_string(&unique, &sources[k]) {
            let ghost before = unique.deep_view();
            unique.push(sources[k].clone());
            assert(unique.deep_view() =~= before.push(sources@[k as int]@));
        }
        k = k + 1;
    }
    assert(input.subrange(0, sources@.len() as int) =~= input);
    unique
}

/// Where the data of `source` is downloaded from: the base address, then
/// the salt, then the source.
pub fn data_url(url_base: &str, salt: &str, source: &str) -> (url: String)
    ensures
        url@ == url_base@ + salt@ + source@,
{
    let mut url = String::from_str(url_base);
    url.append(salt);
    url.append(source);
    url
}

/// The route segment that serves the full run list of a source to whoever
/// knows the secret.
pub fn secret_runs_path(secret: &str) -> (path: String)
    ensures
        path@ == "allruns_"@ + secret@,
{
    let mut path = String::from_str("allruns_");
    path.append(secret);
    path
}

pub open spec fn no_duplicates(s: Seq<Seq<char>>) -> bool {
    forall|i: int, j: int| 0 <= i < j < s.len() ==> s[i] != s[j]
}

/// A source is among the distinct sources exactly when some site has it.
pub proof fn lemma_unique_same_members(s: Seq<Seq<char>>, x: Seq<char>)
    ensures
        unique_seq(s).contains(x) <==> s.contains(x),
    decreases s.len(),
{
    if s.len() > 0 {
        lemma_unique_same_members(s.drop_last(), x);
        let r = unique_seq(s.drop_last());
        if s.drop_last().contains(x) {
            let k = choose|k: int| 0 <= k < s.drop_last().len() && s.drop_last()[k] == x;
            assert(s[k] == x);
        }
        if s.contains(x) && x != s.last() {
            let k = choose|k: int| 0 <= k < s.len() && s[k] == x;
            assert(s.drop_last()[k] == x);
        }
        if !r.contains(s.last()) {
            assert(r.push(s.last())[r.len() as int] == s.last());
            if r.contains(x) {
                let k = choose|k: int| 0 <= k < r.len() && r[k] == x;
                assert(r.push(s.last())[k] == x);
            }
            if r.push(s.last()).contains(x) && x != s.last() {
                let k = choose|k: int| 0 <= k < r.len() + 1 && r.push(s.last())[k] == x;
                assert(r[k] == x);
            }
        }
        assert(s[s.len() - 1] == s.last());
    }
}

/// No source appears twice among the distinct sources.
pub proof fn lemma_unique_no_duplicates(s: Seq<Seq<char>>)
    ensures
        no_duplicates(unique_seq(s)),
    decreases s.len(),
{
    if s.len() > 0 {
        lemma_unique_no_duplicates(s.drop_last());
        let r = unique_seq(s.drop_last());
        if !r.contains(s.last()) {
            let t = r.push(s.last());
            assert forall|i: int, j: int| 0 <= i < j < t.len() implies t[i] != t[j] by {
                if j == r.len() {
                    assert(t[i] == r[i]);
                }
            }
        }
    }
}

/// A list without repeats is its own list of distinct elements.
pub proof fn lemma_unique_of_distinct(s: Seq<Seq<char>>)
    requires
        no_duplicates(s),
    ensures
        unique_seq(s) == s,
    decreases s.len(),
{
    if s.len() > 0 {
        let d = s.drop_last();
        assert(no_duplicates(d));
        lemma_unique_of_distinct(d);
        if d.contains(s.last()) {
            let k = choose|k: int| 0 <= k < d.len() && d[k] == s.last();
            assert(s[k] == s[s.len() - 1]);
        }
        assert(d.push(s.last()) =~= s);
    }
}

/// Taking the distinct sources twice gives the same list as taking them once.
pub proof fn lemma_unique_idempotent(s: Seq<Seq<char>>)
    ensures
        unique_seq(unique_seq(s)) == unique_seq(s),
{
    lemma_unique_no_duplicates(s);
    lemma_unique_of_distinct(unique_seq(s));
}

pub open spec fn is_prefix(a: Seq<Seq<char>>, b: Seq<Seq<char>>) -> bool {
    a.len() <= b.len() && forall|i: int| 0 <= i < a.len() ==> #[trigger] b[i] == a[i]
}

/// More sites never reorder the distinct sources found so far: the distinct
/// sources of a list are a prefix of those of any longer list that starts
/// with it. With `lemma_unique_same_members` and
/// `lemma_unique_no_duplicates` this fixes the result: each source appears
/// once, at the point where it is first seen.
pub proof fn lemma_unique_extends(s: Seq<Seq<char>>, t: Seq<Seq<char>>)
    ensures
        is_prefix(unique_seq(s), unique_seq(s + t)),
    decreases t.len(),
{
    if t.len() == 0 {
        assert(s + t =~= s);
    } else {
        lemma_unique_extends(s, t.drop_last());
        assert((s + t).drop_last() =~= s + t.drop_last());
    }
}

/// The first site's source comes first.
pub proof fn lemma_unique_first(s: Seq<Seq<char>>)
    requires
        s.len() > 0,
    ensures
        unique_seq(s).len() > 0,
        unique_seq(s)[0] == s[0],
{
    let first = seq![s[0]];
    assert(first.drop_last() =~= Seq::<Seq<char>>::empty());
    assert(unique_seq(first.drop_last()).len() == 0);
    assert(!unique_seq(first.drop_last()).contains(first.last()));
    assert(unique_seq(first) =~= first);
    lemma_unique_extends(first, s.subrange(1, s.len() as int));
    assert(first + s.subrange(1, s.len() as int) =~= s);
}

/// A source seen again adds nothing: the distinct sources of a list that
/// ends with a repeated source are those of the list without that last site.
pub proof fn lemma_unique_repeat_adds_nothing(s: Seq<Seq<char>>, x: Seq<char>)
    requires
        s.contains(x),
    ensures
        unique_seq(s.push(x)) == unique_seq(s),
{
    lemma_unique_same_members(s, x);
    assert(s.push(x).drop_last() =~= s);
}

/// A source not seen before is added at the end.
pub proof fn lemma_unique_new_source_appended(s: Seq<Seq<char>>, x: Seq<char>)
    requires
        !s.contains(x),
    ensures
        unique_seq(s.push(x)) == unique_seq(s).push(x),
{
    lemma_unique_same_members(s, x);
    assert(s.push(x).drop_last() =~= s);
}

} // verus!
