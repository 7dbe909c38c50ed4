//! Deduplication of records by identity key, carrying the
//! "authored by the viewer" flag forward.
use crate::model::Pr;
use crate::text::str_eq;
use vstd::prelude::*;

verus! {

/// The records of `s` by key; a later record replaces an earlier one.
pub open spec fn key_map(s: Seq<Pr>) -> Map<Seq<char>, Pr>
    decreases s.len(),
{
    if s.len() == 0 {
        Map::empty()
    } else {
        key_map(s.drop_last()).insert(s.last().pr_key@, s.last())
    }
}

pub open spec fn keys_unique(s: Seq<Pr>) -> bool {
    forall|i: int, j: int| 0 <= i < j < s.len() ==> s[i].pr_key@ != s[j].pr_key@
}

/// `pr` with its authored flag set to `authored`.
pub open spec fn with_authored(pr: Pr, authored: bool) -> Pr {
    Pr { is_viewer_author: authored, ..pr }
}

/// The map after inserting `pr`: it replaces any record under its key, but
/// an authored flag already set there is kept.
pub open spec fn merge_spec(m: Map<Seq<char>, Pr>, pr: Pr) -> Map<Seq<char>, Pr> {
    let k = pr.pr_key@;
    m.insert(k, with_authored(pr, pr.is_viewer_author || (m.contains_key(k) && m[k].is_viewer_author)))
}

/// The map after inserting the records of `prs` in order.
pub open spec fn merge_all(m: Map<Seq<char>, Pr>, prs: Seq<Pr>) -> Map<Seq<char>, Pr>
    decreases prs.len(),
{
    if prs.len() == 0 {
        m
    } else {
        merge_spec(merge_all(m, prs.drop_last()), prs.last())
    }
}

proof fn lemma_key_map_dom(s: Seq<Pr>, k: Seq<char>)
    ensures
        key_map(s).contains_key(k) <==> exists|i: int| 0 <= i < s.len() && s[i].pr_key@ == k,
    decreases s.len(),
{
    if s.len() > 0 {
        lemma_key_map_dom(s.drop_last(), k);
        if key_map(s.drop_last()).contains_key(k) {
            let i = choose|i: int| 0 <= i < s.len() - 1 && s.drop_last()[i].pr_key@ == k;
            assert(s[i].pr_key@ == k);
        }
        if exists|i: int| 0 <= i < s.len() && s[i].pr_key@ == k {
            let i = choose|i: int| 0 <= i < s.len() && s[i].pr_key@ == k;
            if i < s.len() - 1 {
                assert(s.drop_last()[i].pr_key@ == k);
            }
        }
    }
}

proof fn lemma_key_map_at(s: Seq<Pr>, i: int)
    requires
        keys_unique(s),
        0 <= i < s.len(),
    ensures
        key_map(s).contains_key(s[i].pr_key@),
        key_map(s)[s[i].pr_key@] == s[i],
    decreases s.len(),
{
    if i < s.len() - 1 {
        lemma_key_map_at(s.drop_last(), i);
    }
}

proof fn lemma_key_map_update(s: Seq<Pr>, i: int, p: Pr)
    requires
        keys_unique(s),
        0 <= i < s.len(),
        p.pr_key@ == s[i].pr_key@,
    ensures
        key_map(s.update(i, p)) == key_map(s).insert(p.pr_key@, p),
    decreases s.len(),
{
    let t = s.update(i, p);
    if i == s.len() - 1 {
        assert(t.drop_last() =~= s.drop_last());
        assert(key_map(t) =~= key_map(s).insert(p.pr_key@, p));
    } else {
        assert(t.drop_last() =~= s.drop_last().update(i, p));
        lemma_key_map_update(s.drop_last(), i, p);
        assert(key_map(t) =~= key_map(s).insert(p.pr_key@, p));
    }
}

/// Records held under unique identity keys.
pub struct PrIndex {
    items: Vec<Pr>,
}

impl View for PrIndex {
    type V = Map<Seq<char>, Pr>;

    closed spec fn view(&self) -> Map<Seq<char>, Pr> {
        key_map(self.items@)
    }
}

impl PrIndex {
    /// No two records share a key.
    pub closed spec fn wf(&self) -> bool {
        keys_unique(self.items@)
    }

    pub fn new() -> (r: Self)
        ensures
            r.wf(),
            r@ == Map::<Seq<char>, Pr>::empty(),
    {
        let r = PrIndex { items: Vec::new() };
        assert(r@ == key_map(Seq::<Pr>::empty()));
        r
    }

    /// The records, one per key, in no particular order.
    pub fn into_values(self) -> (r: Vec<Pr>)
        requires
            self.wf(),
        ensures
            keys_unique(r@),
            key_map(r@) == self@,
    {
        self.items
    }
}

/// Inserts `pr` under its key, replacing any record there; an authored flag
/// already set under that key is carried onto `pr`.
pub fn merge_into(map: &mut PrIndex, pr: Pr)
    requires
        old(map).wf(),
    ensures
        final(map).wf(),
        final(map)@ == merge_spec(old(map)@, pr),
{
    let mut rec = pr;
    let ghost s = map.items@;
    let mut i: usize = 0;
    while i < map.items.len()
        invariant
            s == map.items@,
            s == old(map).items@,
            keys_unique(s),
            rec == pr,
            i <= s.len(),
            forall|j: int| 0 <= j < i ==> s[j].pr_key@ != pr.pr_key@,
        decreases s.len() - i,
    {
        if str_eq(map.items[i].pr_key.as_str(), rec.pr_key.as_str()) {
            proof {
                lemma_key_map_at(s, i as int);
            }
            if map.items[i].is_viewer_author {
                rec.is_viewer_author = true;
            }
            let ghost p = rec;
            assert(p == with_authored(pr, pr.is_viewer_author || s[i as int].is_viewer_author));
            map.items.set(i, rec);
            proof {
                lemma_key_map_update(s, i as int, p);
                assert(map.items@ == s.update(i as int, p));
                assert forall|a: int, b: int| 0 <= a < b < map.items@.len() implies map.items@[a].pr_key@
                    != map.items@[b].pr_key@ by {
                    assert(s[a].pr_key@ != s[b].pr_key@);
                }
            }
            return ;
        }
        i = i + 1;
    }
    proof {
        lemma_key_map_dom(s, pr.pr_key@);
    }
    assert(with_authored(pr, pr.is_viewer_author) == pr);
    map.items.push(rec);
    assert(map.items@.drop_last() =~= s);
}

/// Once a key holds an authored record, it keeps one through any later
/// insertions.
pub proof fn lemma_authored_kept(m: Map<Seq<char>, Pr>, prs: Seq<Pr>, k: Seq<char>)
    requires
        m.contains_key(k),
        m[k].is_viewer_author,
    ensures
        merge_all(m, prs).contains_key(k),
        merge_all(m, prs)[k].is_viewer_author,
    decreases prs.len(),
{
    if prs.len() > 0 {
        lemma_authored_kept(m, prs.drop_last(), k);
    }
}

/// Inserting an authored record and then a record under the same key that
/// is not marked authored leaves an authored record under that key.
pub proof fn lemma_authored_then_other(m: Map<Seq<char>, Pr>, a: Pr, b: Pr)
    requires
        a.pr_key@ == b.pr_key@,
        a.is_viewer_author,
    ensures
        merge_spec(merge_spec(m, a), b)[b.pr_key@].is_viewer_author,
        merge_spec(merge_spec(m, a), b)[b.pr_key@] == with_authored(b, true),
{
}

} // verus!
