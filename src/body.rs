use vstd::prelude::*;

use crate::kv::KvPair;

verus! {

/// The `(key, value)` views of a list of pairs.
pub open spec fn pair_views(s: Seq<KvPair>) -> Seq<(Seq<char>, Seq<char>)> {
    s.map_values(|p: KvPair| p@)
}

/// The JSON object that a list of pairs describes: the pairs are inserted in
/// order, so a later pair replaces an earlier one with the same key.
pub open spec fn body_map(s: Seq<(Seq<char>, Seq<char>)>) -> Map<Seq<char>, Seq<char>>
    decreases s.len(),
{
    if s.len() == 0 {
        Map::empty()
    } else {
        body_map(s.drop_last()).insert(s.last().0, s.last().1)
    }
}

/// No key occurs twice.
pub open spec fn keys_unique(s: Seq<(Seq<char>, Seq<char>)>) -> bool {
    forall|i: int, j: int| 0 <= i < j < s.len() ==> s[i].0 != s[j].0
}

/// The object has a member for each key of the pairs, and for no other key.
pub proof fn lemma_body_keys(s: Seq<(Seq<char>, Seq<char>)>, k: Seq<char>)
    ensures
        body_map(s).contains_key(k) <==> exists|i: int| 0 <= i < s.len() && s[i].0 == k,
    decreases s.len(),
{
    if s.len() > 0 {
        let t = s.drop_last();
        lemma_body_keys(t, k);
        if exists|i: int| 0 <= i < t.len() && t[i].0 == k {
            let i = choose|i: int| 0 <= i < t.len() && t[i].0 == k;
            assert(s[i].0 == k);
        }
        if s.last().0 == k {
            assert(s[s.len() - 1].0 == k);
        } else if exists|i: int| 0 <= i < s.len() && s[i].0 == k {
            let i = choose|i: int| 0 <= i < s.len() && s[i].0 == k;
            assert(t[i].0 == k);
        }
    }
}

/// Of several pairs with one key, the last one gives the member's value.
pub proof fn lemma_body_last_wins(s: Seq<(Seq<char>, Seq<char>)>, i: int)
    requires
        0 <= i < s.len(),
        forall|j: int| i < j < s.len() ==> s[j].0 != s[i].0,
    ensures
        body_map(s).contains_key(s[i].0),
        body_map(s)[s[i].0] == s[i].1,
    decreases s.len(),
{
    if i < s.len() - 1 {
        let t = s.drop_last();
        assert(t[i] == s[i]);
        assert forall|j: int| i < j < t.len() implies t[j].0 != t[i].0 by {
            assert(t[j] == s[j]);
        }
        lemma_body_last_wins(t, i);
    }
}

/// Appending a pair inserts it into the object.
proof fn lemma_body_push(s: Seq<(Seq<char>, Seq<char>)>, e: (Seq<char>, Seq<char>))
    ensures
        body_map(s.push(e)) == body_map(s).insert(e.0, e.1),
{
    assert(s.push(e).drop_last() =~= s);
}

/// Where keys are unique, each pair gives its own member.
proof fn lemma_body_unique(s: Seq<(Seq<char>, Seq<char>)>)
    requires
        keys_unique(s),
    ensures
        forall|i: int|
            #![trigger s[i]]
            0 <= i < s.len() ==> (body_map(s).contains_key(s[i].0) && body_map(s)[s[i].0] == s[i].1),
{
    assert forall|i: int|
        #![trigger s[i]]
        0 <= i < s.len() implies (body_map(s).contains_key(s[i].0) && body_map(s)[s[i].0]
            == s[i].1) by {
        lemma_body_last_wins(s, i);
    }
}

/// Replacing the pair that holds a key of a list with unique keys sets that
/// key's member.
proof fn lemma_body_update(s: Seq<(Seq<char>, Seq<char>)>, j: int, e: (Seq<char>, Seq<char>))
    requires
        keys_unique(s),
        0 <= j < s.len(),
        s[j].0 == e.0,
    ensures
        keys_unique(s.update(j, e)),
        body_map(s.update(j, e)) == body_map(s).insert(e.0, e.1),
{
    let s2 = s.update(j, e);
    assert forall|x: int| 0 <= x < s.len() implies #[trigger] s2[x].0 == s[x].0 by {}
    assert(keys_unique(s2)) by {
        assert forall|a: int, b: int| 0 <= a < b < s2.len() implies s2[a].0 != s2[b].0 by {
            assert(s2[a].0 == s[a].0);
            assert(s2[b].0 == s[b].0);
        }
    }
    lemma_body_unique(s);
    lemma_body_unique(s2);
    let m1 = body_map(s2);
    let m2 = body_map(s).insert(e.0, e.1);
    assert forall|k: Seq<char>| m1.contains_key(k) <==> m2.contains_key(k) by {
        lemma_body_keys(s, k);
        lemma_body_keys(s2, k);
        if exists|i: int| 0 <= i < s.len() && s[i].0 == k {
            let i = choose|i: int| 0 <= i < s.len() && s[i].0 == k;
            assert(s2[i].0 == k);
        }
        if exists|i: int| 0 <= i < s2.len() && s2[i].0 == k {
            let i = choose|i: int| 0 <= i < s2.len() && s2[i].0 == k;
            assert(s[i].0 == k);
        }
    }
    assert forall|k: Seq<char>| m1.contains_key(k) implies m1[k] == m2[k] by {
        lemma_body_keys(s2, k);
        let i = choose|i: int| 0 <= i < s2.len() && s2[i].0 == k;
        assert(m1[s2[i].0] == s2[i].1);
        if i != j {
            assert(s2[i] == s[i]);
            assert(body_map(s)[s[i].0] == s[i].1);
        }
    }
    assert(m1 =~= m2);
}

/// The position of the pair with key `k`, if any.
fn find_key(r: &Vec<KvPair>, k: &String) -> (res: Option<usize>)
    ensures
        match res {
            Some(j) => j < r.len() && r@[j as int].k@ == k@,
            None => forall|m: int| 0 <= m < r.len() ==> r@[m].k@ != k@,
        },
{
    let mut j: usize = 0;
    while j < r.len()
        invariant
            j <= r.len(),
            forall|m: int| 0 <= m < j ==> r@[m].k@ != k@,
        decreases r.len() - j,
    {
        if r[j].k == *k {
            return Some(j);
        }
        j = j + 1;
    }
    None
}

/// The members of the JSON object that `pairs` describe: one pair per key,
/// holding the value of the key's last occurrence.
pub fn body_entries(pairs: &Vec<KvPair>) -> (r: Vec<KvPair>)
    ensures
        keys_unique(pair_views(r@)),
        body_map(pair_views(r@)) == body_map(pair_views(pairs@)),
{
    let mut r: Vec<KvPair> = Vec::new();
    let mut i: usize = 0;
    while i < pairs.len()
        invariant
            i <= pairs.len(),
            keys_unique(pair_views(r@)),
            body_map(pair_views(r@)) == body_map(pair_views(pairs@.subrange(0, i as int))),
        decreases pairs.len() - i,
    {
        let p = &pairs[i];
        let e = KvPair { k: p.k.clone(), v: p.v.clone() };
        let ghost old_r = r@;
        proof {
            assert(pair_views(pairs@.subrange(0, i + 1)) =~= pair_views(
                pairs@.subrange(0, i as int),
            ).push(e@));
            lemma_body_push(pair_views(pairs@.subrange(0, i as int)), e@);
        }
        match find_key(&r, &p.k) {
            Some(j) => {
                r.set(j, e);
                proof {
                    assert(pair_views(r@) =~= pair_views(old_r).update(j as int, e@));
                    lemma_body_update(pair_views(old_r), j as int, e@);
                }
            },
            None => {
                r.push(e);
                proof {
                    assert(pair_views(r@) =~= pair_views(old_r).push(e@));
                    lemma_body_push(pair_views(old_r), e@);
                }
            },
        }
        i = i + 1;
    }
    assert(pairs@.subrange(0, pairs.len() as int) =~= pairs@);
    r
}

} // verus!
