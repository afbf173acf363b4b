//! String-to-string maps as the Slack API returns them (emoji lists, bot
//! icons, echoed arguments).
use vstd::prelude::*;

use crate::json::{FromJson, Json, DecodeError, DecodeFailure, str_eq};

verus! {

/// The view of a list of string pairs: each pair by the text it holds.
pub open spec fn pairs_view(ps: Seq<(String, String)>) -> Seq<(Seq<char>, Seq<char>)> {
    ps.map_values(|p: (String, String)| (p.0@, p.1@))
}

/// The map that a list of pairs denotes: a later pair for a key overrides an
/// earlier one.
pub open spec fn pairs_map(ps: Seq<(Seq<char>, Seq<char>)>) -> Map<Seq<char>, Seq<char>>
    decreases ps.len(),
{
    if ps.len() == 0 {
        Map::empty()
    } else {
        pairs_map(ps.drop_last()).insert(ps.last().0, ps.last().1)
    }
}

/// No two pairs of the list name the same key.
pub open spec fn keys_unique(ps: Seq<(Seq<char>, Seq<char>)>) -> bool {
    forall|i: int, j: int|
        #![trigger ps[i], ps[j]]
        0 <= i < j < ps.len() ==> ps[i].0 != ps[j].0
}

/// The position of the last pair that names `key`, or -1 when none does.
pub open spec fn last_key_index(ps: Seq<(Seq<char>, Seq<char>)>, key: Seq<char>) -> int
    decreases ps.len(),
{
    if ps.len() == 0 {
        -1
    } else if ps.last().0 == key {
        ps.len() - 1
    } else {
        last_key_index(ps.drop_last(), key)
    }
}

/// The list with `key` set to `value`: the last pair that names `key` takes
/// the new value in its place, or the pair is appended when none does.
pub open spec fn pairs_put(ps: Seq<(Seq<char>, Seq<char>)>, key: Seq<char>, value: Seq<char>) -> Seq<
    (Seq<char>, Seq<char>),
> {
    let i = last_key_index(ps, key);
    if i < 0 {
        ps.push((key, value))
    } else {
        ps.update(i, (key, value))
    }
}

/// `last_key_index` gives a pair that names the key, after which no pair
/// does; -1 means that no pair names it.
pub proof fn lemma_last_key_index(ps: Seq<(Seq<char>, Seq<char>)>, key: Seq<char>)
    ensures
        -1 <= last_key_index(ps, key) < ps.len(),
        last_key_index(ps, key) >= 0 ==> ps[last_key_index(ps, key)].0 == key,
        forall|j: int| last_key_index(ps, key) < j < ps.len() ==> #[trigger] ps[j].0 != key,
    decreases ps.len(),
{
    if ps.len() > 0 {
        lemma_last_key_index(ps.drop_last(), key);
        assert forall|j: int| last_key_index(ps, key) < j < ps.len() implies #[trigger] ps[j].0 != key by {
            if j < ps.len() - 1 {
                assert(ps[j] == ps.drop_last()[j]);
            }
        }
    }
}

/// Replacing the value of the last pair that names a key maps that key to the
/// new value and leaves the other keys as they were.
proof fn lemma_pairs_map_update(ps: Seq<(Seq<char>, Seq<char>)>, i: int, key: Seq<char>, value: Seq<char>)
    requires
        0 <= i < ps.len(),
        ps[i].0 == key,
        forall|j: int| i < j < ps.len() ==> #[trigger] ps[j].0 != key,
    ensures
        pairs_map(ps.update(i, (key, value))) == pairs_map(ps).insert(key, value),
    decreases ps.len(),
{
    let qs = ps.update(i, (key, value));
    if i == ps.len() - 1 {
        assert(qs.drop_last() =~= ps.drop_last());
        assert(pairs_map(qs) =~= pairs_map(ps).insert(key, value));
    } else {
        let init = ps.drop_last();
        assert(init[i].0 == key);
        assert forall|j: int| i < j < init.len() implies #[trigger] init[j].0 != key by {
            assert(init[j] == ps[j]);
        }
        lemma_pairs_map_update(init, i, key, value);
        assert(qs.drop_last() =~= init.update(i, (key, value)));
        assert(ps.last().0 != key);
        assert(pairs_map(qs) =~= pairs_map(ps).insert(key, value));
    }
}

/// Setting a key in a list of pairs sets it in the map the list denotes, and
/// keeps the keys of the list distinct if they were.
pub proof fn lemma_pairs_put(ps: Seq<(Seq<char>, Seq<char>)>, key: Seq<char>, value: Seq<char>)
    ensures
        pairs_map(pairs_put(ps, key, value)) == pairs_map(ps).insert(key, value),
        keys_unique(ps) ==> keys_unique(pairs_put(ps, key, value)),
{
    lemma_last_key_index(ps, key);
    let i = last_key_index(ps, key);
    let qs = pairs_put(ps, key, value);
    if i < 0 {
        assert(qs.drop_last() =~= ps);
        if keys_unique(ps) {
            assert forall|a: int, b: int| 0 <= a < b < qs.len() implies #[trigger] qs[a].0 != #[trigger] qs[b].0 by {
                if b == ps.len() {
                    assert(ps[a].0 != key);
                } else {
                    assert(ps[a].0 != ps[b].0);
                }
            }
        }
    } else {
        lemma_pairs_map_update(ps, i, key, value);
        if keys_unique(ps) {
            assert forall|a: int, b: int| 0 <= a < b < qs.len() implies #[trigger] qs[a].0 != #[trigger] qs[b].0 by {
                assert(ps[a].0 != ps[b].0);
            }
        }
    }
}

/// The list that setting each pair of `ps` in turn into `acc` leaves: the
/// last pair of `ps` that names a key gives its value.
pub open spec fn pairs_put_each(acc: Seq<(Seq<char>, Seq<char>)>, ps: Seq<(Seq<char>, Seq<char>)>) -> Seq<
    (Seq<char>, Seq<char>),
>
    decreases ps.len(),
{
    if ps.len() == 0 {
        acc
    } else {
        pairs_put(pairs_put_each(acc, ps.drop_last()), ps.last().0, ps.last().1)
    }
}

/// Setting the pairs of a list one by one into `acc` denotes the same map as
/// `acc` followed by the list, and adds no key twice.
pub proof fn lemma_pairs_put_each(acc: Seq<(Seq<char>, Seq<char>)>, ps: Seq<(Seq<char>, Seq<char>)>)
    ensures
        pairs_map(pairs_put_each(acc, ps)) == pairs_map(acc + ps),
        keys_unique(acc) ==> keys_unique(pairs_put_each(acc, ps)),
    decreases ps.len(),
{
    if ps.len() == 0 {
        assert(acc + ps =~= acc);
    } else {
        lemma_pairs_put_each(acc, ps.drop_last());
        lemma_pairs_put(pairs_put_each(acc, ps.drop_last()), ps.last().0, ps.last().1);
        assert((acc + ps).drop_last() =~= acc + ps.drop_last());
        assert((acc + ps).last() == ps.last());
    }
}

/// Sets `key` to `value` in a list of pairs: the last pair that names `key`
/// takes the new value, or the pair is appended when none does.
pub fn put_pair(params: &mut Vec<(String, String)>, key: String, value: String)
    ensures
        pairs_view(final(params)@) == pairs_put(pairs_view(old(params)@), key@, value@),
{
    let ghost ps = pairs_view(params@);
    let mut i: usize = params.len();
    while i > 0
        invariant
            i <= params@.len(),
            ps == pairs_view(params@),
            ps == pairs_view(old(params)@),
            forall|k: int| i <= k < ps.len() ==> #[trigger] ps[k].0 != key@,
        decreases i,
    {
        let idx = i - 1;
        if str_eq(params[idx].0.as_str(), key.as_str()) {
            proof {
                lemma_last_key_index(ps, key@);
                assert(ps[idx as int].0 == key@);
                assert(last_key_index(ps, key@) == idx);
            }
            let ghost kv = key@;
            let ghost vv = value@;
            params.set(idx, (key, value));
            assert(pairs_view(params@) =~= ps.update(idx as int, (kv, vv)));
            return;
        }
        i = idx;
    }
    proof {
        lemma_last_key_index(ps, key@);
        lemma_pairs_view_push(params@, (key, value));
    }
    params.push((key, value));
}

/// Appending a pair to a list appends its view to the list's view.
pub proof fn lemma_pairs_view_push(ps: Seq<(String, String)>, p: (String, String))
    ensures
        pairs_view(ps.push(p)) == pairs_view(ps).push((p.0@, p.1@)),
{
    assert(pairs_view(ps.push(p)) =~= pairs_view(ps).push((p.0@, p.1@)));
}

/// A key that no pair at or after position `i` names stands in the map of
/// the whole list as it stands in the map of the first `i` pairs.
proof fn lemma_pairs_map_suffix_free(ps: Seq<(Seq<char>, Seq<char>)>, key: Seq<char>, i: int)
    requires
        0 <= i <= ps.len(),
        forall|k: int| i <= k < ps.len() ==> ps[k].0 != key,
    ensures
        pairs_map(ps).contains_key(key) == pairs_map(ps.take(i)).contains_key(key),
        pairs_map(ps).contains_key(key) ==> pairs_map(ps)[key] == pairs_map(ps.take(i))[key],
    decreases ps.len(),
{
    if ps.len() == i {
        assert(ps.take(i) =~= ps);
    } else {
        let ps2 = ps.drop_last();
        assert(ps2.take(i) =~= ps.take(i));
        lemma_pairs_map_suffix_free(ps2, key, i);
    }
}

/// A list of pairs maps a key exactly when some pair names it, and then to
/// the value of the last pair that does.
pub proof fn lemma_pairs_map_lookup(ps: Seq<(Seq<char>, Seq<char>)>, key: Seq<char>)
    ensures
        pairs_map(ps).contains_key(key) <==> exists|i: int| 0 <= i < ps.len() && #[trigger] ps[i].0 == key,
        pairs_map(ps).contains_key(key) ==> exists|i: int|
            {
                &&& 0 <= i < ps.len()
                &&& #[trigger] ps[i].0 == key
                &&& pairs_map(ps)[key] == ps[i].1
                &&& forall|k: int| i < k < ps.len() ==> ps[k].0 != key
            },
    decreases ps.len(),
{
    if ps.len() > 0 {
        let init = ps.drop_last();
        lemma_pairs_map_lookup(init, key);
        let n = ps.len() - 1;
        assert(pairs_map(ps) == pairs_map(init).insert(ps[n].0, ps[n].1));
        if ps[n].0 == key {
            assert(pairs_map(ps)[key] == ps[n].1);
            assert(ps[n].0 == key);
        } else {
            if pairs_map(init).contains_key(key) {
                let i = choose|i: int|
                    {
                        &&& 0 <= i < init.len()
                        &&& #[trigger] init[i].0 == key
                        &&& pairs_map(init)[key] == init[i].1
                        &&& forall|k: int| i < k < init.len() ==> init[k].0 != key
                    };
                assert(ps[i].0 == key);
                assert(pairs_map(ps)[key] == ps[i].1);
                assert(forall|k: int| i < k < ps.len() ==> ps[k].0 != key) by {
                    assert forall|k: int| i < k < ps.len() implies ps[k].0 != key by {
                        if k < n {
                            assert(init[k] == ps[k]);
                        }
                    }
                }
            }
            if exists|i: int| 0 <= i < ps.len() && #[trigger] ps[i].0 == key {
                let i = choose|i: int| 0 <= i < ps.len() && #[trigger] ps[i].0 == key;
                assert(init[i].0 == key);
            }
        }
    }
}

/// The map of a list of pairs is finite, and has one key per pair when no
/// key is named twice.
pub proof fn lemma_unique_pairs_map_len(ps: Seq<(Seq<char>, Seq<char>)>)
    ensures
        pairs_map(ps).dom().finite(),
        keys_unique(ps) ==> pairs_map(ps).len() == ps.len(),
    decreases ps.len(),
{
    if ps.len() > 0 {
        let init = ps.drop_last();
        lemma_unique_pairs_map_len(init);
        if keys_unique(ps) {
            assert(keys_unique(init)) by {
                assert forall|a: int, b: int| 0 <= a < b < init.len() implies #[trigger] init[a].0 != #[trigger] init[b].0 by {
                    assert(ps[a].0 != ps[b].0);
                }
            }
            lemma_pairs_map_lookup(init, ps.last().0);
            if pairs_map(init).contains_key(ps.last().0) {
                let i = choose|i: int| 0 <= i < init.len() && #[trigger] init[i].0 == ps.last().0;
                assert(ps[i].0 != ps[ps.len() - 1].0);
            }
            assert(pairs_map(ps).dom() =~= pairs_map(init).dom().insert(ps.last().0));
        }
        assert(pairs_map(ps).dom() =~= pairs_map(init).dom().insert(ps.last().0));
    }
}

/// A map from strings to strings, kept as the list of its pairs; `insert`
/// and reading from JSON keep one pair per key.
#[derive(Clone, Debug)]
pub struct StringMap {
    pub entries: Vec<(String, String)>,
}

impl View for StringMap {
    type V = Map<Seq<char>, Seq<char>>;

    open spec fn view(&self) -> Map<Seq<char>, Seq<char>> {
        pairs_map(pairs_view(self.entries@))
    }
}

impl StringMap {
    /// The empty map.
    pub fn new() -> (m: StringMap)
        ensures
            m@ == Map::<Seq<char>, Seq<char>>::empty(),
            m.entries@.len() == 0,
            keys_unique(pairs_view(m.entries@)),
    {
        StringMap { entries: Vec::new() }
    }

    /// Maps `key` to `value`, replacing what `key` mapped to before: the pair
    /// that held `key` takes the new value in its place, else the pair is
    /// appended.
    pub fn insert(&mut self, key: String, value: String)
        ensures
            final(self)@ == old(self)@.insert(key@, value@),
            pairs_view(final(self).entries@) == pairs_put(pairs_view(old(self).entries@), key@, value@),
            keys_unique(pairs_view(old(self).entries@)) ==> keys_unique(pairs_view(final(self).entries@)),
    {
        proof {
            lemma_pairs_put(pairs_view(self.entries@), key@, value@);
        }
        put_pair(&mut self.entries, key, value);
    }

    /// The value that `key` maps to.
    pub fn get(&self, key: &str) -> (r: Option<&String>)
        ensures
            r is Some <==> self@.contains_key(key@),
            r matches Some(v) ==> v@ == self@[key@],
    {
        let ghost ps = pairs_view(self.entries@);
        let mut i: usize = self.entries.len();
        while i > 0
            invariant
                i <= self.entries@.len(),
                ps == pairs_view(self.entries@),
                forall|k: int| i <= k < ps.len() ==> ps[k].0 != key@,
            decreases i,
        {
            let idx = i - 1;
            if str_eq(self.entries[idx].0.as_str(), key) {
                proof {
                    lemma_pairs_map_suffix_free(ps, key@, idx + 1);
                    assert(ps.take(idx + 1).drop_last() =~= ps.take(idx as int));
                }
                return Some(&self.entries[idx].1);
            }
            i = idx;
        }
        proof {
            lemma_pairs_map_suffix_free(ps, key@, 0);
            assert(ps.take(0) =~= Seq::<(Seq<char>, Seq<char>)>::empty());
        }
        None
    }

    /// The number of pairs kept: the number of keys mapped, since `insert`
    /// and reading from JSON keep one pair per key.
    pub fn len(&self) -> (n: usize)
        ensures
            n == self.entries@.len(),
            keys_unique(pairs_view(self.entries@)) ==> n == self@.len(),
    {
        proof {
            lemma_unique_pairs_map_len(pairs_view(self.entries@));
        }
        self.entries.len()
    }
}

/// The name and text of each member of a JSON object (a member that is not
/// text counts as empty).
pub open spec fn text_members(fields: Seq<(String, Json)>) -> Seq<(Seq<char>, Seq<char>)> {
    fields.map_values(
        |f: (String, Json)|
            (
                f.0@,
                match f.1 {
                    Json::Str(t) => t@,
                    _ => Seq::empty(),
                },
            ),
    )
}

impl FromJson for StringMap {
    /// A map is read out of an object whose members are all text: one pair
    /// per member name, with the text of the last member of that name.
    open spec fn decoded_from(&self, j: Json) -> bool {
        &&& j matches Json::Object(fields)
        &&& forall|i: int| 0 <= i < fields@.len() ==> #[trigger] fields@[i].1 is Str
        &&& pairs_view(self.entries@) == pairs_put_each(Seq::empty(), text_members(fields@))
    }

    open spec fn failure(j: Json) -> DecodeFailure {
        DecodeFailure::Malformed
    }

    fn from_json(j: &Json) -> (r: Result<Self, DecodeError>) {
        match j {
            Json::Object(fields) => {
                let ghost ms = text_members(fields@);
                let mut entries: Vec<(String, String)> = Vec::new();
                assert(pairs_view(entries@) =~= pairs_put_each(Seq::empty(), ms.take(0)));
                let mut i: usize = 0;
                while i < fields.len()
                    invariant
                        i <= fields.len(),
                        *j == Json::Object(*fields),
                        ms == text_members(fields@),
                        forall|k: int| 0 <= k < i ==> #[trigger] fields@[k].1 is Str,
                        pairs_view(entries@) == pairs_put_each(Seq::empty(), ms.take(i as int)),
                    decreases fields.len() - i,
                {
                    match &fields[i].1 {
                        Json::Str(t) => {
                            proof {
                                assert(ms.take(i + 1).drop_last() =~= ms.take(i as int));
                                assert(ms.take(i + 1).last() == (fields@[i as int].0@, t@));
                            }
                            put_pair(&mut entries, fields[i].0.clone(), t.clone());
                        },
                        _ => {
                            assert forall|m: StringMap| !m.decoded_from(*j) by {
                                if m.decoded_from(*j) {
                                    assert(fields@[i as int].1 is Str);
                                }
                            }
                            return Err(DecodeError::Malformed);
                        },
                    }
                    i = i + 1;
                }
                assert(ms.take(fields@.len() as int) =~= ms);
                Ok(StringMap { entries })
            },
            _ => Err(DecodeError::Malformed),
        }
    }
}

} // verus!
