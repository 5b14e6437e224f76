//! The environment snapshot: a mapping from variable name to value with
//! unique keys, and the parser that builds it from null-delimited `env -0`
//! output.

use vstd::prelude::*;

use crate::text::{first_idx_of, find_char, lemma_first_idx_of_bounds, spec_split, split_str, str_eq};

verus! {

/// The mapping described by a list of key/value pairs, later entries
/// overriding earlier ones.
pub open spec fn entries_map(s: Seq<(Seq<char>, Seq<char>)>) -> Map<Seq<char>, Seq<char>>
    decreases s.len(),
{
    if s.len() == 0 {
        Map::empty()
    } else {
        entries_map(s.drop_last()).insert(s.last().0, s.last().1)
    }
}

/// Keys are pairwise distinct.
pub open spec fn distinct_keys(s: Seq<(Seq<char>, Seq<char>)>) -> bool {
    forall|a: int, b: int| 0 <= a < b < s.len() ==> s[a].0 != s[b].0
}

proof fn lemma_entries_map_contains(s: Seq<(Seq<char>, Seq<char>)>, k: Seq<char>)
    ensures
        entries_map(s).contains_key(k) <==> exists|a: int| 0 <= a < s.len() && s[a].0 == k,
    decreases s.len(),
{
    if s.len() > 0 {
        let t = s.drop_last();
        lemma_entries_map_contains(t, k);
        if s.last().0 != k && entries_map(s).contains_key(k) {
            let a = choose|a: int| 0 <= a < t.len() && t[a].0 == k;
            assert(s[a].0 == k);
        }
        if exists|a: int| 0 <= a < s.len() && s[a].0 == k {
            let a = choose|a: int| 0 <= a < s.len() && s[a].0 == k;
            if a < s.len() - 1 {
                assert(t[a].0 == k);
            }
        }
    }
}

proof fn lemma_entries_map_at(s: Seq<(Seq<char>, Seq<char>)>, i: int)
    requires
        distinct_keys(s),
        0 <= i < s.len(),
    ensures
        entries_map(s).contains_key(s[i].0),
        entries_map(s)[s[i].0] == s[i].1,
    decreases s.len(),
{
    let t = s.drop_last();
    if i == s.len() - 1 {
        assert(entries_map(s) == entries_map(t).insert(s.last().0, s.last().1));
    } else {
        assert(forall|a: int, b: int| 0 <= a < b < t.len() ==> t[a].0 != t[b].0);
        lemma_entries_map_at(t, i);
        assert(s.last().0 != s[i].0);
    }
}

proof fn lemma_entries_map_dom_len(s: Seq<(Seq<char>, Seq<char>)>)
    requires
        distinct_keys(s),
    ensures
        entries_map(s).dom().len() == s.len(),
        entries_map(s).dom().finite(),
    decreases s.len(),
{
    if s.len() > 0 {
        let t = s.drop_last();
        assert(forall|a: int, b: int| 0 <= a < b < t.len() ==> t[a].0 != t[b].0);
        lemma_entries_map_dom_len(t);
        lemma_entries_map_contains(t, s.last().0);
        assert(forall|a: int| 0 <= a < t.len() ==> t[a].0 == s[a].0);
        assert(!entries_map(t).contains_key(s.last().0));
        assert(entries_map(s).dom() =~= entries_map(t).dom().insert(s.last().0));
        vstd::set::axiom_set_insert_len(entries_map(t).dom(), s.last().0);
    }
}

/// A snapshot of environment variables: unique keys, viewed as a `Map` from
/// name to value.
pub struct EnvMap {
    entries: Vec<(String, String)>,
}

impl View for EnvMap {
    type V = Map<Seq<char>, Seq<char>>;

    closed spec fn view(&self) -> Self::V {
        entries_map(self.entries.deep_view())
    }
}

impl EnvMap {
    /// Keys are pairwise distinct.
    pub closed spec fn wf(&self) -> bool {
        distinct_keys(self.entries.deep_view())
    }

    /// An empty snapshot.
    pub fn new() -> (r: EnvMap)
        ensures
            r@ == Map::<Seq<char>, Seq<char>>::empty(),
            r.wf(),
    {
        let r = EnvMap { entries: Vec::new() };
        proof {
            assert(r.entries.deep_view() =~= Seq::<(Seq<char>, Seq<char>)>::empty());
        }
        r
    }

    /// The number of variables.
    pub fn len(&self) -> (r: usize)
        requires
            self.wf(),
        ensures
            r == self@.dom().len(),
    {
        proof {
            lemma_entries_map_dom_len(self.entries.deep_view());
        }
        self.entries.len()
    }

    /// Insert a variable, replacing any previous value under the same name.
    pub fn insert(&mut self, key: String, value: String)
        requires
            old(self).wf(),
        ensures
            final(self).wf(),
            final(self)@ == old(self)@.insert(key@, value@),
    {
        let n = self.entries.len();
        let ghost s0 = self.entries.deep_view();
        let mut i: usize = 0;
        while i < n
            invariant
                0 <= i <= n,
                n == self.entries@.len(),
                s0 == self.entries.deep_view(),
                distinct_keys(s0),
                entries_map(s0) == old(self)@,
                forall|a: int| 0 <= a < i ==> s0[a].0 != key@,
            decreases n - i,
        {
            if self.entries[i].0 == key {
                self.entries.set(i, (key, value));
                proof {
                    lemma_update_at_key(s0, i as int, self.entries.deep_view()[i as int]);
                    assert(self.entries.deep_view() =~= s0.update(
                        i as int,
                        self.entries.deep_view()[i as int],
                    ));
                }
                return;
            }
            i = i + 1;
        }
        self.entries.push((key, value));
        proof {
            assert(self.entries.deep_view() =~= s0.push((key@, value@)));
            assert(self.entries.deep_view().drop_last() =~= s0);
        }
    }

    /// Look a variable up.
    pub fn get(&self, key: &str) -> (r: Option<&String>)
        requires
            self.wf(),
        ensures
            match r {
                Some(v) => self@.contains_key(key@) && v@ == self@[key@],
                None => !self@.contains_key(key@),
            },
    {
        let n = self.entries.len();
        let mut i: usize = 0;
        while i < n
            invariant
                0 <= i <= n,
                self.wf(),
                n == self.entries@.len(),
                forall|a: int| 0 <= a < i ==> self.entries.deep_view()[a].0 != key@,
            decreases n - i,
        {
            if str_eq(self.entries[i].0.as_str(), key) {
                proof {
                    lemma_entries_map_at(self.entries.deep_view(), i as int);
                }
                return Some(&self.entries[i].1);
            }
            i = i + 1;
        }
        proof {
            lemma_entries_map_contains(self.entries.deep_view(), key@);
        }
        None
    }

    /// The entries, in insertion order.
    pub fn entries(&self) -> (r: &Vec<(String, String)>)
        ensures
            entries_map(r.deep_view()) == self@,
            self.wf() ==> distinct_keys(r.deep_view()),
    {
        &self.entries
    }
}

proof fn lemma_update_at_key(
    s: Seq<(Seq<char>, Seq<char>)>,
    i: int,
    kv: (Seq<char>, Seq<char>),
)
    requires
        distinct_keys(s),
        0 <= i < s.len(),
        s[i].0 == kv.0,
    ensures
        distinct_keys(s.update(i, kv)),
        entries_map(s.update(i, kv)) == entries_map(s).insert(kv.0, kv.1),
    decreases s.len(),
{
    let s2 = s.update(i, kv);
    assert(forall|a: int| 0 <= a < s.len() && a != i ==> s2[a] == s[a]);
    if i == s.len() - 1 {
        assert(s2.drop_last() =~= s.drop_last());
        assert(entries_map(s2) == entries_map(s.drop_last()).insert(kv.0, kv.1));
        assert(entries_map(s).insert(kv.0, kv.1) =~= entries_map(s.drop_last()).insert(
            s.last().0,
            s.last().1,
        ).insert(kv.0, kv.1));
        assert(entries_map(s2) =~= entries_map(s).insert(kv.0, kv.1));
    } else {
        let t = s.drop_last();
        assert(forall|a: int, b: int| 0 <= a < b < t.len() ==> t[a].0 != t[b].0);
        lemma_update_at_key(t, i, kv);
        assert(s2.drop_last() =~= t.update(i, kv));
        assert(s2.last() == s.last());
        assert(entries_map(s2) == entries_map(t).insert(kv.0, kv.1).insert(
            s.last().0,
            s.last().1,
        ));
        // The touched key differs from the final entry's key, so the two
        // inserts commute.
        assert(s.last().0 != kv.0);
        assert(entries_map(t).insert(kv.0, kv.1).insert(s.last().0, s.last().1)
            =~= entries_map(t).insert(s.last().0, s.last().1).insert(kv.0, kv.1));
    }
}

/// The key/value pair an `env -0` entry contributes: the text before the
/// first `=` names the variable, the rest is its value; entries without a
/// `=` or with an empty name are dropped.
pub open spec fn spec_env_pair(entry: Seq<char>) -> Option<(Seq<char>, Seq<char>)> {
    let i = first_idx_of(entry, '=');
    if i >= 1 {
        Some((entry.subrange(0, i), entry.subrange(i + 1, entry.len() as int)))
    } else {
        None
    }
}

/// The mapping described by a sequence of `env -0` entries.
pub open spec fn spec_parse_env(parts: Seq<Seq<char>>) -> Map<Seq<char>, Seq<char>>
    decreases parts.len(),
{
    if parts.len() == 0 {
        Map::empty()
    } else {
        let m = spec_parse_env(parts.drop_last());
        match spec_env_pair(parts.last()) {
            Some(kv) => m.insert(kv.0, kv.1),
            None => m,
        }
    }
}

/// The environment mapping encoded in null-delimited `env -0` output.
pub open spec fn spec_shell_env(text: Seq<char>) -> Map<Seq<char>, Seq<char>> {
    spec_parse_env(spec_split(text, '\0'))
}

/// Parse null-delimited `env -0` output into an environment snapshot.
/// Each entry is split on its first `=`; entries with an empty name are
/// dropped silently.
pub fn parse_shell_env(text: &str) -> (r: EnvMap)
    ensures
        r.wf(),
        r@ == spec_shell_env(text@),
{
    let parts = split_str(text, '\0');
    let mut m = EnvMap::new();
    let n = parts.len();
    let mut i: usize = 0;
    proof {
        assert(parts.deep_view().subrange(0, 0) =~= Seq::<Seq<char>>::empty());
    }
    while i < n
        invariant
            0 <= i <= n,
            n == parts@.len(),
            parts.deep_view() == spec_split(text@, '\0'),
            m.wf(),
            m@ == spec_parse_env(parts.deep_view().subrange(0, i as int)),
        decreases n - i,
    {
        let entry = &parts[i];
        proof {
            let dv = parts.deep_view();
            assert(dv.subrange(0, i + 1).drop_last() =~= dv.subrange(0, i as int));
            assert(dv.subrange(0, i + 1).last() == dv[i as int]);
            lemma_first_idx_of_bounds(entry@, '=');
        }
        match find_char(entry.as_str(), '=') {
            Some(j) if j >= 1 => {
                let el = entry.as_str().unicode_len();
                let key = String::from_str(entry.as_str().substring_char(0, j));
                let value = String::from_str(entry.as_str().substring_char(j + 1, el));
                m.insert(key, value);
            },
            _ => {},
        }
        i = i + 1;
    }
    proof {
        assert(parts.deep_view().subrange(0, n as int) =~= parts.deep_view());
    }
    m
}

} // verus!
