//! Environment files read as key/value mappings, and the comparison of two
//! mappings by their keys.
use vstd::prelude::*;
use crate::text::{find_char, first_index, lines, same_text, split_lines, trim, trim_str};

verus! {

/// The entry that line `l` of an environment file gives: blank lines,
/// comments and lines without `=` give none; otherwise the key is what
/// stands before the first `=` and the value what follows, both trimmed.
pub open spec fn line_entry(l: Seq<char>) -> Option<(Seq<char>, Seq<char>)> {
    let t = trim(l);
    let i = first_index(t, '=');
    if t.len() == 0 || t[0] == '#' || i == t.len() {
        None
    } else {
        Some((trim(t.take(i)), trim(t.skip(i + 1))))
    }
}

/// The keys of `entries`, in order.
pub open spec fn keys_of(entries: Seq<(Seq<char>, Seq<char>)>) -> Seq<Seq<char>> {
    entries.map_values(|e: (Seq<char>, Seq<char>)| e.0)
}

/// Where the key `k` stands in `entries`, or `entries.len()`.
pub open spec fn key_index(entries: Seq<(Seq<char>, Seq<char>)>, k: Seq<char>) -> int
    decreases entries.len(),
{
    if entries.len() == 0 {
        0
    } else if entries[0].0 == k {
        0
    } else {
        1 + key_index(entries.drop_first(), k)
    }
}

/// `entries` with the value of `k` set to `v`: in place where `k` is
/// present, at the end otherwise.
pub open spec fn upsert(entries: Seq<(Seq<char>, Seq<char>)>, k: Seq<char>, v: Seq<char>) -> Seq<
    (Seq<char>, Seq<char>),
> {
    let i = key_index(entries, k);
    if i < entries.len() {
        entries.update(i, (k, v))
    } else {
        entries.push((k, v))
    }
}

/// The mapping that the lines `ls` give, a later line winning over an
/// earlier one with the same key.
pub open spec fn entries_of(ls: Seq<Seq<char>>) -> Seq<(Seq<char>, Seq<char>)>
    decreases ls.len(),
{
    if ls.len() == 0 {
        seq![]
    } else {
        let before = entries_of(ls.drop_last());
        match line_entry(ls.last()) {
            Some(e) => upsert(before, e.0, e.1),
            None => before,
        }
    }
}

/// The mapping that the environment file `content` gives.
pub open spec fn dotenv(content: Seq<char>) -> Seq<(Seq<char>, Seq<char>)> {
    entries_of(lines(content))
}

/// The keys of `left` that `right` lacks, in the order of `left`.
pub open spec fn missing_keys(
    left: Seq<(Seq<char>, Seq<char>)>,
    right: Seq<(Seq<char>, Seq<char>)>,
) -> Seq<Seq<char>> {
    keys_of(left).filter(|k: Seq<char>| !keys_of(right).contains(k))
}

/// `None` for an empty list, the list otherwise.
pub open spec fn non_empty(keys: Seq<Seq<char>>) -> Option<Seq<Seq<char>>> {
    if keys.len() == 0 {
        None
    } else {
        Some(keys)
    }
}

/// The value of an optional list of strings.
pub open spec fn opt_view(o: Option<Vec<String>>) -> Option<Seq<Seq<char>>> {
    match o {
        Some(v) => Some(v@.map_values(|s: String| s@)),
        None => None,
    }
}

/// A mapping from keys to values, in the order the keys first appeared;
/// each key appears once.
#[derive(Debug)]
pub struct Configuration {
    entries: Vec<(String, String)>,
}

impl View for Configuration {
    type V = Seq<(Seq<char>, Seq<char>)>;

    closed spec fn view(&self) -> Seq<(Seq<char>, Seq<char>)> {
        entries_view(self.entries@)
    }
}

/// The value of a list of entries.
pub open spec fn entries_view(v: Seq<(String, String)>) -> Seq<(Seq<char>, Seq<char>)> {
    v.map_values(|e: (String, String)| (e.0@, e.1@))
}

/// Where `key` stands in `entries`, or `entries.len()`.
fn position_in(entries: &Vec<(String, String)>, key: &str) -> (r: usize)
    ensures
        r == key_index(entries_view(entries@), key@),
        r <= entries.len(),
{
    let ghost all = entries_view(entries@);
    let mut i: usize = 0;
    assert(all.skip(0) =~= all);
    while i < entries.len()
        invariant
            all == entries_view(entries@),
            i <= entries.len() == all.len(),
            key_index(all, key@) == i + key_index(all.skip(i as int), key@),
        decreases entries.len() - i,
    {
        let ghost rest = all.skip(i as int);
        assert(rest[0] == all[i as int]);
        if same_text(entries[i].0.as_str(), key) {
            return i;
        }
        assert(rest.drop_first() =~= all.skip(i + 1));
        i = i + 1;
    }
    assert(all.skip(i as int) =~= Seq::<(Seq<char>, Seq<char>)>::empty());
    i
}

/// Sets the value of `key` to `value`: in place where `key` is present, as
/// a new last entry otherwise.
fn upsert_entry(entries: &mut Vec<(String, String)>, key: String, value: String)
    ensures
        entries_view(final(entries)@) == upsert(entries_view(old(entries)@), key@, value@),
{
    let i = position_in(entries, key.as_str());
    if i < entries.len() {
        entries[i] = (key, value);
    } else {
        entries.push((key, value));
    }
    assert(entries_view(entries@) =~= upsert(entries_view(old(entries)@), key@, value@));
}

impl Configuration {
    /// Each key appears once.
    #[verifier::type_invariant]
    spec fn inv(self) -> bool {
        keys_of(self@).no_duplicates()
    }

    /// The number of keys.
    pub fn len(&self) -> (r: usize)
        ensures
            r == self@.len(),
    {
        self.entries.len()
    }

    /// The value of `key`, where it is present.
    pub fn get(&self, key: &str) -> (r: Option<&String>)
        ensures
            key_index(self@, key@) < self@.len() ==> r is Some && r->Some_0@ == self@[key_index(
                self@,
                key@,
            )].1,
            key_index(self@, key@) == self@.len() ==> r is None,
    {
        let i = position_in(&self.entries, key);
        if i < self.entries.len() {
            Some(&self.entries[i].1)
        } else {
            None
        }
    }

    /// The keys, in order.
    pub fn keys(&self) -> (r: Vec<String>)
        ensures
            r@.map_values(|s: String| s@) == keys_of(self@),
    {
        let mut r: Vec<String> = Vec::new();
        for i in 0..self.entries.len()
            invariant
                r@.map_values(|s: String| s@) == keys_of(self@.take(i as int)),
        {
            let ghost before = r@.map_values(|s: String| s@);
            let k = self.entries[i].0.clone();
            r.push(k);
            assert(r@.map_values(|s: String| s@) =~= before.push(self@[i as int].0));
            assert(keys_of(self@.take(i + 1)) =~= keys_of(self@.take(i as int)).push(
                self@[i as int].0,
            ));
        }
        assert(self@.take(self@.len() as int) =~= self@);
        r
    }
}

/// The entry that line `l` gives, as `line_entry` states it.
fn parse_line(l: &str) -> (r: Option<(String, String)>)
    ensures
        match r {
            Some(e) => line_entry(l@) == Some((e.0@, e.1@)),
            None => line_entry(l@) is None,
        },
{
    let t = trim_str(l);
    let n = t.unicode_len();
    if n == 0 {
        return None;
    }
    if t.get_char(0) == '#' {
        return None;
    }
    let i = find_char(t, '=');
    if i == n {
        return None;
    }
    let key = trim_str(t.substring_char(0, i));
    let value = trim_str(t.substring_char(i + 1, n));
    assert(t@.take(i as int) =~= t@.subrange(0, i as int));
    assert(t@.skip(i + 1) =~= t@.subrange(i + 1, n as int));
    Some((String::from_str(key), String::from_str(value)))
}

proof fn lemma_key_index_hit(entries: Seq<(Seq<char>, Seq<char>)>, k: Seq<char>)
    ensures
        key_index(entries, k) < entries.len() ==> entries[key_index(entries, k)].0 == k,
    decreases entries.len(),
{
    lemma_key_index_contains(entries, k);
    if entries.len() > 0 && entries[0].0 != k {
        let rest = entries.drop_first();
        lemma_key_index_hit(rest, k);
        lemma_key_index_contains(rest, k);
        if key_index(rest, k) < rest.len() {
            assert(entries[key_index(entries, k)] == rest[key_index(rest, k)]);
        }
    }
}

proof fn lemma_upsert_unique(entries: Seq<(Seq<char>, Seq<char>)>, k: Seq<char>, v: Seq<char>)
    requires
        keys_of(entries).no_duplicates(),
    ensures
        keys_of(upsert(entries, k, v)).no_duplicates(),
{
    lemma_key_index_hit(entries, k);
    lemma_key_index_contains(entries, k);
    let i = key_index(entries, k);
    if i < entries.len() {
        assert(keys_of(upsert(entries, k, v)) =~= keys_of(entries));
    } else {
        assert(keys_of(upsert(entries, k, v)) =~= keys_of(entries).push(k));
    }
}

/// A part of a list without duplicates has none either.
proof fn lemma_filter_unique(s: Seq<Seq<char>>, p: spec_fn(Seq<char>) -> bool)
    requires
        s.no_duplicates(),
    ensures
        s.filter(p).no_duplicates(),
    decreases s.len(),
{
    reveal(Seq::filter);
    if s.len() > 0 {
        let init = s.drop_last();
        assert forall|i: int, j: int| 0 <= i < init.len() && 0 <= j < init.len() && i != j implies init[i]
            != init[j] by {
            assert(init[i] == s[i] && init[j] == s[j]);
        }
        lemma_filter_unique(init, p);
        if p(s.last()) {
            let f = init.filter(p);
            if f.contains(s.last()) {
                init.lemma_filter_contains_rev(p, s.last());
                let k = choose|k: int| 0 <= k < init.len() && init[k] == s.last();
                assert(s[k] == s[s.len() - 1]);
            }
            let g = f.push(s.last());
            assert forall|i: int, j: int| 0 <= i < g.len() && 0 <= j < g.len() && i != j implies g[i]
                != g[j] by {
                if i == f.len() {
                    assert(f[j] == g[j]);
                } else if j == f.len() {
                    assert(f[i] == g[i]);
                }
            }
        }
    }
}

/// Each key of the mapping that lines give appears once.
pub proof fn lemma_entries_unique(ls: Seq<Seq<char>>)
    ensures
        keys_of(entries_of(ls)).no_duplicates(),
    decreases ls.len(),
{
    if ls.len() > 0 {
        lemma_entries_unique(ls.drop_last());
        match line_entry(ls.last()) {
            Some(e) => lemma_upsert_unique(entries_of(ls.drop_last()), e.0, e.1),
            None => {},
        }
    } else {
        assert(keys_of(entries_of(ls)) =~= Seq::<Seq<char>>::empty());
    }
}

/// Reads the environment file `content` as a mapping: one entry per line
/// `KEY=VALUE`, both sides trimmed; blank lines, lines starting with `#`
/// and lines without `=` are skipped; a later line wins over an earlier one
/// with the same key, which keeps its place.
pub fn parse(content: &str) -> (r: Configuration)
    ensures
        r@ == dotenv(content@),
        keys_of(r@).no_duplicates(),
{
    proof {
        lemma_entries_unique(lines(content@));
    }
    let ls = split_lines(content);
    let ghost all = ls@.map_values(|l: &str| l@);
    let mut entries: Vec<(String, String)> = Vec::new();
    assert(all.take(0) =~= Seq::<Seq<char>>::empty());
    assert(entries_view(entries@) =~= Seq::<(Seq<char>, Seq<char>)>::empty());
    for i in 0..ls.len()
        invariant
            all == ls@.map_values(|l: &str| l@),
            all == lines(content@),
            entries_view(entries@) == entries_of(all.take(i as int)),
    {
        assert(all.take(i + 1).drop_last() =~= all.take(i as int));
        assert(all.take(i + 1).last() == ls@[i as int]@);
        match parse_line(ls[i]) {
            Some(e) => upsert_entry(&mut entries, e.0, e.1),
            None => {},
        }
    }
    assert(all.take(ls.len() as int) =~= all);
    Configuration { entries }
}

proof fn lemma_key_index_contains(entries: Seq<(Seq<char>, Seq<char>)>, k: Seq<char>)
    ensures
        0 <= key_index(entries, k) <= entries.len(),
        key_index(entries, k) < entries.len() <==> keys_of(entries).contains(k),
    decreases entries.len(),
{
    if entries.len() > 0 {
        let rest = entries.drop_first();
        lemma_key_index_contains(rest, k);
        assert(keys_of(entries) =~= seq![entries[0].0] + keys_of(rest));
        if keys_of(rest).contains(k) {
            let j = choose|j: int| 0 <= j < keys_of(rest).len() && keys_of(rest)[j] == k;
            assert(keys_of(entries)[j + 1] == k);
        }
        if entries[0].0 != k && keys_of(entries).contains(k) {
            let j = choose|j: int| 0 <= j < keys_of(entries).len() && keys_of(entries)[j] == k;
            assert(j > 0);
            assert(keys_of(rest)[j - 1] == k);
        }
        if entries[0].0 == k {
            assert(keys_of(entries)[0] == k);
        }
    }
}

/// The keys of `left` that `right` lacks, in the order of `left`.
fn keys_missing_from(left: &Configuration, right: &Configuration) -> (r: Vec<String>)
    ensures
        r@.map_values(|s: String| s@) == missing_keys(left@, right@),
        missing_keys(left@, right@).no_duplicates(),
{
    proof {
        use_type_invariant(left);
        lemma_filter_unique(keys_of(left@), |k: Seq<char>| !keys_of(right@).contains(k));
    }
    let mut r: Vec<String> = Vec::new();
    let ghost pred = |k: Seq<char>| !keys_of(right@).contains(k);
    for i in 0..left.entries.len()
        invariant
            pred == (|k: Seq<char>| !keys_of(right@).contains(k)),
            r@.map_values(|s: String| s@) == keys_of(left@.take(i as int)).filter(pred),
    {
        let ghost before = r@.map_values(|s: String| s@);
        let k = &left.entries[i].0;
        proof {
            lemma_key_index_contains(right@, k@);
        }
        let ghost ks = keys_of(left@.take(i + 1));
        assert(ks.drop_last() =~= keys_of(left@.take(i as int)));
        assert(ks.last() == k@);
        reveal(Seq::filter);
        assert(ks.filter(pred) == if pred(ks.last()) {
            ks.drop_last().filter(pred).push(ks.last())
        } else {
            ks.drop_last().filter(pred)
        });
        if position_in(&right.entries, k.as_str()) == right.len() {
            assert(pred(k@));
            r.push(k.clone());
            assert(r@.map_values(|s: String| s@) =~= before.push(k@));
        } else {
            assert(!pred(k@));
        }
    }
    assert(left@.take(left@.len() as int) =~= left@);
    r
}

/// The keys that appear in `config_left` but not in `config_right` (the
/// missing ones) and those that appear in `config_right` but not in
/// `config_left` (the extra ones), each in the order of its own mapping;
/// `None` in place of an empty list. Neither list repeats a key.
pub fn compare(config_left: &Configuration, config_right: &Configuration) -> (r: (
    Option<Vec<String>>,
    Option<Vec<String>>,
))
    ensures
        opt_view(r.0) == non_empty(missing_keys(config_left@, config_right@)),
        opt_view(r.1) == non_empty(missing_keys(config_right@, config_left@)),
        missing_keys(config_left@, config_right@).no_duplicates(),
        missing_keys(config_right@, config_left@).no_duplicates(),
{
    let missing = keys_missing_from(config_left, config_right);
    let extra = keys_missing_from(config_right, config_left);
    (
        if missing.len() == 0 {
            None
        } else {
            Some(missing)
        },
        if extra.len() == 0 {
            None
        } else {
            Some(extra)
        },
    )
}

} // verus!
