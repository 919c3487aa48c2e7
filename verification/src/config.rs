//! The remembered credentials: a map from the key of a target to what was
//! saved for it. An entry, once made, is never replaced.

use vstd::prelude::*;

verus! {

/// The kind of a remembered credential.
#[derive(Clone, Copy, Debug, PartialEq, Eq, Structural)]
pub enum AuthType {
    /// The secret is a sealed password.
    Password,
    /// The secret is the path of a private key file.
    KeyPath,
}

/// A remembered credential.
#[derive(Debug, PartialEq, Eq)]
pub struct AuthData {
    pub auth_type: AuthType,
    /// The sealed password, or the path of the key file.
    pub secret: String,
}

pub struct AuthDataView {
    pub auth_type: AuthType,
    pub secret: Seq<char>,
}

impl View for AuthData {
    type V = AuthDataView;

    open spec fn view(&self) -> AuthDataView {
        AuthDataView { auth_type: self.auth_type, secret: self.secret@ }
    }
}

impl Clone for AuthData {
    fn clone(&self) -> (r: AuthData)
        ensures
            r@ == self@,
    {
        AuthData { auth_type: self.auth_type, secret: self.secret.clone() }
    }
}

/// One remembered credential with the key of its target.
#[derive(Debug, PartialEq, Eq)]
pub struct SavedTarget {
    pub key: String,
    pub data: AuthData,
}

/// The remembered credentials. Where two entries have one key, the first
/// counts; the methods of this type never make such a list.
#[derive(Debug, PartialEq, Eq)]
pub struct Config {
    pub targets: Vec<SavedTarget>,
}

/// What `entries` hold for `key`: the data of the first entry with that key.
pub open spec fn lookup(entries: Seq<SavedTarget>, key: Seq<char>) -> Option<AuthDataView>
    decreases entries.len(),
{
    if entries.len() == 0 {
        None
    } else if entries[0].key@ == key {
        Some(entries[0].data@)
    } else {
        lookup(entries.drop_first(), key)
    }
}

/// The map `m` after the wish to remember `data` for `key`: an entry that is
/// there stays as it is.
pub open spec fn remembered(
    m: Map<Seq<char>, AuthDataView>,
    key: Seq<char>,
    data: AuthDataView,
) -> Map<Seq<char>, AuthDataView> {
    if m.contains_key(key) {
        m
    } else {
        m.insert(key, data)
    }
}

impl View for Config {
    type V = Map<Seq<char>, AuthDataView>;

    open spec fn view(&self) -> Map<Seq<char>, AuthDataView> {
        Map::new(
            |k: Seq<char>| lookup(self.targets@, k) is Some,
            |k: Seq<char>| lookup(self.targets@, k).unwrap(),
        )
    }
}

/// What a list holds after one more entry: what it held, and the new entry
/// for a key that it did not hold.
pub proof fn lemma_lookup_push(entries: Seq<SavedTarget>, e: SavedTarget, key: Seq<char>)
    ensures
        lookup(entries.push(e), key) == match lookup(entries, key) {
            Some(d) => Some(d),
            None => if e.key@ == key {
                Some(e.data@)
            } else {
                None
            },
        },
    decreases entries.len(),
{
    reveal_with_fuel(lookup, 2);
    if entries.len() > 0 {
        assert(entries.push(e).drop_first() =~= entries.drop_first().push(e));
        lemma_lookup_push(entries.drop_first(), e, key);
    }
}

/// A key that is looked up with success is the key of some entry.
pub proof fn lemma_lookup_some(entries: Seq<SavedTarget>, key: Seq<char>)
    ensures
        lookup(entries, key) is Some <==> exists|i: int|
            0 <= i < entries.len() && (#[trigger] entries[i]).key@ == key,
    decreases entries.len(),
{
    if entries.len() > 0 {
        let t = entries.drop_first();
        lemma_lookup_some(t, key);
        if lookup(entries, key) is Some && entries[0].key@ != key {
            let i = choose|i: int| 0 <= i < t.len() && (#[trigger] t[i]).key@ == key;
            assert(entries[i + 1].key@ == key);
        }
        if exists|i: int| 0 <= i < entries.len() && (#[trigger] entries[i]).key@ == key {
            let i = choose|i: int| 0 <= i < entries.len() && (#[trigger] entries[i]).key@ == key;
            if i > 0 {
                assert(t[i - 1].key@ == key);
            }
        }
    }
}

/// To remember twice for one key is to remember once: the second wish
/// changes nothing, and after the first the key is held.
pub proof fn lemma_remember_once(
    m: Map<Seq<char>, AuthDataView>,
    key: Seq<char>,
    first: AuthDataView,
    second: AuthDataView,
)
    ensures
        remembered(m, key, first).contains_key(key),
        remembered(remembered(m, key, first), key, second) == remembered(m, key, first),
        m.contains_key(key) ==> remembered(m, key, first)[key] == m[key],
        forall|k: Seq<char>| #[trigger]
            m.contains_key(k) ==> remembered(m, key, first).contains_key(k) && remembered(
                m,
                key,
                first,
            )[k] == m[k],
{
}

impl Config {
    /// Whether no two entries have one key.
    pub open spec fn distinct_keys(&self) -> bool {
        forall|i: int, j: int|
            0 <= i < j < self.targets@.len() ==> (#[trigger] self.targets@[i]).key@ != (
            #[trigger] self.targets@[j]).key@
    }

    /// The empty configuration.
    pub fn new() -> (r: Config)
        ensures
            r@ == Map::<Seq<char>, AuthDataView>::empty(),
            r.targets@.len() == 0,
            r.distinct_keys(),
    {
        let r = Config { targets: Vec::new() };
        r
    }

    /// What is remembered for `key`.
    pub fn get(&self, key: &str) -> (r: Option<&AuthData>)
        ensures
            match r {
                Some(d) => self@.contains_key(key@) && self@[key@] == d@,
                None => !self@.contains_key(key@),
            },
    {
        let n = self.targets.len();
        let mut i: usize = 0;
        assert(self.targets@.skip(0) =~= self.targets@);
        while i < n
            invariant
                i <= n,
                n == self.targets@.len(),
                lookup(self.targets@, key@) == lookup(self.targets@.skip(i as int), key@),
            decreases n - i,
        {
            assert(self.targets@.skip(i as int).drop_first() =~= self.targets@.skip(i + 1));
            if crate::text::same_text(self.targets[i].key.as_str(), key) {
                return Some(&self.targets[i].data);
            }
            i += 1;
        }
        None
    }

    /// Whether something is remembered for `key`.
    pub fn contains(&self, key: &str) -> (r: bool)
        ensures
            r == self@.contains_key(key@),
    {
        self.get(key).is_some()
    }

    /// How many entries there are.
    pub fn len(&self) -> (r: usize)
        ensures
            r == self.targets@.len(),
    {
        self.targets.len()
    }

    /// Remembers `data` for `key`, unless something is remembered for it
    /// already: then nothing changes. Says whether `data` was stored.
    pub fn remember(&mut self, key: String, data: AuthData) -> (stored: bool)
        ensures
            stored == !old(self)@.contains_key(key@),
            final(self)@ == remembered(old(self)@, key@, data@),
            stored ==> final(self).targets@ == old(self).targets@.push(SavedTarget { key, data }),
            !stored ==> final(self).targets@ == old(self).targets@,
            old(self).distinct_keys() ==> final(self).distinct_keys(),
    {
        if self.contains(key.as_str()) {
            return false;
        }
        let ghost before = self.targets@;
        let ghost entry = SavedTarget { key, data };
        proof {
            lemma_lookup_some(before, key@);
        }
        self.targets.push(SavedTarget { key, data });
        assert(self@ =~= remembered(old(self)@, key@, data@)) by {
            assert forall|k: Seq<char>| #[trigger]
                self@.contains_key(k) == remembered(old(self)@, key@, data@).contains_key(k) by {
                lemma_lookup_push(before, entry, k);
            }
            assert forall|k: Seq<char>| #[trigger] self@.contains_key(k) implies self@[k]
                == remembered(old(self)@, key@, data@)[k] by {
                lemma_lookup_push(before, entry, k);
            }
        }
        true
    }
}

/// The configuration that holds, for each key in `entries`, the data of the
/// first entry with that key.
fn normalized(entries: &Vec<SavedTarget>) -> (r: Config)
    ensures
        r@ == (Config { targets: *entries })@,
        r.distinct_keys(),
{
    let mut out = Config::new();
    let n = entries.len();
    let mut i: usize = 0;
    while i < n
        invariant
            i <= n,
            n == entries@.len(),
            out.distinct_keys(),
            forall|k: Seq<char>| #[trigger]
                lookup(out.targets@, k) == lookup(entries@.take(i as int), k),
        decreases n - i,
    {
        let ghost before = out.targets@;
        let ghost all = entries@;
        let key = entries[i].key.clone();
        let data = entries[i].data.clone();
        let ghost entry = SavedTarget { key, data };
        let stored_now = out.remember(key, data);
        assert forall|k: Seq<char>| #[trigger]
            lookup(out.targets@, k) == lookup(all.take(i + 1), k) by {
            assert(all.take(i + 1) =~= all.take(i as int).push(all[i as int]));
            lemma_lookup_push(all.take(i as int), all[i as int], k);
            if stored_now {
                lemma_lookup_push(before, entry, k);
            }
        }
        i += 1;
    }
    assert(entries@.take(n as int) =~= entries@);
    out
}

/// The configuration to work with, given what storage held: `None` where
/// nothing was stored or what was stored could not be read, which gives the
/// empty configuration. Where two stored entries have one key, the first
/// counts.
pub fn load_config(stored: Option<Vec<SavedTarget>>) -> (r: Config)
    ensures
        r.distinct_keys(),
        match stored {
            None => r@ == Map::<Seq<char>, AuthDataView>::empty(),
            Some(entries) => r@ == (Config { targets: entries })@,
        },
{
    match stored {
        None => Config::new(),
        Some(entries) => normalized(&entries),
    }
}

/// The entries to store for `config`: one for each key that it holds, with
/// what it holds for that key. Loaded again, they give the same map.
pub fn save_config(config: &Config) -> (r: Vec<SavedTarget>)
    ensures
        (Config { targets: r })@ == config@,
        (Config { targets: r }).distinct_keys(),
{
    normalized(&config.targets).targets
}

impl Default for Config {
    fn default() -> (r: Config)
        ensures
            r@ == Map::<Seq<char>, AuthDataView>::empty(),
    {
        Config::new()
    }
}

} // verus!
