//! Runtime configuration given as `key=value` entries and exposed to a
//! component as a key to value mapping.
use vstd::prelude::*;

verus! {

/// `i` is the position of the first `=` in `s`.
pub open spec fn is_first_separator(s: Seq<char>, i: int) -> bool {
    &&& 0 <= i < s.len()
    &&& s[i] == '='
    &&& forall|j: int| 0 <= j < i ==> s[j] != '='
}

/// `s` holds at least one `=`.
pub open spec fn has_separator(s: Seq<char>) -> bool {
    exists|i: int| 0 <= i < s.len() && s[i] == '='
}

pub open spec fn separator_of(s: Seq<char>) -> int {
    choose|i: int| is_first_separator(s, i)
}

/// The text before the first `=`.
pub open spec fn key_of(s: Seq<char>) -> Seq<char> {
    s.take(separator_of(s))
}

/// The text after the first `=`.
pub open spec fn value_of(s: Seq<char>) -> Seq<char> {
    s.skip(separator_of(s) + 1)
}

/// The mapping that a list of entries denotes: each entry sets its key,
/// a later entry overriding an earlier one with the same key.
pub open spec fn config_model(entries: Seq<Seq<char>>) -> Map<Seq<char>, Seq<char>>
    decreases entries.len(),
{
    if entries.len() == 0 {
        Map::empty()
    } else {
        let e = entries.last();
        config_model(entries.drop_last()).insert(key_of(e), value_of(e))
    }
}

/// The mapping that a list of parsed pairs denotes, later pairs winning.
pub open spec fn pairs_model(p: Seq<(String, String)>) -> Map<Seq<char>, Seq<char>>
    decreases p.len(),
{
    if p.len() == 0 {
        Map::empty()
    } else {
        pairs_model(p.drop_last()).insert(p.last().0@, p.last().1@)
    }
}

pub open spec fn entry_views(entries: Seq<String>) -> Seq<Seq<char>> {
    entries.map_values(|s: String| s@)
}

/// Why a list of runtime configuration entries was refused.
#[derive(Debug, Clone, Copy, PartialEq, Eq, Structural)]
pub enum RuntimeConfigError {
    /// The entry at this position has no `=`.
    MissingSeparator(usize),
}

/// A parsed runtime configuration: a snapshot mapping keys to values.
pub struct RuntimeConfig {
    pairs: Vec<(String, String)>,
}

impl View for RuntimeConfig {
    type V = Map<Seq<char>, Seq<char>>;

    closed spec fn view(&self) -> Map<Seq<char>, Seq<char>> {
        pairs_model(self.pairs@)
    }
}

proof fn lemma_first_separator_unique(s: Seq<char>, i: int)
    requires
        is_first_separator(s, i),
    ensures
        separator_of(s) == i,
        key_of(s) == s.take(i),
        value_of(s) == s.skip(i + 1),
{
    let k = separator_of(s);
    assert(is_first_separator(s, k));
    if k < i {
        assert(s[k] != '=');
    } else if i < k {
        assert(s[i] != '=');
    }
}

proof fn lemma_pairs_model_last(p: Seq<(String, String)>, k: Seq<char>, i: int)
    requires
        0 <= i < p.len(),
        p[i].0@ == k,
        forall|j: int| i < j < p.len() ==> p[j].0@ != k,
    ensures
        pairs_model(p).contains_key(k),
        pairs_model(p)[k] == p[i].1@,
    decreases p.len(),
{
    if i < p.len() - 1 {
        assert(p.last().0@ != k);
        lemma_pairs_model_last(p.drop_last(), k, i);
    }
}

proof fn lemma_pairs_model_absent(p: Seq<(String, String)>, k: Seq<char>)
    requires
        forall|j: int| 0 <= j < p.len() ==> p[j].0@ != k,
    ensures
        !pairs_model(p).contains_key(k),
    decreases p.len(),
{
    if p.len() > 0 {
        lemma_pairs_model_absent(p.drop_last(), k);
    }
}

/// The position of the first `=` in `s`, if any.
fn find_separator(s: &str) -> (r: Option<usize>)
    ensures
        match r {
            Some(i) => is_first_separator(s@, i as int),
            None => !has_separator(s@),
        },
{
    let n = s.unicode_len();
    let mut i: usize = 0;
    while i < n
        invariant
            n == s@.len(),
            i <= n,
            forall|j: int| 0 <= j < i ==> s@[j] != '=',
        decreases n - i,
    {
        if s.get_char(i) == '=' {
            return Some(i);
        }
        i = i + 1;
    }
    None
}

/// Splits one entry at its first `=` into key and value.
pub fn split_entry(entry: &str) -> (r: Option<(String, String)>)
    ensures
        match r {
            Some((k, v)) => has_separator(entry@) && k@ == key_of(entry@) && v@ == value_of(
                entry@,
            ),
            None => !has_separator(entry@),
        },
{
    match find_separator(entry) {
        Some(i) => {
            proof {
                lemma_first_separator_unique(entry@, i as int);
            }
            let n = entry.unicode_len();
            let k = String::from_str(entry.substring_char(0, i));
            let v = String::from_str(entry.substring_char(i + 1, n));
            assert(entry@.subrange(0, i as int) =~= entry@.take(i as int));
            assert(entry@.subrange(i + 1, n as int) =~= entry@.skip(i + 1));
            Some((k, v))
        },
        None => None,
    }
}

/// Parses an ordered list of `key=value` entries. Every entry must hold a
/// `=`; the key is what precedes the first one and may be empty. A later
/// entry overrides an earlier one with the same key.
pub fn parse_runtime_config(entries: &Vec<String>) -> (r: Result<RuntimeConfig, RuntimeConfigError>)
    ensures
        match r {
            Ok(c) => {
                &&& forall|i: int| 0 <= i < entries@.len() ==> has_separator(#[trigger] entries@[i]@)
                &&& c@ == config_model(entry_views(entries@))
            },
            Err(RuntimeConfigError::MissingSeparator(k)) => {
                &&& k < entries@.len()
                &&& !has_separator(entries@[k as int]@)
                &&& forall|j: int| 0 <= j < k ==> has_separator(#[trigger] entries@[j]@)
            },
        },
{
    let mut pairs: Vec<(String, String)> = Vec::new();
    let mut i: usize = 0;
    while i < entries.len()
        invariant
            i <= entries@.len(),
            forall|j: int| 0 <= j < i ==> has_separator(#[trigger] entries@[j]@),
            pairs_model(pairs@) == config_model(entry_views(entries@).take(i as int)),
        decreases entries@.len() - i,
    {
        match split_entry(entries[i].as_str()) {
            Some(kv) => {
                let ghost before = pairs@;
                pairs.push(kv);
                proof {
                    let views = entry_views(entries@);
                    assert(views.take(i + 1).drop_last() =~= views.take(i as int));
                    assert(pairs@.drop_last() =~= before);
                    assert(views.take(i + 1).last() == entries@[i as int]@);
                }
            },
            None => {
                return Err(RuntimeConfigError::MissingSeparator(i));
            },
        }
        i = i + 1;
    }
    assert(entry_views(entries@).take(i as int) =~= entry_views(entries@));
    Ok(RuntimeConfig { pairs })
}

impl RuntimeConfig {
    /// An empty configuration.
    pub fn new() -> (r: RuntimeConfig)
        ensures
            r@ == Map::<Seq<char>, Seq<char>>::empty(),
    {
        RuntimeConfig { pairs: Vec::new() }
    }

    /// The value configured for `key`, if any.
    pub fn get(&self, key: &str) -> (r: Option<String>)
        ensures
            match r {
                Some(v) => self@.contains_key(key@) && v@ == self@[key@],
                None => !self@.contains_key(key@),
            },
    {
        let wanted = String::from_str(key);
        let mut i: usize = self.pairs.len();
        while i > 0
            invariant
                i <= self.pairs@.len(),
                wanted@ == key@,
                forall|j: int| i <= j < self.pairs@.len() ==> self.pairs@[j].0@ != key@,
            decreases i,
        {
            i = i - 1;
            if self.pairs[i].0 == wanted {
                proof {
                    lemma_pairs_model_last(self.pairs@, key@, i as int);
                }
                return Some(self.pairs[i].1.clone());
            }
        }
        proof {
            lemma_pairs_model_absent(self.pairs@, key@);
        }
        None
    }

    /// The parsed pairs in entry order; where a key repeats, the later pair
    /// is the one in effect.
    pub fn pairs(&self) -> (r: &Vec<(String, String)>)
        ensures
            pairs_model(r@) == self@,
    {
        &self.pairs
    }

    /// Whether `key` has a value.
    pub fn contains_key(&self, key: &str) -> (r: bool)
        ensures
            r == self@.contains_key(key@),
    {
        self.get(key).is_some()
    }
}

} // verus!
