//! Configuration values, and how the user's configuration is laid over the defaults.
use vstd::prelude::*;
use crate::ui::table::{AvailableNetworkColumnKind, DeviceColumnKind, KnownNetworkColumnKind, TableConfig};
use crate::ui::toast::ToastConfig;

verus! {

/// A configuration value as read from a RON file: a map of entries, or any other value
/// (number, string, sequence, ...), each key and each other value written as its RON text.
pub enum ConfigValue {
    /// Entries of a map, keys distinct, in no particular order.
    Entries(Vec<(String, ConfigValue)>),
    Leaf(String),
}

/// The content of a configuration value.
pub enum ConfigTree {
    Entries(Seq<(Seq<char>, ConfigTree)>),
    Leaf(Seq<char>),
}

/// The content of a configuration value.
pub open spec fn tree_of(v: ConfigValue) -> ConfigTree
    decreases v, 0nat,
{
    match v {
        ConfigValue::Entries(es) => {
            proof {
                assert(decreases_to!(es => es@));
            }
            ConfigTree::Entries(entries_of(es@))
        },
        ConfigValue::Leaf(s) => ConfigTree::Leaf(s@),
    }
}

/// The content of a list of entries.
pub open spec fn entries_of(es: Seq<(String, ConfigValue)>) -> Seq<(Seq<char>, ConfigTree)>
    decreases es, 0nat,
{
    if es.len() == 0 {
        Seq::empty()
    } else {
        proof {
            assert(decreases_to!(es => es[es.len() - 1]));
        }
        entries_of(es.drop_last()).push((es.last().0@, tree_of(es.last().1)))
    }
}

impl View for ConfigValue {
    type V = ConfigTree;

    open spec fn view(&self) -> ConfigTree {
        tree_of(*self)
    }
}

/// Index of the entry with key `k`, or -1.
pub open spec fn key_index(es: Seq<(Seq<char>, ConfigTree)>, k: Seq<char>) -> int
    decreases es.len(),
{
    if es.len() == 0 {
        -1
    } else if es[0].0 == k {
        0
    } else {
        let i = key_index(es.drop_first(), k);
        if i < 0 { -1 } else { i + 1 }
    }
}

/// Sets the value of key `k`: in place when the key is there, as a new last entry otherwise.
pub open spec fn set_entry(es: Seq<(Seq<char>, ConfigTree)>, k: Seq<char>, v: ConfigTree) -> Seq<(Seq<char>, ConfigTree)> {
    let i = key_index(es, k);
    if i >= 0 { es.update(i, (k, v)) } else { es.push((k, v)) }
}

/// `default` with the user's value laid over it: two maps merge key by key, recursively;
/// anything else (a scalar or a sequence) from the user wins outright.
pub open spec fn merged(default: ConfigTree, user: ConfigTree) -> ConfigTree
    decreases user, 0nat,
{
    match (default, user) {
        (ConfigTree::Entries(dm), ConfigTree::Entries(um)) => {
            proof {
                assert(decreases_to!(user => um));
            }
            ConfigTree::Entries(merged_entries(dm, um))
        },
        (_, u) => u,
    }
}

/// The default entries `dm` with the user's entries `um` laid over them one by one, in order.
pub open spec fn merged_entries(dm: Seq<(Seq<char>, ConfigTree)>, um: Seq<(Seq<char>, ConfigTree)>) -> Seq<(Seq<char>, ConfigTree)>
    decreases um, 0nat,
{
    if um.len() == 0 {
        dm
    } else {
        let acc = merged_entries(dm, um.drop_last());
        let (k, v) = um.last();
        proof {
            assert(decreases_to!(um => um[um.len() - 1]));
        }
        let i = key_index(acc, k);
        let m = if i >= 0 { merged(acc[i].1, v) } else { v };
        set_entry(acc, k, m)
    }
}

/// The configuration file's content.
pub struct Config {
    pub ui: Ui,
}

/// How the interface looks.
pub struct Ui {
    pub known_networks: TableConfig<KnownNetworkColumnKind>,
    pub available_networks: TableConfig<AvailableNetworkColumnKind>,
    pub devices: TableConfig<DeviceColumnKind>,
    pub toast: ToastConfig,
}

impl Config {
    /// Lays the user's configuration over the defaults: two maps merge key by key,
    /// recursively; anything else from the user wins outright.
    #[verifier::loop_isolation(false)]
    pub fn merge_ron(default: ConfigValue, user: ConfigValue) -> (r: ConfigValue)
        ensures
            r@ == merged(default@, user@),
        decreases user,
    {
        let ghost user0 = user;
        let ghost default0 = default;
        match default {
            ConfigValue::Entries(default_map) => match user {
                ConfigValue::Entries(user_map) => {
                    let ghost uvec = user_map;
                    let ghost um = entries_of(user_map@);
                    let ghost dm0 = entries_of(default_map@);
                    proof {
                        lemma_entries_of_len_index(user_map@);
                        assert(um.take(0) =~= Seq::<(Seq<char>, ConfigTree)>::empty());
                        assert(user_map@.skip(0) =~= user_map@);
                    }
                    let mut default_map = default_map;
                    let mut rest = user_map;
                    let n = rest.len();
                    let mut i: usize = 0;
                    while rest.len() > 0
                        invariant
                            user0 == ConfigValue::Entries(uvec),
                            um == entries_of(uvec@),
                            um.len() == uvec@.len(),
                            forall|j: int| 0 <= j < uvec@.len() ==> #[trigger] um[j] == (uvec@[j].0@, tree_of(uvec@[j].1)),
                            n == uvec@.len(),
                            i <= n,
                            rest@ == uvec@.skip(i as int),
                            entries_of(default_map@) == merged_entries(dm0, um.take(i as int)),
                        decreases rest.len(),
                    {
                        let (k, v) = rest.remove(0);
                        assert(uvec@[i as int] == (k, v));
                        proof {
                            lemma_entries_of_len_index(default_map@);
                            assert(um.take(i + 1).drop_last() =~= um.take(i as int));
                            assert(um.take(i + 1).last() == (k@, tree_of(v)));
                        }
                        match find_key(&default_map, &k) {
                            Some(idx) => {
                                let ghost before = default_map@;
                                let (_old_key, dv) = default_map.remove(idx);
                                proof {
                                    assert(user0->Entries_0 == uvec);
                                    assert(decreases_to!(user0 => user0->Entries_0));
                                    assert(decreases_to!(uvec => uvec@));
                                    assert(decreases_to!(uvec@ => uvec@[i as int]));
                                    assert(decreases_to!(uvec@[i as int] => uvec@[i as int].1));
                                    assert(v == uvec@[i as int].1);
                                    assert(decreases_to!(user0 => v));
                                }
                                let m = Self::merge_ron(dv, v);
                                default_map.insert(idx, (k, m));
                                proof {
                                    lemma_entries_of_len_index(default_map@);
                                    assert(default_map@ =~= before.update(idx as int, (k, m)));
                                    assert(entries_of(default_map@) =~= entries_of(before).update(idx as int, (k@, tree_of(m))));
                                }
                            },
                            None => {
                                let ghost before = default_map@;
                                default_map.push((k, v));
                                proof {
                                    assert(default_map@.drop_last() =~= before);
                                }
                            },
                        }
                        i = i + 1;
                        assert(rest@ =~= uvec@.skip(i as int));
                    }
                    assert(um.take(n as int) =~= um);
                    ConfigValue::Entries(default_map)
                },
                ConfigValue::Leaf(l) => ConfigValue::Leaf(l),
            },
            ConfigValue::Leaf(l) => user,
        }
    }
}

/// The configuration value that `parse_ron` reads from RON text, or `None` when ron cannot
/// read the text.
pub uninterp spec fn ron_tree(text: Seq<char>) -> Option<ConfigTree>;

/// Reads RON text with ron's `de::from_str` into a `ron::Value`. A map becomes its entries,
/// in the order ron's map keeps them: each key written back as RON text with `ron::to_string`,
/// each value read in the same way from its own RON text; any other value becomes its RON
/// text.
/// Claimed: the result is `ron_tree` of the text, a function of the text alone, `None` when
/// ron cannot read the text (or cannot write a part of it back).
#[verifier::external_body]
fn parse_ron(text: &str) -> (r: Option<ConfigValue>)
    ensures
        r is Some <==> ron_tree(text@) is Some,
        r matches Some(v) ==> ron_tree(text@) == Some(v@),
{
    match ron::de::from_str::<ron::Value>(text).ok()? {
        ron::Value::Map(map) => {
            let mut entries = Vec::new();
            for (k, v) in map.iter() {
                let value = parse_ron(&ron::to_string(v).ok()?)?;
                entries.push((ron::to_string(k).ok()?, value));
            }
            Some(ConfigValue::Entries(entries))
        },
        other => ron::to_string(&other).ok().map(ConfigValue::Leaf),
    }
}

/// Which configuration text could not be read.
#[derive(Clone, Copy, Debug, PartialEq, Eq, Structural)]
pub enum LoadError {
    /// The built-in default configuration.
    Default,
    /// The user's configuration file.
    User,
}

/// Reads the default configuration and, when there is one, the user's, and lays the user's
/// over the default. The default is read first: when it cannot be read that is the error;
/// then the user's.
pub fn load_value(default_text: &str, user_text: Option<&str>) -> (r: Result<ConfigValue, LoadError>)
    ensures
        ron_tree(default_text@) is None ==> r == Err::<ConfigValue, LoadError>(LoadError::Default),
        ron_tree(default_text@) matches Some(d) ==> match user_text {
            None => r matches Ok(v) && v@ == d,
            Some(u) => match ron_tree(u@) {
                None => r == Err::<ConfigValue, LoadError>(LoadError::User),
                Some(t) => r matches Ok(v) && v@ == merged(d, t),
            },
        },
{
    let default = match parse_ron(default_text) {
        Some(v) => v,
        None => return Err(LoadError::Default),
    };
    match user_text {
        None => Ok(default),
        Some(text) => match parse_ron(text) {
            Some(user) => Ok(Config::merge_ron(default, user)),
            None => Err(LoadError::User),
        },
    }
}

/// Index of the entry with key `k` in `es`, if any.
fn find_key(es: &Vec<(String, ConfigValue)>, k: &String) -> (r: Option<usize>)
    ensures
        match r {
            Some(i) => i < es@.len() && key_index(entries_of(es@), k@) == i,
            None => key_index(entries_of(es@), k@) == -1,
        },
{
    proof {
        lemma_entries_of_len_index(es@);
    }
    let mut j: usize = 0;
    while j < es.len()
        invariant
            j <= es@.len(),
            forall|m: int| 0 <= m < j ==> (#[trigger] es@[m]).0@ != k@,
            entries_of(es@).len() == es@.len(),
            forall|i: int| 0 <= i < es@.len() ==> #[trigger] entries_of(es@)[i] == (es@[i].0@, tree_of(es@[i].1)),
        decreases es.len() - j,
    {
        if es[j].0 == *k {
            proof {
                assert forall|m: int| 0 <= m < j implies entries_of(es@)[m].0 != k@ by {
                    assert(es@[m].0@ != k@);
                }
                lemma_key_index_first(entries_of(es@), k@, j as int);
            }
            return Some(j);
        }
        j = j + 1;
    }
    proof {
        assert forall|m: int| 0 <= m < entries_of(es@).len() implies entries_of(es@)[m].0 != k@ by {
            assert(es@[m].0@ != k@);
        }
        lemma_key_index_absent(entries_of(es@), k@);
    }
    None
}

proof fn lemma_entries_of_len_index(es: Seq<(String, ConfigValue)>)
    ensures
        entries_of(es).len() == es.len(),
        forall|i: int| 0 <= i < es.len() ==> #[trigger] entries_of(es)[i] == (es[i].0@, tree_of(es[i].1)),
    decreases es.len(),
{
    if es.len() > 0 {
        lemma_entries_of_len_index(es.drop_last());
    }
}

proof fn lemma_key_index_first(es: Seq<(Seq<char>, ConfigTree)>, k: Seq<char>, j: int)
    requires
        0 <= j < es.len(),
        es[j].0 == k,
        forall|m: int| 0 <= m < j ==> es[m].0 != k,
    ensures
        key_index(es, k) == j,
    decreases j,
{
    if j > 0 {
        lemma_key_index_first(es.drop_first(), k, j - 1);
    }
}

proof fn lemma_key_index_absent(es: Seq<(Seq<char>, ConfigTree)>, k: Seq<char>)
    requires
        forall|m: int| 0 <= m < es.len() ==> es[m].0 != k,
    ensures
        key_index(es, k) == -1,
    decreases es.len(),
{
    if es.len() > 0 {
        lemma_key_index_absent(es.drop_first(), k);
    }
}

/// The value of key `k` in `es`, if any.
pub open spec fn lookup(es: Seq<(Seq<char>, ConfigTree)>, k: Seq<char>) -> Option<ConfigTree> {
    let i = key_index(es, k);
    if i >= 0 { Some(es[i].1) } else { None }
}

proof fn lemma_key_index_spec(es: Seq<(Seq<char>, ConfigTree)>, k: Seq<char>)
    ensures
        key_index(es, k) == -1 <==> forall|m: int| 0 <= m < es.len() ==> es[m].0 != k,
        key_index(es, k) >= 0 ==> {
            &&& key_index(es, k) < es.len()
            &&& es[key_index(es, k)].0 == k
        },
        key_index(es, k) >= -1,
    decreases es.len(),
{
    if es.len() > 0 {
        lemma_key_index_spec(es.drop_first(), k);
        if es[0].0 != k && key_index(es.drop_first(), k) == -1 {
            assert forall|m: int| 0 <= m < es.len() implies es[m].0 != k by {
                if m > 0 {
                    assert(es[m] == es.drop_first()[m - 1]);
                }
            }
        }
        if key_index(es, k) == -1 {
            assert(es[0].0 != k);
            assert forall|m: int| 0 <= m < es.drop_first().len() implies es.drop_first()[m].0 != k by {
                assert(es.drop_first()[m] == es[m + 1]);
                if key_index(es.drop_first(), k) >= 0 {
                    assert(false);
                }
            }
        }
    }
}

proof fn lemma_key_index_push(es: Seq<(Seq<char>, ConfigTree)>, x: (Seq<char>, ConfigTree), k: Seq<char>)
    ensures
        key_index(es.push(x), k) == if key_index(es, k) >= 0 {
            key_index(es, k)
        } else if x.0 == k {
            es.len() as int
        } else {
            -1
        },
    decreases es.len(),
{
    if es.len() > 0 {
        lemma_key_index_push(es.drop_first(), x, k);
        lemma_key_index_spec(es.drop_first(), k);
        assert(es.push(x).drop_first() =~= es.drop_first().push(x));
        assert(es.push(x)[0] == es[0]);
        assert(key_index(es.push(x), k) == if es[0].0 == k {
            0
        } else {
            let i = key_index(es.drop_first().push(x), k);
            if i < 0 { -1 } else { i + 1 }
        });
    } else {
        assert(es.push(x).drop_first() =~= Seq::<(Seq<char>, ConfigTree)>::empty());
        assert(key_index(Seq::<(Seq<char>, ConfigTree)>::empty(), k) == -1);
        assert(es.push(x)[0] == x);
    }
}

proof fn lemma_key_index_same_keys(a: Seq<(Seq<char>, ConfigTree)>, b: Seq<(Seq<char>, ConfigTree)>, k: Seq<char>)
    requires
        a.len() == b.len(),
        forall|m: int| 0 <= m < a.len() ==> (#[trigger] a[m]).0 == b[m].0,
    ensures
        key_index(a, k) == key_index(b, k),
    decreases a.len(),
{
    if a.len() > 0 {
        assert forall|m: int| 0 <= m < a.drop_first().len() implies (#[trigger] a.drop_first()[m]).0 == b.drop_first()[m].0 by {
            assert(a.drop_first()[m] == a[m + 1]);
            assert(b.drop_first()[m] == b[m + 1]);
        }
        lemma_key_index_same_keys(a.drop_first(), b.drop_first(), k);
    }
}

/// Setting key `k` changes the value of `k` only, and the key is then present.
proof fn lemma_set_entry(es: Seq<(Seq<char>, ConfigTree)>, k: Seq<char>, v: ConfigTree, k2: Seq<char>)
    ensures
        k2 == k ==> lookup(set_entry(es, k, v), k2) == Some(v),
        k2 != k ==> lookup(set_entry(es, k, v), k2) == lookup(es, k2),
{
    lemma_key_index_spec(es, k);
    lemma_key_index_spec(es, k2);
    let i = key_index(es, k);
    if i >= 0 {
        let t = es.update(i, (k, v));
        lemma_key_index_same_keys(t, es, k2);
        if k2 != k {
            assert(key_index(es, k2) != i);
        }
    } else {
        lemma_key_index_push(es, (k, v), k2);
    }
}

/// A user value that is not a map replaces the default outright.
pub proof fn lemma_user_value_wins(default: ConfigTree, user: ConfigTree)
    requires
        user is Leaf,
    ensures
        merged(default, user) == user,
{
}

/// An empty user map leaves a default map unchanged.
pub proof fn lemma_empty_user_map_keeps_default(default: ConfigTree)
    requires
        default is Entries,
    ensures
        merged(default, ConfigTree::Entries(Seq::empty())) == default,
{
}

/// Merging two maps keeps every key of either, gives each key of the user map the user's
/// (merged) value, and leaves the keys only the default has with their default value.
pub proof fn lemma_merged_entries_keys(dm: Seq<(Seq<char>, ConfigTree)>, um: Seq<(Seq<char>, ConfigTree)>, k: Seq<char>)
    ensures
        (lookup(merged_entries(dm, um), k) is Some) <==> (lookup(dm, k) is Some || lookup(um, k) is Some),
        lookup(um, k) is None ==> lookup(merged_entries(dm, um), k) == lookup(dm, k),
    decreases um.len(),
{
    if um.len() > 0 {
        let p = um.drop_last();
        let (k0, v0) = um.last();
        lemma_merged_entries_keys(dm, p, k);
        let acc = merged_entries(dm, p);
        let i = key_index(acc, k0);
        let m = if i >= 0 { merged(acc[i].1, v0) } else { v0 };
        lemma_set_entry(acc, k0, m, k);
        assert(um =~= p.push((k0, v0)));
        lemma_key_index_push(p, (k0, v0), k);
        lemma_key_index_spec(p, k);
    }
}

/// Whether the keys of a list of entries are pairwise distinct.
pub open spec fn keys_distinct(es: Seq<(Seq<char>, ConfigTree)>) -> bool {
    forall|a: int, b: int| 0 <= a < b < es.len() ==> es[a].0 != es[b].0
}

/// Whether every map in the tree, at every level, has distinct keys.
pub open spec fn distinct_keys(t: ConfigTree) -> bool
    decreases t,
{
    match t {
        ConfigTree::Entries(es) => {
            &&& keys_distinct(es)
            &&& forall|j: int| 0 <= j < es.len() ==> distinct_keys(#[trigger] es[j].1)
        },
        ConfigTree::Leaf(_) => true,
    }
}

/// Laying a map's entries over themselves, one by one, leaves the map as it was, when each
/// value merged with itself is that value.
proof fn lemma_merged_entries_self(es: Seq<(Seq<char>, ConfigTree)>, i: int)
    requires
        0 <= i <= es.len(),
        keys_distinct(es),
        forall|j: int| 0 <= j < es.len() ==> merged(#[trigger] es[j].1, es[j].1) == es[j].1,
    ensures
        merged_entries(es, es.take(i)) == es,
    decreases i,
{
    if i > 0 {
        lemma_merged_entries_self(es, i - 1);
        let um = es.take(i);
        assert(um.drop_last() =~= es.take(i - 1));
        assert(um.last() == es[i - 1]);
        let k = es[i - 1].0;
        assert forall|m: int| 0 <= m < i - 1 implies (#[trigger] es[m]).0 != k by {}
        lemma_key_index_first(es, k, i - 1);
        assert(es.update(i - 1, (k, es[i - 1].1)) =~= es);
    } else {
        assert(es.take(0) =~= Seq::<(Seq<char>, ConfigTree)>::empty());
    }
}

/// Merging a value with itself gives it back, when no map in it repeats a key.
pub proof fn lemma_merge_with_itself(t: ConfigTree)
    requires
        distinct_keys(t),
    ensures
        merged(t, t) == t,
    decreases t,
{
    match t {
        ConfigTree::Entries(es) => {
            assert forall|j: int| 0 <= j < es.len() implies merged(#[trigger] es[j].1, es[j].1) == es[j].1 by {
                assert(decreases_to!(t => es));
                assert(decreases_to!(es => es[j]));
                assert(decreases_to!(es[j] => es[j].1));
                lemma_merge_with_itself(es[j].1);
            }
            lemma_merged_entries_self(es, es.len() as int);
            assert(es.take(es.len() as int) =~= es);
        },
        ConfigTree::Leaf(_) => {},
    }
}

/// Laying entries with distinct keys over no entries, one by one, gives those entries.
proof fn lemma_merged_entries_over_empty(um: Seq<(Seq<char>, ConfigTree)>, i: int)
    requires
        0 <= i <= um.len(),
        keys_distinct(um),
    ensures
        merged_entries(Seq::empty(), um.take(i)) == um.take(i),
    decreases i,
{
    if i > 0 {
        lemma_merged_entries_over_empty(um, i - 1);
        let p = um.take(i);
        assert(p.drop_last() =~= um.take(i - 1));
        assert(p.last() == um[i - 1]);
        let k = um[i - 1].0;
        let q = um.take(i - 1);
        assert forall|m: int| 0 <= m < q.len() implies (#[trigger] q[m]).0 != k by {
            assert(q[m] == um[m]);
        }
        lemma_key_index_absent(q, k);
        assert(um.take(i - 1).push((k, um[i - 1].1)) =~= p);
    } else {
        assert(um.take(0) =~= Seq::<(Seq<char>, ConfigTree)>::empty());
    }
}

/// Laying entries over no entries, one by one, never repeats a key.
proof fn lemma_merged_over_empty_distinct(um: Seq<(Seq<char>, ConfigTree)>, p: int)
    requires
        0 <= p <= um.len(),
    ensures
        keys_distinct(merged_entries(Seq::empty(), um.take(p))),
    decreases p,
{
    if p == 0 {
        assert(um.take(0) =~= Seq::<(Seq<char>, ConfigTree)>::empty());
    } else {
        lemma_merged_over_empty_distinct(um, p - 1);
        let q = um.take(p);
        assert(q.drop_last() =~= um.take(p - 1));
        assert(q.last() == um[p - 1]);
        let acc = merged_entries(Seq::empty(), um.take(p - 1));
        let k = um[p - 1].0;
        lemma_key_index_spec(acc, k);
        let r = merged_entries(Seq::empty(), q);
        if key_index(acc, k) >= 0 {
            let f = key_index(acc, k);
            assert(r == acc.update(f, (k, merged(acc[f].1, um[p - 1].1))));
            assert forall|x: int, y: int| 0 <= x < y < r.len() implies r[x].0 != r[y].0 by {
                assert(r[x].0 == acc[x].0);
                assert(r[y].0 == acc[y].0);
            }
        } else {
            assert(r == acc.push((k, um[p - 1].1)));
            assert forall|x: int, y: int| 0 <= x < y < r.len() implies r[x].0 != r[y].0 by {
                if y == acc.len() {
                    assert(acc[x].0 != k);
                } else {
                    assert(r[x] == acc[x]);
                    assert(r[y] == acc[y]);
                }
            }
        }
    }
}

/// An empty default map takes the user's value as it is, exactly when the user's value, if it
/// is a map, does not repeat a key.
pub proof fn lemma_empty_default_map_takes_user(u: ConfigTree)
    ensures
        merged(ConfigTree::Entries(Seq::empty()), u) == u <==> (u matches ConfigTree::Entries(um)
            ==> keys_distinct(um)),
{
    if let ConfigTree::Entries(um) = u {
        assert(um.take(um.len() as int) =~= um);
        if keys_distinct(um) {
            lemma_merged_entries_over_empty(um, um.len() as int);
        } else {
            lemma_merged_over_empty_distinct(um, um.len() as int);
        }
    }
}

/// Entry `i` is the last one with its key.
pub open spec fn last_of_key(es: Seq<(Seq<char>, ConfigTree)>, i: int) -> bool {
    forall|m: int| i < m < es.len() ==> #[trigger] es[m].0 != es[i].0
}

/// Whether `k` is a key of `es`.
pub open spec fn has_key(es: Seq<(Seq<char>, ConfigTree)>, k: Seq<char>) -> bool {
    exists|i: int| 0 <= i < es.len() && #[trigger] es[i].0 == k
}

/// Whether two values configure the same settings: the same text; or maps with the same keys
/// whose values configure the same settings, where a map that repeats a key counts its last
/// entry for that key (as when a map is read into a map type, which keeps the last value).
pub open spec fn same_settings(a: ConfigTree, b: ConfigTree) -> bool
    decreases a,
{
    match a {
        ConfigTree::Entries(ea) => match b {
            ConfigTree::Entries(eb) => {
                &&& forall|k: Seq<char>| has_key(ea, k) <==> has_key(eb, k)
                &&& forall|i: int, j: int|
                    #![trigger ea[i], eb[j]]
                    0 <= i < ea.len() && 0 <= j < eb.len() && ea[i].0 == eb[j].0 && last_of_key(ea, i)
                        && last_of_key(eb, j) ==> same_settings(ea[i].1, eb[j].1)
            },
            ConfigTree::Leaf(_) => false,
        },
        ConfigTree::Leaf(x) => match b {
            ConfigTree::Entries(_) => false,
            ConfigTree::Leaf(y) => x == y,
        },
    }
}

/// Every value configures the same settings as itself.
pub proof fn lemma_same_settings_reflexive(t: ConfigTree)
    ensures
        same_settings(t, t),
    decreases t,
{
    if let ConfigTree::Entries(es) = t {
        assert forall|i: int, j: int|
            #![trigger es[i], es[j]]
            0 <= i < es.len() && 0 <= j < es.len() && es[i].0 == es[j].0 && last_of_key(es, i)
                && last_of_key(es, j) implies same_settings(es[i].1, es[j].1) by {
            if i < j {
                assert(es[j].0 != es[i].0);
            } else if j < i {
                assert(es[i].0 != es[j].0);
            }
            assert(decreases_to!(t => es));
            assert(decreases_to!(es => es[i]));
            assert(decreases_to!(es[i] => es[i].1));
            lemma_same_settings_reflexive(es[i].1);
        }
    }
}

/// `key_index` finds the first entry with the key.
proof fn lemma_key_index_is_first(es: Seq<(Seq<char>, ConfigTree)>, k: Seq<char>)
    ensures
        forall|m: int| 0 <= m < key_index(es, k) ==> #[trigger] es[m].0 != k,
    decreases es.len(),
{
    if es.len() > 0 && es[0].0 != k {
        lemma_key_index_is_first(es.drop_first(), k);
        lemma_key_index_spec(es.drop_first(), k);
        assert forall|m: int| 0 <= m < key_index(es, k) implies #[trigger] es[m].0 != k by {
            if m > 0 {
                assert(es[m] == es.drop_first()[m - 1]);
            }
        }
    }
}

/// The shape of a map's entries laid over themselves, up to entry `p`: the same keys in the
/// same places; an entry that is not the first with its key, or not yet reached, is as it was;
/// an entry reached whose key occurs nowhere else holds its value merged with itself.
proof fn lemma_merged_entries_self_shape(es: Seq<(Seq<char>, ConfigTree)>, p: int)
    requires
        0 <= p <= es.len(),
    ensures
        merged_entries(es, es.take(p)).len() == es.len(),
        forall|m: int| 0 <= m < es.len() ==> (#[trigger] merged_entries(es, es.take(p))[m]).0 == es[m].0,
        forall|m: int|
            0 <= m < es.len() && !(key_index(es, es[m].0) == m && m < p)
                ==> #[trigger] merged_entries(es, es.take(p))[m] == es[m],
        forall|m: int|
            0 <= m < es.len() && key_index(es, es[m].0) == m && m < p && last_of_key(es, m)
                ==> (#[trigger] merged_entries(es, es.take(p))[m]).1 == merged(es[m].1, es[m].1),
    decreases p,
{
    if p == 0 {
        assert(es.take(0) =~= Seq::<(Seq<char>, ConfigTree)>::empty());
    } else {
        lemma_merged_entries_self_shape(es, p - 1);
        let um = es.take(p);
        assert(um.drop_last() =~= es.take(p - 1));
        assert(um.last() == es[p - 1]);
        let acc = merged_entries(es, es.take(p - 1));
        let k = es[p - 1].0;
        let v = es[p - 1].1;
        lemma_key_index_same_keys(acc, es, k);
        lemma_key_index_spec(es, k);
        lemma_key_index_is_first(es, k);
        let f = key_index(es, k);
        assert(f >= 0);
        assert(f <= p - 1);
        assert(key_index(acc, k) == f);
        let mv = merged(acc[f].1, v);
        let r = merged_entries(es, um);
        assert(r == acc.update(f, (k, mv)));
        if f == p - 1 {
            assert(acc[f] == es[f]);
        }
        assert forall|m: int|
            0 <= m < es.len() && key_index(es, es[m].0) == m && m < p && last_of_key(es, m)
                implies (#[trigger] r[m]).1 == merged(es[m].1, es[m].1) by {
            if m == f && f < p - 1 {
                assert(es[p - 1].0 == es[m].0);
            }
        }
    }
}

/// Merging any value with itself configures the same settings as the value.
pub proof fn lemma_merge_with_itself_same_settings(t: ConfigTree)
    ensures
        same_settings(merged(t, t), t),
    decreases t,
{
    if let ConfigTree::Entries(es) = t {
        lemma_merged_entries_self_shape(es, es.len() as int);
        assert(es.take(es.len() as int) =~= es);
        let r = merged_entries(es, es);
        assert(merged(t, t) == ConfigTree::Entries(r));
        assert forall|k: Seq<char>| has_key(r, k) <==> has_key(es, k) by {
            if has_key(r, k) {
                let i = choose|i: int| 0 <= i < r.len() && #[trigger] r[i].0 == k;
                assert(es[i].0 == k);
            }
            if has_key(es, k) {
                let i = choose|i: int| 0 <= i < es.len() && #[trigger] es[i].0 == k;
                assert(r[i].0 == k);
            }
        }
        assert forall|i: int, j: int|
            #![trigger r[i], es[j]]
            0 <= i < r.len() && 0 <= j < es.len() && r[i].0 == es[j].0 && last_of_key(r, i)
                && last_of_key(es, j) implies same_settings(r[i].1, es[j].1) by {
            assert(r[i].0 == es[i].0);
            if i < j {
                assert(r[j].0 == es[j].0);
                assert(r[j].0 != r[i].0);
            } else if j < i {
                assert(es[i].0 != es[j].0);
            }
            assert(last_of_key(es, i)) by {
                assert forall|m: int| i < m < es.len() implies #[trigger] es[m].0 != es[i].0 by {
                    assert(r[m].0 != r[i].0);
                }
            }
            assert(decreases_to!(t => es));
            assert(decreases_to!(es => es[i]));
            assert(decreases_to!(es[i] => es[i].1));
            if key_index(es, es[i].0) == i {
                lemma_merge_with_itself_same_settings(es[i].1);
            } else {
                lemma_same_settings_reflexive(es[i].1);
            }
        }
    }
}

} // verus!
