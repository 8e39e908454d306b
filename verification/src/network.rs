//! What the interface knows of Wi-Fi networks and devices, and how scan results are ordered
//! and split.
use vstd::prelude::*;

verus! {

/// A Wi-Fi network as reported by a scan.
pub struct NetworkEntry {
    pub ssid: String,
    /// Signal strength in percent, when known.
    pub strength: Option<u8>,
    /// Whether the network asks for authentication.
    pub secured: bool,
    /// Whether it uses WPA-PSK (a password).
    pub is_psk: bool,
    /// Whether it uses WPA-EAP (enterprise).
    pub is_eap: bool,
    /// Whether a connection profile is saved for it.
    pub known: bool,
}

impl Clone for NetworkEntry {
    fn clone(&self) -> (r: Self)
        ensures
            r == *self,
    {
        NetworkEntry {
            ssid: self.ssid.clone(),
            strength: self.strength,
            secured: self.secured,
            is_psk: self.is_psk,
            is_eap: self.is_eap,
            known: self.known,
        }
    }
}

/// A Wi-Fi device (radio interface).
pub struct DeviceEntry {
    /// Interface name, such as `wlan0`.
    pub interface: String,
    /// Hardware (MAC) address.
    pub hw_address: String,
    /// The device state, as text.
    pub state: String,
    /// Whether the device state counts as enabled (powered).
    pub powered: bool,
    /// Frequency of the active access point in MHz, if any.
    pub active_frequency_mhz: Option<u32>,
}

impl Clone for DeviceEntry {
    fn clone(&self) -> (r: Self)
        ensures
            r == *self,
    {
        DeviceEntry {
            interface: self.interface.clone(),
            hw_address: self.hw_address.clone(),
            state: self.state.clone(),
            powered: self.powered,
            active_frequency_mhz: self.active_frequency_mhz,
        }
    }
}

/// Details of the connected network that the interface shows.
pub struct NetworkDetails {
    /// The security of the connection, as text.
    pub security: String,
}

impl Clone for NetworkDetails {
    fn clone(&self) -> (r: Self)
        ensures
            r == *self,
    {
        NetworkDetails { security: self.security.clone() }
    }
}

/// The credentials handed to a connection attempt.
pub enum Credentials {
    Open,
    WpaPsk { psk: String },
}

/// The content of credentials.
pub enum CredentialsView {
    Open,
    WpaPsk { psk: Seq<char> },
}

impl View for Credentials {
    type V = CredentialsView;

    open spec fn view(&self) -> CredentialsView {
        match self {
            Credentials::Open => CredentialsView::Open,
            Credentials::WpaPsk { psk } => CredentialsView::WpaPsk { psk: psk@ },
        }
    }
}

impl Clone for Credentials {
    fn clone(&self) -> (r: Self)
        ensures
            r == *self,
    {
        match self {
            Credentials::Open => Credentials::Open,
            Credentials::WpaPsk { psk } => Credentials::WpaPsk { psk: psk.clone() },
        }
    }
}

/// Copies a list of networks.
pub fn clone_networks(v: &Vec<NetworkEntry>) -> (r: Vec<NetworkEntry>)
    ensures
        r@ == v@,
{
    let mut r: Vec<NetworkEntry> = Vec::new();
    for i in 0..v.len()
        invariant
            r@ == v@.take(i as int),
    {
        r.push(v[i].clone());
        assert(r@ =~= v@.take(i + 1));
    }
    assert(v@.take(v.len() as int) =~= v@);
    r
}

/// Copies a list of devices.
pub fn clone_devices(v: &Vec<DeviceEntry>) -> (r: Vec<DeviceEntry>)
    ensures
        r@ == v@,
{
    let mut r: Vec<DeviceEntry> = Vec::new();
    for i in 0..v.len()
        invariant
            r@ == v@.take(i as int),
    {
        r.push(v[i].clone());
        assert(r@ =~= v@.take(i + 1));
    }
    assert(v@.take(v.len() as int) =~= v@);
    r
}

/// The ordering key of a signal strength: unknown strength ranks below every known one.
pub open spec fn strength_rank(s: Option<u8>) -> int {
    match s {
        Some(v) => v as int,
        None => -1,
    }
}

/// Puts `x` before the first element of `s` that is strictly weaker than it.
pub open spec fn insert_by_strength(s: Seq<NetworkEntry>, x: NetworkEntry) -> Seq<NetworkEntry>
    decreases s.len(),
{
    if s.len() == 0 {
        seq![x]
    } else if strength_rank(s[0].strength) < strength_rank(x.strength) {
        seq![x] + s
    } else {
        seq![s[0]] + insert_by_strength(s.drop_first(), x)
    }
}

/// The networks ordered from the strongest signal to the weakest, networks of equal strength
/// in the order they came in (a stable sort by descending strength).
pub open spec fn sorted_by_strength(s: Seq<NetworkEntry>) -> Seq<NetworkEntry>
    decreases s.len(),
{
    if s.len() == 0 {
        s
    } else {
        insert_by_strength(sorted_by_strength(s.drop_last()), s.last())
    }
}

/// Inserting before the first weaker element is inserting at that index.
proof fn lemma_insert_by_strength_at(s: Seq<NetworkEntry>, x: NetworkEntry, p: int)
    requires
        0 <= p <= s.len(),
        forall|j: int| 0 <= j < p ==> strength_rank(#[trigger] s[j].strength) >= strength_rank(x.strength),
        p < s.len() ==> strength_rank(s[p].strength) < strength_rank(x.strength),
    ensures
        insert_by_strength(s, x) == s.insert(p, x),
    decreases p,
{
    if s.len() == 0 {
        assert(s.insert(p, x) =~= seq![x]);
    } else if p == 0 {
        assert(s.insert(p, x) =~= seq![x] + s);
    } else {
        let t = s.drop_first();
        assert forall|j: int| 0 <= j < p - 1 implies strength_rank(#[trigger] t[j].strength) >= strength_rank(x.strength) by {
            assert(t[j] == s[j + 1]);
        }
        lemma_insert_by_strength_at(t, x, p - 1);
        assert(s.insert(p, x) =~= seq![s[0]] + t.insert(p - 1, x));
    }
}

/// Orders scan results from the strongest signal to the weakest; networks of equal strength
/// keep their order.
pub fn sort_by_strength(networks: Vec<NetworkEntry>) -> (r: Vec<NetworkEntry>)
    ensures
        r@ == sorted_by_strength(networks@),
{
    let mut out: Vec<NetworkEntry> = Vec::new();
    let n = networks.len();
    let mut rest = networks;
    let ghost orig = rest@;
    let mut i: usize = 0;
    assert(orig.skip(0) =~= orig);
    assert(orig.take(0) =~= Seq::<NetworkEntry>::empty());
    while rest.len() > 0
        invariant
            rest@ == orig.skip(i as int),
            i <= n,
            n == orig.len(),
            out@ == sorted_by_strength(orig.take(i as int)),
        decreases rest.len(),
    {
        let x = rest.remove(0);
        assert(x == orig[i as int]);
        let mut p: usize = 0;
        while p < out.len() && !(strength_key(&out[p]) < strength_key(&x))
            invariant
                p <= out.len(),
                forall|j: int| 0 <= j < p ==> strength_rank(#[trigger] out@[j].strength) >= strength_rank(x.strength),
            decreases out.len() - p,
        {
            p = p + 1;
        }
        proof {
            lemma_insert_by_strength_at(out@, x, p as int);
            assert(orig.take(i + 1).drop_last() =~= orig.take(i as int));
            assert(orig.take(i + 1).last() == x);
        }
        out.insert(p, x);
        i = i + 1;
        assert(rest@ =~= orig.skip(i as int));
    }
    assert(orig.take(n as int) =~= orig);
    out
}

/// The strength rank of a network, as an integer one below the percent scale for unknown.
fn strength_key(net: &NetworkEntry) -> (k: i16)
    ensures
        k == strength_rank(net.strength),
{
    match net.strength {
        Some(v) => v as i16,
        None => -1,
    }
}

/// Whether the machine is connected to the network named `ssid`, judged from the current
/// network last read.
pub fn is_connected_to(current: &Option<NetworkEntry>, ssid: &String) -> (r: bool)
    ensures
        r == (current matches Some(c) && c.ssid@ == ssid@),
{
    match current {
        Some(c) => c.ssid == *ssid,
        None => false,
    }
}

/// No wireless device was found.
#[derive(Clone, Copy, Debug, PartialEq, Eq, Structural)]
pub struct NoWirelessDevice;

/// The devices among `devices` that `wireless` marks as wireless, in order; an error when
/// there is none.
pub fn wireless_only<T>(devices: Vec<T>, wireless: &Vec<bool>) -> (r: Result<Vec<T>, NoWirelessDevice>)
    requires
        devices@.len() == wireless@.len(),
    ensures
        ({
            let kept = filter_by_spec(devices@, wireless@);
            match r {
                Ok(v) => v@ == kept && kept.len() > 0,
                Err(_) => kept.len() == 0,
            }
        }),
{
    let ghost all = devices@;
    let mut rest = devices;
    let mut kept: Vec<T> = Vec::new();
    let n = wireless.len();
    let mut i: usize = 0;
    assert(all.skip(0) =~= all);
    while i < n
        invariant
            n == wireless@.len(),
            all.len() == n,
            i <= n,
            rest@ == all.skip(i as int),
            kept@ == filter_by_spec(all.take(i as int), wireless@.take(i as int)),
        decreases n - i,
    {
        let d = rest.remove(0);
        proof {
            assert(all.take(i + 1).drop_last() =~= all.take(i as int));
            assert(wireless@.take(i + 1).drop_last() =~= wireless@.take(i as int));
        }
        if wireless[i] {
            kept.push(d);
        }
        i = i + 1;
        assert(rest@ =~= all.skip(i as int));
    }
    assert(all.take(n as int) =~= all);
    assert(wireless@.take(n as int) =~= wireless@);
    if kept.len() == 0 {
        Err(NoWirelessDevice)
    } else {
        Ok(kept)
    }
}

/// The networks of `s` for which a profile is saved, in order.
pub open spec fn known_of(s: Seq<NetworkEntry>) -> Seq<NetworkEntry>
    decreases s.len(),
{
    if s.len() == 0 {
        s
    } else if s.last().known {
        known_of(s.drop_last()).push(s.last())
    } else {
        known_of(s.drop_last())
    }
}

/// The networks of `s` for which no profile is saved, in order.
pub open spec fn unknown_of(s: Seq<NetworkEntry>) -> Seq<NetworkEntry>
    decreases s.len(),
{
    if s.len() == 0 {
        s
    } else if !s.last().known {
        unknown_of(s.drop_last()).push(s.last())
    } else {
        unknown_of(s.drop_last())
    }
}

/// Splits a scan into the known networks and the new ones, each in scan order.
pub fn split_known(scan_list: &Vec<NetworkEntry>) -> (r: (Vec<NetworkEntry>, Vec<NetworkEntry>))
    ensures
        r.0@ == known_of(scan_list@),
        r.1@ == unknown_of(scan_list@),
{
    let mut known_final: Vec<NetworkEntry> = Vec::new();
    let mut new_final: Vec<NetworkEntry> = Vec::new();
    for i in 0..scan_list.len()
        invariant
            known_final@ == known_of(scan_list@.take(i as int)),
            new_final@ == unknown_of(scan_list@.take(i as int)),
    {
        let net = &scan_list[i];
        assert(scan_list@.take(i + 1).drop_last() =~= scan_list@.take(i as int));
        if net.known {
            known_final.push(net.clone());
        } else {
            new_final.push(net.clone());
        }
    }
    assert(scan_list@.take(scan_list.len() as int) =~= scan_list@);
    (known_final, new_final)
}

/// The elements of `s` whose flag in `keep` is set, in order.
pub open spec fn filter_by_spec<T>(s: Seq<T>, keep: Seq<bool>) -> Seq<T>
    decreases s.len(),
{
    if s.len() == 0 || keep.len() == 0 {
        Seq::empty()
    } else if keep.last() {
        filter_by_spec(s.drop_last(), keep.drop_last()).push(s.last())
    } else {
        filter_by_spec(s.drop_last(), keep.drop_last())
    }
}

/// Networks in order of descending signal strength.
pub open spec fn strongest_first(s: Seq<NetworkEntry>) -> bool {
    forall|i: int, j: int| 0 <= i < j < s.len() ==> strength_rank(#[trigger] s[i].strength) >= strength_rank(#[trigger] s[j].strength)
}

proof fn lemma_insert_by_strength_props(s: Seq<NetworkEntry>, x: NetworkEntry)
    ensures
        insert_by_strength(s, x).to_multiset() == s.to_multiset().insert(x),
        insert_by_strength(s, x).len() == s.len() + 1,
        strongest_first(s) ==> strongest_first(insert_by_strength(s, x)),
        insert_by_strength(s, x)[0] == x || (s.len() > 0 && insert_by_strength(s, x)[0] == s[0]),
    decreases s.len(),
{
    broadcast use vstd::seq_lib::group_to_multiset_ensures;
    broadcast use vstd::multiset::group_multiset_axioms;

    if s.len() == 0 {
        assert(seq![x] =~= s.insert(0, x));
    } else if strength_rank(s[0].strength) < strength_rank(x.strength) {
        assert(seq![x] + s =~= s.insert(0, x));
    } else {
        let rest = s.drop_first();
        lemma_insert_by_strength_props(rest, x);
        let r = insert_by_strength(rest, x);
        assert(seq![s[0]] + r =~= r.insert(0, s[0]));
        assert(s =~= rest.insert(0, s[0]));
        assert(insert_by_strength(s, x).to_multiset() =~= s.to_multiset().insert(x));
        if strongest_first(s) {
            let t = seq![s[0]] + r;
            assert forall|i: int, j: int| 0 <= i < j < t.len() implies strength_rank(#[trigger] t[i].strength)
                >= strength_rank(#[trigger] t[j].strength) by {
                if i == 0 {
                    // r sorted, and r's first element is x or rest[0], both not stronger than s[0]
                    assert(t[j] == r[j - 1]);
                    if j - 1 > 0 {
                        assert(strength_rank(r[0].strength) >= strength_rank(r[j - 1].strength));
                    }
                    if rest.len() > 0 {
                        assert(rest[0] == s[1]);
                    }
                } else {
                    assert(t[i] == r[i - 1]);
                    assert(t[j] == r[j - 1]);
                }
            }
        }
    }
}

/// Sorting by strength orders the networks from the strongest to the weakest.
pub proof fn lemma_sorted_by_strength_is_ordered(s: Seq<NetworkEntry>)
    ensures
        strongest_first(sorted_by_strength(s)),
    decreases s.len(),
{
    if s.len() > 0 {
        lemma_sorted_by_strength_is_ordered(s.drop_last());
        lemma_insert_by_strength_props(sorted_by_strength(s.drop_last()), s.last());
    }
}

/// Sorting by strength neither drops nor adds a network: the result holds the same networks,
/// as many times each.
pub proof fn lemma_sorted_by_strength_is_permutation(s: Seq<NetworkEntry>)
    ensures
        sorted_by_strength(s).to_multiset() == s.to_multiset(),
        sorted_by_strength(s).len() == s.len(),
    decreases s.len(),
{
    broadcast use vstd::seq_lib::group_to_multiset_ensures;

    if s.len() > 0 {
        lemma_sorted_by_strength_is_permutation(s.drop_last());
        lemma_insert_by_strength_props(sorted_by_strength(s.drop_last()), s.last());
        assert(s =~= s.drop_last().push(s.last()));
    }
}

/// Splitting a scan puts every known network in the first list and every other one in the
/// second, and loses none: the two lists together hold the scan's networks.
pub proof fn lemma_split_known_partitions(s: Seq<NetworkEntry>)
    ensures
        forall|i: int| 0 <= i < known_of(s).len() ==> (#[trigger] known_of(s)[i]).known,
        forall|i: int| 0 <= i < unknown_of(s).len() ==> !(#[trigger] unknown_of(s)[i]).known,
        (known_of(s) + unknown_of(s)).to_multiset() == s.to_multiset(),
    decreases s.len(),
{
    broadcast use vstd::seq_lib::group_to_multiset_ensures;
    broadcast use vstd::multiset::group_multiset_axioms;

    if s.len() > 0 {
        let p = s.drop_last();
        lemma_split_known_partitions(p);
        vstd::seq_lib::lemma_multiset_commutative(known_of(p), unknown_of(p));
        vstd::seq_lib::lemma_multiset_commutative(known_of(s), unknown_of(s));
        assert(s =~= p.push(s.last()));
        if s.last().known {
            assert(known_of(s) =~= known_of(p).push(s.last()));
        } else {
            assert(unknown_of(s) =~= unknown_of(p).push(s.last()));
        }
        assert((known_of(s) + unknown_of(s)).to_multiset() =~= s.to_multiset());
    }
}

/// Whether signal strength `a` is at least `b`: an unknown strength is below every known one,
/// and known strengths compare by their percentage.
pub open spec fn at_least_as_strong(a: Option<u8>, b: Option<u8>) -> bool {
    match b {
        None => true,
        Some(y) => match a {
            Some(x) => x >= y,
            None => false,
        },
    }
}

/// After sorting, every network is at least as strong as each one listed after it, judged by
/// the exact percentage.
pub proof fn lemma_sorted_by_strength_descends(s: Seq<NetworkEntry>)
    ensures
        forall|i: int, j: int|
            0 <= i < j < sorted_by_strength(s).len() ==> at_least_as_strong(
                #[trigger] sorted_by_strength(s)[i].strength,
                #[trigger] sorted_by_strength(s)[j].strength,
            ),
{
    lemma_sorted_by_strength_is_ordered(s);
}

/// Putting `y` into a list sorted by strength adds it after every network of its own strength
/// and leaves the networks of any given strength in their order.
proof fn lemma_insert_keeps_equal_strength_order(t: Seq<NetworkEntry>, y: NetworkEntry, x: Option<u8>)
    requires
        strongest_first(t),
    ensures
        insert_by_strength(t, y).filter(|n: NetworkEntry| n.strength == x) == if y.strength == x {
            t.filter(|n: NetworkEntry| n.strength == x).push(y)
        } else {
            t.filter(|n: NetworkEntry| n.strength == x)
        },
    decreases t.len(),
{
    broadcast use Seq::filter_distributes_over_add;
    reveal_with_fuel(Seq::filter, 2);
    let p = |n: NetworkEntry| n.strength == x;
    if t.len() == 0 {
        assert(seq![y].drop_last() =~= Seq::<NetworkEntry>::empty());
    } else if strength_rank(t[0].strength) < strength_rank(y.strength) {
        assert(seq![y].drop_last() =~= Seq::<NetworkEntry>::empty());
        if y.strength == x {
            assert forall|k: int| 0 <= k < t.len() implies !p(#[trigger] t[k]) by {
                if k > 0 {
                    assert(strength_rank(t[0].strength) >= strength_rank(t[k].strength));
                }
            }
            assert(t.filter(p) =~= Seq::<NetworkEntry>::empty()) by {
                if t.filter(p).len() > 0 {
                    let e = t.filter(p)[0];
                    t.lemma_filter_pred(p, 0);
                    assert(t.filter(p).contains(e));
                    t.lemma_filter_contains_rev(p, e);
                    let k = choose|k: int| 0 <= k < t.len() && t[k] == e;
                    assert(!p(t[k]));
                }
            }
        }
        assert(seq![y] + t == insert_by_strength(t, y));
    } else {
        let rest = t.drop_first();
        assert forall|a: int, b: int| 0 <= a < b < rest.len() implies strength_rank(#[trigger] rest[a].strength)
            >= strength_rank(#[trigger] rest[b].strength) by {
            assert(rest[a] == t[a + 1]);
            assert(rest[b] == t[b + 1]);
        }
        lemma_insert_keeps_equal_strength_order(rest, y, x);
        assert(t =~= seq![t[0]] + rest);
        assert(seq![t[0]].drop_last() =~= Seq::<NetworkEntry>::empty());
        let fr = rest.filter(p);
        assert((seq![t[0]].filter(p) + fr).push(y) =~= seq![t[0]].filter(p) + fr.push(y));
    }
}

/// Sorting keeps networks of equal strength in the order they came in: the networks of any
/// one strength appear in the result exactly as they appeared in the scan.
pub proof fn lemma_sorted_by_strength_is_stable(s: Seq<NetworkEntry>, x: Option<u8>)
    ensures
        sorted_by_strength(s).filter(|n: NetworkEntry| n.strength == x) == s.filter(|n: NetworkEntry| n.strength == x),
    decreases s.len(),
{
    reveal_with_fuel(Seq::filter, 1);
    if s.len() > 0 {
        lemma_sorted_by_strength_is_stable(s.drop_last(), x);
        lemma_sorted_by_strength_is_ordered(s.drop_last());
        lemma_insert_keeps_equal_strength_order(sorted_by_strength(s.drop_last()), s.last(), x);
    }
}

} // verus!
