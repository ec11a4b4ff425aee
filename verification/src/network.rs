//! Network-link classification: a deterministic status derived each
//! tick from the interface list the platform reports, in the order the
//! platform supplies it.
//!
//! Interfaces without an assigned address are skipped. A wireless name
//! (prefix `wlp` or `wlan`) dominates everything; otherwise the first
//! wired name (prefix `enp`) decides between Ethernet and a USB tether
//! by its length; with no qualifying interface the link is down.

use vstd::prelude::*;
use vstd::string::StrSliceExecFns;

verus! {

/// One network interface as the platform reports it for a tick.
pub struct NetInterface {
    pub name: String,
    pub has_address: bool,
}

/// The link classification for one tick; never persisted.
#[derive(Clone, Copy, PartialEq, Eq, Structural, Debug)]
pub enum NetworkStatus {
    Ethernet,
    Wireless,
    UsbTether,
    Disconnected,
}

pub open spec fn is_prefix_of(p: Seq<char>, s: Seq<char>) -> bool {
    p.len() <= s.len() && s.subrange(0, p.len() as int) == p
}

pub open spec fn is_wireless_name(n: Seq<char>) -> bool {
    is_prefix_of("wlp"@, n) || is_prefix_of("wlan"@, n)
}

pub open spec fn is_wired_name(n: Seq<char>) -> bool {
    is_prefix_of("enp"@, n)
}

/// The length of a plain wired name such as `enp3s0`; a wired name
/// above it, such as `enp10s0`, follows the composite naming pattern
/// of a tethered device.
pub const PLAIN_WIRED_NAME_MAX_LEN: usize = 6;

/// A wired name longer than a plain one names a tethered device; a
/// short one is plain Ethernet.
pub open spec fn wired_status_of(n: Seq<char>) -> NetworkStatus {
    if n.len() > PLAIN_WIRED_NAME_MAX_LEN {
        NetworkStatus::UsbTether
    } else {
        NetworkStatus::Ethernet
    }
}

/// Whether some interface at position `i` or later has an assigned
/// address and a wireless name.
pub open spec fn wireless_present_from(s: Seq<NetInterface>, i: int) -> bool {
    exists|j: int| i <= j < s.len() && s[j].has_address && is_wireless_name(s[j].name@)
}

/// The classification of the tail of `s` that starts at `i`: wireless
/// dominates; otherwise the first addressed wired interface decides;
/// otherwise the link is down.
pub open spec fn classify_from(s: Seq<NetInterface>, i: int) -> NetworkStatus
    decreases s.len() - i,
{
    if i < 0 || i >= s.len() {
        NetworkStatus::Disconnected
    } else if s[i].has_address && is_wireless_name(s[i].name@) {
        NetworkStatus::Wireless
    } else if s[i].has_address && is_wired_name(s[i].name@) {
        if wireless_present_from(s, i + 1) {
            NetworkStatus::Wireless
        } else {
            wired_status_of(s[i].name@)
        }
    } else {
        classify_from(s, i + 1)
    }
}

pub open spec fn classify_spec(s: Seq<NetInterface>) -> NetworkStatus {
    classify_from(s, 0)
}

/// Wireless dominates: whenever any interface with an assigned address
/// carries a wireless name, the classification is Wireless, wherever
/// that interface stands in the list.
pub proof fn lemma_wireless_dominates(s: Seq<NetInterface>)
    requires
        wireless_present_from(s, 0),
    ensures
        classify_spec(s) == NetworkStatus::Wireless,
{
    lemma_wireless_from(s, 0);
}

proof fn lemma_wireless_from(s: Seq<NetInterface>, i: int)
    requires
        0 <= i,
        wireless_present_from(s, i),
    ensures
        classify_from(s, i) == NetworkStatus::Wireless,
    decreases s.len() - i,
{
    let j = choose|j: int| i <= j < s.len() && s[j].has_address && is_wireless_name(s[j].name@);
    if s[i].has_address && is_wireless_name(s[i].name@) {
    } else {
        assert(j > i);
        assert(wireless_present_from(s, i + 1));
        if s[i].has_address && is_wired_name(s[i].name@) {
        } else {
            lemma_wireless_from(s, i + 1);
        }
    }
}

/// With no wireless interface present, the first interface that holds
/// an address and a wired name decides by its length alone, whatever
/// follows it.
pub proof fn lemma_first_wired_decides(s: Seq<NetInterface>, i: int)
    requires
        0 <= i < s.len(),
        s[i].has_address && is_wired_name(s[i].name@),
        !wireless_present_from(s, 0),
        forall|j: int|
            0 <= j < i ==> !(s[j].has_address && (is_wireless_name(s[j].name@) || is_wired_name(
                s[j].name@,
            ))),
    ensures
        classify_spec(s) == wired_status_of(s[i].name@),
{
    lemma_first_wired_from(s, 0, i);
}

proof fn lemma_first_wired_from(s: Seq<NetInterface>, k: int, i: int)
    requires
        0 <= k <= i < s.len(),
        s[i].has_address && is_wired_name(s[i].name@),
        !wireless_present_from(s, 0),
        forall|j: int|
            k <= j < i ==> !(s[j].has_address && (is_wireless_name(s[j].name@) || is_wired_name(
                s[j].name@,
            ))),
    ensures
        classify_from(s, k) == wired_status_of(s[i].name@),
    decreases i - k,
{
    assert(!(s[k].has_address && is_wireless_name(s[k].name@))) by {
        if s[k].has_address && is_wireless_name(s[k].name@) {
            assert(wireless_present_from(s, 0));
        }
    };
    if k == i {
        assert(!wireless_present_from(s, i + 1)) by {
            if wireless_present_from(s, i + 1) {
                let j = choose|j: int|
                    i + 1 <= j < s.len() && s[j].has_address && is_wireless_name(s[j].name@);
                assert(wireless_present_from(s, 0));
            }
        };
    } else {
        lemma_first_wired_from(s, k + 1, i);
    }
}

/// With no interface holding an assigned address, the classification
/// is Disconnected.
pub proof fn lemma_no_address_disconnected(s: Seq<NetInterface>)
    requires
        forall|j: int| 0 <= j < s.len() ==> !s[j].has_address,
    ensures
        classify_spec(s) == NetworkStatus::Disconnected,
{
    lemma_no_address_from(s, 0);
}

proof fn lemma_no_address_from(s: Seq<NetInterface>, i: int)
    requires
        0 <= i,
        forall|j: int| 0 <= j < s.len() ==> !s[j].has_address,
    ensures
        classify_from(s, i) == NetworkStatus::Disconnected,
    decreases s.len() - i,
{
    if i < s.len() {
        lemma_no_address_from(s, i + 1);
    }
}

/// Whether `p` names a prefix of `s`, by characters.
pub fn str_starts_with(s: &str, p: &str) -> (r: bool)
    ensures
        r == is_prefix_of(p@, s@),
{
    let sl = s.unicode_len();
    let pl = p.unicode_len();
    if pl > sl {
        return false;
    }
    let mut i: usize = 0;
    while i < pl
        invariant
            0 <= i <= pl <= sl,
            pl == p@.len(),
            sl == s@.len(),
            forall|j: int| 0 <= j < i ==> s@[j] == p@[j],
        decreases pl - i,
    {
        if s.get_char(i) != p.get_char(i) {
            assert(!is_prefix_of(p@, s@)) by {
                if is_prefix_of(p@, s@) {
                    assert(s@.subrange(0, p@.len() as int)[i as int] == p@[i as int]);
                }
            };
            return false;
        }
        i = i + 1;
    }
    assert(s@.subrange(0, p@.len() as int) =~= p@);
    true
}

/// Classifies the interface list of one tick.
pub fn classify(interfaces: &Vec<NetInterface>) -> (r: NetworkStatus)
    ensures
        r == classify_spec(interfaces@),
{
    let ghost s = interfaces@;
    let n = interfaces.len();
    let mut wired: Option<NetworkStatus> = None;
    let mut i: usize = 0;
    while i < n
        invariant
            0 <= i <= n,
            n == s.len(),
            s == interfaces@,
            match wired {
                Option::None => classify_spec(s) == classify_from(s, i as int),
                Option::Some(d) => (classify_spec(s) == if wireless_present_from(s, i as int) {
                    NetworkStatus::Wireless
                } else {
                    d
                }) && (d == NetworkStatus::Ethernet || d == NetworkStatus::UsbTether),
            },
        decreases n - i,
    {
        let itf = &interfaces[i];
        if itf.has_address && (str_starts_with(itf.name.as_str(), "wlp") || str_starts_with(
            itf.name.as_str(),
            "wlan",
        )) {
            assert(wireless_present_from(s, i as int));
            proof {
                if wired is None {
                    lemma_wireless_from(s, i as int);
                }
            }
            return NetworkStatus::Wireless;
        }
        assert(!(s[i as int].has_address && is_wireless_name(s[i as int].name@)));
        assert(wireless_present_from(s, i as int) == wireless_present_from(s, i + 1)) by {
            if wireless_present_from(s, i + 1) {
                let j = choose|j: int|
                    i + 1 <= j < s.len() && s[j].has_address && is_wireless_name(s[j].name@);
                assert(i <= j < s.len() && s[j].has_address && is_wireless_name(s[j].name@));
            }
            if wireless_present_from(s, i as int) {
                let j = choose|j: int|
                    i <= j < s.len() && s[j].has_address && is_wireless_name(s[j].name@);
                assert(j >= i + 1);
            }
        };
        if itf.has_address && str_starts_with(itf.name.as_str(), "enp") && wired.is_none() {
            let name_len = itf.name.as_str().unicode_len();
            let d = if name_len > PLAIN_WIRED_NAME_MAX_LEN {
                NetworkStatus::UsbTether
            } else {
                NetworkStatus::Ethernet
            };
            assert(d == wired_status_of(s[i as int].name@));
            wired = Some(d);
        }
        i = i + 1;
    }
    assert(!wireless_present_from(s, n as int)) by {
        if wireless_present_from(s, n as int) {
            let j = choose|j: int|
                n <= j < s.len() && s[j].has_address && is_wireless_name(s[j].name@);
        }
    };
    match wired {
        Some(d) => d,
        None => NetworkStatus::Disconnected,
    }
}

} // verus!
