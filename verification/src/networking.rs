//! Ranks the candidate addresses of one interface and picks the best
//! IPv4 and IPv6 address, each possibly absent.
use vstd::prelude::*;

use crate::ip::{IpAddress, V4Addr, V6Addr};

verus! {

/// One raw address attached to an interface, with its permanence flag.
#[derive(Clone, Copy, Debug)]
pub struct CandidateAddress {
    pub address: IpAddress,
    /// Whether the kernel marked the address permanent (stable, not a
    /// transient privacy address).
    pub permanent: bool,
}

/// How strongly a candidate address is preferred; `Invalid` is never
/// selected at all.
#[derive(Clone, Copy, Debug, PartialEq, Eq, Structural)]
pub enum Preference {
    Highest,
    High,
    Mid,
    Low,
    Invalid,
}

/// Failure while turning an interface name into its best addresses.
#[derive(Clone, Debug, PartialEq, Eq)]
pub enum NetworkError {
    /// The link-level enumeration itself failed.
    Netlink(String),
    /// The named interface does not exist (distinct from "exists but
    /// has no addresses").
    InvalidInterface(String),
}

/// Numeric rank of a preference; a higher rank wins.
pub open spec fn rank(p: Preference) -> int {
    match p {
        Preference::Invalid => 0,
        Preference::Low => 1,
        Preference::Mid => 2,
        Preference::High => 3,
        Preference::Highest => 4,
    }
}

/// The preference tier of one candidate: loopback and link-local are
/// excluded entirely; private IPv4 and unique-local IPv6 rank mid;
/// global addresses rank high, or highest for a permanent global IPv6.
pub open spec fn spec_preference(c: CandidateAddress) -> Preference {
    match c.address {
        IpAddress::V4(a) => {
            if a.spec_is_loopback() {
                Preference::Invalid
            } else if a.spec_is_link_local() {
                Preference::Invalid
            } else if a.spec_is_private() {
                Preference::Mid
            } else if a.spec_is_global() {
                Preference::High
            } else {
                Preference::Low
            }
        },
        IpAddress::V6(a) => {
            if a.spec_is_loopback() {
                Preference::Invalid
            } else if a.spec_is_unicast_link_local() {
                Preference::Invalid
            } else if a.spec_is_unique_local() {
                Preference::Mid
            } else if a.spec_is_global() {
                if c.permanent {
                    Preference::Highest
                } else {
                    Preference::High
                }
            } else {
                Preference::Low
            }
        },
    }
}

pub open spec fn candidate_rank(c: CandidateAddress) -> int {
    rank(spec_preference(c))
}

/// A candidate that address selection may pick for the IPv4 family.
pub open spec fn eligible_v4(c: CandidateAddress) -> bool {
    c.address is V4 && candidate_rank(c) > 0
}

/// A candidate that address selection may pick for the IPv6 family.
pub open spec fn eligible_v6(c: CandidateAddress) -> bool {
    c.address is V6 && candidate_rank(c) > 0
}

/// Index of the best IPv4 candidate among the first `n`: the first
/// eligible candidate of the highest rank, in enumeration order.
pub open spec fn best_v4_at(s: Seq<CandidateAddress>, n: int) -> Option<int>
    decreases n,
{
    if n <= 0 {
        None
    } else {
        let prev = best_v4_at(s, n - 1);
        if eligible_v4(s[n - 1]) && (prev is None || candidate_rank(s[prev->0]) < candidate_rank(
            s[n - 1],
        )) {
            Some(n - 1)
        } else {
            prev
        }
    }
}

/// Index of the best IPv6 candidate among the first `n`.
pub open spec fn best_v6_at(s: Seq<CandidateAddress>, n: int) -> Option<int>
    decreases n,
{
    if n <= 0 {
        None
    } else {
        let prev = best_v6_at(s, n - 1);
        if eligible_v6(s[n - 1]) && (prev is None || candidate_rank(s[prev->0]) < candidate_rank(
            s[n - 1],
        )) {
            Some(n - 1)
        } else {
            prev
        }
    }
}

/// The selected IPv4 address, if any candidate of that family is eligible.
pub open spec fn spec_best_v4(s: Seq<CandidateAddress>) -> Option<V4Addr> {
    match best_v4_at(s, s.len() as int) {
        Some(i) => Some(s[i].address->V4_0),
        None => None,
    }
}

/// The selected IPv6 address, if any candidate of that family is eligible.
pub open spec fn spec_best_v6(s: Seq<CandidateAddress>) -> Option<V6Addr> {
    match best_v6_at(s, s.len() as int) {
        Some(i) => Some(s[i].address->V6_0),
        None => None,
    }
}

/// What `best_v4_at` selects: an eligible candidate of maximal rank,
/// the first such in enumeration order; `None` exactly when no
/// candidate of the family is eligible.
pub proof fn lemma_best_v4_at(s: Seq<CandidateAddress>, n: int)
    requires
        0 <= n <= s.len(),
    ensures
        best_v4_at(s, n) matches Some(i) ==> 0 <= i < n && eligible_v4(s[i]),
        best_v4_at(s, n) matches Some(i) ==> forall|j: int|
            0 <= j < n && eligible_v4(s[j]) ==> candidate_rank(s[j]) <= candidate_rank(s[i]),
        best_v4_at(s, n) matches Some(i) ==> forall|j: int|
            0 <= j < i && eligible_v4(s[j]) ==> candidate_rank(s[j]) < candidate_rank(s[i]),
        best_v4_at(s, n) is None ==> forall|j: int| 0 <= j < n ==> !eligible_v4(s[j]),
    decreases n,
{
    if n > 0 {
        lemma_best_v4_at(s, n - 1);
    }
}

/// What `best_v6_at` selects, as for `lemma_best_v4_at`.
pub proof fn lemma_best_v6_at(s: Seq<CandidateAddress>, n: int)
    requires
        0 <= n <= s.len(),
    ensures
        best_v6_at(s, n) matches Some(i) ==> 0 <= i < n && eligible_v6(s[i]),
        best_v6_at(s, n) matches Some(i) ==> forall|j: int|
            0 <= j < n && eligible_v6(s[j]) ==> candidate_rank(s[j]) <= candidate_rank(s[i]),
        best_v6_at(s, n) matches Some(i) ==> forall|j: int|
            0 <= j < i && eligible_v6(s[j]) ==> candidate_rank(s[j]) < candidate_rank(s[i]),
        best_v6_at(s, n) is None ==> forall|j: int| 0 <= j < n ==> !eligible_v6(s[j]),
    decreases n,
{
    if n > 0 {
        lemma_best_v6_at(s, n - 1);
    }
}

/// Loopback and link-local addresses are never selected, whatever the
/// candidate set.
pub proof fn lemma_no_invalid_selected(s: Seq<CandidateAddress>)
    ensures
        spec_best_v4(s) matches Some(a) ==> !a.spec_is_loopback() && !a.spec_is_link_local(),
        spec_best_v6(s) matches Some(a) ==> !a.spec_is_loopback()
            && !a.spec_is_unicast_link_local(),
{
    lemma_best_v4_at(s, s.len() as int);
    lemma_best_v6_at(s, s.len() as int);
}

/// If any candidate is a permanent global IPv6 address, the selected
/// IPv6 candidate is itself a permanent global one.
pub proof fn lemma_permanent_global_v6_preferred(s: Seq<CandidateAddress>, i: int)
    requires
        0 <= i < s.len(),
        s[i].address is V6,
        (s[i].address->V6_0).spec_is_global(),
        s[i].permanent,
    ensures
        best_v6_at(s, s.len() as int) matches Some(k) && s[k].permanent && s[k].address is V6 && (
        s[k].address->V6_0).spec_is_global(),
{
    let a = s[i].address->V6_0;
    assert(!a.spec_is_loopback() && !a.spec_is_unicast_link_local() && !a.spec_is_unique_local());
    assert(candidate_rank(s[i]) == 4);
    lemma_best_v6_at(s, s.len() as int);
    let k = best_v6_at(s, s.len() as int)->0;
    assert(candidate_rank(s[k]) >= 4);
    assert(spec_preference(s[k]) == Preference::Highest);
}

/// Rank of one candidate's preference tier.
pub fn compute_preference(c: &CandidateAddress) -> (r: Preference)
    ensures
        r == spec_preference(*c),
{
    match c.address {
        IpAddress::V4(a) => {
            if a.is_loopback() {
                Preference::Invalid
            } else if a.is_link_local() {
                Preference::Invalid
            } else if a.is_private() {
                Preference::Mid
            } else if a.is_global() {
                Preference::High
            } else {
                Preference::Low
            }
        },
        IpAddress::V6(a) => {
            if a.is_loopback() {
                Preference::Invalid
            } else if a.is_unicast_link_local() {
                Preference::Invalid
            } else if a.is_unique_local() {
                Preference::Mid
            } else if a.is_global() {
                if c.permanent {
                    Preference::Highest
                } else {
                    Preference::High
                }
            } else {
                Preference::Low
            }
        },
    }
}

fn rank_of(c: &CandidateAddress) -> (r: usize)
    ensures
        r == candidate_rank(*c),
{
    match compute_preference(c) {
        Preference::Invalid => 0,
        Preference::Low => 1,
        Preference::Mid => 2,
        Preference::High => 3,
        Preference::Highest => 4,
    }
}

/// Selects the best IPv4 and IPv6 address among the candidates: the
/// first eligible candidate of the highest rank per family, leaving a
/// family absent when it has no eligible candidate.
pub fn best_addresses(candidates: &Vec<CandidateAddress>) -> (r: (
    Option<V4Addr>,
    Option<V6Addr>,
))
    ensures
        r.0 == spec_best_v4(candidates@),
        r.1 == spec_best_v6(candidates@),
{
    let mut best4: Option<V4Addr> = None;
    let mut best4_rank: usize = 0;
    let mut best6: Option<V6Addr> = None;
    let mut best6_rank: usize = 0;
    let n = candidates.len();
    for i in 0..n
        invariant
            n == candidates@.len(),
            match best_v4_at(candidates@, i as int) {
                Some(k) => best4 == Some(candidates@[k].address->V4_0) && best4_rank
                    == candidate_rank(candidates@[k]),
                None => best4 is None && best4_rank == 0,
            },
            match best_v6_at(candidates@, i as int) {
                Some(k) => best6 == Some(candidates@[k].address->V6_0) && best6_rank
                    == candidate_rank(candidates@[k]),
                None => best6 is None && best6_rank == 0,
            },
    {
        let c = &candidates[i];
        let r = rank_of(c);
        match c.address {
            IpAddress::V4(a) => {
                if r > 0 && (best4.is_none() || best4_rank < r) {
                    best4 = Some(a);
                    best4_rank = r;
                }
            },
            IpAddress::V6(a) => {
                if r > 0 && (best6.is_none() || best6_rank < r) {
                    best6 = Some(a);
                    best6_rank = r;
                }
            },
        }
    }
    (best4, best6)
}

/// The per-interface entry point of address selection: an absent
/// interface is a hard failure, reported before any of its records
/// could be looked at; an interface with no eligible address of a
/// family simply yields no address for that family.
pub fn best_addresses_by_interface(interface: &str, found: Option<Vec<CandidateAddress>>) -> (r:
    Result<(Option<V4Addr>, Option<V6Addr>), NetworkError>)
    ensures
        found matches Some(cands) ==> r matches Ok(pair) && pair.0 == spec_best_v4(cands@)
            && pair.1 == spec_best_v6(cands@),
        found is None ==> (r matches Err(NetworkError::InvalidInterface(name)) && name@
            == interface@),
{
    match found {
        Some(cands) => Ok(best_addresses(&cands)),
        None => Err(NetworkError::InvalidInterface(interface.to_owned())),
    }
}

} // verus!
