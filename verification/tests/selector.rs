use cfdns::ip::{IpAddress, V4Addr, V6Addr};
use cfdns::networking::{
    best_addresses, best_addresses_by_interface, compute_preference, CandidateAddress,
    NetworkError, Preference,
};

fn v4(o0: u8, o1: u8, o2: u8, o3: u8) -> IpAddress {
    IpAddress::V4(V4Addr { o0, o1, o2, o3 })
}

fn v6(s0: u16, s7: u16) -> IpAddress {
    IpAddress::V6(V6Addr { s0, s1: 0, s2: 0, s3: 0, s4: 0, s5: 0, s6: 0, s7 })
}

fn cand(address: IpAddress, permanent: bool) -> CandidateAddress {
    CandidateAddress { address, permanent }
}

#[test]
fn loopback_and_link_local_are_never_selected() {
    let candidates = vec![
        cand(v4(127, 0, 0, 1), false),
        cand(v4(169, 254, 10, 1), false),
        cand(v6(0, 1), false),     // ::1
        cand(v6(0xfe80, 9), true), // link-local, permanent flag changes nothing
    ];
    let (best4, best6) = best_addresses(&candidates);
    assert!(best4.is_none());
    assert!(best6.is_none());
}

#[test]
fn global_v4_beats_private_v4() {
    let candidates = vec![
        cand(v4(10, 0, 0, 5), false),
        cand(v4(8, 8, 8, 8), false),
    ];
    let (best4, _) = best_addresses(&candidates);
    assert_eq!(best4, Some(V4Addr { o0: 8, o1: 8, o2: 8, o3: 8 }));
}

#[test]
fn permanent_global_v6_beats_transient_global_v6() {
    let transient = V6Addr { s0: 0x2a00, s1: 1, s2: 2, s3: 3, s4: 4, s5: 5, s6: 6, s7: 7 };
    let permanent = V6Addr { s0: 0x2a00, s1: 1, s2: 2, s3: 3, s4: 4, s5: 5, s6: 6, s7: 8 };
    let candidates = vec![
        cand(IpAddress::V6(transient), false),
        cand(IpAddress::V6(permanent), true),
    ];
    let (_, best6) = best_addresses(&candidates);
    assert_eq!(best6, Some(permanent));

    // same outcome with the candidates the other way round
    let candidates = vec![
        cand(IpAddress::V6(permanent), true),
        cand(IpAddress::V6(transient), false),
    ];
    let (_, best6) = best_addresses(&candidates);
    assert_eq!(best6, Some(permanent));
}

#[test]
fn equal_tier_keeps_enumeration_order() {
    let first = V4Addr { o0: 192, o1: 168, o2: 1, o3: 10 };
    let second = V4Addr { o0: 10, o1: 0, o2: 0, o3: 20 };
    let candidates = vec![
        cand(IpAddress::V4(first), false),
        cand(IpAddress::V4(second), false),
    ];
    let (best4, _) = best_addresses(&candidates);
    assert_eq!(best4, Some(first));
}

#[test]
fn families_are_selected_independently() {
    let candidates = vec![
        cand(v4(127, 0, 0, 1), false),
        cand(v6(0x2a01, 1), false),
    ];
    let (best4, best6) = best_addresses(&candidates);
    assert!(best4.is_none());
    assert!(best6.is_some());
}

#[test]
fn preference_tiers_match_the_address_classes() {
    assert_eq!(compute_preference(&cand(v4(127, 3, 2, 1), false)), Preference::Invalid);
    assert_eq!(compute_preference(&cand(v4(169, 254, 0, 3), false)), Preference::Invalid);
    assert_eq!(compute_preference(&cand(v4(172, 16, 0, 1), false)), Preference::Mid);
    assert_eq!(compute_preference(&cand(v4(8, 8, 4, 4), false)), Preference::High);
    // shared address space (carrier NAT) is neither private nor global
    assert_eq!(compute_preference(&cand(v4(100, 64, 0, 1), false)), Preference::Low);
    assert_eq!(compute_preference(&cand(v6(0xfc00, 1), false)), Preference::Mid);
    assert_eq!(compute_preference(&cand(v6(0x2a00, 1), false)), Preference::High);
    assert_eq!(compute_preference(&cand(v6(0x2a00, 1), true)), Preference::Highest);
    // the IETF protocol-assignment prefix is not globally reachable
    assert_eq!(compute_preference(&cand(v6(0x2001, 1), false)), Preference::Low);
}

#[test]
fn missing_interface_is_a_hard_failure() {
    let r = best_addresses_by_interface("eth7", None);
    assert_eq!(r, Err(NetworkError::InvalidInterface("eth7".to_owned())));
}

#[test]
fn present_interface_with_no_addresses_is_not_an_error() {
    let r = best_addresses_by_interface("eth0", Some(Vec::new()));
    assert_eq!(r, Ok((None, None)));
}
