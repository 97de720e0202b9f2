use cfdns::cloudflare::guess_zone_from_domain;
use cfdns::ip::{IpAddress, V4Addr, V6Addr};
use cfdns::ip_text::{ip_text, parse_ip, parse_ipv4, parse_ipv6, to_char_vec, v4_text, v6_text};
use cfdns::update::{Outcome, UiRecordContext};
use cfdns::weblookup::{
    expect_public_ipv4, expect_public_ipv6, extract_ip_from_trace, LookupError, TraceParseError,
};

fn chars(s: &str) -> Vec<char> {
    to_char_vec(s)
}

fn v4(o0: u8, o1: u8, o2: u8, o3: u8) -> V4Addr {
    V4Addr { o0, o1, o2, o3 }
}

#[test]
fn parses_dotted_quads() {
    assert_eq!(parse_ipv4(&chars("1.2.3.4")), Some(v4(1, 2, 3, 4)));
    assert_eq!(parse_ipv4(&chars("0.0.0.0")), Some(v4(0, 0, 0, 0)));
    assert_eq!(parse_ipv4(&chars("255.255.255.255")), Some(v4(255, 255, 255, 255)));
    assert_eq!(parse_ipv4(&chars("203.0.113.200")), Some(v4(203, 0, 113, 200)));
}

#[test]
fn rejects_malformed_dotted_quads() {
    assert_eq!(parse_ipv4(&chars("")), None);
    assert_eq!(parse_ipv4(&chars("1.2.3")), None);
    assert_eq!(parse_ipv4(&chars("1.2.3.4.5")), None);
    assert_eq!(parse_ipv4(&chars("256.0.0.1")), None);
    assert_eq!(parse_ipv4(&chars("01.2.3.4")), None);
    assert_eq!(parse_ipv4(&chars("1.2.3.x")), None);
    assert_eq!(parse_ipv4(&chars("1..3.4")), None);
    assert_eq!(parse_ipv4(&chars(" 1.2.3.4")), None);
    assert_eq!(parse_ipv4(&chars("1.2.3.1000")), None);
}

fn segs(s: [u16; 8]) -> V6Addr {
    V6Addr { s0: s[0], s1: s[1], s2: s[2], s3: s[3], s4: s[4], s5: s[5], s6: s[6], s7: s[7] }
}

#[test]
fn parses_full_ipv6() {
    assert_eq!(
        parse_ipv6(&chars("2001:db8:0:1:2:3:4:5")),
        Some(segs([0x2001, 0xdb8, 0, 1, 2, 3, 4, 5]))
    );
    assert_eq!(
        parse_ipv6(&chars("ffff:FFFF:abcd:ef01:2345:6789:abc:d")),
        Some(segs([0xffff, 0xffff, 0xabcd, 0xef01, 0x2345, 0x6789, 0xabc, 0xd]))
    );
}

#[test]
fn parses_compressed_ipv6() {
    assert_eq!(parse_ipv6(&chars("::")), Some(segs([0, 0, 0, 0, 0, 0, 0, 0])));
    assert_eq!(parse_ipv6(&chars("::1")), Some(segs([0, 0, 0, 0, 0, 0, 0, 1])));
    assert_eq!(parse_ipv6(&chars("fe80::")), Some(segs([0xfe80, 0, 0, 0, 0, 0, 0, 0])));
    assert_eq!(
        parse_ipv6(&chars("2a00:1450::8a2e:370:7334")),
        Some(segs([0x2a00, 0x1450, 0, 0, 0, 0x8a2e, 0x370, 0x7334]))
    );
    assert_eq!(
        parse_ipv6(&chars("1:2:3:4:5:6:7::")),
        Some(segs([1, 2, 3, 4, 5, 6, 7, 0]))
    );
    assert_eq!(
        parse_ipv6(&chars("::1:2:3:4:5:6:7")),
        Some(segs([0, 1, 2, 3, 4, 5, 6, 7]))
    );
}

#[test]
fn rejects_malformed_ipv6() {
    assert_eq!(parse_ipv6(&chars("")), None);
    assert_eq!(parse_ipv6(&chars(":")), None);
    assert_eq!(parse_ipv6(&chars(":::")), None);
    assert_eq!(parse_ipv6(&chars("1:2:3:4:5:6:7")), None);
    assert_eq!(parse_ipv6(&chars("1:2:3:4:5:6:7:8:9")), None);
    assert_eq!(parse_ipv6(&chars("1:2:3:4:5:6:7:8::")), None);
    assert_eq!(parse_ipv6(&chars("::1:2:3:4:5:6:7:8")), None);
    assert_eq!(parse_ipv6(&chars("1::2::3")), None);
    assert_eq!(parse_ipv6(&chars("12345::")), None);
    assert_eq!(parse_ipv6(&chars("g::1")), None);
    assert_eq!(parse_ipv6(&chars(":1:2:3:4:5:6:7")), None);
    assert_eq!(parse_ipv6(&chars("1:2:3:4:5:6:7:")), None);
}

#[test]
fn parse_ip_tries_v4_first() {
    assert_eq!(parse_ip(&chars("9.9.9.9")), Some(IpAddress::V4(v4(9, 9, 9, 9))));
    assert_eq!(parse_ip(&chars("::1")), Some(IpAddress::V6(segs([0, 0, 0, 0, 0, 0, 0, 1]))));
    assert_eq!(parse_ip(&chars("no.ip.here")), None);
}

#[test]
fn extracts_the_first_ip_line() {
    let body = "fl=999f99\nh=cloudflare.com\nip=203.0.113.7\nts=1700000000.000\nvisit_scheme=https\n";
    assert_eq!(
        extract_ip_from_trace(body),
        Ok(IpAddress::V4(v4(203, 0, 113, 7)))
    );
}

#[test]
fn extracts_through_crlf_and_blanks() {
    let body = "h=x\r\nip= 2001:db8::1 \r\nts=0\r\n";
    assert_eq!(
        extract_ip_from_trace(body),
        Ok(IpAddress::V6(segs([0x2001, 0xdb8, 0, 0, 0, 0, 0, 1])))
    );
}

#[test]
fn missing_marker_line_is_not_present() {
    assert_eq!(
        extract_ip_from_trace("h=x\nts=0\n"),
        Err(TraceParseError::NotPresent)
    );
    assert_eq!(extract_ip_from_trace(""), Err(TraceParseError::NotPresent));
}

#[test]
fn unparsable_value_is_a_parse_error() {
    assert_eq!(
        extract_ip_from_trace("ip=not-an-address\n"),
        Err(TraceParseError::Parsing)
    );
    assert_eq!(extract_ip_from_trace("ip=\n"), Err(TraceParseError::Parsing));
}

#[test]
fn wrong_family_is_rejected_never_coerced() {
    let got6 = IpAddress::V6(segs([0x2a00, 0, 0, 0, 0, 0, 0, 1]));
    let got4 = IpAddress::V4(v4(1, 2, 3, 4));
    assert_eq!(expect_public_ipv4(got4), Ok(v4(1, 2, 3, 4)));
    assert!(matches!(
        expect_public_ipv4(got6),
        Err(LookupError::WrongIpVersion { .. })
    ));
    assert_eq!(expect_public_ipv6(got6), Ok(segs([0x2a00, 0, 0, 0, 0, 0, 0, 1])));
    assert!(matches!(
        expect_public_ipv6(got4),
        Err(LookupError::WrongIpVersion { .. })
    ));
}

#[test]
fn guesses_the_zone_from_the_domain() {
    assert_eq!(
        guess_zone_from_domain("www.example.com"),
        Some("example.com".to_owned())
    );
    assert_eq!(
        guess_zone_from_domain("a.b.example.co.uk"),
        Some("example.co.uk".to_owned())
    );
    assert_eq!(guess_zone_from_domain("...."), None);
}

#[test]
fn renders_dotted_quad_text() {
    assert_eq!(v4_text(&v4(8, 8, 8, 8)), "8.8.8.8");
    assert_eq!(v4_text(&v4(255, 0, 10, 1)), "255.0.10.1");
    assert_eq!(
        v6_text(&segs([0x2a00, 0x1450, 0, 0xab, 0, 0x8a2e, 0x370, 0x7334])),
        "2a00:1450:0:ab:0:8a2e:370:7334"
    );
    assert_eq!(v6_text(&segs([0, 0, 0, 0, 0, 0, 0, 1])), "0:0:0:0:0:0:0:1");
    assert_eq!(ip_text(&IpAddress::V4(v4(1, 2, 3, 4))), "1.2.3.4");
}

#[test]
fn report_lines_come_from_the_tags_alone() {
    let mut ctx = UiRecordContext::new();
    assert_eq!(ctx.render(), "No updates performed");
    ctx.ipv4_result(Some(v4(1, 2, 3, 4)), true);
    assert_eq!(ctx.render(), "IPv4 updated => 1.2.3.4");
    ctx.ipv6_result(Some(segs([0, 0, 0, 0, 0, 0, 0, 1])), false);
    assert_eq!(
        ctx.render(),
        "IPv4 updated => 1.2.3.4 IPv6 unchanged (0:0:0:0:0:0:0:1)"
    );
    ctx.ipv4 = Outcome::Skipped;
    ctx.ipv6 = Outcome::NotApplicable;
    assert_eq!(ctx.render(), "IPv4 not found!");
}
