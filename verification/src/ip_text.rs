//! Textual IP addresses: parsing dotted-quad IPv4 and (possibly
//! `::`-compressed) hexadecimal IPv6 text into the address model. The
//! grammar is stated by spec functions; the parsers are proved to
//! decide it exactly.
use vstd::prelude::*;

use crate::ip::{IpAddress, V4Addr, V6Addr};

verus! {

/// Splitting a character sequence at every occurrence of `sep`; the
/// result always has one more part than there are separators.
pub open spec fn spec_split(s: Seq<char>, sep: char) -> Seq<Seq<char>>
    decreases s.len(),
{
    if s.len() == 0 {
        seq![Seq::<char>::empty()]
    } else if s[0] == sep {
        seq![Seq::<char>::empty()] + spec_split(s.skip(1), sep)
    } else {
        let rest = spec_split(s.skip(1), sep);
        seq![seq![s[0]] + rest[0]] + rest.skip(1)
    }
}

proof fn lemma_split_nonempty(s: Seq<char>, sep: char)
    ensures
        spec_split(s, sep).len() >= 1,
    decreases s.len(),
{
    if s.len() > 0 {
        lemma_split_nonempty(s.skip(1), sep);
    }
}

/// The views of a list of character vectors.
pub open spec fn views_of(p: Seq<Vec<char>>) -> Seq<Seq<char>> {
    p.map_values(|v: Vec<char>| v@)
}

/// The first part of `p`, extended at the front by `x`.
spec fn prepend_first(x: Seq<char>, p: Seq<Seq<char>>) -> Seq<Seq<char>> {
    seq![x + p[0]] + p.skip(1)
}

/// The characters of a borrowed string, for index-based parsing.
pub fn to_char_vec(s: &str) -> (r: Vec<char>)
    ensures
        r@ == s@,
{
    let n = s.unicode_len();
    let mut r: Vec<char> = Vec::new();
    let mut i: usize = 0;
    while i < n
        invariant
            n == s@.len(),
            i <= n,
            r@ =~= s@.take(i as int),
        decreases n - i,
    {
        r.push(s.get_char(i));
        i += 1;
        proof {
            assert(r@ =~= s@.take(i as int));
        }
    }
    proof {
        assert(s@.take(n as int) =~= s@);
    }
    r
}

/// Splits at every occurrence of `sep`, exactly as `spec_split` says.
pub fn split_chars(s: &Vec<char>, sep: char) -> (r: Vec<Vec<char>>)
    ensures
        views_of(r@) == spec_split(s@, sep),
{
    let mut parts: Vec<Vec<char>> = Vec::new();
    let mut cur: Vec<char> = Vec::new();
    let n = s.len();
    let mut i: usize = 0;
    proof {
        assert(s@.skip(0) =~= s@);
        assert(views_of(parts@) =~= Seq::<Seq<char>>::empty());
        lemma_split_nonempty(s@, sep);
        assert(prepend_first(cur@, spec_split(s@, sep)) =~~= spec_split(s@, sep));
    }
    while i < n
        invariant
            n == s@.len(),
            i <= n,
            spec_split(s@, sep) =~~= views_of(parts@) + prepend_first(
                cur@,
                spec_split(s@.skip(i as int), sep),
            ),
        decreases n - i,
    {
        let ghost rest = s@.skip(i as int);
        proof {
            assert(rest.len() > 0);
            assert(rest[0] == s@[i as int]);
            assert(rest.skip(1) =~= s@.skip(i as int + 1));
            lemma_split_nonempty(s@.skip(i as int + 1), sep);
        }
        if s[i] == sep {
            proof {
                assert(spec_split(rest, sep) =~~= seq![Seq::<char>::empty()] + spec_split(
                    s@.skip(i as int + 1),
                    sep,
                ));
                assert(cur@ + Seq::<char>::empty() =~= cur@);
            }
            parts.push(cur);
            cur = Vec::new();
            proof {
                assert(views_of(parts@) =~= views_of(parts@.drop_last()) + seq![
                    parts@.last()@,
                ]);
                assert(Seq::<char>::empty() + spec_split(s@.skip(i as int + 1), sep)[0]
                    =~= spec_split(s@.skip(i as int + 1), sep)[0]);
            }
        } else {
            proof {
                let r2 = spec_split(s@.skip(i as int + 1), sep);
                assert(spec_split(rest, sep) =~~= seq![seq![rest[0]] + r2[0]] + r2.skip(1));
                assert(cur@ + (seq![rest[0]] + r2[0]) =~= (cur@ + seq![rest[0]]) + r2[0]);
                assert(cur@.push(s@[i as int]) =~= cur@ + seq![rest[0]]);
            }
            cur.push(s[i]);
        }
        i += 1;
        proof {
            assert(spec_split(s@, sep) =~~= views_of(parts@) + prepend_first(
                cur@,
                spec_split(s@.skip(i as int), sep),
            ));
        }
    }
    proof {
        assert(s@.skip(n as int) =~= Seq::<char>::empty());
        assert(prepend_first(cur@, spec_split(Seq::<char>::empty(), sep)) =~~= seq![cur@]);
    }
    parts.push(cur);
    proof {
        assert(views_of(parts@) =~~= views_of(parts@.drop_last()) + seq![parts@.last()@]);
        assert(views_of(parts@) =~~= spec_split(s@, sep));
    }
    parts
}

/// A decimal digit.
pub open spec fn is_dec_digit(c: char) -> bool {
    48 <= c as u32 <= 57
}

pub open spec fn dec_digit_val(c: char) -> int {
    c as u32 - 48
}

/// The value of a decimal digit string, most significant first.
pub open spec fn dec_val(s: Seq<char>) -> int
    decreases s.len(),
{
    if s.len() == 0 {
        0
    } else {
        dec_val(s.drop_last()) * 10 + dec_digit_val(s.last())
    }
}

/// A valid dotted-quad octet: one to three decimal digits, no leading
/// zero, value at most 255.
pub open spec fn is_octet_text(s: Seq<char>) -> bool {
    1 <= s.len() <= 3 && (forall|i: int| 0 <= i < s.len() ==> is_dec_digit(s[i])) && (s.len() > 1
        ==> s[0] != '0') && dec_val(s) <= 255
}

/// A hexadecimal digit, either case.
pub open spec fn is_hex_digit(c: char) -> bool {
    48 <= c as u32 <= 57 || 97 <= c as u32 <= 102 || 65 <= c as u32 <= 70
}

pub open spec fn hex_digit_val(c: char) -> int {
    if 48 <= c as u32 <= 57 {
        c as u32 - 48
    } else if 97 <= c as u32 <= 102 {
        c as u32 - 87
    } else {
        c as u32 - 55
    }
}

/// The value of a hexadecimal digit string, most significant first.
pub open spec fn hex_val(s: Seq<char>) -> int
    decreases s.len(),
{
    if s.len() == 0 {
        0
    } else {
        hex_val(s.drop_last()) * 16 + hex_digit_val(s.last())
    }
}

/// A valid IPv6 group: one to four hexadecimal digits.
pub open spec fn is_hex_group(s: Seq<char>) -> bool {
    1 <= s.len() <= 4 && (forall|i: int| 0 <= i < s.len() ==> is_hex_digit(s[i]))
}

pub open spec fn all_hex_groups(p: Seq<Seq<char>>) -> bool {
    forall|i: int| 0 <= i < p.len() ==> is_hex_group(p[i])
}

/// Dotted-quad IPv4 text: exactly four valid octets separated by dots.
pub open spec fn spec_parse_ipv4(s: Seq<char>) -> Option<V4Addr> {
    let p = spec_split(s, '.');
    if p.len() == 4 && is_octet_text(p[0]) && is_octet_text(p[1]) && is_octet_text(p[2])
        && is_octet_text(p[3]) {
        Some(
            V4Addr {
                o0: dec_val(p[0]) as u8,
                o1: dec_val(p[1]) as u8,
                o2: dec_val(p[2]) as u8,
                o3: dec_val(p[3]) as u8,
            },
        )
    } else {
        None
    }
}

/// The segments an IPv6 text denotes: the groups before the `::` at
/// the front, the groups after it at the back, zeros in between.
pub open spec fn seg_at(head: Seq<Seq<char>>, tail: Seq<Seq<char>>, k: int) -> u16 {
    if k < head.len() {
        hex_val(head[k]) as u16
    } else if k >= 8 - tail.len() {
        hex_val(tail[k - (8 - tail.len())]) as u16
    } else {
        0
    }
}

pub open spec fn v6_from_parts(head: Seq<Seq<char>>, tail: Seq<Seq<char>>) -> V6Addr {
    V6Addr {
        s0: seg_at(head, tail, 0),
        s1: seg_at(head, tail, 1),
        s2: seg_at(head, tail, 2),
        s3: seg_at(head, tail, 3),
        s4: seg_at(head, tail, 4),
        s5: seg_at(head, tail, 5),
        s6: seg_at(head, tail, 6),
        s7: seg_at(head, tail, 7),
    }
}

/// Index of the first empty part, or the length if none is empty.
pub open spec fn first_empty_idx(p: Seq<Seq<char>>) -> int
    decreases p.len(),
{
    if p.len() == 0 {
        0
    } else if p[0].len() == 0 {
        0
    } else {
        1 + first_empty_idx(p.skip(1))
    }
}

proof fn lemma_first_empty_idx(p: Seq<Seq<char>>, i: int)
    requires
        0 <= i <= p.len(),
        forall|j: int| 0 <= j < i ==> p[j].len() > 0,
        i < p.len() ==> p[i].len() == 0,
    ensures
        first_empty_idx(p) == i,
    decreases p.len(),
{
    if i > 0 {
        lemma_first_empty_idx(p.skip(1), i - 1);
    }
}

/// IPv6 text, in the grammar the engine accepts: eight groups of one
/// to four hexadecimal digits separated by colons, or a single `::`
/// standing for one or more zero groups — at the start, at the end, in
/// the middle, or alone.
pub open spec fn spec_parse_ipv6(s: Seq<char>) -> Option<V6Addr> {
    let p = spec_split(s, ':');
    if p.len() == 8 && all_hex_groups(p) {
        // full form
        Some(v6_from_parts(p, Seq::<Seq<char>>::empty()))
    } else if p.len() == 3 && p[0].len() == 0 && p[1].len() == 0 && p[2].len() == 0 {
        // `::` alone
        Some(v6_from_parts(Seq::<Seq<char>>::empty(), Seq::<Seq<char>>::empty()))
    } else if p.len() >= 3 && p[0].len() == 0 && p[1].len() == 0 && all_hex_groups(p.skip(2))
        && p.len() - 2 <= 7 {
        // leading `::`
        Some(v6_from_parts(Seq::<Seq<char>>::empty(), p.skip(2)))
    } else if p.len() >= 3 && p[p.len() - 1].len() == 0 && p[p.len() - 2].len() == 0
        && all_hex_groups(p.take(p.len() - 2)) && p.len() - 2 <= 7 {
        // trailing `::`
        Some(v6_from_parts(p.take(p.len() - 2), Seq::<Seq<char>>::empty()))
    } else if p.len() >= 3 && p.len() <= 8 && 1 <= first_empty_idx(p) <= p.len() - 2
        && all_hex_groups(p.take(first_empty_idx(p))) && all_hex_groups(
        p.skip(first_empty_idx(p) + 1),
    ) {
        // interior `::`
        Some(v6_from_parts(p.take(first_empty_idx(p)), p.skip(first_empty_idx(p) + 1)))
    } else {
        None
    }
}

/// Either family's text: dotted-quad IPv4 first, IPv6 otherwise.
pub open spec fn spec_parse_ip(s: Seq<char>) -> Option<IpAddress> {
    match spec_parse_ipv4(s) {
        Some(a) => Some(IpAddress::V4(a)),
        None => match spec_parse_ipv6(s) {
            Some(a) => Some(IpAddress::V6(a)),
            None => None,
        },
    }
}

/// Parses one dotted-quad octet, deciding `is_octet_text` exactly.
fn parse_dec_octet(part: &Vec<char>) -> (r: Option<u8>)
    ensures
        match r {
            Some(v) => is_octet_text(part@) && v == dec_val(part@),
            None => !is_octet_text(part@),
        },
{
    let n = part.len();
    if n < 1 || n > 3 {
        return None;
    }
    if n > 1 && part[0] == '0' {
        return None;
    }
    let mut val: u32 = 0;
    let mut i: usize = 0;
    while i < n
        invariant
            n == part@.len(),
            n <= 3,
            i <= n,
            val == dec_val(part@.take(i as int)),
            val <= 999,
            forall|j: int| 0 <= j < i ==> is_dec_digit(part@[j]),
        decreases n - i,
    {
        let c = part[i];
        let u = c as u32;
        if u < 48 || u > 57 {
            return None;
        }
        proof {
            assert(part@.take(i as int + 1).drop_last() =~= part@.take(i as int));
            assert(part@.take(i as int + 1).last() == part@[i as int]);
            assert(dec_val(part@.take(i as int)) <= 99) by {
                lemma_dec_val_bound(part@.take(i as int));
            }
        }
        val = val * 10 + (u - 48);
        i += 1;
    }
    proof {
        assert(part@.take(n as int) =~= part@);
    }
    if val > 255 {
        return None;
    }
    Some(val as u8)
}

/// A digit string of length `n` has value below `10^n`.
proof fn lemma_dec_val_bound(s: Seq<char>)
    requires
        forall|i: int| 0 <= i < s.len() ==> is_dec_digit(s[i]),
    ensures
        s.len() == 0 ==> dec_val(s) == 0,
        s.len() == 1 ==> dec_val(s) <= 9,
        s.len() == 2 ==> dec_val(s) <= 99,
        s.len() == 3 ==> dec_val(s) <= 999,
        s.len() == 4 ==> dec_val(s) <= 9999,
    decreases s.len(),
{
    if s.len() > 0 {
        lemma_dec_val_bound(s.drop_last());
    }
}

/// A hexadecimal digit string of length up to 4 has value below 2^16.
proof fn lemma_hex_val_bound(s: Seq<char>)
    requires
        forall|i: int| 0 <= i < s.len() ==> is_hex_digit(s[i]),
    ensures
        s.len() == 0 ==> hex_val(s) == 0,
        s.len() == 1 ==> hex_val(s) <= 0xf,
        s.len() == 2 ==> hex_val(s) <= 0xff,
        s.len() == 3 ==> hex_val(s) <= 0xfff,
        s.len() == 4 ==> hex_val(s) <= 0xffff,
    decreases s.len(),
{
    if s.len() > 0 {
        lemma_hex_val_bound(s.drop_last());
    }
}

/// Parses one IPv6 group, deciding `is_hex_group` exactly.
fn parse_hex_group(part: &Vec<char>) -> (r: Option<u16>)
    ensures
        match r {
            Some(v) => is_hex_group(part@) && v == hex_val(part@),
            None => !is_hex_group(part@),
        },
{
    let n = part.len();
    if n < 1 || n > 4 {
        return None;
    }
    let mut val: u32 = 0;
    let mut i: usize = 0;
    while i < n
        invariant
            n == part@.len(),
            n <= 4,
            i <= n,
            val == hex_val(part@.take(i as int)),
            val <= 0xffff,
            forall|j: int| 0 <= j < i ==> is_hex_digit(part@[j]),
        decreases n - i,
    {
        let c = part[i];
        let u = c as u32;
        let d: u32 = if 48 <= u && u <= 57 {
            u - 48
        } else if 97 <= u && u <= 102 {
            u - 87
        } else if 65 <= u && u <= 70 {
            u - 55
        } else {
            return None;
        };
        proof {
            assert(part@.take(i as int + 1).drop_last() =~= part@.take(i as int));
            assert(part@.take(i as int + 1).last() == part@[i as int]);
            assert(hex_val(part@.take(i as int)) <= 0xfff) by {
                lemma_hex_val_bound(part@.take(i as int));
            }
        }
        val = val * 16 + d;
        i += 1;
    }
    proof {
        assert(part@.take(n as int) =~= part@);
        lemma_hex_val_bound(part@);
    }
    Some(val as u16)
}

/// Parses dotted-quad IPv4 text, deciding the grammar exactly.
pub fn parse_ipv4(chars: &Vec<char>) -> (r: Option<V4Addr>)
    ensures
        r == spec_parse_ipv4(chars@),
{
    let parts = split_chars(chars, '.');
    if parts.len() != 4 {
        return None;
    }
    proof {
        assert(views_of(parts@)[0] == parts@[0]@);
        assert(views_of(parts@)[1] == parts@[1]@);
        assert(views_of(parts@)[2] == parts@[2]@);
        assert(views_of(parts@)[3] == parts@[3]@);
    }
    let o0 = match parse_dec_octet(&parts[0]) {
        Some(v) => v,
        None => {
            return None;
        },
    };
    let o1 = match parse_dec_octet(&parts[1]) {
        Some(v) => v,
        None => {
            return None;
        },
    };
    let o2 = match parse_dec_octet(&parts[2]) {
        Some(v) => v,
        None => {
            return None;
        },
    };
    let o3 = match parse_dec_octet(&parts[3]) {
        Some(v) => v,
        None => {
            return None;
        },
    };
    Some(V4Addr { o0, o1, o2, o3 })
}

/// Parses the IPv6 groups `parts[from..to]`, deciding `all_hex_groups`
/// on that range exactly.
fn parse_groups(parts: &Vec<Vec<char>>, from: usize, to: usize) -> (r: Option<Vec<u16>>)
    requires
        from <= to <= parts@.len(),
    ensures
        match r {
            Some(vals) => vals@.len() == to - from && all_hex_groups(
                views_of(parts@).subrange(from as int, to as int),
            ) && (forall|k: int|
                0 <= k < to - from ==> vals@[k] == hex_val(parts@[from + k]@) as u16),
            None => !all_hex_groups(views_of(parts@).subrange(from as int, to as int)),
        },
{
    let mut vals: Vec<u16> = Vec::new();
    let mut i: usize = from;
    while i < to
        invariant
            from <= i <= to <= parts@.len(),
            vals@.len() == i - from,
            forall|k: int| 0 <= k < i - from ==> is_hex_group(#[trigger] parts@[from + k]@),
            forall|k: int| 0 <= k < i - from ==> #[trigger] vals@[k] == hex_val(parts@[from + k]@) as u16,
        decreases to - i,
    {
        match parse_hex_group(&parts[i]) {
            Some(v) => {
                vals.push(v);
            },
            None => {
                proof {
                    assert(views_of(parts@).subrange(from as int, to as int)[i - from]
                        == parts@[i as int]@);
                }
                return None;
            },
        }
        i += 1;
    }
    proof {
        assert forall|k: int| 0 <= k < to - from implies is_hex_group(
            views_of(parts@).subrange(from as int, to as int)[k],
        ) by {
            assert(views_of(parts@).subrange(from as int, to as int)[k] == parts@[from + k]@);
        }
    }
    Some(vals)
}

/// Reads the eight segments out of a head part, implicit zeros, and a
/// tail part, exactly as `v6_from_parts` lays them out.
fn assemble_v6(head: &Vec<u16>, tail: &Vec<u16>, ghost_head: Ghost<Seq<Seq<char>>>, ghost_tail:
    Ghost<Seq<Seq<char>>>) -> (r: V6Addr)
    requires
        head@.len() + tail@.len() <= 8,
        head@.len() == ghost_head@.len(),
        tail@.len() == ghost_tail@.len(),
        forall|k: int| 0 <= k < head@.len() ==> head@[k] == hex_val(ghost_head@[k]) as u16,
        forall|k: int| 0 <= k < tail@.len() ==> tail@[k] == hex_val(ghost_tail@[k]) as u16,
    ensures
        r == v6_from_parts(ghost_head@, ghost_tail@),
{
    let mut segs: Vec<u16> = Vec::new();
    let h = head.len();
    let t = tail.len();
    let mut i: usize = 0;
    while i < h
        invariant
            h == head@.len(),
            i <= h,
            segs@.len() == i,
            forall|k: int| 0 <= k < i ==> segs@[k] == head@[k],
        decreases h - i,
    {
        segs.push(head[i]);
        i += 1;
    }
    let mut z: usize = 0;
    let zeros = 8 - h - t;
    while z < zeros
        invariant
            h == head@.len(),
            t == tail@.len(),
            h + t <= 8,
            zeros == 8 - h - t,
            z <= zeros,
            segs@.len() == h + z,
            forall|k: int| 0 <= k < h ==> segs@[k] == head@[k],
            forall|k: int| h <= k < h + z ==> segs@[k] == 0,
        decreases zeros - z,
    {
        segs.push(0);
        z += 1;
    }
    let mut j: usize = 0;
    while j < t
        invariant
            h == head@.len(),
            t == tail@.len(),
            h + t <= 8,
            j <= t,
            segs@.len() == 8 - t + j,
            forall|k: int| 0 <= k < h ==> segs@[k] == head@[k],
            forall|k: int| h <= k < 8 - t ==> segs@[k] == 0,
            forall|k: int| 8 - t <= k < 8 - t + j ==> segs@[k] == tail@[k - (8 - t)],
        decreases t - j,
    {
        segs.push(tail[j]);
        j += 1;
    }
    let r = V6Addr {
        s0: segs[0],
        s1: segs[1],
        s2: segs[2],
        s3: segs[3],
        s4: segs[4],
        s5: segs[5],
        s6: segs[6],
        s7: segs[7],
    };
    proof {
        assert(forall|k: int| 0 <= k < 8 ==> segs@[k] == seg_at(ghost_head@, ghost_tail@, k));
    }
    r
}

/// Parses IPv6 text, deciding the grammar of `spec_parse_ipv6`
/// exactly.
pub fn parse_ipv6(chars: &Vec<char>) -> (r: Option<V6Addr>)
    ensures
        r == spec_parse_ipv6(chars@),
{
    let parts = split_chars(chars, ':');
    let np = parts.len();
    let ghost pv = views_of(parts@);
    proof {
        assert(pv.len() == np);
        assert(forall|k: int| 0 <= k < np ==> pv[k] == parts@[k]@);
    }
    // Locate the first empty part, if any.
    let mut fe: usize = np;
    let mut i: usize = 0;
    while i < np
        invariant
            np == parts@.len(),
            pv == views_of(parts@),
            i <= np,
            fe == np || (fe < i && parts@[fe as int]@.len() == 0),
            forall|j: int| 0 <= j < i && j < fe ==> parts@[j]@.len() > 0,
            fe < np ==> forall|j: int| 0 <= j < fe ==> parts@[j]@.len() > 0,
        decreases np - i,
    {
        if fe == np && parts[i].len() == 0 {
            fe = i;
        }
        i += 1;
    }
    proof {
        if fe < np {
            lemma_first_empty_idx(pv, fe as int);
        } else {
            lemma_first_empty_idx(pv, np as int);
        }
    }
    if fe == np {
        // no empty part: only the full form can apply
        if np != 8 {
            return None;
        }
        match parse_groups(&parts, 0, 8) {
            Some(vals) => {
                proof {
                    assert(pv.subrange(0, 8) =~= pv);
                }
                let r = assemble_v6(&vals, &Vec::new(), Ghost(pv), Ghost(Seq::empty()));
                return Some(r);
            },
            None => {
                proof {
                    assert(pv.subrange(0, 8) =~= pv);
                }
                return None;
            },
        }
    }
    // some part is empty: a compressed form or nothing
    if np == 3 && parts[0].len() == 0 && parts[1].len() == 0 && parts[2].len() == 0 {
        let r = assemble_v6(&Vec::new(), &Vec::new(), Ghost(Seq::empty()), Ghost(Seq::empty()));
        return Some(r);
    }
    if np >= 3 && parts[0].len() == 0 && parts[1].len() == 0 && np - 2 <= 7 {
        match parse_groups(&parts, 2, np) {
            Some(vals) => {
                proof {
                    assert(pv.subrange(2, np as int) =~= pv.skip(2));
                }
                let r = assemble_v6(&Vec::new(), &vals, Ghost(Seq::empty()), Ghost(pv.skip(2)));
                return Some(r);
            },
            None => {
                proof {
                    assert(pv.subrange(2, np as int) =~= pv.skip(2));
                }
                return None;
            },
        }
    }
    if np >= 3 && parts[np - 1].len() == 0 && parts[np - 2].len() == 0 && np - 2 <= 7 {
        match parse_groups(&parts, 0, np - 2) {
            Some(vals) => {
                proof {
                    assert(pv.subrange(0, np - 2) =~= pv.take(np - 2));
                }
                let r = assemble_v6(&vals, &Vec::new(), Ghost(pv.take(np - 2)), Ghost(Seq::empty()));
                return Some(r);
            },
            None => {
                proof {
                    assert(pv.subrange(0, np - 2) =~= pv.take(np - 2));
                }
                return None;
            },
        }
    }
    if np >= 3 && np <= 8 && 1 <= fe && fe <= np - 2 {
        let head = match parse_groups(&parts, 0, fe) {
            Some(vals) => vals,
            None => {
                proof {
                    assert(pv.subrange(0, fe as int) =~= pv.take(fe as int));
                }
                return None;
            },
        };
        let tail = match parse_groups(&parts, fe + 1, np) {
            Some(vals) => vals,
            None => {
                proof {
                    assert(pv.subrange(0, fe as int) =~= pv.take(fe as int));
                    assert(pv.subrange(fe + 1, np as int) =~= pv.skip(fe + 1));
                }
                return None;
            },
        };
        proof {
            assert(pv.subrange(0, fe as int) =~= pv.take(fe as int));
            assert(pv.subrange(fe + 1, np as int) =~= pv.skip(fe + 1));
        }
        let r = assemble_v6(&head, &tail, Ghost(pv.take(fe as int)), Ghost(pv.skip(fe + 1)));
        return Some(r);
    }
    None
}

/// Parses either family's text: dotted-quad IPv4 first, IPv6
/// otherwise.
pub fn parse_ip(chars: &Vec<char>) -> (r: Option<IpAddress>)
    ensures
        r == spec_parse_ip(chars@),
{
    match parse_ipv4(chars) {
        Some(a) => Some(IpAddress::V4(a)),
        None => match parse_ipv6(chars) {
            Some(a) => Some(IpAddress::V6(a)),
            None => None,
        },
    }
}

/// The character of one decimal digit.
pub open spec fn dec_char_of(d: int) -> char {
    if d == 0 {
        '0'
    } else if d == 1 {
        '1'
    } else if d == 2 {
        '2'
    } else if d == 3 {
        '3'
    } else if d == 4 {
        '4'
    } else if d == 5 {
        '5'
    } else if d == 6 {
        '6'
    } else if d == 7 {
        '7'
    } else if d == 8 {
        '8'
    } else {
        '9'
    }
}

/// The decimal text of an octet value: one to three digits, no
/// leading zero.
pub open spec fn spec_dec_text(n: int) -> Seq<char> {
    if n < 10 {
        seq![dec_char_of(n)]
    } else if n < 100 {
        seq![dec_char_of(n / 10), dec_char_of(n % 10)]
    } else {
        seq![dec_char_of(n / 100), dec_char_of((n / 10) % 10), dec_char_of(n % 10)]
    }
}

/// Dotted-quad text of an IPv4 address.
pub open spec fn spec_v4_text(a: V4Addr) -> Seq<char> {
    spec_dec_text(a.o0 as int) + seq!['.'] + spec_dec_text(a.o1 as int) + seq!['.']
        + spec_dec_text(a.o2 as int) + seq!['.'] + spec_dec_text(a.o3 as int)
}

/// The character of one hexadecimal digit, lower case.
pub open spec fn hex_char_of(d: int) -> char {
    if d < 10 {
        dec_char_of(d)
    } else if d == 10 {
        'a'
    } else if d == 11 {
        'b'
    } else if d == 12 {
        'c'
    } else if d == 13 {
        'd'
    } else if d == 14 {
        'e'
    } else {
        'f'
    }
}

/// The hexadecimal text of one IPv6 group: one to four digits, no
/// leading zero.
pub open spec fn spec_group_text(n: int) -> Seq<char> {
    if n < 0x10 {
        seq![hex_char_of(n)]
    } else if n < 0x100 {
        seq![hex_char_of(n / 0x10), hex_char_of(n % 0x10)]
    } else if n < 0x1000 {
        seq![hex_char_of(n / 0x100), hex_char_of((n / 0x10) % 0x10), hex_char_of(n % 0x10)]
    } else {
        seq![
            hex_char_of(n / 0x1000),
            hex_char_of((n / 0x100) % 0x10),
            hex_char_of((n / 0x10) % 0x10),
            hex_char_of(n % 0x10),
        ]
    }
}

/// The full, uncompressed text of an IPv6 address: eight groups
/// separated by colons.
pub open spec fn spec_v6_text(a: V6Addr) -> Seq<char> {
    spec_group_text(a.s0 as int) + seq![':'] + spec_group_text(a.s1 as int) + seq![':']
        + spec_group_text(a.s2 as int) + seq![':'] + spec_group_text(a.s3 as int) + seq![':']
        + spec_group_text(a.s4 as int) + seq![':'] + spec_group_text(a.s5 as int) + seq![':']
        + spec_group_text(a.s6 as int) + seq![':'] + spec_group_text(a.s7 as int)
}

/// The text of an address of either family.
pub open spec fn spec_ip_text(a: IpAddress) -> Seq<char> {
    match a {
        IpAddress::V4(v4) => spec_v4_text(v4),
        IpAddress::V6(v6) => spec_v6_text(v6),
    }
}

fn dec_digit_str(d: u8) -> (r: &'static str)
    requires
        d < 10,
    ensures
        r@ =~= seq![dec_char_of(d as int)],
{
    proof {
        reveal_strlit("0");
        reveal_strlit("1");
        reveal_strlit("2");
        reveal_strlit("3");
        reveal_strlit("4");
        reveal_strlit("5");
        reveal_strlit("6");
        reveal_strlit("7");
        reveal_strlit("8");
        reveal_strlit("9");
    }
    match d {
        0 => "0",
        1 => "1",
        2 => "2",
        3 => "3",
        4 => "4",
        5 => "5",
        6 => "6",
        7 => "7",
        8 => "8",
        _ => "9",
    }
}

fn hex_digit_str(d: u16) -> (r: &'static str)
    requires
        d < 16,
    ensures
        r@ =~= seq![hex_char_of(d as int)],
{
    if d < 10 {
        dec_digit_str(d as u8)
    } else {
        proof {
            reveal_strlit("a");
            reveal_strlit("b");
            reveal_strlit("c");
            reveal_strlit("d");
            reveal_strlit("e");
            reveal_strlit("f");
        }
        match d {
            10 => "a",
            11 => "b",
            12 => "c",
            13 => "d",
            14 => "e",
            _ => "f",
        }
    }
}

fn push_dec_text(s: &mut String, n: u8)
    ensures
        final(s)@ == old(s)@ + spec_dec_text(n as int),
{
    if n >= 100 {
        s.append(dec_digit_str(n / 100));
        s.append(dec_digit_str((n / 10) % 10));
        s.append(dec_digit_str(n % 10));
    } else if n >= 10 {
        s.append(dec_digit_str(n / 10));
        s.append(dec_digit_str(n % 10));
    } else {
        s.append(dec_digit_str(n));
    }
    proof {
        assert(final(s)@ =~= old(s)@ + spec_dec_text(n as int));
    }
}

fn push_group_text(s: &mut String, n: u16)
    ensures
        final(s)@ == old(s)@ + spec_group_text(n as int),
{
    if n >= 0x1000 {
        s.append(hex_digit_str(n / 0x1000));
        s.append(hex_digit_str((n / 0x100) % 0x10));
        s.append(hex_digit_str((n / 0x10) % 0x10));
        s.append(hex_digit_str(n % 0x10));
    } else if n >= 0x100 {
        s.append(hex_digit_str(n / 0x100));
        s.append(hex_digit_str((n / 0x10) % 0x10));
        s.append(hex_digit_str(n % 0x10));
    } else if n >= 0x10 {
        s.append(hex_digit_str(n / 0x10));
        s.append(hex_digit_str(n % 0x10));
    } else {
        s.append(hex_digit_str(n));
    }
    proof {
        assert(final(s)@ =~= old(s)@ + spec_group_text(n as int));
    }
}

/// Renders an IPv4 address as its dotted-quad text.
pub fn v4_text(a: &V4Addr) -> (r: String)
    ensures
        r@ == spec_v4_text(*a),
{
    proof {
        reveal_strlit(".");
    }
    let mut s = String::new();
    push_dec_text(&mut s, a.o0);
    s.append(".");
    push_dec_text(&mut s, a.o1);
    s.append(".");
    push_dec_text(&mut s, a.o2);
    s.append(".");
    push_dec_text(&mut s, a.o3);
    proof {
        assert("."@ =~= seq!['.']);
        assert(s@ =~= spec_v4_text(*a));
    }
    s
}

/// Renders an IPv6 address as its full eight-group hexadecimal text.
pub fn v6_text(a: &V6Addr) -> (r: String)
    ensures
        r@ == spec_v6_text(*a),
{
    proof {
        reveal_strlit(":");
    }
    let mut s = String::new();
    push_group_text(&mut s, a.s0);
    s.append(":");
    push_group_text(&mut s, a.s1);
    s.append(":");
    push_group_text(&mut s, a.s2);
    s.append(":");
    push_group_text(&mut s, a.s3);
    s.append(":");
    push_group_text(&mut s, a.s4);
    s.append(":");
    push_group_text(&mut s, a.s5);
    s.append(":");
    push_group_text(&mut s, a.s6);
    s.append(":");
    push_group_text(&mut s, a.s7);
    proof {
        assert(":"@ =~= seq![':']);
        assert(s@ =~= spec_v6_text(*a));
    }
    s
}

/// Renders an address of either family.
pub fn ip_text(a: &IpAddress) -> (r: String)
    ensures
        r@ == spec_ip_text(*a),
{
    match a {
        IpAddress::V4(v4) => v4_text(v4),
        IpAddress::V6(v6) => v6_text(v6),
    }
}

} // verus!
