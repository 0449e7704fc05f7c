//! The syntax of the listen address `host:port`, as `std`'s socket-address
//! parser reads it: a dotted-quad IPv4 host (or a bracketed IPv6 host) and a
//! decimal port that fits in 16 bits.

use vstd::prelude::*;

verus! {

/// An ASCII decimal digit.
pub open spec fn is_digit(c: char) -> bool {
    '0' <= c && c <= '9'
}

/// Every character of `d` is a decimal digit.
pub open spec fn all_digits(d: Seq<char>) -> bool {
    forall|i: int| 0 <= i < d.len() ==> is_digit(#[trigger] d[i])
}

/// The value of a string of decimal digits.
pub open spec fn dec_value(d: Seq<char>) -> int
    decreases d.len(),
{
    if d.len() == 0 {
        0
    } else {
        dec_value(d.drop_last()) * 10 + ((d.last() as u32) - ('0' as u32))
    }
}

/// A port: one or more decimal digits (leading zeros allowed) whose value
/// fits in 16 bits.
pub open spec fn valid_port(p: Seq<char>) -> bool {
    p.len() > 0 && all_digits(p) && dec_value(p) <= 65535
}

/// An IPv4 octet: one to three decimal digits, no leading zero, at most 255.
pub open spec fn valid_octet(d: Seq<char>) -> bool {
    &&& 1 <= d.len() <= 3
    &&& all_digits(d)
    &&& (d.len() == 1 || d[0] != '0')
    &&& dec_value(d) <= 255
}

/// Reading `s` as dotted octets: whether every character so far fits and
/// every closed octet is valid, how many dots were read, and the octet
/// still being read.
pub open spec fn octet_scan(s: Seq<char>) -> (bool, nat, Seq<char>)
    decreases s.len(),
{
    if s.len() == 0 {
        (true, 0, Seq::empty())
    } else {
        let (ok, dots, cur) = octet_scan(s.drop_last());
        let c = s.last();
        if c == '.' {
            (ok && valid_octet(cur), dots + 1, Seq::empty())
        } else if is_digit(c) {
            (ok, dots, cur.push(c))
        } else {
            (false, dots, cur)
        }
    }
}

/// A dotted-quad IPv4 address.
pub open spec fn valid_ipv4(s: Seq<char>) -> bool {
    let (ok, dots, cur) = octet_scan(s);
    ok && dots == 3 && valid_octet(cur)
}

/// A host in brackets, which the socket-address parser reads as IPv6.
pub open spec fn bracketed(s: Seq<char>) -> bool {
    s.len() > 0 && s[0] == '['
}

/// The listen address `host:port` can be a socket address: the port is
/// valid, and the host is IPv4 or (left to the socket-address parser)
/// bracketed IPv6.
pub open spec fn listen_address_ok(host: Seq<char>, port: Seq<char>) -> bool {
    valid_port(port) && (valid_ipv4(host) || bracketed(host))
}

/// A string of digits has at least the value of each of its prefixes.
proof fn lemma_prefix_value(d: Seq<char>, i: int)
    requires
        all_digits(d),
        0 <= i <= d.len(),
    ensures
        dec_value(d.subrange(0, i)) <= dec_value(d),
    decreases d.len(),
{
    if i < d.len() {
        let p = d.drop_last();
        assert(all_digits(p));
        lemma_prefix_value(p, i);
        assert(p.subrange(0, i) =~= d.subrange(0, i));
        assert(is_digit(d[d.len() - 1]));
        lemma_value_nonneg(p);
    } else {
        assert(d.subrange(0, i) =~= d);
    }
}

proof fn lemma_value_nonneg(d: Seq<char>)
    requires
        all_digits(d),
    ensures
        dec_value(d) >= 0,
    decreases d.len(),
{
    if d.len() > 0 {
        assert(all_digits(d.drop_last()));
        lemma_value_nonneg(d.drop_last());
        assert(is_digit(d[d.len() - 1]));
    }
}

/// The value of `d` when it is one or more digits worth at most `limit`.
fn decimal_at_most(d: &[char], limit: u32) -> (r: Option<u32>)
    requires
        limit <= 65535,
    ensures
        r is Some <==> (d@.len() > 0 && all_digits(d@) && dec_value(d@) <= limit),
        r matches Some(v) ==> v == dec_value(d@),
{
    if d.len() == 0 {
        return None;
    }
    let mut i: usize = 0;
    while i < d.len()
        invariant
            i <= d@.len(),
            forall|k: int| 0 <= k < i ==> is_digit(#[trigger] d@[k]),
        decreases d@.len() - i,
    {
        if !('0' <= d[i] && d[i] <= '9') {
            return None;
        }
        i = i + 1;
    }
    assert(all_digits(d@));
    let mut v: u32 = 0;
    let mut j: usize = 0;
    proof {
        assert(d@.subrange(0, 0) =~= Seq::<char>::empty());
    }
    while j < d.len()
        invariant
            all_digits(d@),
            limit <= 65535,
            j <= d@.len(),
            v <= limit,
            v == dec_value(d@.subrange(0, j as int)),
        decreases d@.len() - j,
    {
        proof {
            let next = d@.subrange(0, j + 1);
            assert(next.drop_last() =~= d@.subrange(0, j as int));
            assert(next.last() == d@[j as int]);
            assert(is_digit(d@[j as int]));
        }
        let digit = (d[j] as u32) - ('0' as u32);
        let w = v * 10 + digit;
        if w > limit {
            proof {
                lemma_prefix_value(d@, j + 1);
            }
            return None;
        }
        v = w;
        j = j + 1;
    }
    proof {
        assert(d@.subrange(0, d@.len() as int) =~= d@);
    }
    Some(v)
}

/// Is `d` a valid IPv4 octet?
fn octet_ok(d: &[char]) -> (r: bool)
    ensures
        r == valid_octet(d@),
{
    if d.len() < 1 || d.len() > 3 {
        return false;
    }
    if d.len() > 1 && d[0] == '0' {
        return false;
    }
    decimal_at_most(d, 255).is_some()
}

/// Is `host` a dotted-quad IPv4 address?
pub fn ipv4_ok(host: &str) -> (r: bool)
    ensures
        r == valid_ipv4(host@),
{
    let cs = crate::text_support::chars_of(host);
    let mut ok = true;
    let mut dots: usize = 0;
    let mut cur: Vec<char> = Vec::new();
    let mut i: usize = 0;
    proof {
        assert(cs@.subrange(0, 0) =~= Seq::<char>::empty());
    }
    while i < cs.len()
        invariant
            cs@ == host@,
            i <= cs@.len(),
            dots <= i,
            octet_scan(cs@.subrange(0, i as int)) == (ok, dots as nat, cur@),
        decreases cs@.len() - i,
    {
        proof {
            let next = cs@.subrange(0, i + 1);
            assert(next.drop_last() =~= cs@.subrange(0, i as int));
            assert(next.last() == cs@[i as int]);
        }
        let c = cs[i];
        if c == '.' {
            ok = ok && octet_ok(cur.as_slice());
            dots = dots + 1;
            cur = Vec::new();
            proof {
                assert(cur@ =~= Seq::<char>::empty());
            }
        } else if '0' <= c && c <= '9' {
            cur.push(c);
        } else {
            ok = false;
        }
        i = i + 1;
    }
    proof {
        assert(cs@.subrange(0, cs@.len() as int) =~= cs@);
    }
    ok && dots == 3 && octet_ok(cur.as_slice())
}

/// Can `host:port` be a socket address? The port must be a 16-bit decimal
/// number and the host an IPv4 address; a bracketed (IPv6) host is left to
/// the socket-address parser.
pub fn listen_address_valid(host: &str, port: &str) -> (r: bool)
    ensures
        r == listen_address_ok(host@, port@),
{
    let p = crate::text_support::chars_of(port);
    if decimal_at_most(p.as_slice(), 65535).is_none() {
        return false;
    }
    let h = crate::text_support::chars_of(host);
    (h.len() > 0 && h[0] == '[') || ipv4_ok(host)
}

} // verus!
