//! IP addresses as text: dotted decimal for IPv4, and for IPv6 the eight hexadecimal groups
//! with the first longest run of two or more zero groups written as `::` (RFC 5952), an
//! IPv4-mapped address as `::ffff:` followed by the IPv4 address.
use vstd::prelude::*;

use crate::geoip::IpAddress;
use crate::sessions::hex_digit;
use crate::text::string_from_chars;

verus! {

/// The decimal digit of `d`, below ten.
pub open spec fn decimal_digit(d: nat) -> char {
    (('0' as u8) + d) as char
}

/// The decimal digits of `n`, without leading zeros.
pub open spec fn decimal(n: nat) -> Seq<char>
    decreases n,
{
    if n < 10 {
        seq![decimal_digit(n)]
    } else {
        decimal(n / 10).push(decimal_digit(n % 10))
    }
}

/// The lower-case hexadecimal digits of `n`, without leading zeros.
pub open spec fn hexadecimal(n: nat) -> Seq<char>
    decreases n,
{
    if n < 16 {
        seq![hex_digit(n as u8)]
    } else {
        hexadecimal(n / 16).push(hex_digit((n % 16) as u8))
    }
}

/// The dotted-decimal text of an IPv4 address.
pub open spec fn ipv4_text(a: u32) -> Seq<char> {
    decimal((a / 0x100_0000) as nat) + "."@ + decimal(((a / 0x1_0000) % 256) as nat) + "."@
        + decimal(((a / 0x100) % 256) as nat) + "."@ + decimal((a % 256) as nat)
}

/// The eight 16-bit groups of an IPv6 address, most significant first.
pub open spec fn groups(a: u128) -> Seq<nat> {
    seq![
        ((a / 0x1_0000_0000_0000_0000_0000_0000_0000) % 0x1_0000) as nat,
        ((a / 0x1_0000_0000_0000_0000_0000_0000) % 0x1_0000) as nat,
        ((a / 0x1_0000_0000_0000_0000_0000) % 0x1_0000) as nat,
        ((a / 0x1_0000_0000_0000_0000) % 0x1_0000) as nat,
        ((a / 0x1_0000_0000_0000) % 0x1_0000) as nat,
        ((a / 0x1_0000_0000) % 0x1_0000) as nat,
        ((a / 0x1_0000) % 0x1_0000) as nat,
        (a % 0x1_0000) as nat,
    ]
}

/// The groups `s`, each in hexadecimal, separated by `:`.
pub open spec fn joined_groups(s: Seq<nat>) -> Seq<char>
    decreases s.len(),
{
    if s.len() == 0 {
        Seq::empty()
    } else if s.len() == 1 {
        hexadecimal(s[0])
    } else {
        hexadecimal(s[0]) + ":"@ + joined_groups(s.drop_first())
    }
}

/// The `len` groups of `s` from `start` on are all zero.
pub open spec fn zero_run(s: Seq<nat>, start: int, len: int) -> bool {
    &&& 0 <= start
    &&& 0 <= len
    &&& start + len <= s.len()
    &&& forall|k: int| start <= k < start + len ==> s[k] == 0
}

/// The run of zero groups from `start` with `len` groups is the first of the longest: no run
/// of zeros is longer, and none that starts before it is as long. Without zero groups it is
/// the empty run at the start.
pub open spec fn first_longest_zero_run(s: Seq<nat>, start: int, len: int) -> bool {
    &&& zero_run(s, start, len)
    &&& forall|st: int, l: int| #[trigger] zero_run(s, st, l) ==> l <= len
    &&& forall|st: int, l: int| #[trigger] zero_run(s, st, l) && st < start ==> l < len
}

/// The text of the IPv6 address with the groups `s`, where the first longest run of zero
/// groups starts at `start` and has `len` groups: that run, where it has two groups or more,
/// is written as `::`.
pub open spec fn compressed_groups(s: Seq<nat>, start: int, len: int) -> Seq<char> {
    if len > 1 {
        joined_groups(s.take(start)) + "::"@ + joined_groups(s.skip(start + len))
    } else {
        joined_groups(s)
    }
}

/// The address is an IPv4-mapped IPv6 address, `::ffff:a.b.c.d`.
pub open spec fn is_ipv4_mapped(a: u128) -> bool {
    a / 0x1_0000_0000 == 0xffff
}

/// The text of an IPv6 address.
pub open spec fn ipv6_text(a: u128) -> Seq<char> {
    if is_ipv4_mapped(a) {
        "::ffff:"@ + ipv4_text((a % 0x1_0000_0000) as u32)
    } else {
        let s = groups(a);
        let (start, len) = choose|start: int, len: int| first_longest_zero_run(s, start, len);
        compressed_groups(s, start, len)
    }
}

/// The text of an IP address.
pub open spec fn ip_text(ip: IpAddress) -> Seq<char> {
    match ip {
        IpAddress::V4(a) => ipv4_text(a),
        IpAddress::V6(a) => ipv6_text(a),
    }
}

fn decimal_digit_char(d: u32) -> (res: char)
    requires
        d < 10,
    ensures
        res == decimal_digit(d as nat),
{
    ((d as u8) + 48u8) as char
}

fn hex_digit_of(d: u32) -> (res: char)
    requires
        d < 16,
    ensures
        res == hex_digit(d as u8),
{
    if d < 10 {
        ((d as u8) + 48u8) as char
    } else {
        ((d as u8) + 87u8) as char
    }
}

/// Appends the decimal digits of `n`.
fn push_decimal(out: &mut Vec<char>, n: u32)
    ensures
        final(out)@ == old(out)@ + decimal(n as nat),
    decreases n,
{
    if n >= 10 {
        push_decimal(out, n / 10);
    }
    out.push(decimal_digit_char(n % 10));
    assert(decimal(n as nat) == if n < 10 {
        seq![decimal_digit(n as nat)]
    } else {
        decimal((n / 10) as nat).push(decimal_digit((n % 10) as nat))
    });
    assert(final(out)@ =~= old(out)@ + decimal(n as nat));
}

/// Appends the hexadecimal digits of `n`.
fn push_hexadecimal(out: &mut Vec<char>, n: u32)
    ensures
        final(out)@ == old(out)@ + hexadecimal(n as nat),
    decreases n,
{
    if n >= 16 {
        push_hexadecimal(out, n / 16);
    }
    out.push(hex_digit_of(n % 16));
    assert(hexadecimal(n as nat) == if n < 16 {
        seq![hex_digit(n as u8)]
    } else {
        hexadecimal((n / 16) as nat).push(hex_digit((n % 16) as u8))
    });
    assert(final(out)@ =~= old(out)@ + hexadecimal(n as nat));
}

/// Appends the dotted-decimal text of an IPv4 address.
fn push_ipv4(out: &mut Vec<char>, a: u32)
    ensures
        final(out)@ == old(out)@ + ipv4_text(a),
{
    let ghost start = out@;
    push_decimal(out, a / 0x100_0000);
    out.push('.');
    push_decimal(out, (a / 0x1_0000) % 256);
    out.push('.');
    push_decimal(out, (a / 0x100) % 256);
    out.push('.');
    push_decimal(out, a % 256);
    proof {
        reveal_strlit(".");
    }
    assert(out@ =~= start + ipv4_text(a));
}

/// The dotted-decimal text of an IPv4 address.
pub fn ipv4_string(a: u32) -> (res: String)
    ensures
        res@ == ipv4_text(a),
{
    let mut out: Vec<char> = Vec::new();
    push_ipv4(&mut out, a);
    assert(out@ =~= ipv4_text(a));
    string_from_chars(&out)
}

proof fn lemma_joined_push(s: Seq<nat>, x: nat)
    ensures
        joined_groups(s.push(x)) == if s.len() == 0 {
            hexadecimal(x)
        } else {
            joined_groups(s) + ":"@ + hexadecimal(x)
        },
    decreases s.len(),
{
    if s.len() == 0 {
        assert(s.push(x) =~= seq![x]);
    } else if s.len() == 1 {
        assert(s.push(x).drop_first() =~= seq![x]);
        assert(joined_groups(seq![x]) == hexadecimal(x));
    } else {
        lemma_joined_push(s.drop_first(), x);
        assert(s.push(x).drop_first() =~= s.drop_first().push(x));
        assert(hexadecimal(s[0]) + ":"@ + (joined_groups(s.drop_first()) + ":"@ + hexadecimal(x))
            =~= (hexadecimal(s[0]) + ":"@ + joined_groups(s.drop_first())) + ":"@ + hexadecimal(
            x,
        ));
    }
}

/// Appends the groups `g[from..to]`, in hexadecimal and separated by `:`.
fn push_groups(out: &mut Vec<char>, g: &Vec<u32>, from: usize, to: usize)
    requires
        from <= to <= g@.len(),
        forall|k: int| 0 <= k < g@.len() ==> g@[k] < 0x1_0000,
    ensures
        final(out)@ == old(out)@ + joined_groups(g@.subrange(from as int, to as int).map_values(
            |x: u32| x as nat,
        )),
{
    let ghost start = out@;
    let mut k: usize = from;
    proof {
        reveal_strlit(":");
        assert(g@.subrange(from as int, from as int).map_values(|x: u32| x as nat) =~= Seq::<
            nat,
        >::empty());
    }
    while k < to
        invariant
            from <= k <= to <= g@.len(),
            forall|m: int| 0 <= m < g@.len() ==> g@[m] < 0x1_0000,
            out@ == start + joined_groups(g@.subrange(from as int, k as int).map_values(
                |x: u32| x as nat,
            )),
        decreases to - k,
    {
        let ghost before = g@.subrange(from as int, k as int).map_values(|x: u32| x as nat);
        if k > from {
            out.push(':');
        }
        push_hexadecimal(out, g[k]);
        proof {
            reveal_strlit(":");
            let after = g@.subrange(from as int, k + 1).map_values(|x: u32| x as nat);
            assert(after =~= before.push(g@[k as int] as nat));
            lemma_joined_push(before, g@[k as int] as nat);
            if k == from {
                assert(before.len() == 0);
                assert(out@ =~= start + hexadecimal(g@[k as int] as nat));
            } else {
                assert(out@ =~= start + (joined_groups(before) + ":"@ + hexadecimal(
                    g@[k as int] as nat,
                )));
            }
        }
        k = k + 1;
    }
}

/// The eight groups of an IPv6 address.
fn groups_of(a: u128) -> (res: Vec<u32>)
    ensures
        res@.len() == 8,
        res@.map_values(|x: u32| x as nat) == groups(a),
        forall|k: int| 0 <= k < 8 ==> res@[k] < 0x1_0000,
{
    let mut v: Vec<u32> = Vec::new();
    v.push(((a / 0x1_0000_0000_0000_0000_0000_0000_0000) % 0x1_0000) as u32);
    v.push(((a / 0x1_0000_0000_0000_0000_0000_0000) % 0x1_0000) as u32);
    v.push(((a / 0x1_0000_0000_0000_0000_0000) % 0x1_0000) as u32);
    v.push(((a / 0x1_0000_0000_0000_0000) % 0x1_0000) as u32);
    v.push(((a / 0x1_0000_0000_0000) % 0x1_0000) as u32);
    v.push(((a / 0x1_0000_0000) % 0x1_0000) as u32);
    v.push(((a / 0x1_0000) % 0x1_0000) as u32);
    v.push((a % 0x1_0000) as u32);
    assert(v@.map_values(|x: u32| x as nat) =~= groups(a));
    v
}

/// The first longest run of zero groups of `g`, as the start and the number of groups.
fn longest_zero_run(g: &Vec<u32>) -> (res: (usize, usize))
    ensures
        first_longest_zero_run(g@.map_values(|x: u32| x as nat), res.0 as int, res.1 as int),
{
    let ghost s = g@.map_values(|x: u32| x as nat);
    let mut best_start: usize = 0;
    let mut best_len: usize = 0;
    let mut cur_len: usize = 0;
    let mut i: usize = 0;
    while i < g.len()
        invariant
            s == g@.map_values(|x: u32| x as nat),
            i <= g@.len(),
            cur_len <= i,
            zero_run(s, best_start as int, best_len as int),
            best_start + best_len <= i,
            best_len == 0 ==> best_start == 0,
            forall|st: int, l: int| #[trigger] zero_run(s, st, l) && st + l <= i ==> l <= best_len,
            forall|st: int, l: int|
                #[trigger] zero_run(s, st, l) && st + l <= i && st < best_start ==> l < best_len,
            zero_run(s, i - cur_len, cur_len as int),
            i - cur_len == 0 || s[i - cur_len - 1] != 0,
        decreases g@.len() - i,
    {
        if g[i] == 0 {
            let cur_start: usize = i - cur_len;
            cur_len = cur_len + 1;
            if cur_len > best_len {
                best_start = cur_start;
                best_len = cur_len;
            }
            proof {
                assert forall|st: int, l: int| #[trigger] zero_run(s, st, l) && st + l <= i + 1 implies l
                    <= best_len by {
                    if st + l == i + 1 && l > cur_len {
                        assert(s[cur_start - 1] == 0);
                    }
                }
                assert forall|st: int, l: int|
                    #[trigger] zero_run(s, st, l) && st + l <= i + 1 && st < best_start implies l
                    < best_len by {
                    if st + l == i + 1 && l > 0 && st < cur_start {
                        assert(s[cur_start - 1] == 0);
                    }
                }
            }
        } else {
            cur_len = 0;
            proof {
                assert forall|st: int, l: int| #[trigger] zero_run(s, st, l) && st + l <= i + 1 implies l
                    <= best_len by {
                    if st + l == i + 1 && l > 0 {
                        assert(s[i as int] == 0);
                    }
                }
                assert forall|st: int, l: int|
                    #[trigger] zero_run(s, st, l) && st + l <= i + 1 && st < best_start implies l
                    < best_len by {
                    if st + l == i + 1 && l > 0 {
                        assert(s[i as int] == 0);
                    }
                }
            }
        }
        i = i + 1;
    }
    (best_start, best_len)
}

/// The text of an IPv6 address.
pub fn ipv6_string(a: u128) -> (res: String)
    ensures
        res@ == ipv6_text(a),
{
    let mut out: Vec<char> = Vec::new();
    if a / 0x1_0000_0000 == 0xffff {
        out.push(':');
        out.push(':');
        out.push('f');
        out.push('f');
        out.push('f');
        out.push('f');
        out.push(':');
        push_ipv4(&mut out, (a % 0x1_0000_0000) as u32);
        proof {
            reveal_strlit("::ffff:");
        }
        assert(out@ =~= ipv6_text(a));
        return string_from_chars(&out);
    }
    let g = groups_of(a);
    let ghost s = g@.map_values(|x: u32| x as nat);
    let (start, len) = longest_zero_run(&g);
    proof {
        lemma_first_longest_unique(s, start as int, len as int);
    }
    if len > 1 {
        push_groups(&mut out, &g, 0, start);
        out.push(':');
        out.push(':');
        push_groups(&mut out, &g, start + len, 8);
        proof {
            reveal_strlit("::");
            assert(g@.subrange(0, start as int).map_values(|x: u32| x as nat) =~= s.take(
                start as int,
            ));
            assert(g@.subrange(start + len, 8).map_values(|x: u32| x as nat) =~= s.skip(
                start + len,
            ));
        }
    } else {
        push_groups(&mut out, &g, 0, 8);
        assert(g@.subrange(0, 8).map_values(|x: u32| x as nat) =~= s);
    }
    assert(out@ =~= ipv6_text(a));
    string_from_chars(&out)
}

/// There is one first longest run of zero groups.
proof fn lemma_first_longest_unique(s: Seq<nat>, start: int, len: int)
    requires
        first_longest_zero_run(s, start, len),
    ensures
        ({
            let (st, l) = choose|st: int, l: int| first_longest_zero_run(s, st, l);
            st == start && l == len
        }),
{
    let (st, l) = choose|st: int, l: int| first_longest_zero_run(s, st, l);
    assert(first_longest_zero_run(s, st, l));
    assert(zero_run(s, st, l) && zero_run(s, start, len));
    assert(l <= len && len <= l);
    if st < start {
        assert(zero_run(s, st, l));
    } else if start < st {
        assert(zero_run(s, start, len));
    } else if len == 0 && l == 0 {
    }
}

/// The text of an IP address, as the standard library writes it.
pub fn ip_string(ip: IpAddress) -> (res: String)
    ensures
        res@ == ip_text(ip),
{
    match ip {
        IpAddress::V4(a) => ipv4_string(a),
        IpAddress::V6(a) => ipv6_string(a),
    }
}

} // verus!
