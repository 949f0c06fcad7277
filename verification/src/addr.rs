//! Text forms of numbers and addresses: decimal port and IPv4 strings for
//! the CONNECT request line, hexadecimal group strings for IPv6 targets.

use vstd::prelude::*;

verus! {

/// The decimal digits of `n`, most significant first, as ASCII bytes.
pub open spec fn dec_spec(n: nat) -> Seq<u8>
    decreases n,
{
    if n < 10 {
        seq![(0x30 + n) as u8]
    } else {
        dec_spec(n / 10).push((0x30 + n % 10) as u8)
    }
}

/// Writes `n` in decimal ASCII.
pub fn dec_u16(n: u16) -> (r: Vec<u8>)
    ensures
        r@ == dec_spec(n as nat),
{
    dec_rec(n as u32)
}

/// Writes `n` in decimal ASCII; `u32` covers every caller.
pub fn dec_u32(n: u32) -> (r: Vec<u8>)
    ensures
        r@ == dec_spec(n as nat),
{
    dec_rec(n)
}

fn dec_rec(n: u32) -> (r: Vec<u8>)
    ensures
        r@ == dec_spec(n as nat),
    decreases n,
{
    if n < 10 {
        let mut r: Vec<u8> = Vec::new();
        r.push(0x30 + (n as u8));
        assert(r@ =~= dec_spec(n as nat));
        r
    } else {
        let mut r = dec_rec(n / 10);
        r.push(0x30 + ((n % 10) as u8));
        assert(r@ =~= dec_spec(n as nat));
        r
    }
}

/// Ten to the `k`.
pub open spec fn pow10(k: nat) -> nat
    decreases k,
{
    if k == 0 {
        1
    } else {
        10 * pow10((k - 1) as nat)
    }
}

/// A number below ten to the `k` takes at most `k` decimal digits.
pub proof fn lemma_dec_len(n: nat, k: nat)
    requires
        k >= 1,
        n < pow10(k),
    ensures
        dec_spec(n).len() <= k,
    decreases k,
{
    if n >= 10 {
        assert(pow10(k) == 10 * pow10((k - 1) as nat));
        assert(k >= 2) by {
            if k == 1 {
                assert(pow10(0) == 1);
            }
        }
        assert(n / 10 < pow10((k - 1) as nat));
        lemma_dec_len(n / 10, (k - 1) as nat);
    }
}

/// The dotted-quad text of an IPv4 address, such as `127.0.0.1`.
pub open spec fn ipv4_spec(a: u8, b: u8, c: u8, d: u8) -> Seq<u8> {
    dec_spec(a as nat) + seq![46u8] + dec_spec(b as nat) + seq![46u8] + dec_spec(c as nat)
        + seq![46u8] + dec_spec(d as nat)
}

/// Writes an IPv4 address as its dotted-quad text.
pub fn ipv4_text(a: u8, b: u8, c: u8, d: u8) -> (r: Vec<u8>)
    ensures
        r@ == ipv4_spec(a, b, c, d),
{
    let mut r = dec_u32(a as u32);
    r.push(46);
    let mut rb = dec_u32(b as u32);
    r.append(&mut rb);
    r.push(46);
    let mut rc = dec_u32(c as u32);
    r.append(&mut rc);
    r.push(46);
    let mut rd = dec_u32(d as u32);
    r.append(&mut rd);
    assert(r@ =~= ipv4_spec(a, b, c, d));
    r
}

/// The dotted-quad text is never longer than 15 bytes.
pub proof fn lemma_ipv4_text_len(a: u8, b: u8, c: u8, d: u8)
    ensures
        ipv4_spec(a, b, c, d).len() <= 15,
{
    assert(pow10(0) == 1);
    assert(pow10(1) == 10);
    assert(pow10(2) == 100);
    assert(pow10(3) == 1000);
    lemma_dec_len(a as nat, 3);
    lemma_dec_len(b as nat, 3);
    lemma_dec_len(c as nat, 3);
    lemma_dec_len(d as nat, 3);
}

/// The lowercase hexadecimal digit for `n`.
pub open spec fn hex_digit(n: nat) -> u8 {
    if n < 10 {
        (0x30 + n) as u8
    } else {
        (0x57 + n) as u8
    }
}

/// The hexadecimal digits of `n`, most significant first, without leading
/// zeros, as lowercase ASCII bytes.
pub open spec fn hex_spec(n: nat) -> Seq<u8>
    decreases n,
{
    if n < 16 {
        seq![hex_digit(n)]
    } else {
        hex_spec(n / 16).push(hex_digit(n % 16))
    }
}

fn hex_rec(n: u16) -> (r: Vec<u8>)
    ensures
        r@ == hex_spec(n as nat),
    decreases n,
{
    if n < 16 {
        let mut r: Vec<u8> = Vec::new();
        let d: u8 = if n < 10 {
            0x30 + (n as u8)
        } else {
            0x57 + (n as u8)
        };
        r.push(d);
        assert(r@ =~= hex_spec(n as nat));
        r
    } else {
        let mut r = hex_rec(n / 16);
        let m: u16 = n % 16;
        let d: u8 = if m < 10 {
            0x30 + (m as u8)
        } else {
            0x57 + (m as u8)
        };
        r.push(d);
        assert(r@ =~= hex_spec(n as nat));
        r
    }
}

/// Sixteen to the `k`.
pub open spec fn pow16(k: nat) -> nat
    decreases k,
{
    if k == 0 {
        1
    } else {
        16 * pow16((k - 1) as nat)
    }
}

/// A number below sixteen to the `k` takes at most `k` hexadecimal digits.
pub proof fn lemma_hex_len(n: nat, k: nat)
    requires
        k >= 1,
        n < pow16(k),
    ensures
        hex_spec(n).len() <= k,
    decreases k,
{
    if n >= 16 {
        assert(pow16(k) == 16 * pow16((k - 1) as nat));
        assert(k >= 2) by {
            if k == 1 {
                assert(pow16(0) == 1);
            }
        }
        assert(n / 16 < pow16((k - 1) as nat));
        lemma_hex_len(n / 16, (k - 1) as nat);
    }
}

/// The value of the `i`-th 16-bit group of an IPv6 address given as 16
/// bytes in network order.
pub open spec fn ipv6_group(b: Seq<u8>, i: int) -> nat {
    (b[2 * i] as nat) * 256 + (b[2 * i + 1] as nat)
}

/// Whether the 16 bytes are an IPv4-mapped address, `::ffff:a.b.c.d`:
/// five zero groups, then `ffff`, then the four IPv4 octets.
pub open spec fn ipv6_is_v4_mapped(b: Seq<u8>) -> bool {
    &&& (forall|i: int| 0 <= i < 5 ==> ipv6_group(b, i) == 0)
    &&& ipv6_group(b, 5) == 0xffff
}

/// The length of the run of zero groups starting at group `i`.
pub open spec fn zero_run(b: Seq<u8>, i: int) -> int
    decreases 8 - i,
{
    if i < 0 || i >= 8 {
        0
    } else if ipv6_group(b, i) != 0 {
        0
    } else {
        1 + zero_run(b, i + 1)
    }
}

/// The position whose zero run the text elides, scanning from group `i`:
/// the leftmost position with the longest run (a later run displaces an
/// earlier one only when strictly longer); 8 when none is left.
pub open spec fn best_zero_start(b: Seq<u8>, i: int) -> int
    decreases 8 - i,
{
    if i < 0 || i >= 8 {
        8
    } else {
        let rest = best_zero_start(b, i + 1);
        if zero_run(b, i) >= zero_run(b, rest) {
            i
        } else {
            rest
        }
    }
}

/// Groups `lo` up to `hi` in hexadecimal, joined by colons.
pub open spec fn ipv6_join(b: Seq<u8>, lo: int, hi: int) -> Seq<u8>
    decreases hi - lo,
{
    if hi <= lo {
        Seq::<u8>::empty()
    } else if hi == lo + 1 {
        hex_spec(ipv6_group(b, lo))
    } else {
        hex_spec(ipv6_group(b, lo)) + seq![58u8] + ipv6_join(b, lo + 1, hi)
    }
}

/// The text of an IPv6 address: an IPv4-mapped address as `::ffff:` and
/// the dotted quad; otherwise the eight groups in lowercase hexadecimal
/// without leading zeros, joined by colons, with the leftmost longest run
/// of two or more zero groups elided to `::`.
pub open spec fn ipv6_spec(b: Seq<u8>) -> Seq<u8> {
    if ipv6_is_v4_mapped(b) {
        seq![58u8, 58u8, 102u8, 102u8, 102u8, 102u8, 58u8] + ipv4_spec(b[12], b[13], b[14], b[15])
    } else {
        let s = best_zero_start(b, 0);
        let l = zero_run(b, s);
        if l > 1 {
            ipv6_join(b, 0, s) + seq![58u8, 58u8] + ipv6_join(b, s + l, 8)
        } else {
            ipv6_join(b, 0, 8)
        }
    }
}

/// A joined stretch of groups is never longer than its groups at four
/// digits each, with their colons.
pub proof fn lemma_ipv6_join_len(b: Seq<u8>, lo: int, hi: int)
    requires
        hi <= 8,
    ensures
        ipv6_join(b, lo, hi).len() <= (if hi > lo {
            5 * (hi - lo) - 1
        } else {
            0
        }),
    decreases hi - lo,
{
    if hi > lo {
        assert(pow16(0) == 1);
        assert(pow16(1) == 16);
        assert(pow16(2) == 256);
        assert(pow16(3) == 4096);
        assert(pow16(4) == 65536);
        lemma_hex_len(ipv6_group(b, lo), 4);
        if hi > lo + 1 {
            lemma_ipv6_join_len(b, lo + 1, hi);
        }
    }
}

/// The whole IPv6 text is never longer than 39 bytes.
pub proof fn lemma_ipv6_text_len(b: Seq<u8>)
    requires
        b.len() == 16,
    ensures
        ipv6_spec(b).len() <= 39,
{
    if ipv6_is_v4_mapped(b) {
        lemma_ipv4_text_len(b[12], b[13], b[14], b[15]);
    } else {
        let s = best_zero_start(b, 0);
        let l = zero_run(b, s);
        lemma_best_zero_bounds(b, 0);
        lemma_zero_run_bounds(b, s);
        lemma_ipv6_join_len(b, 0, s);
        lemma_ipv6_join_len(b, s + l, 8);
        lemma_ipv6_join_len(b, 0, 8);
    }
}

/// The elided position lies among the groups, or just past them.
pub proof fn lemma_best_zero_bounds(b: Seq<u8>, i: int)
    ensures
        0 <= i <= 8 ==> i <= best_zero_start(b, i) <= 8,
    decreases 8 - i,
{
    if 0 <= i < 8 {
        lemma_best_zero_bounds(b, i + 1);
    }
}

/// A zero run never reaches past the last group.
pub proof fn lemma_zero_run_bounds(b: Seq<u8>, i: int)
    ensures
        0 <= zero_run(b, i),
        0 <= i <= 8 ==> i + zero_run(b, i) <= 8,
    decreases 8 - i,
{
    if 0 <= i < 8 {
        lemma_zero_run_bounds(b, i + 1);
    }
}

fn ipv6_group_at(b: &[u8], i: usize) -> (g: u16)
    requires
        b@.len() == 16,
        i < 8,
    ensures
        g == ipv6_group(b@, i as int),
{
    (b[2 * i] as u16) * 256 + (b[2 * i + 1] as u16)
}

fn zero_run_at(b: &[u8], i: usize) -> (r: usize)
    requires
        b@.len() == 16,
        i <= 8,
    ensures
        r == zero_run(b@, i as int),
        r <= 8 - i,
    decreases 8 - i,
{
    if i >= 8 {
        0
    } else if ipv6_group_at(b, i) != 0 {
        0
    } else {
        1 + zero_run_at(b, i + 1)
    }
}

fn best_zero_from(b: &[u8], i: usize) -> (r: usize)
    requires
        b@.len() == 16,
        i <= 8,
    ensures
        r == best_zero_start(b@, i as int),
        r <= 8,
    decreases 8 - i,
{
    if i >= 8 {
        8
    } else {
        let rest = best_zero_from(b, i + 1);
        if zero_run_at(b, i) >= zero_run_at(b, rest) {
            i
        } else {
            rest
        }
    }
}

fn ipv6_join_text(b: &[u8], lo: usize, hi: usize) -> (r: Vec<u8>)
    requires
        b@.len() == 16,
        hi <= 8,
    ensures
        r@ == ipv6_join(b@, lo as int, hi as int),
    decreases 8 - lo,
{
    if hi <= lo {
        let r: Vec<u8> = Vec::new();
        assert(r@ =~= ipv6_join(b@, lo as int, hi as int));
        r
    } else if hi == lo + 1 {
        hex_rec(ipv6_group_at(b, lo))
    } else {
        let mut r = hex_rec(ipv6_group_at(b, lo));
        r.push(58);
        let mut rest = ipv6_join_text(b, lo + 1, hi);
        r.append(&mut rest);
        assert(r@ =~= ipv6_join(b@, lo as int, hi as int));
        r
    }
}

/// Writes the 16 bytes of an IPv6 address as its text.
pub fn ipv6_text(b: &[u8]) -> (r: Vec<u8>)
    requires
        b@.len() == 16,
    ensures
        r@ == ipv6_spec(b@),
{
    let mut zeros = true;
    let mut i: usize = 0;
    while i < 5
        invariant
            i <= 5,
            b@.len() == 16,
            zeros == (forall|j: int| 0 <= j < i ==> ipv6_group(b@, j) == 0),
        decreases 5 - i,
    {
        if ipv6_group_at(b, i) != 0 {
            zeros = false;
        }
        i += 1;
    }
    if zeros && ipv6_group_at(b, 5) == 0xffff {
        let mut r: Vec<u8> = Vec::new();
        r.push(58);
        r.push(58);
        r.push(102);
        r.push(102);
        r.push(102);
        r.push(102);
        r.push(58);
        let mut quad = ipv4_text(b[12], b[13], b[14], b[15]);
        r.append(&mut quad);
        proof {
            assert(ipv6_is_v4_mapped(b@));
            assert(r@ =~= ipv6_spec(b@));
        }
        r
    } else {
        proof {
            assert(!ipv6_is_v4_mapped(b@));
        }
        let s = best_zero_from(b, 0);
        let l = zero_run_at(b, s);
        if l > 1 {
            let mut r = ipv6_join_text(b, 0, s);
            r.push(58);
            r.push(58);
            let mut rest = ipv6_join_text(b, s + l, 8);
            r.append(&mut rest);
            proof {
                assert(r@ =~= ipv6_spec(b@));
            }
            r
        } else {
            let r = ipv6_join_text(b, 0, 8);
            r
        }
    }
}

} // verus!
