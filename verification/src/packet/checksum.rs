//! The Internet checksum (RFC 1071) and the TCP/UDP pseudo-header checksum.

use vstd::prelude::*;
use vstd::arithmetic::div_mod::{lemma_mod_multiples_vanish, lemma_fundamental_div_mod};
use crate::addr::{Ipv4Addr, octets_of};
use super::types::{be16, push_bytes, push_be16};

verus! {

/// Sum of the big-endian 16-bit words of `s`; an odd last byte counts as the
/// high byte of a word whose low byte is zero.
pub open spec fn word_sum(s: Seq<u8>) -> nat
    decreases s.len(),
{
    if s.len() == 0 {
        0
    } else if s.len() == 1 {
        s[0] as nat * 256
    } else {
        s[0] as nat * 256 + s[1] as nat + word_sum(s.subrange(2, s.len() as int))
    }
}

/// End-around-carry folding of a sum into 16 bits.
pub open spec fn fold16(n: nat) -> nat
    decreases n,
{
    if n < 0x10000 {
        n
    } else {
        proof {
            lemma_fold_step_decreases(n);
        }
        fold16(n % 0x10000 + n / 0x10000)
    }
}

pub proof fn lemma_fold_step_decreases(n: nat)
    requires
        n >= 0x10000,
    ensures
        n % 0x10000 + n / 0x10000 < n,
{
    lemma_fundamental_div_mod(n as int, 0x10000);
    assert(n / 0x10000 >= 1) by (nonlinear_arith)
        requires n >= 0x10000;
    assert(0x10000 * (n / 0x10000) > n / 0x10000) by (nonlinear_arith)
        requires n / 0x10000 >= 1;
}

/// The ones'-complement checksum of `s`, as `calculate_checksum` computes it.
pub open spec fn internet_checksum(s: Seq<u8>) -> u16 {
    (0xffff - fold16(word_sum(s))) as u16
}

/// `s` with the 16-bit value `w` written big-endian at position `k`.
pub open spec fn with_word(s: Seq<u8>, k: int, w: u16) -> Seq<u8> {
    s.update(k, (w / 256) as u8).update(k + 1, (w % 256) as u8)
}

/// Writes the 16-bit value `w` big-endian at position `k` of `buf`.
pub fn set_be16(buf: &mut Vec<u8>, k: usize, w: u16)
    requires
        k < old(buf)@.len() - 1,
    ensures
        final(buf)@ == with_word(old(buf)@, k as int, w),
{
    let n = buf.len();
    let k1 = k + 1;
    buf.set(k, (w / 256) as u8);
    buf.set(k1, (w % 256) as u8);
}

/// The pseudo header, followed by the segment, over which the TCP and UDP
/// checksums are taken.
pub open spec fn pseudo_header_bytes(src: Ipv4Addr, dst: Ipv4Addr, protocol: u8, length: u16, data: Seq<u8>) -> Seq<u8> {
    octets_of(src) + octets_of(dst) + seq![0u8, protocol] + be16(length) + data
}

pub proof fn lemma_fold_bounds(n: nat)
    ensures
        fold16(n) < 0x10000,
        fold16(n) % 0xffff == n % 0xffff,
        n > 0 ==> fold16(n) > 0,
    decreases n,
{
    if n >= 0x10000 {
        let m = n % 0x10000 + n / 0x10000;
        lemma_fold_step_decreases(n);
        lemma_fold_bounds(m);
        lemma_fundamental_div_mod(n as int, 0x10000);
        // n == 0x10000 * q + r == 0xffff * q + (q + r)
        let q = (n / 0x10000) as int;
        let r = (n % 0x10000) as int;
        assert(n == 0xffff * q + (q + r));
        lemma_mod_multiples_vanish(q, q + r, 0xffff);
        assert(q >= 1) by (nonlinear_arith)
            requires n >= 0x10000, q == n / 0x10000;
    }
}

/// A checksum written into two zero bytes at an even offset makes the
/// checksum of the whole come out zero: what a receiver computes over a
/// packet that the builders produced.
pub proof fn lemma_checksum_verifies(s: Seq<u8>, k: int)
    requires
        0 <= k,
        k + 1 < s.len(),
        k % 2 == 0,
        s[k] == 0,
        s[k + 1] == 0,
    ensures
        internet_checksum(with_word(s, k, internet_checksum(s))) == 0,
{
    let c = internet_checksum(s);
    let total = word_sum(s);
    lemma_fold_bounds(total);
    let f = fold16(total);
    assert(c as nat == 0xffff - f);
    lemma_word_sum_with_word(s, k, c);
    let m = total + c as nat;
    lemma_fold_bounds(m);
    // m == total + 0xffff - f, and f == total (mod 0xffff)
    lemma_fundamental_div_mod(total as int, 0xffff);
    lemma_fundamental_div_mod(f as int, 0xffff);
    let qt = (total / 0xffff) as int;
    let qf = (f / 0xffff) as int;
    assert(m as int == 0xffff * (qt - qf + 1) + 0);
    lemma_mod_multiples_vanish(qt - qf + 1, 0, 0xffff);
    assert(m % 0xffff == 0);
    assert(m > 0);
    assert(fold16(m) == 0xffff);
}

/// Writing a word into two zero bytes at an even offset adds the word to the
/// sum of words.
pub proof fn lemma_word_sum_with_word(s: Seq<u8>, k: int, w: u16)
    requires
        0 <= k,
        k + 1 < s.len(),
        k % 2 == 0,
        s[k] == 0,
        s[k + 1] == 0,
    ensures
        word_sum(with_word(s, k, w)) == word_sum(s) + w as nat,
    decreases k,
{
    let t = with_word(s, k, w);
    if k == 0 {
        assert(t.subrange(2, t.len() as int) =~= s.subrange(2, s.len() as int));
        assert((w / 256) as u8 as nat * 256 + (w % 256) as u8 as nat == w as nat);
    } else {
        let s2 = s.subrange(2, s.len() as int);
        lemma_word_sum_with_word(s2, k - 2, w);
        assert(t.subrange(2, t.len() as int) =~= with_word(s2, k - 2, w));
    }
}

proof fn lemma_word_sum_step(s: Seq<u8>, i: int)
    requires
        0 <= i,
        i + 2 <= s.len(),
    ensures
        word_sum(s.subrange(i, s.len() as int)) == s[i] as nat * 256 + s[i + 1] as nat + word_sum(s.subrange(i + 2, s.len() as int)),
{
    let t = s.subrange(i, s.len() as int);
    assert(t.subrange(2, t.len() as int) =~= s.subrange(i + 2, s.len() as int));
}

/// The Internet checksum of `data` (RFC 1071); that of no bytes is 0xFFFF.
/// The sum of words must fit in 32 bits.
pub fn calculate_checksum(data: &[u8]) -> (r: u16)
    requires
        word_sum(data@) <= u32::MAX,
    ensures
        r == internet_checksum(data@),
{
    let mut sum: u32 = 0;
    let mut i: usize = 0;
    assert(data@.subrange(0, data@.len() as int) =~= data@);
    while data.len() - i > 1
        invariant
            i <= data@.len(),
            word_sum(data@) <= u32::MAX,
            sum as nat + word_sum(data@.subrange(i as int, data@.len() as int)) == word_sum(data@),
        decreases data.len() - i,
    {
        proof {
            lemma_word_sum_step(data@, i as int);
        }
        sum = sum + ((data[i] as u32) * 256 + data[i + 1] as u32);
        i = i + 2;
    }
    if i < data.len() {
        let ghost rest = data@.subrange(i as int, data@.len() as int);
        assert(rest.len() == 1);
        sum = sum + (data[i] as u32) * 256;
    } else {
        assert(data@.subrange(i as int, data@.len() as int).len() == 0);
    }
    assert(sum as nat == word_sum(data@));
    while (sum >> 16) != 0
        invariant
            fold16(sum as nat) == fold16(word_sum(data@)),
        decreases sum,
    {
        let s0 = sum;
        assert(s0 >> 16 == s0 / 0x10000 && s0 & 0xffff == s0 % 0x10000) by (bit_vector);
        assert(s0 >= 0x10000);
        proof {
            lemma_fold_step_decreases(s0 as nat);
        }
        sum = (sum & 0xffff) + (sum >> 16);
    }
    let s1 = sum;
    assert(s1 >> 16 == 0 ==> s1 < 0x10000) by (bit_vector);
    assert(s1 < 0x10000 ==> (!s1) as u16 == 0xffff - s1) by (bit_vector);
    !sum as u16
}

/// The checksum of the pseudo header (source and destination addresses, a
/// zero byte, the protocol number and the length) followed by `data`.
pub fn calculate_transport_checksum(src_ip: Ipv4Addr, dst_ip: Ipv4Addr, protocol: u8, length: u16, data: &[u8]) -> (r: u16)
    requires
        word_sum(pseudo_header_bytes(src_ip, dst_ip, protocol, length, data@)) <= u32::MAX,
    ensures
        r == internet_checksum(pseudo_header_bytes(src_ip, dst_ip, protocol, length, data@)),
{
    let mut pseudo_header: Vec<u8> = Vec::new();
    let s = src_ip.octets();
    let d = dst_ip.octets();
    push_bytes(&mut pseudo_header, &s);
    push_bytes(&mut pseudo_header, &d);
    pseudo_header.push(0);
    pseudo_header.push(protocol);
    push_be16(&mut pseudo_header, length);
    push_bytes(&mut pseudo_header, data);
    assert(pseudo_header@ =~= pseudo_header_bytes(src_ip, dst_ip, protocol, length, data@));
    calculate_checksum(pseudo_header.as_slice())
}

} // verus!
