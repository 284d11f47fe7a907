//! Conversion of the 64-byte SEC1 (`r || s`) ECDSA signatures handed out by the
//! management canister into the DER form that Bitcoin script signatures use.
use crate::bytes::push_range;
use crate::foreign::sighash_all;
use vstd::prelude::*;

verus! {

/// `b` without its leading zero bytes.
pub open spec fn strip_leading_zeros(b: Seq<u8>) -> Seq<u8>
    decreases b.len(),
{
    if b.len() > 0 && b[0] == 0 {
        strip_leading_zeros(b.drop_first())
    } else {
        b
    }
}

/// The minimal DER integer body for the big-endian unsigned value `b`: its
/// bytes without leading zeros, with one zero byte put in front when the
/// top bit of the first is set (so that the value is not read back as
/// negative); zero is the single byte 0.
pub open spec fn der_integer_body(b: Seq<u8>) -> Seq<u8> {
    let t = strip_leading_zeros(b);
    if t.len() == 0 {
        seq![0u8]
    } else if t[0] >= 0x80 {
        seq![0u8] + t
    } else {
        t
    }
}

/// The `r` half of a SEC1 signature: its first 32 bytes.
pub open spec fn sec1_r(sig: Seq<u8>) -> Seq<u8> {
    sig.subrange(0, 32)
}

/// The `s` half of a SEC1 signature: everything after the first 32 bytes.
pub open spec fn sec1_s(sig: Seq<u8>) -> Seq<u8> {
    sig.subrange(32, sig.len() as int)
}

/// The length byte that `len as u8` gives.
pub open spec fn len_byte(len: nat) -> u8 {
    (len % 256) as u8
}

/// When the sequence header byte `4 + |r| + |s|` fits in a byte; otherwise
/// the conversion overflows.
pub open spec fn sec1_to_der_fits(sig: Seq<u8>) -> bool {
    &&& sig.len() >= 33
    &&& 4 + der_integer_body(sec1_r(sig)).len() + len_byte(der_integer_body(sec1_s(sig)).len())
        <= 255
}

/// The DER encoding `0x30 len 0x02 |r| r 0x02 |s| s` of a SEC1 signature.
pub open spec fn spec_sec1_to_der(sig: Seq<u8>) -> Seq<u8> {
    let r = der_integer_body(sec1_r(sig));
    let s = der_integer_body(sec1_s(sig));
    seq![
        0x30u8,
        (4 + r.len() + len_byte(s.len())) as u8,
        0x02u8,
        len_byte(r.len()),
    ] + r + seq![0x02u8, len_byte(s.len())] + s
}

/// The unsigned big-endian value of some bytes.
pub open spec fn be_value(b: Seq<u8>) -> nat
    decreases b.len(),
{
    if b.len() == 0 {
        0
    } else {
        be_value(b.drop_last()) * 256 + b.last() as nat
    }
}

proof fn lemma_be_value_zero_prefix(b: Seq<u8>)
    ensures
        be_value(seq![0u8] + b) == be_value(b),
    decreases b.len(),
{
    if b.len() > 0 {
        lemma_be_value_zero_prefix(b.drop_last());
        assert((seq![0u8] + b).drop_last() =~= seq![0u8] + b.drop_last());
        assert((seq![0u8] + b).last() == b.last());
    } else {
        assert((seq![0u8] + b).drop_last() =~= Seq::<u8>::empty());
        assert(be_value(Seq::<u8>::empty()) == 0);
        assert((seq![0u8] + b).last() == 0);
        assert(b =~= Seq::<u8>::empty());
    }
}

proof fn lemma_strip_leading_zeros(b: Seq<u8>)
    ensures
        be_value(strip_leading_zeros(b)) == be_value(b),
        strip_leading_zeros(b).len() > 0 ==> strip_leading_zeros(b)[0] != 0,
        strip_leading_zeros(b).len() <= b.len(),
    decreases b.len(),
{
    if b.len() > 0 && b[0] == 0 {
        lemma_strip_leading_zeros(b.drop_first());
        assert(b =~= seq![0u8] + b.drop_first());
        lemma_be_value_zero_prefix(b.drop_first());
    }
}

/// What a DER integer body holds: the value it was made from, in a minimal
/// form (no redundant leading zero) that is not read back as negative.
proof fn lemma_der_integer_body(b: Seq<u8>)
    ensures
        be_value(der_integer_body(b)) == be_value(b),
        der_integer_body(b).len() > 0,
        der_integer_body(b)[0] < 0x80,
        der_integer_body(b).len() > 1 ==> der_integer_body(b)[0] != 0 || der_integer_body(b)[1]
            >= 0x80,
        der_integer_body(b).len() <= b.len() + 1,
{
    let t = strip_leading_zeros(b);
    lemma_strip_leading_zeros(b);
    if t.len() == 0 {
        assert(be_value(seq![0u8]) == 0) by {
            assert(seq![0u8].drop_last() =~= Seq::<u8>::empty());
            assert(be_value(Seq::<u8>::empty()) == 0);
            assert(seq![0u8].last() == 0);
        }
        assert(t =~= Seq::<u8>::empty());
        assert(be_value(t) == 0);
    } else if t[0] >= 0x80 {
        lemma_be_value_zero_prefix(t);
    }
}

/// The DER form holds `r` and `s` with their values unchanged, each as a
/// non-negative integer, behind headers whose lengths are right: a verifier
/// reads back the signature that was converted.
pub proof fn law_der_keeps_r_and_s(sig: Seq<u8>)
    requires
        sec1_to_der_fits(sig),
        sec1_s(sig).len() < 255,
    ensures
        ({
            let d = spec_sec1_to_der(sig);
            let rl = d[3] as int;
            let sl = d[5 + rl] as int;
            &&& d[0] == 0x30 && d[2] == 0x02 && d[4 + rl] == 0x02
            &&& d[1] as int == d.len() - 2
            &&& d.len() == 6 + rl + sl
            &&& be_value(d.subrange(4, 4 + rl)) == be_value(sec1_r(sig))
            &&& be_value(d.subrange(6 + rl, 6 + rl + sl)) == be_value(sec1_s(sig))
            &&& d[4] < 0x80
            &&& d[6 + rl] < 0x80
            &&& rl > 1 ==> d[4] != 0 || d[5] >= 0x80
            &&& sl > 1 ==> d[6 + rl] != 0 || d[7 + rl] >= 0x80
        }),
{
    lemma_der_integer_body(sec1_r(sig));
    lemma_der_integer_body(sec1_s(sig));
    let r = der_integer_body(sec1_r(sig));
    let s = der_integer_body(sec1_s(sig));
    let d = spec_sec1_to_der(sig);
    assert(len_byte(r.len()) == r.len());
    assert(len_byte(s.len()) == s.len());
    let rl = r.len() as int;
    assert(d.subrange(4, 4 + rl) =~= r);
    assert(d.subrange(6 + rl, 6 + rl + s.len()) =~= s);
}

proof fn lemma_top_bit(x: u8)
    ensures
        (x & 0x80 != 0) == (x >= 0x80),
{
    assert((x & 0x80 != 0) == (x >= 0x80)) by (bit_vector);
}

proof fn lemma_len_byte(x: usize)
    ensures
        x as u8 == len_byte(x as nat),
{
    assert(x as u8 == (x % 256) as u8) by (bit_vector);
}

proof fn lemma_strip_step(src: Seq<u8>, k: int, to: int)
    requires
        0 <= k < to <= src.len(),
        src[k] == 0,
    ensures
        strip_leading_zeros(src.subrange(k, to)) == strip_leading_zeros(src.subrange(k + 1, to)),
{
    assert(src.subrange(k, to).drop_first() =~= src.subrange(k + 1, to));
}

/// The DER integer body of `src[from..to]`.
fn der_integer(src: &[u8], from: usize, to: usize) -> (out: Vec<u8>)
    requires
        from <= to <= src@.len(),
    ensures
        out@ == der_integer_body(src@.subrange(from as int, to as int)),
{
    let mut i = from;
    while i < to && src[i] == 0
        invariant
            from <= i <= to <= src@.len(),
            strip_leading_zeros(src@.subrange(from as int, to as int)) == strip_leading_zeros(
                src@.subrange(i as int, to as int),
            ),
        decreases to - i,
    {
        proof {
            lemma_strip_step(src@, i as int, to as int);
        }
        i = i + 1;
    }
    let mut out: Vec<u8> = Vec::new();
    if i == to {
        assert(src@.subrange(i as int, to as int) =~= Seq::<u8>::empty());
        out.push(0u8);
        assert(out@ =~= seq![0u8]);
        return out;
    }
    assert(strip_leading_zeros(src@.subrange(i as int, to as int)) == src@.subrange(i as int, to as int));
    proof {
        lemma_top_bit(src@[i as int]);
    }
    if src[i] & 0x80 != 0 {
        out.push(0u8);
    }
    push_range(&mut out, src, i, to);
    assert(out@ =~= der_integer_body(src@.subrange(from as int, to as int)));
    out
}

/// Converts a SEC1 ECDSA signature (`r` in the first 32 bytes, `s` in the
/// rest) to the DER format.
pub fn sec1_to_der(sec1_signature: &[u8]) -> (der: Vec<u8>)
    requires
        sec1_to_der_fits(sec1_signature@),
    ensures
        der@ == spec_sec1_to_der(sec1_signature@),
{
    let n = sec1_signature.len();
    let r = der_integer(sec1_signature, 0, 32);
    let s = der_integer(sec1_signature, 32, n);
    let s_len = s.len() as u8;
    let r_len = r.len() as u8;
    proof {
        lemma_len_byte(s.len());
        lemma_len_byte(r.len());
    }
    let mut der = vec![0x30u8, 4 + r_len + s_len, 0x02u8, r_len];
    push_range(&mut der, r.as_slice(), 0, r.len());
    der.push(0x02u8);
    der.push(s_len);
    push_range(&mut der, s.as_slice(), 0, s.len());
    assert(r@.subrange(0, r@.len() as int) == r@);
    assert(s@.subrange(0, s@.len() as int) == s@);
    assert(der@ == spec_sec1_to_der(sec1_signature@));
    der
}

/// A script signature: the DER signature followed by the SIGHASH_ALL flag.
pub open spec fn spec_script_signature(sec1: Seq<u8>) -> Seq<u8> {
    spec_sec1_to_der(sec1).push(1u8)
}

/// The signature that goes into a P2PKH input's script: the SEC1
/// signature converted to DER, with the SIGHASH_ALL flag byte appended.
pub fn script_signature(sec1_signature: &[u8]) -> (sig: Vec<u8>)
    requires
        sec1_to_der_fits(sec1_signature@),
    ensures
        sig@ == spec_script_signature(sec1_signature@),
{
    let mut sig = sec1_to_der(sec1_signature);
    let flag = sighash_all();
    sig.push(flag as u8);
    sig
}

/// Whether a SEC1 signature converts to DER and, with its flag byte, fits
/// in one data push.
pub fn script_signature_fits(sig: &[u8]) -> (r: bool)
    ensures
        r == (sec1_to_der_fits(sig@) && spec_script_signature(sig@).len() < 0x1_0000_0000),
{
    let n = sig.len();
    if n < 33 {
        return false;
    }
    let r_body = der_integer(sig, 0, 32);
    let s_body = der_integer(sig, 32, n);
    proof {
        lemma_der_integer_body(sec1_r(sig@));
    }
    let r_len = r_body.len() as u64;
    let s_len = s_body.len() as u64;
    assert(spec_sec1_to_der(sig@).len() == 6 + r_len + s_len);
    4 + r_len + s_len % 256 <= 255 && s_len < 0x1_0000_0000 - 7 - r_len
}

} // verus!
