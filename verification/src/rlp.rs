//! The canonical wire encoding of the chain: every field of a transaction is
//! a byte string or unsigned integer carrying a length prefix, and the
//! transaction itself is a length-prefixed list of its fields.

use vstd::prelude::*;

verus! {

/// The minimal big-endian byte string of `n`: no leading zero, empty for 0.
pub open spec fn be_min(n: nat) -> Seq<u8>
    decreases n,
{
    if n == 0 {
        Seq::empty()
    } else {
        be_min(n / 256) + seq![(n % 256) as u8]
    }
}

/// `256^k`.
pub open spec fn pow256(k: nat) -> nat
    decreases k,
{
    if k == 0 {
        1
    } else {
        256 * pow256((k - 1) as nat)
    }
}

/// A value below `256^k` has at most `k` minimal big-endian bytes.
pub proof fn lemma_be_min_len(n: nat, k: nat)
    requires
        n < pow256(k),
    ensures
        be_min(n).len() <= k,
    decreases k,
{
    if n > 0 {
        assert(k > 0);
        assert(n / 256 < pow256((k - 1) as nat)) by (nonlinear_arith)
            requires
                n < 256 * pow256((k - 1) as nat),
                pow256((k - 1) as nat) > 0,
        ;
        lemma_be_min_len(n / 256, (k - 1) as nat);
    }
}

/// The encoding of the byte string `p`: itself for a single low byte, else
/// `p` behind a length prefix.
pub open spec fn rlp_str(p: Seq<u8>) -> Seq<u8> {
    if p.len() == 1 && p[0] < 0x80 {
        p
    } else if p.len() <= 55 {
        seq![(0x80 + p.len()) as u8] + p
    } else {
        seq![(0xb7 + be_min(p.len() as nat).len()) as u8] + be_min(p.len() as nat) + p
    }
}

/// The encoding of the unsigned integer `n`: its minimal big-endian bytes,
/// encoded as a byte string.
pub open spec fn rlp_uint(n: nat) -> Seq<u8> {
    rlp_str(be_min(n))
}

/// The encoding of a list whose members together encode to `p`.
pub open spec fn rlp_list(p: Seq<u8>) -> Seq<u8> {
    if p.len() <= 55 {
        seq![(0xc0 + p.len()) as u8] + p
    } else {
        seq![(0xf7 + be_min(p.len() as nat).len()) as u8] + be_min(p.len() as nat) + p
    }
}

/// The bytes of `n`, least significant first; empty for zero.
pub open spec fn bytes_low_first(n: nat) -> Seq<u8>
    decreases n,
{
    if n == 0 {
        Seq::empty()
    } else {
        seq![(n % 256) as u8] + bytes_low_first(n / 256)
    }
}

/// The byte string `d` read back to front.
pub open spec fn rev_bytes(d: Seq<u8>) -> Seq<u8>
    decreases d.len(),
{
    if d.len() == 0 {
        Seq::empty()
    } else {
        seq![d.last()] + rev_bytes(d.drop_last())
    }
}

/// Reading the low-first bytes of `n` back to front gives its minimal
/// big-endian byte string.
pub proof fn lemma_rev_bytes_low_first(n: nat)
    ensures
        rev_bytes(bytes_low_first(n)) =~= be_min(n),
    decreases n,
{
    if n > 0 {
        lemma_rev_bytes_low_first(n / 256);
        lemma_rev_first_byte(seq![(n % 256) as u8], bytes_low_first(n / 256));
    }
}

/// Splitting the first byte off a byte string moves it to the back of the
/// reversed string.
proof fn lemma_rev_first_byte(h: Seq<u8>, t: Seq<u8>)
    requires
        h.len() == 1,
    ensures
        rev_bytes(h + t) =~= rev_bytes(t) + h,
    decreases t.len(),
{
    if t.len() == 0 {
        assert((h + t) =~= h);
        assert(h.drop_last() =~= Seq::<u8>::empty());
        assert(rev_bytes(h.drop_last()) =~= Seq::<u8>::empty());
        assert(h.last() == h[0]);
        assert(rev_bytes(h) =~= seq![h.last()] + rev_bytes(h.drop_last()));
    } else {
        assert((h + t).drop_last() =~= h + t.drop_last());
        assert((h + t).last() == t.last());
        lemma_rev_first_byte(h, t.drop_last());
    }
}

/// The minimal big-endian byte string of `n`, as a vector.
pub fn be_min_bytes(n: u128) -> (r: Vec<u8>)
    ensures
        r@ == be_min(n as nat),
        r@.len() <= 16,
{
    let mut digs: Vec<u8> = Vec::new();
    let mut m: u128 = n;
    while m > 0
        invariant
            bytes_low_first(n as nat) =~= digs@ + bytes_low_first(m as nat),
        decreases m,
    {
        let d: u8 = (m % 256) as u8;
        digs.push(d);
        proof {
            assert(bytes_low_first(m as nat) =~= seq![d] + bytes_low_first((m as nat) / 256));
            assert(digs@ + bytes_low_first((m as nat) / 256) =~= bytes_low_first(n as nat));
            assert((m as nat) / 256 == (m / 256) as nat);
        }
        m = m / 256;
    }
    proof {
        assert(digs@ + bytes_low_first(0) =~= digs@);
        lemma_rev_bytes_low_first(n as nat);
    }
    let mut out: Vec<u8> = Vec::new();
    while digs.len() > 0
        invariant
            out@ + rev_bytes(digs@) == rev_bytes(bytes_low_first(n as nat)),
        decreases digs@.len(),
    {
        let last = digs.pop();
        match last {
            Some(d) => {
                out.push(d);
                proof {
                    assert(out@ + rev_bytes(digs@) =~= rev_bytes(bytes_low_first(n as nat)));
                }
            },
            None => {},
        }
    }
    proof {
        assert(rev_bytes(digs@) =~= Seq::<u8>::empty());
        assert(out@ =~= out@ + rev_bytes(digs@));
        assert((n as nat) < pow256(16)) by {
            reveal_with_fuel(pow256, 17);
        }
        lemma_be_min_len(n as nat, 16);
    }
    out
}

/// Appends the encoding of the byte string `data` to `buf`.  Every field of
/// a transfer transaction is at most 33 bytes, so only the short form is
/// needed.
pub fn rlp_append_bytes(buf: &mut Vec<u8>, data: &[u8])
    requires
        data@.len() <= 55,
    ensures
        final (buf)@ == old(buf)@ + rlp_str(data@),
{
    if data.len() == 1 && data[0] < 0x80 {
        buf.push(data[0]);
        proof {
            assert(data@ =~= seq![data@[0]]);
            assert(buf@ =~= old(buf)@ + rlp_str(data@));
        }
    } else {
        let prefix: u8 = 0x80 + (data.len() as u8);
        buf.push(prefix);
        buf.extend_from_slice(data);
        proof {
            assert(buf@ =~= old(buf)@ + rlp_str(data@));
        }
    }
}

/// Appends the encoding of the unsigned integer `n` to `buf`.
pub fn rlp_append_uint(buf: &mut Vec<u8>, n: u128)
    ensures
        final (buf)@ == old(buf)@ + rlp_uint(n as nat),
{
    let bytes = be_min_bytes(n);
    rlp_append_bytes(buf, bytes.as_slice());
}

/// Wraps the already-encoded members `payload` in a list prefix.
pub fn rlp_wrap_list(payload: &Vec<u8>) -> (r: Vec<u8>)
    requires
        payload@.len() <= 0xffff,
    ensures
        r@ == rlp_list(payload@),
{
    let mut out: Vec<u8> = Vec::new();
    if payload.len() <= 55 {
        out.push(0xc0 + (payload.len() as u8));
    } else {
        let len_bytes = be_min_bytes(payload.len() as u128);
        proof {
            assert(payload@.len() < pow256(2)) by {
                reveal_with_fuel(pow256, 3);
            }
            lemma_be_min_len(payload@.len() as nat, 2);
            assert(len_bytes@.len() >= 1);
        }
        out.push(0xf7 + (len_bytes.len() as u8));
        out.extend_from_slice(len_bytes.as_slice());
    }
    out.extend_from_slice(payload.as_slice());
    proof {
        assert(out@ =~= rlp_list(payload@));
    }
    out
}

/// `s` with its leading zero bytes removed: the minimal big-endian form of
/// the value `s` spells.
pub open spec fn trim_zeros(s: Seq<u8>) -> Seq<u8>
    decreases s.len(),
{
    if s.len() > 0 && s[0] == 0 {
        trim_zeros(s.skip(1))
    } else {
        s
    }
}

/// Copies `s` without its leading zero bytes.
pub fn trim_leading_zeros(s: &[u8]) -> (r: Vec<u8>)
    ensures
        r@ == trim_zeros(s@),
        r@.len() <= s@.len(),
{
    let n: usize = s.len();
    let mut start: usize = 0;
    proof {
        assert(s@.skip(0) =~= s@);
    }
    while start < n && s[start] == 0
        invariant
            start <= n,
            s@.len() == n,
            trim_zeros(s@) == trim_zeros(s@.skip(start as int)),
        decreases n - start,
    {
        proof {
            assert(s@.skip(start as int)[0] == s@[start as int]);
            assert(s@.skip(start as int).skip(1) =~= s@.skip(start as int + 1));
        }
        start = start + 1;
    }
    proof {
        if start < n {
            assert(s@.skip(start as int)[0] == s@[start as int]);
        }
        assert(trim_zeros(s@.skip(start as int)) == s@.skip(start as int));
    }
    let mut out: Vec<u8> = Vec::new();
    let mut i: usize = start;
    while i < n
        invariant
            start <= i <= n,
            s@.len() == n,
            out@ =~= s@.subrange(start as int, i as int),
        decreases n - i,
    {
        out.push(s[i]);
        proof {
            assert(out@ =~= s@.subrange(start as int, i as int + 1));
        }
        i = i + 1;
    }
    proof {
        assert(s@.subrange(start as int, n as int) =~= s@.skip(start as int));
    }
    out
}

} // verus!
