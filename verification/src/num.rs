//! Hexadecimal and decimal numerals as the chain protocol uses them:
//! parsing of `0x`-prefixed quantities returned by the node, and rendering
//! of byte strings and quantities for requests and claim keys.

use vstd::prelude::*;

verus! {

use vstd::string::StringSliceAdditionalSpecFns;

// ---------------------------------------------------------------------------
// Digits
// ---------------------------------------------------------------------------
/// Is `b` the ASCII code of a hexadecimal digit?
pub open spec fn is_hex_digit(b: u8) -> bool {
    (0x30 <= b && b <= 0x39) || (0x41 <= b && b <= 0x46) || (0x61 <= b && b <= 0x66)
}

/// The value of the hexadecimal digit with ASCII code `b`.
pub open spec fn hex_digit_val(b: u8) -> nat {
    if 0x30 <= b && b <= 0x39 {
        (b - 0x30) as nat
    } else if 0x41 <= b && b <= 0x46 {
        (b - 0x41 + 10) as nat
    } else {
        (b - 0x61 + 10) as nat
    }
}

/// Every byte of `s` is the ASCII code of a hexadecimal digit.
pub open spec fn all_hex(s: Seq<u8>) -> bool {
    forall|i: int| 0 <= i < s.len() ==> is_hex_digit(s[i])
}

/// The value of the hexadecimal numeral `s` (most significant digit first).
pub open spec fn hex_val(s: Seq<u8>) -> nat
    decreases s.len(),
{
    if s.len() == 0 {
        0
    } else {
        hex_val(s.drop_last()) * 16 + hex_digit_val(s.last())
    }
}

/// Is `b` the ASCII code of a decimal digit?
pub open spec fn is_dec_digit(b: u8) -> bool {
    0x30 <= b && b <= 0x39
}

/// Every byte of `s` is the ASCII code of a decimal digit.
pub open spec fn all_dec(s: Seq<u8>) -> bool {
    forall|i: int| 0 <= i < s.len() ==> is_dec_digit(s[i])
}

/// The value of the decimal numeral `s` (most significant digit first).
pub open spec fn dec_val(s: Seq<u8>) -> nat
    decreases s.len(),
{
    if s.len() == 0 {
        0
    } else {
        dec_val(s.drop_last()) * 10 + (s.last() - 0x30) as nat
    }
}

/// `s` with every leading `"0x"` removed, as `str::trim_start_matches` does.
pub open spec fn strip_hex_prefix(s: Seq<u8>) -> Seq<u8>
    decreases s.len(),
{
    if s.len() >= 2 && s[0] == 0x30 && s[1] == 0x78 {
        strip_hex_prefix(s.skip(2))
    } else {
        s
    }
}

/// A numeral's value only grows as digits are appended to it.
pub proof fn lemma_hex_val_prefix_le(s: Seq<u8>, i: int)
    requires
        0 <= i <= s.len(),
    ensures
        hex_val(s.take(i)) <= hex_val(s),
    decreases s.len() - i,
{
    if i < s.len() {
        assert(s.take(i + 1).drop_last() =~= s.take(i));
        assert(hex_val(s.take(i + 1)) == hex_val(s.take(i)) * 16 + hex_digit_val(
            s.take(i + 1).last(),
        ));
        lemma_hex_val_prefix_le(s, i + 1);
    } else {
        assert(s.take(i) =~= s);
    }
}

/// As `lemma_hex_val_prefix_le`, for decimal numerals.
pub proof fn lemma_dec_val_prefix_le(s: Seq<u8>, i: int)
    requires
        0 <= i <= s.len(),
    ensures
        dec_val(s.take(i)) <= dec_val(s),
    decreases s.len() - i,
{
    if i < s.len() {
        assert(s.take(i + 1).drop_last() =~= s.take(i));
        assert(dec_val(s.take(i + 1)) == dec_val(s.take(i)) * 10 + (s.take(i + 1).last()
            - 0x30) as nat);
        lemma_dec_val_prefix_le(s, i + 1);
    } else {
        assert(s.take(i) =~= s);
    }
}

// ---------------------------------------------------------------------------
// Parsing
// ---------------------------------------------------------------------------
/// Parses a hexadecimal quantity as the node reports them, ignoring any
/// number of leading `"0x"` markers.  Returns the value exactly when what
/// remains is a non-empty, all-hexadecimal numeral that fits in a `u128`.
pub fn parse_hex_u128(s: &str) -> (r: Option<u128>)
    ensures
        ({
            let t = strip_hex_prefix(s.spec_bytes());
            &&& (r is Some <==> t.len() > 0 && all_hex(t) && hex_val(t) <= u128::MAX)
            &&& (r matches Some(n) ==> n == hex_val(t))
        }),
{
    let b: &[u8] = s.as_bytes();
    let n: usize = b.len();
    let mut start: usize = 0;
    proof {
        assert(b@.skip(0) =~= b@);
    }
    while n - start >= 2 && b[start] == 0x30 && b[start + 1] == 0x78
        invariant
            b@.len() == n,
            start <= n,
            strip_hex_prefix(b@) == strip_hex_prefix(b@.skip(start as int)),
        decreases n - start,
    {
        proof {
            assert(b@.skip(start as int)[0] == b@[start as int]);
            assert(b@.skip(start as int)[1] == b@[start as int + 1]);
            assert(b@.skip(start as int).skip(2) =~= b@.skip(start as int + 2));
        }
        start = start + 2;
    }
    let ghost rest: Seq<u8> = b@.skip(start as int);
    proof {
        if rest.len() >= 2 {
            assert(rest[0] == b@[start as int]);
            assert(rest[1] == b@[start as int + 1]);
        }
        assert(strip_hex_prefix(rest) == rest);
    }
    if start == n {
        return None;
    }
    let mut val: u128 = 0;
    let mut i: usize = start;
    while i < n
        invariant
            start <= i <= n,
            b@.len() == n,
            start < n,
            rest == b@.skip(start as int),
            b@ == s.spec_bytes(),
            strip_hex_prefix(s.spec_bytes()) == rest,
            all_hex(rest.take(i - start)),
            val == hex_val(rest.take(i - start)),
        decreases n - i,
    {
        let c: u8 = b[i];
        proof {
            assert(rest[i - start] == b@[i as int]);
        }
        let d: u8;
        if 0x30 <= c && c <= 0x39 {
            d = c - 0x30;
        } else if 0x41 <= c && c <= 0x46 {
            d = c - 0x41 + 10;
        } else if 0x61 <= c && c <= 0x66 {
            d = c - 0x61 + 10;
        } else {
            proof {
                assert(!is_hex_digit(rest[i - start]));
                assert(!all_hex(rest));
            }
            return None;
        }
        if val > (u128::MAX - d as u128) / 16 {
            proof {
                vstd::arithmetic::div_mod::lemma_fundamental_div_mod(
                    (u128::MAX - d as u128) as int,
                    16,
                );
                assert(rest.take(i - start + 1).drop_last() =~= rest.take(i - start));
                assert(hex_val(rest.take(i - start + 1)) == val * 16 + hex_digit_val(
                    rest[i - start],
                ));
                assert(val * 16 + d as u128 > u128::MAX);
                lemma_hex_val_prefix_le(rest, i - start + 1);
            }
            return None;
        }
        proof {
            vstd::arithmetic::div_mod::lemma_fundamental_div_mod(
                (u128::MAX - d as u128) as int,
                16,
            );
            assert(val * 16 + d as u128 <= u128::MAX);
            assert(rest.take(i - start + 1).drop_last() =~= rest.take(i - start));
        }
        val = val * 16 + d as u128;
        i = i + 1;
    }
    proof {
        assert(rest.take(n - start) =~= rest);
    }
    Some(val)
}

/// As `parse_hex_u128`, for values that must fit in a `u64`.
pub fn parse_hex_u64(s: &str) -> (r: Option<u64>)
    ensures
        ({
            let t = strip_hex_prefix(s.spec_bytes());
            &&& (r is Some <==> t.len() > 0 && all_hex(t) && hex_val(t) <= u64::MAX)
            &&& (r matches Some(n) ==> n == hex_val(t))
        }),
{
    match parse_hex_u128(s) {
        Some(v) => {
            if v <= u64::MAX as u128 {
                Some(v as u64)
            } else {
                None
            }
        },
        None => None,
    }
}

/// Parses a decimal integer, as the configured transfer amount is given.
/// Returns the value exactly when `s` is a non-empty decimal numeral whose
/// value fits in a `u128`.
pub fn parse_dec_u128(s: &str) -> (r: Option<u128>)
    ensures
        ({
            let t = s.spec_bytes();
            &&& (r is Some <==> t.len() > 0 && all_dec(t) && dec_val(t) <= u128::MAX)
            &&& (r matches Some(n) ==> n == dec_val(t))
        }),
{
    let b: &[u8] = s.as_bytes();
    let n: usize = b.len();
    if n == 0 {
        return None;
    }
    let mut val: u128 = 0;
    let mut i: usize = 0;
    while i < n
        invariant
            i <= n,
            b@.len() == n,
            0 < n,
            b@ == s.spec_bytes(),
            all_dec(b@.take(i as int)),
            val == dec_val(b@.take(i as int)),
        decreases n - i,
    {
        let c: u8 = b[i];
        let d: u8;
        if 0x30 <= c && c <= 0x39 {
            d = c - 0x30;
        } else {
            proof {
                assert(!is_dec_digit(b@[i as int]));
                assert(!all_dec(b@));
            }
            return None;
        }
        if val > (u128::MAX - d as u128) / 10 {
            proof {
                vstd::arithmetic::div_mod::lemma_fundamental_div_mod(
                    (u128::MAX - d as u128) as int,
                    10,
                );
                assert(b@.take(i + 1).drop_last() =~= b@.take(i as int));
                assert(dec_val(b@.take(i + 1)) == val * 10 + d as nat);
                assert(val * 10 + d as u128 > u128::MAX);
                lemma_dec_val_prefix_le(b@, i + 1);
            }
            return None;
        }
        proof {
            vstd::arithmetic::div_mod::lemma_fundamental_div_mod((u128::MAX - d as u128) as int, 10);
            assert(val * 10 + d as u128 <= u128::MAX);
            assert(b@.take(i + 1).drop_last() =~= b@.take(i as int));
        }
        val = val * 10 + d as u128;
        i = i + 1;
    }
    proof {
        assert(b@.take(n as int) =~= b@);
    }
    Some(val)
}

/// As `parse_dec_u128`, for values that must fit in a `u64`.
pub fn parse_dec_u64(s: &str) -> (r: Option<u64>)
    ensures
        ({
            let t = s.spec_bytes();
            &&& (r is Some <==> t.len() > 0 && all_dec(t) && dec_val(t) <= u64::MAX)
            &&& (r matches Some(n) ==> n == dec_val(t))
        }),
{
    match parse_dec_u128(s) {
        Some(v) => {
            if v <= u64::MAX as u128 {
                Some(v as u64)
            } else {
                None
            }
        },
        None => None,
    }
}

// ---------------------------------------------------------------------------
// Rendering
// ---------------------------------------------------------------------------
/// The lower-case character of the digit `n` (hexadecimal, so also decimal).
pub open spec fn digit_char(n: nat) -> char {
    if n == 0 {
        '0'
    } else if n == 1 {
        '1'
    } else if n == 2 {
        '2'
    } else if n == 3 {
        '3'
    } else if n == 4 {
        '4'
    } else if n == 5 {
        '5'
    } else if n == 6 {
        '6'
    } else if n == 7 {
        '7'
    } else if n == 8 {
        '8'
    } else if n == 9 {
        '9'
    } else if n == 10 {
        'a'
    } else if n == 11 {
        'b'
    } else if n == 12 {
        'c'
    } else if n == 13 {
        'd'
    } else if n == 14 {
        'e'
    } else {
        'f'
    }
}

/// The lower-case hexadecimal rendering of a byte string, two characters a
/// byte, leading zeroes kept.
pub open spec fn hex_chars_of_bytes(s: Seq<u8>) -> Seq<char>
    decreases s.len(),
{
    if s.len() == 0 {
        Seq::empty()
    } else {
        hex_chars_of_bytes(s.drop_last()) + seq![
            digit_char((s.last() / 16) as nat),
            digit_char((s.last() % 16) as nat),
        ]
    }
}

/// The minimal (no leading zero) hexadecimal numeral of `n`; empty for zero.
pub open spec fn hex_min_chars(n: nat) -> Seq<char>
    decreases n,
{
    if n == 0 {
        Seq::empty()
    } else {
        hex_min_chars(n / 16) + seq![digit_char(n % 16)]
    }
}

/// The minimal decimal numeral of `n`; empty for zero.
pub open spec fn dec_min_chars(n: nat) -> Seq<char>
    decreases n,
{
    if n == 0 {
        Seq::empty()
    } else {
        dec_min_chars(n / 10) + seq![digit_char(n % 10)]
    }
}

/// Appends the character of the digit `n` to `out`.
pub fn push_digit(out: &mut String, n: u8)
    requires
        n < 16,
    ensures
        final (out)@ == old(out)@ + seq![digit_char(n as nat)],
{
    proof {
        reveal_strlit("0");
        reveal_strlit("1");
        reveal_strlit("2");
        reveal_strlit("3");
        reveal_strlit("4");
        reveal_strlit("5");
        reveal_strlit("6");
        reveal_strlit("7");
        reveal_strlit("8");
        reveal_strlit("9");
        reveal_strlit("a");
        reveal_strlit("b");
        reveal_strlit("c");
        reveal_strlit("d");
        reveal_strlit("e");
        reveal_strlit("f");
    }
    match n {
        0 => out.append("0"),
        1 => out.append("1"),
        2 => out.append("2"),
        3 => out.append("3"),
        4 => out.append("4"),
        5 => out.append("5"),
        6 => out.append("6"),
        7 => out.append("7"),
        8 => out.append("8"),
        9 => out.append("9"),
        10 => out.append("a"),
        11 => out.append("b"),
        12 => out.append("c"),
        13 => out.append("d"),
        14 => out.append("e"),
        _ => out.append("f"),
    }
}

/// Appends the full hexadecimal rendering of `bytes` to `out`.
pub fn push_hex_bytes(out: &mut String, bytes: &Vec<u8>)
    ensures
        final (out)@ == old(out)@ + hex_chars_of_bytes(bytes@),
{
    let mut i: usize = 0;
    while i < bytes.len()
        invariant
            i <= bytes@.len(),
            out@ == old(out)@ + hex_chars_of_bytes(bytes@.take(i as int)),
        decreases bytes@.len() - i,
    {
        let b: u8 = bytes[i];
        push_digit(out, b / 16);
        push_digit(out, b % 16);
        proof {
            assert(bytes@.take(i + 1).drop_last() =~= bytes@.take(i as int));
            assert(out@ =~= old(out)@ + hex_chars_of_bytes(bytes@.take(i + 1)));
        }
        i = i + 1;
    }
    proof {
        assert(bytes@.take(bytes@.len() as int) =~= bytes@);
    }
}

/// The hexadecimal digits of `n`, least significant first; empty for zero.
pub open spec fn hex_digits_low_first(n: nat) -> Seq<u8>
    decreases n,
{
    if n == 0 {
        Seq::empty()
    } else {
        seq![(n % 16) as u8] + hex_digits_low_first(n / 16)
    }
}

/// The decimal digits of `n`, least significant first; empty for zero.
pub open spec fn dec_digits_low_first(n: nat) -> Seq<u8>
    decreases n,
{
    if n == 0 {
        Seq::empty()
    } else {
        seq![(n % 10) as u8] + dec_digits_low_first(n / 10)
    }
}

/// The characters of the digit string `d` read back to front.
pub open spec fn rev_digit_chars(d: Seq<u8>) -> Seq<char>
    decreases d.len(),
{
    if d.len() == 0 {
        Seq::empty()
    } else {
        seq![digit_char(d.last() as nat)] + rev_digit_chars(d.drop_last())
    }
}

/// Emitting the low-first digits of `n` back to front gives its minimal
/// hexadecimal numeral.
pub proof fn lemma_rev_digits_hex(n: nat)
    ensures
        rev_digit_chars(hex_digits_low_first(n)) =~= hex_min_chars(n),
    decreases n,
{
    if n > 0 {
        lemma_rev_digits_hex(n / 16);
        lemma_rev_first_digit(seq![(n % 16) as u8], hex_digits_low_first(n / 16));
    }
}

/// As `lemma_rev_digits_hex`, for base ten.
pub proof fn lemma_rev_digits_dec(n: nat)
    ensures
        rev_digit_chars(dec_digits_low_first(n)) =~= dec_min_chars(n),
    decreases n,
{
    if n > 0 {
        lemma_rev_digits_dec(n / 10);
        lemma_rev_first_digit(seq![(n % 10) as u8], dec_digits_low_first(n / 10));
    }
}

/// Splitting the first digit off a digit string moves its character to the
/// back of the reversed rendering.
proof fn lemma_rev_first_digit(h: Seq<u8>, t: Seq<u8>)
    requires
        h.len() == 1,
    ensures
        rev_digit_chars(h + t) =~= rev_digit_chars(t) + seq![digit_char(h[0] as nat)],
    decreases t.len(),
{
    if t.len() == 0 {
        assert((h + t) =~= h);
        assert(h.drop_last() =~= Seq::<u8>::empty());
        assert(rev_digit_chars(h.drop_last()) =~= Seq::<char>::empty());
        assert(h.last() == h[0]);
        assert(rev_digit_chars(h) =~= seq![digit_char(h.last() as nat)] + rev_digit_chars(
            h.drop_last(),
        ));
        assert(rev_digit_chars(h) =~= seq![digit_char(h[0] as nat)]);
    } else {
        assert((h + t).drop_last() =~= h + t.drop_last());
        assert((h + t).last() == t.last());
        lemma_rev_first_digit(h, t.drop_last());
    }
}

/// Appends the minimal hexadecimal numeral of `n` to `out` (nothing for 0).
pub fn push_hex_min(out: &mut String, n: u128)
    ensures
        final (out)@ == old(out)@ + hex_min_chars(n as nat),
{
    let mut digs: Vec<u8> = Vec::new();
    let mut m: u128 = n;
    while m > 0
        invariant
            hex_digits_low_first(n as nat) =~= digs@ + hex_digits_low_first(m as nat),
            all_digits_below(digs@, 16),
        decreases m,
    {
        let d: u8 = (m % 16) as u8;
        digs.push(d);
        proof {
            assert(hex_digits_low_first(m as nat) =~= seq![d] + hex_digits_low_first(
                (m as nat) / 16,
            ));
            assert(digs@ + hex_digits_low_first((m as nat) / 16) =~= hex_digits_low_first(n as nat));
            assert((m as nat) / 16 == (m / 16) as nat);
        }
        m = m / 16;
    }
    proof {
        assert(digs@ + hex_digits_low_first(0) =~= digs@);
        lemma_rev_digits_hex(n as nat);
    }
    emit_reversed(out, &mut digs);
}

/// Appends the minimal decimal numeral of `n` to `out` (nothing for 0).
pub fn push_dec_min(out: &mut String, n: u128)
    ensures
        final (out)@ == old(out)@ + dec_min_chars(n as nat),
{
    let mut digs: Vec<u8> = Vec::new();
    let mut m: u128 = n;
    while m > 0
        invariant
            dec_digits_low_first(n as nat) =~= digs@ + dec_digits_low_first(m as nat),
            all_digits_below(digs@, 16),
        decreases m,
    {
        let d: u8 = (m % 10) as u8;
        digs.push(d);
        proof {
            assert(dec_digits_low_first(m as nat) =~= seq![d] + dec_digits_low_first(
                (m as nat) / 10,
            ));
            assert(digs@ + dec_digits_low_first((m as nat) / 10) =~= dec_digits_low_first(n as nat));
            assert((m as nat) / 10 == (m / 10) as nat);
        }
        m = m / 10;
    }
    proof {
        assert(digs@ + dec_digits_low_first(0) =~= digs@);
        lemma_rev_digits_dec(n as nat);
    }
    emit_reversed(out, &mut digs);
}

/// Every digit of a digit string lies below the base.
pub open spec fn all_digits_below(d: Seq<u8>, base: nat) -> bool {
    forall|i: int| 0 <= i < d.len() ==> (d[i] as nat) < base
}

/// Pops every digit of `digs` and appends its character, so that `out` grows
/// by the back-to-front rendering of `digs`.
fn emit_reversed(out: &mut String, digs: &mut Vec<u8>)
    requires
        all_digits_below(old(digs)@, 16),
    ensures
        final (out)@ == old(out)@ + rev_digit_chars(old(digs)@),
{
    while digs.len() > 0
        invariant
            all_digits_below(digs@, 16),
            out@ + rev_digit_chars(digs@) == old(out)@ + rev_digit_chars(old(digs)@),
        decreases digs@.len(),
    {
        let last = digs.pop();
        match last {
            Some(d) => {
                push_digit(out, d);
                proof {
                    assert(out@ + rev_digit_chars(digs@) =~= old(out)@ + rev_digit_chars(
                        old(digs)@,
                    ));
                }
            },
            None => {},
        }
    }
    proof {
        assert(rev_digit_chars(digs@) =~= Seq::<char>::empty());
        assert(out@ =~= out@ + rev_digit_chars(digs@));
    }
}

/// The `0x`-prefixed minimal hexadecimal quantity rendering of `n`, zero
/// rendered as `0x0`, as the chain protocol writes quantities.
pub open spec fn quantity_hex_chars(n: nat) -> Seq<char> {
    if n == 0 {
        "0x0"@
    } else {
        "0x"@ + hex_min_chars(n)
    }
}

/// Renders `n` as a `0x`-prefixed minimal hexadecimal quantity.
pub fn quantity_hex(n: u128) -> (r: String)
    ensures
        r@ == quantity_hex_chars(n as nat),
{
    let mut out = String::from_str("0x");
    if n == 0 {
        push_digit(&mut out, 0);
        proof {
            reveal_strlit("0x");
            reveal_strlit("0x0");
            assert(out@ =~= "0x0"@);
        }
    } else {
        push_hex_min(&mut out, n);
    }
    out
}

} // verus!
