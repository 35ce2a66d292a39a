//! Destination addresses and the claim ledger's keys.  An address arrives as
//! a hexadecimal string; it is validated into its twenty bytes, and every
//! ledger key is derived from those bytes in lower case, so that the casing
//! of the request can never produce a second claim for the same address.

use vstd::prelude::*;
use crate::errors::FaucetError;
use crate::num::{
    all_hex, dec_min_chars, hex_chars_of_bytes, hex_digit_val, is_hex_digit,
    push_dec_min, push_digit, push_hex_bytes,
};

verus! {

use vstd::string::StringSliceAdditionalSpecFns;

/// Is `s` (as raw bytes) a well-formed address string: forty hexadecimal
/// digits, with or without a `0x` marker?
pub open spec fn valid_address(s: Seq<u8>) -> bool {
    ||| (s.len() == 42 && s[0] == 0x30 && s[1] == 0x78 && all_hex(s.skip(2)))
    ||| (s.len() == 40 && all_hex(s))
}

/// The forty hexadecimal digits of a well-formed address string.
pub open spec fn addr_digits(s: Seq<u8>) -> Seq<u8> {
    if s.len() == 42 {
        s.skip(2)
    } else {
        s
    }
}

/// The twenty bytes a well-formed address string spells.
pub open spec fn addr_bytes_of(s: Seq<u8>) -> Seq<u8> {
    Seq::new(
        20,
        |i: int|
            (hex_digit_val(addr_digits(s)[2 * i]) * 16 + hex_digit_val(
                addr_digits(s)[2 * i + 1],
            )) as u8,
    )
}

/// Parses and validates a destination address, returning its twenty bytes.
/// Exactly the well-formed strings are accepted; anything else is a
/// validation error.
pub fn parse_address(s: &str) -> (r: Result<Vec<u8>, FaucetError>)
    ensures
        r is Ok <==> valid_address(s.spec_bytes()),
        r matches Ok(a) ==> a@ == addr_bytes_of(s.spec_bytes()) && a@.len() == 20,
        r matches Err(e) ==> e is InvalidAddress,
{
    let b: &[u8] = s.as_bytes();
    let n: usize = b.len();
    let start: usize;
    if n == 42 {
        if b[0] == 0x30 && b[1] == 0x78 {
            start = 2;
        } else {
            return Err(FaucetError::InvalidAddress);
        }
    } else if n == 40 {
        start = 0;
    } else {
        return Err(FaucetError::InvalidAddress);
    }
    let ghost digits: Seq<u8> = b@.skip(start as int);
    proof {
        assert(digits.len() == 40);
    }
    let mut out: Vec<u8> = Vec::new();
    let mut i: usize = 0;
    while i < 20
        invariant
            i <= 20,
            b@.len() == n,
            n == 40 + start,
            start == 0 || start == 2,
            b@ == s.spec_bytes(),
            start == 2 ==> n == 42 && b@[0] == 0x30 && b@[1] == 0x78,
            digits == b@.skip(start as int),
            forall|j: int| 0 <= j < 2 * i ==> is_hex_digit(digits[j]),
            out@.len() == i,
            forall|j: int|
                0 <= j < i ==> out@[j] == (hex_digit_val(digits[2 * j]) * 16 + hex_digit_val(
                    digits[2 * j + 1],
                )) as u8,
        decreases 20 - i,
    {
        let hi: u8;
        let lo: u8;
        let c1: u8 = b[start + 2 * i];
        let c2: u8 = b[start + 2 * i + 1];
        proof {
            assert(digits[2 * i] == b@[start + 2 * i]);
            assert(digits[2 * i + 1] == b@[start + 2 * i + 1]);
        }
        if 0x30 <= c1 && c1 <= 0x39 {
            hi = c1 - 0x30;
        } else if 0x41 <= c1 && c1 <= 0x46 {
            hi = c1 - 0x41 + 10;
        } else if 0x61 <= c1 && c1 <= 0x66 {
            hi = c1 - 0x61 + 10;
        } else {
            proof {
                assert(!is_hex_digit(digits[2 * i]));
                assert(!all_hex(digits));
            }
            return Err(FaucetError::InvalidAddress);
        }
        if 0x30 <= c2 && c2 <= 0x39 {
            lo = c2 - 0x30;
        } else if 0x41 <= c2 && c2 <= 0x46 {
            lo = c2 - 0x41 + 10;
        } else if 0x61 <= c2 && c2 <= 0x66 {
            lo = c2 - 0x61 + 10;
        } else {
            proof {
                assert(!is_hex_digit(digits[2 * i + 1]));
                assert(!all_hex(digits));
            }
            return Err(FaucetError::InvalidAddress);
        }
        out.push(hi * 16 + lo);
        i = i + 1;
    }
    proof {
        assert forall|j: int| 0 <= j < digits.len() implies is_hex_digit(digits[j]) by {
            if j % 2 == 0 {
                assert(is_hex_digit(digits[2 * (j / 2)]));
            } else {
                assert(is_hex_digit(digits[2 * (j / 2) + 1]));
            }
        }
        assert(all_hex(digits));
        if start == 0 {
            assert(b@.skip(0) =~= b@);
            assert(all_hex(b@));
        } else {
            assert(all_hex(b@.skip(2)));
        }
        assert(valid_address(s.spec_bytes()));
        assert(out@ =~= addr_bytes_of(s.spec_bytes()));
    }
    Ok(out)
}

/// The ledger key under which a destination's claim is recorded: the
/// address's twenty bytes in lower-case hexadecimal behind a fixed marker.
pub open spec fn addr_claim_key(a: Seq<u8>) -> Seq<char> {
    "addr:0x"@ + hex_chars_of_bytes(a)
}

/// Renders the claim-ledger key of the address with bytes `addr`.
pub fn claim_key(addr: &Vec<u8>) -> (r: String)
    ensures
        r@ == addr_claim_key(addr@),
{
    let mut out = String::from_str("addr:0x");
    push_hex_bytes(&mut out, addr);
    out
}

/// The `0x`-prefixed lower-case hexadecimal form of an address's bytes, as
/// the node's protocol writes addresses.
pub open spec fn addr_hex_chars(a: Seq<u8>) -> Seq<char> {
    "0x"@ + hex_chars_of_bytes(a)
}

/// Renders an address's bytes for the node's protocol.
pub fn address_hex(addr: &Vec<u8>) -> (r: String)
    ensures
        r@ == addr_hex_chars(addr@),
{
    let mut out = String::from_str("0x");
    push_hex_bytes(&mut out, addr);
    out
}

/// The full decimal numeral of `n`: `0` for zero.
pub open spec fn dec_chars_full(n: nat) -> Seq<char> {
    if n == 0 {
        seq!['0']
    } else {
        dec_min_chars(n)
    }
}

/// The ledger key under which a chat identity's claim is recorded.
pub open spec fn user_claim_key(id: int) -> Seq<char> {
    if id >= 0 {
        "tg:"@ + dec_chars_full(id as nat)
    } else {
        "tg:-"@ + dec_chars_full((-id) as nat)
    }
}

/// Renders the claim-ledger key of the chat identity `id`.
pub fn user_key(id: i64) -> (r: String)
    ensures
        r@ == user_claim_key(id as int),
{
    let mut out: String;
    let mag: u128;
    if id >= 0 {
        out = String::from_str("tg:");
        mag = id as u128;
    } else {
        out = String::from_str("tg:-");
        mag = (-(id as i128)) as u128;
    }
    if mag == 0 {
        push_digit(&mut out, 0);
    } else {
        push_dec_min(&mut out, mag);
    }
    out
}

/// A byte with any upper-case letter folded to lower case.
pub open spec fn fold_byte(b: u8) -> u8 {
    if 0x41 <= b && b <= 0x5a {
        (b + 0x20) as u8
    } else {
        b
    }
}

/// Two raw strings that differ only in letter case.
pub open spec fn eq_ignore_case(a: Seq<u8>, b: Seq<u8>) -> bool {
    a.len() == b.len() && (forall|i: int| 0 <= i < a.len() ==> fold_byte(a[i]) == fold_byte(b[i]))
}

/// Claim keys ignore the casing of the request: two well-formed address
/// strings that differ only in case name the same bytes, so their claim
/// keys are the same and a claim under one bars the other.
pub proof fn lemma_claim_key_case_insensitive(s1: Seq<u8>, s2: Seq<u8>)
    requires
        valid_address(s1),
        valid_address(s2),
        eq_ignore_case(s1, s2),
    ensures
        addr_bytes_of(s1) == addr_bytes_of(s2),
        addr_claim_key(addr_bytes_of(s1)) == addr_claim_key(addr_bytes_of(s2)),
{
    let d1 = addr_digits(s1);
    let d2 = addr_digits(s2);
    assert(s1.len() == s2.len());
    assert forall|i: int| 0 <= i < 40 implies hex_digit_val(d1[i]) == hex_digit_val(d2[i]) by {
        if s1.len() == 42 {
            assert(fold_byte(s1[i + 2]) == fold_byte(s2[i + 2]));
            assert(is_hex_digit(d1[i]) && is_hex_digit(d2[i]));
        } else {
            assert(fold_byte(s1[i]) == fold_byte(s2[i]));
            assert(is_hex_digit(d1[i]) && is_hex_digit(d2[i]));
        }
    }
    assert(addr_bytes_of(s1) =~= addr_bytes_of(s2));
}

} // verus!
