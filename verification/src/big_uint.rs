//! Arbitrary-precision bit packing on top of `num_bigint::BigUint`.
//!
//! The watch stores text as one big unsigned integer, a few bits per
//! character code, written out least significant byte first. The integer
//! arithmetic is left to `num_bigint`; this module states what each call
//! does to the value and proves the packing loop against those statements.

use vstd::prelude::*;
use vstd::arithmetic::div_mod::lemma_fundamental_div_mod_converse;
use vstd::arithmetic::power2::{lemma_pow2_adds, lemma_pow2_pos, lemma_pow2_strictly_increases, pow2};
use num_bigint::BigUint;

verus! {

/// `num_bigint::BigUint`, an unsigned integer of any size. The verifier
/// sees nothing inside it; what it holds goes by the name `big_digits`.
#[verifier::external_type_specification]
#[verifier::external_body]
pub struct ExBigUint(BigUint);

/// The base-256 digits that a `BigUint` holds, least significant first.
pub uninterp spec fn big_digits(n: BigUint) -> Seq<u8>;

/// The number that little-endian base-256 digits stand for.
pub open spec fn le_value(digits: Seq<u8>) -> nat
    decreases digits.len(),
{
    if digits.len() == 0 {
        0
    } else {
        digits[0] as nat + 256 * le_value(digits.skip(1))
    }
}

/// The shortest little-endian base-256 digits of `v`: none for 0.
pub open spec fn le_digits(v: nat) -> Seq<u8>
    decreases v,
{
    if v == 0 {
        Seq::empty()
    } else {
        seq![(v % 256) as u8] + le_digits(v / 256)
    }
}

/// The bytes of `v`, least significant first, with no zero byte at the high
/// end; 0 itself is the single byte 0.
pub open spec fn bytes_le(v: nat) -> Seq<u8> {
    if v == 0 {
        seq![0u8]
    } else {
        le_digits(v)
    }
}

/// The codes packed `bits` bits apiece: code `i` is shifted left by
/// `bits * i`, and the shifted codes are added up.
pub open spec fn packed_value(codes: Seq<u8>, bits: nat) -> nat
    decreases codes.len(),
{
    if codes.len() == 0 {
        0
    } else {
        packed_value(codes.drop_last(), bits) + codes.last() as nat * pow2(
            bits * (codes.len() - 1) as nat,
        )
    }
}

/// Calls `BigUint::from` on a `u8`. Trusted: the result stands for the same
/// number.
#[verifier::external_body]
fn big_from_u8(value: u8) -> (n: BigUint)
    ensures
        le_value(big_digits(n)) == value,
{
    BigUint::from(value)
}

/// Calls `<<` of `BigUint` with a `usize` shift. Trusted: the value is
/// multiplied by two to the power of the shift.
#[verifier::external_body]
fn big_shl(n: BigUint, shift: usize) -> (shifted: BigUint)
    ensures
        le_value(big_digits(shifted)) == le_value(big_digits(n)) * pow2(shift as nat),
{
    n << shift
}

/// Calls `+=` of `BigUint`. Trusted: the value grows by the value added.
#[verifier::external_body]
fn big_add_assign(acc: &mut BigUint, addend: BigUint)
    ensures
        le_value(big_digits(*final(acc))) == le_value(big_digits(*old(acc))) + le_value(big_digits(addend)),
{
    *acc += addend;
}

/// Calls `BigUint::to_bytes_le`. Trusted: the bytes stand for the same
/// number, least significant first; there is at least one, and the last one
/// is zero only where the number is 0 and the byte stands alone.
#[verifier::external_body]
fn big_to_bytes_le(n: &BigUint) -> (bytes: Vec<u8>)
    ensures
        le_value(bytes@) == le_value(big_digits(*n)),
        bytes@.len() >= 1,
        bytes@.last() == 0 ==> bytes@.len() == 1,
{
    n.to_bytes_le()
}

/// The digits of a number stand for it, and the digits of a number other
/// than 0 end in a digit other than 0: no zero byte is written at the high
/// end.
pub proof fn lemma_le_digits(v: nat)
    ensures
        le_value(le_digits(v)) == v,
        v > 0 ==> le_digits(v).len() >= 1 && le_digits(v).last() != 0,
        v == 0 ==> le_digits(v).len() == 0,
    decreases v,
{
    if v > 0 {
        lemma_le_digits(v / 256);
        let d = le_digits(v);
        assert(d.skip(1) =~= le_digits(v / 256));
        if v / 256 > 0 {
            assert(d.last() == le_digits(v / 256).last());
        }
    }
}

/// Two digit strings without a zero at the high end that stand for the same
/// number are the same string.
proof fn lemma_le_digits_unique(digits: Seq<u8>)
    requires
        digits.len() > 0 ==> digits.last() != 0,
    ensures
        digits == le_digits(le_value(digits)),
    decreases digits.len(),
{
    if digits.len() == 0 {
        assert(digits =~= le_digits(0));
    } else {
        let rest = digits.skip(1);
        if rest.len() > 0 {
            assert(rest.last() == digits.last());
        }
        lemma_le_digits_unique(rest);
        lemma_le_digits(le_value(rest));
        let v = le_value(digits);
        assert(v == digits[0] as nat + 256 * le_value(rest));
        if rest.len() == 0 {
            assert(v == digits[0]);
            assert(v != 0);
        } else {
            assert(le_value(rest) > 0) by {
                if le_value(rest) == 0 {
                    assert(le_digits(0).len() == 0);
                }
            }
        }
        assert(v > 0);
        assert(v % 256 == digits[0] as nat && v / 256 == le_value(rest));
        assert(digits =~= seq![(v % 256) as u8] + le_digits(v / 256));
    }
}

/// Whether every code fits in `bits` bits.
pub open spec fn codes_fit(codes: Seq<u8>, bits: nat) -> bool {
    forall|i: int| 0 <= i < codes.len() ==> #[trigger] codes[i] < pow2(bits)
}

/// Codes that fit in their bits pack to a number of as many bits as they
/// have together.
proof fn lemma_packed_bound(codes: Seq<u8>, bits: nat)
    requires
        codes_fit(codes, bits),
    ensures
        packed_value(codes, bits) < pow2(bits * codes.len()),
    decreases codes.len(),
{
    let n = codes.len();
    if n == 0 {
        assert(bits * 0 == 0) by (nonlinear_arith);
        lemma_pow2_pos(0);
    } else {
        let front = codes.drop_last();
        assert(codes_fit(front, bits)) by {
            assert forall|i: int| 0 <= i < front.len() implies #[trigger] front[i] < pow2(
                bits,
            ) by {
                assert(front[i] == codes[i]);
            }
        }
        lemma_packed_bound(front, bits);
        let low = bits * (n - 1) as nat;
        assert(bits * n == low + bits) by (nonlinear_arith)
            requires
                low == bits * (n - 1) as nat,
                n >= 1,
        ;
        lemma_pow2_adds(low, bits);
        let p = pow2(low);
        let last = codes.last() as nat;
        assert(last < pow2(bits)) by {
            assert(codes[n - 1] < pow2(bits));
        }
        assert(packed_value(front, bits) + last * p < pow2(bits) * p) by (nonlinear_arith)
            requires
                packed_value(front, bits) < p,
                last < pow2(bits),
        ;
        assert(pow2(low) * pow2(bits) == pow2(bits) * p) by (nonlinear_arith)
            requires
                p == pow2(low),
        ;
    }
}

/// Two code lists of one length that fit in their bits and pack to the
/// same number are the same list.
proof fn lemma_packed_same_length(a: Seq<u8>, b: Seq<u8>, bits: nat)
    requires
        a.len() == b.len(),
        codes_fit(a, bits),
        codes_fit(b, bits),
        packed_value(a, bits) == packed_value(b, bits),
    ensures
        a == b,
    decreases a.len(),
{
    let n = a.len();
    if n == 0 {
        assert(a =~= b);
    } else {
        let fa = a.drop_last();
        let fb = b.drop_last();
        assert(codes_fit(fa, bits)) by {
            assert forall|i: int| 0 <= i < fa.len() implies #[trigger] fa[i] < pow2(bits) by {
                assert(fa[i] == a[i]);
            }
        }
        assert(codes_fit(fb, bits)) by {
            assert forall|i: int| 0 <= i < fb.len() implies #[trigger] fb[i] < pow2(bits) by {
                assert(fb[i] == b[i]);
            }
        }
        lemma_packed_bound(fa, bits);
        lemma_packed_bound(fb, bits);
        let p = pow2(bits * (n - 1) as nat);
        lemma_pow2_pos(bits * (n - 1) as nat);
        let v = packed_value(a, bits) as int;
        assert(v == (a.last() as int) * (p as int) + packed_value(fa, bits)) by (nonlinear_arith)
            requires
                v == packed_value(fa, bits) + a.last() as nat * p,
        ;
        assert(v == (b.last() as int) * (p as int) + packed_value(fb, bits)) by (nonlinear_arith)
            requires
                v == packed_value(fb, bits) + b.last() as nat * p,
        ;
        lemma_fundamental_div_mod_converse(
            v,
            p as int,
            a.last() as int,
            packed_value(fa, bits) as int,
        );
        lemma_fundamental_div_mod_converse(
            v,
            p as int,
            b.last() as int,
            packed_value(fb, bits) as int,
        );
        lemma_packed_same_length(fa, fb, bits);
        assert(a =~= fa.push(a.last()));
        assert(b =~= fb.push(b.last()));
    }
}

/// A code list that ends in a code other than 0 packs to a number of at
/// least as many bits as the codes before the last have together.
proof fn lemma_packed_floor(codes: Seq<u8>, bits: nat)
    requires
        codes.len() > 0,
        codes.last() != 0,
    ensures
        packed_value(codes, bits) >= pow2(bits * (codes.len() - 1) as nat),
{
    let p = pow2(bits * (codes.len() - 1) as nat);
    assert(codes.last() as nat * p >= p) by (nonlinear_arith)
        requires
            codes.last() >= 1,
    ;
}

/// Packing loses nothing: two code lists that fit in their bits, that end
/// in a code other than 0, and that pack to the same bytes are the same
/// list.
pub proof fn lemma_packing_is_injective(a: Seq<u8>, b: Seq<u8>, bits: nat)
    requires
        codes_fit(a, bits),
        codes_fit(b, bits),
        a.len() > 0 ==> a.last() != 0,
        b.len() > 0 ==> b.last() != 0,
        bytes_le(packed_value(a, bits)) == bytes_le(packed_value(b, bits)),
    ensures
        a == b,
{
    let va = packed_value(a, bits);
    let vb = packed_value(b, bits);
    lemma_le_digits(va);
    lemma_le_digits(vb);
    assert(le_value(bytes_le(va)) == va) by {
        if va == 0 {
            assert(le_value(seq![0u8].skip(1)) == 0);
        }
    }
    assert(le_value(bytes_le(vb)) == vb) by {
        if vb == 0 {
            assert(le_value(seq![0u8].skip(1)) == 0);
        }
    }
    assert(va == vb);
    if a.len() != b.len() {
        let (short, long) = if a.len() < b.len() {
            (a, b)
        } else {
            (b, a)
        };
        lemma_packed_bound(short, bits);
        lemma_packed_floor(long, bits);
        let low = bits * short.len();
        let high = bits * (long.len() - 1) as nat;
        assert(low <= high) by (nonlinear_arith)
            requires
                low == bits * short.len(),
                high == bits * (long.len() - 1) as nat,
                short.len() <= long.len() - 1,
        ;
        if low < high {
            lemma_pow2_strictly_increases(low, high);
        }
        assert(false);
    }
    lemma_packed_same_length(a, b, bits);
}

/// A number of up to `8 * count` bits has up to `count` digits.
proof fn lemma_le_digits_length(v: nat, count: nat)
    requires
        v < pow2(8 * count),
    ensures
        le_digits(v).len() <= count,
    decreases count,
{
    if v > 0 {
        if count == 0 {
            assert(8 * count == 0);
            vstd::arithmetic::power2::lemma2_to64();
        } else {
            vstd::arithmetic::power2::lemma2_to64();
            lemma_pow2_adds(8 * (count - 1) as nat, 8);
            assert(8 * (count - 1) as nat + 8 == 8 * count);
            let p = pow2(8 * (count - 1) as nat);
            assert(v / 256 < p) by (nonlinear_arith)
                requires
                    v < p * 256,
            ;
            lemma_le_digits_length(v / 256, (count - 1) as nat);
            assert(le_digits(v).skip(1) =~= le_digits(v / 256));
        }
    }
}

/// Codes that fit in their bits pack to no more bytes than their bits
/// fill, and to at least one.
pub proof fn lemma_packed_length(codes: Seq<u8>, bits: nat, count: nat)
    requires
        codes_fit(codes, bits),
        bits * codes.len() <= 8 * count,
        count >= 1,
    ensures
        1 <= bytes_le(packed_value(codes, bits)).len() <= count,
{
    let v = packed_value(codes, bits);
    lemma_packed_bound(codes, bits);
    if bits * codes.len() < 8 * count {
        lemma_pow2_strictly_increases(bits * codes.len(), 8 * count);
    }
    lemma_le_digits_length(v, count);
    lemma_le_digits(v);
}

/// Packs `codes` at `bits` bits apiece into one unsigned integer and writes
/// it out least significant byte first.
pub fn pack_codes(codes: &[u8], bits: usize) -> (bytes: Vec<u8>)
    requires
        bits * codes@.len() <= usize::MAX,
    ensures
        bytes@ == bytes_le(packed_value(codes@, bits as nat)),
{
    let mut packed = big_from_u8(0);
    let mut i: usize = 0;
    while i < codes.len()
        invariant
            i <= codes.len(),
            bits * codes@.len() <= usize::MAX,
            le_value(big_digits(packed)) == packed_value(codes@.take(i as int), bits as nat),
        decreases codes.len() - i,
    {
        assert(bits * i <= bits * codes@.len()) by (nonlinear_arith)
            requires
                i <= codes@.len(),
        ;
        let shifted = big_shl(big_from_u8(codes[i]), bits * i);
        big_add_assign(&mut packed, shifted);
        proof {
            let next = codes@.take(i as int + 1);
            assert(next.drop_last() =~= codes@.take(i as int));
            assert(next.last() == codes@[i as int]);
        }
        i += 1;
    }
    assert(codes@.take(codes@.len() as int) =~= codes@);
    let bytes = big_to_bytes_le(&packed);
    proof {
        let v = packed_value(codes@, bits as nat);
        if bytes@.last() == 0 {
            assert(bytes@ =~= seq![0u8]);
            assert(le_value(bytes@.skip(1)) == 0);
            assert(v == 0);
        } else {
            lemma_le_digits_unique(bytes@);
            lemma_le_digits(v);
            assert(v != 0);
        }
    }
    bytes
}

} // verus!
