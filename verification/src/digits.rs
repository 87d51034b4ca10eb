//! Fixed-width decimal digit strings.
//!
//! The canonical configuration text writes every numeric field as exactly
//! twenty decimal digits, zero-padded on the left. Fixed widths keep both the
//! encoder and the parser free of any scanning or splitting logic.

use vstd::prelude::*;

verus! {

/// Ten to the `w`-th power.
pub open spec fn pow10(w: nat) -> nat
    decreases w,
{
    if w == 0 {
        1
    } else {
        10 * pow10((w - 1) as nat)
    }
}

/// The ASCII byte of the decimal digit `n % 10`.
pub open spec fn digit_byte(n: nat) -> u8 {
    (48 + n % 10) as u8
}

/// `n % pow10(width)` written as exactly `width` decimal digits,
/// most significant first.
pub open spec fn spec_encode_fixed(n: nat, width: nat) -> Seq<u8>
    decreases width,
{
    if width == 0 {
        Seq::empty()
    } else {
        spec_encode_fixed(n / 10, (width - 1) as nat).push(digit_byte(n))
    }
}

/// Every byte of `s` is a decimal digit.
pub open spec fn all_digits(s: Seq<u8>) -> bool {
    forall|i: int| 0 <= i < s.len() ==> 48 <= #[trigger] s[i] <= 57
}

/// The numeric value of the digit string `s`.
pub open spec fn spec_digits_val(s: Seq<u8>) -> int
    decreases s.len(),
{
    if s.len() == 0 {
        0
    } else {
        spec_digits_val(s.drop_last()) * 10 + s.last() - 48
    }
}

/// The value a twenty-digit field stands for, if the bytes are all digits
/// and the value fits the field's machine type.
pub open spec fn spec_parse_fixed(seg: Seq<u8>) -> Option<u64> {
    if all_digits(seg) && spec_digits_val(seg) <= u64::MAX {
        Some(spec_digits_val(seg) as u64)
    } else {
        None
    }
}

/// The concrete size of a twenty-digit field: every `u64` fits one.
pub proof fn lemma_pow10_20()
    ensures
        pow10(20) == 100000000000000000000,
        u64::MAX < pow10(20),
{
    reveal_with_fuel(pow10, 21);
}

pub proof fn lemma_pow10_increases(a: nat, b: nat)
    requires
        a <= b,
    ensures
        pow10(a) <= pow10(b),
    decreases b,
{
    if a < b {
        lemma_pow10_increases(a, (b - 1) as nat);
    }
}

/// An encoded field is `width` bytes long and all digits.
pub proof fn lemma_encode_shape(n: nat, width: nat)
    ensures
        spec_encode_fixed(n, width).len() == width,
        all_digits(spec_encode_fixed(n, width)),
    decreases width,
{
    if width > 0 {
        lemma_encode_shape(n / 10, (width - 1) as nat);
        let tail = spec_encode_fixed(n / 10, (width - 1) as nat);
        assert(forall|i: int|
            0 <= i < width ==> 48 <= #[trigger] tail.push(digit_byte(n))[i] <= 57) by {
            assert(48 <= digit_byte(n) <= 57);
        }
    }
}

/// Decoding inverts encoding for every value that fits the width.
pub proof fn lemma_decode_encode(n: nat, width: nat)
    requires
        n < pow10(width),
    ensures
        spec_digits_val(spec_encode_fixed(n, width)) == n,
    decreases width,
{
    if width == 0 {
        assert(n == 0);
    } else {
        let tail = spec_encode_fixed(n / 10, (width - 1) as nat);
        assert(tail.push(digit_byte(n)).drop_last() =~= tail);
        assert(n / 10 < pow10((width - 1) as nat)) by {
            if n / 10 >= pow10((width - 1) as nat) {
                assert(n >= 10 * pow10((width - 1) as nat)) by (nonlinear_arith)
                    requires
                        n / 10 >= pow10((width - 1) as nat),
                ;
            }
        }
        lemma_decode_encode(n / 10, (width - 1) as nat);
        assert(spec_digits_val(tail.push(digit_byte(n)))
            == (n / 10) * 10 + (48 + n % 10) - 48);
        assert((n / 10) * 10 + n % 10 == n) by (nonlinear_arith);
    }
}

/// A digit string's value is bounded by the power of ten of its length.
pub proof fn lemma_val_bound(s: Seq<u8>)
    requires
        all_digits(s),
    ensures
        0 <= spec_digits_val(s) < pow10(s.len()),
    decreases s.len(),
{
    if s.len() > 0 {
        let head = s.drop_last();
        assert(all_digits(head)) by {
            assert(forall|i: int| 0 <= i < head.len() ==> 48 <= #[trigger] head[i] <= 57) by {
                assert(forall|i: int| 0 <= i < head.len() ==> head[i] == s[i]);
            }
        }
        lemma_val_bound(head);
        assert(spec_digits_val(head) * 10 + s.last() - 48 < 10 * pow10(head.len()))
            by (nonlinear_arith)
            requires
                spec_digits_val(head) < pow10(head.len()),
                s.last() <= 57,
        ;
    }
}

/// Writes `n % pow10(width)` as exactly `width` decimal digits.
pub fn encode_fixed(n: u64, width: usize) -> (r: Vec<u8>)
    ensures
        r@ == spec_encode_fixed(n as nat, width as nat),
    decreases width,
{
    if width == 0 {
        let r: Vec<u8> = Vec::new();
        proof {
            assert(r@ =~= spec_encode_fixed(n as nat, 0));
        }
        r
    } else {
        let mut r = encode_fixed(n / 10, width - 1);
        let d: u8 = (n % 10) as u8 + 48;
        r.push(d);
        proof {
            assert(r@ =~= spec_encode_fixed(n as nat, width as nat));
        }
        r
    }
}

/// Reads the twenty-digit field of `s` that starts at `start`.
pub fn parse_fixed(s: &[u8], start: usize) -> (r: Option<u64>)
    requires
        start + 20 <= s@.len(),
    ensures
        r == spec_parse_fixed(s@.subrange(start as int, start as int + 20)),
{
    let ghost seg = s@.subrange(start as int, start as int + 20);
    let n = s.len();
    let mut acc: u128 = 0;
    let mut i: usize = 0;
    while i < 20
        invariant
            start + 20 <= s@.len(),
            s@.len() == n,
            0 <= i <= 20,
            seg == s@.subrange(start as int, start as int + 20),
            all_digits(seg.subrange(0, i as int)),
            acc == spec_digits_val(seg.subrange(0, i as int)),
            acc < pow10(i as nat),
        decreases 20 - i,
    {
        let b = s[start + i];
        proof {
            assert(seg[i as int] == s@[start + i]);
        }
        if b < 48 || b > 57 {
            proof {
                assert(!all_digits(seg));
            }
            return None;
        }
        proof {
            let prefix = seg.subrange(0, i as int);
            let next = seg.subrange(0, i as int + 1);
            assert(next.drop_last() =~= prefix);
            assert(next.last() == seg[i as int]);
            assert(forall|j: int| 0 <= j < next.len() ==> 48 <= #[trigger] next[j] <= 57) by {
                assert(forall|j: int| 0 <= j < i ==> next[j] == prefix[j]);
            }
            lemma_pow10_increases((i + 1) as nat, 20);
            lemma_pow10_20();
        }
        acc = acc * 10 + ((b - 48) as u128);
        i = i + 1;
    }
    proof {
        assert(seg.subrange(0, 20) =~= seg);
        lemma_pow10_20();
    }
    if acc > u64::MAX as u128 {
        None
    } else {
        Some(acc as u64)
    }
}

} // verus!
