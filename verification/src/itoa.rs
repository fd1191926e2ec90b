//! Integer to text conversion in a given radix into a byte buffer, as the C
//! library's `itoa` and `utoa` do it: the digits, most significant first,
//! then a NUL byte where the buffer has room for it.
use vstd::prelude::*;

verus! {

/// The byte that shows a digit value: `0`-`9`, then lower-case letters.
pub open spec fn digit_char(d: nat) -> int {
    if d <= 9 {
        d + 48int
    } else {
        d - 10 + 97
    }
}

/// The digit values that a conversion of `u` in base `radix` writes into
/// `cap` bytes, least significant first: one digit at least, and no more
/// than `cap`.
pub open spec fn lsb_digits(u: nat, radix: nat, cap: nat) -> Seq<nat>
    decreases cap,
{
    if cap == 0 || radix == 0 {
        Seq::empty()
    } else if u / radix == 0 {
        seq![u % radix]
    } else {
        seq![u % radix] + lsb_digits(u / radix, radix, (cap - 1) as nat)
    }
}

/// Whether all digits of `u` in base `radix` fit into `cap` bytes.
pub open spec fn digits_fit(u: nat, radix: nat, cap: nat) -> bool
    decreases cap,
{
    if radix == 0 {
        false
    } else if cap == 0 {
        u == 0
    } else if u / radix == 0 {
        true
    } else {
        digits_fit(u / radix, radix, (cap - 1) as nat)
    }
}

/// The bytes that show the digit values `ds`.
pub open spec fn digit_bytes(ds: Seq<nat>) -> Seq<u8> {
    ds.map_values(|d: nat| digit_char(d) as u8)
}

/// Whether every digit value of `ds` has a byte (a letter up to `z` and
/// beyond, as long as the byte value stays below 256).
pub open spec fn digits_printable(ds: Seq<nat>) -> bool {
    forall|k: int| 0 <= k < ds.len() ==> #[trigger] ds[k] <= 168
}

/// Digit values are below the radix, and at most `cap` of them are written.
pub proof fn lemma_lsb_digits_below_radix(u: nat, radix: nat, cap: nat)
    ensures
        lsb_digits(u, radix, cap).len() <= cap,
        forall|k: int|
            0 <= k < lsb_digits(u, radix, cap).len() ==> #[trigger] lsb_digits(u, radix, cap)[k]
                < radix,
        digits_fit(u, radix, cap) && cap > 0 ==> lsb_digits(u, radix, cap).len() >= 1,
    decreases cap,
{
    if cap > 0 && radix > 0 && u / radix != 0 {
        lemma_lsb_digits_below_radix(u / radix, radix, (cap - 1) as nat);
    }
}

/// Two to the power `n`.
pub open spec fn exp2(n: nat) -> nat
    decreases n,
{
    if n == 0 {
        1
    } else {
        2 * exp2((n - 1) as nat)
    }
}

/// In base one, only zero has digits that fit.
proof fn lemma_radix_one(u: nat, cap: nat)
    requires
        digits_fit(u, 1, cap),
    ensures
        u == 0,
    decreases cap,
{
    assert(u / 1 == u);
    if cap > 0 && u != 0 {
        lemma_radix_one(u, (cap - 1) as nat);
    }
}

/// A number below `2^n` has at most `n + 1` digits, when they fit.
proof fn lemma_digit_count(u: nat, radix: nat, cap: nat, n: nat)
    requires
        radix >= 1,
        digits_fit(u, radix, cap),
        u < exp2(n),
    ensures
        lsb_digits(u, radix, cap).len() <= n + 1,
    decreases cap,
{
    if cap > 0 && u / radix != 0 {
        if radix == 1 {
            lemma_radix_one(u, cap);
        } else {
            assert(u / radix <= u / 2) by (nonlinear_arith)
                requires
                    radix >= 2,
            ;
            assert(u >= 2) by (nonlinear_arith)
                requires
                    radix >= 2,
                    u / radix != 0,
            ;
            assert(n >= 1) by {
                if n == 0 {
                    assert(exp2(0) == 1);
                }
            }
            assert(exp2(n) == 2 * exp2((n - 1) as nat));
            lemma_digit_count(u / radix, radix, (cap - 1) as nat, (n - 1) as nat);
        }
    }
}

/// Two to the power 64.
proof fn lemma_exp2_64()
    ensures
        exp2(64) == 0x1_0000_0000_0000_0000,
{
    reveal_with_fuel(exp2, 65);
}

/// The result of writing `u` in base `radix` into `s[start..]`: the digit
/// count, with the digits most significant first and then a NUL byte where
/// there is room; or `-1` when the digits do not fit, with the bytes that
/// fit written least significant first.
pub open spec fn utoa_result(old_s: Seq<u8>, s: Seq<u8>, start: int, u: nat, radix: nat, r: i32) -> bool {
    let cap = (old_s.len() - start) as nat;
    let ds = lsb_digits(u, radix, cap);
    let n = ds.len() as int;
    &&& s.len() == old_s.len()
    &&& s.take(start) == old_s.take(start)
    &&& if digits_fit(u, radix, cap) {
        &&& r == n
        &&& s.subrange(start, start + n) == digit_bytes(ds).reverse()
        &&& if start + n < s.len() {
            &&& s[start + n] == 0
            &&& s.skip(start + n + 1) == old_s.skip(start + n + 1)
        } else {
            true
        }
    } else {
        &&& r == -1
        &&& s.skip(start) == digit_bytes(ds)
    }
}

/// Reverses `s[from..to]` in place.
fn reverse_range(s: &mut [u8], from: usize, to: usize)
    requires
        from <= to <= old(s)@.len(),
    ensures
        final(s)@.len() == old(s)@.len(),
        final(s)@.take(from as int) == old(s)@.take(from as int),
        final(s)@.subrange(from as int, to as int) == old(s)@.subrange(from as int, to as int).reverse(),
        final(s)@.skip(to as int) == old(s)@.skip(to as int),
{
    let ghost orig = s@;
    let mut i = from;
    let mut j = to;
    while j - i > 1
        invariant
            from <= i <= j <= to,
            to <= orig.len(),
            i - from == to - j,
            s@.len() == orig.len(),
            forall|k: int| 0 <= k < from ==> s@[k] == orig[k],
            forall|k: int| to <= k < orig.len() ==> s@[k] == orig[k],
            forall|k: int| i <= k < j ==> s@[k] == orig[k],
            forall|k: int| from <= k < i ==> s@[k] == orig[from + to - 1 - k],
            forall|k: int| j <= k < to ==> s@[k] == orig[from + to - 1 - k],
        decreases j - i,
    {
        let a = s[i];
        let b = s[j - 1];
        s[i] = b;
        s[j - 1] = a;
        i = i + 1;
        j = j - 1;
    }
    assert(s@.take(from as int) =~= orig.take(from as int));
    assert(s@.skip(to as int) =~= orig.skip(to as int));
    assert(s@.subrange(from as int, to as int) =~= orig.subrange(from as int, to as int).reverse());
}

/// Writes `u` in base `radix` into `s[start..]` (see [`utoa_result`]).
fn utoa_at(u: u64, s: &mut [u8], start: usize, radix: u8) -> (r: i32)
    requires
        start <= old(s)@.len(),
        radix >= 1,
        digits_printable(lsb_digits(u as nat, radix as nat, (old(s)@.len() - start) as nat)),
    ensures
        utoa_result(old(s)@, final(s)@, start as int, u as nat, radix as nat, r),
{
    let ghost orig = s@;
    let ghost cap = (orig.len() - start) as nat;
    let ghost all = lsb_digits(u as nat, radix as nat, cap);
    let len = s.len();
    let mut v = u;
    let mut index = start;
    let mut finished = false;
    proof {
        lemma_lsb_digits_below_radix(u as nat, radix as nat, cap);
    }
    while index < len && !finished
        invariant
            start <= index <= len,
            len == s@.len(),
            len == orig.len(),
            cap == len - start,
            radix >= 1,
            all == lsb_digits(u as nat, radix as nat, cap),
            digits_printable(all),
            finished ==> v == 0,
            finished ==> all.len() == index - start,
            !finished ==> all == all.take(index - start) + lsb_digits(
                v as nat,
                radix as nat,
                (len - index) as nat,
            ),
            !finished ==> digits_fit(u as nat, radix as nat, cap) == digits_fit(
                v as nat,
                radix as nat,
                (len - index) as nat,
            ),
            finished ==> digits_fit(u as nat, radix as nat, cap),
            all.len() >= index - start,
            s@.subrange(start as int, index as int) == digit_bytes(all.take(index - start)),
            forall|k: int| 0 <= k < start ==> s@[k] == orig[k],
            forall|k: int| index <= k < len ==> s@[k] == orig[k],
        decreases len - index,
    {
        let ghost k = index - start;
        let ghost rest = lsb_digits(v as nat, radix as nat, (len - index) as nat);
        let digit = (v % (radix as u64)) as u8;
        proof {
            assert(rest[0] == v % (radix as u64));
            assert(all[k] == rest[0]);
            assert(all[k] <= 168);
        }
        let ch: u8 = if digit <= 9 {
            digit + 48
        } else {
            digit - 10 + 97
        };
        let ghost before = s@;
        s[index] = ch;
        index = index + 1;
        v = v / (radix as u64);
        if v == 0 {
            finished = true;
        }
        proof {
            assert(all.take(index - start) =~= all.take(k).push(all[k]));
            assert(s@.subrange(start as int, index as int) =~= before.subrange(start as int, index - 1).push(ch));
            assert(s@.subrange(start as int, index as int) =~= digit_bytes(all.take(index - start)));
            if finished {
                assert(rest =~= seq![all[k]]);
            } else {
                assert(rest =~= seq![all[k]] + lsb_digits(v as nat, radix as nat, (len - index) as nat));
                assert(all =~= all.take(index - start) + lsb_digits(v as nat, radix as nat, (len - index) as nat));
            }
        }
    }
    if v != 0 {
        proof {
            assert(!finished);
            assert(index == len);
            assert(all.take(index - start) + lsb_digits(v as nat, radix as nat, 0) =~= all.take(index - start));
            assert(s@.skip(start as int) =~= s@.subrange(start as int, index as int));
            assert(s@.take(start as int) =~= orig.take(start as int));
        }
        return -1;
    }
    proof {
        if !finished {
            assert(index == len);
            assert(lsb_digits(v as nat, radix as nat, 0) =~= Seq::<nat>::empty());
            assert(all =~= all.take(index - start));
        }
        assert(all.take(index - start) =~= all);
    }
    if index < len {
        s[index] = 0;
    }
    let ghost filled = s@;
    reverse_range(s, start, index);
    proof {
        assert(filled.subrange(start as int, index as int) =~= digit_bytes(all));
        assert(filled.take(start as int) =~= orig.take(start as int));
        if index < len {
            assert(s@.skip(index as int)[0] == filled.skip(index as int)[0]);
            assert(s@.skip(index + 1) =~= s@.skip(index as int).skip(1));
            assert(filled.skip(index + 1) =~= filled.skip(index as int).skip(1));
            assert(filled.skip(index + 1) =~= orig.skip(index + 1));
        }
        lemma_exp2_64();
        lemma_digit_count(u as nat, radix as nat, cap, 64);
    }
    (index - start) as i32
}

/// Writes the unsigned `u` in base `radix` into `s` (see [`utoa_result`],
/// at the start of the buffer).
pub fn utoa(u: u64, s: &mut [u8], radix: u8) -> (r: i32)
    requires
        radix >= 1,
        digits_printable(lsb_digits(u as nat, radix as nat, old(s)@.len() as nat)),
    ensures
        utoa_result(old(s)@, final(s)@, 0, u as nat, radix as nat, r),
{
    utoa_at(u, s, 0, radix)
}

/// The magnitude of `i`.
pub open spec fn magnitude(i: i64) -> nat {
    if i < 0 {
        (-i) as nat
    } else {
        i as nat
    }
}

/// Writes the signed `i` in base `radix` into `s`: a negative number gets a
/// `-` first, when the buffer has room for it, and its magnitude follows as
/// [`utoa`] writes it into the rest of the buffer; the result is what that
/// conversion returns, the digit count without the sign, or `-1`.
pub fn itoa(i: i64, s: &mut [u8], radix: u8) -> (r: i32)
    requires
        i != i64::MIN,
        radix >= 1,
        digits_printable(
            lsb_digits(
                magnitude(i),
                radix as nat,
                (if i < 0 && old(s)@.len() > 0 {
                    old(s)@.len() - 1
                } else {
                    old(s)@.len() as int
                }) as nat,
            ),
        ),
    ensures
        i < 0 && old(s)@.len() > 0 ==> utoa_result(
            old(s)@.update(0, 45u8),
            final(s)@,
            1,
            magnitude(i),
            radix as nat,
            r,
        ),
        !(i < 0 && old(s)@.len() > 0) ==> utoa_result(
            old(s)@,
            final(s)@,
            0,
            magnitude(i),
            radix as nat,
            r,
        ),
{
    let negative = i < 0;
    let pos: u64 = if negative {
        (-i) as u64
    } else {
        i as u64
    };
    if negative && s.len() > 0 {
        s[0] = 45u8;
        utoa_at(pos, s, 1, radix)
    } else {
        utoa_at(pos, s, 0, radix)
    }
}

/// The number that the digit values `ds`, least significant first, denote
/// in base `radix`.
pub open spec fn value_of(ds: Seq<nat>, radix: nat) -> int
    decreases ds.len(),
{
    if ds.len() == 0 {
        0
    } else {
        ds[0] + radix * value_of(ds.drop_first(), radix)
    }
}

/// When the digits fit, they denote the number that was converted.
pub proof fn lemma_digits_denote_value(u: nat, radix: nat, cap: nat)
    requires
        radix >= 1,
        digits_fit(u, radix, cap),
    ensures
        value_of(lsb_digits(u, radix, cap), radix) == u,
    decreases cap,
{
    let ds = lsb_digits(u, radix, cap);
    assert(u == u % radix + radix * (u / radix)) by (nonlinear_arith)
        requires
            radix >= 1,
    ;
    if cap == 0 {
    } else if u / radix == 0 {
        assert(ds.drop_first() =~= Seq::<nat>::empty());
        assert(radix * 0 == 0);
        assert(value_of(ds, radix) == ds[0] + radix * value_of(ds.drop_first(), radix));
    } else {
        lemma_digits_denote_value(u / radix, radix, (cap - 1) as nat);
        assert(ds.drop_first() =~= lsb_digits(u / radix, radix, (cap - 1) as nat));
        assert(value_of(ds, radix) == ds[0] + radix * value_of(ds.drop_first(), radix));
    }
}

/// Whether every digit that a conversion of `u` in base `radix` writes into
/// `cap` bytes has a byte (see [`digits_printable`]).
pub fn digits_have_bytes(u: u64, radix: u8, cap: usize) -> (r: bool)
    requires
        radix >= 1,
    ensures
        r == digits_printable(lsb_digits(u as nat, radix as nat, cap as nat)),
{
    let ghost all = lsb_digits(u as nat, radix as nat, cap as nat);
    let mut v = u;
    let mut k: usize = 0;
    while k < cap
        invariant
            k <= cap,
            radix >= 1,
            all == lsb_digits(u as nat, radix as nat, cap as nat),
            all.len() >= k,
            all == all.take(k as int) + lsb_digits(v as nat, radix as nat, (cap - k) as nat),
            digits_printable(all.take(k as int)),
        decreases cap - k,
    {
        let ghost rest = lsb_digits(v as nat, radix as nat, (cap - k) as nat);
        let d = v % (radix as u64);
        proof {
            assert(rest[0] == d);
            assert(all[k as int] == rest[0]);
        }
        if d > 168 {
            proof {
                assert(all[k as int] > 168);
            }
            return false;
        }
        proof {
            assert(all.take(k + 1) =~= all.take(k as int).push(all[k as int]));
        }
        v = v / (radix as u64);
        if v == 0 {
            proof {
                assert(rest =~= seq![d as nat]);
                assert(all =~= all.take(k + 1));
            }
            return true;
        }
        proof {
            assert(rest =~= seq![d as nat] + lsb_digits(v as nat, radix as nat, (cap - k - 1) as nat));
            assert(all =~= all.take(k + 1) + lsb_digits(v as nat, radix as nat, (cap - k - 1) as nat));
        }
        k = k + 1;
    }
    proof {
        assert(lsb_digits(v as nat, radix as nat, 0) =~= Seq::<nat>::empty());
        assert(all =~= all.take(k as int));
    }
    true
}

/// When the digits of a non-zero number fit, the most significant one,
/// which is written first, is not zero.
pub proof fn lemma_no_leading_zero(u: nat, radix: nat, cap: nat)
    requires
        radix >= 1,
        u != 0,
        digits_fit(u, radix, cap),
    ensures
        lsb_digits(u, radix, cap).len() >= 1,
        lsb_digits(u, radix, cap).last() != 0,
    decreases cap,
{
    if radix == 1 {
        lemma_radix_one(u, cap);
    } else if u / radix == 0 {
        assert(u % radix == u) by (nonlinear_arith)
            requires
                radix >= 2,
                u / radix == 0,
        ;
    } else {
        lemma_no_leading_zero(u / radix, radix, (cap - 1) as nat);
    }
}

} // verus!
