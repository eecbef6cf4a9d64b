use vstd::prelude::*;
use vstd::string::*;
use crate::text::{dec_int_seq, dec_seq, digit, digit_char, push_char, push_decimal};

verus! {

/// `2^k`.
pub open spec fn pow2(k: nat) -> nat
    decreases k,
{
    if k == 0 {
        1
    } else {
        2 * pow2((k - 1) as nat)
    }
}

/// Number of binary digits of `n` (0 for 0).
pub open spec fn bit_len(n: nat) -> nat
    decreases n,
{
    if n == 0 {
        0
    } else {
        1 + bit_len(n / 2)
    }
}

/// `n / d` rounded to the nearest integer, ties to the even one.
pub open spec fn div_round_even(n: nat, d: nat) -> nat
    recommends
        d > 0,
{
    let q = n / d;
    let r = n % d;
    if 2 * r > d || (2 * r == d && q % 2 == 1) {
        q + 1
    } else {
        q
    }
}

/// The value of the nearest `f64` to the natural number `n` (53 significant bits,
/// ties to even), which is again an integer.
pub open spec fn f64_nat(n: nat) -> nat {
    let bl = bit_len(n);
    if bl <= 53 {
        n
    } else {
        let p = pow2((bl - 53) as nat);
        div_round_even(n, p) * p
    }
}

/// The value of `x as f64` for an integer `x`.
pub open spec fn f64_int(x: int) -> int {
    if x < 0 {
        -(f64_nat((-x) as nat) as int)
    } else {
        f64_nat(x as nat) as int
    }
}

/// `r / 10^places` written with `places` (1 or 2) decimals.
pub open spec fn fixed_seq(r: nat, places: nat) -> Seq<char> {
    if places == 1 {
        dec_seq(r / 10) + seq!['.', digit_char(r % 10)]
    } else {
        dec_seq(r / 100) + seq!['.', digit_char((r % 100) / 10), digit_char(r % 10)]
    }
}

/// What `human_size` prints for a byte count: bytes below 1 KiB as a whole number,
/// then KiB with one decimal, MiB and GiB with two, each rounded from the exact `f64`
/// value ties to even.
pub open spec fn human_size_seq(b: int) -> Seq<char> {
    if b < 1024 {
        dec_int_seq(f64_int(b)) + " B"@
    } else if b < 1024 * 1024 {
        fixed_seq(div_round_even((b * 10) as nat, 1024), 1) + " KiB"@
    } else if b < 1024 * 1024 * 1024 {
        fixed_seq(div_round_even((b * 100) as nat, 1024 * 1024), 2) + " MiB"@
    } else {
        fixed_seq(div_round_even((f64_int(b) * 100) as nat, 1024 * 1024 * 1024), 2) + " GiB"@
    }
}

/// `n / d` rounded to nearest, ties to even.
pub(crate) fn div_round_even_exec(n: u128, d: u128) -> (q: u128)
    requires
        d > 0,
        d < 0x1_0000_0000_0000_0000_0000_0000,
        n < 0x1_0000_0000_0000_0000_0000_0000,
    ensures
        q == div_round_even(n as nat, d as nat),
{
    let q = n / d;
    let r = n % d;
    if 2 * r > d || (2 * r == d && q % 2 == 1) {
        q + 1
    } else {
        q
    }
}

proof fn lemma_pow2_pos(k: nat)
    ensures
        pow2(k) >= 1,
    decreases k,
{
    if k > 0 {
        lemma_pow2_pos((k - 1) as nat);
    }
}

proof fn lemma_bit_len_bound(n: nat)
    ensures
        n < pow2(bit_len(n)),
    decreases n,
{
    if n > 0 {
        lemma_bit_len_bound(n / 2);
    }
}

proof fn lemma_pow2_mono(a: nat, b: nat)
    requires
        a <= b,
    ensures
        pow2(a) <= pow2(b),
    decreases b,
{
    if a < b {
        lemma_pow2_mono(a, (b - 1) as nat);
    }
}

pub(crate) proof fn lemma_bit_len_small(n: nat, k: nat)
    requires
        n < pow2(k),
    ensures
        bit_len(n) <= k,
    decreases k,
{
    if n > 0 {
        if k == 0 {
            assert(false);
        } else {
            lemma_bit_len_small(n / 2, (k - 1) as nat);
        }
    }
}

proof fn lemma_bit_len_low(n: nat)
    requires
        n > 0,
    ensures
        bit_len(n) >= 1,
        n >= pow2((bit_len(n) - 1) as nat),
    decreases n,
{
    if n / 2 > 0 {
        lemma_bit_len_low(n / 2);
        let b = bit_len(n / 2);
        assert(bit_len(n) == 1 + b);
        assert(pow2(b) == 2 * pow2((b - 1) as nat));
    } else {
        assert(bit_len(n / 2) == 0);
        assert(pow2(0) == 1);
    }
}

pub(crate) proof fn lemma_pow2_values()
    ensures
        pow2(11) == 2048,
        pow2(53) == 0x20_0000_0000_0000,
        pow2(64) == 0x1_0000_0000_0000_0000,
{
    reveal_with_fuel(pow2, 12);
    assert(pow2(11) == 2048);
    assert(pow2(32) == 0x1_0000_0000) by {
        reveal_with_fuel(pow2, 22);
        assert(pow2(11) == 2048);
        assert(pow2(22) == 2048 * 2048);
    }
    lemma_pow2_add(32, 21);
    assert(pow2(21) == 0x20_0000) by {
        reveal_with_fuel(pow2, 11);
        assert(pow2(11) == 2048);
    }
    lemma_pow2_add(32, 32);
}

proof fn lemma_pow2_add(a: nat, b: nat)
    ensures
        pow2(a + b) == pow2(a) * pow2(b),
    decreases b,
{
    if b > 0 {
        lemma_pow2_add(a, (b - 1) as nat);
        assert(pow2(a + b) == 2 * pow2((a + b - 1) as nat));
        assert(pow2(a) * pow2(b) == pow2(a) * (2 * pow2((b - 1) as nat)));
        assert(pow2(a) * (2 * pow2((b - 1) as nat)) == 2 * (pow2(a) * pow2((b - 1) as nat))) by (nonlinear_arith);
    } else {
        assert(pow2(0) == 1);
        assert(a + b == a);
    }
}

/// Number of binary digits of `n`.
fn bit_length(n: u64) -> (bl: u64)
    ensures
        bl == bit_len(n as nat),
        bl <= 64,
{
    let mut t = n;
    let mut bl: u64 = 0;
    proof {
        lemma_bit_len_bound(n as nat);
        lemma_pow2_values();
    }
    while t > 0
        invariant
            bit_len(n as nat) == bl + bit_len(t as nat),
            bl <= 64,
            t < pow2((64 - bl) as nat),
        decreases t,
    {
        if bl == 64 {
            assert(pow2(0) == 1);
            assert(false);
        }
        assert(pow2((64 - bl) as nat) == 2 * pow2((64 - bl - 1) as nat));
        t = t / 2;
        bl = bl + 1;
    }
    bl
}

/// `2^k` for `k <= 11`.
fn pow2_small(k: u64) -> (p: u128)
    requires
        k <= 11,
    ensures
        p == pow2(k as nat),
        1 <= p <= 2048,
{
    let mut p: u128 = 1;
    let mut i: u64 = 0;
    proof {
        lemma_pow2_values();
    }
    while i < k
        invariant
            i <= k <= 11,
            p == pow2(i as nat),
            1 <= p <= 2048,
            pow2(11) == 2048,
        decreases k - i,
    {
        proof {
            lemma_pow2_mono((i + 1) as nat, 11);
        }
        p = p * 2;
        i = i + 1;
    }
    p
}

/// `n as f64` for `n < 2^64`, as an integer.
pub(crate) fn f64_of(n: u64) -> (m: u128)
    ensures
        m == f64_nat(n as nat),
        m <= n + 2048,
        n > 0 ==> m > 0,
{
    let bl = bit_length(n);
    if bl <= 53 {
        return n as u128;
    }
    let k = bl - 53;
    let p = pow2_small(k);
    proof {
        lemma_pow2_pos(k as nat);
        lemma_bit_len_low(n as nat);
        lemma_pow2_mono(k as nat, (bl - 1) as nat);
    }
    let q = div_round_even_exec(n as u128, p);
    assert(q >= 1) by (nonlinear_arith)
        requires
            q >= n as u128 / p,
            n as u128 >= p,
            p >= 1,
    ;
    assert(q * p <= n as u128 + p) by (nonlinear_arith)
        requires
            q <= n as u128 / p + 1,
            p >= 1,
    ;
    assert(q * p >= 1) by (nonlinear_arith)
        requires
            q >= 1,
            p >= 1,
    ;
    q * p
}

/// Appends `r / 10^places` with `places` decimals.
pub(crate) fn push_fixed(out: &mut String, r: u128, places: u64)
    requires
        places == 1 || places == 2,
    ensures
        final(out)@ == old(out)@ + fixed_seq(r as nat, places as nat),
{
    if places == 1 {
        push_decimal(out, r / 10);
        push_char(out, '.');
        push_char(out, digit(r % 10));
        assert(old(out)@ + fixed_seq(r as nat, 1) == old(out)@ + dec_seq((r / 10) as nat) + seq![
            '.',
        ] + seq![digit_char((r % 10) as nat)]);
    } else {
        push_decimal(out, r / 100);
        push_char(out, '.');
        push_char(out, digit((r % 100) / 10));
        push_char(out, digit(r % 10));
        assert(old(out)@ + fixed_seq(r as nat, 2) == old(out)@ + dec_seq((r / 100) as nat) + seq![
            '.',
        ] + seq![digit_char(((r % 100) / 10) as nat)] + seq![digit_char((r % 10) as nat)]);
    }
}

} // verus!
