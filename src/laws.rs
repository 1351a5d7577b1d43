use vstd::prelude::*;

use crate::generator::{advance, draws, output, seeded, step, RaState, SEED_MIX_0, SEED_MIX_1};
use crate::sample::Sample;

verus! {

/// Drawing `m` words and then `n` more gives the same words, in the same
/// order, as drawing `m + n` words at once.
pub proof fn lemma_draws_concat(st: RaState, m: nat, n: nat)
    ensures
        draws(st, m + n) == draws(st, m) + draws(advance(st, m), n),
        advance(st, m + n) == advance(advance(st, m), n),
    decreases m,
{
    if m == 0 {
        assert(draws(st, 0) + draws(st, n) =~= draws(st, n));
    } else {
        lemma_draws_concat(step(st), (m - 1) as nat, n);
        assert(((m - 1) as nat) + n == (m + n - 1) as nat);
        assert(draws(st, m + n) =~= draws(st, m) + draws(advance(st, m), n));
    }
}

/// Two generators made from the same seed produce the same words: for every
/// `n`, their first `n` draws agree and leave them in the same state.
pub proof fn lemma_same_seed_same_draws(seed: u64, a: RaState, b: RaState, n: nat)
    requires
        a == seeded(seed),
        b == seeded(seed),
    ensures
        draws(a, n) == draws(b, n),
        advance(a, n) == advance(b, n),
{
}

/// Whatever the seed, the first two state words are not both zero, so the
/// state a generator starts from is never all zero.
pub proof fn lemma_seeded_state_nonzero(seed: u64)
    ensures
        seeded(seed).0[0] != 0 || seeded(seed).0[1] != 0,
{
    let a = SEED_MIX_0;
    let b = SEED_MIX_1;
    assert((a ^ seed) == 0 && (b ^ seed) == 0 ==> a == b) by (bit_vector);
}

/// A 128-bit sample is the first of its two raw words shifted into the high
/// half, joined with the second as the low half. As numbers: the first word
/// times 2^64 plus the second. The signed sample has the same bits.
pub proof fn lemma_wide_sample_composition(st: RaState)
    ensures
        u128::from_draws(draws(st, 2)) == ((output(st) as u128) << 64u128) | (output(step(st)) as u128),
        u128::from_draws(draws(st, 2)) as int == output(st) * 0x1_0000_0000_0000_0000int + output(step(st)),
        i128::from_draws(draws(st, 2)) as u128 == u128::from_draws(draws(st, 2)),
{
    reveal_with_fuel(draws, 3);
    let hi = output(st);
    let lo = output(step(st));
    assert(draws(st, 2) =~= seq![hi, lo]);
    assert((((hi as u128) << 64u128) | (lo as u128)) == (hi as u128) * 0x1_0000_0000_0000_0000u128 + (lo as u128)) by (bit_vector);
    assert(((((hi as u128) << 64u128) | (lo as u128)) as i128) as u128 == (((hi as u128) << 64u128) | (lo as u128))) by (bit_vector);
}

/// A boolean sample is true exactly when bit 5 of its raw word is clear.
pub proof fn lemma_bool_sample_bit_five(st: RaState)
    ensures
        bool::from_draws(draws(st, 1)) <==> (output(st) / 32) % 2 == 0,
{
    reveal_with_fuel(draws, 2);
    let x = output(st);
    assert((x & 0x20 == 0) <==> (x / 32) % 2 == 0) by (bit_vector);
}

/// A signed 64-bit sample reads its raw word as two's complement: it is
/// negative exactly when the word is at least 2^63.
pub proof fn lemma_signed_sample_twos_complement(st: RaState)
    ensures
        i64::from_draws(draws(st, 1)) as int == if output(st) < 0x8000_0000_0000_0000u64 {
            output(st) as int
        } else {
            output(st) - 0x1_0000_0000_0000_0000int
        },
        i64::from_draws(draws(st, 1)) < 0 <==> output(st) >= 0x8000_0000_0000_0000u64,
{
    reveal_with_fuel(draws, 2);
    let x = output(st);
    assert((x as i64) as int == if x < 0x8000_0000_0000_0000u64 {
        x as int
    } else {
        x - 0x1_0000_0000_0000_0000int
    }) by (bit_vector);
}

} // verus!
