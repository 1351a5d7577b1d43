use vstd::prelude::*;

verus! {

/// Seed used by `Ra::default`.
pub const DEFAULT_RANDOM_SEED: u64 = 0xCAFEBABEDEADBEEF;

/// Constants mixed into the seed, one per state word. They are non-zero and
/// pairwise distinct, so every seed (zero included) gives a non-zero state.
pub const SEED_MIX_0: u64 = 0x70A7A712EAF07AA2;

pub const SEED_MIX_1: u64 = 0xE96A320D4BC6BDDB;

pub const SEED_MIX_2: u64 = 0xBC78C1658C9333BF;

pub const SEED_MIX_3: u64 = 0xBE5B64076E942A9E;

/// Starting value of the Weyl counter.
pub const COUNTER_START: u64 = 100;

/// Amount added to the Weyl counter on every draw.
pub const COUNTER_STEP: u64 = 362437;

/// The abstract state of a generator: four xorshift words and the Weyl counter.
pub type RaState = (Seq<u64>, u64);

/// Addition modulo 2^64.
pub open spec fn wrap_add(a: u64, b: u64) -> u64 {
    ((a + b) % 0x1_0000_0000_0000_0000) as u64
}

/// The state a generator starts from for a given seed.
pub open spec fn seeded(seed: u64) -> RaState {
    (
        seq![SEED_MIX_0 ^ seed, SEED_MIX_1 ^ seed, SEED_MIX_2 ^ seed, SEED_MIX_3 ^ seed],
        COUNTER_START,
    )
}

/// The xorshift mix of the oldest word `t` with the newest word `s`.
pub open spec fn mix(t: u64, s: u64) -> u64 {
    let t1 = t ^ (t >> 2u64);
    let t2 = t1 ^ (t1 << 2u64);
    t2 ^ s ^ (s << 4u64)
}

/// The state after one draw: the words shift by one place, the mixed word
/// enters at the front, and the counter advances by `COUNTER_STEP`.
pub open spec fn step(st: RaState) -> RaState {
    let w = st.0;
    (seq![mix(w[3], w[0]), w[0], w[1], w[2]], wrap_add(st.1, COUNTER_STEP))
}

/// The raw word produced by one draw from `st`: the new front word plus the
/// advanced counter, modulo 2^64.
pub open spec fn output(st: RaState) -> u64 {
    let next = step(st);
    wrap_add(next.0[0], next.1)
}

/// The state after `n` draws.
pub open spec fn advance(st: RaState, n: nat) -> RaState
    decreases n,
{
    if n == 0 {
        st
    } else {
        advance(step(st), (n - 1) as nat)
    }
}

/// The raw words produced by `n` draws from `st`, in order.
pub open spec fn draws(st: RaState, n: nat) -> Seq<u64>
    decreases n,
{
    if n == 0 {
        Seq::empty()
    } else {
        seq![output(st)].add(draws(step(st), (n - 1) as nat))
    }
}

/// A xorwow generator. It is a plain value: a copy continues with the same
/// outputs as the original, independently of it.
#[derive(Copy, Clone, Debug)]
pub struct Ra {
    state: [u64; 4],
    counter: u64,
}

impl View for Ra {
    type V = RaState;

    closed spec fn view(&self) -> RaState {
        (self.state@, self.counter)
    }
}

impl Ra {
    /// A generator whose state is derived from `seed`. Any seed is valid.
    pub fn new(seed: u64) -> (r: Ra)
        ensures
            r@ == seeded(seed),
    {
        let r = Ra {
            state: [SEED_MIX_0 ^ seed, SEED_MIX_1 ^ seed, SEED_MIX_2 ^ seed, SEED_MIX_3 ^ seed],
            counter: COUNTER_START,
        };
        assert(r.state@ =~= seeded(seed).0);
        r
    }

    /// Draws the next raw 64-bit word and advances the state by one step.
    pub fn xorwow(&mut self) -> (r: u64)
        ensures
            final(self)@ == step(old(self)@),
            r == output(old(self)@),
    {
        let mut t = self.state[3];
        let s = self.state[0];
        self.state[3] = self.state[2];
        self.state[2] = self.state[1];
        self.state[1] = s;

        t = t ^ (t >> 2u64);
        t = t ^ (t << 2u64);
        t = t ^ s ^ (s << 4u64);
        self.state[0] = t;

        self.counter = self.counter.wrapping_add(COUNTER_STEP);
        assert(self.state@ =~= step(old(self)@).0);
        t.wrapping_add(self.counter)
    }
}

impl Default for Ra {
    /// The generator seeded with `DEFAULT_RANDOM_SEED`.
    fn default() -> (r: Ra)
        ensures
            r@ == seeded(DEFAULT_RANDOM_SEED),
    {
        Ra::new(DEFAULT_RANDOM_SEED)
    }
}

} // verus!
