use vstd::prelude::*;

use crate::generator::{advance, draws, Ra};

verus! {

/// A type whose values can be drawn from a generator. Each recipe consumes a
/// fixed number of raw words and builds its value from them alone.
pub trait Sample: Sized {
    /// How many raw words one sample consumes.
    spec fn draw_count() -> nat;

    /// The value built from the raw words `w`, taken in the order drawn.
    spec fn from_draws(w: Seq<u64>) -> Self;

    /// Draws `draw_count()` raw words from `ra` and builds a value from them.
    fn sample(ra: &mut Ra) -> (r: Self)
        ensures
            final(ra)@ == advance(old(ra)@, Self::draw_count()),
            r == Self::from_draws(draws(old(ra)@, Self::draw_count())),
    ;
}

impl Ra {
    /// A value of type `T`, built by `T`'s recipe from the next raw words.
    pub fn sample<T: Sample>(&mut self) -> (r: T)
        ensures
            final(self)@ == advance(old(self)@, T::draw_count()),
            r == T::from_draws(draws(old(self)@, T::draw_count())),
    {
        T::sample(self)
    }
}

impl Sample for bool {
    open spec fn draw_count() -> nat {
        1
    }

    /// True exactly when bit 5 of the raw word is clear.
    open spec fn from_draws(w: Seq<u64>) -> bool {
        w[0] & 0x20 == 0
    }

    fn sample(ra: &mut Ra) -> (r: bool) {
        let x = ra.xorwow();
        proof {
            reveal_with_fuel(draws, 2);
            reveal_with_fuel(advance, 2);
        }
        x & 0x20 == 0
    }
}

impl Sample for u8 {
    open spec fn draw_count() -> nat {
        1
    }

    /// The low 8 bits of the raw word.
    open spec fn from_draws(w: Seq<u64>) -> u8 {
        w[0] as u8
    }

    fn sample(ra: &mut Ra) -> (r: u8) {
        let x = ra.xorwow();
        proof {
            reveal_with_fuel(draws, 2);
            reveal_with_fuel(advance, 2);
        }
        x as u8
    }
}

impl Sample for u128 {
    open spec fn draw_count() -> nat {
        2
    }

    /// The first raw word as the high half, the second as the low half.
    open spec fn from_draws(w: Seq<u64>) -> u128 {
        ((w[0] as u128) << 64u128) | (w[1] as u128)
    }

    fn sample(ra: &mut Ra) -> (r: u128) {
        let hi = ra.xorwow();
        let lo = ra.xorwow();
        proof {
            reveal_with_fuel(draws, 3);
            reveal_with_fuel(advance, 3);
        }
        ((hi as u128) << 64u128) | (lo as u128)
    }
}

impl Sample for i8 {
    open spec fn draw_count() -> nat {
        1
    }

    /// The low 8 bits of the raw word, as two's complement.
    open spec fn from_draws(w: Seq<u64>) -> i8 {
        w[0] as i8
    }

    fn sample(ra: &mut Ra) -> (r: i8) {
        let x = ra.xorwow();
        proof {
            reveal_with_fuel(draws, 2);
            reveal_with_fuel(advance, 2);
        }
        x as i8
    }
}

impl Sample for u16 {
    open spec fn draw_count() -> nat {
        1
    }

    /// The low 16 bits of the raw word.
    open spec fn from_draws(w: Seq<u64>) -> u16 {
        w[0] as u16
    }

    fn sample(ra: &mut Ra) -> (r: u16) {
        let x = ra.xorwow();
        proof {
            reveal_with_fuel(draws, 2);
            reveal_with_fuel(advance, 2);
        }
        x as u16
    }
}

impl Sample for i16 {
    open spec fn draw_count() -> nat {
        1
    }

    /// The low 16 bits of the raw word, as two's complement.
    open spec fn from_draws(w: Seq<u64>) -> i16 {
        w[0] as i16
    }

    fn sample(ra: &mut Ra) -> (r: i16) {
        let x = ra.xorwow();
        proof {
            reveal_with_fuel(draws, 2);
            reveal_with_fuel(advance, 2);
        }
        x as i16
    }
}

impl Sample for u32 {
    open spec fn draw_count() -> nat {
        1
    }

    /// The low 32 bits of the raw word.
    open spec fn from_draws(w: Seq<u64>) -> u32 {
        w[0] as u32
    }

    fn sample(ra: &mut Ra) -> (r: u32) {
        let x = ra.xorwow();
        proof {
            reveal_with_fuel(draws, 2);
            reveal_with_fuel(advance, 2);
        }
        x as u32
    }
}

impl Sample for i32 {
    open spec fn draw_count() -> nat {
        1
    }

    /// The low 32 bits of the raw word, as two's complement.
    open spec fn from_draws(w: Seq<u64>) -> i32 {
        w[0] as i32
    }

    fn sample(ra: &mut Ra) -> (r: i32) {
        let x = ra.xorwow();
        proof {
            reveal_with_fuel(draws, 2);
            reveal_with_fuel(advance, 2);
        }
        x as i32
    }
}

impl Sample for u64 {
    open spec fn draw_count() -> nat {
        1
    }

    /// The raw word itself.
    open spec fn from_draws(w: Seq<u64>) -> u64 {
        w[0]
    }

    fn sample(ra: &mut Ra) -> (r: u64) {
        let x = ra.xorwow();
        proof {
            reveal_with_fuel(draws, 2);
            reveal_with_fuel(advance, 2);
        }
        x
    }
}

impl Sample for i64 {
    open spec fn draw_count() -> nat {
        1
    }

    /// The raw word's bits, as two's complement.
    open spec fn from_draws(w: Seq<u64>) -> i64 {
        w[0] as i64
    }

    fn sample(ra: &mut Ra) -> (r: i64) {
        let x = ra.xorwow();
        proof {
            reveal_with_fuel(draws, 2);
            reveal_with_fuel(advance, 2);
        }
        x as i64
    }
}

impl Sample for usize {
    open spec fn draw_count() -> nat {
        1
    }

    /// The low `usize::BITS` bits of the raw word.
    open spec fn from_draws(w: Seq<u64>) -> usize {
        w[0] as usize
    }

    fn sample(ra: &mut Ra) -> (r: usize) {
        let x = ra.xorwow();
        proof {
            reveal_with_fuel(draws, 2);
            reveal_with_fuel(advance, 2);
        }
        x as usize
    }
}

impl Sample for isize {
    open spec fn draw_count() -> nat {
        1
    }

    /// The low `isize::BITS` bits of the raw word, as two's complement.
    open spec fn from_draws(w: Seq<u64>) -> isize {
        w[0] as isize
    }

    fn sample(ra: &mut Ra) -> (r: isize) {
        let x = ra.xorwow();
        proof {
            reveal_with_fuel(draws, 2);
            reveal_with_fuel(advance, 2);
        }
        x as isize
    }
}

impl Sample for i128 {
    open spec fn draw_count() -> nat {
        2
    }

    /// The first raw word as the high half, the second as the low half, as
    /// two's complement.
    open spec fn from_draws(w: Seq<u64>) -> i128 {
        (((w[0] as u128) << 64u128) | (w[1] as u128)) as i128
    }

    fn sample(ra: &mut Ra) -> (r: i128) {
        let hi = ra.xorwow();
        let lo = ra.xorwow();
        proof {
            reveal_with_fuel(draws, 3);
            reveal_with_fuel(advance, 3);
        }
        (((hi as u128) << 64u128) | (lo as u128)) as i128
    }
}

} // verus!
