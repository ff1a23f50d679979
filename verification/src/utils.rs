//! Small shared pieces of viewer state: the redraw flag, the Julia uniform,
//! the view selector, digit counting for the FPS overlay, and the decoding of
//! SPIR-V shader bytes into 32-bit words.

use vstd::prelude::*;

verus! {

/// The `is_julia` uniform value: tells the fragment shader whether to draw the
/// Julia set instead of the Mandelbrot set.
#[derive(Clone, Copy, Debug, PartialEq, Eq, Structural)]
pub struct Julia {
    pub is_julia: bool,
}

/// Tracks whether anything changed since the last frame, so the event loop
/// knows to request a redraw once events settle.
pub struct Changed(pub bool);

impl Changed {
    /// Records the new state; the description only names the cause for a reader.
    pub fn set(&mut self, state: bool, _desc: &str)
        ensures
            final(self).0 == state,
    {
        self.0 = state;
    }
}

/// Which layout is on screen: one full-window Mandelbrot view, or the split
/// Mandelbrot-and-Julia view.
#[derive(Clone, Copy, Debug, PartialEq, Eq, Structural)]
pub enum CurrentView {
    Single,
    Double,
}

/// Number of decimal digits of `n`, with zero digits for `n == 0`.
pub open spec fn decimal_digits(n: nat) -> nat
    decreases n,
{
    if n == 0 {
        0
    } else {
        1 + decimal_digits(n / 10)
    }
}

/// `10^k`, used only to bound `decimal_digits`.
pub open spec fn pow10(k: nat) -> nat
    decreases k,
{
    if k == 0 {
        1
    } else {
        10 * pow10((k - 1) as nat)
    }
}

/// A number below `10^k` has at most `k` decimal digits.
proof fn lemma_decimal_digits_le(n: nat, k: nat)
    requires
        n < pow10(k),
    ensures
        decimal_digits(n) <= k,
    decreases k,
{
    if n == 0 {
    } else {
        assert(k > 0);
        assert(pow10(k) == 10 * pow10((k - 1) as nat));
        assert(n / 10 < pow10((k - 1) as nat));
        lemma_decimal_digits_le(n / 10, (k - 1) as nat);
    }
}

/// Digit counting used to place the FPS text; the count is one more than the
/// number of decimal digits, with `0` counted as having none.
pub trait DigitsCountable: Sized {
    spec fn digits_spec(self) -> nat;

    fn count_digits(self) -> (r: usize)
        ensures
            r == self.digits_spec() + 1,
    ;
}

impl DigitsCountable for usize {
    open spec fn digits_spec(self) -> nat {
        decimal_digits(self as nat)
    }

    fn count_digits(self) -> (r: usize)
        ensures
            r == decimal_digits(self as nat) + 1,
    {
        proof {
            assert(pow10(20) == 100000000000000000000) by {
                reveal_with_fuel(pow10, 21);
            }
            lemma_decimal_digits_le(self as nat, 20);
        }
        let mut number = self;
        let mut count: usize = 0;

        while number > 0
            invariant
                count + decimal_digits(number as nat) == decimal_digits(self as nat),
                decimal_digits(self as nat) <= 20,
            decreases number,
        {
            number /= 10;
            count += 1;
        }

        count + 1
    }
}

/// The 32-bit word starting at byte `4 * i` of `bytes`, read little-endian.
pub open spec fn le_u32_at(bytes: Seq<u8>, i: int) -> u32 {
    (bytes[4 * i] + bytes[4 * i + 1] * 0x100 + bytes[4 * i + 2] * 0x1_0000 + bytes[4 * i + 3]
        * 0x100_0000) as u32
}

/// Reassembles SPIR-V shader bytes into the 32-bit words the GPU expects;
/// SPIR-V stores its words little-endian.
pub fn spirv_words(bytes: &Vec<u8>) -> (words: Vec<u32>)
    requires
        bytes@.len() % 4 == 0,
    ensures
        words@.len() == bytes@.len() / 4,
        forall|i: int| 0 <= i < words@.len() ==> words@[i] == le_u32_at(bytes@, i),
{
    let len = bytes.len();
    let n = len / 4;
    let mut words: Vec<u32> = Vec::new();
    let mut i: usize = 0;
    proof {
        assert(bytes@.len() == 4 * n);
    }
    while i < n
        invariant
            bytes@.len() == 4 * n,
            4 * n <= usize::MAX,
            i <= n,
            words@.len() == i,
            forall|j: int| 0 <= j < i ==> words@[j] == le_u32_at(bytes@, j),
        decreases n - i,
    {
        let b0 = bytes[4 * i];
        let b1 = bytes[4 * i + 1];
        let b2 = bytes[4 * i + 2];
        let b3 = bytes[4 * i + 3];
        let word = b0 as u32 + (b1 as u32) * 0x100 + (b2 as u32) * 0x1_0000 + (b3 as u32)
            * 0x100_0000;
        proof {
            assert(word == le_u32_at(bytes@, i as int));
        }
        words.push(word);
        i += 1;
    }
    words
}

} // verus!
