//! AMD's Fletcher-32 checksum variant over a little-endian u16 word stream.
//!
//! Two accumulators `(a, b)` start at `0x0000FFFF`. For each word `w`,
//! `a <- a + w` and `b <- b + a`, each sum reduced back below `0x10000` by
//! subtracting `0xFFFF` (one's-complement folding): a value congruent to zero
//! modulo `0xFFFF` keeps the representative `0xFFFF`, never `0`. The final
//! checksum is `(b << 16) | a`.

use vstd::prelude::*;

verus! {

/// One folding step: bring a sum of two accumulators (each below `0x10000`)
/// back below `0x10000`, preserving its value modulo `0xFFFF`.
pub open spec fn fletcher_fold(x: int) -> int {
    if x >= 0x10000 {
        x - 0xffff
    } else {
        x
    }
}

/// Feed one word into the accumulator pair.
pub open spec fn fletcher_step(a: int, b: int, w: u16) -> (int, int) {
    let a2 = fletcher_fold(a + w);
    let b2 = fletcher_fold(b + a2);
    (a2, b2)
}

/// The accumulator pair after feeding all of `words`, in order.
pub open spec fn fletcher_state(words: Seq<u16>) -> (int, int)
    decreases words.len(),
{
    if words.len() == 0 {
        (0xffff, 0xffff)
    } else {
        let prev = fletcher_state(words.drop_last());
        fletcher_step(prev.0, prev.1, words.last())
    }
}

/// The checksum of a word stream: `(b << 16) | a`.
pub open spec fn fletcher32_value(words: Seq<u16>) -> int {
    let s = fletcher_state(words);
    s.1 * 0x10000 + s.0
}

/// Both accumulators always stay within `[1, 0xFFFF]`.
pub proof fn lemma_fletcher_state_bounds(words: Seq<u16>)
    ensures
        1 <= fletcher_state(words).0 <= 0xffff,
        1 <= fletcher_state(words).1 <= 0xffff,
    decreases words.len(),
{
    if words.len() > 0 {
        lemma_fletcher_state_bounds(words.drop_last());
    }
}

/// The state after no input at all: each accumulator holds `0x0000FFFF`.
pub proof fn lemma_fletcher_initial_state()
    ensures
        fletcher_state(Seq::<u16>::empty()).0 == 0xffff,
        fletcher_state(Seq::<u16>::empty()).1 == 0xffff,
{
}

/// Appending a zero word never changes the first accumulator, and changes
/// the second only by the first, modulo the `0xFFFF` reduction. From a state
/// whose first accumulator is congruent to zero — the initial state among
/// them — a zero word leaves the whole state exactly unchanged.
pub proof fn lemma_fletcher_zero_word(words: Seq<u16>)
    ensures
        fletcher_state(words.push(0)).0 == fletcher_state(words).0,
        fletcher_state(words.push(0)).1 % 0xffff == (fletcher_state(words).1 + fletcher_state(
            words,
        ).0) % 0xffff,
        fletcher_state(words).0 % 0xffff == 0 ==> fletcher_state(words.push(0)) == fletcher_state(
            words,
        ),
{
    lemma_fletcher_state_bounds(words);
    let s = fletcher_state(words);
    assert(words.push(0).drop_last() =~= words);
    assert(words.push(0).last() == 0u16);
    let a2 = fletcher_fold(s.0 + 0);
    assert(a2 == s.0);
    let b2 = fletcher_fold(s.1 + s.0);
    if s.1 + s.0 >= 0x10000 {
        vstd::arithmetic::div_mod::lemma_mod_sub_multiples_vanish(s.1 + s.0, 0xffff);
    }
    if s.0 % 0xffff == 0 {
        if s.0 < 0xffff {
            vstd::arithmetic::div_mod::lemma_small_mod(s.0 as nat, 0xffff);
        }
        assert(s.0 == 0xffff);
        assert(b2 == s.1);
    }
}

/// The running checksum state. The pair of accumulators mirrors
/// `fletcher_state` over the words fed so far.
pub struct AmdFletcher32 {
    a: Wu32,
    b: Wu32,
    words: Ghost<Seq<u16>>,
}

/// A 32-bit accumulator of the checksum.
#[derive(Clone, Copy, PartialEq, Eq, Structural)]
pub struct Wu32(u32);

impl Wu32 {
    pub closed spec fn spec_value(&self) -> u32 {
        self.0
    }

    pub fn value(&self) -> (r: u32)
        ensures
            r == self.spec_value(),
    {
        self.0
    }
}

impl Default for Wu32 {
    /// The checksum seed.
    fn default() -> (r: Self)
        ensures
            r.spec_value() == 0xffffu32,
    {
        Wu32(0xffff)
    }
}

impl AmdFletcher32 {
    /// The words fed so far.
    pub closed spec fn spec_words(&self) -> Seq<u16> {
        self.words@
    }

    pub open spec fn wf(&self) -> bool {
        &&& self.spec_a() == fletcher_state(self.spec_words()).0
        &&& self.spec_b() == fletcher_state(self.spec_words()).1
    }

    pub closed spec fn spec_a(&self) -> int {
        self.a.spec_value() as int
    }

    pub closed spec fn spec_b(&self) -> int {
        self.b.spec_value() as int
    }

    pub fn new() -> (r: Self)
        ensures
            r.wf(),
            r.spec_words() == Seq::<u16>::empty(),
    {
        Self { a: Wu32(0xffff), b: Wu32(0xffff), words: Ghost(Seq::empty()) }
    }

    /// Feed the given words, in order.
    pub fn update(&mut self, data: &[u16])
        requires
            old(self).wf(),
        ensures
            final(self).wf(),
            final(self).spec_words() == old(self).spec_words() + data@,
    {
        let ghost orig_words = self.words@;
        let mut i: usize = 0;
        proof {
            assert(orig_words + data@.take(0) =~= orig_words);
        }
        while i < data.len()
            invariant
                self.wf(),
                i <= data@.len(),
                self.spec_words() == orig_words + data@.take(i as int),
            decreases data@.len() - i,
        {
            let w = data[i];
            let ghost pw = self.spec_words();
            proof {
                lemma_fletcher_state_bounds(pw);
                assert(pw.push(w) =~= orig_words + data@.take(i as int + 1));
                assert(pw.push(w).drop_last() =~= pw);
                assert(pw.push(w).last() == w);
                assert(fletcher_state(pw.push(w)) == fletcher_step(
                    fletcher_state(pw).0,
                    fletcher_state(pw).1,
                    w,
                ));
            }
            let ia: u32 = self.a.0 + (w as u32);
            let a2: u32 = if ia >= 0x10000 {
                ia - 0xffff
            } else {
                ia
            };
            let ib: u32 = self.b.0 + a2;
            let b2: u32 = if ib >= 0x10000 {
                ib - 0xffff
            } else {
                ib
            };
            self.a = Wu32(a2);
            self.b = Wu32(b2);
            proof {
                self.words@ = self.words@.push(w);
            }
            i = i + 1;
        }
        proof {
            assert(data@.take(data@.len() as int) =~= data@);
        }
    }

    /// The current checksum value, `(b << 16) | a`.
    pub fn value(&self) -> (r: Wu32)
        requires
            self.wf(),
        ensures
            r.spec_value() == fletcher32_value(self.spec_words()),
    {
        proof {
            lemma_fletcher_state_bounds(self.spec_words());
        }
        Wu32(self.b.0 * 0x10000 + self.a.0)
    }
}

/// The checksum of a whole word stream in one call.
pub fn calc_fletcher32(data: &[u16]) -> (r: u32)
    ensures
        r == fletcher32_value(data@),
{
    let mut checksummer = AmdFletcher32::new();
    checksummer.update(data);
    proof {
        assert(Seq::<u16>::empty() + data@ =~= data@);
    }
    checksummer.value().value()
}

} // verus!
