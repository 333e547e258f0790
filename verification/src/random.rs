//! The deterministic random source.
//!
//! Each host owns one `RandomSource`, created from the simulation seed. Its
//! output is a pure function of the seed and of the byte cursor — the number
//! of bytes drawn from it before — so that repeated runs with the same seed
//! and the same sequence of draws see byte-identical streams. The entropy
//! itself comes from a seeded generator of the `rand` crate; this module
//! slices its fixed-width draws into a byte-addressed stream.

use vstd::arithmetic::div_mod::lemma_fundamental_div_mod_converse;
use vstd::prelude::*;

use rand::RngCore;
use rand::SeedableRng;

verus! {

#[verifier::external_type_specification]
#[verifier::external_body]
pub struct ExStdRng(rand::rngs::StdRng);

/// The value of the `k`-th fixed-width draw made from the host's underlying
/// generator when it was seeded with `seed`. The generator is a fixed,
/// platform-independent algorithm, so this is a function of `seed` and `k`
/// alone; nothing further is assumed about the values.
pub uninterp spec fn rng_word(seed: u64, k: nat) -> u64;

/// Byte `i` of the deterministic stream for `seed`: the bytes of each draw,
/// taken least-significant first.
pub open spec fn stream_byte(seed: u64, i: nat) -> u8 {
    ((rng_word(seed, i / 8) >> (((i % 8) * 8) as u64)) & 0xff) as u8
}

/// The `len` stream bytes for `seed` starting at byte offset `off`.
pub open spec fn stream(seed: u64, off: nat, len: nat) -> Seq<u8> {
    Seq::new(len, |j: int| stream_byte(seed, (off + j) as nat))
}

/// Relies on rand's `SeedableRng::seed_from_u64` for `StdRng`: seeding is a
/// deterministic expansion of the 64-bit seed, so the generator's draws are
/// fixed by `seed` alone. The value itself is opaque; what its draws return
/// is stated on `WordStream::next_word`.
#[verifier::external_body]
fn seeded_rng(seed: u64) -> rand::rngs::StdRng {
    rand::rngs::StdRng::seed_from_u64(seed)
}

/// The seeded generator together with the count of draws made from it.
struct WordStream {
    rng: rand::rngs::StdRng,
    seed: u64,
    pos: Ghost<nat>,
}

impl WordStream {
    spec fn spec_seed(&self) -> u64 {
        self.seed
    }

    spec fn spec_pos(&self) -> nat {
        self.pos@
    }

    fn new(seed: u64) -> (s: WordStream)
        ensures
            s.spec_seed() == seed,
            s.spec_pos() == 0,
    {
        WordStream { rng: seeded_rng(seed), seed, pos: Ghost(0) }
    }

    /// Relies on rand's `RngCore::next_u64` for `StdRng` (a fixed ChaCha
    /// variant in the version built against): the value of the `k`-th draw
    /// from a given seed is the same in every run, on every machine. The
    /// `seed` and `pos` fields name that seed and that draw count; they are
    /// kept in step with the generator because this module constructs a
    /// `WordStream` only through `new` and advances it only here.
    #[verifier::external_body]
    fn next_word(&mut self) -> (w: u64)
        ensures
            final(self).spec_seed() == old(self).spec_seed(),
            final(self).spec_pos() == old(self).spec_pos() + 1,
            w == rng_word(old(self).spec_seed(), old(self).spec_pos()),
        no_unwind
    {
        self.rng.next_u64()
    }
}

/// A per-host deterministic byte source.
///
/// Created once per host from the simulation seed and mutated in place on
/// every draw, under the caller's exclusive access. The bytes it hands out
/// are `stream(seed, cursor, ..)`: a pure function of the seed and of how
/// many bytes were drawn before. Draws always complete and never block, so
/// there is no separate "secure" variant.
pub struct RandomSource {
    words: WordStream,
    word: u64,
    used: u8,
}

impl RandomSource {
    /// `used` counts how many bytes of the draw held in `word` were already
    /// served, so the byte cursor and the draw count stay in step.
    #[verifier::type_invariant]
    spec fn inv(&self) -> bool {
        &&& self.used <= 8
        &&& 8 * self.words.spec_pos() + self.used >= 8
        &&& self.used < 8 ==> {
            &&& self.words.spec_pos() >= 1
            &&& self.word == rng_word(self.words.spec_seed(), (self.words.spec_pos() - 1) as nat)
        }
    }

    /// The seed this source was created with.
    pub closed spec fn seed(&self) -> u64 {
        self.words.spec_seed()
    }

    /// The number of bytes drawn from this source so far.
    pub closed spec fn cursor(&self) -> nat {
        (8 * self.words.spec_pos() + self.used - 8) as nat
    }

    /// A fresh source for `seed`, with nothing drawn yet.
    pub fn new(seed: u64) -> (s: RandomSource)
        ensures
            s.seed() == seed,
            s.cursor() == 0,
    {
        RandomSource { words: WordStream::new(seed), word: 0, used: 8 }
    }

    /// Serves the single stream byte at the current cursor.
    fn next_byte(&mut self) -> (b: u8)
        ensures
            final(self).seed() == old(self).seed(),
            final(self).cursor() == old(self).cursor() + 1,
            b == stream_byte(old(self).seed(), old(self).cursor()),
    {
        proof {
            use_type_invariant(&*self);
        }
        if self.used == 8 {
            let w = self.words.next_word();
            self.word = w;
            self.used = 0;
        }
        let b: u8 = ((self.word >> (8 * (self.used as u64))) & 0xff) as u8;
        proof {
            lemma_fundamental_div_mod_converse(
                old(self).cursor() as int,
                8,
                self.words.spec_pos() - 1,
                self.used as int,
            );
        }
        self.used = self.used + 1;
        b
    }

    /// Fills `out` fully with the next `out.len()` stream bytes and
    /// advances the cursor by that many; the draw always completes.
    pub fn draw_bytes(&mut self, out: &mut Vec<u8>)
        ensures
            final(self).seed() == old(self).seed(),
            final(self).cursor() == old(self).cursor() + old(out)@.len(),
            final(out)@ == stream(old(self).seed(), old(self).cursor(), old(out)@.len()),
    {
        let n = out.len();
        let mut i: usize = 0;
        while i < n
            invariant
                i <= n,
                n == old(out)@.len(),
                out@.len() == n,
                self.seed() == old(self).seed(),
                self.cursor() == old(self).cursor() + i,
                forall|j: int|
                    0 <= j < i ==> out@[j] == stream_byte(
                        old(self).seed(),
                        (old(self).cursor() + j) as nat,
                    ),
            decreases n - i,
        {
            let b = self.next_byte();
            out[i] = b;
            i = i + 1;
        }
        proof {
            assert(out@ =~= stream(old(self).seed(), old(self).cursor(), old(out)@.len()));
        }
    }
}

} // verus!
