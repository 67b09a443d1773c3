use vstd::prelude::*;

verus! {

/// Seed the generator starts from. Any non-zero value works for xorshift.
pub const DEFAULT_SEED: u32 = 0x9E37_79B9;

/// One step of the xorshift32 generator (shifts 13, 17, 5).
pub open spec fn xorshift32(x: u32) -> u32 {
    let a = x ^ (x << 13u32);
    let b = a ^ (a >> 17u32);
    b ^ (b << 5u32)
}

/// Allocation-free white-noise source based on a xorshift32 PRNG.
///
/// The state is never zero: zero is the one fixed point of xorshift, from
/// which the generator would only ever produce silence.
pub struct Noise {
    state: u32,
}

impl View for Noise {
    type V = u32;

    open spec fn view(&self) -> u32 {
        self.spec_state()
    }
}

impl Noise {
    /// The current generator state.
    pub closed spec fn spec_state(&self) -> u32 {
        self.state
    }

    #[verifier::type_invariant]
    spec fn state_nonzero(self) -> bool {
        self.state != 0
    }

    /// Advances the generator by one xorshift32 step and returns the new state.
    ///
    /// The full `u32` range of the result is what the audio path maps onto
    /// `[-1.0, 1.0]`.
    pub fn next_u32(&mut self) -> (r: u32)
        ensures
            r == xorshift32(old(self)@),
            ({
                let x = old(self)@;
                let a = x ^ (x << 13u32);
                let b = a ^ (a >> 17u32);
                r == b ^ (b << 5u32)
            }),
            final(self)@ == r,
            r != 0,
            r != old(self)@,
    {
        proof {
            use_type_invariant(&*self);
            lemma_xorshift32_nonzero(self.state);
            lemma_xorshift32_no_fixed_point(self.state);
        }
        let mut x = self.state;
        x = x ^ (x << 13u32);
        x = x ^ (x >> 17u32);
        x = x ^ (x << 5u32);
        self.state = x;
        x
    }
}

impl Default for Noise {
    fn default() -> (n: Self)
        ensures
            n@ == DEFAULT_SEED,
    {
        Noise { state: DEFAULT_SEED }
    }
}

/// Every xorshift32 step maps a non-zero state to a non-zero state, so a
/// generator seeded with any non-zero value never gets stuck at zero.
pub proof fn lemma_xorshift32_nonzero(x: u32)
    requires
        x != 0,
    ensures
        xorshift32(x) != 0,
{
    let a = x ^ (x << 13u32);
    let b = a ^ (a >> 17u32);
    assert(x != 0 ==> (x ^ (x << 13u32)) != 0) by (bit_vector);
    assert(a != 0 ==> (a ^ (a >> 17u32)) != 0) by (bit_vector);
    assert(b != 0 ==> (b ^ (b << 5u32)) != 0) by (bit_vector);
}

/// One generator step is the composition of the three xorshift updates
/// `x ^= x << 13`, `x ^= x >> 17`, `x ^= x << 5`, applied to every state.
pub proof fn lemma_xorshift32_is_three_shifts(x: u32)
    ensures
        ({
            let a = x ^ (x << 13u32);
            let b = a ^ (a >> 17u32);
            xorshift32(x) == b ^ (b << 5u32)
        }),
{
}

/// No non-zero state is a fixed point of the generator: every step changes
/// the state, so the noise never freezes into a constant.
pub proof fn lemma_xorshift32_no_fixed_point(x: u32)
    requires
        x != 0,
    ensures
        xorshift32(x) != x,
{
    assert(x != 0 ==> ((x ^ (x << 13u32)) ^ ((x ^ (x << 13u32)) >> 17u32)) ^ (((x ^ (x << 13u32))
        ^ ((x ^ (x << 13u32)) >> 17u32)) << 5u32) != x) by (bit_vector);
}

/// Distinct states step to distinct states: the generator is a permutation
/// of the `u32` values, so it never merges two noise sequences.
pub proof fn lemma_xorshift32_injective(x: u32, y: u32)
    requires
        x != y,
    ensures
        xorshift32(x) != xorshift32(y),
{
    let ax = x ^ (x << 13u32);
    let ay = y ^ (y << 13u32);
    let bx = ax ^ (ax >> 17u32);
    let by = ay ^ (ay >> 17u32);
    assert(x != y ==> (x ^ (x << 13u32)) != (y ^ (y << 13u32))) by (bit_vector);
    assert(ax != ay ==> (ax ^ (ax >> 17u32)) != (ay ^ (ay >> 17u32))) by (bit_vector);
    assert(bx != by ==> (bx ^ (bx << 5u32)) != (by ^ (by << 5u32))) by (bit_vector);
}

} // verus!
