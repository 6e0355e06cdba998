use vstd::prelude::*;

verus! {

/// Multiplier of the linear-congruential recurrence.
pub const MULT: u64 = 16807;

/// Modulus of the linear-congruential recurrence, `2^31 - 1`.
pub const MODULO: u64 = 2147483647;

/// One step of the recurrence: `x' = (x * 16807 + 1) mod (2^31 - 1)`.
pub open spec fn lcg_step(x: nat) -> nat {
    (x * (MULT as nat) + 1) % (MODULO as nat)
}

/// The `i`-th table entry generated from `seed`: the recurrence applied
/// `i + 1` times, starting from the seed itself.
pub open spec fn state_at(seed: nat, i: nat) -> nat
    decreases i,
{
    if i == 0 {
        lcg_step(seed)
    } else {
        lcg_step(state_at(seed, (i - 1) as nat))
    }
}

/// The seed used after one full table is exhausted.
pub open spec fn next_seed(s: u64) -> u64 {
    if s == u64::MAX {
        0
    } else {
        (s + 1) as u64
    }
}

/// Every table entry is a remainder modulo `2^31 - 1`.
pub proof fn lemma_state_bounded(seed: nat, i: nat)
    ensures
        state_at(seed, i) < 2147483647,
    decreases i,
{
    if i > 0 {
        lemma_state_bounded(seed, (i - 1) as nat);
    }
}

/// Mathematical state of the engine: the current seed, the read cursor,
/// and the pregenerated table of draw numerators.
#[verifier::ext_equal]
pub struct RngView {
    pub seed: u64,
    pub position: nat,
    pub table: Seq<u64>,
}

/// A well-formed engine holds a non-empty table whose entries are exactly
/// the recurrence states of its seed, with the cursor inside or just past
/// the table.
pub open spec fn rng_wf(v: RngView) -> bool {
    &&& v.table.len() >= 1
    &&& v.position <= v.table.len()
    &&& forall|i: int|
        0 <= i < v.table.len() ==> #[trigger] v.table[i] as nat == state_at(
            v.seed as nat,
            i as nat,
        )
}

/// The table a well-formed engine with seed `seed` and size `size` holds.
pub open spec fn table_of(seed: u64, size: nat) -> Seq<u64> {
    Seq::new(size, |i: int| state_at(seed as nat, i as nat) as u64)
}

/// The numerator of the next draw: the table entry under the cursor, or,
/// when the table is exhausted, the first entry of the regenerated table
/// under the bumped seed.
pub open spec fn next_value(v: RngView) -> nat {
    if v.position < v.table.len() {
        v.table[v.position as int] as nat
    } else {
        state_at(next_seed(v.seed) as nat, 0)
    }
}

/// The engine state after one draw: the cursor advances, regenerating the
/// whole table under seed + 1 first when the old table is exhausted.
pub open spec fn stepped(v: RngView) -> RngView {
    if v.position < v.table.len() {
        RngView { seed: v.seed, position: v.position + 1, table: v.table }
    } else {
        RngView { seed: next_seed(v.seed), position: 1, table: table_of(next_seed(v.seed), v.table.len()) }
    }
}

/// Deterministic pseudo-uniform sequence generator. A table of `size`
/// numerators over `2^31 - 1` is pregenerated from the seed; draws consume
/// it sequentially, and exhausting it regenerates a full fresh table from
/// the incremented seed.
pub struct RngEngine {
    table: Vec<u64>,
    position: usize,
    seed: u64,
}

impl View for RngEngine {
    type V = RngView;

    closed spec fn view(&self) -> RngView {
        RngView { seed: self.seed, position: self.position as nat, table: self.table@ }
    }
}

impl RngEngine {
    /// Pregenerate the full table of recurrence states for `seed`.
    fn pseudo_uniform(seed: u64, size: usize) -> (table: Vec<u64>)
        requires
            size >= 1,
        ensures
            table@ == table_of(seed, size as nat),
    {
        let mut table: Vec<u64> = Vec::new();
        let mut x: u64 = ((seed as u128 * 16807 + 1) % 2147483647) as u64;
        proof {
            assert(x as nat == lcg_step(seed as nat));
        }
        table.push(x);
        let mut i: usize = 1;
        while i < size
            invariant
                1 <= i <= size,
                table@.len() == i,
                x == table@[i - 1],
                x < 2147483647,
                forall|j: int|
                    0 <= j < i ==> #[trigger] table@[j] as nat == state_at(seed as nat, j as nat),
            decreases size - i,
        {
            x = (x * 16807 + 1) % 2147483647;
            table.push(x);
            i = i + 1;
        }
        proof {
            assert(table@ =~= table_of(seed, size as nat));
        }
        table
    }

    /// Build an engine over a freshly generated table. A zero-sized table
    /// is rejected here so that draws always have an entry to read.
    pub fn new(seed: u64, size: usize) -> (r: Self)
        requires
            size >= 1,
        ensures
            rng_wf(r@),
            r@.seed == seed,
            r@.position == 0,
            r@.table.len() == size,
    {
        let table = Self::pseudo_uniform(seed, size);
        RngEngine { table, position: 0, seed }
    }

    /// Draw the next numerator; the uniform value in `[0, 1)` it stands
    /// for is the result divided by `2^31 - 1`. Exhausting the table
    /// regenerates it in full from the incremented seed.
    pub fn get_unit_numerator(&mut self) -> (r: u64)
        requires
            rng_wf(old(self)@),
        ensures
            rng_wf(final(self)@),
            final(self)@ == stepped(old(self)@),
            r as nat == next_value(old(self)@),
            r < 2147483647,
    {
        if self.position >= self.table.len() {
            let bumped: u64 = if self.seed == u64::MAX {
                0
            } else {
                self.seed + 1
            };
            let size = self.table.len();
            self.table = Self::pseudo_uniform(bumped, size);
            self.position = 0;
            self.seed = bumped;
        }
        let r = self.table[self.position];
        self.position = self.position + 1;
        proof {
            lemma_state_bounded(self@.seed as nat, (self@.position - 1) as nat);
            assert(final(self)@ =~= stepped(old(self)@));
        }
        r
    }

    /// Draw an integer in `[low, high)` (`low` itself when the range is
    /// empty): `low + floor((high - low) * u)` for the drawn uniform `u`.
    pub fn get_int_range(&mut self, low: usize, high: usize) -> (r: usize)
        requires
            rng_wf(old(self)@),
            low <= high,
        ensures
            rng_wf(final(self)@),
            final(self)@ == stepped(old(self)@),
            r == low + ((high - low) * next_value(old(self)@)) / 2147483647,
            low < high ==> low <= r < high,
            low == high ==> r == low,
    {
        let num = self.get_unit_numerator();
        let span = high - low;
        proof {
            vstd::arithmetic::mul::lemma_mul_upper_bound(
                span as int,
                usize::MAX as int,
                num as int,
                2147483646,
            );
            if span > 0 {
                vstd::arithmetic::mul::lemma_mul_strict_inequality(
                    num as int,
                    2147483647,
                    span as int,
                );
                vstd::arithmetic::div_mod::lemma_multiply_divide_lt(
                    span as int * num as int,
                    2147483647,
                    span as int,
                );
                assert((span as int * num as int) / 2147483647 < span as int);
            } else {
                vstd::arithmetic::mul::lemma_mul_basics(num as int);
            }
        }
        let offset = ((span as u128 * num as u128) / 2147483647) as usize;
        low + offset
    }
}

/// Two engines with the same seed, cursor, and table size are in the same
/// state: they yield the same next draw and step to equal states.
pub proof fn lemma_identical_engines_agree(a: RngView, b: RngView)
    requires
        rng_wf(a),
        rng_wf(b),
        a.seed == b.seed,
        a.position == b.position,
        a.table.len() == b.table.len(),
    ensures
        a == b,
        next_value(a) == next_value(b),
        stepped(a) == stepped(b),
{
    assert(a.table =~= b.table);
    assert(a =~= b);
}

/// An engine that has consumed its whole table continues exactly as a
/// fresh engine constructed with the incremented seed begins: their next
/// draws are equal.
pub proof fn lemma_exhausted_engine_matches_fresh(a: RngView, b: RngView)
    requires
        rng_wf(a),
        rng_wf(b),
        a.position == a.table.len(),
        b.seed == next_seed(a.seed),
        b.position == 0,
    ensures
        next_value(a) == next_value(b),
{
    assert(b.table[0] as nat == state_at(b.seed as nat, 0));
}

} // verus!
