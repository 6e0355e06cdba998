use vstd::prelude::*;

verus! {

/// Width of the frame-time averaging window, in frames.
pub const TICK_WINDOW: usize = 100;

/// Sum of a sequence of tick durations.
pub open spec fn sum_of(s: Seq<u64>) -> int
    decreases s.len(),
{
    if s.len() == 0 {
        0
    } else {
        s[0] + sum_of(s.drop_first())
    }
}

/// Replacing one entry moves the sum by the difference of the entries.
pub proof fn lemma_sum_update(s: Seq<u64>, i: int, v: u64)
    requires
        0 <= i < s.len(),
    ensures
        sum_of(s.update(i, v)) == sum_of(s) - s[i] + v,
    decreases s.len(),
{
    if i == 0 {
        assert(s.update(0, v).drop_first() =~= s.drop_first());
    } else {
        assert(s.update(i, v).drop_first() =~= s.drop_first().update(i - 1, v));
        lemma_sum_update(s.drop_first(), i - 1, v);
    }
}

/// Every entry is at most the sum of the whole sequence.
pub proof fn lemma_element_le_sum(s: Seq<u64>, i: int)
    requires
        0 <= i < s.len(),
    ensures
        s[i] <= sum_of(s),
        0 <= sum_of(s),
    decreases s.len(),
{
    lemma_sum_nonnegative(s.drop_first());
    if i > 0 {
        lemma_element_le_sum(s.drop_first(), i - 1);
    }
}

/// A sum of unsigned entries is not negative.
pub proof fn lemma_sum_nonnegative(s: Seq<u64>)
    ensures
        0 <= sum_of(s),
    decreases s.len(),
{
    if s.len() > 0 {
        lemma_sum_nonnegative(s.drop_first());
    }
}

/// A bound on every entry bounds the sum by `len` times it.
pub proof fn lemma_sum_bounded(s: Seq<u64>, bound: int)
    requires
        forall|i: int| 0 <= i < s.len() ==> #[trigger] s[i] <= bound,
        0 <= bound,
    ensures
        sum_of(s) <= s.len() * bound,
    decreases s.len(),
{
    if s.len() == 0 {
    } else {
        assert forall|i: int| 0 <= i < s.drop_first().len() implies #[trigger] s.drop_first()[i]
            <= bound by {
            assert(s.drop_first()[i] == s[i + 1]);
        }
        lemma_sum_bounded(s.drop_first(), bound);
        assert(s.len() * bound == s.drop_first().len() * bound + bound) by (nonlinear_arith)
            requires
                s.len() == s.drop_first().len() + 1,
        ;
    }
}

/// Frame statistics: a sliding window of the last hundred frame times in
/// milliseconds with its running sum, and the last measured update, draw,
/// and particle phase times in microseconds.
pub struct Stats {
    tick_index: usize,
    tick_sum: u64,
    tick_list: Vec<u64>,
    update_time: usize,
    draw_time: usize,
    particle_time: usize,
}

impl Stats {
    /// The averaging window, oldest entries overwritten first.
    pub closed spec fn ticks(self) -> Seq<u64> {
        self.tick_list@
    }

    /// The window slot the next frame time lands in.
    pub closed spec fn tick_pos(self) -> int {
        self.tick_index as int
    }

    /// The running sum of the window.
    pub closed spec fn tick_total(self) -> int {
        self.tick_sum as int
    }

    /// Last measured update phase time, in microseconds.
    pub closed spec fn update_micros(self) -> usize {
        self.update_time
    }

    /// Last measured draw phase time, in microseconds.
    pub closed spec fn draw_micros(self) -> usize {
        self.draw_time
    }

    /// Last measured particle phase time, in microseconds.
    pub closed spec fn particle_micros(self) -> usize {
        self.particle_time
    }

    /// The window is full-sized, the cursor is inside it, the running sum
    /// is exact, and every entry once fit in 32 bits — so the sum cannot
    /// overflow.
    pub open spec fn wf(self) -> bool {
        &&& self.ticks().len() == TICK_WINDOW
        &&& 0 <= self.tick_pos() < TICK_WINDOW
        &&& self.tick_total() == sum_of(self.ticks())
        &&& forall|i: int| 0 <= i < self.ticks().len() ==> #[trigger] self.ticks()[i] <= u32::MAX
    }

    /// An empty window and zeroed phase times.
    pub fn new() -> (r: Self)
        ensures
            r.wf(),
            r.tick_pos() == 0,
            r.tick_total() == 0,
            forall|i: int| 0 <= i < TICK_WINDOW ==> #[trigger] r.ticks()[i] == 0,
            r.update_micros() == 0,
            r.draw_micros() == 0,
            r.particle_micros() == 0,
    {
        let mut ticks: Vec<u64> = Vec::new();
        let mut i: usize = 0;
        while i < TICK_WINDOW
            invariant
                i <= TICK_WINDOW,
                ticks@.len() == i,
                forall|j: int| 0 <= j < i ==> #[trigger] ticks@[j] == 0,
                sum_of(ticks@) == 0,
            decreases TICK_WINDOW - i,
        {
            let ghost before = ticks@;
            ticks.push(0);
            proof {
                lemma_sum_push(before, 0);
            }
            i = i + 1;
        }
        Stats {
            tick_index: 0,
            tick_sum: 0,
            tick_list: ticks,
            update_time: 0,
            draw_time: 0,
            particle_time: 0,
        }
    }

    /// Fold one frame's elapsed milliseconds into the window: the oldest
    /// entry leaves the running sum, the new one enters it, and the
    /// cursor advances with wraparound.
    pub fn calculate_frametime(&mut self, dt_millis: u32)
        requires
            old(self).wf(),
        ensures
            final(self).wf(),
            final(self).ticks() == old(self).ticks().update(old(self).tick_pos(), dt_millis as u64),
            final(self).tick_pos() == if old(self).tick_pos() + 1 == TICK_WINDOW {
                0int
            } else {
                old(self).tick_pos() + 1
            },
            final(self).update_micros() == old(self).update_micros(),
            final(self).draw_micros() == old(self).draw_micros(),
            final(self).particle_micros() == old(self).particle_micros(),
    {
        let idx = self.tick_index;
        let outgoing = self.tick_list[idx];
        proof {
            lemma_element_le_sum(self.ticks(), idx as int);
            lemma_sum_bounded(self.ticks(), u32::MAX as int);
        }
        self.tick_sum = self.tick_sum - outgoing;
        self.tick_sum = self.tick_sum + dt_millis as u64;
        self.tick_list.set(idx, dt_millis as u64);
        proof {
            lemma_sum_update(old(self).ticks(), idx as int, dt_millis as u64);
        }
        self.tick_index = self.tick_index + 1;
        if self.tick_index >= TICK_WINDOW {
            self.tick_index = 0;
        }
    }

    /// The running sum of the window, in milliseconds; the average frame
    /// time is this over the window width.
    pub fn get_tick_sum(&self) -> (r: u64)
        ensures
            r == self.tick_total(),
    {
        self.tick_sum
    }

    /// Average frames per second over the window: one second divided by
    /// the average frame time. An all-zero window reads as the largest
    /// representable rate.
    pub fn get_average_fps(&self) -> (r: usize)
        requires
            self.wf(),
        ensures
            sum_of(self.ticks()) == 0 ==> r == usize::MAX,
            sum_of(self.ticks()) > 0 ==> r == 1000 * TICK_WINDOW / sum_of(self.ticks()),
    {
        if self.tick_sum == 0 {
            usize::MAX
        } else {
            proof {
                vstd::arithmetic::div_mod::lemma_div_is_ordered_by_denominator(100000, 1, self.tick_sum as int);
            }
            (100000u64 / self.tick_sum) as usize
        }
    }

    /// Record the measured update phase time, in microseconds.
    pub fn update_time(&mut self, elapsed_micros: usize)
        ensures
            final(self).update_micros() == elapsed_micros,
            final(self).draw_micros() == old(self).draw_micros(),
            final(self).particle_micros() == old(self).particle_micros(),
            final(self).ticks() == old(self).ticks(),
            final(self).tick_pos() == old(self).tick_pos(),
            final(self).tick_total() == old(self).tick_total(),
    {
        self.update_time = elapsed_micros;
    }

    /// Last measured update phase time, in microseconds.
    pub fn get_update_time(&self) -> (r: usize)
        ensures
            r == self.update_micros(),
    {
        self.update_time
    }

    /// Record the measured draw phase time, in microseconds.
    pub fn draw_time(&mut self, elapsed_micros: usize)
        ensures
            final(self).draw_micros() == elapsed_micros,
            final(self).update_micros() == old(self).update_micros(),
            final(self).particle_micros() == old(self).particle_micros(),
            final(self).ticks() == old(self).ticks(),
            final(self).tick_pos() == old(self).tick_pos(),
            final(self).tick_total() == old(self).tick_total(),
    {
        self.draw_time = elapsed_micros;
    }

    /// Last measured draw phase time, in microseconds.
    pub fn get_draw_time(&self) -> (r: usize)
        ensures
            r == self.draw_micros(),
    {
        self.draw_time
    }

    /// Record the measured particle phase time, in microseconds.
    pub fn particle_time(&mut self, elapsed_micros: usize)
        ensures
            final(self).particle_micros() == elapsed_micros,
            final(self).update_micros() == old(self).update_micros(),
            final(self).draw_micros() == old(self).draw_micros(),
            final(self).ticks() == old(self).ticks(),
            final(self).tick_pos() == old(self).tick_pos(),
            final(self).tick_total() == old(self).tick_total(),
    {
        self.particle_time = elapsed_micros;
    }

    /// Last measured particle phase time, in microseconds.
    pub fn get_particle_time(&self) -> (r: usize)
        ensures
            r == self.particle_micros(),
    {
        self.particle_time
    }
}

/// Appending an entry adds it to the sum.
pub proof fn lemma_sum_push(s: Seq<u64>, v: u64)
    ensures
        sum_of(s.push(v)) == sum_of(s) + v,
    decreases s.len(),
{
    assert(sum_of(s.push(v)) == s.push(v)[0] + sum_of(s.push(v).drop_first()));
    if s.len() == 0 {
        assert(s.push(v)[0] == v);
        assert(s.push(v).drop_first() =~= Seq::<u64>::empty());
        assert(sum_of(Seq::<u64>::empty()) == 0);
    } else {
        assert(s.push(v)[0] == s[0]);
        assert(s.push(v).drop_first() =~= s.drop_first().push(v));
        lemma_sum_push(s.drop_first(), v);
    }
}

} // verus!
