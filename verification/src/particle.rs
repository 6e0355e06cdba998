use vstd::prelude::*;

use crate::packed::PackedVector;

verus! {

/// One pool slot. Position, velocity, colors, rotation, and sizes are
/// carried as 32-bit encodings for the rendering layer; lifetimes are
/// microseconds, which the pool's own lifecycle decisions are made over.
#[derive(Clone, Copy, PartialEq, Debug)]
pub struct Particle {
    pub pos: PackedVector,
    pub velocity: PackedVector,
    pub color_begin: PackedVector,
    pub color_end: PackedVector,
    pub rotation: u32,
    pub size_begin: u32,
    pub size_end: u32,
    pub lifetime: u64,
    pub life_remaining: u64,
    pub active: bool,
    pub tex_id: Option<u32>,
}

/// The idle slot value every pool starts from.
pub open spec fn default_particle() -> Particle {
    Particle {
        pos: PackedVector { x: 0, y: 0, z: 0, w: 0 },
        velocity: PackedVector { x: 0, y: 0, z: 0, w: 0 },
        color_begin: PackedVector { x: 0, y: 0, z: 0, w: 0 },
        color_end: PackedVector { x: 0, y: 0, z: 0, w: 0 },
        rotation: 0,
        size_begin: 0,
        size_end: 0,
        lifetime: 0,
        life_remaining: 0,
        active: false,
        tex_id: None,
    }
}

impl Default for Particle {
    /// An inactive slot with every field zeroed.
    fn default() -> (r: Self)
        ensures
            r == default_particle(),
    {
        Particle {
            pos: PackedVector::zeroed(),
            velocity: PackedVector::zeroed(),
            color_begin: PackedVector::zeroed(),
            color_end: PackedVector::zeroed(),
            rotation: 0,
            size_begin: 0,
            size_end: 0,
            lifetime: 0,
            life_remaining: 0,
            active: false,
            tex_id: None,
        }
    }
}

/// The slot an emission lands in: written from the template, activated,
/// with its clock wound up to the full lifetime.
pub open spec fn emitted_particle(template: Particle) -> Particle {
    Particle { active: true, life_remaining: template.lifetime, ..template }
}

/// One update step of a single slot: an inactive slot is untouched; an
/// active slot loses `dt` microseconds of its clock, and is deactivated
/// in this same step when that consumes the clock.
pub open spec fn step_particle(p: Particle, dt: u64) -> Particle {
    if !p.active {
        p
    } else if p.life_remaining <= dt {
        Particle { active: false, life_remaining: 0, ..p }
    } else {
        Particle { life_remaining: (p.life_remaining - dt) as u64, ..p }
    }
}

/// The slot the ring cursor moves to after an emission: one step down,
/// wrapping to the top.
pub open spec fn prev_index(cursor: int, len: int) -> int {
    if cursor == 0 {
        len - 1
    } else {
        cursor - 1
    }
}

/// The ring cursor after `k` emissions starting from `cursor`.
pub open spec fn cursor_after_emits(cursor: int, len: int, k: nat) -> int
    decreases k,
{
    if k == 0 {
        cursor
    } else {
        prev_index(cursor_after_emits(cursor, len, (k - 1) as nat), len)
    }
}

/// Fixed-capacity recyclable particle store. Slots are created once at
/// construction and reused forever; the write cursor decrements with
/// wraparound, so an emission always overwrites the least-recently-written
/// slot, whether or not that slot is still active.
pub struct ParticleSystem {
    particle_pool: Vec<Particle>,
    pool_index: usize,
    /// Aggregate liveness flag; cleared only by an update pass that finds
    /// no active slot, so it lags true emptiness by one frame.
    pub active: bool,
}

impl ParticleSystem {
    /// The pool's slots, oldest emission policy aside, in storage order.
    pub closed spec fn particles(self) -> Seq<Particle> {
        self.particle_pool@
    }

    /// The slot the next emission will overwrite.
    pub closed spec fn cursor(self) -> int {
        self.pool_index as int
    }

    /// The aggregate liveness flag as the frame coordinator reads it.
    pub closed spec fn pool_active(self) -> bool {
        self.active
    }

    /// A usable pool holds at least one slot and its cursor indexes one.
    pub open spec fn wf(self) -> bool {
        &&& 1 <= self.particles().len()
        &&& 0 <= self.cursor() < self.particles().len()
    }

    /// Build a pool of `pool_size` idle slots, the cursor on the last.
    /// A zero-capacity pool is rejected here rather than left to fail at
    /// the first emission.
    pub fn new(pool_size: usize) -> (r: Self)
        requires
            pool_size >= 1,
        ensures
            r.wf(),
            r.particles().len() == pool_size,
            r.cursor() == pool_size - 1,
            !r.pool_active(),
            forall|i: int| 0 <= i < pool_size ==> r.particles()[i] == default_particle(),
    {
        let mut pool: Vec<Particle> = Vec::new();
        let mut i: usize = 0;
        while i < pool_size
            invariant
                i <= pool_size,
                pool@.len() == i,
                forall|j: int| 0 <= j < i ==> pool@[j] == default_particle(),
            decreases pool_size - i,
        {
            pool.push(Particle::default());
            i = i + 1;
        }
        ParticleSystem { particle_pool: pool, pool_index: pool_size - 1, active: false }
    }

    /// Number of slots; fixed for the pool's lifetime.
    pub fn len(&self) -> (r: usize)
        ensures
            r == self.particles().len(),
    {
        self.particle_pool.len()
    }

    /// Read one slot.
    pub fn particle(&self, index: usize) -> (p: Particle)
        requires
            index < self.particles().len(),
        ensures
            p == self.particles()[index as int],
    {
        self.particle_pool[index]
    }

    /// Overwrite the slot under the cursor with the template — whether or
    /// not that slot is still active — activate it with a full clock, and
    /// step the cursor down with wraparound. Jitter is already resolved
    /// into the template by the emitting layer, which draws it from the
    /// shared random engine.
    pub fn emit(&mut self, properties: Particle)
        requires
            old(self).wf(),
        ensures
            final(self).wf(),
            final(self).pool_active(),
            final(self).particles() == old(self).particles().update(
                old(self).cursor(),
                emitted_particle(properties),
            ),
            final(self).cursor() == prev_index(old(self).cursor(), old(self).particles().len() as int),
    {
        self.active = true;
        let slot = self.pool_index;
        let written = Particle {
            active: true,
            life_remaining: properties.lifetime,
            ..properties
        };
        self.particle_pool.set(slot, written);
        if self.pool_index == 0 {
            self.pool_index = self.particle_pool.len() - 1;
        } else {
            self.pool_index = self.pool_index - 1;
        }
    }

    /// One lifecycle pass: each slot takes one `step_particle` step, and
    /// the aggregate flag falls only when no slot was active at the start
    /// of the pass — one frame after the pool truly empties.
    pub fn update(&mut self, dt_micros: u64)
        requires
            old(self).wf(),
        ensures
            final(self).wf(),
            final(self).particles().len() == old(self).particles().len(),
            final(self).cursor() == old(self).cursor(),
            forall|i: int|
                0 <= i < old(self).particles().len() ==> final(self).particles()[i]
                    == step_particle(#[trigger] old(self).particles()[i], dt_micros),
            final(self).pool_active() == (old(self).pool_active() && exists|i: int|
                0 <= i < old(self).particles().len() && (#[trigger] old(
                    self,
                ).particles()[i]).active),
    {
        let mut inactive = true;
        let mut i: usize = 0;
        let len = self.particle_pool.len();
        while i < len
            invariant
                i <= len,
                len == self.particle_pool@.len(),
                self.pool_index == old(self).pool_index,
                self.active == old(self).active,
                len == old(self).particles().len(),
                forall|j: int|
                    i <= j < len ==> self.particle_pool@[j] == old(self).particles()[j],
                forall|j: int|
                    0 <= j < i ==> self.particle_pool@[j] == step_particle(
                        #[trigger] old(self).particles()[j],
                        dt_micros,
                    ),
                inactive == !(exists|j: int|
                    0 <= j < i && (#[trigger] old(self).particles()[j]).active),
            decreases len - i,
        {
            let p = self.particle_pool[i];
            if p.active {
                inactive = false;
                proof {
                    assert((old(self).particles()[i as int]).active);
                }
                if p.life_remaining <= dt_micros {
                    self.particle_pool.set(
                        i,
                        Particle { active: false, life_remaining: 0, ..p },
                    );
                } else {
                    self.particle_pool.set(
                        i,
                        Particle { life_remaining: p.life_remaining - dt_micros, ..p },
                    );
                }
            }
            i = i + 1;
        }
        if inactive {
            self.active = false;
        }
    }

    /// Let the rendering layer write back the integrated position and
    /// rotation of one slot; nothing else about the slot changes.
    pub fn set_kinematics(&mut self, index: usize, pos: PackedVector, rotation: u32)
        requires
            index < old(self).particles().len(),
        ensures
            final(self).cursor() == old(self).cursor(),
            final(self).pool_active() == old(self).pool_active(),
            final(self).particles() == old(self).particles().update(
                index as int,
                Particle { pos, rotation, ..old(self).particles()[index as int] },
            ),
    {
        let p = self.particle_pool[index];
        self.particle_pool.set(index, Particle { pos, rotation, ..p });
    }
}

/// The ring cursor lands `k` slots below where it started, modulo the
/// pool size.
pub proof fn lemma_cursor_after_emits(cursor: int, len: int, k: nat)
    requires
        1 <= len,
        0 <= cursor < len,
    ensures
        cursor_after_emits(cursor, len, k) == (cursor - k) % len,
    decreases k,
{
    if k == 0 {
        vstd::arithmetic::div_mod::lemma_small_mod(cursor as nat, len as nat);
    } else {
        lemma_cursor_after_emits(cursor, len, (k - 1) as nat);
        let prev = (cursor - (k - 1)) % len;
        assert(0 <= prev < len) by {
            vstd::arithmetic::div_mod::lemma_mod_bound(cursor - (k - 1), len);
        }
        vstd::arithmetic::div_mod::lemma_fundamental_div_mod(cursor - (k - 1), len);
        let q = (cursor - (k - 1)) / len;
        vstd::arithmetic::mul::lemma_mul_is_commutative(len, q);
        vstd::arithmetic::mul::lemma_mul_is_commutative(len, q - 1);
        if prev == 0 {
            assert(cursor - k == (q - 1) * len + (len - 1)) by {
                vstd::arithmetic::mul::lemma_mul_is_distributive_sub_other_way(len, q, 1);
            }
            vstd::arithmetic::div_mod::lemma_fundamental_div_mod_converse(
                cursor - k,
                len,
                q - 1,
                len - 1,
            );
        } else {
            vstd::arithmetic::div_mod::lemma_fundamental_div_mod_converse(
                cursor - k,
                len,
                q,
                prev - 1,
            );
        }
    }
}

/// After exactly `len` emissions the cursor is back on the slot the first
/// of them overwrote: the `(len + 1)`-th emission recycles the slot of
/// the first.
pub proof fn lemma_ring_wraps_to_first_slot(cursor: int, len: int)
    requires
        1 <= len,
        0 <= cursor < len,
    ensures
        cursor_after_emits(cursor, len, len as nat) == cursor,
{
    lemma_cursor_after_emits(cursor, len, len as nat);
    vstd::arithmetic::div_mod::lemma_mod_sub_multiples_vanish(cursor, len);
    vstd::arithmetic::div_mod::lemma_small_mod(cursor as nat, len as nat);
}

/// An inactive slot is a no-op for every later update until re-emitted.
pub proof fn lemma_inactive_slot_is_untouched(p: Particle, dt: u64)
    requires
        !p.active,
    ensures
        step_particle(p, dt) == p,
{
}

/// An update pass consuming at least the slot's whole remaining life
/// deactivates it in that same pass — exactly once: every later pass
/// leaves the slot untouched until it is re-emitted.
pub proof fn lemma_spent_slot_deactivates_once(p: Particle, dt1: u64, dt2: u64)
    requires
        p.active,
        p.life_remaining <= dt1,
    ensures
        !step_particle(p, dt1).active,
        step_particle(p, dt1).life_remaining == 0,
        step_particle(step_particle(p, dt1), dt2) == step_particle(p, dt1),
{
}

} // verus!
