use vstd::prelude::*;

use crate::audio32::WAVEFORMATEXTENSIBLE;

verus! {

/// A decoded audio buffer: raw PCM bytes, their length, and the format
/// the decoder read from the file header.
pub struct AudioDataVec {
    pub data: Vec<u8>,
    pub size: u32,
    pub format: WAVEFORMATEXTENSIBLE,
}

/// The two playback disciplines a source voice can serve.
#[derive(PartialEq, Eq, Structural)]
pub enum VoiceType {
    OneShot,
    Loop,
}

/// Whether a buffer named `name` has been registered.
pub open spec fn has_key(keys: Seq<String>, name: Seq<char>) -> bool {
    exists|i: int| 0 <= i < keys.len() && #[trigger] keys[i]@ == name
}

/// The one-shot voice a call finds under the cursor: the cursor itself,
/// or the first voice once the cursor has walked off the end.
pub open spec fn one_shot_target(cursor: int, count: int) -> int {
    if cursor >= count {
        0
    } else {
        cursor
    }
}

/// The cursor after `k` one-shot triggers starting from `cursor`: each
/// trigger plays the target voice and leaves the cursor just past it.
pub open spec fn cursor_after_shots(cursor: int, count: int, k: nat) -> int
    decreases k,
{
    if k == 0 {
        cursor
    } else {
        one_shot_target(cursor_after_shots(cursor, count, (k - 1) as nat), count) + 1
    }
}

/// The voice played by the `k`-th trigger (counted from zero) starting
/// from `cursor`.
pub open spec fn shot_target_at(cursor: int, count: int, k: nat) -> int {
    one_shot_target(cursor_after_shots(cursor, count, k), count)
}

/// Round-robin pools of playback voices: a fixed set of anonymous
/// one-shot voices reused in cursor order, and a fixed set of loop voices
/// addressed by caller-supplied channel number. The voices themselves are
/// hardware-backed and owned by the audio backend; this component owns
/// every admission decision about them.
pub struct Audio {
    one_shots: u8,
    loops: u8,
    current_one_shot: u8,
    audio_data: Vec<String>,
}

impl Audio {
    /// Number of one-shot voices.
    pub closed spec fn one_shot_count(self) -> int {
        self.one_shots as int
    }

    /// Number of loop voices.
    pub closed spec fn loop_count(self) -> int {
        self.loops as int
    }

    /// The round-robin cursor over the one-shot voices.
    pub closed spec fn cursor(self) -> int {
        self.current_one_shot as int
    }

    /// Names of the registered audio buffers.
    pub closed spec fn buffers(self) -> Seq<String> {
        self.audio_data@
    }

    /// The cursor never walks more than one step past the last voice.
    pub open spec fn wf(self) -> bool {
        &&& 1 <= self.one_shot_count()
        &&& 0 <= self.cursor() <= self.one_shot_count()
    }

    /// Pools of the given fixed sizes, created once at startup. A pool
    /// with no one-shot voice is rejected here: triggering on an empty
    /// pool has no voice to recycle.
    pub fn new(one_shot_voices: u8, loop_voices: u8) -> (r: Self)
        requires
            one_shot_voices >= 1,
        ensures
            r.wf(),
            r.one_shot_count() == one_shot_voices,
            r.loop_count() == loop_voices,
            r.cursor() == 0,
            r.buffers() == Seq::<String>::empty(),
    {
        let r = Audio {
            one_shots: one_shot_voices,
            loops: loop_voices,
            current_one_shot: 0,
            audio_data: Vec::new(),
        };
        proof {
            assert(r.buffers() =~= Seq::<String>::empty());
        }
        r
    }

    /// Record that the backend decoded and keyed a buffer under `key`;
    /// registering a name twice leaves the registry as it was.
    pub fn register_buffer(&mut self, key: &str)
        ensures
            final(self).one_shot_count() == old(self).one_shot_count(),
            final(self).loop_count() == old(self).loop_count(),
            final(self).cursor() == old(self).cursor(),
            final(self).wf() == old(self).wf(),
            forall|n: Seq<char>|
                #[trigger] has_key(final(self).buffers(), n) == (has_key(old(self).buffers(), n)
                    || n == key@),
    {
        if !self.has_buffer(key) {
            self.audio_data.push(key.to_owned());
            proof {
                assert forall|n: Seq<char>|
                    #[trigger] has_key(self.buffers(), n) == (has_key(old(self).buffers(), n) || n
                        == key@) by {
                    let keys = self.buffers();
                    let last = keys.len() - 1;
                    if has_key(old(self).buffers(), n) {
                        let i = choose|i: int|
                            0 <= i < old(self).buffers().len() && #[trigger] old(
                                self,
                            ).buffers()[i]@ == n;
                        assert(keys[i]@ == n);
                    }
                    if n == key@ {
                        assert(keys[last]@ == n);
                    }
                    if has_key(keys, n) {
                        let i = choose|i: int| 0 <= i < keys.len() && #[trigger] keys[i]@ == n;
                        if i < last {
                            assert(old(self).buffers()[i]@ == n);
                        }
                    }
                }
            }
        }
    }

    /// Whether a buffer named `key` is registered.
    pub fn has_buffer(&self, key: &str) -> (r: bool)
        ensures
            r == has_key(self.buffers(), key@),
    {
        let owned = key.to_owned();
        let mut i: usize = 0;
        let len = self.audio_data.len();
        while i < len
            invariant
                i <= len,
                len == self.audio_data@.len(),
                owned@ == key@,
                forall|j: int| 0 <= j < i ==> #[trigger] self.audio_data@[j]@ != key@,
            decreases len - i,
        {
            if self.audio_data[i] == owned {
                return true;
            }
            i = i + 1;
        }
        false
    }

    /// Pick the voice for a one-shot trigger of the buffer named `audio`:
    /// the voice under the round-robin cursor, wrapping first if the
    /// cursor has walked past the pool. The backend must stop, flush, and
    /// restart that voice with the buffer — interrupting whatever it was
    /// playing. An unregistered name changes nothing and plays nothing.
    pub fn one_shot(&mut self, audio: &str) -> (voice: Option<u8>)
        requires
            old(self).wf(),
        ensures
            final(self).wf(),
            final(self).one_shot_count() == old(self).one_shot_count(),
            final(self).loop_count() == old(self).loop_count(),
            final(self).buffers() == old(self).buffers(),
            !has_key(old(self).buffers(), audio@) ==> voice is None && final(self).cursor() == old(
                self,
            ).cursor(),
            has_key(old(self).buffers(), audio@) ==> {
                &&& voice == Some(
                    one_shot_target(old(self).cursor(), old(self).one_shot_count()) as u8,
                )
                &&& final(self).cursor() == one_shot_target(
                    old(self).cursor(),
                    old(self).one_shot_count(),
                ) + 1
            },
    {
        if !self.has_buffer(audio) {
            return None;
        }
        if self.current_one_shot >= self.one_shots {
            self.current_one_shot = 0;
        }
        let voice = self.current_one_shot;
        self.current_one_shot = self.current_one_shot + 1;
        Some(voice)
    }

    /// Decide a loop submission: true exactly when the channel exists and
    /// the buffer is registered, in which case the backend must stop,
    /// flush, and restart that channel's voice with the buffer flagged to
    /// loop indefinitely. Out-of-range channels and unknown names are
    /// no-ops.
    pub fn submit_loop(&mut self, audio: &str, channel: u8) -> (ok: bool)
        ensures
            *final(self) == *old(self),
            ok == (channel < old(self).loop_count() && has_key(old(self).buffers(), audio@)),
    {
        if channel >= self.loops {
            return false;
        }
        self.has_buffer(audio)
    }

    /// Decide a loop stop: true exactly when the channel exists, in which
    /// case the backend must stop and flush that channel's voice.
    pub fn stop_loop(&mut self, channel: u8) -> (ok: bool)
        ensures
            *final(self) == *old(self),
            ok == (channel < old(self).loop_count()),
    {
        channel < self.loops
    }

    /// Number of one-shot voices, for the backend's bookkeeping.
    pub fn one_shot_voices(&self) -> (r: u8)
        ensures
            r == self.one_shot_count(),
    {
        self.one_shots
    }

    /// Number of loop voices, for the backend's bookkeeping.
    pub fn loop_voices(&self) -> (r: u8)
        ensures
            r == self.loop_count(),
    {
        self.loops
    }
}

/// From the second trigger on, the played voices walk the pool in cursor
/// order: each trigger plays the voice after the previous one, modulo the
/// pool size.
pub proof fn lemma_shot_targets_walk_the_pool(cursor: int, count: int, k: nat)
    requires
        1 <= count,
        0 <= cursor <= count,
    ensures
        shot_target_at(cursor, count, k) == (one_shot_target(cursor, count) + k) % count,
    decreases k,
{
    if k == 0 {
        vstd::arithmetic::div_mod::lemma_small_mod(
            one_shot_target(cursor, count) as nat,
            count as nat,
        );
    } else {
        lemma_shot_targets_walk_the_pool(cursor, count, (k - 1) as nat);
        let t0 = one_shot_target(cursor, count);
        let prev = (t0 + (k - 1)) % count;
        assert(0 <= prev < count) by {
            vstd::arithmetic::div_mod::lemma_mod_bound(t0 + (k - 1), count);
        }
        vstd::arithmetic::div_mod::lemma_fundamental_div_mod(t0 + (k - 1), count);
        let q = (t0 + (k - 1)) / count;
        vstd::arithmetic::mul::lemma_mul_is_commutative(count, q);
        vstd::arithmetic::mul::lemma_mul_is_distributive_add(count, q, 1);
        vstd::arithmetic::mul::lemma_mul_is_commutative(count, q + 1);
        if prev == count - 1 {
            vstd::arithmetic::div_mod::lemma_fundamental_div_mod_converse(
                t0 + k,
                count,
                q + 1,
                0,
            );
        } else {
            vstd::arithmetic::div_mod::lemma_fundamental_div_mod_converse(
                t0 + k,
                count,
                q,
                prev + 1,
            );
        }
    }
}

/// Round-robin wrap: after as many triggers as there are one-shot
/// voices, the next trigger reuses the voice the first one played.
pub proof fn lemma_one_shot_wraps_to_first_voice(cursor: int, count: int)
    requires
        1 <= count,
        0 <= cursor <= count,
    ensures
        shot_target_at(cursor, count, count as nat) == shot_target_at(cursor, count, 0),
{
    lemma_shot_targets_walk_the_pool(cursor, count, count as nat);
    lemma_shot_targets_walk_the_pool(cursor, count, 0);
    let t0 = one_shot_target(cursor, count);
    vstd::arithmetic::div_mod::lemma_mod_add_multiples_vanish(t0, count);
}

} // verus!
