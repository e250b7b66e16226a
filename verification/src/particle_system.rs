//! A bounded, ordered collection of particles: spawning with
//! oldest-eviction at the capacity, and a per-frame advance that ticks
//! every member, reports the live pixels in spawn order, and removes the
//! expired members in one index-adjusted batch.

use vstd::prelude::*;
use vstd::assert_seqs_equal;
use crate::clock::current_time_ms;
use crate::particle::{Particle, ParticlePixel, spec_ticked};

verus! {

/// The particles a system owns, in spawn order.
#[derive(Clone, Debug)]
pub struct ParticleContainer {
    pub particles: Vec<Particle>,
}

/// A capacity-bounded particle collection.  Insertion order is kept: it
/// decides which particle an overflow evicts and the order pixels are
/// reported in.
#[derive(Clone, Debug)]
pub struct ParticleSystem {
    pub container: ParticleContainer,
    pub capacity: usize,
}

/// Every particle of `s` after one tick at `now`.
pub open spec fn map_ticked(s: Seq<Particle>, now: int) -> Seq<Particle> {
    s.map_values(|p: Particle| spec_ticked(p, now))
}

/// The particles of `s` that are alive (pixel present), in order.
pub open spec fn alive_only(s: Seq<Particle>) -> Seq<Particle>
    decreases s.len(),
{
    if s.len() == 0 {
        Seq::empty()
    } else {
        let prefix = alive_only(s.drop_last());
        if s.last().current_pixel is Some {
            prefix.push(s.last())
        } else {
            prefix
        }
    }
}

/// The pixels of a sequence of (alive) particles, in order.
pub open spec fn pixels_of(s: Seq<Particle>) -> Seq<ParticlePixel> {
    s.map_values(|p: Particle| p.current_pixel.unwrap())
}

/// The positions in `s` of the expired particles, ascending.
pub open spec fn expired_indices(s: Seq<Particle>) -> Seq<usize>
    decreases s.len(),
{
    if s.len() == 0 {
        Seq::empty()
    } else {
        let prefix = expired_indices(s.drop_last());
        if s.last().current_pixel is None {
            prefix.push((s.len() - 1) as usize)
        } else {
            prefix
        }
    }
}

/// Marks that name strictly ascending positions of a sequence of length
/// `len`.
pub open spec fn ascending_in(marks: Seq<usize>, len: int) -> bool {
    &&& forall|i: int| 0 <= i < marks.len() ==> 0 <= #[trigger] marks[i] < len
    &&& forall|i: int, j: int|
        #![trigger marks[i], marks[j]]
        0 <= i < j < marks.len() ==> marks[i] < marks[j]
}

/// `s` with the marked positions removed, mark by mark in ascending order,
/// each position adjusted for the removals already made before it.
pub open spec fn drop_indices(s: Seq<Particle>, marks: Seq<usize>) -> Seq<Particle>
    decreases marks.len(),
{
    if marks.len() == 0 {
        s
    } else {
        drop_indices(s, marks.drop_last()).remove(marks.last() - (marks.len() - 1))
    }
}

/// Strictly ascending non-negative marks grow at least as fast as their
/// positions.
proof fn lemma_ascending_lower(marks: Seq<usize>, len: int, k: int)
    requires
        ascending_in(marks, len),
        0 <= k < marks.len(),
    ensures
        marks[k] >= k,
    decreases k,
{
    if k > 0 {
        lemma_ascending_lower(marks, len, k - 1);
    }
}

/// Removing one batch of marks shortens a sequence by the number of marks.
proof fn lemma_drop_indices_len(s: Seq<Particle>, marks: Seq<usize>)
    requires
        ascending_in(marks, s.len() as int),
    ensures
        marks.len() <= s.len(),
        drop_indices(s, marks).len() == s.len() - marks.len(),
    decreases marks.len(),
{
    if marks.len() > 0 {
        assert(ascending_in(marks.drop_last(), s.len() as int));
        lemma_drop_indices_len(s, marks.drop_last());
        let ll = marks.len() - 1;
        lemma_ascending_lower(marks, s.len() as int, ll);
        assert(marks[ll] == marks.last());
    }
}

/// Marks that lie within `s` do not touch an element pushed after `s`:
/// removing them commutes with the push.
proof fn lemma_drop_indices_push(s: Seq<Particle>, marks: Seq<usize>, x: Particle)
    requires
        ascending_in(marks, s.len() as int),
    ensures
        drop_indices(s.push(x), marks) == drop_indices(s, marks).push(x),
    decreases marks.len(),
{
    if marks.len() == 0 {
    } else {
        assert(ascending_in(marks.drop_last(), s.len() as int));
        lemma_drop_indices_push(s, marks.drop_last(), x);
        lemma_drop_indices_len(s, marks.drop_last());
        assert(ascending_in(marks, s.push(x).len() as int));
        let q = drop_indices(s, marks.drop_last());
        let pos = marks.last() - (marks.len() - 1);
        lemma_ascending_lower(marks, s.len() as int, marks.len() - 1);
        assert(marks[marks.len() - 1] == marks.last());
        assert(0 <= pos < q.len());
        assert(q.push(x).remove(pos) =~= q.remove(pos).push(x));
        assert(drop_indices(s.push(x), marks) == q.push(x).remove(pos));
    }
}

/// The expired positions of a sequence are valid ascending marks for it.
proof fn lemma_expired_indices_valid(s: Seq<Particle>)
    requires
        s.len() <= usize::MAX,
    ensures
        ascending_in(expired_indices(s), s.len() as int),
    decreases s.len(),
{
    if s.len() > 0 {
        lemma_expired_indices_valid(s.drop_last());
        let pre = expired_indices(s.drop_last());
        if s.last().current_pixel is None {
            let e = expired_indices(s);
            assert(e == pre.push((s.len() - 1) as usize));
            assert forall|i: int| 0 <= i < e.len() implies 0 <= #[trigger] e[i] < s.len() by {
                if i < pre.len() {
                    assert(e[i] == pre[i]);
                } else {
                    assert(e[i] == (s.len() - 1) as usize);
                }
            }
            assert forall|i: int, j: int|
                #![trigger e[i], e[j]]
                0 <= i < j < e.len() implies e[i] < e[j] by {
                if j < pre.len() {
                    assert(e[i] == pre[i] && e[j] == pre[j]);
                } else {
                    assert(e[j] == (s.len() - 1) as usize);
                    assert(e[i] == pre[i]);
                    assert(pre[i] < s.len() - 1);
                }
            }
        }
    }
}

/// Batch-removing exactly the expired positions of a sequence keeps
/// exactly its alive particles, in their original relative order.
proof fn lemma_drop_expired_is_alive(s: Seq<Particle>)
    requires
        s.len() <= usize::MAX,
    ensures
        drop_indices(s, expired_indices(s)) == alive_only(s),
    decreases s.len(),
{
    if s.len() == 0 {
    } else {
        let st = s.drop_last();
        let x = s.last();
        lemma_drop_expired_is_alive(st);
        lemma_expired_indices_valid(st);
        assert(st.push(x) =~= s);
        if x.current_pixel is Some {
            assert(expired_indices(s) == expired_indices(st));
            lemma_drop_indices_push(st, expired_indices(st), x);
            assert(drop_indices(s, expired_indices(s)) == alive_only(st).push(x));
        } else {
            let marks = expired_indices(s);
            assert(marks == expired_indices(st).push((s.len() - 1) as usize));
            assert(marks.drop_last() =~= expired_indices(st));
            lemma_drop_indices_push(st, expired_indices(st), x);
            lemma_drop_indices_len(st, expired_indices(st));
            let q = drop_indices(st, expired_indices(st));
            let pos = marks.last() - (marks.len() - 1);
            assert(pos == q.len());
            assert(drop_indices(s, marks) == q.push(x).remove(pos));
            assert(q.push(x).remove(pos) =~= q);
            assert(alive_only(s) == alive_only(st));
        }
    }
}

/// A pass that only filters cannot grow the collection: the survivors are
/// never more than the members ticked.
pub proof fn lemma_alive_only_len(s: Seq<Particle>)
    ensures
        alive_only(s).len() <= s.len(),
    decreases s.len(),
{
    if s.len() > 0 {
        lemma_alive_only_len(s.drop_last());
    }
}

/// One full advance at `now`: the collection becomes the ticked particles
/// that stayed alive, and `drawn` holds exactly their pixels, in order.
pub open spec fn advanced_at(
    before: Seq<Particle>,
    after: Seq<Particle>,
    drawn: Seq<ParticlePixel>,
    now: int,
) -> bool {
    &&& after == alive_only(map_ticked(before, now))
    &&& drawn == pixels_of(alive_only(map_ticked(before, now)))
}

impl Default for ParticleSystem {
    /// An empty system with the default capacity of 2000 particles.
    fn default() -> (r: Self)
        ensures
            r.capacity == 2000,
            r.container.particles@ == Seq::<Particle>::empty(),
            r.wf(),
    {
        ParticleSystem { container: ParticleContainer { particles: Vec::new() }, capacity: 2000 }
    }
}

impl ParticleSystem {
    /// The system never holds more particles than its capacity.
    pub open spec fn wf(self) -> bool {
        &&& self.capacity >= 1
        &&& self.container.particles@.len() <= self.capacity
    }

    /// An empty system with the given capacity.
    pub fn with_capacity(capacity: usize) -> (r: Self)
        requires
            capacity >= 1,
        ensures
            r.capacity == capacity,
            r.container.particles@ == Seq::<Particle>::empty(),
            r.wf(),
    {
        ParticleSystem { container: ParticleContainer { particles: Vec::new() }, capacity }
    }

    /// Append a particle; at the capacity, the oldest member is evicted
    /// first, silently.
    pub fn add_particle(&mut self, particle: Particle)
        requires
            old(self).wf(),
        ensures
            final(self).capacity == old(self).capacity,
            final(self).wf(),
            old(self).container.particles@.len() < old(self).capacity ==> final(self).container.particles@
                == old(self).container.particles@.push(particle),
            old(self).container.particles@.len() >= old(self).capacity ==> final(self).container.particles@
                == old(self).container.particles@.drop_first().push(particle),
    {
        if self.container.particles.len() >= self.capacity {
            self.container.particles.remove(0);
            proof {
                assert(self.container.particles@
                    =~= old(self).container.particles@.drop_first());
            }
        }
        self.container.particles.push(particle);
    }

    /// Remove the marked positions, ascending, adjusting each position for
    /// the removals already made before it.
    pub fn remove_particles(container: &mut ParticleContainer, indices: &Vec<usize>)
        requires
            ascending_in(indices@, old(container).particles@.len() as int),
        ensures
            final(container).particles@ == drop_indices(old(container).particles@, indices@),
    {
        proof {
            assert(indices@.subrange(0, 0).len() == 0);
        }
        let mut k: usize = 0;
        while k < indices.len()
            invariant
                k <= indices@.len(),
                ascending_in(indices@, old(container).particles@.len() as int),
                container.particles@ == drop_indices(
                    old(container).particles@,
                    indices@.subrange(0, k as int),
                ),
                container.particles@.len() == old(container).particles@.len() - k,
            decreases indices@.len() - k,
        {
            proof {
                lemma_ascending_lower(indices@, old(container).particles@.len() as int, k as int);
                assert(indices@.subrange(0, k as int + 1).drop_last()
                    =~= indices@.subrange(0, k as int));
                assert(indices@.subrange(0, k as int + 1).last() == indices@[k as int]);
            }
            let at = indices[k] - k;
            container.particles.remove(at);
            k = k + 1;
        }
        proof {
            assert(indices@.subrange(0, indices@.len() as int) =~= indices@);
        }
    }

    /// Tick every particle in spawn order at `now`; report the pixels of
    /// those that stayed alive, in that same order, and remove the rest in
    /// one batch.  Nothing is ever added here, and nothing expired is ever
    /// drawn.
    pub fn advance(&mut self, now: u64) -> (r: Vec<ParticlePixel>)
        ensures
            final(self).capacity == old(self).capacity,
            advanced_at(
                old(self).container.particles@,
                final(self).container.particles@,
                r@,
                now as int,
            ),
            final(self).container.particles@.len() <= old(self).container.particles@.len(),
            old(self).wf() ==> final(self).wf(),
    {
        let ghost before: Seq<Particle> = self.container.particles@;
        let n: usize = self.container.particles.len();
        let mut ticked: Vec<Particle> = Vec::new();
        let mut drawn: Vec<ParticlePixel> = Vec::new();
        let mut remove: Vec<usize> = Vec::new();
        let mut i: usize = 0;
        proof {
            assert(before.subrange(0, 0).len() == 0);
            assert(map_ticked(before.subrange(0, 0), now as int) =~= ticked@);
            assert(alive_only(ticked@) =~= ticked@);
            assert(pixels_of(ticked@) =~= drawn@);
        }
        while i < n
            invariant
                i <= n,
                n == self.container.particles@.len(),
                self.container.particles@ == before,
                self.capacity == old(self).capacity,
                ticked@ == map_ticked(before.subrange(0, i as int), now as int),
                drawn@ == pixels_of(alive_only(ticked@)),
                remove@ == expired_indices(ticked@),
            decreases n - i,
        {
            let mut p: Particle = self.container.particles[i];
            let px = p.tick(now);
            let ghost ticked_before: Seq<Particle> = ticked@;
            ticked.push(p);
            proof {
                assert(before.subrange(0, i as int + 1).drop_last()
                    =~= before.subrange(0, i as int));
                assert(before.subrange(0, i as int + 1).last() == before[i as int]);
                assert(map_ticked(before.subrange(0, i as int + 1), now as int)
                    =~= ticked_before.push(spec_ticked(before[i as int], now as int)));
                assert(ticked@.drop_last() =~= ticked_before);
            }
            match px {
                Some(pixel) => {
                    drawn.push(pixel);
                    proof {
                        assert(alive_only(ticked@) =~= alive_only(ticked_before).push(p));
                        assert(pixels_of(alive_only(ticked@))
                            =~= pixels_of(alive_only(ticked_before)).push(
                            p.current_pixel.unwrap()));
                    }
                },
                None => {
                    remove.push(i);
                    proof {
                        assert(alive_only(ticked@) =~= alive_only(ticked_before));
                        assert(expired_indices(ticked@)
                            =~= expired_indices(ticked_before).push((ticked@.len() - 1) as usize));
                    }
                },
            }
            i = i + 1;
        }
        proof {
            assert(before.subrange(0, n as int) =~= before);
            lemma_expired_indices_valid(ticked@);
        }
        self.container.particles = ticked;
        Self::remove_particles(&mut self.container, &remove);
        proof {
            lemma_drop_expired_is_alive(map_ticked(before, now as int));
            lemma_alive_only_len(map_ticked(before, now as int));
        }
        drawn
    }

    /// One frame by the wall clock: advance every particle at the current
    /// time and report the live pixels.
    pub fn tick(&mut self) -> (r: Vec<ParticlePixel>)
        ensures
            final(self).capacity == old(self).capacity,
            final(self).container.particles@.len() <= old(self).container.particles@.len(),
            old(self).wf() ==> final(self).wf(),
            exists|now: u64| #[trigger] advanced_at(
                old(self).container.particles@,
                final(self).container.particles@,
                r@,
                now as int,
            ),
    {
        let now = current_time_ms();
        let r = self.advance(now);
        proof {
            assert(advanced_at(
                old(self).container.particles@,
                final(self).container.particles@,
                r@,
                now as int,
            ));
        }
        r
    }
}

} // verus!

