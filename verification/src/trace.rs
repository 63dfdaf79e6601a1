//! The orbit trace buffer.
//!
//! A perpetual orbit keeps the recent history of its positions so the host
//! can draw it as a ribbon. The buffer is a bounded FIFO: it grows until it
//! holds `max_points` positions and from then on drops the oldest position
//! for every new one.

use crate::vec3::Vec3Fx;
use vstd::prelude::*;

verus! {

/// One insertion: append the position, and drop the oldest if the buffer
/// has outgrown its capacity.
pub open spec fn trace_push_spec(s: Seq<Vec3Fx>, p: Vec3Fx, cap: nat) -> Seq<Vec3Fx> {
    let grown = s.push(p);
    if grown.len() > cap {
        grown.drop_first()
    } else {
        grown
    }
}

/// A whole run of insertions, oldest first.
pub open spec fn trace_push_all_spec(s: Seq<Vec3Fx>, ps: Seq<Vec3Fx>, cap: nat) -> Seq<Vec3Fx>
    decreases ps.len(),
{
    if ps.len() == 0 {
        s
    } else {
        trace_push_all_spec(trace_push_spec(s, ps[0], cap), ps.drop_first(), cap)
    }
}

/// A bounded FIFO of recent positions.
pub struct TraceBuffer {
    points: Vec<Vec3Fx>,
    max_points: usize,
}

impl TraceBuffer {
    /// The stored positions, oldest first.
    pub closed spec fn contents(self) -> Seq<Vec3Fx> {
        self.points@
    }

    /// The capacity the buffer was created with.
    pub closed spec fn cap(self) -> nat {
        self.max_points as nat
    }

    /// The buffer never holds more than its capacity.
    pub open spec fn wf(self) -> bool {
        self.contents().len() <= self.cap()
    }

    /// Creates an empty buffer with the given capacity.
    pub fn new(max_points: usize) -> (b: TraceBuffer)
        ensures
            b.wf(),
            b.cap() == max_points as nat,
            b.contents() == Seq::<Vec3Fx>::empty(),
    {
        TraceBuffer { points: Vec::new(), max_points }
    }

    /// Appends a position, dropping the oldest one if the buffer is full.
    pub fn push(&mut self, p: Vec3Fx)
        requires
            old(self).wf(),
        ensures
            final(self).wf(),
            final(self).cap() == old(self).cap(),
            final(self).contents() == trace_push_spec(old(self).contents(), p, old(self).cap()),
    {
        self.points.push(p);
        if self.points.len() > self.max_points {
            self.points.remove(0);
            proof {
                assert(self.points@ =~= trace_push_spec(
                    old(self).contents(),
                    p,
                    old(self).cap(),
                ));
            }
        }
    }

    /// Empties the buffer; the capacity stays.
    pub fn clear(&mut self)
        ensures
            final(self).wf(),
            final(self).cap() == old(self).cap(),
            final(self).contents() == Seq::<Vec3Fx>::empty(),
    {
        self.points.clear();
    }

    /// How many positions are stored.
    pub fn len(&self) -> (n: usize)
        ensures
            n == self.contents().len(),
    {
        self.points.len()
    }

    /// The capacity the buffer was created with.
    pub fn capacity(&self) -> (n: usize)
        ensures
            n == self.cap(),
    {
        self.max_points
    }

    /// The stored position at `i`, oldest first.
    pub fn point(&self, i: usize) -> (p: Vec3Fx)
        requires
            i < self.contents().len(),
        ensures
            p == self.contents()[i as int],
    {
        self.points[i]
    }
}

/// After any run of insertions, a buffer that started within capacity holds
/// the last `min(cap, started + inserted)` of the concatenated history.
pub proof fn lemma_trace_push_all_suffix(s: Seq<Vec3Fx>, ps: Seq<Vec3Fx>, cap: nat)
    requires
        s.len() <= cap,
    ensures
        ({
            let total = s + ps;
            let m = if cap < total.len() {
                cap as int
            } else {
                total.len() as int
            };
            trace_push_all_spec(s, ps, cap) =~= total.skip(total.len() - m)
        }),
    decreases ps.len(),
{
    let total = s + ps;
    let m = if cap < total.len() {
        cap as int
    } else {
        total.len() as int
    };
    if ps.len() == 0 {
        assert(total =~= s);
        assert(total.skip(total.len() - m) =~= s);
    } else {
        let p0 = ps[0];
        let rest = ps.drop_first();
        let s1 = trace_push_spec(s, p0, cap);
        let grown = s.push(p0);
        // How much the first insertion trimmed: zero or one position.
        let d0 = grown.len() - s1.len();
        assert(s1.len() <= cap);
        assert(forall|j: int| 0 <= j < s1.len() ==> s1[j] == grown[j + d0]);
        lemma_trace_push_all_suffix(s1, rest, cap);
        let total1 = s1 + rest;
        let m1 = if cap < total1.len() {
            cap as int
        } else {
            total1.len() as int
        };
        assert(total =~= grown + rest);
        assert(total.len() == total1.len() + d0);
        assert(m1 == m);
        assert(forall|j: int| 0 <= j < total1.len() ==> total1[j] == total[j + d0]) by {
            assert(forall|j: int|
                0 <= j < s1.len() ==> total1[j] == s1[j] && total[j + d0] == grown[j + d0]);
            assert(forall|j: int|
                s1.len() <= j < total1.len() ==> total1[j] == rest[j - s1.len()]
                    && total[j + d0] == rest[j + d0 - grown.len()]);
        }
        let left = total1.skip(total1.len() - m1);
        let right = total.skip(total.len() - m);
        assert forall|i: int| 0 <= i < left.len() implies left[i] == right[i] by {
            assert(left[i] == total1[total1.len() - m1 + i]);
            assert(total1[total1.len() - m1 + i] == total[total1.len() - m1 + i + d0]);
            assert(right[i] == total[total.len() - m + i]);
        }
        assert(left =~= right);
    }
}

/// Inserting at least `cap` positions leaves exactly the most recent `cap`
/// of them, oldest first, whatever the buffer held before.
pub proof fn lemma_trace_retains_recent(s: Seq<Vec3Fx>, ps: Seq<Vec3Fx>, cap: nat)
    requires
        s.len() <= cap,
        ps.len() >= cap,
    ensures
        trace_push_all_spec(s, ps, cap) =~= ps.skip(ps.len() - cap),
{
    lemma_trace_push_all_suffix(s, ps, cap);
    let total = s + ps;
    let left = total.skip(total.len() - cap);
    let right = ps.skip(ps.len() - cap);
    assert forall|i: int| 0 <= i < left.len() implies left[i] == right[i] by {
        assert(left[i] == total[total.len() - cap + i]);
        assert(total[total.len() - cap + i] == ps[ps.len() - cap + i]);
        assert(right[i] == ps[ps.len() - cap + i]);
    }
    assert(left =~= right);
}

} // verus!
