//! Ordering the frames of a pipe run: which frames to request and when, and
//! which received frames can be written, always in frame order.
//!
//! The caller performs the requests and hands each frame that arrives back to
//! the scheduler; the scheduler answers with the next frame to request, if
//! any, and the frames that are now ready to be written.
use vstd::prelude::*;

verus! {

/// The leading received frames of a window: how many slots at its front are
/// filled, starting at `i`.
pub open spec fn filled_prefix<T>(w: Seq<Option<T>>, i: nat) -> nat
    decreases w.len() - i,
{
    if i < w.len() && w[i as int] is Some {
        filled_prefix(w, i + 1)
    } else {
        i
    }
}

/// How many slots of a window wait for their frame.
pub open spec fn waiting<T>(w: Seq<Option<T>>) -> nat
    decreases w.len(),
{
    if w.len() == 0 {
        0
    } else {
        (if w[0] is None {
            1nat
        } else {
            0nat
        }) + waiting(w.drop_first())
    }
}

/// Adding a slot at the end adds one waiting frame when the slot is empty.
proof fn lemma_waiting_push<T>(w: Seq<Option<T>>, x: Option<T>)
    ensures
        waiting(w.push(x)) == waiting(w) + if x is None {
            1nat
        } else {
            0nat
        },
    decreases w.len(),
{
    if w.len() > 0 {
        assert(w.push(x).drop_first() == w.drop_first().push(x));
        assert(w.push(x)[0] == w[0]);
        lemma_waiting_push(w.drop_first(), x);
    } else {
        assert(w.push(x).drop_first() == Seq::<Option<T>>::empty());
        assert(w.push(x)[0] == x);
        assert(waiting(Seq::<Option<T>>::empty()) == 0);
        assert(waiting(w) == 0);
    }
}

/// Filling a waiting slot leaves one waiting frame less.
proof fn lemma_waiting_fill<T>(w: Seq<Option<T>>, i: int, x: T)
    requires
        0 <= i < w.len(),
        w[i] is None,
    ensures
        waiting(w.update(i, Some(x))) + 1 == waiting(w),
    decreases w.len(),
{
    if i > 0 {
        assert(w.update(i, Some(x)).drop_first() == w.drop_first().update(i - 1, Some(x)));
        lemma_waiting_fill(w.drop_first(), i - 1, x);
    } else {
        assert(w.update(i, Some(x)).drop_first() == w.drop_first());
    }
}

/// Dropping filled slots from the front leaves as many waiting frames.
proof fn lemma_waiting_skip<T>(w: Seq<Option<T>>, k: int)
    requires
        0 <= k <= w.len(),
        forall|j: int| 0 <= j < k ==> (#[trigger] w[j]) is Some,
    ensures
        waiting(w.skip(k)) == waiting(w),
    decreases k,
{
    if k > 0 {
        assert(w.skip(k) == w.drop_first().skip(k - 1));
        assert forall|j: int| 0 <= j < k - 1 implies (#[trigger] w.drop_first()[j]) is Some by {
            assert(w.drop_first()[j] == w[j + 1]);
        }
        lemma_waiting_skip(w.drop_first(), k - 1);
    } else {
        assert(w.skip(0) == w);
    }
}

/// A window of empty slots has all of them waiting.
proof fn lemma_waiting_all_empty<T>(w: Seq<Option<T>>)
    requires
        forall|j: int| 0 <= j < w.len() ==> (#[trigger] w[j]) is None,
    ensures
        waiting(w) == w.len(),
    decreases w.len(),
{
    if w.len() > 0 {
        assert forall|j: int| 0 <= j < w.drop_first().len() implies (#[trigger] w.drop_first()[j]) is None by {
            assert(w.drop_first()[j] == w[j + 1]);
        }
        lemma_waiting_all_empty(w.drop_first());
    }
}

/// The frame numbers `first`, `first + 1`, ... for `n` frames.
pub open spec fn frame_numbers(first: int, n: nat) -> Seq<usize> {
    Seq::new(n, |i: int| (first + i) as usize)
}

/// Schedules the frames `first..=last` of a clip for a pipe run.
#[derive(Debug)]
pub struct FrameScheduler<T> {
    first: usize,
    last: usize,
    next_request: usize,
    next_frame: usize,
    window: Vec<Option<T>>,
}

impl<T> FrameScheduler<T> {
    /// The first frame of the run.
    pub closed spec fn first(&self) -> int {
        self.first as int
    }

    /// The last frame of the run.
    pub closed spec fn last(&self) -> int {
        self.last as int
    }

    /// The next frame to request; the frames before it have been requested.
    pub closed spec fn requested_upto(&self) -> int {
        self.next_request as int
    }

    /// The next frame to write; the frames before it have been written.
    pub closed spec fn written_upto(&self) -> int {
        self.next_frame as int
    }

    /// For each requested frame not written yet, in order: the frame if it
    /// has arrived.
    pub closed spec fn window(&self) -> Seq<Option<T>> {
        self.window@
    }

    /// The number of frames in the run.
    pub open spec fn total(&self) -> int {
        self.last() - self.first() + 1
    }

    /// Whether every frame of the run has been written.
    pub open spec fn done(&self) -> bool {
        self.written_upto() == self.last() + 1
    }

    /// The frames before `written_upto` have been written and those from it
    /// to `requested_upto` are in the window; the frame at the front of the
    /// window has not arrived, or it would have been written.
    pub open spec fn wf(&self) -> bool {
        &&& self.first() <= self.last()
        &&& self.first() <= self.written_upto() <= self.requested_upto() <= self.last() + 1
        &&& self.last() + 1 <= usize::MAX
        &&& self.window().len() == self.requested_upto() - self.written_upto()
        &&& self.window().len() > 0 ==> self.window()[0] is None
    }

    /// A scheduler for the frames `first..=last`, with nothing requested yet.
    pub fn new(first: usize, last: usize) -> (s: Self)
        requires
            first <= last < usize::MAX,
        ensures
            s.wf(),
            s.first() == first,
            s.last() == last,
            s.requested_upto() == first,
            s.written_upto() == first,
    {
        FrameScheduler { first, last, next_request: first, next_frame: first, window: Vec::new() }
    }

    /// The first requests: as many frames from the start of the run as there
    /// may be requests at once, and no more than the run holds.
    pub fn initial_requests(&mut self, num_requests: usize) -> (r: Vec<usize>)
        requires
            old(self).wf(),
            old(self).requested_upto() == old(self).first(),
        ensures
            final(self).wf(),
            r@ == frame_numbers(
                old(self).first(),
                (if num_requests < old(self).total() {
                    num_requests as int
                } else {
                    old(self).total()
                }) as nat,
            ),
            final(self).first() == old(self).first(),
            final(self).last() == old(self).last(),
            final(self).written_upto() == old(self).written_upto(),
            final(self).requested_upto() == old(self).first() + r@.len(),
            waiting(final(self).window()) == r@.len(),
    {
        let total = self.last - self.first + 1;
        let count = if num_requests < total {
            num_requests
        } else {
            total
        };
        let mut out: Vec<usize> = Vec::new();
        let mut i: usize = 0;
        while i < count
            invariant
                self.first <= self.last,
                count <= self.last - self.first + 1,
                self.last + 1 <= usize::MAX,
                self.first == old(self).first,
                self.last == old(self).last,
                self.next_frame == old(self).next_frame,
                self.next_frame == self.first,
                0 <= i <= count,
                self.next_request == self.first + i,
                self.window@.len() == i,
                forall|j: int| 0 <= j < i ==> self.window@[j] is None,
                out@ == frame_numbers(self.first as int, i as nat),
            decreases count - i,
        {
            out.push(self.next_request);
            self.window.push(None);
            self.next_request = self.next_request + 1;
            i = i + 1;
            assert(out@ == frame_numbers(self.first as int, i as nat));
        }
        proof {
            lemma_waiting_all_empty(self.window@);
        }
        out
    }

    /// Whether frame `n` has been requested and has not arrived yet.
    pub fn is_outstanding(&self, n: usize) -> (r: bool)
        requires
            self.wf(),
        ensures
            r == (self.written_upto() <= n < self.requested_upto() && self.window()[n
                - self.written_upto()] is None),
    {
        if n < self.next_frame || n >= self.next_request {
            return false;
        }
        self.window[n - self.next_frame].is_none()
    }

    /// Takes an arrived frame. Answers the next frame to request, if frames
    /// of the run are left to request, and the frames now ready to be
    /// written, with their numbers: those that follow the frames already
    /// written without a gap.
    pub fn on_frame(&mut self, n: usize, frame: T) -> (r: (Option<usize>, Vec<(usize, T)>))
        requires
            old(self).wf(),
            old(self).written_upto() <= n < old(self).requested_upto(),
            old(self).window()[n - old(self).written_upto()] is None,
        ensures
            final(self).wf(),
            final(self).first() == old(self).first(),
            final(self).last() == old(self).last(),
            ({
                let w1 = old(self).window().update(n - old(self).written_upto(), Some(frame));
                let w2 = if old(self).requested_upto() <= old(self).last() {
                    w1.push(None)
                } else {
                    w1
                };
                let k = filled_prefix(w2, 0);
                &&& r.0 == if old(self).requested_upto() <= old(self).last() {
                    Some(old(self).requested_upto() as usize)
                } else {
                    None
                }
                &&& final(self).requested_upto() == old(self).requested_upto() + (if r.0 is Some {
                    1int
                } else {
                    0int
                })
                &&& r.1@.len() == k
                &&& forall|i: int|
                    0 <= i < k ==> #[trigger] r.1@[i] == (
                        (old(self).written_upto() + i) as usize,
                        w2[i]->0,
                    )
                &&& final(self).written_upto() == old(self).written_upto() + k
                &&& final(self).window() == w2.skip(k as int)
            }),
            waiting(final(self).window()) + 1 == waiting(old(self).window()) + if r.0 is Some {
                1int
            } else {
                0int
            },
    {
        let ghost w0 = self.window@;
        let ghost w1 = self.window@.update(n - self.next_frame, Some(frame));
        let idx = n - self.next_frame;
        self.window.set(idx, Some(frame));
        let request = if self.next_request <= self.last {
            let m = self.next_request;
            self.window.push(None);
            self.next_request = self.next_request + 1;
            Some(m)
        } else {
            None
        };
        let ghost w2 = self.window@;
        let ghost nf0 = self.next_frame;
        let mut ready: Vec<(usize, T)> = Vec::new();
        proof {
            lemma_filled_prefix_bound(w2, 0);
        }
        while self.window.len() > 0 && self.window[0].is_some()
            invariant
                self.first == old(self).first,
                self.last == old(self).last,
                self.last + 1 <= usize::MAX,
                self.first <= self.last,
                self.first <= nf0 <= self.next_frame <= self.next_request <= self.last + 1,
                self.window@.len() == self.next_request - self.next_frame,
                ready@.len() == self.next_frame - nf0,
                self.window@ == w2.skip(ready@.len() as int),
                w2.len() == self.next_request - nf0,
                filled_prefix(w2, 0) == filled_prefix(w2, ready@.len() as nat),
                ready@.len() <= filled_prefix(w2, 0),
                forall|i: int|
                    0 <= i < ready@.len() ==> #[trigger] ready@[i] == ((nf0 + i) as usize, w2[i]->0),
                forall|i: int| 0 <= i < ready@.len() ==> (#[trigger] w2[i]) is Some,
            decreases self.window@.len(),
        {
            let ghost j = ready@.len() as int;
            let slot = self.window.remove(0);
            match slot {
                Some(f) => {
                    ready.push((self.next_frame, f));
                },
                None => {},
            }
            self.next_frame = self.next_frame + 1;
            proof {
                assert(w2[j] is Some);
                assert(self.window@ == w2.skip(j + 1));
                assert(filled_prefix(w2, j as nat) == filled_prefix(w2, (j + 1) as nat));
                lemma_filled_prefix_bound(w2, (j + 1) as nat);
            }
        }
        proof {
            let j = ready@.len() as int;
            if j < w2.len() {
                assert(w2[j] == self.window@[0]);
            }
            assert(filled_prefix(w2, j as nat) == j);
            lemma_waiting_fill(w0, n - nf0, frame);
            if request is Some {
                lemma_waiting_push(w1, None);
            }
            lemma_waiting_skip(w2, j);
        }
        (request, ready)
    }

    /// Whether every frame of the run has been written.
    pub fn is_done(&self) -> (r: bool)
        requires
            self.wf(),
        ensures
            r == self.done(),
    {
        self.next_frame > self.last
    }

    /// How many frames have been written.
    pub fn frames_written(&self) -> (r: usize)
        requires
            self.wf(),
        ensures
            r == self.written_upto() - self.first(),
    {
        self.next_frame - self.first
    }
}

/// The filled prefix of a window, counted from `i`, ends between `i` and the
/// window's end.
pub proof fn lemma_filled_prefix_bound<T>(w: Seq<Option<T>>, i: nat)
    requires
        i <= w.len(),
    ensures
        i <= filled_prefix(w, i) <= w.len(),
        forall|j: int| i <= j < filled_prefix(w, i) ==> (#[trigger] w[j]) is Some,
        filled_prefix(w, i) < w.len() ==> w[filled_prefix(w, i) as int] is None,
    decreases w.len() - i,
{
    if i < w.len() && w[i as int] is Some {
        lemma_filled_prefix_bound(w, i + 1);
    }
}

} // verus!
