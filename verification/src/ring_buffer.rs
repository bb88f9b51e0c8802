use std::collections::VecDeque;
use std::sync::Arc;
use vstd::prelude::*;

use crate::models::Frame;

verus! {

/// The newest `cap` elements of `s`, oldest first (all of `s` when it is short enough).
pub open spec fn keep_newest(s: Seq<Frame>, cap: nat) -> Seq<Frame> {
    if s.len() <= cap {
        s
    } else {
        s.skip(s.len() - cap)
    }
}

/// The contents of a buffer of capacity `cap` holding `s` after one more frame is pushed.
pub open spec fn pushed(s: Seq<Frame>, cap: nat, frame: Frame) -> Seq<Frame> {
    keep_newest(s.push(frame), cap)
}

/// The contents of a fresh buffer of capacity `cap` after pushing `frames` in order.
pub open spec fn replay(cap: nat, frames: Seq<Frame>) -> Seq<Frame>
    decreases frames.len(),
{
    if frames.len() == 0 {
        Seq::empty()
    } else {
        pushed(replay(cap, frames.drop_last()), cap, frames.last())
    }
}

/// Another shared pointer to the same frame, from `Arc::clone`.
///
/// Claims that the new pointer points to an equal frame, which `Arc::clone`
/// guarantees by pointing to the very same allocation.
#[verifier::external_body]
fn share_frame(frame: &Arc<Frame>) -> (r: Arc<Frame>)
    ensures
        *r == **frame,
{
    Arc::clone(frame)
}

/// A bounded buffer of recently captured frames, kept in RAM only.
///
/// When full, pushing a frame evicts the oldest one. Frames are held behind
/// `Arc` so that readers share the image bytes instead of copying them.
pub struct FrameRingBuffer {
    buffer: VecDeque<Arc<Frame>>,
    capacity: usize,
}

impl View for FrameRingBuffer {
    type V = Seq<Frame>;

    /// The frames held, oldest first.
    closed spec fn view(&self) -> Seq<Frame> {
        self.buffer@.map_values(|a: Arc<Frame>| *a)
    }
}

impl FrameRingBuffer {
    #[verifier::type_invariant]
    spec fn well_formed(self) -> bool {
        &&& 0 < self.capacity
        &&& self.buffer@.len() <= self.capacity
    }

    /// The largest number of frames the buffer holds.
    pub closed spec fn max_frames(self) -> nat {
        self.capacity as nat
    }

    /// Creates an empty buffer that holds up to `capacity` frames.
    pub fn new(capacity: usize) -> (rb: Self)
        requires
            capacity > 0,
        ensures
            rb@ == Seq::<Frame>::empty(),
            rb.max_frames() == capacity,
    {
        let rb = FrameRingBuffer { buffer: VecDeque::with_capacity(capacity), capacity };
        assert(rb@ =~= Seq::<Frame>::empty());
        rb
    }

    /// Appends `frame` as the newest entry, first evicting the oldest ones while full.
    pub fn push(&mut self, frame: Frame)
        ensures
            final(self)@ == pushed(old(self)@, old(self).max_frames(), frame),
            final(self).max_frames() == old(self).max_frames(),
            final(self)@.len() <= final(self).max_frames(),
    {
        proof {
            use_type_invariant(&*self);
        }
        let ghost start = self@;
        let cap = self.capacity;
        let mut frames: VecDeque<Arc<Frame>> = VecDeque::new();
        std::mem::swap(&mut frames, &mut self.buffer);
        assert(frames@.map_values(|a: Arc<Frame>| *a) == start);
        while frames.len() >= cap
            invariant
                0 < cap,
                frames@.len() <= cap,
                frames@.len() <= start.len(),
                frames@.len() == start.len() || frames@.len() >= cap - 1,
                frames@.map_values(|a: Arc<Frame>| *a) == start.skip(start.len() - frames@.len()),
            decreases frames@.len(),
        {
            let ghost before = frames@.map_values(|a: Arc<Frame>| *a);
            frames.pop_front();
            assert(frames@.map_values(|a: Arc<Frame>| *a) =~= before.drop_first());
            assert(before.drop_first() =~= start.skip(start.len() - frames@.len()));
        }
        let ghost kept = frames@.map_values(|a: Arc<Frame>| *a);
        frames.push_back(Arc::new(frame));
        assert(frames@.map_values(|a: Arc<Frame>| *a) =~= kept.push(frame));
        assert(kept.push(frame) =~= pushed(start, cap as nat, frame));
        self.buffer = frames;
    }

    /// The number of frames currently held.
    pub fn len(&self) -> (n: usize)
        ensures
            n == self@.len(),
            n <= self.max_frames(),
    {
        proof {
            use_type_invariant(self);
        }
        self.buffer.len()
    }

    /// Whether the buffer holds no frame.
    pub fn is_empty(&self) -> (b: bool)
        ensures
            b == (self@.len() == 0),
    {
        self.buffer.len() == 0
    }

    /// A shared pointer to the most recently pushed frame, if any.
    pub fn latest(&self) -> (r: Option<Arc<Frame>>)
        ensures
            self@.len() == 0 ==> r is None,
            self@.len() > 0 ==> (r matches Some(f) && *f == self@.last()),
    {
        let n = self.buffer.len();
        if n == 0 {
            None
        } else {
            Some(share_frame(&self.buffer[n - 1]))
        }
    }

    /// A snapshot of every frame held, oldest first.
    pub fn to_vec(&self) -> (v: Vec<Arc<Frame>>)
        ensures
            v@.map_values(|a: Arc<Frame>| *a) == self@,
    {
        let n = self.buffer.len();
        let mut out: Vec<Arc<Frame>> = Vec::with_capacity(n);
        let mut i: usize = 0;
        while i < n
            invariant
                n == self.buffer@.len(),
                i <= n,
                out@.len() == i,
                forall|j: int| 0 <= j < i ==> *#[trigger] out@[j] == *self.buffer@[j],
            decreases n - i,
        {
            out.push(share_frame(&self.buffer[i]));
            i = i + 1;
        }
        assert(out@.map_values(|a: Arc<Frame>| *a) =~= self@);
        out
    }
}

/// Pushing never lets the buffer exceed its room, and fills it one frame at a time until then.
pub proof fn lemma_push_len(s: Seq<Frame>, cap: nat, frame: Frame)
    requires
        0 < cap,
        s.len() <= cap,
    ensures
        pushed(s, cap, frame).len() == if s.len() < cap { s.len() + 1 } else { cap },
        pushed(s, cap, frame).len() <= cap,
{
}

/// The frame just pushed is the latest one, and the frames kept keep their order.
pub proof fn lemma_push_latest(s: Seq<Frame>, cap: nat, frame: Frame)
    requires
        0 < cap,
    ensures
        pushed(s, cap, frame).len() > 0,
        pushed(s, cap, frame).last() == frame,
        pushed(s, cap, frame).drop_last() == keep_newest(s, (cap - 1) as nat),
{
    let t = s.push(frame);
    if t.len() > cap {
        assert(t.skip(t.len() - cap).drop_last() =~= s.skip(s.len() - (cap - 1)));
    } else {
        assert(t.drop_last() =~= s);
    }
}

/// A buffer filled from empty holds exactly the newest `cap` frames pushed, oldest first.
pub proof fn lemma_replay_keeps_newest(cap: nat, frames: Seq<Frame>)
    requires
        0 < cap,
    ensures
        replay(cap, frames) == keep_newest(frames, cap),
    decreases frames.len(),
{
    if frames.len() == 0 {
        assert(keep_newest(frames, cap) =~= Seq::<Frame>::empty());
    } else {
        let init = frames.drop_last();
        let f = frames.last();
        lemma_replay_keeps_newest(cap, init);
        let k = keep_newest(init, cap);
        assert(frames =~= init.push(f));
        if init.len() < cap {
            assert(k.push(f) =~= frames);
        } else {
            let t = k.push(f);
            assert(t.skip(t.len() - cap) =~= frames.skip(frames.len() - cap));
        }
    }
}

} // verus!
