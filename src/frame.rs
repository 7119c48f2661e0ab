//! Frame tokens, values bound to a frame, and the tracker that holds released
//! values back until their frame is retired by the device.

use vstd::prelude::*;

use crate::device::CommandBuffer;

verus! {

/// Opaque token of one rendered frame.
#[derive(Clone, Copy, Debug, PartialEq, Eq, Hash, Structural)]
pub struct Frame {
    index: u64,
}

impl View for Frame {
    type V = u64;

    closed spec fn view(&self) -> u64 {
        self.index
    }
}

impl Frame {
    /// Position of the frame in issue order.
    pub fn index(&self) -> (r: u64)
        ensures
            r == self@,
    {
        self.index
    }
}

/// A value tied to a frame: it may be reclaimed only after that frame retires.
#[derive(Debug)]
pub struct FrameBound<T> {
    frame: Frame,
    value: T,
}

impl<T> View for FrameBound<T> {
    type V = (u64, T);

    closed spec fn view(&self) -> (u64, T) {
        (self.frame@, self.value)
    }
}

impl<T> FrameBound<T> {
    /// Bind `value` to `frame`.
    pub fn bind(value: T, frame: Frame) -> (r: FrameBound<T>)
        ensures
            r@ == (frame@, value),
    {
        FrameBound { frame, value }
    }

    /// The frame the value is bound to.
    pub fn frame(&self) -> (r: Frame)
        ensures
            r@ == self@.0,
    {
        self.frame
    }

    /// Shared access to the bound value.
    pub fn inner_ref(&self) -> (r: &T)
        ensures
            *r == self@.1,
    {
        &self.value
    }

    /// Mutable access to the bound value; the binding stays.
    pub fn inner_mut(&mut self) -> (r: &mut T)
        ensures
            *r == old(self)@.1,
            final(self)@ == (old(self)@.0, *final(r)),
    {
        &mut self.value
    }
}

impl<B: CommandBuffer> CommandBuffer for FrameBound<B> {
    type Submit = FrameBound<B::Submit>;

    /// Submitting a frame-bound buffer yields a payload bound to the same frame.
    fn submit(&self) -> (r: FrameBound<B::Submit>)
        ensures
            r@.0 == self@.0,
    {
        FrameBound::bind(self.value.submit(), self.frame)
    }
}

/// What a frame tracker holds.
pub struct FramesView<T> {
    /// Index of the next frame to be issued.
    pub next: u64,
    /// Every frame whose index is below this one is retired.
    pub retired: u64,
    /// Released values, with their frame index, in order of release.
    pub deferred: Seq<(u64, T)>,
}

/// The values of `s` whose frame is below `retired`, in order.
pub open spec fn reclaimable<T>(s: Seq<(u64, T)>, retired: u64) -> Seq<T>
    decreases s.len(),
{
    if s.len() == 0 {
        Seq::empty()
    } else {
        let rest = reclaimable(s.drop_first(), retired);
        if s[0].0 < retired {
            seq![s[0].1] + rest
        } else {
            rest
        }
    }
}

/// The entries of `s` whose frame is not below `retired`, in order.
pub open spec fn held_back<T>(s: Seq<(u64, T)>, retired: u64) -> Seq<(u64, T)>
    decreases s.len(),
{
    if s.len() == 0 {
        Seq::empty()
    } else {
        let rest = held_back(s.drop_first(), retired);
        if s[0].0 < retired {
            rest
        } else {
            seq![s[0]] + rest
        }
    }
}

/// Issues frame tokens, learns of their retirement, and holds released values
/// until the frame they are bound to has retired.
#[derive(Debug)]
pub struct Frames<T> {
    next: u64,
    retired: u64,
    deferred: Vec<(u64, T)>,
}

impl<T> View for Frames<T> {
    type V = FramesView<T>;

    closed spec fn view(&self) -> FramesView<T> {
        FramesView { next: self.next, retired: self.retired, deferred: self.deferred@ }
    }
}

impl<T> Frames<T> {
    /// A tracker that has issued no frame yet.
    pub fn new() -> (r: Frames<T>)
        ensures
            r@ == (FramesView::<T> { next: 0, retired: 0, deferred: Seq::empty() }),
    {
        Frames { next: 0, retired: 0, deferred: Vec::new() }
    }

    /// Issue the token of the next frame.
    pub fn next_frame(&mut self) -> (r: Frame)
        requires
            old(self)@.next < u64::MAX,
        ensures
            r@ == old(self)@.next,
            final(self)@ == (FramesView { next: (old(self)@.next + 1) as u64, ..old(self)@ }),
    {
        let frame = Frame { index: self.next };
        self.next = self.next + 1;
        frame
    }

    /// Whether `frame` is known to be retired.
    pub fn is_retired(&self, frame: Frame) -> (r: bool)
        ensures
            r == (frame@ < self@.retired),
    {
        frame.index < self.retired
    }

    /// Number of released values still held back.
    pub fn deferred_len(&self) -> (r: usize)
        ensures
            r == self@.deferred.len(),
    {
        self.deferred.len()
    }

    /// Hold `value` back until its frame is retired.
    pub fn defer(&mut self, value: FrameBound<T>)
        ensures
            final(self)@ == (FramesView { deferred: old(self)@.deferred.push(value@), ..old(self)@ }),
    {
        let FrameBound { frame, value } = value;
        self.deferred.push((frame.index, value));
    }

    /// Record that `frame` and every earlier frame are retired, and hand back
    /// the released values that this makes safe to reclaim, in order of release.
    pub fn retire(&mut self, frame: Frame) -> (r: Vec<T>)
        requires
            frame@ < u64::MAX,
        ensures
            final(self)@.retired == (if frame@ + 1 > old(self)@.retired {
                (frame@ + 1) as u64
            } else {
                old(self)@.retired
            }),
            final(self)@.next == old(self)@.next,
            r@ == reclaimable(old(self)@.deferred, final(self)@.retired),
            final(self)@.deferred == held_back(old(self)@.deferred, final(self)@.retired),
    {
        if frame.index + 1 > self.retired {
            self.retired = frame.index + 1;
        }
        let retired = self.retired;
        let mut todo: Vec<(u64, T)> = Vec::new();
        std::mem::swap(&mut todo, &mut self.deferred);
        let ghost all = todo@;
        let mut out: Vec<T> = Vec::new();
        while todo.len() > 0
            invariant
                self.retired == retired,
                self.next == old(self).next,
                reclaimable(all, retired) == out@ + reclaimable(todo@, retired),
                held_back(all, retired) == self.deferred@ + held_back(todo@, retired),
            decreases todo.len(),
        {
            let ghost before = todo@;
            let (index, value) = todo.remove(0);
            assert(before.drop_first() =~= todo@);
            if index < retired {
                assert(out@.push(value) + reclaimable(todo@, retired) =~= out@ + (seq![value]
                    + reclaimable(todo@, retired)));
                out.push(value);
            } else {
                assert(self.deferred@.push((index, value)) + held_back(todo@, retired)
                    =~= self.deferred@ + (seq![(index, value)] + held_back(todo@, retired)));
                self.deferred.push((index, value));
            }
        }
        assert(out@ + reclaimable(todo@, retired) =~= out@);
        assert(self.deferred@ + held_back(todo@, retired) =~= self.deferred@);
        out
    }
}

} // verus!
