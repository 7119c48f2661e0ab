use rendy_lifecycle::buffer::{Buffer, MultiShot, OneShot, PrimaryLevel};
use rendy_lifecycle::device::CommandBuffer;
use rendy_lifecycle::family::FamilyId;
use rendy_lifecycle::frame::{FrameBound, Frames};

#[derive(Debug, PartialEq)]
struct RawBuffer(u32);

impl CommandBuffer for RawBuffer {
    type Submit = u32;

    fn submit(&self) -> u32 {
        self.0
    }
}

#[test]
fn release_while_pending_waits_for_frame_retirement() {
    let mut frames: Frames<RawBuffer> = Frames::new();
    let earlier = frames.next_frame();
    let bound = frames.next_frame();
    let b = Buffer::from_raw(FrameBound::bind(RawBuffer(8), bound), (), PrimaryLevel, (), FamilyId { index: 0 });
    let (submit, pending) = b.begin(OneShot).finish().submit_once();
    assert_eq!(submit.family(), FamilyId { index: 0 });
    let payload = submit.into_inner();
    assert_eq!(payload.frame(), bound);
    assert_eq!(*payload.inner_ref(), 8);
    pending.release(&mut frames);
    assert_eq!(frames.deferred_len(), 1);
    assert!(frames.retire(earlier).is_empty());
    assert!(!frames.is_retired(bound));
    assert_eq!(frames.deferred_len(), 1);
    let reclaimed = frames.retire(bound);
    assert_eq!(reclaimed, vec![RawBuffer(8)]);
    assert!(frames.is_retired(bound));
    assert_eq!(frames.deferred_len(), 0);
    assert!(frames.retire(bound).is_empty());
}

#[test]
fn retire_keeps_later_frames_in_order() {
    let mut frames: Frames<u32> = Frames::new();
    let f0 = frames.next_frame();
    let f1 = frames.next_frame();
    let f2 = frames.next_frame();
    assert_eq!((f0.index(), f1.index(), f2.index()), (0, 1, 2));
    frames.defer(FrameBound::bind(20, f2));
    frames.defer(FrameBound::bind(10, f1));
    frames.defer(FrameBound::bind(0, f0));
    frames.defer(FrameBound::bind(11, f1));
    assert_eq!(frames.retire(f1), vec![10, 0, 11]);
    assert_eq!(frames.deferred_len(), 1);
    assert!(frames.retire(f0).is_empty());
    assert_eq!(frames.retire(f2), vec![20]);
}

#[test]
fn frame_bound_buffer_submits_bound_payload() {
    let mut frames: Frames<RawBuffer> = Frames::new();
    let f = frames.next_frame();
    let b = Buffer::from_raw(FrameBound::bind(RawBuffer(3), f), (), PrimaryLevel, (), FamilyId { index: 4 });
    let (s, pending) = b.begin(MultiShot(())).finish().submit();
    assert_eq!(s.family(), FamilyId { index: 4 });
    let payload = s.into_inner();
    assert_eq!(payload.frame().index(), f.index());
    pending.complete().release(&mut frames);
    assert_eq!(frames.retire(f), vec![RawBuffer(3)]);
}
