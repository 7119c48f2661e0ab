use rendy_lifecycle::buffer::{
    Buffer, IndividualReset, MultiShot, OneShot, PrimaryLevel, SimultaneousUse, Usage, UsageFlags,
    ONE_TIME_SUBMIT_BITS, SIMULTANEOUS_USE_BITS,
};
use rendy_lifecycle::device::CommandBuffer;
use rendy_lifecycle::encoder::Encoder;
use rendy_lifecycle::family::FamilyId;

#[derive(Debug, PartialEq)]
struct RawBuffer {
    id: u32,
    commands: Vec<u32>,
}

impl CommandBuffer for RawBuffer {
    type Submit = (u32, usize);

    fn submit(&self) -> (u32, usize) {
        (self.id, self.commands.len())
    }
}

fn raw(id: u32) -> RawBuffer {
    RawBuffer { id, commands: Vec::new() }
}

#[test]
fn usage_flags_follow_policy_table() {
    assert_eq!(OneShot.flags().bits(), ONE_TIME_SUBMIT_BITS);
    assert_eq!(OneShot.flags().bits(), 1);
    assert_eq!(MultiShot(()).flags().bits(), 0);
    assert_eq!(MultiShot(SimultaneousUse).flags().bits(), SIMULTANEOUS_USE_BITS);
    assert_eq!(MultiShot(SimultaneousUse).flags().bits(), 4);
    assert_eq!(UsageFlags::render_pass_continue().bits(), 2);
    assert_eq!(UsageFlags::empty(), MultiShot(()).flags());
}

#[test]
fn one_shot_round_trip_ends_invalid_and_resets() {
    let b = Buffer::from_raw(raw(1), (), PrimaryLevel, IndividualReset, FamilyId { index: 2 });
    let mut b = b.begin(OneShot);
    b.buffer().commands.push(10);
    b.buffer().commands.push(11);
    let b = b.finish();
    let (submit, pending) = b.submit_once();
    assert_eq!(submit.family(), FamilyId { index: 2 });
    assert_eq!(submit.into_inner(), (1, 2));
    let invalid = pending.complete();
    let initial = invalid.reset();
    let back = initial.dispose();
    assert_eq!(back, RawBuffer { id: 1, commands: vec![10, 11] });
}

#[test]
fn multi_shot_round_trip_ends_executable() {
    let b = Buffer::from_raw(raw(3), (), PrimaryLevel, IndividualReset, FamilyId { index: 0 });
    let b = b.begin(MultiShot(())).finish();
    let (first, pending) = b.submit();
    assert_eq!(first.family(), FamilyId { index: 0 });
    let executable = pending.complete();
    // Executable again: it can be submitted a second time without recording.
    let (second, pending) = executable.submit();
    assert_eq!(second.into_inner(), (3, 0));
    let executable = pending.complete();
    assert_eq!(executable.dispose(), raw(3));
}

#[test]
fn simultaneous_use_resubmits_while_pending() {
    let b = Buffer::from_raw(raw(4), (), PrimaryLevel, IndividualReset, FamilyId { index: 5 });
    let b = b.begin(MultiShot(SimultaneousUse)).finish();
    let (first, pending) = b.submit();
    let second = pending.resubmit();
    assert_eq!(first.family(), FamilyId { index: 5 });
    assert_eq!(second.family(), FamilyId { index: 5 });
    assert_eq!(second.into_inner(), (4, 0));
    let executable = pending.complete();
    let (third, pending) = executable.submit();
    assert_eq!(third.family(), FamilyId { index: 5 });
    let initial = pending.complete().reset();
    assert_eq!(initial.dispose(), raw(4));
}

#[test]
fn submit_token_carries_buffer_family() {
    for family in [0u32, 1, 7, u32::MAX] {
        let b = Buffer::from_raw(raw(9), (), PrimaryLevel, (), FamilyId { index: family });
        let (s, pending) = b.begin(OneShot).finish().submit_once();
        assert_eq!(s.family(), FamilyId { index: family });
        pending.complete().mark_reset().dispose();
    }
}

#[test]
fn reset_from_recording_executable_and_invalid() {
    let family = FamilyId { index: 1 };
    let recording = Buffer::from_raw(raw(1), (), PrimaryLevel, IndividualReset, family).begin(OneShot);
    let again = recording.reset().begin(MultiShot(())).finish();
    let again = again.reset();
    let (_, pending) = again.begin(OneShot).finish().submit_once();
    let initial = pending.complete().reset();
    assert_eq!(initial.dispose(), raw(1));
}

#[test]
fn mark_reset_after_pool_reset() {
    let b = Buffer::from_raw(raw(2), (), PrimaryLevel, (), FamilyId { index: 0 });
    let b = b.begin(MultiShot(())).finish().mark_reset();
    let b = b.begin(OneShot).mark_reset();
    assert_eq!(b.dispose(), raw(2));
}

#[test]
fn every_path_discharges_its_sentinel() {
    let f = FamilyId { index: 0 };
    Buffer::from_raw(raw(0), (), PrimaryLevel, IndividualReset, f).dispose();
    Buffer::from_raw(raw(0), (), PrimaryLevel, IndividualReset, f).begin(OneShot).dispose();
    Buffer::from_raw(raw(0), (), PrimaryLevel, IndividualReset, f)
        .begin(OneShot)
        .finish()
        .dispose();
    let (_, p) = Buffer::from_raw(raw(0), (), PrimaryLevel, (), f).begin(OneShot).finish().submit_once();
    p.complete().dispose();
}
